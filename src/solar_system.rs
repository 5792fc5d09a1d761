use vstd::prelude::*;

use crate::osc::{MOD_OSC_COUNT, PRIMARY_OSC_COUNT};

verus! {

/// Which oscillator slots the editor has handed out, one flag per slot.
pub struct SlotAllocator {
    pub primary_slots: Vec<bool>,
    pub mod_slots: Vec<bool>,
}

/// Hands out the first free slot of `slots`: `Some(k)` with slot `k` now
/// taken, or `None` with nothing changed where every slot is taken.
pub open spec fn allocated(old_slots: Seq<bool>, new_slots: Seq<bool>, r: Option<usize>) -> bool {
    match r {
        Some(k) => {
            &&& k < old_slots.len()
            &&& !old_slots[k as int]
            &&& forall|j: int| 0 <= j < k ==> #[trigger] old_slots[j]
            &&& new_slots == old_slots.update(k as int, true)
        },
        None => {
            &&& forall|j: int| 0 <= j < old_slots.len() ==> #[trigger] old_slots[j]
            &&& new_slots == old_slots
        },
    }
}

/// Takes the first free slot of `slots`.
fn allocate_first(slots: &mut Vec<bool>) -> (r: Option<usize>)
    ensures
        allocated(old(slots)@, final(slots)@, r),
{
    let mut i: usize = 0;
    while i < slots.len()
        invariant
            i <= slots@.len(),
            slots@ == old(slots)@,
            forall|j: int| 0 <= j < i ==> #[trigger] slots@[j],
        decreases slots@.len() - i,
    {
        if !slots[i] {
            slots[i] = true;
            return Some(i);
        }
        i += 1;
    }
    None
}

impl SlotAllocator {
    /// One flag per slot of a voice.
    pub open spec fn wf(&self) -> bool {
        &&& self.primary_slots@.len() == PRIMARY_OSC_COUNT
        &&& self.mod_slots@.len() == MOD_OSC_COUNT
    }

    /// Every slot free.
    pub fn new() -> (r: Self)
        ensures
            r.wf(),
            forall|j: int| 0 <= j < PRIMARY_OSC_COUNT ==> !(#[trigger] r.primary_slots@[j]),
            forall|j: int| 0 <= j < MOD_OSC_COUNT ==> !(#[trigger] r.mod_slots@[j]),
    {
        let mut primary_slots: Vec<bool> = Vec::new();
        while primary_slots.len() < PRIMARY_OSC_COUNT
            invariant
                primary_slots@.len() <= PRIMARY_OSC_COUNT,
                forall|j: int| 0 <= j < primary_slots@.len() ==> !(#[trigger] primary_slots@[j]),
            decreases PRIMARY_OSC_COUNT - primary_slots@.len(),
        {
            primary_slots.push(false);
        }
        let mut mod_slots: Vec<bool> = Vec::new();
        while mod_slots.len() < MOD_OSC_COUNT
            invariant
                mod_slots@.len() <= MOD_OSC_COUNT,
                forall|j: int| 0 <= j < mod_slots@.len() ==> !(#[trigger] mod_slots@[j]),
            decreases MOD_OSC_COUNT - mod_slots@.len(),
        {
            mod_slots.push(false);
        }
        SlotAllocator { primary_slots, mod_slots }
    }

    /// Takes the first free primary slot, if any.
    pub fn allocate_primary(&mut self) -> (r: Option<usize>)
        requires
            old(self).wf(),
        ensures
            final(self).wf(),
            allocated(old(self).primary_slots@, final(self).primary_slots@, r),
            final(self).mod_slots@ == old(self).mod_slots@,
    {
        allocate_first(&mut self.primary_slots)
    }

    /// Gives primary slot `slot` back; a slot out of range changes nothing.
    pub fn free_primary(&mut self, slot: usize)
        requires
            old(self).wf(),
        ensures
            final(self).wf(),
            final(self).primary_slots@ == (if slot < PRIMARY_OSC_COUNT {
                old(self).primary_slots@.update(slot as int, false)
            } else {
                old(self).primary_slots@
            }),
            final(self).mod_slots@ == old(self).mod_slots@,
    {
        if slot < PRIMARY_OSC_COUNT {
            self.primary_slots[slot] = false;
        }
    }

    /// Takes the first free modulator slot, if any.
    pub fn allocate_mod(&mut self) -> (r: Option<usize>)
        requires
            old(self).wf(),
        ensures
            final(self).wf(),
            allocated(old(self).mod_slots@, final(self).mod_slots@, r),
            final(self).primary_slots@ == old(self).primary_slots@,
    {
        allocate_first(&mut self.mod_slots)
    }

    /// Gives modulator slot `slot` back; a slot out of range changes nothing.
    pub fn free_mod(&mut self, slot: usize)
        requires
            old(self).wf(),
        ensures
            final(self).wf(),
            final(self).mod_slots@ == (if slot < MOD_OSC_COUNT {
                old(self).mod_slots@.update(slot as int, false)
            } else {
                old(self).mod_slots@
            }),
            final(self).primary_slots@ == old(self).primary_slots@,
    {
        if slot < MOD_OSC_COUNT {
            self.mod_slots[slot] = false;
        }
    }
}

impl Default for SlotAllocator {
    fn default() -> (r: Self)
        ensures
            r.wf(),
            forall|j: int| 0 <= j < PRIMARY_OSC_COUNT ==> !(#[trigger] r.primary_slots@[j]),
            forall|j: int| 0 <= j < MOD_OSC_COUNT ==> !(#[trigger] r.mod_slots@[j]),
    {
        SlotAllocator::new()
    }
}

/// The kind of body that stands for an oscillator in the editor: the sun in
/// the middle, planets (primaries) around it, and moons and asteroids
/// (modulators) around those.
#[derive(Clone, Copy, Debug, PartialEq, Eq, Structural)]
pub enum ObjTy {
    Sun,
    Planet,
    Moon,
    Astroid,
}

impl ObjTy {
    /// The kind of body that circles this one.
    pub open spec fn spec_lower(self) -> ObjTy {
        match self {
            ObjTy::Sun => ObjTy::Planet,
            ObjTy::Planet => ObjTy::Moon,
            ObjTy::Moon => ObjTy::Astroid,
            ObjTy::Astroid => ObjTy::Astroid,
        }
    }

    /// The kind of body that circles this one.
    pub fn lower(&self) -> (r: Self)
        ensures
            r == self.spec_lower(),
    {
        match self {
            ObjTy::Sun => ObjTy::Planet,
            ObjTy::Planet => ObjTy::Moon,
            ObjTy::Moon => ObjTy::Astroid,
            ObjTy::Astroid => ObjTy::Astroid,
        }
    }

    /// Whether the body is a moon or an asteroid, circling another body
    /// than the sun.
    pub fn is_secondary(&self) -> (r: bool)
        ensures
            r == (*self == ObjTy::Moon || *self == ObjTy::Astroid),
    {
        match self {
            ObjTy::Sun | ObjTy::Planet => false,
            _ => true,
        }
    }
}

} // verus!

use vstd::prelude::*;

use crate::com::{GainType, ModulatorState, PrimaryState, SolarState};

verus! {

/// Number of voices that can sound at once.
pub const VOICE_COUNT: usize = 10;

/// Number of primary oscillators per voice.
pub const PRIMARY_OSC_COUNT: usize = 8;

/// Number of modulator oscillators per voice.
pub const MOD_OSC_COUNT: usize = 16;

/// Number of primary oscillators over all voices.
pub const PRIMARY_BANK_SIZE: usize = VOICE_COUNT * PRIMARY_OSC_COUNT;

/// Number of modulator oscillators over all voices.
pub const MODULATOR_BANK_SIZE: usize = VOICE_COUNT * MOD_OSC_COUNT;

/// The arithmetic of a sample type: what the bank needs to step phases and
/// produce samples. Each operation has a spec counterpart that names its
/// result; the bank's contracts are stated over those names, so they hold
/// for whatever arithmetic an implementation carries out.
pub trait Signal: Copy {
    /// The additive identity.
    spec fn spec_zero() -> Self;

    /// The multiplicative identity.
    spec fn spec_one() -> Self;

    /// The fixed base frequency of modulators under absolute modulation.
    spec fn spec_reference_pitch() -> Self;

    /// Sum of two values.
    spec fn spec_plus(self, other: Self) -> Self;

    /// Product of two values.
    spec fn spec_times(self, other: Self) -> Self;

    /// The value divided by a positive count.
    spec fn spec_over(self, count: usize) -> Self;

    /// The value, or zero where it is negative.
    spec fn spec_non_negative(self) -> Self;

    /// `base * 2^speed_index`.
    spec fn spec_octave(base: Self, speed_index: Self) -> Self;

    /// `(phase + 2π · base · multiplier · d_sec) mod 2π`.
    spec fn spec_advance_phase(phase: Self, base: Self, multiplier: Self, d_sec: Self) -> Self;

    /// `cos(phase + offset) · volume`.
    spec fn spec_wave(phase: Self, offset: Self, volume: Self) -> Self;

    /// `x / sqrt(1 + x^2)`.
    spec fn spec_sigmoid(self) -> Self;

    /// The value clamped to `[-1, 1]`.
    spec fn spec_clamp_unit(self) -> Self;

    /// The frequency of MIDI note `note`.
    spec fn spec_note_frequency(note: u8) -> Self;

    fn zero() -> (r: Self)
        ensures
            r == Self::spec_zero(),
    ;

    fn one() -> (r: Self)
        ensures
            r == Self::spec_one(),
    ;

    fn reference_pitch() -> (r: Self)
        ensures
            r == Self::spec_reference_pitch(),
    ;

    fn plus(self, other: Self) -> (r: Self)
        ensures
            r == self.spec_plus(other),
    ;

    fn times(self, other: Self) -> (r: Self)
        ensures
            r == self.spec_times(other),
    ;

    fn over(self, count: usize) -> (r: Self)
        requires
            count > 0,
        ensures
            r == self.spec_over(count),
    ;

    fn non_negative(self) -> (r: Self)
        ensures
            r == self.spec_non_negative(),
    ;

    fn octave(base: Self, speed_index: Self) -> (r: Self)
        ensures
            r == Self::spec_octave(base, speed_index),
    ;

    fn advance_phase(phase: Self, base: Self, multiplier: Self, d_sec: Self) -> (r: Self)
        ensures
            r == Self::spec_advance_phase(phase, base, multiplier, d_sec),
    ;

    fn wave(phase: Self, offset: Self, volume: Self) -> (r: Self)
        ensures
            r == Self::spec_wave(phase, offset, volume),
    ;

    fn sigmoid(self) -> (r: Self)
        ensures
            r == self.spec_sigmoid(),
    ;

    fn clamp_unit(self) -> (r: Self)
        ensures
            r == self.spec_clamp_unit(),
    ;

    fn note_frequency(note: u8) -> (r: Self)
        ensures
            r == Self::spec_note_frequency(note),
    ;
}

/// Selects the base frequency of a modulator: a fixed reference pitch
/// (`Absolute`) or the frequency of the note being played (`Relative`).
#[derive(Clone, Copy, Debug, PartialEq, Eq, Structural)]
pub enum ModulationType {
    Absolute,
    Relative,
}

impl ModulationType {
    /// The other modulation type.
    pub open spec fn toggled(self) -> ModulationType {
        match self {
            ModulationType::Absolute => ModulationType::Relative,
            ModulationType::Relative => ModulationType::Absolute,
        }
    }

    /// Returns the other modulation type.
    pub fn next(&self) -> (r: Self)
        ensures
            r == self.toggled(),
    {
        match self {
            ModulationType::Absolute => ModulationType::Relative,
            ModulationType::Relative => ModulationType::Absolute,
        }
    }
}

impl Default for ModulationType {
    fn default() -> (r: Self)
        ensures
            r == ModulationType::Relative,
    {
        ModulationType::Relative
    }
}

/// Which oscillator a modulator acts on: a primary or another modulator,
/// by its slot within the voice.
#[derive(Clone, Copy, Debug, PartialEq, Eq, Structural)]
pub enum ParentIndex {
    Primary(usize),
    Modulator(usize),
}

/// An audible carrier: its frequency is the note's times `2^speed_index`.
#[derive(Clone, Copy, Debug)]
pub struct PrimaryOsc<F> {
    pub speed_index: F,
    pub volume: F,
    pub is_on: bool,
}

impl<F: Signal> PrimaryOsc<F> {
    /// The frequency of this oscillator for a note of `base_frequency`.
    pub fn freq(&self, base_frequency: F) -> (r: F)
        ensures
            r == F::spec_octave(base_frequency, self.speed_index),
    {
        F::octave(base_frequency, self.speed_index)
    }
}

impl<F: Signal> Default for PrimaryOsc<F> {
    fn default() -> (r: Self)
        ensures
            r == (PrimaryOsc { speed_index: F::spec_zero(), volume: F::spec_zero(), is_on: false }),
    {
        PrimaryOsc { speed_index: F::zero(), volume: F::zero(), is_on: false }
    }
}

/// A modulator: perturbs the frequency of its parent by up to `range`.
#[derive(Clone, Copy, Debug)]
pub struct ModulatorOsc<F> {
    pub parent_osc_slot: ParentIndex,
    pub is_on: bool,
    pub range: F,
    pub speed_index: F,
}

impl<F: Signal> ModulatorOsc<F> {
    /// The frequency of this modulator over `base_frequency`.
    pub fn freq(&self, base_frequency: F) -> (r: F)
        ensures
            r == F::spec_octave(base_frequency, self.speed_index),
    {
        F::octave(base_frequency, self.speed_index)
    }
}

impl<F: Signal> Default for ModulatorOsc<F> {
    fn default() -> (r: Self)
        ensures
            r == (ModulatorOsc {
                parent_osc_slot: ParentIndex::Primary(0),
                is_on: false,
                range: F::spec_zero(),
                speed_index: F::spec_zero(),
            }),
    {
        ModulatorOsc {
            parent_osc_slot: ParentIndex::Primary(0),
            is_on: false,
            range: F::zero(),
            speed_index: F::zero(),
        }
    }
}

/// Run-time state of one oscillator slot. `mod_multiplier` and `mod_counter`
/// gather the contributions of the modulators of this slot during one sample.
#[derive(Clone, Copy, Debug)]
pub struct Oscillator<S, F> {
    pub osc: S,
    pub mod_multiplier: F,
    pub mod_counter: usize,
    pub offset: F,
    pub phase: F,
}

impl<S, F: Signal> Oscillator<S, F> {
    /// An oscillator at phase zero with no modulation gathered.
    pub fn new(osc: S) -> (r: Self)
        ensures
            r == (Oscillator { osc, mod_multiplier: F::spec_one(), mod_counter: 0, offset: F::spec_zero(), phase: F::spec_zero() }),
    {
        Oscillator { osc, mod_multiplier: F::one(), mod_counter: 0, offset: F::zero(), phase: F::zero() }
    }

    /// The mean of the gathered modulation, or one where none was gathered.
    pub fn freq_multiplier(&self) -> (r: F)
        ensures
            r == multiplier_of(*self),
    {
        if self.mod_counter == 0 {
            F::one()
        } else {
            self.mod_multiplier.over(self.mod_counter)
        }
    }
}

/// The mean of the modulation that `o` gathered, or one where it gathered none.
pub open spec fn multiplier_of<S, F: Signal>(o: Oscillator<S, F>) -> F {
    if o.mod_counter == 0 {
        F::spec_one()
    } else {
        o.mod_multiplier.spec_over(o.mod_counter)
    }
}

/// A primary slot as a new bank holds it: off, silent, at phase zero.
pub open spec fn fresh_primary<F: Signal>() -> Primary<F> {
    Oscillator {
        osc: PrimaryOsc { speed_index: F::spec_zero(), volume: F::spec_zero(), is_on: false },
        mod_multiplier: F::spec_one(),
        mod_counter: 0,
        offset: F::spec_zero(),
        phase: F::spec_zero(),
    }
}

/// A modulator slot as a new bank holds it: off, acting on primary slot zero
/// with no range, at phase zero.
pub open spec fn fresh_modulator<F: Signal>() -> Modulator<F> {
    Oscillator {
        osc: ModulatorOsc {
            parent_osc_slot: ParentIndex::Primary(0),
            is_on: false,
            range: F::spec_zero(),
            speed_index: F::spec_zero(),
        },
        mod_multiplier: F::spec_one(),
        mod_counter: 0,
        offset: F::spec_zero(),
        phase: F::spec_zero(),
    }
}

pub type Primary<F> = Oscillator<PrimaryOsc<F>, F>;

pub type Modulator<F> = Oscillator<ModulatorOsc<F>, F>;

/// Flat index of primary slot `osc` of voice `voice`.
pub open spec fn primary_index(voice: int, osc: int) -> int {
    voice * PRIMARY_OSC_COUNT + osc
}

/// Flat index of modulator slot `osc` of voice `voice`.
pub open spec fn modulator_index(voice: int, osc: int) -> int {
    voice * MOD_OSC_COUNT + osc
}

/// The slot `o` after a topology that leaves it unnamed: switched off.
pub open spec fn primary_switched_off<F>(o: Primary<F>) -> Primary<F> {
    Oscillator { osc: PrimaryOsc { is_on: false, ..o.osc }, ..o }
}

/// The modulator `o` after a topology that leaves it unnamed: switched off.
pub open spec fn modulator_switched_off<F>(o: Modulator<F>) -> Modulator<F> {
    Oscillator { osc: ModulatorOsc { is_on: false, ..o.osc }, ..o }
}

/// Primary slot `o` of line `line` after the entries of `states`, in order:
/// each entry for that line sets its offset and its oscillator.
pub open spec fn primary_configured<F>(states: Seq<PrimaryState<F>>, line: int, o: Primary<F>) -> Primary<F>
    decreases states.len(),
{
    if states.len() == 0 {
        o
    } else {
        let prev = primary_configured(states.drop_last(), line, o);
        let s = states.last();
        if s.slot == line {
            Oscillator { offset: s.offset, osc: s.state, ..prev }
        } else {
            prev
        }
    }
}

/// Modulator slot `o` of line `line` after the entries of `states`, in order.
pub open spec fn modulator_configured<F>(states: Seq<ModulatorState<F>>, line: int, o: Modulator<F>) -> Modulator<F>
    decreases states.len(),
{
    if states.len() == 0 {
        o
    } else {
        let prev = modulator_configured(states.drop_last(), line, o);
        let s = states.last();
        if s.slot == line {
            Oscillator { offset: s.offset, osc: s.state, ..prev }
        } else {
            prev
        }
    }
}

impl<F: Signal> Default for OscillatorBank<F> {
    fn default() -> (r: Self)
        ensures
            r.wf(),
            forall|j: int| 0 <= j < PRIMARY_BANK_SIZE ==> #[trigger] r.primary_osc@[j] == fresh_primary::<F>(),
            forall|j: int| 0 <= j < MODULATOR_BANK_SIZE ==> #[trigger] r.modulator_osc@[j] == fresh_modulator::<F>(),
            r.mod_ty == ModulationType::Relative,
            r.gain_ty == GainType::Sigmoid,
            !r.reset_phase,
    {
        OscillatorBank::new()
    }
}

/// Number of modulators among the first `n` slots of voice `voice` that are
/// on and act on `target`.
pub open spec fn inputs_to<F>(mods: Seq<Modulator<F>>, voice: int, n: int, target: ParentIndex) -> nat
    decreases n,
{
    if n <= 0 {
        0
    } else {
        let m = mods[modulator_index(voice, n - 1)];
        inputs_to(mods, voice, n - 1, target) + if m.osc.is_on && m.osc.parent_osc_slot == target {
            1nat
        } else {
            0nat
        }
    }
}

/// At most `n` of the first `n` modulators act on one target.
pub proof fn lemma_inputs_bounded<F>(mods: Seq<Modulator<F>>, voice: int, n: int, target: ParentIndex)
    requires
        n >= 0,
    ensures
        inputs_to(mods, voice, n, target) <= n,
    decreases n,
{
    if n > 0 {
        lemma_inputs_bounded(mods, voice, n - 1, target);
    }
}

/// `b` differs from `a` at most in phases and gathered modulation.
pub open spec fn same_topology<S, F>(a: Seq<Oscillator<S, F>>, b: Seq<Oscillator<S, F>>) -> bool {
    &&& a.len() == b.len()
    &&& forall|j: int| 0 <= j < a.len() ==> (#[trigger] b[j]).osc == a[j].osc && b[j].offset == a[j].offset
}

/// `b` equals `a` outside the `count` slots of voice `voice`.
pub open spec fn same_outside_voice<S, F>(a: Seq<Oscillator<S, F>>, b: Seq<Oscillator<S, F>>, voice: int, count: int) -> bool {
    forall|j: int| 0 <= j < a.len() && j / count != voice ==> #[trigger] b[j] == a[j]
}

/// `b` is `a` with the phase of every slot of voice `voice` set to `phase`.
pub open spec fn voice_rephased<S, F>(a: Seq<Oscillator<S, F>>, b: Seq<Oscillator<S, F>>, voice: int, count: int, phase: F) -> bool {
    &&& b.len() == a.len()
    &&& forall|j: int| 0 <= j < a.len() ==> #[trigger] b[j] == (if j / count == voice {
        Oscillator { phase, ..a[j] }
    } else {
        a[j]
    })
}

/// The base frequency of modulators: the reference pitch under absolute
/// modulation, the note's frequency under relative modulation.
pub open spec fn modulation_base<F: Signal>(mod_ty: ModulationType, base_frequency: F) -> F {
    match mod_ty {
        ModulationType::Absolute => F::spec_reference_pitch(),
        ModulationType::Relative => base_frequency,
    }
}

/// A phase advanced by one sample: the oscillator runs at `base · 2^speed_index`,
/// at least zero, times `multiplier`.
pub open spec fn stepped_phase<F: Signal>(phase: F, base: F, speed_index: F, multiplier: F, d_sec: F) -> F {
    F::spec_advance_phase(phase, F::spec_octave(base, speed_index).spec_non_negative(), multiplier, d_sec)
}

/// What modulator `m` adds to its parent: `1 + cos(phase + offset) · range`.
pub open spec fn contribution<F: Signal>(m: Modulator<F>) -> F {
    F::spec_one().spec_plus(F::spec_wave(m.phase, m.offset, m.osc.range))
}

/// `start` plus, in slot order, the contributions of the first `n`
/// modulators of voice `voice` that are on and act on `target`.
pub open spec fn gathered<F: Signal>(mods: Seq<Modulator<F>>, voice: int, n: int, target: ParentIndex, start: F) -> F
    decreases n,
{
    if n <= 0 {
        start
    } else {
        let m = mods[modulator_index(voice, n - 1)];
        let prev = gathered(mods, voice, n - 1, target, start);
        if m.osc.is_on && m.osc.parent_osc_slot == target {
            prev.spec_plus(contribution(m))
        } else {
            prev
        }
    }
}

/// Sum, in slot order, of `cos(phase + offset) · volume` over the first `n`
/// primaries of voice `voice` that are on.
pub open spec fn wave_sum<F: Signal>(prims: Seq<Primary<F>>, voice: int, n: int) -> F
    decreases n,
{
    if n <= 0 {
        F::spec_zero()
    } else {
        let p = prims[primary_index(voice, n - 1)];
        let prev = wave_sum(prims, voice, n - 1);
        if p.osc.is_on {
            prev.spec_plus(F::spec_wave(p.phase, p.offset, p.osc.volume))
        } else {
            prev
        }
    }
}

/// Number of the first `n` primaries of voice `voice` that are on.
pub open spec fn on_count<F>(prims: Seq<Primary<F>>, voice: int, n: int) -> nat
    decreases n,
{
    if n <= 0 {
        0
    } else {
        on_count(prims, voice, n - 1) + if prims[primary_index(voice, n - 1)].osc.is_on {
            1nat
        } else {
            0nat
        }
    }
}

/// The sample of voice `voice`: the mean wave of its primaries that are on,
/// or zero where none is.
pub open spec fn voice_sample<F: Signal>(prims: Seq<Primary<F>>, voice: int) -> F {
    let n = on_count(prims, voice, PRIMARY_OSC_COUNT as int);
    if n == 0 {
        F::spec_zero()
    } else {
        wave_sum(prims, voice, PRIMARY_OSC_COUNT as int).spec_over(n as usize)
    }
}

/// The multiplier with which primary slot `k` of voice `voice` of bank `a`
/// steps: the mean of its starting multiplier plus what the modulators of
/// `new_mods` (at their new phases) gave it, or one where none acts on it.
pub open spec fn primary_multiplier<F: Signal>(a: OscillatorBank<F>, new_mods: Seq<Modulator<F>>, voice: int, k: int) -> F {
    let o = a.primary_osc@[primary_index(voice, k)];
    let n = inputs_to(a.modulator_osc@, voice, MOD_OSC_COUNT as int, ParentIndex::Primary(k as usize));
    if o.osc.is_on && n > 0 {
        gathered(new_mods, voice, MOD_OSC_COUNT as int, ParentIndex::Primary(k as usize), o.mod_multiplier).spec_over(n as usize)
    } else {
        F::spec_one()
    }
}

/// `b` is `a` after voice `voice` stepped once, for a note of
/// `base_frequency` and a sample of `d_sec`: each modulator advanced its phase
/// with what it had gathered and gathered anew at the new phases; each
/// primary advanced its phase with what it gathered and was cleared.
pub open spec fn voice_stepped<F: Signal>(a: OscillatorBank<F>, b: OscillatorBank<F>, voice: int, base_frequency: F, d_sec: F) -> bool {
    let mod_base = modulation_base(a.mod_ty, base_frequency);
    &&& forall|k: int| 0 <= k < MOD_OSC_COUNT ==> {
        let o = a.modulator_osc@[modulator_index(voice, k)];
        let n = #[trigger] b.modulator_osc@[modulator_index(voice, k)];
        &&& n.osc == o.osc
        &&& n.offset == o.offset
        &&& n.phase == stepped_phase(o.phase, mod_base, o.osc.speed_index, multiplier_of(o), d_sec)
        &&& n.mod_counter == if o.osc.is_on {
            inputs_to(a.modulator_osc@, voice, MOD_OSC_COUNT as int, ParentIndex::Modulator(k as usize))
        } else {
            0
        }
        &&& n.mod_multiplier == if o.osc.is_on {
            gathered(b.modulator_osc@, voice, MOD_OSC_COUNT as int, ParentIndex::Modulator(k as usize), F::spec_zero())
        } else {
            F::spec_zero()
        }
    }
    &&& forall|k: int| 0 <= k < PRIMARY_OSC_COUNT ==> {
        let o = a.primary_osc@[primary_index(voice, k)];
        let n = #[trigger] b.primary_osc@[primary_index(voice, k)];
        &&& n.osc == o.osc
        &&& n.offset == o.offset
        &&& n.mod_counter == 0
        &&& n.mod_multiplier == F::spec_one()
        &&& n.phase == stepped_phase(o.phase, base_frequency, o.osc.speed_index, primary_multiplier(a, b.modulator_osc@, voice, k), d_sec)
    }
}

/// `a` and `b` hold the same oscillators in every slot of voice `voice`.
pub open spec fn same_voice<F>(a: OscillatorBank<F>, b: OscillatorBank<F>, voice: int) -> bool {
    &&& forall|k: int| 0 <= k < PRIMARY_OSC_COUNT ==> #[trigger] a.primary_osc@[primary_index(voice, k)] == b.primary_osc@[primary_index(voice, k)]
    &&& forall|k: int| 0 <= k < MOD_OSC_COUNT ==> #[trigger] a.modulator_osc@[modulator_index(voice, k)] == b.modulator_osc@[modulator_index(voice, k)]
}

/// What is gathered depends only on the phases, offsets and settings of the
/// voice's modulators.
pub proof fn lemma_gathered_frame<F: Signal>(a: Seq<Modulator<F>>, b: Seq<Modulator<F>>, voice: int, n: int, target: ParentIndex, start: F)
    requires
        0 <= n,
        forall|k: int| 0 <= k < n ==> (#[trigger] a[modulator_index(voice, k)]).osc == b[modulator_index(voice, k)].osc
            && a[modulator_index(voice, k)].phase == b[modulator_index(voice, k)].phase
            && a[modulator_index(voice, k)].offset == b[modulator_index(voice, k)].offset,
    ensures
        gathered(a, voice, n, target, start) == gathered(b, voice, n, target, start),
    decreases n,
{
    if n > 0 {
        lemma_gathered_frame(a, b, voice, n - 1, target, start);
        assert(a[modulator_index(voice, n - 1)].osc == b[modulator_index(voice, n - 1)].osc);
    }
}

/// The count of what acts on a target depends only on the settings of the
/// voice's modulators.
pub proof fn lemma_inputs_frame<F>(a: Seq<Modulator<F>>, b: Seq<Modulator<F>>, voice: int, n: int, target: ParentIndex)
    requires
        0 <= n,
        forall|k: int| 0 <= k < n ==> (#[trigger] a[modulator_index(voice, k)]).osc == b[modulator_index(voice, k)].osc,
    ensures
        inputs_to(a, voice, n, target) == inputs_to(b, voice, n, target),
    decreases n,
{
    if n > 0 {
        lemma_inputs_frame(a, b, voice, n - 1, target);
        assert(a[modulator_index(voice, n - 1)].osc == b[modulator_index(voice, n - 1)].osc);
    }
}

/// The wave sum and the count of primaries that are on depend only on the
/// voice's primaries.
pub proof fn lemma_wave_sum_frame<F: Signal>(a: Seq<Primary<F>>, b: Seq<Primary<F>>, voice: int, n: int)
    requires
        0 <= n,
        forall|k: int| 0 <= k < n ==> #[trigger] a[primary_index(voice, k)] == b[primary_index(voice, k)],
    ensures
        wave_sum(a, voice, n) == wave_sum(b, voice, n),
        on_count(a, voice, n) == on_count(b, voice, n),
    decreases n,
{
    if n > 0 {
        lemma_wave_sum_frame(a, b, voice, n - 1);
        assert(a[primary_index(voice, n - 1)] == b[primary_index(voice, n - 1)]);
    }
}

/// At most `n` of the first `n` primaries are on.
proof fn lemma_on_count_bounded<F>(prims: Seq<Primary<F>>, voice: int, n: int)
    requires
        0 <= n,
    ensures
        on_count(prims, voice, n) <= n,
    decreases n,
{
    if n > 0 {
        lemma_on_count_bounded(prims, voice, n - 1);
    }
}

/// A step of one voice reads and writes that voice's slots alone: banks that
/// agree on them before, and after, agree on the step.
pub proof fn lemma_voice_stepped_frame<F: Signal>(
    a: OscillatorBank<F>,
    b: OscillatorBank<F>,
    a2: OscillatorBank<F>,
    b2: OscillatorBank<F>,
    voice: int,
    base_frequency: F,
    d_sec: F,
)
    requires
        0 <= voice,
        voice_stepped(a, b, voice, base_frequency, d_sec),
        a2.mod_ty == a.mod_ty,
        same_voice(a, a2, voice),
        same_voice(b, b2, voice),
    ensures
        voice_stepped(a2, b2, voice, base_frequency, d_sec),
{
    assert forall|t: ParentIndex, start: F| #[trigger] gathered(b.modulator_osc@, voice, MOD_OSC_COUNT as int, t, start)
        == gathered(b2.modulator_osc@, voice, MOD_OSC_COUNT as int, t, start) by {
        lemma_gathered_frame(b.modulator_osc@, b2.modulator_osc@, voice, MOD_OSC_COUNT as int, t, start);
    }
    assert forall|t: ParentIndex| #[trigger] inputs_to(a.modulator_osc@, voice, MOD_OSC_COUNT as int, t)
        == inputs_to(a2.modulator_osc@, voice, MOD_OSC_COUNT as int, t) by {
        lemma_inputs_frame(a.modulator_osc@, a2.modulator_osc@, voice, MOD_OSC_COUNT as int, t);
    }
    assert forall|k: int| 0 <= k < PRIMARY_OSC_COUNT implies #[trigger] primary_multiplier(a, b.modulator_osc@, voice, k)
        == primary_multiplier(a2, b2.modulator_osc@, voice, k) by {
        assert(a.primary_osc@[primary_index(voice, k)] == a2.primary_osc@[primary_index(voice, k)]);
    }
    assert forall|k: int| 0 <= k < MOD_OSC_COUNT implies #[trigger] b2.modulator_osc@[modulator_index(voice, k)]
        == b.modulator_osc@[modulator_index(voice, k)] && a2.modulator_osc@[modulator_index(voice, k)]
        == a.modulator_osc@[modulator_index(voice, k)] by {}
    assert forall|k: int| 0 <= k < PRIMARY_OSC_COUNT implies #[trigger] b2.primary_osc@[primary_index(voice, k)]
        == b.primary_osc@[primary_index(voice, k)] && a2.primary_osc@[primary_index(voice, k)]
        == a.primary_osc@[primary_index(voice, k)] by {}
}

/// Two runs of modulators agree on what reaches `target` when, slot by slot,
/// the same slots act on it with the same contribution.
proof fn lemma_same_contributions<F: Signal>(a: Seq<Modulator<F>>, b: Seq<Modulator<F>>, voice: int, n: int, target: ParentIndex, start: F)
    requires
        0 <= n,
        forall|i: int| 0 <= i < n ==> ((#[trigger] a[modulator_index(voice, i)]).osc.is_on && a[modulator_index(voice, i)].osc.parent_osc_slot == target)
            == (b[modulator_index(voice, i)].osc.is_on && b[modulator_index(voice, i)].osc.parent_osc_slot == target),
        forall|i: int| 0 <= i < n ==> #[trigger] contribution(a[modulator_index(voice, i)]) == contribution(b[modulator_index(voice, i)]),
    ensures
        gathered(a, voice, n, target, start) == gathered(b, voice, n, target, start),
        inputs_to(a, voice, n, target) == inputs_to(b, voice, n, target),
    decreases n,
{
    if n > 0 {
        lemma_same_contributions(a, b, voice, n - 1, target, start);
        let i = n - 1;
        assert(contribution(a[modulator_index(voice, i)]) == contribution(b[modulator_index(voice, i)]));
    }
}

/// Whether a slot number names a slot of the voice.
pub open spec fn parent_in_range(p: ParentIndex) -> bool {
    match p {
        ParentIndex::Primary(k) => k < PRIMARY_OSC_COUNT,
        ParentIndex::Modulator(k) => k < MOD_OSC_COUNT,
    }
}

/// A modulator whose parent is out of range acts on nothing: a step gives
/// the same sample, the same primaries, and the same other modulators as
/// when that modulator is switched off; its own phase steps alike.
pub proof fn lemma_stray_modulator_is_silent<F: Signal>(
    a: OscillatorBank<F>,
    b: OscillatorBank<F>,
    a2: OscillatorBank<F>,
    b2: OscillatorBank<F>,
    voice: int,
    j: int,
    base_frequency: F,
    d_sec: F,
)
    requires
        a.wf(),
        0 <= voice < VOICE_COUNT,
        0 <= j < MOD_OSC_COUNT,
        !parent_in_range(a.modulator_osc@[modulator_index(voice, j)].osc.parent_osc_slot),
        a2.mod_ty == a.mod_ty,
        a2.primary_osc@ == a.primary_osc@,
        a2.modulator_osc@ == a.modulator_osc@.update(modulator_index(voice, j), modulator_switched_off(a.modulator_osc@[modulator_index(voice, j)])),
        voice_stepped(a, b, voice, base_frequency, d_sec),
        voice_stepped(a2, b2, voice, base_frequency, d_sec),
    ensures
        voice_sample(b.primary_osc@, voice) == voice_sample(b2.primary_osc@, voice),
        forall|k: int| 0 <= k < PRIMARY_OSC_COUNT ==> #[trigger] b.primary_osc@[primary_index(voice, k)] == b2.primary_osc@[primary_index(voice, k)],
        forall|k: int| 0 <= k < MOD_OSC_COUNT && k != j ==> #[trigger] b.modulator_osc@[modulator_index(voice, k)] == b2.modulator_osc@[modulator_index(voice, k)],
        b.modulator_osc@[modulator_index(voice, j)].phase == b2.modulator_osc@[modulator_index(voice, j)].phase,
{
    let ma = a.modulator_osc@;
    let ma2 = a2.modulator_osc@;
    let mb = b.modulator_osc@;
    let mb2 = b2.modulator_osc@;
    assert forall|i: int| 0 <= i < MOD_OSC_COUNT implies (#[trigger] mb[modulator_index(voice, i)]).phase == mb2[modulator_index(voice, i)].phase
        && mb[modulator_index(voice, i)].offset == mb2[modulator_index(voice, i)].offset
        && mb[modulator_index(voice, i)].osc.range == mb2[modulator_index(voice, i)].osc.range
        && mb[modulator_index(voice, i)].osc.parent_osc_slot == mb2[modulator_index(voice, i)].osc.parent_osc_slot
        && (i != j ==> mb[modulator_index(voice, i)].osc == mb2[modulator_index(voice, i)].osc) by {
        assert(mb[modulator_index(voice, i)] == mb[modulator_index(voice, i)]);
        assert(mb2[modulator_index(voice, i)] == mb2[modulator_index(voice, i)]);
        if i != j {
            assert(modulator_index(voice, i) != modulator_index(voice, j));
        }
    }
    assert forall|i: int| 0 <= i < MOD_OSC_COUNT implies #[trigger] contribution(mb[modulator_index(voice, i)])
        == contribution(mb2[modulator_index(voice, i)]) by {
        assert(mb[modulator_index(voice, i)].phase == mb2[modulator_index(voice, i)].phase);
    }
    assert forall|t: ParentIndex, start: F| parent_in_range(t) implies #[trigger] gathered(mb, voice, MOD_OSC_COUNT as int, t, start)
        == gathered(mb2, voice, MOD_OSC_COUNT as int, t, start) && inputs_to(ma, voice, MOD_OSC_COUNT as int, t)
        == inputs_to(ma2, voice, MOD_OSC_COUNT as int, t) by {
        assert forall|i: int| 0 <= i < MOD_OSC_COUNT implies ((#[trigger] mb[modulator_index(voice, i)]).osc.is_on
            && mb[modulator_index(voice, i)].osc.parent_osc_slot == t) == (mb2[modulator_index(voice, i)].osc.is_on
            && mb2[modulator_index(voice, i)].osc.parent_osc_slot == t) by {
            assert(mb[modulator_index(voice, i)].phase == mb2[modulator_index(voice, i)].phase);
            if i == j {
                assert(mb[modulator_index(voice, i)].osc == ma[modulator_index(voice, i)].osc);
            }
        }
        lemma_same_contributions(mb, mb2, voice, MOD_OSC_COUNT as int, t, start);
        assert forall|i: int| 0 <= i < MOD_OSC_COUNT implies #[trigger] ma[modulator_index(voice, i)].osc == mb[modulator_index(voice, i)].osc
            && ma2[modulator_index(voice, i)].osc == mb2[modulator_index(voice, i)].osc by {
            assert(mb[modulator_index(voice, i)] == mb[modulator_index(voice, i)]);
            assert(mb2[modulator_index(voice, i)] == mb2[modulator_index(voice, i)]);
        }
        lemma_inputs_frame(ma, mb, voice, MOD_OSC_COUNT as int, t);
        lemma_inputs_frame(ma2, mb2, voice, MOD_OSC_COUNT as int, t);
    }
    assert forall|k: int| 0 <= k < PRIMARY_OSC_COUNT implies #[trigger] b.primary_osc@[primary_index(voice, k)] == b2.primary_osc@[primary_index(voice, k)] by {
        assert(parent_in_range(ParentIndex::Primary(k as usize)));
        assert(b.primary_osc@[primary_index(voice, k)] == b.primary_osc@[primary_index(voice, k)]);
        assert(b2.primary_osc@[primary_index(voice, k)] == b2.primary_osc@[primary_index(voice, k)]);
    }
    assert forall|k: int| 0 <= k < MOD_OSC_COUNT && k != j implies #[trigger] mb[modulator_index(voice, k)] == mb2[modulator_index(voice, k)] by {
        assert(parent_in_range(ParentIndex::Modulator(k as usize)));
        assert(modulator_index(voice, k) != modulator_index(voice, j));
        assert(mb[modulator_index(voice, k)].phase == mb2[modulator_index(voice, k)].phase);
    }
    lemma_wave_sum_frame(b.primary_osc@, b2.primary_osc@, voice, PRIMARY_OSC_COUNT as int);
}

/// All oscillators of every voice, in flat arrays indexed by
/// `voice * count + slot`, and the settings that apply to all of them.
pub struct OscillatorBank<F> {
    pub primary_osc: Vec<Primary<F>>,
    pub modulator_osc: Vec<Modulator<F>>,
    pub mod_ty: ModulationType,
    pub gain_ty: GainType,
    pub reset_phase: bool,
}

/// `b` is `a` after the topology `new` replaced its own: every slot named in
/// `new` configured as `new` says, every other slot switched off, phases and
/// settings kept.
pub open spec fn topology_replaced<F>(a: OscillatorBank<F>, b: OscillatorBank<F>, new: SolarState<F>) -> bool {
    &&& b.mod_ty == a.mod_ty
    &&& b.gain_ty == a.gain_ty
    &&& b.reset_phase == a.reset_phase
    &&& b.primary_osc@.len() == a.primary_osc@.len()
    &&& b.modulator_osc@.len() == a.modulator_osc@.len()
    &&& forall|j: int| 0 <= j < a.primary_osc@.len() ==> #[trigger] b.primary_osc@[j] == primary_configured(
        new.primary_states@, j % PRIMARY_OSC_COUNT as int, primary_switched_off(a.primary_osc@[j]),
    )
    &&& forall|j: int| 0 <= j < a.modulator_osc@.len() ==> #[trigger] b.modulator_osc@[j] == modulator_configured(
        new.modulator_states@, j % MOD_OSC_COUNT as int, modulator_switched_off(a.modulator_osc@[j]),
    )
}

impl<F: Signal> OscillatorBank<F> {
    /// Sizes are those of the constants; between samples no primary holds
    /// gathered modulation and no modulator more than one per modulator slot.
    pub open spec fn wf(&self) -> bool {
        &&& self.primary_osc@.len() == PRIMARY_BANK_SIZE
        &&& self.modulator_osc@.len() == MODULATOR_BANK_SIZE
        &&& forall|j: int| 0 <= j < PRIMARY_BANK_SIZE ==> #[trigger] self.primary_osc@[j].mod_counter == 0
        &&& forall|j: int| 0 <= j < MODULATOR_BANK_SIZE ==> #[trigger] self.modulator_osc@[j].mod_counter <= MOD_OSC_COUNT
    }

    /// A bank with every oscillator switched off, at phase zero.
    pub fn new() -> (r: Self)
        ensures
            r.wf(),
            forall|j: int| 0 <= j < PRIMARY_BANK_SIZE ==> #[trigger] r.primary_osc@[j] == fresh_primary::<F>(),
            forall|j: int| 0 <= j < MODULATOR_BANK_SIZE ==> #[trigger] r.modulator_osc@[j] == fresh_modulator::<F>(),
            r.mod_ty == ModulationType::Relative,
            r.gain_ty == GainType::Sigmoid,
            !r.reset_phase,
    {
        let mut primary_osc: Vec<Primary<F>> = Vec::new();
        while primary_osc.len() < PRIMARY_BANK_SIZE
            invariant
                primary_osc@.len() <= PRIMARY_BANK_SIZE,
                forall|j: int| 0 <= j < primary_osc@.len() ==> #[trigger] primary_osc@[j] == fresh_primary::<F>(),
            decreases PRIMARY_BANK_SIZE - primary_osc@.len(),
        {
            primary_osc.push(Oscillator::new(PrimaryOsc::default()));
        }
        let mut modulator_osc: Vec<Modulator<F>> = Vec::new();
        while modulator_osc.len() < MODULATOR_BANK_SIZE
            invariant
                modulator_osc@.len() <= MODULATOR_BANK_SIZE,
                forall|j: int| 0 <= j < modulator_osc@.len() ==> #[trigger] modulator_osc@[j] == fresh_modulator::<F>(),
            decreases MODULATOR_BANK_SIZE - modulator_osc@.len(),
        {
            modulator_osc.push(Oscillator::new(ModulatorOsc::default()));
        }
        OscillatorBank {
            primary_osc,
            modulator_osc,
            mod_ty: ModulationType::default(),
            gain_ty: GainType::default(),
            reset_phase: false,
        }
    }
    /// Replaces the topology: every oscillator is switched off, then each
    /// entry of `new`, in order, sets offset and oscillator of its slot in
    /// every voice. Entries whose slot is out of range are ignored. Phases
    /// and the settings of the bank are kept.
    pub fn on_state_change(&mut self, new: SolarState<F>)
        requires
            old(self).wf(),
        ensures
            final(self).wf(),
            topology_replaced(*old(self), *final(self), new),
    {
        let mut i: usize = 0;
        while i < PRIMARY_BANK_SIZE
            invariant
                i <= PRIMARY_BANK_SIZE,
                self.wf(),
                self.modulator_osc@ == old(self).modulator_osc@,
                self.mod_ty == old(self).mod_ty,
                self.gain_ty == old(self).gain_ty,
                self.reset_phase == old(self).reset_phase,
                forall|j: int| 0 <= j < PRIMARY_BANK_SIZE ==> #[trigger] self.primary_osc@[j] == (if j < i {
                    primary_switched_off(old(self).primary_osc@[j])
                } else {
                    old(self).primary_osc@[j]
                }),
            decreases PRIMARY_BANK_SIZE - i,
        {
            self.primary_osc[i].osc.is_on = false;
            i += 1;
        }
        let mut i: usize = 0;
        while i < MODULATOR_BANK_SIZE
            invariant
                i <= MODULATOR_BANK_SIZE,
                self.wf(),
                forall|j: int| 0 <= j < PRIMARY_BANK_SIZE ==> #[trigger] self.primary_osc@[j] == primary_switched_off(old(self).primary_osc@[j]),
                self.mod_ty == old(self).mod_ty,
                self.gain_ty == old(self).gain_ty,
                self.reset_phase == old(self).reset_phase,
                forall|j: int| 0 <= j < MODULATOR_BANK_SIZE ==> #[trigger] self.modulator_osc@[j] == (if j < i {
                    modulator_switched_off(old(self).modulator_osc@[j])
                } else {
                    old(self).modulator_osc@[j]
                }),
            decreases MODULATOR_BANK_SIZE - i,
        {
            self.modulator_osc[i].osc.is_on = false;
            i += 1;
        }
        let ghost off_primary = self.primary_osc@;
        let ghost off_modulator = self.modulator_osc@;
        let primary_states = new.primary_states;
        let modulator_states = new.modulator_states;
        let mut k: usize = 0;
        while k < primary_states.len()
            invariant
                k <= primary_states@.len(),
                primary_states@ == new.primary_states@,
                self.wf(),
                self.modulator_osc@ == off_modulator,
                self.mod_ty == old(self).mod_ty,
                self.gain_ty == old(self).gain_ty,
                self.reset_phase == old(self).reset_phase,
                forall|j: int| 0 <= j < PRIMARY_BANK_SIZE ==> off_primary[j] == primary_switched_off(old(self).primary_osc@[j]),
                forall|j: int| 0 <= j < PRIMARY_BANK_SIZE ==> #[trigger] self.primary_osc@[j] == primary_configured(
                    primary_states@.take(k as int), j % PRIMARY_OSC_COUNT as int, off_primary[j],
                ),
            decreases primary_states@.len() - k,
        {
            let p = primary_states[k];
            self.on_primary_osc_line(p.slot, p.offset, p.state);
            proof {
                assert(primary_states@.take(k + 1).drop_last() == primary_states@.take(k as int));
            }
            k += 1;
        }
        proof {
            assert(primary_states@.take(primary_states@.len() as int) == primary_states@);
        }
        let ghost done_primary = self.primary_osc@;
        let mut k: usize = 0;
        while k < modulator_states.len()
            invariant
                k <= modulator_states@.len(),
                modulator_states@ == new.modulator_states@,
                self.wf(),
                self.primary_osc@ == done_primary,
                self.mod_ty == old(self).mod_ty,
                self.gain_ty == old(self).gain_ty,
                self.reset_phase == old(self).reset_phase,
                forall|j: int| 0 <= j < MODULATOR_BANK_SIZE ==> off_modulator[j] == modulator_switched_off(old(self).modulator_osc@[j]),
                forall|j: int| 0 <= j < MODULATOR_BANK_SIZE ==> #[trigger] self.modulator_osc@[j] == modulator_configured(
                    modulator_states@.take(k as int), j % MOD_OSC_COUNT as int, off_modulator[j],
                ),
            decreases modulator_states@.len() - k,
        {
            let m = modulator_states[k];
            self.on_modulator_osc_line(m.slot, m.offset, m.state);
            proof {
                assert(modulator_states@.take(k + 1).drop_last() == modulator_states@.take(k as int));
            }
            k += 1;
        }
        proof {
            assert(modulator_states@.take(modulator_states@.len() as int) == modulator_states@);
        }
    }

    /// Flat index of primary slot `osc` of voice `voice`.
    pub fn primary_osc_index(voice: usize, osc: usize) -> (r: usize)
        requires
            voice < VOICE_COUNT,
            osc < PRIMARY_OSC_COUNT,
        ensures
            r == primary_index(voice as int, osc as int),
            r < PRIMARY_BANK_SIZE,
    {
        voice * PRIMARY_OSC_COUNT + osc
    }

    /// Flat index of modulator slot `osc` of voice `voice`.
    pub fn modulator_osc_index(voice: usize, osc: usize) -> (r: usize)
        requires
            voice < VOICE_COUNT,
            osc < MOD_OSC_COUNT,
        ensures
            r == modulator_index(voice as int, osc as int),
            r < MODULATOR_BANK_SIZE,
    {
        voice * MOD_OSC_COUNT + osc
    }

    /// Sets offset and oscillator of primary slot `line` in every voice; a
    /// line out of range changes nothing.
    fn on_primary_osc_line(&mut self, line: usize, offset: F, state: PrimaryOsc<F>)
        requires
            old(self).wf(),
        ensures
            final(self).wf(),
            final(self).modulator_osc@ == old(self).modulator_osc@,
            final(self).mod_ty == old(self).mod_ty,
            final(self).gain_ty == old(self).gain_ty,
            final(self).reset_phase == old(self).reset_phase,
            forall|j: int| 0 <= j < PRIMARY_BANK_SIZE ==> #[trigger] final(self).primary_osc@[j] == (if j % PRIMARY_OSC_COUNT as int == line {
                (Oscillator { offset, osc: state, ..old(self).primary_osc@[j] })
            } else {
                old(self).primary_osc@[j]
            }),
    {
        if line >= PRIMARY_OSC_COUNT {
            return;
        }
        let mut vidx: usize = 0;
        while vidx < VOICE_COUNT
            invariant
                line < PRIMARY_OSC_COUNT,
                vidx <= VOICE_COUNT,
                self.wf(),
                self.modulator_osc@ == old(self).modulator_osc@,
                self.mod_ty == old(self).mod_ty,
                self.gain_ty == old(self).gain_ty,
                self.reset_phase == old(self).reset_phase,
                forall|j: int| 0 <= j < PRIMARY_BANK_SIZE ==> #[trigger] self.primary_osc@[j] == (if j % PRIMARY_OSC_COUNT as int == line && (j / PRIMARY_OSC_COUNT as int) < vidx {
                    (Oscillator { offset, osc: state, ..old(self).primary_osc@[j] })
                } else {
                    old(self).primary_osc@[j]
                }),
            decreases VOICE_COUNT - vidx,
        {
            let idx = Self::primary_osc_index(vidx, line);
            self.primary_osc[idx].offset = offset;
            self.primary_osc[idx].osc = state;
            vidx += 1;
        }
    }

    /// Sets offset and oscillator of modulator slot `line` in every voice; a
    /// line out of range changes nothing.
    fn on_modulator_osc_line(&mut self, line: usize, offset: F, state: ModulatorOsc<F>)
        requires
            old(self).wf(),
        ensures
            final(self).wf(),
            final(self).primary_osc@ == old(self).primary_osc@,
            final(self).mod_ty == old(self).mod_ty,
            final(self).gain_ty == old(self).gain_ty,
            final(self).reset_phase == old(self).reset_phase,
            forall|j: int| 0 <= j < MODULATOR_BANK_SIZE ==> #[trigger] final(self).modulator_osc@[j] == (if j % MOD_OSC_COUNT as int == line {
                (Oscillator { offset, osc: state, ..old(self).modulator_osc@[j] })
            } else {
                old(self).modulator_osc@[j]
            }),
    {
        if line >= MOD_OSC_COUNT {
            return;
        }
        let mut vidx: usize = 0;
        while vidx < VOICE_COUNT
            invariant
                line < MOD_OSC_COUNT,
                vidx <= VOICE_COUNT,
                self.wf(),
                self.primary_osc@ == old(self).primary_osc@,
                self.mod_ty == old(self).mod_ty,
                self.gain_ty == old(self).gain_ty,
                self.reset_phase == old(self).reset_phase,
                forall|j: int| 0 <= j < MODULATOR_BANK_SIZE ==> #[trigger] self.modulator_osc@[j] == (if j % MOD_OSC_COUNT as int == line && (j / MOD_OSC_COUNT as int) < vidx {
                    (Oscillator { offset, osc: state, ..old(self).modulator_osc@[j] })
                } else {
                    old(self).modulator_osc@[j]
                }),
            decreases VOICE_COUNT - vidx,
        {
            let idx = Self::modulator_osc_index(vidx, line);
            self.modulator_osc[idx].offset = offset;
            self.modulator_osc[idx].osc = state;
            vidx += 1;
        }
    }
    /// Sets the phase of every oscillator of voice `voice_idx` to zero.
    pub fn reset_voice(&mut self, voice_idx: usize)
        requires
            old(self).wf(),
            voice_idx < VOICE_COUNT,
        ensures
            final(self).wf(),
            final(self).mod_ty == old(self).mod_ty,
            final(self).gain_ty == old(self).gain_ty,
            final(self).reset_phase == old(self).reset_phase,
            voice_rephased(old(self).primary_osc@, final(self).primary_osc@, voice_idx as int, PRIMARY_OSC_COUNT as int, F::spec_zero()),
            voice_rephased(old(self).modulator_osc@, final(self).modulator_osc@, voice_idx as int, MOD_OSC_COUNT as int, F::spec_zero()),
    {
        let zero = F::zero();
        let mut i: usize = 0;
        while i < PRIMARY_OSC_COUNT
            invariant
                i <= PRIMARY_OSC_COUNT,
                voice_idx < VOICE_COUNT,
                self.wf(),
                self.modulator_osc@ == old(self).modulator_osc@,
                self.mod_ty == old(self).mod_ty,
                self.gain_ty == old(self).gain_ty,
                self.reset_phase == old(self).reset_phase,
                forall|j: int| 0 <= j < PRIMARY_BANK_SIZE ==> #[trigger] self.primary_osc@[j] == (if j / PRIMARY_OSC_COUNT as int == voice_idx && (j % PRIMARY_OSC_COUNT as int) < i {
                    Oscillator { phase: zero, ..old(self).primary_osc@[j] }
                } else {
                    old(self).primary_osc@[j]
                }),
            decreases PRIMARY_OSC_COUNT - i,
        {
            let idx = Self::primary_osc_index(voice_idx, i);
            self.primary_osc[idx].phase = zero;
            i += 1;
        }
        let mut i: usize = 0;
        while i < MOD_OSC_COUNT
            invariant
                i <= MOD_OSC_COUNT,
                voice_idx < VOICE_COUNT,
                self.wf(),
                self.primary_osc@[primary_index(voice_idx as int, 0)].phase == zero,
                forall|j: int| 0 <= j < PRIMARY_BANK_SIZE ==> #[trigger] self.primary_osc@[j] == (if j / PRIMARY_OSC_COUNT as int == voice_idx {
                    Oscillator { phase: zero, ..old(self).primary_osc@[j] }
                } else {
                    old(self).primary_osc@[j]
                }),
                self.mod_ty == old(self).mod_ty,
                self.gain_ty == old(self).gain_ty,
                self.reset_phase == old(self).reset_phase,
                forall|j: int| 0 <= j < MODULATOR_BANK_SIZE ==> #[trigger] self.modulator_osc@[j] == (if j / MOD_OSC_COUNT as int == voice_idx && (j % MOD_OSC_COUNT as int) < i {
                    Oscillator { phase: zero, ..old(self).modulator_osc@[j] }
                } else {
                    old(self).modulator_osc@[j]
                }),
            decreases MOD_OSC_COUNT - i,
        {
            let idx = Self::modulator_osc_index(voice_idx, i);
            self.modulator_osc[idx].phase = zero;
            i += 1;
        }
    }
    /// Advances every oscillator of voice `voice` by one sample of length
    /// `sample_delta` for a note of `base_frequency`, and returns the voice's
    /// sample.
    ///
    /// First each modulator steps its phase, with the modulation it gathered
    /// in the previous sample, and starts gathering anew. Then each modulator
    /// that is on adds `1 + cos(phase + offset) · range` to its parent, if the
    /// parent's slot is in range and on. Last each primary steps its phase
    /// with the mean of what it gathered, and the voice's sample is the mean
    /// of `cos(phase + offset) · volume` over the primaries that are on, or
    /// zero where none is. Other voices do not change.
    pub fn step_voice(&mut self, voice: usize, base_frequency: F, sample_delta: F) -> (r: F)
        requires
            old(self).wf(),
            voice < VOICE_COUNT,
        ensures
            final(self).wf(),
            final(self).mod_ty == old(self).mod_ty,
            final(self).gain_ty == old(self).gain_ty,
            final(self).reset_phase == old(self).reset_phase,
            same_topology(old(self).primary_osc@, final(self).primary_osc@),
            same_topology(old(self).modulator_osc@, final(self).modulator_osc@),
            same_outside_voice(old(self).primary_osc@, final(self).primary_osc@, voice as int, PRIMARY_OSC_COUNT as int),
            same_outside_voice(old(self).modulator_osc@, final(self).modulator_osc@, voice as int, MOD_OSC_COUNT as int),
            voice_stepped(*old(self), *final(self), voice as int, base_frequency, sample_delta),
            r == voice_sample(final(self).primary_osc@, voice as int),
    {
        let mod_base = match self.mod_ty {
            ModulationType::Absolute => F::reference_pitch(),
            ModulationType::Relative => base_frequency,
        };
        let ghost mods = old(self).modulator_osc@;
        let ghost prims = old(self).primary_osc@;
        let ghost vi = voice as int;

        let mut k: usize = 0;
        while k < MOD_OSC_COUNT
            invariant
                k <= MOD_OSC_COUNT,
                voice < VOICE_COUNT,
                vi == voice,
                mod_base == modulation_base(old(self).mod_ty, base_frequency),
                self.wf(),
                self.mod_ty == old(self).mod_ty,
                self.gain_ty == old(self).gain_ty,
                self.reset_phase == old(self).reset_phase,
                self.primary_osc@ == prims,
                self.modulator_osc@.len() == mods.len(),
                same_outside_voice(mods, self.modulator_osc@, vi, MOD_OSC_COUNT as int),
                forall|q: int| 0 <= q < MOD_OSC_COUNT ==> #[trigger] self.modulator_osc@[modulator_index(vi, q)] == (if q < k {
                    Oscillator {
                        phase: stepped_phase(mods[modulator_index(vi, q)].phase, mod_base, mods[modulator_index(vi, q)].osc.speed_index,
                            multiplier_of(mods[modulator_index(vi, q)]), sample_delta),
                        mod_counter: 0,
                        mod_multiplier: F::spec_zero(),
                        ..mods[modulator_index(vi, q)]
                    }
                } else {
                    mods[modulator_index(vi, q)]
                }),
            decreases MOD_OSC_COUNT - k,
        {
            let idx = Self::modulator_osc_index(voice, k);
            let o = self.modulator_osc[idx];
            let base = o.osc.freq(mod_base).non_negative();
            let multiplier = o.freq_multiplier();
            let phase = F::advance_phase(o.phase, base, multiplier, sample_delta);
            self.modulator_osc[idx].phase = phase;
            self.modulator_osc[idx].mod_counter = 0;
            self.modulator_osc[idx].mod_multiplier = F::zero();
            k += 1;
        }
        let ghost mods1 = self.modulator_osc@;
        proof {
            assert forall|q: int| 0 <= q < PRIMARY_OSC_COUNT implies (#[trigger] prims[primary_index(vi, q)]).mod_counter == 0 by {
                assert(self.primary_osc@[primary_index(vi, q)].mod_counter == 0);
            }
        }

        let mut k: usize = 0;
        while k < MOD_OSC_COUNT
            invariant
                k <= MOD_OSC_COUNT,
                voice < VOICE_COUNT,
                vi == voice,
                self.primary_osc@.len() == PRIMARY_BANK_SIZE,
                self.modulator_osc@.len() == MODULATOR_BANK_SIZE,
                mods1.len() == MODULATOR_BANK_SIZE,
                prims.len() == PRIMARY_BANK_SIZE,
                mods.len() == MODULATOR_BANK_SIZE,
                self.mod_ty == old(self).mod_ty,
                self.gain_ty == old(self).gain_ty,
                self.reset_phase == old(self).reset_phase,
                forall|j: int| 0 <= j < PRIMARY_BANK_SIZE ==> #[trigger] prims[j].mod_counter == 0,
                same_outside_voice(prims, self.primary_osc@, vi, PRIMARY_OSC_COUNT as int),
                same_outside_voice(mods1, self.modulator_osc@, vi, MOD_OSC_COUNT as int),
                forall|q: int| 0 <= q < MOD_OSC_COUNT ==> (#[trigger] mods1[modulator_index(vi, q)]).osc == mods[modulator_index(vi, q)].osc,
                forall|t: ParentIndex| #[trigger] inputs_to(mods, vi, k as int, t) <= k,
                forall|q: int| 0 <= q < MOD_OSC_COUNT ==> #[trigger] self.modulator_osc@[modulator_index(vi, q)] == (Oscillator {
                    mod_counter: if mods[modulator_index(vi, q)].osc.is_on {
                        inputs_to(mods, vi, k as int, ParentIndex::Modulator(q as usize)) as usize
                    } else {
                        0
                    },
                    mod_multiplier: if mods[modulator_index(vi, q)].osc.is_on {
                        gathered(mods1, vi, k as int, ParentIndex::Modulator(q as usize), F::spec_zero())
                    } else {
                        F::spec_zero()
                    },
                    ..mods1[modulator_index(vi, q)]
                }),
                forall|q: int| 0 <= q < PRIMARY_OSC_COUNT ==> #[trigger] self.primary_osc@[primary_index(vi, q)] == (Oscillator {
                    mod_counter: if prims[primary_index(vi, q)].osc.is_on {
                        inputs_to(mods, vi, k as int, ParentIndex::Primary(q as usize)) as usize
                    } else {
                        0
                    },
                    mod_multiplier: if prims[primary_index(vi, q)].osc.is_on {
                        gathered(mods1, vi, k as int, ParentIndex::Primary(q as usize), prims[primary_index(vi, q)].mod_multiplier)
                    } else {
                        prims[primary_index(vi, q)].mod_multiplier
                    },
                    ..prims[primary_index(vi, q)]
                }),
            decreases MOD_OSC_COUNT - k,
        {
            let idx = Self::modulator_osc_index(voice, k);
            let m = self.modulator_osc[idx];
            proof {
                assert(m.osc == mods[modulator_index(vi, k as int)].osc);
                assert(m.phase == mods1[modulator_index(vi, k as int)].phase);
                assert(m.offset == mods1[modulator_index(vi, k as int)].offset);
            }
            if m.osc.is_on {
                let value = F::one().plus(F::wave(m.phase, m.offset, m.osc.range));
                match m.osc.parent_osc_slot {
                    ParentIndex::Modulator(p) => {
                        if p < MOD_OSC_COUNT {
                            let pidx = Self::modulator_osc_index(voice, p);
                            if self.modulator_osc[pidx].osc.is_on {
                                proof {
                                    lemma_inputs_bounded(mods, vi, k as int, ParentIndex::Modulator(p));
                                }
                                let sum = self.modulator_osc[pidx].mod_multiplier.plus(value);
                                self.modulator_osc[pidx].mod_multiplier = sum;
                                self.modulator_osc[pidx].mod_counter = self.modulator_osc[pidx].mod_counter + 1;
                            }
                        }
                    },
                    ParentIndex::Primary(p) => {
                        if p < PRIMARY_OSC_COUNT {
                            let pidx = Self::primary_osc_index(voice, p);
                            if self.primary_osc[pidx].osc.is_on {
                                proof {
                                    lemma_inputs_bounded(mods, vi, k as int, ParentIndex::Primary(p));
                                }
                                let sum = self.primary_osc[pidx].mod_multiplier.plus(value);
                                self.primary_osc[pidx].mod_multiplier = sum;
                                self.primary_osc[pidx].mod_counter = self.primary_osc[pidx].mod_counter + 1;
                            }
                        }
                    },
                }
            }
            proof {
                assert forall|t: ParentIndex| #[trigger] inputs_to(mods, vi, k + 1, t) <= k + 1 by {
                    lemma_inputs_bounded(mods, vi, k + 1, t);
                }
            }
            k += 1;
        }
        let ghost mods2 = self.modulator_osc@;
        let ghost prims2 = self.primary_osc@;

        let mut acc = F::zero();
        let mut count: usize = 0;
        let mut k: usize = 0;
        while k < PRIMARY_OSC_COUNT
            invariant
                k <= PRIMARY_OSC_COUNT,
                voice < VOICE_COUNT,
                vi == voice,
                self.primary_osc@.len() == PRIMARY_BANK_SIZE,
                prims2.len() == PRIMARY_BANK_SIZE,
                self.modulator_osc@ == mods2,
                self.mod_ty == old(self).mod_ty,
                self.gain_ty == old(self).gain_ty,
                self.reset_phase == old(self).reset_phase,
                same_outside_voice(prims2, self.primary_osc@, vi, PRIMARY_OSC_COUNT as int),
                forall|q: int| 0 <= q < PRIMARY_OSC_COUNT ==> #[trigger] self.primary_osc@[primary_index(vi, q)] == (if q < k {
                    Oscillator {
                        phase: stepped_phase(prims2[primary_index(vi, q)].phase, base_frequency, prims2[primary_index(vi, q)].osc.speed_index,
                            multiplier_of(prims2[primary_index(vi, q)]), sample_delta),
                        mod_counter: 0,
                        mod_multiplier: F::spec_one(),
                        ..prims2[primary_index(vi, q)]
                    }
                } else {
                    prims2[primary_index(vi, q)]
                }),
                acc == wave_sum(self.primary_osc@, vi, k as int),
                count == on_count(self.primary_osc@, vi, k as int),
                count <= k,
            decreases PRIMARY_OSC_COUNT - k,
        {
            let idx = Self::primary_osc_index(voice, k);
            let o = self.primary_osc[idx];
            let base = o.osc.freq(base_frequency).non_negative();
            let multiplier = o.freq_multiplier();
            let phase = F::advance_phase(o.phase, base, multiplier, sample_delta);
            let ghost before = self.primary_osc@;
            self.primary_osc[idx].phase = phase;
            self.primary_osc[idx].mod_counter = 0;
            self.primary_osc[idx].mod_multiplier = F::one();
            proof {
                assert forall|q: int| 0 <= q < k implies #[trigger] before[primary_index(vi, q)] == self.primary_osc@[primary_index(vi, q)] by {}
                lemma_wave_sum_frame(before, self.primary_osc@, vi, k as int);
                lemma_on_count_bounded(before, vi, k as int);
            }
            if o.osc.is_on {
                acc = acc.plus(F::wave(phase, o.offset, o.osc.volume));
                count = count + 1;
            }
            k += 1;
        }
        proof {
            let fin = *self;
            let o = *old(self);
            lemma_gathered_frame(mods1, mods2, vi, MOD_OSC_COUNT as int, ParentIndex::Primary(0), F::spec_zero());
            assert forall|t: ParentIndex, start: F| #[trigger] gathered(mods1, vi, MOD_OSC_COUNT as int, t, start)
                == gathered(mods2, vi, MOD_OSC_COUNT as int, t, start) by {
                lemma_gathered_frame(mods1, mods2, vi, MOD_OSC_COUNT as int, t, start);
            }
            assert forall|q: int| 0 <= q < MOD_OSC_COUNT implies #[trigger] inputs_to(mods, vi, MOD_OSC_COUNT as int, ParentIndex::Modulator(q as usize)) <= MOD_OSC_COUNT by {
                lemma_inputs_bounded(mods, vi, MOD_OSC_COUNT as int, ParentIndex::Modulator(q as usize));
            }
            assert forall|j: int| 0 <= j < PRIMARY_BANK_SIZE implies #[trigger] fin.primary_osc@[j].mod_counter == 0 by {
                if j / PRIMARY_OSC_COUNT as int == vi {
                    assert(j == primary_index(vi, j % PRIMARY_OSC_COUNT as int));
                }
            }
            assert forall|j: int| 0 <= j < MODULATOR_BANK_SIZE implies #[trigger] fin.modulator_osc@[j].mod_counter <= MOD_OSC_COUNT by {
                if j / MOD_OSC_COUNT as int == vi {
                    let q = j % MOD_OSC_COUNT as int;
                    assert(j == modulator_index(vi, q));
                    assert(inputs_to(mods, vi, MOD_OSC_COUNT as int, ParentIndex::Modulator(q as usize)) <= MOD_OSC_COUNT);
                }
            }
            assert forall|j: int| 0 <= j < PRIMARY_BANK_SIZE implies (#[trigger] fin.primary_osc@[j]).osc == prims[j].osc
                && fin.primary_osc@[j].offset == prims[j].offset by {
                if j / PRIMARY_OSC_COUNT as int == vi {
                    assert(j == primary_index(vi, j % PRIMARY_OSC_COUNT as int));
                }
            }
            assert forall|j: int| 0 <= j < MODULATOR_BANK_SIZE implies (#[trigger] fin.modulator_osc@[j]).osc == mods[j].osc
                && fin.modulator_osc@[j].offset == mods[j].offset by {
                if j / MOD_OSC_COUNT as int == vi {
                    assert(j == modulator_index(vi, j % MOD_OSC_COUNT as int));
                }
            }
            assert forall|k: int| 0 <= k < PRIMARY_OSC_COUNT implies #[trigger] multiplier_of(prims2[primary_index(vi, k)])
                == primary_multiplier(o, fin.modulator_osc@, vi, k) by {
            }
            assert(voice_stepped(o, fin, vi, base_frequency, sample_delta));
            lemma_on_count_bounded(fin.primary_osc@, vi, PRIMARY_OSC_COUNT as int);
        }
        if count > 0 {
            acc.over(count)
        } else {
            F::zero()
        }
    }
}

} // verus!

use vstd::prelude::*;

use crate::envelope::Envelope;
use crate::osc::{
    lemma_voice_stepped_frame, lemma_wave_sum_frame, primary_index, same_topology, same_voice, voice_rephased,
    voice_sample, voice_stepped, OscillatorBank, Primary, Signal, MODULATOR_BANK_SIZE, MOD_OSC_COUNT,
    PRIMARY_BANK_SIZE, PRIMARY_OSC_COUNT, VOICE_COUNT,
};

verus! {

/// Where a voice is in its life: free, held, or sounding out its release.
#[derive(Clone, Copy, Debug, PartialEq, Eq, Structural)]
pub enum VoiceState {
    Off,
    On,
    Released,
}

impl VoiceState {
    /// Whether the voice is free.
    pub fn is_off(&self) -> (r: bool)
        ensures
            r == (*self == VoiceState::Off),
    {
        if let VoiceState::Off = &self {
            true
        } else {
            false
        }
    }

    /// Whether the voice is sounding out its release.
    pub fn is_released(&self) -> (r: bool)
        ensures
            r == (*self == VoiceState::Released),
    {
        if let VoiceState::Released = &self {
            true
        } else {
            false
        }
    }

    /// Whether the voice is in use, held or released.
    pub fn is_active(&self) -> (r: bool)
        ensures
            r == (*self != VoiceState::Off),
    {
        if let VoiceState::Off = self {
            false
        } else {
            true
        }
    }
}

/// One voice: its envelope, its state, and the note it plays.
#[derive(Clone, Copy, Debug)]
pub struct OscVoiceState<T, P> {
    pub env: Envelope<T, P>,
    pub state: VoiceState,
    pub note: u8,
}

impl<T, P> OscVoiceState<T, P> {
    /// A free voice with no note and an envelope of `parameters` without events.
    pub fn new(parameters: P) -> (r: Self)
        ensures
            r.state == VoiceState::Off,
            r.note == 0,
            r.env == (Envelope::<T, P> { press: None, release: None, parameters }),
    {
        OscVoiceState { env: Envelope::new(parameters), state: VoiceState::Off, note: 0 }
    }

    /// The voice after it starts playing `note` at `at`.
    pub open spec fn started(self, note: u8, at: T) -> Self {
        OscVoiceState { env: self.env.pressed(at), state: VoiceState::On, note }
    }

    /// The voice after `note` is let go at `at`: released where it plays
    /// that note, unchanged otherwise.
    pub open spec fn stopped(self, note: u8, at: T) -> Self {
        if self.note == note && self.state != VoiceState::Off {
            OscVoiceState { env: self.env.released(at), state: VoiceState::Released, ..self }
        } else {
            self
        }
    }

    /// The voice returned to the pool.
    pub open spec fn freed(self) -> Self {
        OscVoiceState { env: self.env.cleared(), state: VoiceState::Off, note: 0 }
    }
}

/// Index of the first free voice at or after `i`, or the length if none is.
pub open spec fn first_off_from<T, P>(vs: Seq<OscVoiceState<T, P>>, i: int) -> int
    decreases vs.len() - i,
{
    if i < 0 || i >= vs.len() {
        vs.len() as int
    } else if vs[i].state == VoiceState::Off {
        i
    } else {
        first_off_from(vs, i + 1)
    }
}

/// The voices after a note-on: the first free voice starts `note`; with no
/// free voice nothing changes.
pub open spec fn after_note_on<T, P>(vs: Seq<OscVoiceState<T, P>>, note: u8, at: T) -> Seq<OscVoiceState<T, P>> {
    let i = first_off_from(vs, 0);
    if i < vs.len() {
        vs.update(i, vs[i].started(note, at))
    } else {
        vs
    }
}

/// The voices after note-ons for each of `notes`, in order, all at `at`.
pub open spec fn after_note_ons<T, P>(vs: Seq<OscVoiceState<T, P>>, notes: Seq<u8>, at: T) -> Seq<OscVoiceState<T, P>>
    decreases notes.len(),
{
    if notes.len() == 0 {
        vs
    } else {
        after_note_on(after_note_ons(vs, notes.drop_last(), at), notes.last(), at)
    }
}

/// Number of voices among the first `n` that are in use.
pub open spec fn active_count<T, P>(vs: Seq<OscVoiceState<T, P>>, n: int) -> nat
    decreases n,
{
    if n <= 0 {
        0
    } else {
        active_count(vs, n - 1) + if vs[n - 1].state == VoiceState::Off {
            0nat
        } else {
            1nat
        }
    }
}

/// Skipping voices that are in use does not move the first free one.
pub proof fn lemma_first_off_skip<T, P>(vs: Seq<OscVoiceState<T, P>>, i: int)
    requires
        0 <= i <= vs.len(),
        forall|j: int| 0 <= j < i ==> (#[trigger] vs[j]).state != VoiceState::Off,
    ensures
        first_off_from(vs, 0) == first_off_from(vs, i),
    decreases i,
{
    if i > 0 {
        lemma_first_off_skip(vs, i - 1);
    }
}

/// The first free voice at or after `i` is free, or there is none from `i` on.
proof fn lemma_first_off_found<T, P>(vs: Seq<OscVoiceState<T, P>>, i: int)
    requires
        0 <= i,
    ensures
        ({
            let r = first_off_from(vs, i);
            ||| (r == vs.len() && forall|j: int| i <= j < vs.len() ==> (#[trigger] vs[j]).state != VoiceState::Off)
            ||| (i <= r < vs.len() && vs[r].state == VoiceState::Off)
        }),
    decreases vs.len() - i,
{
    if i < vs.len() && vs[i].state != VoiceState::Off {
        lemma_first_off_found(vs, i + 1);
    }
}

/// The count of voices in use depends only on the states of the first `n`.
proof fn lemma_count_same_states<T, P>(a: Seq<OscVoiceState<T, P>>, b: Seq<OscVoiceState<T, P>>, n: int)
    requires
        0 <= n <= a.len(),
        n <= b.len(),
        forall|j: int| 0 <= j < n ==> (#[trigger] a[j]).state == b[j].state,
    ensures
        active_count(a, n) == active_count(b, n),
    decreases n,
{
    if n > 0 {
        lemma_count_same_states(a, b, n - 1);
    }
}

/// Taking a free voice into use adds one to the count.
proof fn lemma_count_take<T, P>(vs: Seq<OscVoiceState<T, P>>, n: int, i: int, x: OscVoiceState<T, P>)
    requires
        0 <= i < n <= vs.len(),
        vs[i].state == VoiceState::Off,
        x.state != VoiceState::Off,
    ensures
        active_count(vs.update(i, x), n) == active_count(vs, n) + 1,
    decreases n,
{
    if i < n - 1 {
        lemma_count_take(vs, n - 1, i, x);
    } else {
        lemma_count_same_states(vs, vs.update(i, x), n - 1);
    }
}

/// The count reaches `n` exactly when none of the first `n` voices is free.
proof fn lemma_count_full<T, P>(vs: Seq<OscVoiceState<T, P>>, n: int)
    requires
        0 <= n <= vs.len(),
    ensures
        active_count(vs, n) <= n,
        active_count(vs, n) == n <==> forall|j: int| 0 <= j < n ==> (#[trigger] vs[j]).state != VoiceState::Off,
    decreases n,
{
    if n > 0 {
        lemma_count_full(vs, n - 1);
    }
}

/// From a pool of free voices, `m` note-ons at one time take `min(m, len)`
/// voices into use.
proof fn lemma_note_ons_count<T, P>(vs: Seq<OscVoiceState<T, P>>, notes: Seq<u8>, at: T)
    requires
        forall|i: int| 0 <= i < vs.len() ==> (#[trigger] vs[i]).state == VoiceState::Off,
    ensures
        after_note_ons(vs, notes, at).len() == vs.len(),
        active_count(after_note_ons(vs, notes, at), vs.len() as int) == if notes.len() < vs.len() {
            notes.len()
        } else {
            vs.len()
        },
    decreases notes.len(),
{
    let n = vs.len() as int;
    if notes.len() == 0 {
        lemma_count_zero(vs, n);
    } else {
        let prev = after_note_ons(vs, notes.drop_last(), at);
        lemma_note_ons_count(vs, notes.drop_last(), at);
        lemma_first_off_found(prev, 0);
        lemma_count_full(prev, n);
        let i = first_off_from(prev, 0);
        if i < n {
            lemma_count_take(prev, n, i, prev[i].started(notes.last(), at));
        }
    }
}

/// A pool in which every voice is free counts none in use.
proof fn lemma_count_zero<T, P>(vs: Seq<OscVoiceState<T, P>>, n: int)
    requires
        0 <= n <= vs.len(),
        forall|i: int| 0 <= i < vs.len() ==> (#[trigger] vs[i]).state == VoiceState::Off,
    ensures
        active_count(vs, n) == 0,
    decreases n,
{
    if n > 0 {
        lemma_count_zero(vs, n - 1);
    }
}

/// Out of a pool of free voices, one note-on more than there are voices,
/// all at one time, leaves every voice in use, and the last note-on changes
/// nothing: notes are dropped, never stolen.
pub proof fn lemma_voice_allocation<T, P>(vs: Seq<OscVoiceState<T, P>>, notes: Seq<u8>, at: T)
    requires
        vs.len() == VOICE_COUNT,
        forall|i: int| 0 <= i < VOICE_COUNT ==> (#[trigger] vs[i]).state == VoiceState::Off,
        notes.len() == VOICE_COUNT + 1,
    ensures
        active_count(after_note_ons(vs, notes, at), VOICE_COUNT as int) == VOICE_COUNT,
        after_note_ons(vs, notes, at) == after_note_ons(vs, notes.drop_last(), at),
{
    lemma_note_ons_count(vs, notes, at);
    let prev = after_note_ons(vs, notes.drop_last(), at);
    lemma_note_ons_count(vs, notes.drop_last(), at);
    lemma_count_full(prev, VOICE_COUNT as int);
    lemma_first_off_found(prev, 0);
}

/// Sum, in voice order, over the first `n` voices in use of their sample in
/// `prims` times their level.
pub open spec fn mix<T, P, F: Signal>(voices: Seq<OscVoiceState<T, P>>, levels: Seq<F>, prims: Seq<Primary<F>>, n: int) -> F
    decreases n,
{
    if n <= 0 {
        F::spec_zero()
    } else {
        let prev = mix(voices, levels, prims, n - 1);
        if voices[n - 1].state != VoiceState::Off {
            prev.spec_plus(voice_sample(prims, n - 1).spec_times(levels[n - 1]))
        } else {
            prev
        }
    }
}

/// The mix of the first `n` voices depends only on their primaries.
pub proof fn lemma_mix_frame<T, P, F: Signal>(voices: Seq<OscVoiceState<T, P>>, levels: Seq<F>, a: Seq<Primary<F>>, b: Seq<Primary<F>>, n: int)
    requires
        0 <= n,
        forall|w: int, k: int| 0 <= w < n && 0 <= k < PRIMARY_OSC_COUNT ==> #[trigger] a[primary_index(w, k)] == b[primary_index(w, k)],
    ensures
        mix(voices, levels, a, n) == mix(voices, levels, b, n),
    decreases n,
{
    if n > 0 {
        lemma_mix_frame(voices, levels, a, b, n - 1);
        assert forall|k: int| 0 <= k < PRIMARY_OSC_COUNT implies #[trigger] a[primary_index(n - 1, k)] == b[primary_index(n - 1, k)] by {}
        lemma_wave_sum_frame(a, b, n - 1, PRIMARY_OSC_COUNT as int);
    }
}

/// The allocator: a fixed pool of voices over one oscillator bank.
pub struct OscArray<T, P, F> {
    pub bank: OscillatorBank<F>,
    pub voices: Vec<OscVoiceState<T, P>>,
}

impl<T: Copy, P: Copy, F: Signal> OscArray<T, P, F> {
    /// The bank is well formed and there is one entry per voice.
    pub open spec fn wf(&self) -> bool {
        &&& self.bank.wf()
        &&& self.voices@.len() == VOICE_COUNT
    }

    /// All voices free, with envelopes of `parameters`, over a fresh bank.
    pub fn new(parameters: P) -> (r: Self)
        ensures
            r.wf(),
            forall|i: int| 0 <= i < VOICE_COUNT ==> (#[trigger] r.voices@[i]).state == VoiceState::Off
                && r.voices@[i].env == (Envelope::<T, P> { press: None, release: None, parameters }) && r.voices@[i].note == 0,
            !r.bank.reset_phase,
    {
        let mut voices: Vec<OscVoiceState<T, P>> = Vec::new();
        while voices.len() < VOICE_COUNT
            invariant
                voices@.len() <= VOICE_COUNT,
                forall|i: int| 0 <= i < voices@.len() ==> (#[trigger] voices@[i]).state == VoiceState::Off
                    && voices@[i].env == (Envelope::<T, P> { press: None, release: None, parameters }) && voices@[i].note == 0,
            decreases VOICE_COUNT - voices@.len(),
        {
            voices.push(OscVoiceState::new(parameters));
        }
        OscArray { bank: OscillatorBank::new(), voices }
    }
    /// Starts `note` at `at` on the first free voice, and where the bank
    /// resets phases, sets that voice's phases to zero. With no free voice the
    /// note is dropped and nothing changes.
    pub fn note_on(&mut self, note: u8, at: T)
        requires
            old(self).wf(),
        ensures
            final(self).wf(),
            final(self).voices@ == after_note_on(old(self).voices@, note, at),
            ({
                let i = first_off_from(old(self).voices@, 0);
                if i < VOICE_COUNT && old(self).bank.reset_phase {
                    let zero = F::spec_zero();
                    &&& voice_rephased(old(self).bank.primary_osc@, final(self).bank.primary_osc@, i, PRIMARY_OSC_COUNT as int, zero)
                    &&& voice_rephased(old(self).bank.modulator_osc@, final(self).bank.modulator_osc@, i, MOD_OSC_COUNT as int, zero)
                    &&& final(self).bank.mod_ty == old(self).bank.mod_ty
                    &&& final(self).bank.gain_ty == old(self).bank.gain_ty
                    &&& final(self).bank.reset_phase == old(self).bank.reset_phase
                } else {
                    final(self).bank == old(self).bank
                }
            }),
    {
        let mut vidx: usize = 0;
        while vidx < VOICE_COUNT
            invariant
                vidx <= VOICE_COUNT,
                self.wf(),
                self.voices@ == old(self).voices@,
                self.bank == old(self).bank,
                forall|j: int| 0 <= j < vidx ==> (#[trigger] self.voices@[j]).state != VoiceState::Off,
            decreases VOICE_COUNT - vidx,
        {
            if self.voices[vidx].state.is_off() {
                proof {
                    lemma_first_off_skip(self.voices@, vidx as int);
                }
                let mut v = self.voices[vidx];
                v.state = VoiceState::On;
                v.note = note;
                v.env.on_press(at);
                self.voices[vidx] = v;
                if self.bank.reset_phase {
                    self.bank.reset_voice(vidx);
                }
                return;
            }
            vidx += 1;
        }
        proof {
            lemma_first_off_skip(self.voices@, VOICE_COUNT as int);
        }
    }

    /// Releases `note` at `at` on every voice in use that plays it.
    pub fn note_off(&mut self, note: u8, at: T)
        requires
            old(self).wf(),
        ensures
            final(self).wf(),
            final(self).bank == old(self).bank,
            final(self).voices@ == old(self).voices@.map_values(|v: OscVoiceState<T, P>| v.stopped(note, at)),
    {
        let mut vidx: usize = 0;
        while vidx < VOICE_COUNT
            invariant
                vidx <= VOICE_COUNT,
                self.wf(),
                self.bank == old(self).bank,
                forall|j: int| 0 <= j < VOICE_COUNT ==> #[trigger] self.voices@[j] == (if j < vidx {
                    old(self).voices@[j].stopped(note, at)
                } else {
                    old(self).voices@[j]
                }),
            decreases VOICE_COUNT - vidx,
        {
            if self.voices[vidx].note == note && !self.voices[vidx].state.is_off() {
                let mut v = self.voices[vidx];
                v.env.on_release(at);
                v.state = VoiceState::Released;
                self.voices[vidx] = v;
            }
            vidx += 1;
        }
        assert(self.voices@ == old(self).voices@.map_values(|v: OscVoiceState<T, P>| v.stopped(note, at)));
    }

    /// Gives every voice's envelope the parameters `new`.
    pub fn set_envelopes(&mut self, new: P)
        requires
            old(self).wf(),
        ensures
            final(self).wf(),
            final(self).bank == old(self).bank,
            forall|j: int| 0 <= j < VOICE_COUNT ==> #[trigger] final(self).voices@[j] == (OscVoiceState {
                env: Envelope { parameters: new, ..old(self).voices@[j].env },
                ..old(self).voices@[j]
            }),
    {
        let mut vidx: usize = 0;
        while vidx < VOICE_COUNT
            invariant
                vidx <= VOICE_COUNT,
                self.wf(),
                self.bank == old(self).bank,
                forall|j: int| 0 <= j < VOICE_COUNT ==> #[trigger] self.voices@[j] == (if j < vidx {
                    OscVoiceState { env: Envelope { parameters: new, ..old(self).voices@[j].env }, ..old(self).voices@[j] }
                } else {
                    old(self).voices@[j]
                }),
            decreases VOICE_COUNT - vidx,
        {
            self.voices[vidx].env.parameters = new;
            vidx += 1;
        }
    }

    /// Returns to the pool every released voice whose envelope has ended, as
    /// `finished` tells voice by voice: such a voice is off, with no note and
    /// an envelope without events.
    pub fn reclaim(&mut self, finished: &[bool])
        requires
            old(self).wf(),
            finished@.len() == VOICE_COUNT,
        ensures
            final(self).wf(),
            final(self).bank == old(self).bank,
            forall|j: int| 0 <= j < VOICE_COUNT ==> #[trigger] final(self).voices@[j] == (if finished@[j] && old(self).voices@[j].state == VoiceState::Released {
                old(self).voices@[j].freed()
            } else {
                old(self).voices@[j]
            }),
    {
        let mut vidx: usize = 0;
        while vidx < VOICE_COUNT
            invariant
                vidx <= VOICE_COUNT,
                finished@.len() == VOICE_COUNT,
                self.wf(),
                self.bank == old(self).bank,
                forall|j: int| 0 <= j < VOICE_COUNT ==> #[trigger] self.voices@[j] == (if j < vidx && finished@[j] && old(self).voices@[j].state == VoiceState::Released {
                    old(self).voices@[j].freed()
                } else {
                    old(self).voices@[j]
                }),
            decreases VOICE_COUNT - vidx,
        {
            if finished[vidx] && self.voices[vidx].state.is_released() {
                let mut v = self.voices[vidx];
                v.state = VoiceState::Off;
                v.env.reset();
                v.note = 0;
                self.voices[vidx] = v;
            }
            vidx += 1;
        }
    }
    /// Produces one output sample: every voice in use steps its oscillators
    /// by `sample_delta` at the frequency of its note, and its sample, scaled
    /// by its envelope's level in `levels`, goes into a sum that the bank's
    /// gain curve compresses. Free voices neither step nor sound.
    pub fn process_sample(&mut self, levels: &[F], sample_delta: F) -> (r: F)
        requires
            old(self).wf(),
            levels@.len() == VOICE_COUNT,
        ensures
            final(self).wf(),
            final(self).voices@ == old(self).voices@,
            final(self).bank.mod_ty == old(self).bank.mod_ty,
            final(self).bank.gain_ty == old(self).bank.gain_ty,
            final(self).bank.reset_phase == old(self).bank.reset_phase,
            same_topology(old(self).bank.primary_osc@, final(self).bank.primary_osc@),
            same_topology(old(self).bank.modulator_osc@, final(self).bank.modulator_osc@),
            forall|j: int| 0 <= j < PRIMARY_BANK_SIZE && old(self).voices@[j / PRIMARY_OSC_COUNT as int].state == VoiceState::Off
                ==> #[trigger] final(self).bank.primary_osc@[j] == old(self).bank.primary_osc@[j],
            forall|j: int| 0 <= j < MODULATOR_BANK_SIZE && old(self).voices@[j / MOD_OSC_COUNT as int].state == VoiceState::Off
                ==> #[trigger] final(self).bank.modulator_osc@[j] == old(self).bank.modulator_osc@[j],
            forall|v: int| 0 <= v < VOICE_COUNT && old(self).voices@[v].state != VoiceState::Off
                ==> #[trigger] voice_stepped(old(self).bank, final(self).bank, v, F::spec_note_frequency(old(self).voices@[v].note), sample_delta),
            r == old(self).bank.gain_ty.spec_map(mix(old(self).voices@, levels@, final(self).bank.primary_osc@, VOICE_COUNT as int)),
    {
        let mut acc = F::zero();
        let mut vidx: usize = 0;
        while vidx < VOICE_COUNT
            invariant
                vidx <= VOICE_COUNT,
                levels@.len() == VOICE_COUNT,
                self.wf(),
                self.voices@ == old(self).voices@,
                self.bank.mod_ty == old(self).bank.mod_ty,
                self.bank.gain_ty == old(self).bank.gain_ty,
                self.bank.reset_phase == old(self).bank.reset_phase,
                same_topology(old(self).bank.primary_osc@, self.bank.primary_osc@),
                same_topology(old(self).bank.modulator_osc@, self.bank.modulator_osc@),
                forall|j: int| 0 <= j < PRIMARY_BANK_SIZE && (vidx <= j / PRIMARY_OSC_COUNT as int
                    || old(self).voices@[j / PRIMARY_OSC_COUNT as int].state == VoiceState::Off)
                    ==> #[trigger] self.bank.primary_osc@[j] == old(self).bank.primary_osc@[j],
                forall|j: int| 0 <= j < MODULATOR_BANK_SIZE && (vidx <= j / MOD_OSC_COUNT as int
                    || old(self).voices@[j / MOD_OSC_COUNT as int].state == VoiceState::Off)
                    ==> #[trigger] self.bank.modulator_osc@[j] == old(self).bank.modulator_osc@[j],
                forall|v: int| 0 <= v < vidx && old(self).voices@[v].state != VoiceState::Off
                    ==> #[trigger] voice_stepped(old(self).bank, self.bank, v, F::spec_note_frequency(old(self).voices@[v].note), sample_delta),
                acc == mix(old(self).voices@, levels@, self.bank.primary_osc@, vidx as int),
            decreases VOICE_COUNT - vidx,
        {
            let v = self.voices[vidx];
            if !v.state.is_off() {
                let freq = F::note_frequency(v.note);
                let ghost before = self.bank;
                let sample = self.bank.step_voice(vidx, freq, sample_delta);
                proof {
                    let after = self.bank;
                    let vi = vidx as int;
                    assert(same_voice(before, old(self).bank, vi));
                    lemma_voice_stepped_frame(before, after, old(self).bank, after, vi, freq, sample_delta);
                    assert forall|w: int| 0 <= w < vidx && old(self).voices@[w].state != VoiceState::Off
                        implies #[trigger] voice_stepped(old(self).bank, after, w, F::spec_note_frequency(old(self).voices@[w].note), sample_delta) by {
                        assert(same_voice(before, after, w));
                        lemma_voice_stepped_frame(old(self).bank, before, old(self).bank, after, w,
                            F::spec_note_frequency(old(self).voices@[w].note), sample_delta);
                    }
                    assert forall|w: int, k: int| 0 <= w < vi && 0 <= k < PRIMARY_OSC_COUNT implies
                        #[trigger] before.primary_osc@[primary_index(w, k)] == after.primary_osc@[primary_index(w, k)] by {}
                    lemma_mix_frame(old(self).voices@, levels@, before.primary_osc@, after.primary_osc@, vi);
                }
                acc = acc.plus(sample.times(levels[vidx]));
            }
            vidx += 1;
        }
        self.bank.gain_ty.map(acc)
    }
}

} // verus!

use orbital::com::{ComMsg, GainType, ModulatorState, PrimaryState, SolarState};
use orbital::control::{Poll, MESSAGES_PER_BLOCK};
use orbital::envelope::Envelope;
use orbital::osc::{
    ModulationType, ModulatorOsc, OscillatorBank, ParentIndex, PrimaryOsc, Signal, MOD_OSC_COUNT, PRIMARY_OSC_COUNT,
    VOICE_COUNT,
};
use orbital::osc_array::{OscArray, VoiceState};
use orbital::solar_system::{ObjTy, SlotAllocator};

#[derive(Clone, Copy, Debug, PartialEq)]
struct Num(f32);

impl Signal for Num {
    fn spec_zero() -> Self {
        Self::zero()
    }
    fn spec_one() -> Self {
        Self::one()
    }
    fn spec_reference_pitch() -> Self {
        Self::reference_pitch()
    }
    fn spec_plus(self, other: Self) -> Self {
        self.plus(other)
    }
    fn spec_times(self, other: Self) -> Self {
        self.times(other)
    }
    fn spec_over(self, count: usize) -> Self {
        self.over(count)
    }
    fn spec_non_negative(self) -> Self {
        self.non_negative()
    }
    fn spec_octave(base: Self, speed_index: Self) -> Self {
        Self::octave(base, speed_index)
    }
    fn spec_advance_phase(phase: Self, base: Self, multiplier: Self, d_sec: Self) -> Self {
        Self::advance_phase(phase, base, multiplier, d_sec)
    }
    fn spec_wave(phase: Self, offset: Self, volume: Self) -> Self {
        Self::wave(phase, offset, volume)
    }
    fn spec_sigmoid(self) -> Self {
        self.sigmoid()
    }
    fn spec_clamp_unit(self) -> Self {
        self.clamp_unit()
    }
    fn spec_note_frequency(note: u8) -> Self {
        Self::note_frequency(note)
    }
    fn zero() -> Self {
        Num(0.0)
    }
    fn one() -> Self {
        Num(1.0)
    }
    fn reference_pitch() -> Self {
        Num(440.0)
    }
    fn plus(self, other: Self) -> Self {
        Num(self.0 + other.0)
    }
    fn times(self, other: Self) -> Self {
        Num(self.0 * other.0)
    }
    fn over(self, count: usize) -> Self {
        Num(self.0 / count as f32)
    }
    fn non_negative(self) -> Self {
        Num(self.0.max(0.0))
    }
    fn octave(base: Self, speed_index: Self) -> Self {
        Num(base.0 * 2.0f32.powf(speed_index.0))
    }
    fn advance_phase(phase: Self, base: Self, multiplier: Self, d_sec: Self) -> Self {
        let two_pi = 2.0 * std::f32::consts::PI;
        Num((phase.0 + d_sec.0 * base.0 * multiplier.0 * two_pi).rem_euclid(two_pi))
    }
    fn wave(phase: Self, offset: Self, volume: Self) -> Self {
        Num((phase.0 + offset.0).cos() * volume.0)
    }
    fn sigmoid(self) -> Self {
        Num(self.0 / (1.0 + self.0 * self.0).sqrt())
    }
    fn clamp_unit(self) -> Self {
        Num(self.0.clamp(-1.0, 1.0))
    }
    fn note_frequency(note: u8) -> Self {
        Num(2.0f32.powf((note as f32 - 69.0) / 12.0) * 440.0)
    }
}

#[test]
fn gain_type_next_toggles() {
    let mut g = GainType::Sigmoid;
    g.next();
    assert_eq!(g, GainType::Linear);
    g.next();
    assert_eq!(g, GainType::Sigmoid);
    assert_eq!(GainType::default(), GainType::Sigmoid);
}

#[test]
fn gain_type_map_linear_clamps() {
    assert_eq!(GainType::Linear.map(Num(3.0)), Num(1.0));
    assert_eq!(GainType::Linear.map(Num(-3.0)), Num(-1.0));
    assert_eq!(GainType::Linear.map(Num(0.25)), Num(0.25));
}

#[test]
fn gain_type_map_sigmoid_is_odd_and_bounded() {
    for x in [0.1f32, 0.5, 1.0, 4.0, 100.0] {
        let p = GainType::Sigmoid.map(Num(x)).0;
        let n = GainType::Sigmoid.map(Num(-x)).0;
        assert_eq!(p, -n);
        assert!(p > -1.0 && p < 1.0);
    }
    assert!((GainType::Sigmoid.map(Num(1.0)).0 - 1.0 / 2.0f32.sqrt()).abs() < 1e-6);
}

#[test]
fn modulation_type_next_toggles() {
    assert_eq!(ModulationType::Absolute.next(), ModulationType::Relative);
    assert_eq!(ModulationType::Relative.next(), ModulationType::Absolute);
    assert_eq!(ModulationType::default(), ModulationType::Relative);
}

#[test]
fn voice_state_predicates() {
    assert!(VoiceState::Off.is_off());
    assert!(!VoiceState::Off.is_active());
    assert!(!VoiceState::Off.is_released());
    assert!(VoiceState::On.is_active());
    assert!(!VoiceState::On.is_off());
    assert!(!VoiceState::On.is_released());
    assert!(VoiceState::Released.is_released());
    assert!(VoiceState::Released.is_active());
}

#[test]
fn envelope_events() {
    let mut e: Envelope<f64, u32> = Envelope::new(7);
    assert_eq!(e.press, None);
    e.on_press(1.5);
    e.on_release(2.0);
    assert_eq!(e.press, Some(1.5));
    assert_eq!(e.release, Some(2.0));
    e.on_press(3.0);
    assert_eq!(e.press, Some(3.0));
    assert_eq!(e.release, None);
    e.reset();
    assert_eq!(e.press, None);
    assert_eq!(e.release, None);
    assert_eq!(e.parameters, 7);
}

#[test]
fn envelope_press_twice_same_as_once() {
    let mut once: Envelope<f64, u32> = Envelope::new(1);
    once.on_press(0.5);
    let mut twice: Envelope<f64, u32> = Envelope::new(1);
    twice.on_press(0.5);
    twice.on_press(0.5);
    assert_eq!(once.press, twice.press);
    assert_eq!(once.release, twice.release);
    assert_eq!(once.parameters, twice.parameters);
}

#[test]
fn slot_allocator_hands_out_first_free() {
    let mut a = SlotAllocator::new();
    assert_eq!(a.allocate_primary(), Some(0));
    assert_eq!(a.allocate_primary(), Some(1));
    a.free_primary(0);
    assert_eq!(a.allocate_primary(), Some(0));
    assert_eq!(a.allocate_mod(), Some(0));
    assert_eq!(a.primary_slots[..3], [true, true, false]);
}

#[test]
fn slot_allocator_full_and_out_of_range() {
    let mut a = SlotAllocator::new();
    for i in 0..8 {
        assert_eq!(a.allocate_primary(), Some(i));
    }
    assert_eq!(a.allocate_primary(), None);
    for i in 0..16 {
        assert_eq!(a.allocate_mod(), Some(i));
    }
    assert_eq!(a.allocate_mod(), None);
    a.free_mod(99);
    a.free_primary(8);
    assert_eq!(a.allocate_mod(), None);
    assert_eq!(a.allocate_primary(), None);
    a.free_mod(5);
    assert_eq!(a.allocate_mod(), Some(5));
}

#[test]
fn obj_ty_lower_and_secondary() {
    assert_eq!(ObjTy::Sun.lower(), ObjTy::Planet);
    assert_eq!(ObjTy::Planet.lower(), ObjTy::Moon);
    assert_eq!(ObjTy::Moon.lower(), ObjTy::Astroid);
    assert_eq!(ObjTy::Astroid.lower(), ObjTy::Astroid);
    assert!(!ObjTy::Sun.is_secondary());
    assert!(!ObjTy::Planet.is_secondary());
    assert!(ObjTy::Moon.is_secondary());
    assert!(ObjTy::Astroid.is_secondary());
}

#[test]
fn control_poll_applies_and_bounds_block() {
    let mut bank: OscillatorBank<Num> = OscillatorBank::new();
    assert!(bank.on_poll(Poll::Message(ComMsg::GainChange(GainType::Linear)), 0));
    assert_eq!(bank.gain_ty, GainType::Linear);
    assert!(bank.on_poll(Poll::Message(ComMsg::ModRelationChanged(ModulationType::Absolute)), 1));
    assert_eq!(bank.mod_ty, ModulationType::Absolute);
    assert!(!bank.on_poll(Poll::Message(ComMsg::ResetPhaseChanged(true)), MESSAGES_PER_BLOCK - 1));
    assert!(bank.reset_phase);
}

#[test]
fn control_poll_stops_on_empty_and_disconnected() {
    let mut bank: OscillatorBank<Num> = OscillatorBank::new();
    assert!(!bank.on_poll(Poll::Empty, 0));
    assert!(!bank.on_poll(Poll::Disconnected, 3));
    assert_eq!(bank.gain_ty, GainType::Sigmoid);
    let empty = SolarState { primary_states: Vec::new(), modulator_states: Vec::new() };
    assert!(bank.on_poll(Poll::Message(ComMsg::StateChange(empty)), 0));
    assert!(bank.primary_osc.iter().all(|o| !o.osc.is_on));
}

const TWO_PI: f32 = 2.0 * std::f32::consts::PI;

fn primary(slot: usize, speed: f32, volume: f32) -> PrimaryState<Num> {
    PrimaryState { offset: Num(0.0), state: PrimaryOsc { speed_index: Num(speed), volume: Num(volume), is_on: true }, slot }
}

fn modulator(slot: usize, parent: ParentIndex, range: f32) -> ModulatorState<Num> {
    ModulatorState {
        offset: Num(0.0),
        state: ModulatorOsc { parent_osc_slot: parent, is_on: true, range: Num(range), speed_index: Num(0.0) },
        slot,
    }
}

fn topology(p: Vec<PrimaryState<Num>>, m: Vec<ModulatorState<Num>>) -> SolarState<Num> {
    SolarState { primary_states: p, modulator_states: m }
}

#[test]
fn bank_new_is_silent_and_sized() {
    let bank: OscillatorBank<Num> = OscillatorBank::new();
    assert_eq!(bank.primary_osc.len(), VOICE_COUNT * PRIMARY_OSC_COUNT);
    assert_eq!(bank.modulator_osc.len(), VOICE_COUNT * MOD_OSC_COUNT);
    assert!(bank.primary_osc.iter().all(|o| !o.osc.is_on && o.mod_counter == 0));
    assert!(bank.modulator_osc.iter().all(|o| !o.osc.is_on));
    assert!(!bank.reset_phase);
}

#[test]
fn index_is_voice_times_count_plus_slot() {
    assert_eq!(OscillatorBank::<Num>::primary_osc_index(3, 5), 29);
    assert_eq!(OscillatorBank::<Num>::modulator_osc_index(2, 7), 39);
    assert_eq!(OscillatorBank::<Num>::primary_osc_index(9, 7), 79);
    assert_eq!(OscillatorBank::<Num>::modulator_osc_index(9, 15), 159);
}

#[test]
fn state_change_configures_every_voice_and_switches_off_the_rest() {
    let mut bank: OscillatorBank<Num> = OscillatorBank::new();
    bank.on_state_change(topology(vec![primary(1, 0.0, 0.5), primary(2, 1.0, 0.25)], vec![]));
    for v in 0..VOICE_COUNT {
        assert!(bank.primary_osc[v * PRIMARY_OSC_COUNT + 1].osc.is_on);
        assert_eq!(bank.primary_osc[v * PRIMARY_OSC_COUNT + 2].osc.volume, Num(0.25));
    }
    bank.on_state_change(topology(vec![primary(2, 0.0, 0.75), primary(42, 0.0, 1.0)], vec![modulator(99, ParentIndex::Primary(2), 1.0)]));
    for v in 0..VOICE_COUNT {
        assert!(!bank.primary_osc[v * PRIMARY_OSC_COUNT + 1].osc.is_on);
        assert!(bank.primary_osc[v * PRIMARY_OSC_COUNT + 2].osc.is_on);
        assert_eq!(bank.primary_osc[v * PRIMARY_OSC_COUNT + 2].osc.volume, Num(0.75));
    }
    assert_eq!(bank.primary_osc.iter().filter(|o| o.osc.is_on).count(), VOICE_COUNT);
    assert!(bank.modulator_osc.iter().all(|o| !o.osc.is_on));
}

#[test]
fn state_change_later_entry_wins() {
    let mut bank: OscillatorBank<Num> = OscillatorBank::new();
    bank.on_state_change(topology(vec![primary(0, 0.0, 0.5), primary(0, 0.0, 0.9)], vec![]));
    assert_eq!(bank.primary_osc[0].osc.volume, Num(0.9));
}

#[test]
fn reset_voice_zeroes_only_that_voice() {
    let mut bank: OscillatorBank<Num> = OscillatorBank::new();
    bank.on_state_change(topology(vec![primary(0, 0.0, 1.0)], vec![modulator(0, ParentIndex::Primary(0), 0.5)]));
    bank.step_voice(0, Num(440.0), Num(1.0 / 48000.0));
    bank.step_voice(1, Num(440.0), Num(1.0 / 48000.0));
    assert!(bank.primary_osc[0].phase.0 > 0.0);
    bank.reset_voice(0);
    assert_eq!(bank.primary_osc[0].phase, Num(0.0));
    assert_eq!(bank.modulator_osc[0].phase, Num(0.0));
    assert!(bank.primary_osc[PRIMARY_OSC_COUNT].phase.0 > 0.0);
    assert!(bank.modulator_osc[MOD_OSC_COUNT].phase.0 > 0.0);
}

#[test]
fn one_sample_of_one_primary() {
    let mut bank: OscillatorBank<Num> = OscillatorBank::new();
    bank.on_state_change(topology(vec![primary(0, 0.0, 1.0)], vec![]));
    let s = bank.step_voice(0, Num(440.0), Num(1.0 / 48000.0));
    let expected = TWO_PI * 440.0 / 48000.0;
    assert!((bank.primary_osc[0].phase.0 - expected).abs() < 1e-6);
    assert!((s.0 - expected.cos()).abs() < 1e-6);
}

#[test]
fn voice_sample_is_mean_over_active_primaries() {
    for n in 1..=PRIMARY_OSC_COUNT {
        let mut bank: OscillatorBank<Num> = OscillatorBank::new();
        let states = (0..n).map(|k| primary(k, 0.0, 0.5)).collect();
        bank.on_state_change(topology(states, vec![]));
        for _ in 0..200 {
            let s = bank.step_voice(0, Num(440.0), Num(1.0 / 48000.0));
            assert!(s.0.abs() <= 0.5 + 1e-6);
        }
    }
    let mut bank: OscillatorBank<Num> = OscillatorBank::new();
    assert_eq!(bank.step_voice(0, Num(440.0), Num(1.0 / 48000.0)), Num(0.0));
}

#[test]
fn modulators_gather_into_parent() {
    let mut bank: OscillatorBank<Num> = OscillatorBank::new();
    let mods = vec![
        modulator(0, ParentIndex::Modulator(3), 1.0),
        modulator(1, ParentIndex::Modulator(3), 1.0),
        modulator(2, ParentIndex::Modulator(200), 1.0),
        modulator(3, ParentIndex::Primary(0), 1.0),
        modulator(4, ParentIndex::Modulator(5), 1.0),
    ];
    bank.on_state_change(topology(vec![primary(0, 0.0, 1.0)], mods));
    for _ in 0..300 {
        bank.step_voice(0, Num(440.0), Num(1.0 / 48000.0));
        let parent = bank.modulator_osc[3];
        assert_eq!(parent.mod_counter, 2);
        let mean = parent.mod_multiplier.0 / parent.mod_counter as f32;
        assert!((-1e-6..=2.0 + 1e-6).contains(&mean));
        assert_eq!(bank.modulator_osc[5].mod_counter, 0);
        assert_eq!(bank.modulator_osc[0].mod_counter, 0);
        assert_eq!(bank.primary_osc[0].mod_counter, 0);
    }
    assert_eq!(bank.modulator_osc[MOD_OSC_COUNT + 3].mod_counter, 0);
}

#[test]
fn phases_stay_in_one_turn() {
    let mut bank: OscillatorBank<Num> = OscillatorBank::new();
    bank.on_state_change(topology(
        vec![primary(0, 3.0, 1.0), primary(1, -2.0, 1.0)],
        vec![modulator(0, ParentIndex::Primary(0), 1.0), modulator(1, ParentIndex::Modulator(0), 0.5)],
    ));
    for _ in 0..5000 {
        bank.step_voice(0, Num(880.0), Num(1.0 / 44100.0));
    }
    for o in bank.primary_osc.iter() {
        assert!(o.phase.0 >= 0.0 && o.phase.0 < TWO_PI);
    }
    for o in bank.modulator_osc.iter() {
        assert!(o.phase.0 >= 0.0 && o.phase.0 < TWO_PI);
    }
}

fn synth() -> OscArray<f64, u32, Num> {
    OscArray::new(0)
}

#[test]
fn note_on_beyond_pool_is_dropped() {
    let mut s = synth();
    for n in 0..VOICE_COUNT as u8 {
        s.note_on(60 + n, 0.0);
    }
    let before: Vec<u8> = s.voices.iter().map(|v| v.note).collect();
    s.note_on(100, 0.0);
    assert_eq!(s.voices.iter().filter(|v| v.state.is_active()).count(), VOICE_COUNT);
    let after: Vec<u8> = s.voices.iter().map(|v| v.note).collect();
    assert_eq!(before, after);
    assert!(!after.contains(&100));
}

#[test]
fn note_on_takes_first_free_voice() {
    let mut s = synth();
    s.note_on(60, 1.0);
    s.note_on(62, 2.0);
    assert_eq!(s.voices[0].note, 60);
    assert_eq!(s.voices[0].env.press, Some(1.0));
    assert_eq!(s.voices[1].state, VoiceState::On);
    s.reclaim(&[true, false, false, false, false, false, false, false, false, false]);
    assert_eq!(s.voices[0].state, VoiceState::On);
    s.note_off(60, 2.5);
    s.reclaim(&[true, false, false, false, false, false, false, false, false, false]);
    assert_eq!(s.voices[0].state, VoiceState::Off);
    assert_eq!(s.voices[0].note, 0);
    assert_eq!(s.voices[0].env.press, None);
    s.note_on(64, 3.0);
    assert_eq!(s.voices[0].note, 64);
    assert_eq!(s.voices[1].note, 62);
}

#[test]
fn note_off_releases_matching_voices() {
    let mut s = synth();
    s.note_on(60, 0.0);
    s.note_on(61, 0.0);
    s.note_on(60, 0.5);
    s.note_off(60, 1.0);
    assert_eq!(s.voices[0].state, VoiceState::Released);
    assert_eq!(s.voices[0].env.release, Some(1.0));
    assert_eq!(s.voices[1].state, VoiceState::On);
    assert_eq!(s.voices[2].state, VoiceState::Released);
    assert_eq!(s.voices[3].state, VoiceState::Off);
    assert_eq!(s.voices[3].env.release, None);
}

#[test]
fn note_on_resets_phases_when_asked() {
    let mut s = synth();
    s.bank.on_state_change(topology(vec![primary(0, 0.0, 1.0)], vec![]));
    s.bank.step_voice(0, Num(440.0), Num(1.0 / 48000.0));
    s.note_on(60, 0.0);
    assert!(s.bank.primary_osc[0].phase.0 > 0.0);
    s.note_off(60, 0.0);
    s.reclaim(&[true; VOICE_COUNT]);
    s.bank.reset_phase = true;
    s.note_on(60, 0.0);
    assert_eq!(s.bank.primary_osc[0].phase, Num(0.0));
}

#[test]
fn set_envelopes_reaches_every_voice() {
    let mut s = synth();
    s.note_on(60, 0.0);
    s.set_envelopes(9);
    assert!(s.voices.iter().all(|v| v.env.parameters == 9));
    assert_eq!(s.voices[0].env.press, Some(0.0));
}

#[test]
fn process_sample_mixes_active_voices_only() {
    let mut s = synth();
    s.bank.on_state_change(topology(vec![primary(0, 0.0, 1.0)], vec![]));
    s.bank.gain_ty = GainType::Linear;
    let levels = [Num(1.0); VOICE_COUNT];
    let silent = s.process_sample(&levels, Num(1.0 / 48000.0));
    assert_eq!(silent, Num(0.0));
    assert_eq!(s.bank.primary_osc[0].phase, Num(0.0));
    s.note_on(69, 0.0);
    let out = s.process_sample(&levels, Num(1.0 / 48000.0));
    let expected = (TWO_PI * 440.0 / 48000.0).cos();
    assert!((out.0 - expected).abs() < 1e-4);
    assert_eq!(s.bank.primary_osc[PRIMARY_OSC_COUNT].phase, Num(0.0));
}

#[test]
fn defaults_match_constructors() {
    let bank: OscillatorBank<Num> = OscillatorBank::default();
    assert_eq!(bank.gain_ty, GainType::Sigmoid);
    assert_eq!(bank.mod_ty, ModulationType::Relative);
    let mut slots = SlotAllocator::default();
    assert_eq!(slots.allocate_mod(), Some(0));
    let v: orbital::osc_array::OscVoiceState<f64, u32> = orbital::osc_array::OscVoiceState::new(3);
    assert_eq!(v.state, VoiceState::Off);
    assert_eq!(v.env.parameters, 3);
}

#[test]
fn modulator_with_stray_parent_acts_like_one_switched_off() {
    let run = |on: bool| {
        let mut bank: OscillatorBank<Num> = OscillatorBank::new();
        let mut stray = modulator(1, ParentIndex::Primary(PRIMARY_OSC_COUNT + 3), 1.0);
        stray.state.is_on = on;
        bank.on_state_change(topology(vec![primary(0, 0.0, 1.0)], vec![modulator(0, ParentIndex::Primary(0), 0.5), stray]));
        let mut out = Vec::new();
        for _ in 0..100 {
            out.push(bank.step_voice(0, Num(440.0), Num(1.0 / 48000.0)).0);
        }
        (out, bank.primary_osc[0].phase, bank.modulator_osc[1].phase, bank.primary_osc[PRIMARY_OSC_COUNT].phase)
    };
    assert_eq!(run(true), run(false));
}

//! CV-input modulation routing: each of the four CV inputs drives an engine
//! knob, a common-block parameter, or the CV note machine (pitch and gate).
//! Calibrated CV is 4096 counts per volt over a usable span of 0..5 V.
use vstd::prelude::*;

verus! {

/// What a CV input is routed to.
#[derive(Clone, Copy, PartialEq, Eq, Debug, Structural)]
pub enum CvTarget {
    Off,
    Knob1,
    Knob2,
    Knob3,
    Knob4,
    Knob5,
    Volume,
    Phase,
    Detune,
    Cutoff,
    Reso,
    Pitch,
    Gate,
}

/// Number of routing targets.
pub const N_TARGETS: u8 = 13;

/// The position of a target in the selector order (its persisted code).
pub open spec fn target_code(t: CvTarget) -> u8 {
    match t {
        CvTarget::Off => 0,
        CvTarget::Knob1 => 1,
        CvTarget::Knob2 => 2,
        CvTarget::Knob3 => 3,
        CvTarget::Knob4 => 4,
        CvTarget::Knob5 => 5,
        CvTarget::Volume => 6,
        CvTarget::Phase => 7,
        CvTarget::Detune => 8,
        CvTarget::Cutoff => 9,
        CvTarget::Reso => 10,
        CvTarget::Pitch => 11,
        CvTarget::Gate => 12,
    }
}

/// The target with persisted code `b`; unknown codes decode to `Off`.
pub open spec fn target_of_code(b: u8) -> CvTarget {
    if b == 1 {
        CvTarget::Knob1
    } else if b == 2 {
        CvTarget::Knob2
    } else if b == 3 {
        CvTarget::Knob3
    } else if b == 4 {
        CvTarget::Knob4
    } else if b == 5 {
        CvTarget::Knob5
    } else if b == 6 {
        CvTarget::Volume
    } else if b == 7 {
        CvTarget::Phase
    } else if b == 8 {
        CvTarget::Detune
    } else if b == 9 {
        CvTarget::Cutoff
    } else if b == 10 {
        CvTarget::Reso
    } else if b == 11 {
        CvTarget::Pitch
    } else if b == 12 {
        CvTarget::Gate
    } else {
        CvTarget::Off
    }
}

/// The engine knob a target drives, if it is a knob target.
pub open spec fn knob_of(t: CvTarget) -> Option<u8> {
    match t {
        CvTarget::Knob1 => Some(0u8),
        CvTarget::Knob2 => Some(1u8),
        CvTarget::Knob3 => Some(2u8),
        CvTarget::Knob4 => Some(3u8),
        CvTarget::Knob5 => Some(4u8),
        _ => None,
    }
}

/// The common-block parameter a target drives, if it is a parameter target.
pub open spec fn par_of(t: CvTarget) -> Option<u8> {
    match t {
        CvTarget::Volume => Some(0x01u8),
        CvTarget::Phase => Some(0x02u8),
        CvTarget::Detune => Some(0x03u8),
        CvTarget::Cutoff => Some(0x04u8),
        CvTarget::Reso => Some(0x05u8),
        _ => None,
    }
}

impl CvTarget {
    /// The persisted code of the target.
    pub fn to_u8(self) -> (b: u8)
        ensures
            b == target_code(self),
            b < N_TARGETS,
    {
        match self {
            CvTarget::Off => 0,
            CvTarget::Knob1 => 1,
            CvTarget::Knob2 => 2,
            CvTarget::Knob3 => 3,
            CvTarget::Knob4 => 4,
            CvTarget::Knob5 => 5,
            CvTarget::Volume => 6,
            CvTarget::Phase => 7,
            CvTarget::Detune => 8,
            CvTarget::Cutoff => 9,
            CvTarget::Reso => 10,
            CvTarget::Pitch => 11,
            CvTarget::Gate => 12,
        }
    }

    /// The target with persisted code `b`; unknown codes decode to `Off`.
    pub fn from_u8(b: u8) -> (t: Self)
        ensures
            t == target_of_code(b),
    {
        match b {
            1 => CvTarget::Knob1,
            2 => CvTarget::Knob2,
            3 => CvTarget::Knob3,
            4 => CvTarget::Knob4,
            5 => CvTarget::Knob5,
            6 => CvTarget::Volume,
            7 => CvTarget::Phase,
            8 => CvTarget::Detune,
            9 => CvTarget::Cutoff,
            10 => CvTarget::Reso,
            11 => CvTarget::Pitch,
            12 => CvTarget::Gate,
            _ => CvTarget::Off,
        }
    }

    /// The target `delta` places further in the selector order, clamped to
    /// the first and last targets.
    pub fn step(self, delta: i8) -> (t: Self)
        ensures
            t == target_of_code(clamp_int(target_code(self) + delta, 0, N_TARGETS - 1) as u8),
    {
        let ix = self.to_u8() as i16 + delta as i16;
        let ix = if ix < 0 {
            0
        } else if ix > 12 {
            12
        } else {
            ix
        };
        CvTarget::from_u8(ix as u8)
    }

    /// The selector label.
    pub fn label(self) -> (l: &'static str)
        ensures
            l == target_label(self),
    {
        match self {
            CvTarget::Off => "Off",
            CvTarget::Knob1 => "Knob1",
            CvTarget::Knob2 => "Knob2",
            CvTarget::Knob3 => "Knob3",
            CvTarget::Knob4 => "Knob4",
            CvTarget::Knob5 => "Knob5",
            CvTarget::Volume => "Volume",
            CvTarget::Phase => "Phase",
            CvTarget::Detune => "Detune",
            CvTarget::Cutoff => "Cutoff",
            CvTarget::Reso => "Reso",
            CvTarget::Pitch => "Pitch",
            CvTarget::Gate => "Gate",
        }
    }

    fn par_number(self) -> (p: Option<u8>)
        ensures
            p == par_of(self),
    {
        match self {
            CvTarget::Volume => Some(0x01),
            CvTarget::Phase => Some(0x02),
            CvTarget::Detune => Some(0x03),
            CvTarget::Cutoff => Some(0x04),
            CvTarget::Reso => Some(0x05),
            _ => None,
        }
    }

    fn knob_number(self) -> (k: Option<u8>)
        ensures
            k == knob_of(self),
    {
        match self {
            CvTarget::Knob1 => Some(0),
            CvTarget::Knob2 => Some(1),
            CvTarget::Knob3 => Some(2),
            CvTarget::Knob4 => Some(3),
            CvTarget::Knob5 => Some(4),
            _ => None,
        }
    }
}

/// The selector label of a target.
pub open spec fn target_label(t: CvTarget) -> &'static str {
    match t {
        CvTarget::Off => "Off",
        CvTarget::Knob1 => "Knob1",
        CvTarget::Knob2 => "Knob2",
        CvTarget::Knob3 => "Knob3",
        CvTarget::Knob4 => "Knob4",
        CvTarget::Knob5 => "Knob5",
        CvTarget::Volume => "Volume",
        CvTarget::Phase => "Phase",
        CvTarget::Detune => "Detune",
        CvTarget::Cutoff => "Cutoff",
        CvTarget::Reso => "Reso",
        CvTarget::Pitch => "Pitch",
        CvTarget::Gate => "Gate",
    }
}

/// Decoding a target's persisted code gives the target back.
pub proof fn lemma_target_code_roundtrip(t: CvTarget)
    ensures
        target_of_code(target_code(t)) == t,
{
}

/// `v` limited to `lo..=hi`.
pub open spec fn clamp_int(v: int, lo: int, hi: int) -> int {
    if v < lo {
        lo
    } else if v > hi {
        hi
    } else {
        v
    }
}

pub const COUNTS_PER_VOLT: i32 = 4096;
pub const FULL_SCALE: i32 = 20480;
pub const GATE_ON: i32 = 8192;
pub const GATE_OFF: i32 = 4096;
pub const PITCH_BASE_NOTE: i32 = 36;
pub const PITCH_SPAN: i32 = 60;
pub const PITCH_HYST: i32 = 85;
pub const FIXED_GATE_NOTE: u8 = 60;

/// A CV reading mapped from 0..5 V onto 0..=255.
pub open spec fn scale8(x: i32) -> u8 {
    (clamp_int(x as int, 0, FULL_SCALE as int) * 255 / FULL_SCALE as int) as u8
}

/// The semitone nearest to a clamped CV reading, limited to `0..=60`.
pub open spec fn nearest_semitone(x: int) -> int {
    clamp_int((x * 12 + COUNTS_PER_VOLT / 2) / COUNTS_PER_VOLT as int, 0, PITCH_SPAN as int)
}

/// Rust's `/` on integers: the quotient rounded toward zero.
pub open spec fn div_trunc(a: int, b: int) -> int {
    if a >= 0 {
        a / b
    } else {
        -((-a) / b)
    }
}

/// The semitone index for a CV reading, with hysteresis: the current semitone
/// is kept unless the reading is more than `PITCH_HYST` counts past its
/// boundary with a neighbouring semitone.
pub open spec fn quantize(x: i32, current: u8) -> u8 {
    let x = clamp_int(x as int, 0, FULL_SCALE as int);
    let cur = current as int;
    let upper = div_trunc((2 * cur + 1) * COUNTS_PER_VOLT, 24) + PITCH_HYST;
    let lower = div_trunc((2 * cur - 1) * COUNTS_PER_VOLT, 24) - PITCH_HYST;
    if x > upper || x < lower {
        nearest_semitone(x) as u8
    } else {
        current
    }
}

fn clamp_i32(v: i32, lo: i32, hi: i32) -> (r: i32)
    requires
        lo <= hi,
    ensures
        r == clamp_int(v as int, lo as int, hi as int),
{
    if v < lo {
        lo
    } else if v > hi {
        hi
    } else {
        v
    }
}

fn to_u8_scale(x: i32) -> (v: u8)
    ensures
        v == scale8(x),
{
    let c = clamp_i32(x, 0, FULL_SCALE);
    assert(0 <= c * 255 <= FULL_SCALE * 255) by (nonlinear_arith)
        requires
            0 <= c <= FULL_SCALE,
    ;
    assert(c * 255 / (FULL_SCALE as int) <= 255) by (nonlinear_arith)
        requires
            0 <= c * 255 <= FULL_SCALE * 255,
    ;
    (c * 255 / FULL_SCALE) as u8
}

fn quantize_semitone(x: i32, current: u8) -> (s: u8)
    ensures
        s == quantize(x, current),
{
    let x = clamp_i32(x, 0, FULL_SCALE);
    let cur = current as i32;
    let upper = (2 * cur + 1) * COUNTS_PER_VOLT / 24 + PITCH_HYST;
    let lower = if cur == 0 {
        -(COUNTS_PER_VOLT / 24) - PITCH_HYST
    } else {
        (2 * cur - 1) * COUNTS_PER_VOLT / 24 - PITCH_HYST
    };
    if x > upper || x < lower {
        assert(0 <= x * 12 + COUNTS_PER_VOLT / 2 <= FULL_SCALE * 12 + 2048) by (nonlinear_arith)
            requires
                0 <= x <= FULL_SCALE,
        ;
        clamp_i32((x * 12 + COUNTS_PER_VOLT / 2) / COUNTS_PER_VOLT, 0, PITCH_SPAN) as u8
    } else {
        current
    }
}

/// A command the CV router sends to the engine.
#[derive(Clone, Copy, PartialEq, Eq, Debug, Structural)]
pub enum CvEvent {
    Knob(u8, u8),
    Par(u8, u16),
    NoteOn(u8),
    NoteOff(u8),
}

/// The engine side of CV routing, implemented by [`CvRecorder`] here and by
/// the synth engine bindings. `events` is the history of commands received.
///
/// `events` has a default body so that a binding written outside Verus
/// (which cannot define spec functions) can implement the trait. Under that
/// default the contracts below are not true of such a binding: they describe
/// only implementations that define `events`, such as [`CvRecorder`], and
/// nothing proved here about the commands sent carries over to a binding
/// that keeps the default.
pub trait CvSink {
    /// Every command received so far, in order. The default (empty) is no
    /// model of any real engine; see the trait's documentation.
    closed spec fn events(&self) -> Seq<CvEvent> {
        Seq::empty()
    }

    /// Sets engine knob `knob` to `value`.
    fn knob(&mut self, knob: u8, value: u8)
        ensures
            final(self).events() == old(self).events().push(CvEvent::Knob(knob, value)),
    ;

    /// Sets common-block parameter `par` to `value16`.
    fn par(&mut self, par: u8, value16: u16)
        ensures
            final(self).events() == old(self).events().push(CvEvent::Par(par, value16)),
    ;

    /// Starts `note` on MIDI channel 1.
    fn note_on(&mut self, note: u8)
        ensures
            final(self).events() == old(self).events().push(CvEvent::NoteOn(note)),
    ;

    /// Stops `note` on MIDI channel 1.
    fn note_off(&mut self, note: u8)
        ensures
            final(self).events() == old(self).events().push(CvEvent::NoteOff(note)),
    ;
}

/// A sink that records every command, split by kind.
pub struct CvRecorder {
    knobs: Vec<(u8, u8)>,
    pars: Vec<(u8, u16)>,
    ons: Vec<u8>,
    offs: Vec<u8>,
    log: Ghost<Seq<CvEvent>>,
}

impl CvRecorder {
    /// The knob commands received, in order.
    pub closed spec fn knob_log(&self) -> Seq<(u8, u8)> {
        self.knobs@
    }

    /// The parameter commands received, in order.
    pub closed spec fn par_log(&self) -> Seq<(u8, u16)> {
        self.pars@
    }

    /// The notes started, in order.
    pub closed spec fn on_log(&self) -> Seq<u8> {
        self.ons@
    }

    /// The notes stopped, in order.
    pub closed spec fn off_log(&self) -> Seq<u8> {
        self.offs@
    }

    /// A recorder that has received nothing.
    pub fn new() -> (r: Self)
        ensures
            r.events() == Seq::<CvEvent>::empty(),
            r.knob_log() == Seq::<(u8, u8)>::empty(),
            r.par_log() == Seq::<(u8, u16)>::empty(),
            r.on_log() == Seq::<u8>::empty(),
            r.off_log() == Seq::<u8>::empty(),
    {
        CvRecorder { knobs: Vec::new(), pars: Vec::new(), ons: Vec::new(), offs: Vec::new(), log: Ghost(Seq::empty()) }
    }

    /// The knob commands received.
    pub fn knobs(&self) -> (k: &[(u8, u8)])
        ensures
            k@ == self.knob_log(),
    {
        self.knobs.as_slice()
    }

    /// The parameter commands received.
    pub fn pars(&self) -> (p: &[(u8, u16)])
        ensures
            p@ == self.par_log(),
    {
        self.pars.as_slice()
    }

    /// The notes started.
    pub fn ons(&self) -> (n: &[u8])
        ensures
            n@ == self.on_log(),
    {
        self.ons.as_slice()
    }

    /// The notes stopped.
    pub fn offs(&self) -> (n: &[u8])
        ensures
            n@ == self.off_log(),
    {
        self.offs.as_slice()
    }
}

impl CvSink for CvRecorder {
    closed spec fn events(&self) -> Seq<CvEvent> {
        self.log@
    }

    fn knob(&mut self, knob: u8, value: u8)
        ensures
            final(self).knob_log() == old(self).knob_log().push((knob, value)),
            final(self).par_log() == old(self).par_log(),
            final(self).on_log() == old(self).on_log(),
            final(self).off_log() == old(self).off_log(),
    {
        self.knobs.push((knob, value));
        self.log = Ghost(self.log@.push(CvEvent::Knob(knob, value)));
    }

    fn par(&mut self, par: u8, value16: u16)
        ensures
            final(self).par_log() == old(self).par_log().push((par, value16)),
            final(self).knob_log() == old(self).knob_log(),
            final(self).on_log() == old(self).on_log(),
            final(self).off_log() == old(self).off_log(),
    {
        self.pars.push((par, value16));
        self.log = Ghost(self.log@.push(CvEvent::Par(par, value16)));
    }

    fn note_on(&mut self, note: u8)
        ensures
            final(self).on_log() == old(self).on_log().push(note),
            final(self).knob_log() == old(self).knob_log(),
            final(self).par_log() == old(self).par_log(),
            final(self).off_log() == old(self).off_log(),
    {
        self.ons.push(note);
        self.log = Ghost(self.log@.push(CvEvent::NoteOn(note)));
    }

    fn note_off(&mut self, note: u8)
        ensures
            final(self).off_log() == old(self).off_log().push(note),
            final(self).knob_log() == old(self).knob_log(),
            final(self).par_log() == old(self).par_log(),
            final(self).on_log() == old(self).on_log(),
    {
        self.offs.push(note);
        self.log = Ghost(self.log@.push(CvEvent::NoteOff(note)));
    }
}

/// The routing state as plain values.
pub struct CvModel {
    pub targets: Seq<CvTarget>,
    pub last8: Seq<Option<u8>>,
    pub gate: bool,
    pub held_note: u8,
    pub semitone: u8,
}

/// One continuous input: the new deadband value and the command it emits.
pub open spec fn cont_step(t: CvTarget, last: Option<u8>, x: i32) -> (Option<u8>, Seq<CvEvent>) {
    if knob_of(t) is None && par_of(t) is None {
        (last, Seq::empty())
    } else {
        let v8 = scale8(x);
        if last == Some(v8) {
            (last, Seq::empty())
        } else if let Some(k) = knob_of(t) {
            (Some(v8), seq![CvEvent::Knob(k, v8)])
        } else {
            (Some(v8), seq![CvEvent::Par(par_of(t)->0, ((v8 as u16) << 8u16) | v8 as u16)])
        }
    }
}

/// The commands the continuous inputs `0..n` emit, in input order.
pub open spec fn cont_events(m: CvModel, x: Seq<i32>, n: int) -> Seq<CvEvent>
    decreases n,
{
    if n <= 0 {
        Seq::empty()
    } else {
        cont_events(m, x, n - 1) + cont_step(m.targets[n - 1], m.last8[n - 1], x[n - 1]).1
    }
}

/// The deadband values after the continuous inputs are processed.
pub open spec fn cont_last8(m: CvModel, x: Seq<i32>) -> Seq<Option<u8>> {
    Seq::new(4, |i: int| cont_step(m.targets[i], m.last8[i], x[i]).0)
}

/// The first input routed to `t`, if any.
pub open spec fn first_input(targets: Seq<CvTarget>, t: CvTarget) -> Option<int> {
    if targets[0] == t {
        Some(0int)
    } else if targets[1] == t {
        Some(1int)
    } else if targets[2] == t {
        Some(2int)
    } else if targets[3] == t {
        Some(3int)
    } else {
        None
    }
}

/// The note machine after the continuous inputs: the new state and the
/// commands it emits.
pub open spec fn note_step(m: CvModel, x: Seq<i32>) -> (CvModel, Seq<CvEvent>) {
    match first_input(m.targets, CvTarget::Gate) {
        None => (m, Seq::empty()),
        Some(g) => {
            let level = x[g];
            let pitch = first_input(m.targets, CvTarget::Pitch);
            if !m.gate && level > GATE_ON {
                match pitch {
                    Some(p) => {
                        let s = quantize(x[p], m.semitone);
                        let note = (PITCH_BASE_NOTE + s) as u8;
                        (CvModel { gate: true, held_note: note, semitone: s, ..m }, seq![CvEvent::NoteOn(note)])
                    },
                    None => (
                        CvModel { gate: true, held_note: FIXED_GATE_NOTE, ..m },
                        seq![CvEvent::NoteOn(FIXED_GATE_NOTE)],
                    ),
                }
            } else if m.gate && level < GATE_OFF {
                (CvModel { gate: false, ..m }, seq![CvEvent::NoteOff(m.held_note)])
            } else if m.gate && pitch is Some {
                let s = quantize(x[pitch->0], m.semitone);
                if s != m.semitone {
                    let note = (PITCH_BASE_NOTE + s) as u8;
                    (
                        CvModel { semitone: s, held_note: note, ..m },
                        seq![CvEvent::NoteOn(note), CvEvent::NoteOff(m.held_note)],
                    )
                } else {
                    (m, Seq::empty())
                }
            } else {
                (m, Seq::empty())
            }
        },
    }
}

/// One routing tick on readings `x`: the new state and every command sent.
pub open spec fn tick_model(m: CvModel, x: Seq<i32>) -> (CvModel, Seq<CvEvent>) {
    let after_cont = CvModel { last8: cont_last8(m, x), ..m };
    let (after_note, notes) = note_step(after_cont, x);
    (after_note, cont_events(m, x, 4) + notes)
}

/// CV routing state: the four assignments, the last value sent per input
/// (a deadband), and the note machine.
pub struct CvState {
    targets: [CvTarget; 4],
    last8: [Option<u8>; 4],
    gate: bool,
    held_note: u8,
    semitone: u8,
}

impl View for CvState {
    type V = CvModel;

    closed spec fn view(&self) -> CvModel {
        CvModel {
            targets: self.targets@,
            last8: self.last8@,
            gate: self.gate,
            held_note: self.held_note,
            semitone: self.semitone,
        }
    }
}

impl Default for CvState {
    fn default() -> (s: Self)
        ensures
            s@ == initial_cv_model(),
    {
        Self::new()
    }
}

/// The routing state after the assignments become `t`: every deadband is
/// cleared, and a held note stays held only while some input is on Gate.
pub open spec fn retarget_model(m: CvModel, t: Seq<CvTarget>) -> CvModel {
    CvModel { targets: t, last8: seq![None, None, None, None], gate: m.gate && t.contains(CvTarget::Gate), ..m }
}

/// The freshly constructed routing state: every input off, no note held.
pub open spec fn initial_cv_model() -> CvModel {
    CvModel {
        targets: seq![CvTarget::Off, CvTarget::Off, CvTarget::Off, CvTarget::Off],
        last8: seq![None, None, None, None],
        gate: false,
        held_note: 0,
        semitone: 0,
    }
}

impl CvState {
    /// Every input off, no note held.
    pub fn new() -> (s: Self)
        ensures
            s@ == initial_cv_model(),
    {
        let s = CvState {
            targets: [CvTarget::Off, CvTarget::Off, CvTarget::Off, CvTarget::Off],
            last8: [None, None, None, None],
            gate: false,
            held_note: 0,
            semitone: 0,
        };
        assert(s@.targets =~= initial_cv_model().targets);
        assert(s@.last8 =~= initial_cv_model().last8);
        s
    }

    /// The current assignments.
    pub fn targets(&self) -> (t: [CvTarget; 4])
        ensures
            t@ == self@.targets,
    {
        self.targets
    }

    /// Applies a new assignment set. A held CV note is released when no input
    /// is routed to Gate any more, and every continuous input re-sends its
    /// value on the next tick.
    pub fn set_targets<S: CvSink>(&mut self, t: [CvTarget; 4], sink: &mut S)
        ensures
            final(self)@ == retarget_model(old(self)@, t@),
            final(sink).events() == old(sink).events() + (if old(self)@.gate && !t@.contains(CvTarget::Gate) {
                seq![CvEvent::NoteOff(old(self)@.held_note)]
            } else {
                Seq::empty()
            }),
    {
        let has_gate = t[0] == CvTarget::Gate || t[1] == CvTarget::Gate || t[2] == CvTarget::Gate || t[3]
            == CvTarget::Gate;
        proof {
            if has_gate {
                if t[0] == CvTarget::Gate {
                    assert(t@[0] == CvTarget::Gate);
                } else if t[1] == CvTarget::Gate {
                    assert(t@[1] == CvTarget::Gate);
                } else if t[2] == CvTarget::Gate {
                    assert(t@[2] == CvTarget::Gate);
                } else {
                    assert(t@[3] == CvTarget::Gate);
                }
            } else {
                assert forall|i: int| 0 <= i < 4 implies t@[i] != CvTarget::Gate by {}
            }
        }
        let ghost e0 = sink.events();
        if self.gate && !has_gate {
            sink.note_off(self.held_note);
            self.gate = false;
        }
        self.last8 = [None, None, None, None];
        self.targets = t;
        proof {
            assert(self@.last8 =~= seq![None, None, None, None]);
            assert(sink.events() =~= e0 + (if old(self)@.gate && !t@.contains(CvTarget::Gate) {
                seq![CvEvent::NoteOff(old(self)@.held_note)]
            } else {
                Seq::empty()
            }));
        }
    }

    fn first_input_of(&self, t: CvTarget) -> (r: Option<usize>)
        ensures
            r matches Some(i) ==> first_input(self@.targets, t) == Some(i as int),
            r is None ==> first_input(self@.targets, t) is None,
    {
        if self.targets[0] == t {
            Some(0)
        } else if self.targets[1] == t {
            Some(1)
        } else if self.targets[2] == t {
            Some(2)
        } else if self.targets[3] == t {
            Some(3)
        } else {
            None
        }
    }

    /// One routing tick on the calibrated readings `x`: continuous inputs send
    /// their 8-bit value when it changed, then the note machine follows the
    /// first Gate input (on above 2 V, off below 1 V) and the first Pitch input.
    pub fn tick<S: CvSink>(&mut self, x: [i32; 4], sink: &mut S)
        ensures
            final(self)@ == tick_model(old(self)@, x@).0,
            final(sink).events() == old(sink).events() + tick_model(old(self)@, x@).1,
    {
        let ghost m0 = self@;
        let ghost e0 = sink.events();
        let mut i: usize = 0;
        while i < 4
            invariant
                i <= 4,
                self.targets@ == m0.targets,
                self.gate == m0.gate,
                self.held_note == m0.held_note,
                self.semitone == m0.semitone,
                x@.len() == 4,
                m0.targets.len() == 4,
                m0.last8.len() == 4,
                self.last8@.len() == 4,
                forall|k: int| 0 <= k < i ==> self.last8@[k] == cont_step(m0.targets[k], m0.last8[k], x@[k]).0,
                forall|k: int| i <= k < 4 ==> self.last8@[k] == m0.last8[k],
                sink.events() == e0 + cont_events(m0, x@, i as int),
            decreases 4 - i,
        {
            let t = self.targets[i];
            let kn = t.knob_number();
            let pn = t.par_number();
            if kn.is_some() || pn.is_some() {
                let v8 = to_u8_scale(x[i]);
                if self.last8[i] != Some(v8) {
                    self.last8[i] = Some(v8);
                    match kn {
                        Some(k) => sink.knob(k, v8),
                        None => {
                            let p = pn.unwrap();
                            sink.par(p, ((v8 as u16) << 8u16) | v8 as u16);
                        },
                    }
                }
            }
            proof {
                assert(sink.events() =~= e0 + cont_events(m0, x@, i as int + 1));
            }
            i = i + 1;
        }
        proof {
            assert(self@.last8 =~= cont_last8(m0, x@));
            assert(self@ == (CvModel { last8: cont_last8(m0, x@), ..m0 }));
        }
        let ghost after_cont = self@;
        let ghost e1 = sink.events();
        let pitch_in = self.first_input_of(CvTarget::Pitch);
        let gate_in = self.first_input_of(CvTarget::Gate);
        let g = match gate_in {
            Some(g) => g,
            None => {
                return;
            },
        };
        let level = x[g];
        if !self.gate && level > GATE_ON {
            self.gate = true;
            self.held_note = match pitch_in {
                Some(p) => {
                    self.semitone = quantize_semitone(x[p], self.semitone);
                    (PITCH_BASE_NOTE + self.semitone as i32) as u8
                },
                None => FIXED_GATE_NOTE,
            };
            sink.note_on(self.held_note);
        } else if self.gate && level < GATE_OFF {
            self.gate = false;
            sink.note_off(self.held_note);
        } else if self.gate {
            if let Some(p) = pitch_in {
                let s = quantize_semitone(x[p], self.semitone);
                if s != self.semitone {
                    self.semitone = s;
                    let new = (PITCH_BASE_NOTE + s as i32) as u8;
                    sink.note_on(new);
                    sink.note_off(self.held_note);
                    self.held_note = new;
                }
            }
        }
        proof {
            let (m2, notes) = note_step(after_cont, x@);
            assert(self@.targets =~= m2.targets);
            assert(self@.last8 =~= m2.last8);
            assert(sink.events() =~= e1 + notes);
        }
    }
}

proof fn lemma_quantize_idempotent(x: i32, c: u8)
    ensures
        quantize(x, quantize(x, c)) == quantize(x, c),
{
    let xc = clamp_int(x as int, 0, FULL_SCALE as int);
    let q = quantize(x, c);
    if q != c {
        let n = nearest_semitone(xc);
        assert(q == n);
        let t = (xc * 12 + 2048) / 4096;
        assert(0 <= t <= 60) by (nonlinear_arith)
            requires
                0 <= xc <= 20480,
                t == (xc * 12 + 2048) / 4096,
        ;
        assert(n == t);
        assert(4096 * t <= xc * 12 + 2048 < 4096 * t + 4096) by (nonlinear_arith)
            requires
                t == (xc * 12 + 2048) / 4096,
                0 <= xc,
        ;
        let up = div_trunc((2 * n + 1) * 4096, 24);
        assert(xc <= up) by (nonlinear_arith)
            requires
                0 <= n,
                up == ((2 * n + 1) * 4096) / 24,
                xc * 12 + 2048 < 4096 * n + 4096,
        ;
        if n >= 1 {
            let lo = div_trunc((2 * n - 1) * 4096, 24);
            assert(lo <= xc) by (nonlinear_arith)
                requires
                    n >= 1,
                    lo == ((2 * n - 1) * 4096) / 24,
                    4096 * n <= xc * 12 + 2048,
            ;
        } else {
            assert(div_trunc((2 * n - 1) * 4096, 24) < 0);
        }
    }
}

/// Ticking again with the same readings sends nothing: a continuous input
/// is sent only when its value changes, a held or released note stays so
/// between the two gate thresholds, and the pitch quantizer holds its semitone.
pub proof fn lemma_steady_input_is_silent(m: CvModel, x: Seq<i32>)
    requires
        m.targets.len() == 4,
        m.last8.len() == 4,
        x.len() == 4,
    ensures
        tick_model(tick_model(m, x).0, x).1 == Seq::<CvEvent>::empty(),
{
    let m1 = tick_model(m, x).0;
    let c1 = CvModel { last8: cont_last8(m, x), ..m };
    assert(m1.targets == m.targets);
    assert(m1.last8 == c1.last8);
    assert forall|k: int| 0 <= k < 4 implies #[trigger] cont_step(m1.targets[k], m1.last8[k], x[k]).1 == Seq::<CvEvent>::empty() by {}
    assert(cont_events(m1, x, 0) =~= Seq::<CvEvent>::empty());
    assert(cont_step(m1.targets[0], m1.last8[0], x[0]).1 == Seq::<CvEvent>::empty());
    assert(cont_events(m1, x, 1) =~= Seq::<CvEvent>::empty());
    assert(cont_events(m1, x, 2) =~= Seq::<CvEvent>::empty());
    assert(cont_events(m1, x, 3) =~= Seq::<CvEvent>::empty());
    assert(cont_events(m1, x, 4) =~= Seq::<CvEvent>::empty());
    let c2 = CvModel { last8: cont_last8(m1, x), ..m1 };
    assert(c2.last8 =~= m1.last8);
    if let Some(p) = first_input(m.targets, CvTarget::Pitch) {
        lemma_quantize_idempotent(x[p], m.semitone);
    }
    assert(note_step(c2, x).1 =~= Seq::<CvEvent>::empty());
    assert(tick_model(m1, x).1 =~= Seq::<CvEvent>::empty());
}

/// Law: after new assignments, the next tick sends every continuous input's
/// value, whether or not it changed since it was last sent: a knob input
/// its knob command, a parameter input its parameter command, each with the
/// input's current 8-bit value.
pub proof fn lemma_retarget_resends(m: CvModel, t: Seq<CvTarget>, x: Seq<i32>)
    requires
        t.len() == 4,
        x.len() == 4,
    ensures
        ({
            let r = retarget_model(m, t);
            &&& cont_events(r, x, 4) == resend_events(t, x, 4)
            &&& forall|k: int| 0 <= k < 4 && (knob_of(t[k]) is Some || par_of(t[k]) is Some)
                ==> #[trigger] cont_last8(r, x)[k] == Some(scale8(x[k]))
        }),
{
    let r = retarget_model(m, t);
    assert(r.last8[0] == None::<u8> && r.last8[1] == None::<u8> && r.last8[2] == None::<u8> && r.last8[3]
        == None::<u8>);
    assert(cont_events(r, x, 0) == resend_events(t, x, 0));
    assert(cont_events(r, x, 1) == resend_events(t, x, 1));
    assert(cont_events(r, x, 2) == resend_events(t, x, 2));
    assert(cont_events(r, x, 3) == resend_events(t, x, 3));
}

/// The command a continuous input on target `t` sends for reading `x`:
/// its knob or parameter with the reading's 8-bit value; none for other
/// targets.
pub open spec fn resend_event(t: CvTarget, x: i32) -> Seq<CvEvent> {
    let v8 = scale8(x);
    if let Some(k) = knob_of(t) {
        seq![CvEvent::Knob(k, v8)]
    } else if let Some(p) = par_of(t) {
        seq![CvEvent::Par(p, ((v8 as u16) << 8u16) | v8 as u16)]
    } else {
        Seq::empty()
    }
}

/// The commands inputs `0..n` send when each sends its value.
pub open spec fn resend_events(t: Seq<CvTarget>, x: Seq<i32>, n: int) -> Seq<CvEvent>
    decreases n,
{
    if n <= 0 {
        Seq::empty()
    } else {
        resend_events(t, x, n - 1) + resend_event(t[n - 1], x[n - 1])
    }
}

/// Whether a target takes a continuous value (a knob or a parameter).
pub open spec fn is_continuous(t: CvTarget) -> bool {
    knob_of(t) is Some || par_of(t) is Some
}

/// The command input `i` sends on a tick: its knob or parameter command
/// when it is continuous and its 8-bit value differs from the one it last
/// sent; none otherwise.
pub open spec fn input_event(m: CvModel, x: Seq<i32>, i: int) -> Seq<CvEvent> {
    if is_continuous(m.targets[i]) && m.last8[i] != Some(scale8(x[i])) {
        resend_event(m.targets[i], x[i])
    } else {
        Seq::empty()
    }
}

/// Law: a tick sends, for inputs 0 to 3 in that order, each continuous
/// input's command when its value changed since it was last sent, and only
/// then its note commands. Afterwards each continuous input remembers the
/// value it now holds; the others keep what they had.
pub proof fn lemma_tick_sends_inputs_then_notes(m: CvModel, x: Seq<i32>)
    requires
        m.targets.len() == 4,
        m.last8.len() == 4,
        x.len() == 4,
    ensures
        tick_model(m, x).1 == input_event(m, x, 0) + input_event(m, x, 1) + input_event(m, x, 2) + input_event(
            m,
            x,
            3,
        ) + note_step(CvModel { last8: cont_last8(m, x), ..m }, x).1,
        forall|i: int|
            0 <= i < 4 ==> #[trigger] cont_last8(m, x)[i] == (if is_continuous(m.targets[i]) {
                Some(scale8(x[i]))
            } else {
                m.last8[i]
            }),
{
    assert forall|i: int| 0 <= i < 4 implies #[trigger] cont_step(m.targets[i], m.last8[i], x[i]).1 == input_event(
        m,
        x,
        i,
    ) by {}
    assert(cont_events(m, x, 1) =~= input_event(m, x, 0)) by {
        assert(cont_events(m, x, 0) =~= Seq::<CvEvent>::empty());
        assert(cont_step(m.targets[0], m.last8[0], x[0]).1 == input_event(m, x, 0));
    }
    assert(cont_step(m.targets[1], m.last8[1], x[1]).1 == input_event(m, x, 1));
    assert(cont_step(m.targets[2], m.last8[2], x[2]).1 == input_event(m, x, 2));
    assert(cont_step(m.targets[3], m.last8[3], x[3]).1 == input_event(m, x, 3));
    let e = input_event(m, x, 0) + input_event(m, x, 1) + input_event(m, x, 2) + input_event(m, x, 3);
    assert(cont_events(m, x, 2) =~= input_event(m, x, 0) + input_event(m, x, 1));
    assert(cont_events(m, x, 3) =~= input_event(m, x, 0) + input_event(m, x, 1) + input_event(m, x, 2));
    assert(cont_events(m, x, 4) =~= e);
    let notes = note_step(CvModel { last8: cont_last8(m, x), ..m }, x).1;
    assert(tick_model(m, x).1 =~= e + notes);
}

/// Law: the knob and parameter numbers follow the selector order. The five
/// knob targets (codes 1 to 5) drive engine knobs 0 to 4, and the five
/// parameter targets after them (Volume, Phase, Detune, Cutoff, Reso, codes
/// 6 to 10) drive common-block parameters 0x01 to 0x05 in that order; no
/// other target drives a knob or a parameter. So distinct targets never
/// share a knob or a parameter.
pub proof fn lemma_knob_and_par_numbers_follow_order(t: CvTarget, u: CvTarget)
    ensures
        knob_of(t) is Some <==> 1 <= target_code(t) <= 5,
        knob_of(t) matches Some(k) ==> k == target_code(t) - 1,
        par_of(t) is Some <==> 6 <= target_code(t) <= 10,
        par_of(t) matches Some(p) ==> p == target_code(t) - 5,
        par_of(CvTarget::Volume) == Some(0x01u8),
        par_of(CvTarget::Phase) == Some(0x02u8),
        par_of(CvTarget::Detune) == Some(0x03u8),
        par_of(CvTarget::Cutoff) == Some(0x04u8),
        par_of(CvTarget::Reso) == Some(0x05u8),
        par_of(t) is Some && par_of(t) == par_of(u) ==> t == u,
        knob_of(t) is Some && knob_of(t) == knob_of(u) ==> t == u,
{
}

} // verus!

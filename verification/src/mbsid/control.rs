//! The synth firmware's decisions around the engine: which engine call a
//! MIDI-in word asks for, when a stalled SysEx message is abandoned, and
//! when changed settings are due to be written.
use vstd::prelude::*;
use crate::mbsid::uptime::{deadline_expired, elapsed_ms};
use crate::outside::midi_parse;

verus! {

/// A MIDI message as the engine dispatch sees it: channel first, then the
/// data bytes.
#[derive(Debug, Clone, Copy, PartialEq, Eq, Structural)]
pub enum MidiMsg {
    NoteOff(u8, u8, u8),
    NoteOn(u8, u8, u8),
    ControlChange(u8, u8, u8),
    ProgramChange(u8, u8),
    ChannelPressure(u8, u8),
    PitchBend(u8),
    /// A message the engine does not take (key pressure, system messages).
    Other,
}

/// The message three MIDI bytes hold, by status byte.
pub open spec fn midi_msg_of(b: Seq<u8>) -> Option<MidiMsg> {
    let s = b[0];
    let ch = (s % 16) as u8;
    if 0x80 <= s <= 0x8F {
        Some(MidiMsg::NoteOff(ch, b[1], b[2]))
    } else if 0x90 <= s <= 0x9F {
        Some(MidiMsg::NoteOn(ch, b[1], b[2]))
    } else if 0xB0 <= s <= 0xBF {
        Some(MidiMsg::ControlChange(ch, b[1], b[2]))
    } else if 0xC0 <= s <= 0xCF {
        Some(MidiMsg::ProgramChange(ch, b[1]))
    } else if 0xD0 <= s <= 0xDF {
        Some(MidiMsg::ChannelPressure(ch, b[1]))
    } else if 0xE0 <= s <= 0xEF {
        Some(MidiMsg::PitchBend(ch))
    } else if (0xA0 <= s <= 0xAF) || (0xF1 <= s <= 0xF3) || s == 0xF6 || s == 0xF8 || (0xFA <= s <= 0xFC) || s
        >= 0xFE {
        Some(MidiMsg::Other)
    } else {
        None
    }
}

/// What the engine is asked to do for one MIDI-in word.
#[derive(Debug, Clone, Copy, PartialEq, Eq, Structural)]
pub enum EngineCall {
    NoteOn(u8, u8, u8),
    NoteOff(u8, u8),
    /// The raw 14-bit bend, `msb << 7 | lsb`, centre 8192.
    PitchBend(u8, u16),
    Cc(u8, u8, u8),
    Aftertouch(u8, u8),
    ProgramChange(u8),
    Nothing,
}

/// A data byte as MIDI's 7-bit value types hold it.
pub open spec fn data7(b: u8) -> u8 {
    if b > 127 { 127 } else { b }
}

/// The three bytes of a MIDI-in FIFO word, status first.
pub open spec fn word_bytes(word: u32) -> Seq<u8> {
    seq![(word % 0x100) as u8, (word / 0x100 % 0x100) as u8, (word / 0x1_0000 % 0x100) as u8]
}

/// The engine call for a MIDI-in word: note-on with velocity 0 is a
/// note-off, pitch bend is rebuilt from the raw data bytes, a program change
/// on any channel selects the program.
pub open spec fn engine_call_of(word: u32) -> EngineCall {
    let b = word_bytes(word);
    match midi_msg_of(seq![b[0], data7(b[1]), data7(b[2])]) {
        Some(MidiMsg::NoteOn(ch, note, vel)) => if vel > 0 {
            EngineCall::NoteOn(ch, note, vel)
        } else {
            EngineCall::NoteOff(ch, note)
        },
        Some(MidiMsg::NoteOff(ch, note, _)) => EngineCall::NoteOff(ch, note),
        Some(MidiMsg::PitchBend(ch)) => EngineCall::PitchBend(ch, ((b[2] % 128) * 128 + b[1] % 128) as u16),
        Some(MidiMsg::ControlChange(ch, c, v)) => EngineCall::Cc(ch, c, v),
        Some(MidiMsg::ChannelPressure(ch, v)) => EngineCall::Aftertouch(ch, v),
        Some(MidiMsg::ProgramChange(_, p)) => EngineCall::ProgramChange(p),
        _ => EngineCall::Nothing,
    }
}

/// The engine call one MIDI-in FIFO word asks for.
pub fn midi_engine_call(word: u32) -> (c: EngineCall)
    ensures
        c == engine_call_of(word),
{
    let b0 = (word & 0xFF) as u8;
    let b1 = ((word >> 8u32) & 0xFF) as u8;
    let b2 = ((word >> 16u32) & 0xFF) as u8;
    assert(b0 == (word % 0x100) as u8 && b1 == (word / 0x100 % 0x100) as u8 && b2 == (word / 0x1_0000 % 0x100) as u8)
        by (bit_vector)
        requires
            b0 == (word & 0xFF) as u8,
            b1 == ((word >> 8u32) & 0xFF) as u8,
            b2 == ((word >> 16u32) & 0xFF) as u8,
    ;
    let d1 = if b1 > 127 { 127 } else { b1 };
    let d2 = if b2 > 127 { 127 } else { b2 };
    let msg = midi_parse(&[b0, d1, d2]);
    proof {
        assert([b0, d1, d2]@ =~= seq![b0, d1, d2]);
    }
    match msg {
        Some(MidiMsg::NoteOn(ch, note, vel)) => {
            if vel > 0 {
                EngineCall::NoteOn(ch, note, vel)
            } else {
                EngineCall::NoteOff(ch, note)
            }
        },
        Some(MidiMsg::NoteOff(ch, note, _)) => EngineCall::NoteOff(ch, note),
        Some(MidiMsg::PitchBend(ch)) => {
            let lsb = (b1 & 0x7F) as u16;
            let msb = (b2 & 0x7F) as u16;
            assert(lsb == b1 % 128 && msb == b2 % 128) by (bit_vector)
                requires
                    lsb == (b1 & 0x7F) as u16,
                    msb == (b2 & 0x7F) as u16,
            ;
            EngineCall::PitchBend(ch, msb * 128 + lsb)
        },
        Some(MidiMsg::ControlChange(ch, c, v)) => EngineCall::Cc(ch, c, v),
        Some(MidiMsg::ChannelPressure(ch, v)) => EngineCall::Aftertouch(ch, v),
        Some(MidiMsg::ProgramChange(_, p)) => EngineCall::ProgramChange(p),
        _ => EngineCall::Nothing,
    }
}

/// One tick of the SysEx stall watchdog: the new idle count, and whether the
/// message in progress must be abandoned. A byte resets the count; so does
/// being outside any message.
pub fn sysex_idle_step(idle_ms: u16, got_byte: bool, in_message: bool, timeout_ms: u16) -> (r: (u16, bool))
    ensures
        got_byte ==> r == (0u16, false),
        !got_byte && !in_message ==> r == (0u16, false),
        !got_byte && in_message ==> {
            let n = if idle_ms < u16::MAX { idle_ms + 1 } else { idle_ms as int };
            if n >= timeout_ms {
                r == (0u16, true)
            } else {
                r == (n as u16, false)
            }
        },
{
    if got_byte {
        (0, false)
    } else if in_message {
        let n = idle_ms.saturating_add(1);
        if n >= timeout_ms {
            (0, true)
        } else {
            (n, false)
        }
    } else {
        (0, false)
    }
}

/// How long settings must stay unchanged before they are written.
pub const SETTINGS_DEBOUNCE_MS: u32 = 2000;

/// Whether changed settings have settled long enough to be written.
pub fn persist_due(dirty_at: Option<u32>, now_ms: u32) -> (due: bool)
    ensures
        due == (dirty_at matches Some(t) && elapsed_ms(t, now_ms) >= SETTINGS_DEBOUNCE_MS),
{
    match dirty_at {
        Some(t) => deadline_expired(t, now_ms, SETTINGS_DEBOUNCE_MS),
        None => false,
    }
}


} // verus!

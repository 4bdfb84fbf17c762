//! The wire format, stated as spec functions: what a byte buffer decodes
//! to, and which bytes an event encodes to.

use vstd::prelude::*;

use crate::types::EventModel;
use crate::types::MidiEvent;
use crate::types::MidiEventType;
use crate::types::Note;

verus! {

/// The status nibble of a channel voice message kind.
pub open spec fn status_nibble(e: MidiEventType) -> u8 {
    match e {
        MidiEventType::NoteOff(_, _) => 0x80,
        MidiEventType::NoteOn(_, _) => 0x90,
        MidiEventType::PolyphonicPressure(_, _) => 0xA0,
        MidiEventType::Controller(_, _) => 0xB0,
        MidiEventType::ProgramChange(_) => 0xC0,
        MidiEventType::ChannelPressure(_) => 0xD0,
        MidiEventType::PitchBend(_, _) => 0xE0,
    }
}

/// The canonical wire bytes of a channel voice message: the status byte
/// carries the kind in its high nibble and the channel in its low nibble,
/// and every payload field is masked to seven bits.
pub open spec fn midi_wire_bytes(e: MidiEvent) -> Seq<u8> {
    let status = status_nibble(e.event) | (e.channel & 0x0F);
    match e.event {
        MidiEventType::NoteOff(n, v) => seq![status, n@ & 0x7F, v & 0x7F],
        MidiEventType::NoteOn(n, v) => seq![status, n@ & 0x7F, v & 0x7F],
        MidiEventType::PolyphonicPressure(n, a) => seq![status, n@ & 0x7F, a & 0x7F],
        MidiEventType::Controller(c, v) => seq![status, c & 0x7F, v & 0x7F],
        MidiEventType::ProgramChange(p) => seq![status, p & 0x7F],
        MidiEventType::ChannelPressure(p) => seq![status, p & 0x7F],
        MidiEventType::PitchBend(l, m) => seq![status, l & 0x7F, m & 0x7F],
    }
}

/// Whether an event can be encoded at all: channel voice messages always
/// can; a system-exclusive or escape payload must fit the single length
/// byte, so at most 127 bytes.
pub open spec fn encodable(e: EventModel) -> bool {
    match e {
        EventModel::Midi(_) => true,
        EventModel::SysEx(payload) => payload.len() <= 127,
        EventModel::Escape(payload) => payload.len() <= 127,
    }
}

/// How many bytes the encoding of an event occupies.
pub open spec fn wire_len(e: EventModel) -> int {
    match e {
        EventModel::Midi(m) => midi_wire_bytes(m).len() as int,
        EventModel::SysEx(payload) => payload.len() as int + 3,
        EventModel::Escape(payload) => payload.len() as int + 2,
    }
}

/// The canonical wire bytes of an event.
///
/// A system-exclusive block is framed as `0xF0`, a length byte holding the
/// payload length plus one, the payload, and the `0xF7` terminator. An
/// escape block is `0xF7`, a length byte holding the payload length, and the
/// payload, with no terminator.
pub open spec fn wire_bytes(e: EventModel) -> Seq<u8> {
    match e {
        EventModel::Midi(m) => midi_wire_bytes(m),
        EventModel::SysEx(payload) => seq![0xF0u8, ((payload.len() + 1) as u8)].add(
            payload,
        ).push(0xF7u8),
        EventModel::Escape(payload) => seq![0xF7u8, (payload.len() as u8)].add(payload),
    }
}

/// The index of the first `0xF7` byte at or after position `i`, or the
/// buffer length if there is none.
pub open spec fn sysex_end(s: Seq<u8>, i: int) -> int
    decreases s.len() - i,
{
    if i < 0 || i >= s.len() {
        s.len() as int
    } else if s[i] == 0xF7 {
        i
    } else {
        sysex_end(s, i + 1)
    }
}

/// What a byte buffer decodes to, if anything.
///
/// Dispatch is on the high nibble of the first byte: the seven channel
/// voice kinds need two or three bytes and fail on anything shorter; a
/// status byte of exactly `0xF0` opens a system-exclusive block whose
/// payload runs to just before the first `0xF7` terminator, or to the end
/// of the buffer if there is none; every other first byte fails. Payload
/// bytes are masked to seven bits, never rejected.
pub open spec fn decode_spec(s: Seq<u8>) -> Option<EventModel> {
    if s.len() == 0 {
        None
    } else {
        let status = s[0];
        let hi = status & 0xF0;
        let ch = status & 0x0F;
        if hi == 0x80 {
            if s.len() < 3 {
                None
            } else {
                Some(
                    EventModel::Midi(
                        MidiEvent {
                            channel: ch,
                            event: MidiEventType::NoteOff(Note::spec_masked(s[1]), s[2] & 0x7F),
                        },
                    ),
                )
            }
        } else if hi == 0x90 {
            if s.len() < 3 {
                None
            } else {
                Some(
                    EventModel::Midi(
                        MidiEvent {
                            channel: ch,
                            event: MidiEventType::NoteOn(Note::spec_masked(s[1]), s[2] & 0x7F),
                        },
                    ),
                )
            }
        } else if hi == 0xA0 {
            if s.len() < 3 {
                None
            } else {
                Some(
                    EventModel::Midi(
                        MidiEvent {
                            channel: ch,
                            event: MidiEventType::PolyphonicPressure(
                                Note::spec_masked(s[1]),
                                s[2] & 0x7F,
                            ),
                        },
                    ),
                )
            }
        } else if hi == 0xB0 {
            if s.len() < 3 {
                None
            } else {
                Some(
                    EventModel::Midi(
                        MidiEvent {
                            channel: ch,
                            event: MidiEventType::Controller(s[1] & 0x7F, s[2] & 0x7F),
                        },
                    ),
                )
            }
        } else if hi == 0xC0 {
            if s.len() < 2 {
                None
            } else {
                Some(
                    EventModel::Midi(
                        MidiEvent { channel: ch, event: MidiEventType::ProgramChange(s[1] & 0x7F) },
                    ),
                )
            }
        } else if hi == 0xD0 {
            if s.len() < 2 {
                None
            } else {
                Some(
                    EventModel::Midi(
                        MidiEvent {
                            channel: ch,
                            event: MidiEventType::ChannelPressure(s[1] & 0x7F),
                        },
                    ),
                )
            }
        } else if hi == 0xE0 {
            if s.len() < 3 {
                None
            } else {
                Some(
                    EventModel::Midi(
                        MidiEvent {
                            channel: ch,
                            event: MidiEventType::PitchBend(s[1] & 0x7F, s[2] & 0x7F),
                        },
                    ),
                )
            }
        } else if hi == 0xF0 {
            if ch == 0 {
                Some(EventModel::SysEx(s.subrange(1, sysex_end(s, 1))))
            } else {
                None
            }
        } else {
            None
        }
    }
}

} // verus!

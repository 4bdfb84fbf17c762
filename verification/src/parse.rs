//! Decoding: from a raw byte buffer to at most one event.

use vstd::prelude::*;
use vstd::slice::slice_subrange;

use crate::types::Event;
use crate::types::EventModel;
use crate::types::MidiEvent;
use crate::types::MidiEventType;
use crate::types::Note;
use crate::wire::decode_spec;
use crate::wire::sysex_end;

verus! {

/// Go from raw input to a midi event.
pub trait Parse<Input>: Sized {
    /// What a correct result of [`Parse::parse`] looks like for this input.
    spec fn parse_post(input: Input, r: Option<Self>) -> bool;

    /// Decode the input, or return `None` if it holds no valid message.
    fn parse(input: Input) -> (r: Option<Self>)
        ensures
            Self::parse_post(input, r),
    ;
}

impl<'src> Parse<&'src [u8]> for Event<'src> {
    /// The result is exactly what [`decode_spec`] says the buffer holds.
    open spec fn parse_post(input: &'src [u8], r: Option<Event<'src>>) -> bool {
        match r {
            Some(e) => decode_spec(input@) == Some(e@),
            None => decode_spec(input@) is None,
        }
    }

    fn parse(input: &'src [u8]) -> (r: Option<Event<'src>>) {
        if input.len() == 0 {
            return None;
        }
        let first: u8 = input[0];
        match first & 0xF0 {
            0x80 => {
                if input.len() < 3 {
                    return None;
                }
                Some(
                    Event::Midi(
                        MidiEvent {
                            channel: first & 0x0F,
                            event: MidiEventType::NoteOff(
                                Note::from_masked(input[1]),
                                input[2] & 0x7F,
                            ),
                        },
                    ),
                )
            },
            0x90 => {
                if input.len() < 3 {
                    return None;
                }
                Some(
                    Event::Midi(
                        MidiEvent {
                            channel: first & 0x0F,
                            event: MidiEventType::NoteOn(
                                Note::from_masked(input[1]),
                                input[2] & 0x7F,
                            ),
                        },
                    ),
                )
            },
            0xA0 => {
                if input.len() < 3 {
                    return None;
                }
                Some(
                    Event::Midi(
                        MidiEvent {
                            channel: first & 0x0F,
                            event: MidiEventType::PolyphonicPressure(
                                Note::from_masked(input[1]),
                                input[2] & 0x7F,
                            ),
                        },
                    ),
                )
            },
            0xB0 => {
                if input.len() < 3 {
                    return None;
                }
                Some(
                    Event::Midi(
                        MidiEvent {
                            channel: first & 0x0F,
                            event: MidiEventType::Controller(input[1] & 0x7F, input[2] & 0x7F),
                        },
                    ),
                )
            },
            0xC0 => {
                if input.len() < 2 {
                    return None;
                }
                Some(
                    Event::Midi(
                        MidiEvent {
                            channel: first & 0x0F,
                            event: MidiEventType::ProgramChange(input[1] & 0x7F),
                        },
                    ),
                )
            },
            0xD0 => {
                if input.len() < 2 {
                    return None;
                }
                Some(
                    Event::Midi(
                        MidiEvent {
                            channel: first & 0x0F,
                            event: MidiEventType::ChannelPressure(input[1] & 0x7F),
                        },
                    ),
                )
            },
            0xE0 => {
                if input.len() < 3 {
                    return None;
                }
                Some(
                    Event::Midi(
                        MidiEvent {
                            channel: first & 0x0F,
                            event: MidiEventType::PitchBend(input[1] & 0x7F, input[2] & 0x7F),
                        },
                    ),
                )
            },
            0xF0 => {
                if first & 0x0F != 0 {
                    return None;
                }
                let len: usize = input.len();
                let mut end: usize = 1;
                while end < len && input[end] != 0xF7
                    invariant
                        1 <= end <= len,
                        len == input@.len(),
                        forall|j: int| 1 <= j < end ==> input@[j] != 0xF7,
                    decreases len - end,
                {
                    end += 1;
                }
                proof {
                    lemma_sysex_end_at(input@, 1, end as int);
                }
                let payload: &'src [u8] = slice_subrange(input, 1, end);
                Some(Event::SysEx(payload))
            },
            _ => None,
        }
    }
}

impl Parse<&'_ [u8]> for MidiEvent {
    /// The result is the channel voice message [`decode_spec`] says the
    /// buffer holds; any buffer that decodes to something else, or to
    /// nothing, gives `None`.
    open spec fn parse_post(input: &[u8], r: Option<MidiEvent>) -> bool {
        match r {
            Some(m) => decode_spec(input@) == Some(EventModel::Midi(m)),
            None => !(decode_spec(input@) matches Some(EventModel::Midi(_))),
        }
    }

    fn parse(input: &[u8]) -> (r: Option<MidiEvent>) {
        match Event::parse(input) {
            Some(Event::Midi(evt)) => Some(evt),
            _ => None,
        }
    }
}

impl Parse<u8> for Note {
    /// A raw byte is a valid note exactly when its high bit is clear, and
    /// the note then carries that byte unchanged.
    open spec fn parse_post(input: u8, r: Option<Note>) -> bool {
        match r {
            Some(n) => input < 128 && n@ == input,
            None => input >= 128,
        }
    }

    fn parse(input: u8) -> (r: Option<Note>) {
        if input & 0x80 == 0x80 {
            proof {
                assert(input & 0x80 == 0x80 ==> input >= 128) by (bit_vector);
            }
            None
        } else {
            proof {
                assert(input & 0x80 != 0x80 ==> input < 128 && input & 0x7F == input)
                    by (bit_vector);
                Note::lemma_spec_masked_value(input);
            }
            Some(Note::from_masked(input))
        }
    }
}

/// Scanning from `i`, the first terminator is at `end`: nothing before it
/// is a terminator, and `end` is either a terminator or the buffer length.
proof fn lemma_sysex_end_at(s: Seq<u8>, i: int, end: int)
    requires
        0 <= i <= end <= s.len(),
        forall|j: int| i <= j < end ==> s[j] != 0xF7,
        end == s.len() || s[end] == 0xF7,
    ensures
        sysex_end(s, i) == end,
    decreases end - i,
{
    if i < end {
        lemma_sysex_end_at(s, i + 1, end);
    }
}

} // verus!

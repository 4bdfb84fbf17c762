//! Encoding: from an event into a caller-owned byte buffer.

use vstd::prelude::*;

use crate::types::Event;
use crate::types::EventModel;
use crate::types::MidiEvent;
use crate::types::MidiEventType;
use crate::wire::encodable;
use crate::wire::midi_wire_bytes;
use crate::wire::wire_bytes;
use crate::wire::wire_len;

verus! {

/// Encode a value into the front of a caller-owned buffer.
pub trait Write: Sized {
    /// What a correct result of [`Write::write`] looks like, given the
    /// buffer contents before (`prev`) and after (`cur`) the call.
    spec fn write_post(self, prev: Seq<u8>, cur: Seq<u8>, r: Option<usize>) -> bool;

    /// Write the canonical wire bytes starting at offset 0 and return how
    /// many bytes were written, or `None` if the buffer is too short or the
    /// value cannot be encoded. On `None` the buffer contents are
    /// unspecified and must not be read.
    fn write(self, output: &mut [u8]) -> (r: Option<usize>)
        ensures
            Self::write_post(self, old(output)@, final(output)@, r),
    ;
}

impl Write for MidiEvent {
    /// Success exactly when the buffer holds the two or three wire bytes;
    /// on success the written prefix is [`midi_wire_bytes`], any field with
    /// its high bit set silently masked, and the buffer keeps its length.
    open spec fn write_post(self, prev: Seq<u8>, cur: Seq<u8>, r: Option<usize>) -> bool {
        &&& cur.len() == prev.len()
        &&& match r {
            Some(n) => {
                &&& n == wire_len(EventModel::Midi(self))
                &&& n <= prev.len()
                &&& cur.subrange(0, n as int) == midi_wire_bytes(self)
            },
            None => prev.len() < wire_len(EventModel::Midi(self)),
        }
    }

    fn write(self, output: &mut [u8]) -> (r: Option<usize>) {
        let channel: u8 = self.channel & 0x0F;
        match self.event {
            MidiEventType::NoteOff(note, velocity) => {
                if output.len() < 3 {
                    return None;
                }
                output[0] = 0x80u8 | channel;
                output[1] = note.value();
                output[2] = velocity & 0x7F;
                proof {
                    lemma_note_masked(note@);
                    assert(output@.subrange(0, 3) =~= midi_wire_bytes(self));
                }
                Some(3)
            },
            MidiEventType::NoteOn(note, velocity) => {
                if output.len() < 3 {
                    return None;
                }
                output[0] = 0x90u8 | channel;
                output[1] = note.value();
                output[2] = velocity & 0x7F;
                proof {
                    lemma_note_masked(note@);
                    assert(output@.subrange(0, 3) =~= midi_wire_bytes(self));
                }
                Some(3)
            },
            MidiEventType::PolyphonicPressure(note, amount) => {
                if output.len() < 3 {
                    return None;
                }
                output[0] = 0xA0u8 | channel;
                output[1] = note.value();
                output[2] = amount & 0x7F;
                proof {
                    lemma_note_masked(note@);
                    assert(output@.subrange(0, 3) =~= midi_wire_bytes(self));
                }
                Some(3)
            },
            MidiEventType::Controller(controller, value) => {
                if output.len() < 3 {
                    return None;
                }
                output[0] = 0xB0u8 | channel;
                output[1] = controller & 0x7F;
                output[2] = value & 0x7F;
                proof {
                    assert(output@.subrange(0, 3) =~= midi_wire_bytes(self));
                }
                Some(3)
            },
            MidiEventType::ProgramChange(program) => {
                if output.len() < 2 {
                    return None;
                }
                output[0] = 0xC0u8 | channel;
                output[1] = program & 0x7F;
                proof {
                    assert(output@.subrange(0, 2) =~= midi_wire_bytes(self));
                }
                Some(2)
            },
            MidiEventType::ChannelPressure(pressure) => {
                if output.len() < 2 {
                    return None;
                }
                output[0] = 0xD0u8 | channel;
                output[1] = pressure & 0x7F;
                proof {
                    assert(output@.subrange(0, 2) =~= midi_wire_bytes(self));
                }
                Some(2)
            },
            MidiEventType::PitchBend(lsb, msb) => {
                if output.len() < 3 {
                    return None;
                }
                output[0] = 0xE0u8 | channel;
                output[1] = lsb & 0x7F;
                output[2] = msb & 0x7F;
                proof {
                    assert(output@.subrange(0, 3) =~= midi_wire_bytes(self));
                }
                Some(3)
            },
        }
    }
}

impl<'src> Write for Event<'src> {
    /// Success exactly when the event is encodable (payloads of at most 127
    /// bytes) and the buffer holds its wire bytes; on success the written
    /// prefix is [`wire_bytes`] and the buffer keeps its length.
    open spec fn write_post(self, prev: Seq<u8>, cur: Seq<u8>, r: Option<usize>) -> bool {
        &&& cur.len() == prev.len()
        &&& match r {
            Some(n) => {
                &&& encodable(self@)
                &&& n == wire_len(self@)
                &&& n <= prev.len()
                &&& cur.subrange(0, n as int) == wire_bytes(self@)
            },
            None => !(encodable(self@) && wire_len(self@) <= prev.len()),
        }
    }

    fn write(self, output: &mut [u8]) -> (r: Option<usize>) {
        match self {
            Event::Midi(evt) => evt.write(output),
            Event::SysEx(msg) => {
                let m: usize = msg.len();
                if m > 127 {
                    return None;
                }
                if output.len() < m + 3 {
                    return None;
                }
                output[0] = 0xF0;
                output[1] = (m as u8) + 1;
                let mut i: usize = 0;
                while i < m
                    invariant
                        i <= m,
                        m <= 127,
                        m == msg@.len(),
                        m + 3 <= output@.len(),
                        output@.len() == old(output)@.len(),
                        output@[0] == 0xF0u8,
                        output@[1] == (m + 1) as u8,
                        forall|j: int| 0 <= j < i ==> output@[j + 2] == msg@[j],
                    decreases m - i,
                {
                    output[i + 2] = msg[i];
                    i += 1;
                }
                output[m + 2] = 0xF7;
                proof {
                    assert(output@.subrange(0, m + 3) =~= wire_bytes(self@));
                }
                Some(m + 3)
            },
            Event::Escape(msg) => {
                let m: usize = msg.len();
                if m > 127 {
                    return None;
                }
                if output.len() < m + 2 {
                    return None;
                }
                output[0] = 0xF7;
                output[1] = m as u8;
                let mut i: usize = 0;
                while i < m
                    invariant
                        i <= m,
                        m <= 127,
                        m == msg@.len(),
                        m + 2 <= output@.len(),
                        output@.len() == old(output)@.len(),
                        output@[0] == 0xF7u8,
                        output@[1] == m as u8,
                        forall|j: int| 0 <= j < i ==> output@[j + 2] == msg@[j],
                    decreases m - i,
                {
                    output[i + 2] = msg[i];
                    i += 1;
                }
                proof {
                    assert(output@.subrange(0, m + 2) =~= wire_bytes(self@));
                }
                Some(m + 2)
            },
        }
    }
}

/// A note's stored value is below 128, so masking it to seven bits keeps it.
proof fn lemma_note_masked(v: u8)
    requires
        v < 128,
    ensures
        v & 0x7F == v,
{
    assert(v < 128 ==> v & 0x7F == v) by (bit_vector);
}

} // verus!

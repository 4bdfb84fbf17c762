//! The event data model: validated notes, channel voice messages, and the
//! borrowed-payload event union, together with their spec-level views.

use vstd::prelude::*;

verus! {

/// A pitch value, always in the seven-bit range `0..=127`.
///
/// A `Note` can only be obtained through a validating or a masking
/// constructor, so the stored byte never has its high bit set.
#[derive(Debug, PartialEq, Eq, Copy, Clone, Hash)]
pub struct Note {
    value: u8,
}

impl View for Note {
    type V = u8;

    closed spec fn view(&self) -> u8 {
        self.value
    }
}

impl Note {
    #[verifier::type_invariant]
    spec fn inv(self) -> bool {
        self.value < 128
    }

    /// The note obtained by masking a raw byte to seven bits.
    pub closed spec fn spec_masked(raw: u8) -> Note {
        Note { value: raw & 0x7F }
    }

    /// Mask a raw byte to seven bits and wrap it as a `Note`.
    pub fn from_masked(raw: u8) -> (r: Note)
        ensures
            r == Note::spec_masked(raw),
    {
        proof {
            assert(raw & 0x7F < 128) by (bit_vector);
        }
        Note { value: raw & 0x7F }
    }

    /// The pitch as a plain byte, always below 128.
    pub fn value(self) -> (r: u8)
        ensures
            r == self@,
            r < 128,
    {
        proof {
            use_type_invariant(self);
        }
        self.value
    }

    /// Masking a raw byte yields its low seven bits.
    pub proof fn lemma_spec_masked_value(raw: u8)
        ensures
            Note::spec_masked(raw)@ == (raw & 0x7F),
            Note::spec_masked(raw)@ < 128,
    {
        assert(raw & 0x7F < 128) by (bit_vector);
    }

    /// Masking the value of an in-range note gives the note back.
    pub proof fn lemma_spec_masked_identity(n: Note)
        requires
            n@ < 128,
        ensures
            Note::spec_masked(n@) == n,
    {
        let v: u8 = n.value;
        assert(v & 0x7F == v) by (bit_vector)
            requires
                v < 128,
        ;
    }
}

/// A channel voice message, without its channel.
///
/// Every payload field is a seven-bit data byte: the encoder masks the top
/// bit away, and the decoder never produces a field with the top bit set.
#[derive(Debug, PartialEq, Eq, Copy, Clone, Hash)]
pub enum MidiEventType {
    /// Stop sounding the given note; the second field is the release velocity.
    NoteOff(Note, u8),
    /// Start sounding the given note; the second field is the attack velocity.
    NoteOn(Note, u8),
    /// Apply aftertouch pressure to the given note.
    PolyphonicPressure(Note, u8),
    /// Set the given controller to the given value.
    Controller(u8, u8),
    /// Select the given program.
    ProgramChange(u8),
    /// A default aftertouch pressure for all notes on the channel.
    ChannelPressure(u8),
    /// Bend the pitch of all notes; least significant byte first.
    PitchBend(u8, u8),
}

/// A channel voice message together with the channel it applies to.
#[derive(Debug, PartialEq, Eq, Copy, Clone, Hash)]
pub struct MidiEvent {
    /// The channel the message applies to, a four-bit value.
    pub channel: u8,
    /// The message itself.
    pub event: MidiEventType,
}

/// A single decoded or to-be-encoded message.
///
/// `SysEx` and `Escape` payloads borrow from the buffer they were decoded
/// from (or from the caller that built them): the codec never copies or
/// allocates.
#[derive(Debug, PartialEq, Copy, Clone, Hash)]
pub enum Event<'src> {
    /// A channel voice message.
    Midi(MidiEvent),
    /// A system-exclusive block: the bytes strictly between the `0xF0`
    /// opener and the `0xF7` terminator.
    SysEx(&'src [u8]),
    /// A raw block passed through outside normal framing. The decoder never
    /// produces this variant; only the encoder consumes it.
    Escape(&'src [u8]),
}

/// The spec-level shape of an [`Event`], with payloads as byte sequences.
#[verifier::ext_equal]
pub ghost enum EventModel {
    /// A channel voice message.
    Midi(MidiEvent),
    /// A system-exclusive block.
    SysEx(Seq<u8>),
    /// An escape block.
    Escape(Seq<u8>),
}

impl<'src> View for Event<'src> {
    type V = EventModel;

    open spec fn view(&self) -> EventModel {
        match *self {
            Event::Midi(m) => EventModel::Midi(m),
            Event::SysEx(payload) => EventModel::SysEx(payload@),
            Event::Escape(payload) => EventModel::Escape(payload@),
        }
    }
}

/// All fields of the message are in range: the channel fits in four bits and
/// every payload field fits in seven.
pub open spec fn midi_event_wf(e: MidiEvent) -> bool {
    &&& e.channel < 16
    &&& match e.event {
        MidiEventType::NoteOff(n, v) => n@ < 128 && v < 128,
        MidiEventType::NoteOn(n, v) => n@ < 128 && v < 128,
        MidiEventType::PolyphonicPressure(n, a) => n@ < 128 && a < 128,
        MidiEventType::Controller(c, v) => c < 128 && v < 128,
        MidiEventType::ProgramChange(p) => p < 128,
        MidiEventType::ChannelPressure(p) => p < 128,
        MidiEventType::PitchBend(l, m) => l < 128 && m < 128,
    }
}

} // verus!

//! Laws that relate the decoder and the encoder.

use vstd::prelude::*;

use crate::types::EventModel;
use crate::types::MidiEvent;
use crate::types::MidiEventType;
use crate::types::Note;
use crate::types::midi_event_wf;
use crate::wire::decode_spec;
use crate::wire::midi_wire_bytes;
use crate::wire::status_nibble;
use crate::wire::wire_len;

verus! {

/// Round trip: decoding the canonical wire bytes of any channel voice
/// message with in-range fields gives that message back unchanged.
pub proof fn lemma_midi_round_trip(e: MidiEvent)
    requires
        midi_event_wf(e),
    ensures
        decode_spec(midi_wire_bytes(e)) == Some(EventModel::Midi(e)),
{
    let nib = status_nibble(e.event);
    lemma_status_bits(nib, e.channel);
    match e.event {
        MidiEventType::NoteOff(n, v) => {
            lemma_mask_bits(n@);
            lemma_mask_bits(v);
            Note::lemma_spec_masked_identity(n);
        },
        MidiEventType::NoteOn(n, v) => {
            lemma_mask_bits(n@);
            lemma_mask_bits(v);
            Note::lemma_spec_masked_identity(n);
        },
        MidiEventType::PolyphonicPressure(n, a) => {
            lemma_mask_bits(n@);
            lemma_mask_bits(a);
            Note::lemma_spec_masked_identity(n);
        },
        MidiEventType::Controller(c, v) => {
            lemma_mask_bits(c);
            lemma_mask_bits(v);
        },
        MidiEventType::ProgramChange(p) => {
            lemma_mask_bits(p);
        },
        MidiEventType::ChannelPressure(p) => {
            lemma_mask_bits(p);
        },
        MidiEventType::PitchBend(l, m) => {
            lemma_mask_bits(l);
            lemma_mask_bits(m);
        },
    }
}

/// Masking: the encoding of a channel voice message is never rejected, and
/// its payload bytes always have their high bit clear, whatever the fields
/// hold. Encoding a message is the same as encoding its masked form, which
/// has all fields in range.
pub proof fn lemma_encode_masks(e: MidiEvent)
    ensures
        forall|i: int| 1 <= i < midi_wire_bytes(e).len() ==> midi_wire_bytes(e)[i] < 128,
        midi_wire_bytes(midi_event_masked(e)) == midi_wire_bytes(e),
        midi_event_wf(midi_event_masked(e)),
{
    let masked = midi_event_masked(e);
    lemma_remask_bits(e.channel);
    assert(status_nibble(masked.event) == status_nibble(e.event));
    match e.event {
        MidiEventType::NoteOff(n, v) => {
            lemma_masked_pair(n, v);
            assert(midi_wire_bytes(e)[1] < 128 && midi_wire_bytes(e)[2] < 128);
        },
        MidiEventType::NoteOn(n, v) => {
            lemma_masked_pair(n, v);
            assert(midi_wire_bytes(e)[1] < 128 && midi_wire_bytes(e)[2] < 128);
        },
        MidiEventType::PolyphonicPressure(n, a) => {
            lemma_masked_pair(n, a);
            assert(midi_wire_bytes(e)[1] < 128 && midi_wire_bytes(e)[2] < 128);
        },
        MidiEventType::Controller(c, v) => {
            lemma_remask_bits(c);
            lemma_remask_bits(v);
            assert(midi_wire_bytes(e)[1] < 128 && midi_wire_bytes(e)[2] < 128);
        },
        MidiEventType::ProgramChange(p) => {
            lemma_remask_bits(p);
            assert(midi_wire_bytes(e)[1] < 128);
        },
        MidiEventType::ChannelPressure(p) => {
            lemma_remask_bits(p);
            assert(midi_wire_bytes(e)[1] < 128);
        },
        MidiEventType::PitchBend(l, m) => {
            lemma_remask_bits(l);
            lemma_remask_bits(m);
            assert(midi_wire_bytes(e)[1] < 128 && midi_wire_bytes(e)[2] < 128);
        },
    }
    assert forall|i: int| 1 <= i < midi_wire_bytes(e).len() implies midi_wire_bytes(e)[i]
        < 128 by {
        assert(i == 1 || i == 2);
    }
}

/// Every channel voice message the decoder can produce has in-range
/// fields: a four-bit channel and seven-bit payload fields.
pub proof fn lemma_decoded_midi_wf(s: Seq<u8>)
    ensures
        decode_spec(s) matches Some(EventModel::Midi(m)) ==> midi_event_wf(m),
{
    if s.len() > 0 {
        let status = s[0];
        assert(status & 0x0F < 16) by (bit_vector);
        if s.len() >= 2 {
            lemma_mask_bits(s[1]);
            Note::lemma_spec_masked_value(s[1]);
        }
        if s.len() >= 3 {
            lemma_mask_bits(s[2]);
        }
    }
}

/// The same message with every field masked into range: the channel to
/// four bits, every payload field to seven.
pub open spec fn midi_event_masked(e: MidiEvent) -> MidiEvent {
    MidiEvent {
        channel: e.channel & 0x0F,
        event: match e.event {
            MidiEventType::NoteOff(n, v) => MidiEventType::NoteOff(
                Note::spec_masked(n@),
                v & 0x7F,
            ),
            MidiEventType::NoteOn(n, v) => MidiEventType::NoteOn(Note::spec_masked(n@), v & 0x7F),
            MidiEventType::PolyphonicPressure(n, a) => MidiEventType::PolyphonicPressure(
                Note::spec_masked(n@),
                a & 0x7F,
            ),
            MidiEventType::Controller(c, v) => MidiEventType::Controller(c & 0x7F, v & 0x7F),
            MidiEventType::ProgramChange(p) => MidiEventType::ProgramChange(p & 0x7F),
            MidiEventType::ChannelPressure(p) => MidiEventType::ChannelPressure(p & 0x7F),
            MidiEventType::PitchBend(l, m) => MidiEventType::PitchBend(l & 0x7F, m & 0x7F),
        },
    }
}

/// Truncation: decoding any strict prefix of a channel voice message's
/// wire bytes gives nothing, for every message kind and every prefix
/// length from zero up to one less than the required length.
pub proof fn lemma_truncated_decode(e: MidiEvent, n: int)
    requires
        0 <= n < wire_len(EventModel::Midi(e)),
    ensures
        decode_spec(midi_wire_bytes(e).subrange(0, n)) is None,
{
    let bytes = midi_wire_bytes(e);
    let prefix = bytes.subrange(0, n);
    if n > 0 {
        let nib = status_nibble(e.event);
        lemma_status_bits(nib, e.channel);
        assert(prefix[0] == bytes[0]);
    }
}

/// Recovering the high and low nibbles of a status byte built from one of
/// the seven channel voice status nibbles and a channel.
proof fn lemma_status_bits(nib: u8, ch: u8)
    requires
        nib == 0x80 || nib == 0x90 || nib == 0xA0 || nib == 0xB0 || nib == 0xC0 || nib == 0xD0
            || nib == 0xE0,
    ensures
        (nib | (ch & 0x0F)) & 0xF0 == nib,
        ch < 16 ==> (nib | (ch & 0x0F)) & 0x0F == ch,
{
    assert((nib == 0x80 || nib == 0x90 || nib == 0xA0 || nib == 0xB0 || nib == 0xC0 || nib == 0xD0
        || nib == 0xE0) ==> (nib | (ch & 0x0F)) & 0xF0 == nib && (ch < 16 ==> (nib | (ch & 0x0F))
        & 0x0F == ch)) by (bit_vector);
}

/// Masking to seven bits keeps an in-range byte and always lands in range.
proof fn lemma_mask_bits(b: u8)
    ensures
        b & 0x7F < 128,
        b < 128 ==> b & 0x7F == b,
{
    assert(b & 0x7F < 128 && (b < 128 ==> b & 0x7F == b)) by (bit_vector);
}

/// Masking twice is masking once, and a masked value is in range.
proof fn lemma_remask_bits(b: u8)
    ensures
        (b & 0x7F) & 0x7F == b & 0x7F,
        b & 0x7F < 128,
        (b & 0x0F) & 0x0F == b & 0x0F,
        b & 0x0F < 16,
{
    assert((b & 0x7F) & 0x7F == b & 0x7F && b & 0x7F < 128 && (b & 0x0F) & 0x0F == b & 0x0F && b
        & 0x0F < 16) by (bit_vector);
}

/// The masked forms of a note-carrying payload pair encode to the same
/// bytes as the originals.
proof fn lemma_masked_pair(n: Note, v: u8)
    ensures
        Note::spec_masked(n@)@ & 0x7F == n@ & 0x7F,
        Note::spec_masked(n@)@ < 128,
        n@ & 0x7F < 128,
        (v & 0x7F) & 0x7F == v & 0x7F,
        v & 0x7F < 128,
{
    Note::lemma_spec_masked_value(n@);
    lemma_remask_bits(n@);
    lemma_remask_bits(v);
}

} // verus!

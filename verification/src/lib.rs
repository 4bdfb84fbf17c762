//! A codec for single MIDI 1.0 wire-format messages.
//!
//! The decoder turns a raw byte buffer into at most one structured event: a
//! channel voice message, a system-exclusive block, or an escape block. The
//! encoder writes such an event back into a caller-owned buffer as canonical
//! wire bytes. Both directions are stateless and allocation-free: variable
//! length payloads borrow from the input buffer.

mod laws;
mod parse;
mod types;
mod wire;
mod write;

pub use laws::lemma_decoded_midi_wf;
pub use laws::lemma_encode_masks;
pub use laws::lemma_midi_round_trip;
pub use laws::lemma_truncated_decode;
pub use laws::midi_event_masked;
pub use parse::Parse;

pub use types::Event;
pub use types::EventModel;
pub use types::MidiEvent;
pub use types::MidiEventType;
pub use types::Note;
pub use types::midi_event_wf;
pub use wire::decode_spec;
pub use wire::encodable;
pub use wire::midi_wire_bytes;
pub use wire::status_nibble;
pub use wire::sysex_end;
pub use wire::wire_bytes;
pub use wire::wire_len;
pub use write::Write;

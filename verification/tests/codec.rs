use midi_event::Event;
use midi_event::MidiEvent;
use midi_event::MidiEventType;
use midi_event::Note;
use midi_event::Parse;
use midi_event::Write;

fn note(raw: u8) -> Note {
    Note::parse(raw).expect("raw byte should be a valid note")
}

fn all_voice_kinds() -> Vec<MidiEventType> {
    vec![
        MidiEventType::NoteOff(note(0x40), 0x22),
        MidiEventType::NoteOn(note(0x41), 0x23),
        MidiEventType::PolyphonicPressure(note(0x42), 0x24),
        MidiEventType::Controller(0x07, 0x55),
        MidiEventType::ProgramChange(0x19),
        MidiEventType::ChannelPressure(0x31),
        MidiEventType::PitchBend(0x00, 0x40),
    ]
}

fn required_len(kind: &MidiEventType) -> usize {
    match kind {
        MidiEventType::ProgramChange(_) | MidiEventType::ChannelPressure(_) => 2,
        _ => 3,
    }
}

#[test]
fn round_trip_every_kind() {
    for kind in all_voice_kinds() {
        for channel in [0u8, 7, 15] {
            let event = MidiEvent { channel, event: kind };
            let mut buffer = [0u8; 4];
            let n = event.write(&mut buffer).expect("buffer is large enough");
            assert_eq!(n, required_len(&kind));
            let decoded = Event::parse(&buffer[..n]).expect("wire bytes must decode");
            assert_eq!(decoded, Event::Midi(event));
        }
    }
}

#[test]
fn round_trip_through_event_write() {
    let event = MidiEvent {
        channel: 9,
        event: MidiEventType::NoteOn(note(0x3C), 0x64),
    };
    let mut buffer = [0u8; 3];
    let n = Event::Midi(event).write(&mut buffer).expect("buffer is large enough");
    assert_eq!(n, 3);
    assert_eq!(MidiEvent::parse(&buffer[..n]), Some(event));
}

#[test]
fn masking_out_of_range_fields() {
    let event = MidiEvent {
        channel: 0xF2,
        event: MidiEventType::Controller(0x87, 0xFF),
    };
    let mut buffer = [0u8; 3];
    let n = event.write(&mut buffer).expect("masking never rejects");
    assert_eq!(n, 3);
    assert_eq!(&buffer[..3], &[0xB2, 0x07, 0x7F]);
}

#[test]
fn masking_every_kind() {
    let kinds = vec![
        (MidiEventType::NoteOff(note(0x40), 0xA2), vec![0x85, 0x40, 0x22]),
        (MidiEventType::NoteOn(note(0x41), 0xA3), vec![0x95, 0x41, 0x23]),
        (MidiEventType::PolyphonicPressure(note(0x42), 0xA4), vec![0xA5, 0x42, 0x24]),
        (MidiEventType::Controller(0x87, 0xD5), vec![0xB5, 0x07, 0x55]),
        (MidiEventType::ProgramChange(0x99), vec![0xC5, 0x19]),
        (MidiEventType::ChannelPressure(0xB1), vec![0xD5, 0x31]),
        (MidiEventType::PitchBend(0x80, 0xC0), vec![0xE5, 0x00, 0x40]),
    ];
    for (kind, expected) in kinds {
        let event = MidiEvent { channel: 5, event: kind };
        let mut buffer = [0u8; 4];
        let n = event.write(&mut buffer).expect("masking never rejects");
        assert_eq!(&buffer[..n], &expected[..]);
    }
}

#[test]
fn truncated_buffers_decode_to_nothing() {
    for kind in all_voice_kinds() {
        let event = MidiEvent { channel: 2, event: kind };
        let mut buffer = [0u8; 4];
        let n = event.write(&mut buffer).expect("buffer is large enough");
        for prefix in 0..n {
            assert_eq!(Event::parse(&buffer[..prefix]), None);
            assert_eq!(MidiEvent::parse(&buffer[..prefix]), None);
        }
    }
}

#[test]
fn sysex_happy_path() {
    let decoded = Event::parse(&[0xF0, 0x01, 0x02, 0xF7]);
    assert_eq!(decoded, Some(Event::SysEx(&[0x01, 0x02])));
}

#[test]
fn sysex_zero_length() {
    let decoded = Event::parse(&[0xF0, 0xF7]);
    assert_eq!(decoded, Some(Event::SysEx(&[])));
}

#[test]
fn sysex_missing_terminator() {
    let decoded = Event::parse(&[0xF0, 0x01, 0x02]);
    assert_eq!(decoded, Some(Event::SysEx(&[0x01, 0x02])));
}

#[test]
fn sysex_lone_opener() {
    let decoded = Event::parse(&[0xF0]);
    assert_eq!(decoded, Some(Event::SysEx(&[])));
}

#[test]
fn sysex_payload_stops_at_first_terminator() {
    let decoded = Event::parse(&[0xF0, 0x10, 0xF7, 0x20, 0xF7]);
    assert_eq!(decoded, Some(Event::SysEx(&[0x10])));
}

#[test]
fn system_status_with_nonzero_low_nibble_fails() {
    for low in 1u8..=0x0F {
        assert_eq!(Event::parse(&[0xF0 | low, 0x01, 0xF7]), None);
    }
}

#[test]
fn data_first_byte_fails() {
    assert_eq!(Event::parse(&[0x40, 0x41, 0x42]), None);
    assert_eq!(Event::parse(&[0x00]), None);
    assert_eq!(Event::parse(&[0x7F, 0x7F, 0x7F]), None);
}

#[test]
fn empty_input_fails() {
    assert_eq!(Event::parse(&[]), None);
    assert_eq!(MidiEvent::parse(&[]), None);
}

#[test]
fn decode_tolerates_arbitrary_bytes() {
    // Every status byte with every short tail: decode must never panic.
    for first in 0u8..=255 {
        for len in 0usize..=4 {
            let buffer = [first, 0x81, 0xF7, 0x33, 0x99];
            let _ = Event::parse(&buffer[..len.min(5)]);
        }
    }
}

#[test]
fn capacity_one_byte_short_fails() {
    for kind in all_voice_kinds() {
        let event = MidiEvent { channel: 1, event: kind };
        let mut large = [0u8; 4];
        let n = event.write(&mut large).expect("buffer is large enough");
        let mut short = vec![0u8; n - 1];
        assert_eq!(event.write(&mut short[..]), None);
        assert_eq!(Event::Midi(event).write(&mut short[..]), None);
    }
}

#[test]
fn sysex_encode_layout() {
    let payload = [0x11u8, 0x22, 0x33];
    let mut buffer = [0u8; 8];
    let n = Event::SysEx(&payload).write(&mut buffer).expect("buffer is large enough");
    assert_eq!(n, 6);
    assert_eq!(&buffer[..6], &[0xF0, 0x04, 0x11, 0x22, 0x33, 0xF7]);
}

#[test]
fn sysex_encode_capacity_short_fails() {
    let payload = [0x11u8, 0x22, 0x33];
    let mut buffer = [0u8; 5];
    assert_eq!(Event::SysEx(&payload).write(&mut buffer), None);
}

#[test]
fn escape_encode_layout() {
    let payload = [0x0Au8, 0x0B];
    let mut buffer = [0u8; 8];
    let n = Event::Escape(&payload).write(&mut buffer).expect("buffer is large enough");
    assert_eq!(n, 4);
    assert_eq!(&buffer[..4], &[0xF7, 0x02, 0x0A, 0x0B]);
}

#[test]
fn escape_encode_capacity_short_fails() {
    let payload = [0x0Au8, 0x0B];
    let mut buffer = [0u8; 3];
    assert_eq!(Event::Escape(&payload).write(&mut buffer), None);
}

#[test]
fn oversized_payloads_fail() {
    let payload = [0x55u8; 128];
    let mut buffer = [0u8; 256];
    assert_eq!(Event::SysEx(&payload).write(&mut buffer), None);
    assert_eq!(Event::Escape(&payload).write(&mut buffer), None);
}

#[test]
fn longest_payloads_encode() {
    let payload = [0x55u8; 127];
    let mut buffer = [0u8; 256];
    let n = Event::SysEx(&payload).write(&mut buffer).expect("127 bytes fit");
    assert_eq!(n, 130);
    assert_eq!(buffer[0], 0xF0);
    assert_eq!(buffer[1], 128);
    assert_eq!(buffer[129], 0xF7);
    let n = Event::Escape(&payload).write(&mut buffer).expect("127 bytes fit");
    assert_eq!(n, 129);
    assert_eq!(buffer[0], 0xF7);
    assert_eq!(buffer[1], 127);
}

#[test]
fn note_validation() {
    assert_eq!(Note::parse(0x00).map(|n| n.value()), Some(0x00));
    assert_eq!(Note::parse(0x7F).map(|n| n.value()), Some(0x7F));
    assert_eq!(Note::parse(0x80), None);
    assert_eq!(Note::parse(0xFF), None);
}

#[test]
fn decoded_data_bytes_are_masked() {
    // High bits on data bytes are silently cleared, not rejected.
    let decoded = MidiEvent::parse(&[0x92, 0xC0, 0xFF]).expect("valid status byte");
    assert_eq!(decoded.channel, 2);
    assert_eq!(decoded.event, MidiEventType::NoteOn(note(0x40), 0x7F));
}

#[test]
fn midi_event_parse_rejects_sysex() {
    assert_eq!(MidiEvent::parse(&[0xF0, 0x01, 0xF7]), None);
}

#[test]
fn escape_never_decodes() {
    // A lone 0xF7 status byte is not a decode target.
    assert_eq!(Event::parse(&[0xF7, 0x02, 0x0A, 0x0B]), None);
}

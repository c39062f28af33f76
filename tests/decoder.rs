use my_midi::message::{ChannelEvent, RawEvent};

#[test]
fn note_on_decodes_on_every_channel() {
    for status in 0x90u8..=0x9F {
        let raw = RawEvent { status, data1: 60, data2: 99 };
        assert_eq!(
            raw.decode(),
            ChannelEvent::NoteOn { channel: status & 0x0F, note: 60, velocity: 99 }
        );
    }
}

#[test]
fn note_off_decodes_on_every_channel() {
    for status in 0x80u8..=0x8F {
        let raw = RawEvent { status, data1: 61, data2: 0 };
        assert_eq!(
            raw.decode(),
            ChannelEvent::NoteOff { channel: status & 0x0F, note: 61, velocity: 0 }
        );
    }
}

#[test]
fn control_change_decodes_on_every_channel() {
    for status in 0xB0u8..=0xBF {
        let raw = RawEvent { status, data1: 70, data2: 127 };
        assert_eq!(
            raw.decode(),
            ChannelEvent::ControlChange { channel: status & 0x0F, controller: 70, value: 127 }
        );
    }
}

#[test]
fn drum_pad_status_decodes_to_channel_nine() {
    let raw = RawEvent { status: 0x99, data1: 43, data2: 127 };
    assert_eq!(raw.decode(), ChannelEvent::NoteOn { channel: 9, note: 43, velocity: 127 });
}

#[test]
fn unrecognised_status_decodes_to_other() {
    for status in [0x00u8, 0x7F, 0xA0, 0xC5, 0xE0, 0xF0, 0xFF] {
        let raw = RawEvent { status, data1: 1, data2: 2 };
        assert_eq!(raw.decode(), ChannelEvent::Other { status, data1: 1, data2: 2 });
    }
}

#[test]
fn short_messages_yield_no_raw_event() {
    assert_eq!(RawEvent::from_bytes(&[]), None);
    assert_eq!(RawEvent::from_bytes(&[0x90]), None);
    assert_eq!(RawEvent::from_bytes(&[0x90, 48]), None);
}

#[test]
fn three_or_more_bytes_yield_the_first_three() {
    assert_eq!(
        RawEvent::from_bytes(&[0x90, 48, 100]),
        Some(RawEvent { status: 0x90, data1: 48, data2: 100 })
    );
    assert_eq!(
        RawEvent::from_bytes(&[0xB0, 70, 5, 9, 9]),
        Some(RawEvent { status: 0xB0, data1: 70, data2: 5 })
    );
}

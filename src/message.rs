//! Decoding of raw three-byte controller messages.
use vstd::prelude::*;

verus! {

/// A raw controller message: a status byte and two data bytes.
#[derive(Clone, Copy, Debug, PartialEq, Eq, Structural)]
pub struct RawEvent {
    pub status: u8,
    pub data1: u8,
    pub data2: u8,
}

/// A decoded controller message.
#[derive(Clone, Copy, Debug, PartialEq, Eq, Structural)]
pub enum ChannelEvent {
    NoteOn { channel: u8, note: u8, velocity: u8 },
    NoteOff { channel: u8, note: u8, velocity: u8 },
    ControlChange { channel: u8, controller: u8, value: u8 },
    Other { status: u8, data1: u8, data2: u8 },
}

/// What a raw message decodes to: the status byte's high nibble selects the
/// kind, its low nibble is the channel.
pub open spec fn decode_spec(raw: RawEvent) -> ChannelEvent {
    let channel = (raw.status % 16) as u8;
    if 0x90 <= raw.status <= 0x9F {
        ChannelEvent::NoteOn { channel, note: raw.data1, velocity: raw.data2 }
    } else if 0x80 <= raw.status <= 0x8F {
        ChannelEvent::NoteOff { channel, note: raw.data1, velocity: raw.data2 }
    } else if 0xB0 <= raw.status <= 0xBF {
        ChannelEvent::ControlChange { channel, controller: raw.data1, value: raw.data2 }
    } else {
        ChannelEvent::Other { status: raw.status, data1: raw.data1, data2: raw.data2 }
    }
}

/// The raw message held by the first three bytes of `bytes`, if there are
/// three.
pub open spec fn raw_of_bytes(bytes: Seq<u8>) -> Option<RawEvent> {
    if bytes.len() < 3 {
        None
    } else {
        Some(RawEvent { status: bytes[0], data1: bytes[1], data2: bytes[2] })
    }
}

impl RawEvent {
    /// Reads a raw message from the bytes a transport delivered. A message
    /// shorter than three bytes is malformed and yields `None`.
    pub fn from_bytes(bytes: &[u8]) -> (r: Option<RawEvent>)
        ensures
            r == raw_of_bytes(bytes@),
    {
        if bytes.len() < 3 {
            None
        } else {
            Some(RawEvent { status: bytes[0], data1: bytes[1], data2: bytes[2] })
        }
    }

    /// Decodes the message. Decoding never fails: an unrecognised status
    /// decodes to `ChannelEvent::Other`.
    pub fn decode(&self) -> (e: ChannelEvent)
        ensures
            e == decode_spec(*self),
            0x90 <= self.status <= 0x9F ==> e == (ChannelEvent::NoteOn {
                channel: self.status & 0x0F,
                note: self.data1,
                velocity: self.data2,
            }),
            0x80 <= self.status <= 0x8F ==> e == (ChannelEvent::NoteOff {
                channel: self.status & 0x0F,
                note: self.data1,
                velocity: self.data2,
            }),
            0xB0 <= self.status <= 0xBF ==> e == (ChannelEvent::ControlChange {
                channel: self.status & 0x0F,
                controller: self.data1,
                value: self.data2,
            }),
    {
        let status = self.status;
        let kind = status >> 4u8;
        let channel = status & 0x0Fu8;
        assert(channel == status % 16) by (bit_vector)
            requires
                channel == status & 0x0Fu8,
        ;
        assert(kind == 9 <==> 0x90 <= status <= 0x9F) by (bit_vector)
            requires
                kind == status >> 4u8,
        ;
        assert(kind == 8 <==> 0x80 <= status <= 0x8F) by (bit_vector)
            requires
                kind == status >> 4u8,
        ;
        assert(kind == 0xB <==> 0xB0 <= status <= 0xBF) by (bit_vector)
            requires
                kind == status >> 4u8,
        ;
        if kind == 9 {
            ChannelEvent::NoteOn { channel, note: self.data1, velocity: self.data2 }
        } else if kind == 8 {
            ChannelEvent::NoteOff { channel, note: self.data1, velocity: self.data2 }
        } else if kind == 0xB {
            ChannelEvent::ControlChange { channel, controller: self.data1, value: self.data2 }
        } else {
            ChannelEvent::Other { status, data1: self.data1, data2: self.data2 }
        }
    }
}

} // verus!

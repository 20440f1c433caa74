//! The VideoCore mailbox: its register block and the channels it serves.
use vstd::prelude::*;
use crate::bitfield::{field32, get_field32, set_field32, with_field32};
use crate::volatile::{AlignedBuffer, Volatile};

verus! {

/// The request code of a property message.
pub const MBOX_REQUEST: u32 = 0;

/// The mailbox channels.
#[derive(Copy, Clone, Debug, PartialEq, Eq, Structural)]
pub enum Channel {
    Power,
    FrameBuffer,
    VUART,
    VCHIQ,
    LEDS,
    BTNS,
    Touch,
    Count,
    Prop,
}

impl Channel {
    pub open spec fn as_u32_spec(self) -> u32 {
        match self {
            Channel::Power => 0,
            Channel::FrameBuffer => 1,
            Channel::VUART => 2,
            Channel::VCHIQ => 3,
            Channel::LEDS => 4,
            Channel::BTNS => 5,
            Channel::Touch => 6,
            Channel::Count => 7,
            Channel::Prop => 8,
        }
    }

    /// The channel's number.
    pub fn as_u32(self) -> (r: u32)
        ensures
            r == self.as_u32_spec(),
    {
        match self {
            Channel::Power => 0,
            Channel::FrameBuffer => 1,
            Channel::VUART => 2,
            Channel::VCHIQ => 3,
            Channel::LEDS => 4,
            Channel::BTNS => 5,
            Channel::Touch => 6,
            Channel::Count => 7,
            Channel::Prop => 8,
        }
    }
}

/// The buffer a message is sent in: words aligned to 16 bytes.
pub type MailboxBuffer = AlignedBuffer<u32>;

/// Something that delivers messages to the VideoCore. The buffer comes back
/// holding the answer; nothing is promised of it.
pub trait MailboxController {
    fn send_message_on_channel(&self, buffer: &mut MailboxBuffer, channel: Channel) -> u32;

    fn send_property_message(&self, buffer: &mut MailboxBuffer) {
        self.send_message_on_channel(buffer, Channel::Prop);
    }
}

/// A 16-byte aligned word.
#[derive(Copy, Clone, Debug)]
pub struct AlignedWord {
    pub word: u32,
}

/// The mailbox status register.
#[derive(Copy, Clone, Debug, PartialEq, Eq, Structural)]
pub struct MailboxStatus {
    pub value: u32,
}

impl MailboxStatus {
    pub fn get_is_empty(self) -> (r: u32)
        ensures
            r == field32(self.value, 30, 30),
    {
        get_field32(self.value, 30, 30)
    }

    pub fn set_is_empty(self, value: u32) -> (r: Self)
        ensures
            r.value == with_field32(self.value, 30, 30, value),
    {
        MailboxStatus { value: set_field32(self.value, 30, 30, value) }
    }

    pub fn get_is_full(self) -> (r: u32)
        ensures
            r == field32(self.value, 31, 31),
    {
        get_field32(self.value, 31, 31)
    }

    pub fn set_is_full(self, value: u32) -> (r: Self)
        ensures
            r.value == with_field32(self.value, 31, 31, value),
    {
        MailboxStatus { value: set_field32(self.value, 31, 31, value) }
    }

}

/// A word written to the mailbox: a channel and the top 28 bits of a buffer address.
#[derive(Copy, Clone, Debug, PartialEq, Eq, Structural)]
pub struct MailboxWriteData {
    pub value: u32,
}

impl MailboxWriteData {
    pub fn get_channel(self) -> (r: u32)
        ensures
            r == field32(self.value, 0, 3),
    {
        get_field32(self.value, 0, 3)
    }

    pub fn set_channel(self, value: u32) -> (r: Self)
        ensures
            r.value == with_field32(self.value, 0, 3, value),
    {
        MailboxWriteData { value: set_field32(self.value, 0, 3, value) }
    }

    pub fn get_data(self) -> (r: u32)
        ensures
            r == field32(self.value, 4, 31),
    {
        get_field32(self.value, 4, 31)
    }

    pub fn set_data(self, value: u32) -> (r: Self)
        ensures
            r.value == with_field32(self.value, 4, 31, value),
    {
        MailboxWriteData { value: set_field32(self.value, 4, 31, value) }
    }

}


/// The mailbox register block.
#[derive(Debug)]
pub struct MailboxRegisters {
    pub read: Volatile<u32>,
    pub status: Volatile<MailboxStatus>,
    pub write: Volatile<MailboxWriteData>,
}

/// The message word written to post `message` on `channel` over `previous`.
pub open spec fn posted_word(previous: u32, message: u32, channel: u32) -> u32 {
    with_field32(with_field32(previous, 0, 3, channel), 4, 31, message >> 4u32)
}

impl MailboxRegisters {
    /// Whether the mailbox can take no more messages.
    pub fn is_full(&self) -> (r: bool)
        ensures
            r == (field32(self.status@.value, 31, 31) == 1),
    {
        self.status.get().get_is_full() == 1
    }

    /// Whether the mailbox holds no answer.
    pub fn is_empty(&self) -> (r: bool)
        ensures
            r == (field32(self.status@.value, 30, 30) == 1),
    {
        self.status.get().get_is_empty() == 1
    }

    /// Writes the message address `message` for `channel`.
    pub fn post_message(&mut self, message: u32, channel: Channel)
        ensures
            final(self).write@.value == posted_word(
                old(self).write@.value,
                message,
                channel.as_u32_spec(),
            ),
            final(self).read@ == old(self).read@,
            final(self).status@ == old(self).status@,
    {
        let write = self.write.get();
        self.write.set(write.set_channel(channel.as_u32()).set_data(message >> 4));
    }

    /// One poll for the answer on `channel`: the word read when the mailbox
    /// is not empty and the word's low four bits name the channel.
    pub fn take_response(&self, channel: Channel) -> (r: Option<u32>)
        ensures
            r is Some <==> (field32(self.status@.value, 30, 30) != 1 && self.read@ & 0b1111
                == channel.as_u32_spec()),
            r matches Some(w) ==> w == self.read@,
    {
        if self.is_empty() {
            return None;
        }
        let response = self.read.get();
        if response & 0b1111 == channel.as_u32() {
            Some(response)
        } else {
            None
        }
    }
}

/// The mailbox channel numbers: power 0, frame buffer 1, virtual UART 2,
/// VCHIQ 3, LEDs 4, buttons 5, touch screen 6, count 7, property tags 8,
/// each channel its own; and a property message is a request (code 0).
pub proof fn lemma_channel_numbers()
    ensures
        Channel::Power.as_u32_spec() == 0,
        Channel::FrameBuffer.as_u32_spec() == 1,
        Channel::VUART.as_u32_spec() == 2,
        Channel::VCHIQ.as_u32_spec() == 3,
        Channel::LEDS.as_u32_spec() == 4,
        Channel::BTNS.as_u32_spec() == 5,
        Channel::Touch.as_u32_spec() == 6,
        Channel::Count.as_u32_spec() == 7,
        Channel::Prop.as_u32_spec() == 8,
        forall|a: Channel, b: Channel| #[trigger] a.as_u32_spec() == #[trigger] b.as_u32_spec() ==> a == b,
        MBOX_REQUEST == 0,
{
}

} // verus!

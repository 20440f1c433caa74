//! Clocks of the board and the firmware requests about them.
use vstd::prelude::*;
use crate::bitfield::{field32, get_field32, set_field32, with_field32};
use crate::mailbox::MailboxController;
use crate::mailbox_property::{simple_answer, simple_message, SimpleRequest};

verus! {

/// A value written as the first word of a request's data.
pub trait ToMailboxBuffer {
    fn write_to_mailbox_buffer(&self) -> u32;
}

/// A value read from the two data words of an answer.
pub trait FromMailboxBuffer: Sized {
    fn read_from_mailbox_buffer(buffer: &[u32; 2]) -> Option<Self>;
}

#[derive(Copy, Clone, Debug, PartialEq, Eq, Structural)]
pub enum Clock {
    EMMC,
    UART,
    ARM,
    CORE,
    V3D,
    H264,
    ISP,
    SDRAM,
    PIXEL,
    PWM,
    HEVC,
    EMMC2,
    M2MC,
    PixelBVB,
}

/// The firmware's number for a clock.
pub open spec fn clock_id(c: Clock) -> u32 {
    match c {
        Clock::EMMC => 0x1,
        Clock::UART => 0x2,
        Clock::ARM => 0x3,
        Clock::CORE => 0x4,
        Clock::V3D => 0x5,
        Clock::H264 => 0x6,
        Clock::ISP => 0x7,
        Clock::SDRAM => 0x8,
        Clock::PIXEL => 0x9,
        Clock::PWM => 0xa,
        Clock::HEVC => 0xb,
        Clock::EMMC2 => 0xc,
        Clock::M2MC => 0xd,
        Clock::PixelBVB => 0xe,
    }
}

/// The name a clock is shown with.
pub open spec fn clock_name(c: Clock) -> &'static str {
    match c {
        Clock::EMMC => "EMMC",
        Clock::UART => "UART",
        Clock::ARM => "ARM",
        Clock::CORE => "CORE",
        Clock::V3D => "V3D",
        Clock::H264 => "H264",
        Clock::ISP => "ISP",
        Clock::SDRAM => "SDRAM",
        Clock::PIXEL => "PIXEL",
        Clock::PWM => "PWM",
        Clock::HEVC => "HEVC",
        Clock::EMMC2 => "EMMC2",
        Clock::M2MC => "M2MC",
        Clock::PixelBVB => "PIXEL BVB",
    }
}

/// The clock with the firmware number `val`, if there is one.
pub open spec fn clock_of(val: u32) -> Option<Clock> {
    if val == 0x1 {
        Some(Clock::EMMC)
    } else if val == 0x2 {
        Some(Clock::UART)
    } else if val == 0x3 {
        Some(Clock::ARM)
    } else if val == 0x4 {
        Some(Clock::CORE)
    } else if val == 0x5 {
        Some(Clock::V3D)
    } else if val == 0x6 {
        Some(Clock::H264)
    } else if val == 0x7 {
        Some(Clock::ISP)
    } else if val == 0x8 {
        Some(Clock::SDRAM)
    } else if val == 0x9 {
        Some(Clock::PIXEL)
    } else if val == 0xa {
        Some(Clock::PWM)
    } else if val == 0xb {
        Some(Clock::HEVC)
    } else if val == 0xc {
        Some(Clock::EMMC2)
    } else if val == 0xd {
        Some(Clock::M2MC)
    } else if val == 0xe {
        Some(Clock::PixelBVB)
    } else {
        None
    }
}

impl Clock {
    pub const GET_CLOCK_STATE: u32 = 0x30001;
    pub const GET_CLOCK_RATE: u32 = 0x30002;
    pub const GET_CLOCK_RATE_MEASURED: u32 = 0x30047;
    pub const GET_MAX_CLOCK_RATE: u32 = 0x30004;
    pub const GET_MIN_CLOCK_RATE: u32 = 0x30007;

    /// The firmware's number for this clock.
    pub fn as_u32(&self) -> (r: u32)
        ensures
            r == clock_id(*self),
    {
        match *self {
            Clock::EMMC => 0x1,
            Clock::UART => 0x2,
            Clock::ARM => 0x3,
            Clock::CORE => 0x4,
            Clock::V3D => 0x5,
            Clock::H264 => 0x6,
            Clock::ISP => 0x7,
            Clock::SDRAM => 0x8,
            Clock::PIXEL => 0x9,
            Clock::PWM => 0xa,
            Clock::HEVC => 0xb,
            Clock::EMMC2 => 0xc,
            Clock::M2MC => 0xd,
            Clock::PixelBVB => 0xe,
        }
    }

    /// The clock with the firmware number `val`, which must name one.
    pub fn from_u32(val: u32) -> (r: Clock)
        requires
            0x1 <= val <= 0xe,
        ensures
            clock_of(val) == Some(r),
            clock_id(r) == val,
    {
        match Self::try_from_u32(val) {
            Some(c) => c,
            None => {
                proof {
                    assert(false);
                }
                Clock::EMMC
            },
        }
    }

    /// The clock with the firmware number `val`, if there is one.
    pub fn try_from_u32(val: u32) -> (r: Option<Clock>)
        ensures
            r == clock_of(val),
            r is Some <==> 0x1 <= val <= 0xe,
            r matches Some(c) ==> clock_id(c) == val,
    {
        match val {
            0x1 => Some(Clock::EMMC),
            0x2 => Some(Clock::UART),
            0x3 => Some(Clock::ARM),
            0x4 => Some(Clock::CORE),
            0x5 => Some(Clock::V3D),
            0x6 => Some(Clock::H264),
            0x7 => Some(Clock::ISP),
            0x8 => Some(Clock::SDRAM),
            0x9 => Some(Clock::PIXEL),
            0xa => Some(Clock::PWM),
            0xb => Some(Clock::HEVC),
            0xc => Some(Clock::EMMC2),
            0xd => Some(Clock::M2MC),
            0xe => Some(Clock::PixelBVB),
            _ => None,
        }
    }

    /// The name the clock is shown with.
    pub fn name(&self) -> (r: &'static str)
        ensures
            r == clock_name(*self),
    {
        match self {
            Clock::EMMC => "EMMC",
            Clock::UART => "UART",
            Clock::ARM => "ARM",
            Clock::CORE => "CORE",
            Clock::V3D => "V3D",
            Clock::H264 => "H264",
            Clock::ISP => "ISP",
            Clock::SDRAM => "SDRAM",
            Clock::PIXEL => "PIXEL",
            Clock::PWM => "PWM",
            Clock::HEVC => "HEVC",
            Clock::EMMC2 => "EMMC2",
            Clock::M2MC => "M2MC",
            Clock::PixelBVB => "PIXEL BVB",
        }
    }

}

impl ToMailboxBuffer for Clock {
    fn write_to_mailbox_buffer(&self) -> (r: u32)
        ensures
            r == clock_id(*self),
    {
        self.as_u32()
    }
}

/// Sends one request about `clock` under the tag `E`, the message
/// `query_message(E, clock_id(item))`, and gives back the two data words of
/// the answer, if the mailbox answered with a message of that length.
fn clock_query<const E: u32, M: MailboxController>(item: Clock, mailbox: &M) -> (r: Option<[u32; 2]>)
    ensures
        r matches Some(w) ==> exists|a: Seq<u32>| a.len() == 7 && a[5] == w@[0] && #[trigger] a[6] == w@[1],
{
    let request = SimpleRequest::<E>::with_request(item.write_to_mailbox_buffer());
    let message = simple_message(&request);
    match message.send(mailbox) {
        Some(buffer) => {
            let w = simple_answer(&message, request, &buffer);
            assert(buffer@.len() == 7 && w@ == buffer@.subrange(5, 7));
            assert(buffer@[5] == w@[0] && buffer@[6] == w@[1]);
            Some(w)
        },
        None => None,
    }
}

/// Whether a clock is on and whether it exists.
#[derive(Copy, Clone, Debug, PartialEq, Eq, Structural)]
pub struct ClockState {
    pub value: u32,
}

impl ClockState {
    pub fn get_on(self) -> (r: u32)
        ensures
            r == field32(self.value, 0, 0),
    {
        get_field32(self.value, 0, 0)
    }

    pub fn set_on(self, value: u32) -> (r: Self)
        ensures
            r.value == with_field32(self.value, 0, 0, value),
    {
        ClockState { value: set_field32(self.value, 0, 0, value) }
    }

    pub fn get_exists(self) -> (r: u32)
        ensures
            r == field32(self.value, 1, 1),
    {
        get_field32(self.value, 1, 1)
    }

    pub fn set_exists(self, value: u32) -> (r: Self)
        ensures
            r.value == with_field32(self.value, 1, 1, value),
    {
        ClockState { value: set_field32(self.value, 1, 1, value) }
    }

    pub fn from_u32(value: u32) -> (r: Self)
        ensures
            r.value == value,
    {
        ClockState { value }
    }

    pub fn is_on(&self) -> (r: bool)
        ensures
            r == (field32(self.value, 0, 0) == 1),
    {
        self.get_on() == 1
    }

    pub fn does_exist(&self) -> (r: bool)
        ensures
            r == (field32(self.value, 1, 1) == 1),
    {
        self.get_exists() == 1
    }

}

/// The answer to a clock rate request: the clock and a rate in Hz.
#[derive(Copy, Clone, Debug)]
pub struct ClockRateResponse(pub Clock, pub u32);

impl FromMailboxBuffer for ClockRateResponse {
    fn read_from_mailbox_buffer(buffer: &[u32; 2]) -> (r: Option<Self>)
        ensures
            r is Some <==> clock_of(buffer@[0]) is Some,
            r matches Some(a) ==> clock_of(buffer@[0]) == Some(a.0) && a.1 == buffer@[1],
    {
        match Clock::try_from_u32(buffer[0]) {
            Some(c) => Some(ClockRateResponse(c, buffer[1])),
            None => None,
        }
    }
}

/// The answer to a clock state request: the clock and its state.
#[derive(Copy, Clone, Debug)]
pub struct ClockStateResponse(pub Clock, pub ClockState);

impl FromMailboxBuffer for ClockStateResponse {
    fn read_from_mailbox_buffer(buffer: &[u32; 2]) -> (r: Option<Self>)
        ensures
            r is Some <==> clock_of(buffer@[0]) is Some,
            r matches Some(a) ==> clock_of(buffer@[0]) == Some(a.0) && a.1.value == buffer@[1],
    {
        match Clock::try_from_u32(buffer[0]) {
            Some(c) => Some(ClockStateResponse(c, ClockState::from_u32(buffer[1]))),
            None => None,
        }
    }
}

/// The rate in the answer to a rate request, if the answer names a clock.
pub fn rate_of(answer: Option<[u32; 2]>) -> (r: Option<u32>)
    ensures
        r is Some <==> (answer matches Some(a) && clock_of(a@[0]) is Some),
        r matches Some(v) ==> answer matches Some(a) && v == a@[1],
{
    match answer {
        Some(words) => match ClockRateResponse::read_from_mailbox_buffer(&words) {
            Some(response) => Some(response.1),
            None => None,
        },
        None => None,
    }
}

impl Clock {
    /// The clock's set rate in Hz; `None` when the mailbox gave no answer
    /// that names a clock.
    pub fn get_clock_rate<M: MailboxController>(self, mailbox: &M) -> (r: Option<u32>)
        ensures
            r matches Some(v) ==> exists|a: Seq<u32>| a.len() == 7 && clock_of(a[5]) is Some && v == #[trigger] a[6],
    {
        rate_of(clock_query::<0x30002, M>(self, mailbox))
    }

    /// The clock's measured rate in Hz.
    pub fn get_clock_rate_measured<M: MailboxController>(self, mailbox: &M) -> (r: Option<u32>)
        ensures
            r matches Some(v) ==> exists|a: Seq<u32>| a.len() == 7 && clock_of(a[5]) is Some && v == #[trigger] a[6],
    {
        rate_of(clock_query::<0x30047, M>(self, mailbox))
    }

    /// The highest rate the clock can be set to, in Hz.
    pub fn get_max_clock_rate<M: MailboxController>(self, mailbox: &M) -> (r: Option<u32>)
        ensures
            r matches Some(v) ==> exists|a: Seq<u32>| a.len() == 7 && clock_of(a[5]) is Some && v == #[trigger] a[6],
    {
        rate_of(clock_query::<0x30004, M>(self, mailbox))
    }

    /// The lowest rate the clock can be set to, in Hz.
    pub fn get_min_clock_rate<M: MailboxController>(self, mailbox: &M) -> (r: Option<u32>)
        ensures
            r matches Some(v) ==> exists|a: Seq<u32>| a.len() == 7 && clock_of(a[5]) is Some && v == #[trigger] a[6],
    {
        rate_of(clock_query::<0x30007, M>(self, mailbox))
    }

    /// Whether the clock is on and exists.
    pub fn get_clock_state<M: MailboxController>(self, mailbox: &M) -> (r: Option<ClockState>)
        ensures
            r matches Some(st) ==> exists|a: Seq<u32>| a.len() == 7 && clock_of(a[5]) is Some && st.value == #[trigger] a[6],
    {
        match clock_query::<0x30001, M>(self, mailbox) {
            Some(words) => match ClockStateResponse::read_from_mailbox_buffer(&words) {
                Some(response) => Some(response.1),
                None => None,
            },
            None => None,
        }
    }
}

/// The firmware numbers of the clocks, as the mailbox property interface
/// gives them: EMMC 1, UART 2, ARM 3, CORE 4, V3D 5, H264 6, ISP 7, SDRAM 8,
/// PIXEL 9, PWM 10, HEVC 11, EMMC2 12, M2MC 13, PIXEL_BVB 14. Decoding a
/// number gives back the clock it numbers, and only 1..14 number a clock.
pub proof fn lemma_clock_ids()
    ensures
        clock_id(Clock::EMMC) == 1,
        clock_id(Clock::UART) == 2,
        clock_id(Clock::ARM) == 3,
        clock_id(Clock::CORE) == 4,
        clock_id(Clock::V3D) == 5,
        clock_id(Clock::H264) == 6,
        clock_id(Clock::ISP) == 7,
        clock_id(Clock::SDRAM) == 8,
        clock_id(Clock::PIXEL) == 9,
        clock_id(Clock::PWM) == 10,
        clock_id(Clock::HEVC) == 11,
        clock_id(Clock::EMMC2) == 12,
        clock_id(Clock::M2MC) == 13,
        clock_id(Clock::PixelBVB) == 14,
        forall|c: Clock| #[trigger] clock_of(clock_id(c)) == Some(c),
        forall|v: u32| #[trigger] clock_of(v) is Some <==> 1 <= v <= 14,
        forall|v: u32| #[trigger] clock_of(v) matches Some(c) ==> clock_id(c) == v,
{
}

} // verus!

//! Power domains of the board and the firmware requests about them.
use vstd::prelude::*;
use crate::bitfield::{field32, get_field32, set_field32, with_field32};
use crate::mailbox::MailboxController;
use crate::mailbox_property::{simple_answer, simple_message, SimpleRequest};
use crate::clock::{FromMailboxBuffer, ToMailboxBuffer};

verus! {

#[derive(Copy, Clone, Debug, PartialEq, Eq, Structural)]
pub enum Device {
    SDCard,
    UART0,
    UART1,
    USBHCD,
    I2C0,
    I2C1,
    I2C2,
    SPI,
    CCP2TX,
}

/// The firmware's number for a device.
pub open spec fn device_id(c: Device) -> u32 {
    match c {
        Device::SDCard => 0x0,
        Device::UART0 => 0x1,
        Device::UART1 => 0x2,
        Device::USBHCD => 0x3,
        Device::I2C0 => 0x4,
        Device::I2C1 => 0x5,
        Device::I2C2 => 0x6,
        Device::SPI => 0x7,
        Device::CCP2TX => 0x8,
    }
}

/// The name a device is shown with.
pub open spec fn device_name(c: Device) -> &'static str {
    match c {
        Device::SDCard => "SD Card Reader",
        Device::UART0 => "UART Controller 0",
        Device::UART1 => "UART Controller 1",
        Device::USBHCD => "USB HCD",
        Device::I2C0 => "I2C Controller 0",
        Device::I2C1 => "I2C Controller 1",
        Device::I2C2 => "I2C Controller 2",
        Device::SPI => "SPI Controller",
        Device::CCP2TX => "CCP2TX",
    }
}

/// The device with the firmware number `val`, if there is one.
pub open spec fn device_of(val: u32) -> Option<Device> {
    if val == 0x0 {
        Some(Device::SDCard)
    } else if val == 0x1 {
        Some(Device::UART0)
    } else if val == 0x2 {
        Some(Device::UART1)
    } else if val == 0x3 {
        Some(Device::USBHCD)
    } else if val == 0x4 {
        Some(Device::I2C0)
    } else if val == 0x5 {
        Some(Device::I2C1)
    } else if val == 0x6 {
        Some(Device::I2C2)
    } else if val == 0x7 {
        Some(Device::SPI)
    } else if val == 0x8 {
        Some(Device::CCP2TX)
    } else {
        None
    }
}

impl Device {
    pub const GET_POWER_STATE: u32 = 0x20001;
    pub const GET_TIMING: u32 = 0x20002;

    /// The firmware's number for this device.
    pub fn to_u32(self) -> (r: u32)
        ensures
            r == device_id(self),
    {
        match self {
            Device::SDCard => 0x0,
            Device::UART0 => 0x1,
            Device::UART1 => 0x2,
            Device::USBHCD => 0x3,
            Device::I2C0 => 0x4,
            Device::I2C1 => 0x5,
            Device::I2C2 => 0x6,
            Device::SPI => 0x7,
            Device::CCP2TX => 0x8,
        }
    }

    /// The device with the firmware number `val`, which must name one.
    pub fn from_u32(val: u32) -> (r: Device)
        requires
            0x0 <= val <= 0x8,
        ensures
            device_of(val) == Some(r),
            device_id(r) == val,
    {
        match Self::try_from_u32(val) {
            Some(c) => c,
            None => {
                proof {
                    assert(false);
                }
                Device::SDCard
            },
        }
    }

    /// The device with the firmware number `val`, if there is one.
    pub fn try_from_u32(val: u32) -> (r: Option<Device>)
        ensures
            r == device_of(val),
            r is Some <==> 0x0 <= val <= 0x8,
            r matches Some(c) ==> device_id(c) == val,
    {
        match val {
            0x0 => Some(Device::SDCard),
            0x1 => Some(Device::UART0),
            0x2 => Some(Device::UART1),
            0x3 => Some(Device::USBHCD),
            0x4 => Some(Device::I2C0),
            0x5 => Some(Device::I2C1),
            0x6 => Some(Device::I2C2),
            0x7 => Some(Device::SPI),
            0x8 => Some(Device::CCP2TX),
            _ => None,
        }
    }

    /// The name the device is shown with.
    pub fn name(&self) -> (r: &'static str)
        ensures
            r == device_name(*self),
    {
        match self {
            Device::SDCard => "SD Card Reader",
            Device::UART0 => "UART Controller 0",
            Device::UART1 => "UART Controller 1",
            Device::USBHCD => "USB HCD",
            Device::I2C0 => "I2C Controller 0",
            Device::I2C1 => "I2C Controller 1",
            Device::I2C2 => "I2C Controller 2",
            Device::SPI => "SPI Controller",
            Device::CCP2TX => "CCP2TX",
        }
    }

}

impl ToMailboxBuffer for Device {
    fn write_to_mailbox_buffer(&self) -> (r: u32)
        ensures
            r == device_id(*self),
    {
        self.to_u32()
    }
}

/// Sends one request about `item` under the tag `E`, the message
/// `query_message(E, device_id(item))`, and gives back the two data words of
/// the answer, if the mailbox answered with a message of that length.
fn device_query<const E: u32, M: MailboxController>(item: Device, mailbox: &M) -> (r: Option<[u32; 2]>)
    ensures
        r matches Some(w) ==> exists|a: Seq<u32>| a.len() == 7 && a[5] == w@[0] && #[trigger] a[6] == w@[1],
{
    let request = SimpleRequest::<E>::with_request(item.write_to_mailbox_buffer());
    let message = simple_message(&request);
    match message.send(mailbox) {
        Some(buffer) => {
            let w = simple_answer(&message, request, &buffer);
            assert(buffer@.len() == 7 && w@ == buffer@.subrange(5, 7));
            assert(buffer@[5] == w@[0] && buffer@[6] == w@[1]);
            Some(w)
        },
        None => None,
    }
}

/// Whether a device is powered and whether it exists.
#[derive(Copy, Clone, Debug, PartialEq, Eq, Structural)]
pub struct PowerState {
    pub value: u32,
}

impl PowerState {
    pub fn get_on(self) -> (r: u32)
        ensures
            r == field32(self.value, 0, 0),
    {
        get_field32(self.value, 0, 0)
    }

    pub fn set_on(self, value: u32) -> (r: Self)
        ensures
            r.value == with_field32(self.value, 0, 0, value),
    {
        PowerState { value: set_field32(self.value, 0, 0, value) }
    }

    pub fn get_exists(self) -> (r: u32)
        ensures
            r == field32(self.value, 1, 1),
    {
        get_field32(self.value, 1, 1)
    }

    pub fn set_exists(self, value: u32) -> (r: Self)
        ensures
            r.value == with_field32(self.value, 1, 1, value),
    {
        PowerState { value: set_field32(self.value, 1, 1, value) }
    }

    pub fn is_on(&self) -> (r: bool)
        ensures
            r == (field32(self.value, 0, 0) == 1),
    {
        self.get_on() == 1
    }

    pub fn does_exist(&self) -> (r: bool)
        ensures
            r == (field32(self.value, 1, 1) == 1),
    {
        self.get_exists() == 1
    }

    pub fn from_u32(value: u32) -> (r: Self)
        ensures
            r.value == value,
    {
        PowerState { value }
    }

}

/// The answer to a power state request: the device and its state.
#[derive(Copy, Clone, Debug)]
pub struct PowerStateResponse(pub Device, pub PowerState);

impl FromMailboxBuffer for PowerStateResponse {
    fn read_from_mailbox_buffer(buffer: &[u32; 2]) -> (r: Option<Self>)
        ensures
            r is Some <==> device_of(buffer@[0]) is Some,
            r matches Some(a) ==> device_of(buffer@[0]) == Some(a.0) && a.1.value == buffer@[1],
    {
        match Device::try_from_u32(buffer[0]) {
            Some(d) => Some(PowerStateResponse(d, PowerState::from_u32(buffer[1]))),
            None => None,
        }
    }
}

/// The answer to a timing request: the device and its wait time in
/// microseconds.
#[derive(Copy, Clone, Debug)]
pub struct TimingResponse(pub Device, pub u32);

impl FromMailboxBuffer for TimingResponse {
    fn read_from_mailbox_buffer(buffer: &[u32; 2]) -> (r: Option<Self>)
        ensures
            r is Some <==> device_of(buffer@[0]) is Some,
            r matches Some(a) ==> device_of(buffer@[0]) == Some(a.0) && a.1 == buffer@[1],
    {
        match Device::try_from_u32(buffer[0]) {
            Some(d) => Some(TimingResponse(d, buffer[1])),
            None => None,
        }
    }
}

impl Device {
    /// Whether the device is powered and exists; `None` when the mailbox
    /// gave no answer that names a device.
    pub fn get_power_state<M: MailboxController>(self, mailbox: &M) -> (r: Option<PowerState>)
        ensures
            r matches Some(st) ==> exists|a: Seq<u32>| a.len() == 7 && device_of(a[5]) is Some && st.value == #[trigger] a[6],
    {
        match device_query::<0x20001, M>(self, mailbox) {
            Some(words) => match PowerStateResponse::read_from_mailbox_buffer(&words) {
                Some(response) => Some(response.1),
                None => None,
            },
            None => None,
        }
    }

    /// The time the device takes to power up, in microseconds.
    pub fn get_timing<M: MailboxController>(self, mailbox: &M) -> (r: Option<u32>)
        ensures
            r matches Some(t) ==> exists|a: Seq<u32>| a.len() == 7 && device_of(a[5]) is Some && t == #[trigger] a[6],
    {
        match device_query::<0x20002, M>(self, mailbox) {
            Some(words) => match TimingResponse::read_from_mailbox_buffer(&words) {
                Some(response) => Some(response.1),
                None => None,
            },
            None => None,
        }
    }
}

/// The firmware numbers of the devices, as the mailbox property interface
/// gives them: SD card 0, UART0 1, UART1 2, USB HCD 3, I2C0 4, I2C1 5, I2C2 6,
/// SPI 7, CCP2TX 8. Decoding a number gives back the device it numbers, and
/// only 0..8 number a device.
pub proof fn lemma_device_ids()
    ensures
        device_id(Device::SDCard) == 0,
        device_id(Device::UART0) == 1,
        device_id(Device::UART1) == 2,
        device_id(Device::USBHCD) == 3,
        device_id(Device::I2C0) == 4,
        device_id(Device::I2C1) == 5,
        device_id(Device::I2C2) == 6,
        device_id(Device::SPI) == 7,
        device_id(Device::CCP2TX) == 8,
        forall|d: Device| #[trigger] device_of(device_id(d)) == Some(d),
        forall|v: u32| #[trigger] device_of(v) is Some <==> v <= 8,
        forall|v: u32| #[trigger] device_of(v) matches Some(d) ==> device_id(d) == v,
{
}

} // verus!

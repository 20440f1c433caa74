//! The Arasan SD host controller (EMMC) of the BCM2837: its register block,
//! the SD commands it sends, and the clock divider it is programmed with.
use vstd::prelude::*;
use crate::bitfield::{
    field32, field64, get_field32, get_field64, set_field32, set_field64, with_field32,
    with_field64,
};
use crate::volatile::Volatile;

verus! {

/// Card status bits that hold the relative card address.
pub const RCA_MASK: u32 = 0xffff_0000;

/// Card status bits that report errors.
pub const ERRORS_MASK: u32 = 0xfff9_c004;

/// Interrupt flags that report errors.
pub const INTERRUPT_ERROR_MASK: u32 = 0x017E_8000;

/// An interrupt word with every flag set.
pub const ALL_INTERRUPTS: u32 = 0xffff_ffff;

/// Command register values of the SD commands the driver sends.
pub const GO_IDLE: u32 = 0x0000_0000;
pub const SEND_CARD_IDENTIFICATION: u32 = 0x0201_0000;
pub const SEND_RELATIVE_ADDRESS: u32 = 0x0302_0000;
pub const CARD_SELECT: u32 = 0x0703_0000;
pub const SEND_INTERFACE_CONDITIONS: u32 = 0x0802_0000;
pub const STOP_TRANSMISSION: u32 = 0x0C02_0000;
pub const READ_SINGLE_BLOCK: u32 = 0x1122_0010;
pub const READ_MULTIPLE_BLOCKS: u32 = 0x1222_0032;
pub const SET_BLOCK_COUNT: u32 = 0x1702_0000;
pub const APPLICATION_SPECIFIC_COMMAND: u32 = 0x3700_0000;
pub const SET_BUS_WIDTH: u32 = 0x8602_0000;
pub const SEND_OP_COND: u32 = 0xA902_0000;
pub const SEND_SD_CONFIGURATION_REGISTER: u32 = 0xB322_0010;

/// The application command with a 48-bit response, as it is sent once the
/// card has a relative address.
pub const APPLICATION_SPECIFIC_COMMAND_48: u32 = 0x3702_0000;

/// Host controller specification version 2.
pub const HOST_SPEC_V2: u32 = 1;

/// Supported-commands bit that marks a card that takes CMD23.
pub const SCR_SUPP_CCS: u32 = 0x1;

/// Argument of the operating conditions command (high capacity, 3.3V).
pub const ACMD41_ARG_HC: u32 = 0x51ff8000;

/// Polls of the status register before giving up.
pub const STATUS_TRIES: u32 = 500_000;

/// Polls of the interrupt register before giving up.
pub const INTERRUPT_WAIT_TIMEOUT: u32 = 1_000_000;

/// The flags of the status register the driver waits on.
#[derive(Copy, Clone, Debug, PartialEq, Eq, Structural)]
pub enum StatusSetting {
    ReadAvailable,
    DataInhibit,
    CommandInhibit,
    AppCommand,
}

impl StatusSetting {
    /// Bit of the status register that holds the flag.
    pub open spec fn bit(self) -> u32 {
        match self {
            StatusSetting::ReadAvailable => 11,
            StatusSetting::DataInhibit => 1,
            StatusSetting::CommandInhibit => 0,
            StatusSetting::AppCommand => 5,
        }
    }

    /// The flag's mask in the status register.
    pub fn as_u32(self) -> (r: u32)
        ensures
            r == match self {
                StatusSetting::ReadAvailable => 0x0000_0800u32,
                StatusSetting::DataInhibit => 0x0000_0002u32,
                StatusSetting::CommandInhibit => 0x0000_0001u32,
                StatusSetting::AppCommand => 0x0000_0020u32,
            },
    {
        match self {
            StatusSetting::ReadAvailable => 0x0000_0800,
            StatusSetting::DataInhibit => 0x0000_0002,
            StatusSetting::CommandInhibit => 0x0000_0001,
            StatusSetting::AppCommand => 0x0000_0020,
        }
    }
}

/// The interrupts the driver waits for.
#[derive(Copy, Clone, Debug, PartialEq, Eq, Structural)]
pub enum InterruptType {
    CommandDone,
    ReadReady,
}

impl InterruptType {
    /// Bit of the interrupt register that flags it.
    pub open spec fn bit(self) -> u32 {
        match self {
            InterruptType::CommandDone => 0,
            InterruptType::ReadReady => 5,
        }
    }
}

/// Response types of the command register's response type field.
#[derive(Copy, Clone, Debug, PartialEq, Eq, Structural)]
pub enum ResponseType {
    NoResponse,
    Response136Bit,
    Response48Bit,
    Response48BitUsingBusy,
}

impl ResponseType {
    /// The code of this response type; its low two bits are the field value.
    pub fn as_u32(self) -> (r: u32)
        ensures
            r == match self {
                ResponseType::NoResponse => 0u32,
                ResponseType::Response136Bit => 1u32,
                ResponseType::Response48Bit => 10u32,
                ResponseType::Response48BitUsingBusy => 11u32,
            },
    {
        match self {
            ResponseType::NoResponse => 0,
            ResponseType::Response136Bit => 1,
            ResponseType::Response48Bit => 10,
            ResponseType::Response48BitUsingBusy => 11,
        }
    }
}
/// Block size and block count register.
#[derive(Copy, Clone, Debug, PartialEq, Eq, Structural)]
pub struct BlockSizeAndCount {
    pub value: u32,
}

impl BlockSizeAndCount {
    pub fn get_block_size(self) -> (r: u32)
        ensures
            r == field32(self.value, 0, 9),
    {
        get_field32(self.value, 0, 9)
    }

    pub fn set_block_size(self, value: u32) -> (r: Self)
        ensures
            r.value == with_field32(self.value, 0, 9, value),
    {
        BlockSizeAndCount { value: set_field32(self.value, 0, 9, value) }
    }

    pub fn get_number_of_blocks(self) -> (r: u32)
        ensures
            r == field32(self.value, 16, 31),
    {
        get_field32(self.value, 16, 31)
    }

    pub fn set_number_of_blocks(self, value: u32) -> (r: Self)
        ensures
            r.value == with_field32(self.value, 16, 31, value),
    {
        BlockSizeAndCount { value: set_field32(self.value, 16, 31, value) }
    }

    pub fn empty() -> (r: Self)
        ensures
            r.value == 0,
    {
        BlockSizeAndCount { value: 0 }
    }

    pub fn with_size_and_count(size: u32, count: u32) -> (r: Self)
        ensures
            r.value == with_field32(with_field32(0, 0, 9, size), 16, 31, count),
    {
        Self::empty().set_block_size(size).set_number_of_blocks(count)
    }

}

/// An SD command as written to the command register; bit 31 marks application specific commands and is cleared before the command is sent.
#[derive(Copy, Clone, Debug, PartialEq, Eq, Structural)]
pub struct SDCommand {
    pub value: u32,
}

impl SDCommand {
    pub fn get_enable_block_counter(self) -> (r: u32)
        ensures
            r == field32(self.value, 1, 1),
    {
        get_field32(self.value, 1, 1)
    }

    pub fn set_enable_block_counter(self, value: u32) -> (r: Self)
        ensures
            r.value == with_field32(self.value, 1, 1, value),
    {
        SDCommand { value: set_field32(self.value, 1, 1, value) }
    }

    pub fn get_auto_command(self) -> (r: u32)
        ensures
            r == field32(self.value, 2, 3),
    {
        get_field32(self.value, 2, 3)
    }

    pub fn set_auto_command(self, value: u32) -> (r: Self)
        ensures
            r.value == with_field32(self.value, 2, 3, value),
    {
        SDCommand { value: set_field32(self.value, 2, 3, value) }
    }

    pub fn get_data_direction(self) -> (r: u32)
        ensures
            r == field32(self.value, 4, 4),
    {
        get_field32(self.value, 4, 4)
    }

    pub fn set_data_direction(self, value: u32) -> (r: Self)
        ensures
            r.value == with_field32(self.value, 4, 4, value),
    {
        SDCommand { value: set_field32(self.value, 4, 4, value) }
    }

    pub fn get_multiple_blocks(self) -> (r: u32)
        ensures
            r == field32(self.value, 5, 5),
    {
        get_field32(self.value, 5, 5)
    }

    pub fn set_multiple_blocks(self, value: u32) -> (r: Self)
        ensures
            r.value == with_field32(self.value, 5, 5, value),
    {
        SDCommand { value: set_field32(self.value, 5, 5, value) }
    }

    pub fn get_response_type(self) -> (r: u32)
        ensures
            r == field32(self.value, 16, 17),
    {
        get_field32(self.value, 16, 17)
    }

    pub fn set_response_type(self, value: u32) -> (r: Self)
        ensures
            r.value == with_field32(self.value, 16, 17, value),
    {
        SDCommand { value: set_field32(self.value, 16, 17, value) }
    }

    pub fn get_check_response_crc(self) -> (r: u32)
        ensures
            r == field32(self.value, 19, 19),
    {
        get_field32(self.value, 19, 19)
    }

    pub fn set_check_response_crc(self, value: u32) -> (r: Self)
        ensures
            r.value == with_field32(self.value, 19, 19, value),
    {
        SDCommand { value: set_field32(self.value, 19, 19, value) }
    }

    pub fn get_check_response_index(self) -> (r: u32)
        ensures
            r == field32(self.value, 20, 20),
    {
        get_field32(self.value, 20, 20)
    }

    pub fn set_check_response_index(self, value: u32) -> (r: Self)
        ensures
            r.value == with_field32(self.value, 20, 20, value),
    {
        SDCommand { value: set_field32(self.value, 20, 20, value) }
    }

    pub fn get_data_transfer(self) -> (r: u32)
        ensures
            r == field32(self.value, 21, 21),
    {
        get_field32(self.value, 21, 21)
    }

    pub fn set_data_transfer(self, value: u32) -> (r: Self)
        ensures
            r.value == with_field32(self.value, 21, 21, value),
    {
        SDCommand { value: set_field32(self.value, 21, 21, value) }
    }

    pub fn get_command_type(self) -> (r: u32)
        ensures
            r == field32(self.value, 22, 23),
    {
        get_field32(self.value, 22, 23)
    }

    pub fn set_command_type(self, value: u32) -> (r: Self)
        ensures
            r.value == with_field32(self.value, 22, 23, value),
    {
        SDCommand { value: set_field32(self.value, 22, 23, value) }
    }

    pub fn get_command_index(self) -> (r: u32)
        ensures
            r == field32(self.value, 24, 29),
    {
        get_field32(self.value, 24, 29)
    }

    pub fn set_command_index(self, value: u32) -> (r: Self)
        ensures
            r.value == with_field32(self.value, 24, 29, value),
    {
        SDCommand { value: set_field32(self.value, 24, 29, value) }
    }

    pub fn get_is_application_specific(self) -> (r: u32)
        ensures
            r == field32(self.value, 31, 31),
    {
        get_field32(self.value, 31, 31)
    }

    pub fn set_is_application_specific(self, value: u32) -> (r: Self)
        ensures
            r.value == with_field32(self.value, 31, 31, value),
    {
        SDCommand { value: set_field32(self.value, 31, 31, value) }
    }

    pub fn empty_command() -> (r: Self)
        ensures
            r.value == 0,
    {
        SDCommand { value: 0 }
    }

    pub fn with_command_index(index: u32) -> (r: Self)
        ensures
            r.value == with_field32(0, 24, 29, index),
    {
        Self::empty_command().set_command_index(index)
    }

}

/// The controller's status register.
#[derive(Copy, Clone, Debug, PartialEq, Eq, Structural)]
pub struct Status {
    pub value: u32,
}

impl Status {
    pub fn get_command_inhibit(self) -> (r: u32)
        ensures
            r == field32(self.value, 0, 0),
    {
        get_field32(self.value, 0, 0)
    }

    pub fn set_command_inhibit(self, value: u32) -> (r: Self)
        ensures
            r.value == with_field32(self.value, 0, 0, value),
    {
        Status { value: set_field32(self.value, 0, 0, value) }
    }

    pub fn get_data_inhibit(self) -> (r: u32)
        ensures
            r == field32(self.value, 1, 1),
    {
        get_field32(self.value, 1, 1)
    }

    pub fn set_data_inhibit(self, value: u32) -> (r: Self)
        ensures
            r.value == with_field32(self.value, 1, 1, value),
    {
        Status { value: set_field32(self.value, 1, 1, value) }
    }

    pub fn get_data_active(self) -> (r: u32)
        ensures
            r == field32(self.value, 2, 2),
    {
        get_field32(self.value, 2, 2)
    }

    pub fn set_data_active(self, value: u32) -> (r: Self)
        ensures
            r.value == with_field32(self.value, 2, 2, value),
    {
        Status { value: set_field32(self.value, 2, 2, value) }
    }

    pub fn get_app_command(self) -> (r: u32)
        ensures
            r == field32(self.value, 5, 5),
    {
        get_field32(self.value, 5, 5)
    }

    pub fn set_app_command(self, value: u32) -> (r: Self)
        ensures
            r.value == with_field32(self.value, 5, 5, value),
    {
        Status { value: set_field32(self.value, 5, 5, value) }
    }

    pub fn get_write_transfer(self) -> (r: u32)
        ensures
            r == field32(self.value, 8, 8),
    {
        get_field32(self.value, 8, 8)
    }

    pub fn set_write_transfer(self, value: u32) -> (r: Self)
        ensures
            r.value == with_field32(self.value, 8, 8, value),
    {
        Status { value: set_field32(self.value, 8, 8, value) }
    }

    pub fn get_read_transfer(self) -> (r: u32)
        ensures
            r == field32(self.value, 9, 9),
    {
        get_field32(self.value, 9, 9)
    }

    pub fn set_read_transfer(self, value: u32) -> (r: Self)
        ensures
            r.value == with_field32(self.value, 9, 9, value),
    {
        Status { value: set_field32(self.value, 9, 9, value) }
    }

    pub fn get_read_available(self) -> (r: u32)
        ensures
            r == field32(self.value, 11, 11),
    {
        get_field32(self.value, 11, 11)
    }

    pub fn set_read_available(self, value: u32) -> (r: Self)
        ensures
            r.value == with_field32(self.value, 11, 11, value),
    {
        Status { value: set_field32(self.value, 11, 11, value) }
    }

    pub fn get_data_level0(self) -> (r: u32)
        ensures
            r == field32(self.value, 20, 23),
    {
        get_field32(self.value, 20, 23)
    }

    pub fn set_data_level0(self, value: u32) -> (r: Self)
        ensures
            r.value == with_field32(self.value, 20, 23, value),
    {
        Status { value: set_field32(self.value, 20, 23, value) }
    }

    pub fn get_command_level(self) -> (r: u32)
        ensures
            r == field32(self.value, 24, 24),
    {
        get_field32(self.value, 24, 24)
    }

    pub fn set_command_level(self, value: u32) -> (r: Self)
        ensures
            r.value == with_field32(self.value, 24, 24, value),
    {
        Status { value: set_field32(self.value, 24, 24, value) }
    }

    pub fn get_data_level1(self) -> (r: u32)
        ensures
            r == field32(self.value, 25, 28),
    {
        get_field32(self.value, 25, 28)
    }

    pub fn set_data_level1(self, value: u32) -> (r: Self)
        ensures
            r.value == with_field32(self.value, 25, 28, value),
    {
        Status { value: set_field32(self.value, 25, 28, value) }
    }

    pub fn as_u32(&self) -> (r: u32)
        ensures
            r == self.value,
    {
        self.value
    }

    /// Whether the flag that `status` names is set.
    pub fn get_status(&self, status: StatusSetting) -> (r: bool)
        ensures
            r == (field32(self.value, status.bit(), status.bit()) != 0),
    {
        match status {
            StatusSetting::CommandInhibit => self.get_command_inhibit() != 0,
            StatusSetting::DataInhibit => self.get_data_inhibit() != 0,
            StatusSetting::AppCommand => self.get_app_command() != 0,
            StatusSetting::ReadAvailable => self.get_read_available() != 0,
        }
    }

    /// Whether commands or data transfers are inhibited.
    pub fn is_inhibited(&self) -> (r: bool)
        ensures
            r == (field32(self.value, 0, 0) == 1 || field32(self.value, 1, 1) == 1),
    {
        self.get_command_inhibit() == 1 || self.get_data_inhibit() == 1
    }

}

/// Host configuration register 0.
#[derive(Copy, Clone, Debug, PartialEq, Eq, Structural)]
pub struct Control0 {
    pub value: u32,
}

impl Control0 {
    pub fn get_use_four_data_lines(self) -> (r: u32)
        ensures
            r == field32(self.value, 1, 1),
    {
        get_field32(self.value, 1, 1)
    }

    pub fn set_use_four_data_lines(self, value: u32) -> (r: Self)
        ensures
            r.value == with_field32(self.value, 1, 1, value),
    {
        Control0 { value: set_field32(self.value, 1, 1, value) }
    }

    pub fn get_hctl_hs_en(self) -> (r: u32)
        ensures
            r == field32(self.value, 2, 2),
    {
        get_field32(self.value, 2, 2)
    }

    pub fn set_hctl_hs_en(self, value: u32) -> (r: Self)
        ensures
            r.value == with_field32(self.value, 2, 2, value),
    {
        Control0 { value: set_field32(self.value, 2, 2, value) }
    }

    pub fn get_hctl_8bit(self) -> (r: u32)
        ensures
            r == field32(self.value, 5, 5),
    {
        get_field32(self.value, 5, 5)
    }

    pub fn set_hctl_8bit(self, value: u32) -> (r: Self)
        ensures
            r.value == with_field32(self.value, 5, 5, value),
    {
        Control0 { value: set_field32(self.value, 5, 5, value) }
    }

    pub fn get_gap_stop(self) -> (r: u32)
        ensures
            r == field32(self.value, 16, 16),
    {
        get_field32(self.value, 16, 16)
    }

    pub fn set_gap_stop(self, value: u32) -> (r: Self)
        ensures
            r.value == with_field32(self.value, 16, 16, value),
    {
        Control0 { value: set_field32(self.value, 16, 16, value) }
    }

    pub fn get_gap_restart(self) -> (r: u32)
        ensures
            r == field32(self.value, 17, 17),
    {
        get_field32(self.value, 17, 17)
    }

    pub fn set_gap_restart(self, value: u32) -> (r: Self)
        ensures
            r.value == with_field32(self.value, 17, 17, value),
    {
        Control0 { value: set_field32(self.value, 17, 17, value) }
    }

    pub fn get_readwait_en(self) -> (r: u32)
        ensures
            r == field32(self.value, 18, 18),
    {
        get_field32(self.value, 18, 18)
    }

    pub fn set_readwait_en(self, value: u32) -> (r: Self)
        ensures
            r.value == with_field32(self.value, 18, 18, value),
    {
        Control0 { value: set_field32(self.value, 18, 18, value) }
    }

    pub fn get_gap_ien(self) -> (r: u32)
        ensures
            r == field32(self.value, 19, 19),
    {
        get_field32(self.value, 19, 19)
    }

    pub fn set_gap_ien(self, value: u32) -> (r: Self)
        ensures
            r.value == with_field32(self.value, 19, 19, value),
    {
        Control0 { value: set_field32(self.value, 19, 19, value) }
    }

    pub fn get_spi_mode(self) -> (r: u32)
        ensures
            r == field32(self.value, 20, 20),
    {
        get_field32(self.value, 20, 20)
    }

    pub fn set_spi_mode(self, value: u32) -> (r: Self)
        ensures
            r.value == with_field32(self.value, 20, 20, value),
    {
        Control0 { value: set_field32(self.value, 20, 20, value) }
    }

    pub fn get_boot_en(self) -> (r: u32)
        ensures
            r == field32(self.value, 21, 21),
    {
        get_field32(self.value, 21, 21)
    }

    pub fn set_boot_en(self, value: u32) -> (r: Self)
        ensures
            r.value == with_field32(self.value, 21, 21, value),
    {
        Control0 { value: set_field32(self.value, 21, 21, value) }
    }

    pub fn get_alt_boot_en(self) -> (r: u32)
        ensures
            r == field32(self.value, 22, 22),
    {
        get_field32(self.value, 22, 22)
    }

    pub fn set_alt_boot_en(self, value: u32) -> (r: Self)
        ensures
            r.value == with_field32(self.value, 22, 22, value),
    {
        Control0 { value: set_field32(self.value, 22, 22, value) }
    }

    pub fn as_u32(&self) -> (r: u32)
        ensures
            r == self.value,
    {
        self.value
    }

    pub fn empty() -> (r: Self)
        ensures
            r.value == 0,
    {
        Control0 { value: 0 }
    }

}

/// Host configuration register 1: clocks and resets.
#[derive(Copy, Clone, Debug, PartialEq, Eq, Structural)]
pub struct Control1 {
    pub value: u32,
}

impl Control1 {
    pub fn get_enable_internal_clocks(self) -> (r: u32)
        ensures
            r == field32(self.value, 0, 0),
    {
        get_field32(self.value, 0, 0)
    }

    pub fn set_enable_internal_clocks(self, value: u32) -> (r: Self)
        ensures
            r.value == with_field32(self.value, 0, 0, value),
    {
        Control1 { value: set_field32(self.value, 0, 0, value) }
    }

    pub fn get_clock_stable(self) -> (r: u32)
        ensures
            r == field32(self.value, 1, 1),
    {
        get_field32(self.value, 1, 1)
    }

    pub fn set_clock_stable(self, value: u32) -> (r: Self)
        ensures
            r.value == with_field32(self.value, 1, 1, value),
    {
        Control1 { value: set_field32(self.value, 1, 1, value) }
    }

    pub fn get_clock_enabled(self) -> (r: u32)
        ensures
            r == field32(self.value, 2, 2),
    {
        get_field32(self.value, 2, 2)
    }

    pub fn set_clock_enabled(self, value: u32) -> (r: Self)
        ensures
            r.value == with_field32(self.value, 2, 2, value),
    {
        Control1 { value: set_field32(self.value, 2, 2, value) }
    }

    pub fn get_clk_gensel(self) -> (r: u32)
        ensures
            r == field32(self.value, 5, 5),
    {
        get_field32(self.value, 5, 5)
    }

    pub fn set_clk_gensel(self, value: u32) -> (r: Self)
        ensures
            r.value == with_field32(self.value, 5, 5, value),
    {
        Control1 { value: set_field32(self.value, 5, 5, value) }
    }

    pub fn get_clk_freq_ms2(self) -> (r: u32)
        ensures
            r == field32(self.value, 6, 7),
    {
        get_field32(self.value, 6, 7)
    }

    pub fn set_clk_freq_ms2(self, value: u32) -> (r: Self)
        ensures
            r.value == with_field32(self.value, 6, 7, value),
    {
        Control1 { value: set_field32(self.value, 6, 7, value) }
    }

    pub fn get_clk_freq8(self) -> (r: u32)
        ensures
            r == field32(self.value, 8, 15),
    {
        get_field32(self.value, 8, 15)
    }

    pub fn set_clk_freq8(self, value: u32) -> (r: Self)
        ensures
            r.value == with_field32(self.value, 8, 15, value),
    {
        Control1 { value: set_field32(self.value, 8, 15, value) }
    }

    pub fn get_data_timeout_unit_exponent(self) -> (r: u32)
        ensures
            r == field32(self.value, 16, 19),
    {
        get_field32(self.value, 16, 19)
    }

    pub fn set_data_timeout_unit_exponent(self, value: u32) -> (r: Self)
        ensures
            r.value == with_field32(self.value, 16, 19, value),
    {
        Control1 { value: set_field32(self.value, 16, 19, value) }
    }

    pub fn get_reset_complete_host_circuit(self) -> (r: u32)
        ensures
            r == field32(self.value, 24, 24),
    {
        get_field32(self.value, 24, 24)
    }

    pub fn set_reset_complete_host_circuit(self, value: u32) -> (r: Self)
        ensures
            r.value == with_field32(self.value, 24, 24, value),
    {
        Control1 { value: set_field32(self.value, 24, 24, value) }
    }

    pub fn get_srst_cmd(self) -> (r: u32)
        ensures
            r == field32(self.value, 25, 25),
    {
        get_field32(self.value, 25, 25)
    }

    pub fn set_srst_cmd(self, value: u32) -> (r: Self)
        ensures
            r.value == with_field32(self.value, 25, 25, value),
    {
        Control1 { value: set_field32(self.value, 25, 25, value) }
    }

    pub fn get_srst_data(self) -> (r: u32)
        ensures
            r == field32(self.value, 26, 26),
    {
        get_field32(self.value, 26, 26)
    }

    pub fn set_srst_data(self, value: u32) -> (r: Self)
        ensures
            r.value == with_field32(self.value, 26, 26, value),
    {
        Control1 { value: set_field32(self.value, 26, 26, value) }
    }

    pub fn as_u32(&self) -> (r: u32)
        ensures
            r == self.value,
    {
        self.value
    }

}

/// Interrupt flags, and the masks and enables that share their layout.
#[derive(Copy, Clone, Debug, PartialEq, Eq, Structural)]
pub struct Interrupt {
    pub value: u32,
}

impl Interrupt {
    pub fn get_command_done(self) -> (r: u32)
        ensures
            r == field32(self.value, 0, 0),
    {
        get_field32(self.value, 0, 0)
    }

    pub fn set_command_done(self, value: u32) -> (r: Self)
        ensures
            r.value == with_field32(self.value, 0, 0, value),
    {
        Interrupt { value: set_field32(self.value, 0, 0, value) }
    }

    pub fn get_data_done(self) -> (r: u32)
        ensures
            r == field32(self.value, 1, 1),
    {
        get_field32(self.value, 1, 1)
    }

    pub fn set_data_done(self, value: u32) -> (r: Self)
        ensures
            r.value == with_field32(self.value, 1, 1, value),
    {
        Interrupt { value: set_field32(self.value, 1, 1, value) }
    }

    pub fn get_block_gap(self) -> (r: u32)
        ensures
            r == field32(self.value, 2, 2),
    {
        get_field32(self.value, 2, 2)
    }

    pub fn set_block_gap(self, value: u32) -> (r: Self)
        ensures
            r.value == with_field32(self.value, 2, 2, value),
    {
        Interrupt { value: set_field32(self.value, 2, 2, value) }
    }

    pub fn get_write_ready(self) -> (r: u32)
        ensures
            r == field32(self.value, 4, 4),
    {
        get_field32(self.value, 4, 4)
    }

    pub fn set_write_ready(self, value: u32) -> (r: Self)
        ensures
            r.value == with_field32(self.value, 4, 4, value),
    {
        Interrupt { value: set_field32(self.value, 4, 4, value) }
    }

    pub fn get_read_ready(self) -> (r: u32)
        ensures
            r == field32(self.value, 5, 5),
    {
        get_field32(self.value, 5, 5)
    }

    pub fn set_read_ready(self, value: u32) -> (r: Self)
        ensures
            r.value == with_field32(self.value, 5, 5, value),
    {
        Interrupt { value: set_field32(self.value, 5, 5, value) }
    }

    pub fn get_card(self) -> (r: u32)
        ensures
            r == field32(self.value, 8, 8),
    {
        get_field32(self.value, 8, 8)
    }

    pub fn set_card(self, value: u32) -> (r: Self)
        ensures
            r.value == with_field32(self.value, 8, 8, value),
    {
        Interrupt { value: set_field32(self.value, 8, 8, value) }
    }

    pub fn get_retune(self) -> (r: u32)
        ensures
            r == field32(self.value, 12, 12),
    {
        get_field32(self.value, 12, 12)
    }

    pub fn set_retune(self, value: u32) -> (r: Self)
        ensures
            r.value == with_field32(self.value, 12, 12, value),
    {
        Interrupt { value: set_field32(self.value, 12, 12, value) }
    }

    pub fn get_bootack(self) -> (r: u32)
        ensures
            r == field32(self.value, 13, 13),
    {
        get_field32(self.value, 13, 13)
    }

    pub fn set_bootack(self, value: u32) -> (r: Self)
        ensures
            r.value == with_field32(self.value, 13, 13, value),
    {
        Interrupt { value: set_field32(self.value, 13, 13, value) }
    }

    pub fn get_end_boot(self) -> (r: u32)
        ensures
            r == field32(self.value, 14, 14),
    {
        get_field32(self.value, 14, 14)
    }

    pub fn set_end_boot(self, value: u32) -> (r: Self)
        ensures
            r.value == with_field32(self.value, 14, 14, value),
    {
        Interrupt { value: set_field32(self.value, 14, 14, value) }
    }

    pub fn get_error(self) -> (r: u32)
        ensures
            r == field32(self.value, 15, 15),
    {
        get_field32(self.value, 15, 15)
    }

    pub fn set_error(self, value: u32) -> (r: Self)
        ensures
            r.value == with_field32(self.value, 15, 15, value),
    {
        Interrupt { value: set_field32(self.value, 15, 15, value) }
    }

    pub fn get_command_timeout_error(self) -> (r: u32)
        ensures
            r == field32(self.value, 16, 16),
    {
        get_field32(self.value, 16, 16)
    }

    pub fn set_command_timeout_error(self, value: u32) -> (r: Self)
        ensures
            r.value == with_field32(self.value, 16, 16, value),
    {
        Interrupt { value: set_field32(self.value, 16, 16, value) }
    }

    pub fn get_ccrc_err(self) -> (r: u32)
        ensures
            r == field32(self.value, 17, 17),
    {
        get_field32(self.value, 17, 17)
    }

    pub fn set_ccrc_err(self, value: u32) -> (r: Self)
        ensures
            r.value == with_field32(self.value, 17, 17, value),
    {
        Interrupt { value: set_field32(self.value, 17, 17, value) }
    }

    pub fn get_cend_err(self) -> (r: u32)
        ensures
            r == field32(self.value, 18, 18),
    {
        get_field32(self.value, 18, 18)
    }

    pub fn set_cend_err(self, value: u32) -> (r: Self)
        ensures
            r.value == with_field32(self.value, 18, 18, value),
    {
        Interrupt { value: set_field32(self.value, 18, 18, value) }
    }

    pub fn get_cbad_err(self) -> (r: u32)
        ensures
            r == field32(self.value, 19, 19),
    {
        get_field32(self.value, 19, 19)
    }

    pub fn set_cbad_err(self, value: u32) -> (r: Self)
        ensures
            r.value == with_field32(self.value, 19, 19, value),
    {
        Interrupt { value: set_field32(self.value, 19, 19, value) }
    }

    pub fn get_data_timeout_error(self) -> (r: u32)
        ensures
            r == field32(self.value, 20, 20),
    {
        get_field32(self.value, 20, 20)
    }

    pub fn set_data_timeout_error(self, value: u32) -> (r: Self)
        ensures
            r.value == with_field32(self.value, 20, 20, value),
    {
        Interrupt { value: set_field32(self.value, 20, 20, value) }
    }

    pub fn get_dcrc_err(self) -> (r: u32)
        ensures
            r == field32(self.value, 21, 21),
    {
        get_field32(self.value, 21, 21)
    }

    pub fn set_dcrc_err(self, value: u32) -> (r: Self)
        ensures
            r.value == with_field32(self.value, 21, 21, value),
    {
        Interrupt { value: set_field32(self.value, 21, 21, value) }
    }

    pub fn get_dend_err(self) -> (r: u32)
        ensures
            r == field32(self.value, 22, 22),
    {
        get_field32(self.value, 22, 22)
    }

    pub fn set_dend_err(self, value: u32) -> (r: Self)
        ensures
            r.value == with_field32(self.value, 22, 22, value),
    {
        Interrupt { value: set_field32(self.value, 22, 22, value) }
    }

    pub fn get_acmd_err(self) -> (r: u32)
        ensures
            r == field32(self.value, 24, 24),
    {
        get_field32(self.value, 24, 24)
    }

    pub fn set_acmd_err(self, value: u32) -> (r: Self)
        ensures
            r.value == with_field32(self.value, 24, 24, value),
    {
        Interrupt { value: set_field32(self.value, 24, 24, value) }
    }

    pub fn new() -> (r: Self)
        ensures
            r.value == 0,
    {
        Interrupt { value: 0 }
    }

    pub fn as_u32(&self) -> (r: u32)
        ensures
            r == self.value,
    {
        self.value
    }

    /// The error flags that are set.
    pub fn get_interrupt_error_status(&self) -> (r: u32)
        ensures
            r == self.value & INTERRUPT_ERROR_MASK,
    {
        self.value & INTERRUPT_ERROR_MASK
    }

    /// This value with the flags of `value` set as well.
    pub fn set_interrupt_error_status(&self, value: u32) -> (r: Self)
        ensures
            r.value == self.value | value,
    {
        Interrupt { value: self.value | value }
    }

    /// Whether any error flag is set.
    pub fn is_err(&self) -> (r: bool)
        ensures
            r == (self.value & INTERRUPT_ERROR_MASK != 0),
    {
        self.get_interrupt_error_status() != 0
    }

    /// Whether the interrupt of the given type has fired.
    pub fn is_interrupt_triggered(&self, interrupt_type: InterruptType) -> (r: bool)
        ensures
            r == (field32(self.value, interrupt_type.bit(), interrupt_type.bit()) == 1),
    {
        match interrupt_type {
            InterruptType::CommandDone => self.get_command_done() == 1,
            InterruptType::ReadReady => self.get_read_ready() == 1,
        }
    }

    /// This value with the flag of the given interrupt type set.
    pub fn set_interrupt_mask(&self, interrupt_type: InterruptType) -> (r: Self)
        ensures
            r.value == with_field32(self.value, interrupt_type.bit(), interrupt_type.bit(), 1),
    {
        match interrupt_type {
            InterruptType::CommandDone => self.set_command_done(1),
            InterruptType::ReadReady => self.set_read_ready(1),
        }
    }

    pub fn is_command_done(&self) -> (r: bool)
        ensures
            r == (field32(self.value, 0, 0) != 0),
    {
        self.get_command_done() != 0
    }

    pub fn is_command_timeout_error(&self) -> (r: bool)
        ensures
            r == (field32(self.value, 16, 16) != 0),
    {
        self.get_command_timeout_error() != 0
    }

    pub fn is_data_timeout_error(&self) -> (r: bool)
        ensures
            r == (field32(self.value, 20, 20) != 0),
    {
        self.get_data_timeout_error() != 0
    }

}

/// Host configuration register 2.
#[derive(Copy, Clone, Debug, PartialEq, Eq, Structural)]
pub struct Control2 {
    pub value: u32,
}

impl Control2 {
    pub fn get_acnox_err(self) -> (r: u32)
        ensures
            r == field32(self.value, 0, 0),
    {
        get_field32(self.value, 0, 0)
    }

    pub fn set_acnox_err(self, value: u32) -> (r: Self)
        ensures
            r.value == with_field32(self.value, 0, 0, value),
    {
        Control2 { value: set_field32(self.value, 0, 0, value) }
    }

    pub fn get_acto_err(self) -> (r: u32)
        ensures
            r == field32(self.value, 1, 1),
    {
        get_field32(self.value, 1, 1)
    }

    pub fn set_acto_err(self, value: u32) -> (r: Self)
        ensures
            r.value == with_field32(self.value, 1, 1, value),
    {
        Control2 { value: set_field32(self.value, 1, 1, value) }
    }

    pub fn get_accrc_err(self) -> (r: u32)
        ensures
            r == field32(self.value, 2, 2),
    {
        get_field32(self.value, 2, 2)
    }

    pub fn set_accrc_err(self, value: u32) -> (r: Self)
        ensures
            r.value == with_field32(self.value, 2, 2, value),
    {
        Control2 { value: set_field32(self.value, 2, 2, value) }
    }

    pub fn get_acend_err(self) -> (r: u32)
        ensures
            r == field32(self.value, 3, 3),
    {
        get_field32(self.value, 3, 3)
    }

    pub fn set_acend_err(self, value: u32) -> (r: Self)
        ensures
            r.value == with_field32(self.value, 3, 3, value),
    {
        Control2 { value: set_field32(self.value, 3, 3, value) }
    }

    pub fn get_acbad_err(self) -> (r: u32)
        ensures
            r == field32(self.value, 4, 4),
    {
        get_field32(self.value, 4, 4)
    }

    pub fn set_acbad_err(self, value: u32) -> (r: Self)
        ensures
            r.value == with_field32(self.value, 4, 4, value),
    {
        Control2 { value: set_field32(self.value, 4, 4, value) }
    }

    pub fn get_notc12_err(self) -> (r: u32)
        ensures
            r == field32(self.value, 7, 7),
    {
        get_field32(self.value, 7, 7)
    }

    pub fn set_notc12_err(self, value: u32) -> (r: Self)
        ensures
            r.value == with_field32(self.value, 7, 7, value),
    {
        Control2 { value: set_field32(self.value, 7, 7, value) }
    }

    pub fn get_uhsmode(self) -> (r: u32)
        ensures
            r == field32(self.value, 16, 18),
    {
        get_field32(self.value, 16, 18)
    }

    pub fn set_uhsmode(self, value: u32) -> (r: Self)
        ensures
            r.value == with_field32(self.value, 16, 18, value),
    {
        Control2 { value: set_field32(self.value, 16, 18, value) }
    }

    pub fn get_tuneon(self) -> (r: u32)
        ensures
            r == field32(self.value, 22, 22),
    {
        get_field32(self.value, 22, 22)
    }

    pub fn set_tuneon(self, value: u32) -> (r: Self)
        ensures
            r.value == with_field32(self.value, 22, 22, value),
    {
        Control2 { value: set_field32(self.value, 22, 22, value) }
    }

    pub fn get_tuned(self) -> (r: u32)
        ensures
            r == field32(self.value, 23, 23),
    {
        get_field32(self.value, 23, 23)
    }

    pub fn set_tuned(self, value: u32) -> (r: Self)
        ensures
            r.value == with_field32(self.value, 23, 23, value),
    {
        Control2 { value: set_field32(self.value, 23, 23, value) }
    }

}

/// Debug bus selection.
#[derive(Copy, Clone, Debug, PartialEq, Eq, Structural)]
pub struct DebugSelect {
    pub value: u32,
}

impl DebugSelect {
    pub fn get_select(self) -> (r: u32)
        ensures
            r == field32(self.value, 0, 0),
    {
        get_field32(self.value, 0, 0)
    }

    pub fn set_select(self, value: u32) -> (r: Self)
        ensures
            r.value == with_field32(self.value, 0, 0, value),
    {
        DebugSelect { value: set_field32(self.value, 0, 0, value) }
    }

}

/// Read FIFO threshold.
#[derive(Copy, Clone, Debug, PartialEq, Eq, Structural)]
pub struct ExrdfifoCfg {
    pub value: u32,
}

impl ExrdfifoCfg {
    pub fn get_rd_thrsh(self) -> (r: u32)
        ensures
            r == field32(self.value, 0, 2),
    {
        get_field32(self.value, 0, 2)
    }

    pub fn set_rd_thrsh(self, value: u32) -> (r: Self)
        ensures
            r.value == with_field32(self.value, 0, 2, value),
    {
        ExrdfifoCfg { value: set_field32(self.value, 0, 2, value) }
    }

}

/// Read FIFO enable.
#[derive(Copy, Clone, Debug, PartialEq, Eq, Structural)]
pub struct ExrdfifoEn {
    pub value: u32,
}

impl ExrdfifoEn {
    pub fn get_enable(self) -> (r: u32)
        ensures
            r == field32(self.value, 0, 0),
    {
        get_field32(self.value, 0, 0)
    }

    pub fn set_enable(self, value: u32) -> (r: Self)
        ensures
            r.value == with_field32(self.value, 0, 0, value),
    {
        ExrdfifoEn { value: set_field32(self.value, 0, 0, value) }
    }

}

/// Sample clock delay step.
#[derive(Copy, Clone, Debug, PartialEq, Eq, Structural)]
pub struct TuneStep {
    pub value: u32,
}

impl TuneStep {
    pub fn get_delay(self) -> (r: u32)
        ensures
            r == field32(self.value, 0, 2),
    {
        get_field32(self.value, 0, 2)
    }

    pub fn set_delay(self, value: u32) -> (r: Self)
        ensures
            r.value == with_field32(self.value, 0, 2, value),
    {
        TuneStep { value: set_field32(self.value, 0, 2, value) }
    }

}

/// Tuning steps at single data rate.
#[derive(Copy, Clone, Debug, PartialEq, Eq, Structural)]
pub struct TuneStepsStd {
    pub value: u32,
}

impl TuneStepsStd {
    pub fn get_steps(self) -> (r: u32)
        ensures
            r == field32(self.value, 0, 5),
    {
        get_field32(self.value, 0, 5)
    }

    pub fn set_steps(self, value: u32) -> (r: Self)
        ensures
            r.value == with_field32(self.value, 0, 5, value),
    {
        TuneStepsStd { value: set_field32(self.value, 0, 5, value) }
    }

}

/// Tuning steps at double data rate.
#[derive(Copy, Clone, Debug, PartialEq, Eq, Structural)]
pub struct TuneStepsDdr {
    pub value: u32,
}

impl TuneStepsDdr {
    pub fn get_steps(self) -> (r: u32)
        ensures
            r == field32(self.value, 0, 5),
    {
        get_field32(self.value, 0, 5)
    }

    pub fn set_steps(self, value: u32) -> (r: Self)
        ensures
            r.value == with_field32(self.value, 0, 5, value),
    {
        TuneStepsDdr { value: set_field32(self.value, 0, 5, value) }
    }

}

/// Interrupts supported in SPI mode.
#[derive(Copy, Clone, Debug, PartialEq, Eq, Structural)]
pub struct SpiIntSpt {
    pub value: u32,
}

impl SpiIntSpt {
    pub fn get_select(self) -> (r: u32)
        ensures
            r == field32(self.value, 0, 7),
    {
        get_field32(self.value, 0, 7)
    }

    pub fn set_select(self, value: u32) -> (r: Self)
        ensures
            r.value == with_field32(self.value, 0, 7, value),
    {
        SpiIntSpt { value: set_field32(self.value, 0, 7, value) }
    }

}

/// Slot interrupt status and controller version.
#[derive(Copy, Clone, Debug, PartialEq, Eq, Structural)]
pub struct SlotInterruptStatusAndVersion {
    pub value: u32,
}

impl SlotInterruptStatusAndVersion {
    pub fn get_vendor_version_number(self) -> (r: u32)
        ensures
            r == field32(self.value, 24, 31),
    {
        get_field32(self.value, 24, 31)
    }

    pub fn set_vendor_version_number(self, value: u32) -> (r: Self)
        ensures
            r.value == with_field32(self.value, 24, 31, value),
    {
        SlotInterruptStatusAndVersion { value: set_field32(self.value, 24, 31, value) }
    }

    pub fn get_host_controller_specification_version(self) -> (r: u32)
        ensures
            r == field32(self.value, 16, 23),
    {
        get_field32(self.value, 16, 23)
    }

    pub fn set_host_controller_specification_version(self, value: u32) -> (r: Self)
        ensures
            r.value == with_field32(self.value, 16, 23, value),
    {
        SlotInterruptStatusAndVersion { value: set_field32(self.value, 16, 23, value) }
    }

    pub fn get_slot_status(self) -> (r: u32)
        ensures
            r == field32(self.value, 0, 7),
    {
        get_field32(self.value, 0, 7)
    }

    pub fn set_slot_status(self, value: u32) -> (r: Self)
        ensures
            r.value == with_field32(self.value, 0, 7, value),
    {
        SlotInterruptStatusAndVersion { value: set_field32(self.value, 0, 7, value) }
    }

}

/// The card's SD configuration register (SCR), read as two words.
#[derive(Copy, Clone, Debug, PartialEq, Eq, Structural)]
pub struct SDConfigurationRegister {
    pub value: u64,
}

impl SDConfigurationRegister {
    pub fn get_command_support_bits(self) -> (r: u64)
        ensures
            r == field64(self.value, 32, 35),
    {
        get_field64(self.value, 32, 35)
    }

    pub fn set_command_support_bits(self, value: u64) -> (r: Self)
        ensures
            r.value == with_field64(self.value, 32, 35, value),
    {
        SDConfigurationRegister { value: set_field64(self.value, 32, 35, value) }
    }

    pub fn get_spec_version_4_or_higher(self) -> (r: u64)
        ensures
            r == field64(self.value, 42, 42),
    {
        get_field64(self.value, 42, 42)
    }

    pub fn set_spec_version_4_or_higher(self, value: u64) -> (r: Self)
        ensures
            r.value == with_field64(self.value, 42, 42, value),
    {
        SDConfigurationRegister { value: set_field64(self.value, 42, 42, value) }
    }

    pub fn get_extended_security_support(self) -> (r: u64)
        ensures
            r == field64(self.value, 43, 46),
    {
        get_field64(self.value, 43, 46)
    }

    pub fn set_extended_security_support(self, value: u64) -> (r: Self)
        ensures
            r.value == with_field64(self.value, 43, 46, value),
    {
        SDConfigurationRegister { value: set_field64(self.value, 43, 46, value) }
    }

    pub fn get_spec_version_3_or_higher(self) -> (r: u64)
        ensures
            r == field64(self.value, 47, 47),
    {
        get_field64(self.value, 47, 47)
    }

    pub fn set_spec_version_3_or_higher(self, value: u64) -> (r: Self)
        ensures
            r.value == with_field64(self.value, 47, 47, value),
    {
        SDConfigurationRegister { value: set_field64(self.value, 47, 47, value) }
    }

    pub fn get_dat_bus_widths_supported(self) -> (r: u64)
        ensures
            r == field64(self.value, 48, 51),
    {
        get_field64(self.value, 48, 51)
    }

    pub fn set_dat_bus_widths_supported(self, value: u64) -> (r: Self)
        ensures
            r.value == with_field64(self.value, 48, 51, value),
    {
        SDConfigurationRegister { value: set_field64(self.value, 48, 51, value) }
    }

    pub fn get_cprm_security_support(self) -> (r: u64)
        ensures
            r == field64(self.value, 52, 54),
    {
        get_field64(self.value, 52, 54)
    }

    pub fn set_cprm_security_support(self, value: u64) -> (r: Self)
        ensures
            r.value == with_field64(self.value, 52, 54, value),
    {
        SDConfigurationRegister { value: set_field64(self.value, 52, 54, value) }
    }

    pub fn get_data_status_after_erases(self) -> (r: u64)
        ensures
            r == field64(self.value, 55, 55),
    {
        get_field64(self.value, 55, 55)
    }

    pub fn set_data_status_after_erases(self, value: u64) -> (r: Self)
        ensures
            r.value == with_field64(self.value, 55, 55, value),
    {
        SDConfigurationRegister { value: set_field64(self.value, 55, 55, value) }
    }

    pub fn get_sd_card_spec_version(self) -> (r: u64)
        ensures
            r == field64(self.value, 56, 59),
    {
        get_field64(self.value, 56, 59)
    }

    pub fn set_sd_card_spec_version(self, value: u64) -> (r: Self)
        ensures
            r.value == with_field64(self.value, 56, 59, value),
    {
        SDConfigurationRegister { value: set_field64(self.value, 56, 59, value) }
    }

    pub fn get_support_set_block_count(self) -> (r: u64)
        ensures
            r == field64(self.value, 57, 57),
    {
        get_field64(self.value, 57, 57)
    }

    pub fn set_support_set_block_count(self, value: u64) -> (r: Self)
        ensures
            r.value == with_field64(self.value, 57, 57, value),
    {
        SDConfigurationRegister { value: set_field64(self.value, 57, 57, value) }
    }

    pub fn get_scr_structure(self) -> (r: u64)
        ensures
            r == field64(self.value, 60, 63),
    {
        get_field64(self.value, 60, 63)
    }

    pub fn set_scr_structure(self, value: u64) -> (r: Self)
        ensures
            r.value == with_field64(self.value, 60, 63, value),
    {
        SDConfigurationRegister { value: set_field64(self.value, 60, 63, value) }
    }

    pub fn uninitialized() -> (r: Self)
        ensures
            r.value == 0,
    {
        SDConfigurationRegister { value: 0 }
    }

    /// The register whose high word is `values[0]` and low word `values[1]`.
    pub fn from_array(values: [u32; 2]) -> (r: Self)
        ensures
            r.value == values@[0] as int * 0x1_0000_0000 + values@[1] as int,
    {
        let high = values[0] as u64;
        let low = values[1] as u64;
        SDConfigurationRegister { value: high * 0x1_0000_0000 + low }
    }

}

/// The card's answer to the operating conditions command.
#[derive(Copy, Clone, Debug, PartialEq, Eq, Structural)]
pub struct ACMD41Response {
    pub value: u32,
}

impl ACMD41Response {
    pub fn get_command_support_bits(self) -> (r: u32)
        ensures
            r == field32(self.value, 30, 30),
    {
        get_field32(self.value, 30, 30)
    }

    pub fn set_command_support_bits(self, value: u32) -> (r: Self)
        ensures
            r.value == with_field32(self.value, 30, 30, value),
    {
        ACMD41Response { value: set_field32(self.value, 30, 30, value) }
    }

    pub fn get_complete(self) -> (r: u32)
        ensures
            r == field32(self.value, 31, 31),
    {
        get_field32(self.value, 31, 31)
    }

    pub fn set_complete(self, value: u32) -> (r: Self)
        ensures
            r.value == with_field32(self.value, 31, 31, value),
    {
        ACMD41Response { value: set_field32(self.value, 31, 31, value) }
    }

    pub fn get_voltage(self) -> (r: u32)
        ensures
            r == field32(self.value, 15, 23),
    {
        get_field32(self.value, 15, 23)
    }

    pub fn set_voltage(self, value: u32) -> (r: Self)
        ensures
            r.value == with_field32(self.value, 15, 23, value),
    {
        ACMD41Response { value: set_field32(self.value, 15, 23, value) }
    }

    pub fn from(value: u32) -> (r: Self)
        ensures
            r.value == value,
    {
        ACMD41Response { value }
    }

    pub fn empty() -> (r: Self)
        ensures
            r.value == 0,
    {
        ACMD41Response { value: 0 }
    }

}

/// Settings learned while bringing up a card.
#[derive(Copy, Clone, Debug)]
pub struct EMMCConfiguration {
    pub configuration: SDConfigurationRegister,
    pub relative_card_address: u32,
    pub hardware_version: u32,
}

impl EMMCConfiguration {
    /// Settings before any card is known.
    pub fn new() -> (r: Self)
        ensures
            r.configuration.value == 0,
            r.relative_card_address == 0,
            r.hardware_version == 0,
    {
        EMMCConfiguration {
            configuration: SDConfigurationRegister::uninitialized(),
            relative_card_address: 0,
            hardware_version: 0,
        }
    }
}

// ---------------------------------------------------------------- clock divider

/// Index of the highest set bit of a non-zero `x`.
pub open spec fn highest_bit(x: u32) -> u32 {
    choose|k: u32| k < 32 && (x >> k) == 1u32
}

/// The power of two the controller divides its base clock by before
/// version 3 of the host specification: the highest bit of `c - 1`, at most 7.
pub open spec fn divider_shift(c: u32) -> u32 {
    if c <= 1 {
        0
    } else {
        let k = highest_bit((c - 1) as u32);
        if k > 7 {
            7
        } else {
            k
        }
    }
}

/// The divider bits of control register 1 for a card clock of `f` Hz from the
/// 41.666666 MHz base clock: `c = 41666666 / f`; controllers after version 2
/// divide by `c` (ten bits), older ones by the power of two `1 << divider_shift(c)`;
/// a divider of two or less becomes two. The low eight bits go to bits 8..15,
/// the upper two (newer controllers only) to bits 6..7.
pub open spec fn clock_divider(f: u32, version: u32) -> u32 {
    let c = (41666666u32 / f) as u32;
    let d0: u32 = if version > HOST_SPEC_V2 {
        c
    } else {
        (1u32 << divider_shift(c)) as u32
    };
    let d: u32 = if d0 <= 2 {
        2
    } else {
        d0
    };
    let h: u32 = if version > HOST_SPEC_V2 {
        ((d & 0x300u32) >> 2u32) as u32
    } else {
        0
    };
    (((d & 0xffu32) << 8u32) as u32 | h) as u32
}

/// One step of the search for the highest set bit: if the top `k` bits of
/// `x` are clear it shifts them out.
proof fn lemma_normalize_step(x0: u32, x: u32, s: u32, k: u32, pm: u32, x2: u32, s2: u32)
    by (bit_vector)
    requires
        x0 != 0,
        1 <= s <= 32,
        x == x0 << ((32 - s) as u32),
        (x0 as u64) < (1u64 << (s as u64)),
        1 <= k <= 16,
        (k == 16 && pm == 0xffff_ffffu32) || (k < 16 && pm == !(0xffff_ffffu32 >> ((2 * k) as u32))),
        x & pm != 0,
        (x & !(0xffff_ffffu32 >> k)) == 0 ==> (x2 == x << k && s2 == s - k),
        (x & !(0xffff_ffffu32 >> k)) != 0 ==> (x2 == x && s2 == s),
    ensures
        1 <= s2 <= 32,
        x2 == x0 << ((32 - s2) as u32),
        (x0 as u64) < (1u64 << (s2 as u64)),
        x2 & !(0xffff_ffffu32 >> k) != 0,
{
}

/// When the search ends with the top bit set, `s - 1` is the highest bit.
proof fn lemma_normalize_done(x0: u32, x: u32, s: u32)
    by (bit_vector)
    requires
        x0 != 0,
        1 <= s <= 32,
        x == x0 << ((32 - s) as u32),
        (x0 as u64) < (1u64 << (s as u64)),
        x & 0x8000_0000u32 != 0,
    ensures
        x0 >> ((s - 1) as u32) == 1u32,
{
}

/// A word has one highest bit.
proof fn lemma_highest_bit_unique(x: u32, j: u32, k: u32)
    by (bit_vector)
    requires
        j < 32,
        k < 32,
        x >> j == 1u32,
        x >> k == 1u32,
    ensures
        j == k,
{
}

/// Number of bits needed to write the non-zero `x`, found by halving search.
fn bit_length(x: u32) -> (s: u32)
    requires
        x != 0,
    ensures
        1 <= s <= 32,
        x >> ((s - 1) as u32) == 1u32,
        highest_bit(x) == s - 1,
{
    let x0 = x;
    let mut x = x;
    let mut s: u32 = 32;
    proof {
        assert(x0 == x0 << 0u32 && (x0 as u64) < (1u64 << 32u64) && x0 & 0xffff_ffffu32 != 0)
            by (bit_vector)
            requires
                x0 != 0,
        ;
        assert(!(0xffff_ffffu32 >> 16u32) == 0xffff_0000u32 && !(0xffff_ffffu32 >> 8u32)
            == 0xff00_0000u32 && !(0xffff_ffffu32 >> 4u32) == 0xf000_0000u32 && !(0xffff_ffffu32
            >> 2u32) == 0xc000_0000u32 && !(0xffff_ffffu32 >> 1u32) == 0x8000_0000u32)
            by (bit_vector);
    }
    let ghost (gx, gs) = (x, s);
    if (x & 0xffff_0000) == 0 {
        x = x << 16;
        s = s - 16;
    }
    proof {
        lemma_normalize_step(x0, gx, gs, 16, 0xffff_ffff, x, s);
    }
    let ghost (gx, gs) = (x, s);
    if (x & 0xff00_0000) == 0 {
        x = x << 8;
        s = s - 8;
    }
    proof {
        lemma_normalize_step(x0, gx, gs, 8, 0xffff_0000, x, s);
    }
    let ghost (gx, gs) = (x, s);
    if (x & 0xf000_0000) == 0 {
        x = x << 4;
        s = s - 4;
    }
    proof {
        lemma_normalize_step(x0, gx, gs, 4, 0xff00_0000, x, s);
    }
    let ghost (gx, gs) = (x, s);
    if (x & 0xc000_0000) == 0 {
        x = x << 2;
        s = s - 2;
    }
    proof {
        lemma_normalize_step(x0, gx, gs, 2, 0xf000_0000, x, s);
    }
    let ghost (gx, gs) = (x, s);
    if (x & 0x8000_0000) == 0 {
        x = x << 1;
        s = s - 1;
    }
    proof {
        lemma_normalize_step(x0, gx, gs, 1, 0xc000_0000, x, s);
        lemma_normalize_done(x0, x, s);
        let k = highest_bit(x0);
        assert(exists|j: u32| j < 32 && (x0 >> j) == 1u32) by {
            assert(((s - 1) as u32) < 32 && (x0 >> ((s - 1) as u32)) == 1u32);
        }
        lemma_highest_bit_unique(x0, k, (s - 1) as u32);
    }
    s
}

/// The divider bits for a card clock of `f` Hz on a controller of the given
/// specification version.
pub fn clock_divider_for(f: u32, hardware_version: u32) -> (d: u32)
    requires
        1 <= f <= 41666666,
    ensures
        d == clock_divider(f, hardware_version),
{
    let c = 41666666 / f;
    assert(c >= 1) by (nonlinear_arith)
        requires
            1 <= f <= 41666666,
            c == 41666666u32 / f,
    ;
    let mut s: u32;
    let x = c - 1;
    if x == 0 {
        s = 0;
    } else {
        s = bit_length(x);
        if s > 0 {
            s = s - 1;
        }
        if s > 7 {
            s = 7;
        }
    }
    proof {
        assert(s == divider_shift(c));
    }
    let mut d: u32;
    if hardware_version > HOST_SPEC_V2 {
        d = c;
    } else {
        d = 1 << s;
    }
    if d <= 2 {
        d = 2;
    }
    let mut h: u32 = 0;
    if hardware_version > HOST_SPEC_V2 {
        h = (d & 0x300) >> 2;
    }
    ((d & 0x0ff) << 8) | h
}

// ---------------------------------------------------------------- registers

/// The controller's register block.
pub struct EMMCRegisters {
    pub arg2: Volatile<u32>,
    pub block_size_and_count: Volatile<BlockSizeAndCount>,
    pub arg1: Volatile<u32>,
    pub command: Volatile<SDCommand>,
    pub resp0: Volatile<u32>,
    pub resp1: Volatile<u32>,
    pub resp2: Volatile<u32>,
    pub resp3: Volatile<u32>,
    pub data: Volatile<u32>,
    pub status: Volatile<Status>,
    pub control0: Volatile<Control0>,
    pub control1: Volatile<Control1>,
    pub interrupt: Volatile<Interrupt>,
    pub irpt_mask: Volatile<Interrupt>,
    pub irpt_en: Volatile<Interrupt>,
    pub control2: Volatile<u32>,
    pub force_irpt: Volatile<Interrupt>,
    pub boot_timeout: Volatile<u32>,
    pub dbg_sgl: Volatile<DebugSelect>,
    pub exrdfifo_cfg: Volatile<ExrdfifoCfg>,
    pub exrdfifo_en: Volatile<ExrdfifoEn>,
    pub tune_step: Volatile<TuneStep>,
    pub tune_steps_std: Volatile<TuneStepsStd>,
    pub tune_steps_ddr: Volatile<TuneStepsDdr>,
    pub spi_int_spt: Volatile<SpiIntSpt>,
    pub slotisr_ver: Volatile<SlotInterruptStatusAndVersion>,
}

/// The interrupt word has an error flag set.
pub open spec fn interrupt_error(v: u32) -> bool {
    v & INTERRUPT_ERROR_MASK != 0
}

/// The status flag `s` is set in the status word `v`.
pub open spec fn status_set(v: u32, s: StatusSetting) -> bool {
    field32(v, s.bit(), s.bit()) != 0
}

/// The value `parse_response` takes from the card's answer to `command`
/// (the response word, the other response registers and the argument sent).
pub open spec fn parsed_response(
    response: u32,
    resp1: u32,
    resp2: u32,
    resp3: u32,
    command: u32,
    argument: u32,
) -> Result<u32, ()> {
    if command == GO_IDLE || command == APPLICATION_SPECIFIC_COMMAND {
        Ok(0)
    } else if command == APPLICATION_SPECIFIC_COMMAND_48 {
        Ok(response & 0x20)
    } else if command == SEND_OP_COND {
        Ok(response)
    } else if command == SEND_INTERFACE_CONDITIONS {
        if response == argument {
            Ok(0)
        } else {
            Err(())
        }
    } else if command == SEND_CARD_IDENTIFICATION {
        Ok(response | resp3 | resp2 | resp1)
    } else if command == SEND_RELATIVE_ADDRESS {
        Ok(response & RCA_MASK)
    } else {
        Ok(response & ERRORS_MASK)
    }
}

/// The value the card's answer to `command` gives: `response` is the first
/// response register, `more` the other three.
pub fn parse_answer(response: u32, more: [u32; 3], command: SDCommand, argument: u32) -> (r: Result<u32, &'static str>)
    ensures
        ({
            let p = parsed_response(
                response,
                more@[0],
                more@[1],
                more@[2],
                command.value,
                argument,
            );
            &&& r is Ok <==> p is Ok
            &&& r matches Ok(v) ==> p == Ok::<u32, ()>(v)
            &&& p is Err ==> r == Err::<u32, &'static str>("?")
        }),
{
    let c = command.value;
    if c == GO_IDLE || c == APPLICATION_SPECIFIC_COMMAND {
        return Ok(0);
    } else if c == APPLICATION_SPECIFIC_COMMAND_48 {
        return Ok(response & StatusSetting::AppCommand.as_u32());
    } else if c == SEND_OP_COND {
        return Ok(response);
    } else if c == SEND_INTERFACE_CONDITIONS {
        if response == argument {
            return Ok(0);
        } else {
            return Err("?");
        }
    } else if c == SEND_CARD_IDENTIFICATION {
        let response = response | more[2] | more[1] | more[0];
        return Ok(response);
    } else if c == SEND_RELATIVE_ADDRESS {
        return Ok(response & RCA_MASK);
    }
    Ok(response & ERRORS_MASK)
}

/// One look at the interrupt word `interrupt` while waiting for the
/// interrupt `t`: `None` while it has not fired. Once it has, the word to
/// write back and the outcome: with an error or time-out flag, the word
/// itself and an error; otherwise only `t`'s flag, and success.
pub fn interrupt_poll(interrupt: Interrupt, t: InterruptType) -> (r: Option<(Interrupt, Result<(), &'static str>)>)
    ensures
        ({
            let v = interrupt.value;
            let fired = field32(v, t.bit(), t.bit()) == 1;
            let failed = field32(v, 16, 16) != 0 || field32(v, 20, 20) != 0 || interrupt_error(v);
            &&& !fired ==> r is None
            &&& fired && failed ==> r == Some((interrupt, Err::<(), &'static str>("Error in interrupt")))
            &&& fired && !failed ==> (r matches Some((w, outcome)) && outcome is Ok && w.value
                == with_field32(0, t.bit(), t.bit(), 1))
        }),
{
    if interrupt.is_interrupt_triggered(t) {
        if interrupt.is_command_timeout_error() || interrupt.is_data_timeout_error() || interrupt.is_err() {
            Some((interrupt, Err("Error in interrupt")))
        } else {
            Some((Interrupt::new().set_interrupt_mask(t), Ok(())))
        }
    } else {
        None
    }
}

impl EMMCRegisters {
    /// A register block with every register zero.
    pub fn zeroed() -> (r: Self)
        ensures
            r.status@.value == 0,
            r.interrupt@.value == 0,
            r.control0@.value == 0,
            r.control1@.value == 0,
    {
        EMMCRegisters {
            arg2: Volatile::new(0),
            block_size_and_count: Volatile::new(BlockSizeAndCount { value: 0 }),
            arg1: Volatile::new(0),
            command: Volatile::new(SDCommand { value: 0 }),
            resp0: Volatile::new(0),
            resp1: Volatile::new(0),
            resp2: Volatile::new(0),
            resp3: Volatile::new(0),
            data: Volatile::new(0),
            status: Volatile::new(Status { value: 0 }),
            control0: Volatile::new(Control0 { value: 0 }),
            control1: Volatile::new(Control1 { value: 0 }),
            interrupt: Volatile::new(Interrupt { value: 0 }),
            irpt_mask: Volatile::new(Interrupt { value: 0 }),
            irpt_en: Volatile::new(Interrupt { value: 0 }),
            control2: Volatile::new(0),
            force_irpt: Volatile::new(Interrupt { value: 0 }),
            boot_timeout: Volatile::new(0),
            dbg_sgl: Volatile::new(DebugSelect { value: 0 }),
            exrdfifo_cfg: Volatile::new(ExrdfifoCfg { value: 0 }),
            exrdfifo_en: Volatile::new(ExrdfifoEn { value: 0 }),
            tune_step: Volatile::new(TuneStep { value: 0 }),
            tune_steps_std: Volatile::new(TuneStepsStd { value: 0 }),
            tune_steps_ddr: Volatile::new(TuneStepsDdr { value: 0 }),
            spi_int_spt: Volatile::new(SpiIntSpt { value: 0 }),
            slotisr_ver: Volatile::new(SlotInterruptStatusAndVersion { value: 0 }),
        }
    }

    /// Polls until the status flag clears: an error interrupt fails at once,
    /// a clear flag succeeds, and a flag still set after `STATUS_TRIES` polls
    /// times out.
    pub fn wait_for_status(&self, status: StatusSetting) -> (r: Result<(), &'static str>)
        ensures
            r is Ok <==> (!interrupt_error(self.interrupt@.value) && !status_set(
                self.status@.value,
                status,
            )),
    {
        let mut i: u32 = 0;
        while i < STATUS_TRIES
            invariant
                i <= STATUS_TRIES,
                i > 0 ==> !interrupt_error(self.interrupt@.value) && status_set(
                    self.status@.value,
                    status,
                ),
            decreases STATUS_TRIES - i,
        {
            if self.interrupt.get().is_err() {
                return Err("Interrupt error");
            }
            if !self.status.get().get_status(status) {
                return Ok(());
            }
            i = i + 1;
        }
        Err("Timed out while waiting for status")
    }

    /// Polls until the interrupt of the given type fires. If it fired with an
    /// error flag the interrupt word is written back to acknowledge it and
    /// the wait fails; otherwise only the awaited flag is acknowledged. An
    /// interrupt that never fires times out, leaving the registers as they were.
    pub fn wait_for_interrupt(&mut self, interrupt_type: InterruptType) -> (r: Result<(), &'static str>)
        ensures
            ({
                let v = old(self).interrupt@.value;
                let fired = field32(v, interrupt_type.bit(), interrupt_type.bit()) == 1;
                let failed = field32(v, 16, 16) != 0 || field32(v, 20, 20) != 0
                    || interrupt_error(v);
                &&& (r is Ok <==> fired && !failed)
                &&& fired && !failed ==> final(self).interrupt@.value == with_field32(
                    0,
                    interrupt_type.bit(),
                    interrupt_type.bit(),
                    1,
                )
                &&& !(fired && !failed) ==> final(self).interrupt@ == old(self).interrupt@
                &&& fired && failed ==> r == Err::<(), &'static str>("Error in interrupt")
                &&& !fired ==> r == Err::<(), &'static str>("Timed out waiting for interrupt")
            }),
            final(self).status@ == old(self).status@,
            final(self).control1@ == old(self).control1@,
            final(self).resp0@ == old(self).resp0@,
    {
        let mut i: u32 = 0;
        while i < INTERRUPT_WAIT_TIMEOUT
            invariant
                i <= INTERRUPT_WAIT_TIMEOUT,
                *self == *old(self),
                i > 0 ==> field32(
                    self.interrupt@.value,
                    interrupt_type.bit(),
                    interrupt_type.bit(),
                ) != 1,
            decreases INTERRUPT_WAIT_TIMEOUT - i,
        {
            match interrupt_poll(self.interrupt.get(), interrupt_type) {
                Some((acknowledge, outcome)) => {
                    self.interrupt.set(acknowledge);
                    return outcome;
                },
                None => {},
            }
            i = i + 1;
        }
        Err("Timed out waiting for interrupt")
    }

    /// The value the card's answer `response` to `command` gives.
    pub fn parse_response(&self, response: u32, command: SDCommand, argument: u32) -> (r: Result<u32, &'static str>)
        ensures
            ({
                let p = parsed_response(
                    response,
                    self.resp1@,
                    self.resp2@,
                    self.resp3@,
                    command.value,
                    argument,
                );
                &&& r is Ok <==> p is Ok
                &&& r matches Ok(v) ==> p == Ok::<u32, ()>(v)
                &&& p is Err ==> r == Err::<u32, &'static str>("?")
            }),
    {
        parse_answer(response, [self.resp1.get(), self.resp2.get(), self.resp3.get()], command, argument)
    }

    /// Waits for the command-done interrupt and reads the response register.
    pub fn wait_for_response(&mut self) -> (r: Result<u32, &'static str>)
        ensures
            ({
                let v = old(self).interrupt@.value;
                let ok = field32(v, 0, 0) == 1 && !(field32(v, 16, 16) != 0 || field32(v, 20, 20)
                    != 0 || interrupt_error(v));
                &&& (r is Ok <==> ok)
                &&& r matches Ok(x) ==> x == old(self).resp0@
            }),
    {
        match self.wait_for_interrupt(InterruptType::CommandDone) {
            Ok(()) => Ok(self.resp0.get()),
            Err(e) => Err(e),
        }
    }

    /// Enables and unmasks every interrupt.
    pub fn enable_interrupts(&mut self)
        ensures
            final(self).irpt_en@.value == ALL_INTERRUPTS,
            final(self).irpt_mask@.value == ALL_INTERRUPTS,
            final(self).control1@ == old(self).control1@,
    {
        self.irpt_en.set(Interrupt { value: ALL_INTERRUPTS });
        self.irpt_mask.set(Interrupt { value: ALL_INTERRUPTS });
    }

    /// Clears the clock-enable bit.
    pub fn disable_clock(&mut self)
        ensures
            final(self).control1@.value == with_field32(old(self).control1@.value, 2, 2, 0),
    {
        let control1 = self.control1.get();
        self.control1.set(control1.set_clock_enabled(0));
    }

    /// Sets the clock-enable bit.
    pub fn enable_clock(&mut self)
        ensures
            final(self).control1@.value == with_field32(old(self).control1@.value, 2, 2, 1),
    {
        let control1 = self.control1.get();
        self.control1.set(control1.set_clock_enabled(1));
    }

    pub fn is_clock_enabled(&self) -> (r: bool)
        ensures
            r == (field32(self.control1@.value, 2, 2) == 1),
    {
        self.control1.get().get_clock_enabled() == 1
    }

    /// Writes the divider bits `d` into control register 1, keeping its
    /// other bits.
    pub fn configure_clock(&mut self, d: u32)
        ensures
            final(self).control1@.value == (old(self).control1@.value & 0xffff_003f) | d,
    {
        let value = (self.control1.get().as_u32() & 0xffff_003f) | d;
        self.control1.set(Control1 { value });
    }

    /// Clears control register 0 and starts a reset of the host circuit.
    pub fn start_reset(&mut self)
        ensures
            final(self).control0@.value == 0,
            final(self).control1@.value == with_field32(old(self).control1@.value, 24, 24, 1),
    {
        self.control0.set(Control0::empty());
        let control1 = self.control1.get();
        self.control1.set(control1.set_reset_complete_host_circuit(1));
    }

    /// The host circuit reset bit has cleared.
    pub fn reset_complete(&self) -> (r: bool)
        ensures
            r == (field32(self.control1@.value, 24, 24) == 0),
    {
        self.control1.get().get_reset_complete_host_circuit() == 0
    }

    /// Writes the argument, then the command.
    pub fn send_command(&mut self, command: SDCommand, argument: u32)
        ensures
            final(self).arg1@ == argument,
            final(self).command@ == command,
            final(self).interrupt@ == old(self).interrupt@,
            final(self).status@ == old(self).status@,
    {
        self.arg1.set(argument);
        self.command.set(command);
    }
}

/// The SD command each command register value sends: its index (bits
/// 24..29, the quotient by 2^24 modulo 64) is the SD command number (CMD0 GO_IDLE_STATE, CMD2 ALL_SEND_CID,
/// CMD3 SEND_RELATIVE_ADDR, CMD7 SELECT_CARD, CMD8 SEND_IF_COND,
/// CMD12 STOP_TRANSMISSION, CMD17 READ_SINGLE_BLOCK, CMD18
/// READ_MULTIPLE_BLOCK, CMD23 SET_BLOCK_COUNT, CMD55 APP_CMD, ACMD6
/// SET_BUS_WIDTH, ACMD41 SD_SEND_OP_COND, ACMD51 SEND_SCR), bit 31 marks the
/// application commands, and the commands that read data set the
/// card-to-host direction bit (bit 4).
pub proof fn lemma_sd_command_codes()
    ensures
        GO_IDLE as int / 0x100_0000 % 64 == 0 && GO_IDLE as int / 0x8000_0000 == 0,
        SEND_CARD_IDENTIFICATION as int / 0x100_0000 % 64 == 2 && SEND_CARD_IDENTIFICATION as int / 0x8000_0000 == 0,
        SEND_RELATIVE_ADDRESS as int / 0x100_0000 % 64 == 3 && SEND_RELATIVE_ADDRESS as int / 0x8000_0000 == 0,
        CARD_SELECT as int / 0x100_0000 % 64 == 7 && CARD_SELECT as int / 0x8000_0000 == 0,
        SEND_INTERFACE_CONDITIONS as int / 0x100_0000 % 64 == 8 && SEND_INTERFACE_CONDITIONS as int / 0x8000_0000 == 0,
        STOP_TRANSMISSION as int / 0x100_0000 % 64 == 12 && STOP_TRANSMISSION as int / 0x8000_0000 == 0,
        READ_SINGLE_BLOCK as int / 0x100_0000 % 64 == 17 && READ_SINGLE_BLOCK as int / 0x8000_0000 == 0,
        READ_MULTIPLE_BLOCKS as int / 0x100_0000 % 64 == 18 && READ_MULTIPLE_BLOCKS as int / 0x8000_0000 == 0,
        SET_BLOCK_COUNT as int / 0x100_0000 % 64 == 23 && SET_BLOCK_COUNT as int / 0x8000_0000 == 0,
        APPLICATION_SPECIFIC_COMMAND as int / 0x100_0000 % 64 == 55 && APPLICATION_SPECIFIC_COMMAND as int / 0x8000_0000 == 0,
        APPLICATION_SPECIFIC_COMMAND_48 as int / 0x100_0000 % 64 == 55 && APPLICATION_SPECIFIC_COMMAND_48 as int / 0x8000_0000 == 0,
        SET_BUS_WIDTH as int / 0x100_0000 % 64 == 6 && SET_BUS_WIDTH as int / 0x8000_0000 == 1,
        SEND_OP_COND as int / 0x100_0000 % 64 == 41 && SEND_OP_COND as int / 0x8000_0000 == 1,
        SEND_SD_CONFIGURATION_REGISTER as int / 0x100_0000 % 64 == 51 && SEND_SD_CONFIGURATION_REGISTER as int / 0x8000_0000 == 1,
        READ_SINGLE_BLOCK as int / 16 % 2 == 1,
        READ_MULTIPLE_BLOCKS as int / 16 % 2 == 1,
        SEND_SD_CONFIGURATION_REGISTER as int / 16 % 2 == 1,
{
}

/// The status register flags: command inhibit bit 0, data inhibit bit 1,
/// application command bit 5, read available bit 11; the interrupt flags
/// waited for: command done bit 0, read ready bit 5.
pub proof fn lemma_status_and_interrupt_bits()
    ensures
        StatusSetting::CommandInhibit.bit() == 0,
        StatusSetting::DataInhibit.bit() == 1,
        StatusSetting::AppCommand.bit() == 5,
        StatusSetting::ReadAvailable.bit() == 11,
        InterruptType::CommandDone.bit() == 0,
        InterruptType::ReadReady.bit() == 5,
        RCA_MASK == 0xffff_0000,
        ERRORS_MASK == 0xfff9_c004,
        INTERRUPT_ERROR_MASK == 0x017E_8000,
{
}

/// What the card's answer gives, command by command: nothing for CMD0 and
/// CMD55; the application-command flag (bit 5) for CMD55 once addressed;
/// the whole answer for ACMD41; for CMD8 success only when the card echoes
/// the argument; the four response registers or-ed together for CMD2; the
/// relative card address (bits 16..31) for CMD3; otherwise the error bits of
/// the card status.
pub proof fn lemma_parsed_response_by_command(r0: u32, r1: u32, r2: u32, r3: u32, command: u32, argument: u32)
    ensures
        parsed_response(r0, r1, r2, r3, command, argument) == if command == 0x0000_0000 || command
            == 0x3700_0000 {
            Ok(0u32)
        } else if command == 0x3702_0000 {
            Ok(r0 & 0x20u32)
        } else if command == 0xA902_0000 {
            Ok(r0)
        } else if command == 0x0802_0000 {
            if r0 == argument {
                Ok(0u32)
            } else {
                Err(())
            }
        } else if command == 0x0201_0000 {
            Ok(r0 | r3 | r2 | r1)
        } else if command == 0x0302_0000 {
            Ok(r0 & 0xffff_0000u32)
        } else {
            Ok(r0 & 0xfff9_c004u32)
        },
{
}

} // verus!

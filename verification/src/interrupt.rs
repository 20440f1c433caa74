//! The BCM2837 interrupt controller: which source is pending, and which
//! sources are enabled.
use vstd::prelude::*;
use crate::bitfield::{field32, get_field32, set_field32, with_field32};

verus! {

/// The interrupts the kernel tells apart.
#[derive(Copy, Clone, Debug, PartialEq, Eq, Structural)]
pub enum InterruptType {
    TimerInterrupt,
    KernelTimerInterrupt,
    MiniUARTInterrupt,
}

/// The basic pending register: which interrupt banks have something pending.
#[derive(Copy, Clone, Debug, PartialEq, Eq, Structural)]
pub struct IRQSource {
    pub value: u32,
}

impl IRQSource {
    pub fn get_arm_timer_irq(self) -> (r: u32)
        ensures
            r == field32(self.value, 0, 0),
    {
        get_field32(self.value, 0, 0)
    }

    pub fn set_arm_timer_irq(self, value: u32) -> (r: Self)
        ensures
            r.value == with_field32(self.value, 0, 0, value),
    {
        IRQSource { value: set_field32(self.value, 0, 0, value) }
    }

    pub fn get_arm_mailbox_irq(self) -> (r: u32)
        ensures
            r == field32(self.value, 1, 1),
    {
        get_field32(self.value, 1, 1)
    }

    pub fn set_arm_mailbox_irq(self, value: u32) -> (r: Self)
        ensures
            r.value == with_field32(self.value, 1, 1, value),
    {
        IRQSource { value: set_field32(self.value, 1, 1, value) }
    }

    pub fn get_arm_doorbell_0_irq(self) -> (r: u32)
        ensures
            r == field32(self.value, 2, 2),
    {
        get_field32(self.value, 2, 2)
    }

    pub fn set_arm_doorbell_0_irq(self, value: u32) -> (r: Self)
        ensures
            r.value == with_field32(self.value, 2, 2, value),
    {
        IRQSource { value: set_field32(self.value, 2, 2, value) }
    }

    pub fn get_arm_doorbell_1_irq(self) -> (r: u32)
        ensures
            r == field32(self.value, 3, 3),
    {
        get_field32(self.value, 3, 3)
    }

    pub fn set_arm_doorbell_1_irq(self, value: u32) -> (r: Self)
        ensures
            r.value == with_field32(self.value, 3, 3, value),
    {
        IRQSource { value: set_field32(self.value, 3, 3, value) }
    }

    pub fn get_block_1_irq(self) -> (r: u32)
        ensures
            r == field32(self.value, 8, 8),
    {
        get_field32(self.value, 8, 8)
    }

    pub fn set_block_1_irq(self, value: u32) -> (r: Self)
        ensures
            r.value == with_field32(self.value, 8, 8, value),
    {
        IRQSource { value: set_field32(self.value, 8, 8, value) }
    }

    pub fn get_block_2_irq(self) -> (r: u32)
        ensures
            r == field32(self.value, 9, 9),
    {
        get_field32(self.value, 9, 9)
    }

    pub fn set_block_2_irq(self, value: u32) -> (r: Self)
        ensures
            r.value == with_field32(self.value, 9, 9, value),
    {
        IRQSource { value: set_field32(self.value, 9, 9, value) }
    }

}

/// The first bank of peripheral interrupts.
#[derive(Copy, Clone, Debug, PartialEq, Eq, Structural)]
pub struct InterruptBlock1 {
    pub value: u32,
}

impl InterruptBlock1 {
    pub fn get_system_timer_match_1(self) -> (r: u32)
        ensures
            r == field32(self.value, 1, 1),
    {
        get_field32(self.value, 1, 1)
    }

    pub fn set_system_timer_match_1(self, value: u32) -> (r: Self)
        ensures
            r.value == with_field32(self.value, 1, 1, value),
    {
        InterruptBlock1 { value: set_field32(self.value, 1, 1, value) }
    }

    pub fn get_system_timer_match_3(self) -> (r: u32)
        ensures
            r == field32(self.value, 3, 3),
    {
        get_field32(self.value, 3, 3)
    }

    pub fn set_system_timer_match_3(self, value: u32) -> (r: Self)
        ensures
            r.value == with_field32(self.value, 3, 3, value),
    {
        InterruptBlock1 { value: set_field32(self.value, 3, 3, value) }
    }

    pub fn get_usb_controller(self) -> (r: u32)
        ensures
            r == field32(self.value, 9, 9),
    {
        get_field32(self.value, 9, 9)
    }

    pub fn set_usb_controller(self, value: u32) -> (r: Self)
        ensures
            r.value == with_field32(self.value, 9, 9, value),
    {
        InterruptBlock1 { value: set_field32(self.value, 9, 9, value) }
    }

    pub fn get_auxiliary_device_interrupt(self) -> (r: u32)
        ensures
            r == field32(self.value, 29, 29),
    {
        get_field32(self.value, 29, 29)
    }

    pub fn set_auxiliary_device_interrupt(self, value: u32) -> (r: Self)
        ensures
            r.value == with_field32(self.value, 29, 29, value),
    {
        InterruptBlock1 { value: set_field32(self.value, 29, 29, value) }
    }

}

/// The basic interrupt bank.
#[derive(Copy, Clone, Debug, PartialEq, Eq, Structural)]
pub struct BasicInterruptBlock {
    pub value: u32,
}

impl BasicInterruptBlock {
    pub fn get_arm_timer(self) -> (r: u32)
        ensures
            r == field32(self.value, 0, 0),
    {
        get_field32(self.value, 0, 0)
    }

    pub fn set_arm_timer(self, value: u32) -> (r: Self)
        ensures
            r.value == with_field32(self.value, 0, 0, value),
    {
        BasicInterruptBlock { value: set_field32(self.value, 0, 0, value) }
    }

}


/// The controller's register block.
#[derive(Copy, Clone, Debug)]
pub struct InterruptRegisters {
    pub irq_basic_pending: IRQSource,
    pub irq_pending_1: InterruptBlock1,
    pub irq_pending_2: u32,
    pub fiq_control: u32,
    pub enable_irq_1: InterruptBlock1,
    pub enable_irq_2: u32,
    pub enable_basic_irqs: u32,
    pub disable_irq_1: InterruptBlock1,
    pub disable_irq_2: u32,
    pub disable_basic_irqs: u32,
}

/// The interrupt the pending registers report: with bank 1 pending, the
/// system timer match 3 is the user timer and match 1 the kernel timer. An
/// auxiliary device interrupt is reported as none.
pub open spec fn pending_interrupt(basic: u32, bank1: u32) -> Option<InterruptType> {
    if field32(basic, 8, 8) == 1 {
        if field32(bank1, 29, 29) == 1 {
            None
        } else if field32(bank1, 3, 3) == 1 {
            Some(InterruptType::TimerInterrupt)
        } else if field32(bank1, 1, 1) == 1 {
            Some(InterruptType::KernelTimerInterrupt)
        } else {
            None
        }
    } else {
        None
    }
}

impl InterruptRegisters {
    /// The pending interrupt the kernel handles, if any.
    pub fn get_interrupt_type(&self) -> (r: Option<InterruptType>)
        ensures
            r == pending_interrupt(self.irq_basic_pending.value, self.irq_pending_1.value),
    {
        if self.irq_basic_pending.get_block_1_irq() == 1 {
            let block_1 = self.irq_pending_1;
            if block_1.get_auxiliary_device_interrupt() == 1 {
                return None;
            } else if block_1.get_system_timer_match_3() == 1 {
                return Some(InterruptType::TimerInterrupt);
            } else if block_1.get_system_timer_match_1() == 1 {
                return Some(InterruptType::KernelTimerInterrupt);
            }
        }
        None
    }

    /// Clears the basic pending register and bank 1.
    pub fn clear_matches(&mut self)
        ensures
            final(self).irq_basic_pending.value == 0,
            final(self).irq_pending_1.value == 0,
            final(self).enable_irq_1 == old(self).enable_irq_1,
    {
        self.irq_basic_pending = IRQSource { value: 0 };
        self.irq_pending_1 = InterruptBlock1 { value: 0 };
    }
}

/// Enables interrupt sources.
pub struct InterruptController {
    pub registers: InterruptRegisters,
}

impl InterruptController {
    /// A controller over the given registers.
    pub fn new(registers: InterruptRegisters) -> (r: Self)
        ensures
            r.registers == registers,
    {
        InterruptController { registers }
    }

    /// Enables system timer match 3.
    pub fn enable_timer_interrupt_3(&mut self)
        ensures
            final(self).registers.enable_irq_1.value == with_field32(
                old(self).registers.enable_irq_1.value,
                3,
                3,
                1,
            ),
    {
        self.registers.enable_irq_1 = self.registers.enable_irq_1.set_system_timer_match_3(1);
    }

    /// Enables system timer match 1.
    pub fn enable_timer_interrupt_1(&mut self)
        ensures
            final(self).registers.enable_irq_1.value == with_field32(
                old(self).registers.enable_irq_1.value,
                1,
                1,
                1,
            ),
    {
        self.registers.enable_irq_1 = self.registers.enable_irq_1.set_system_timer_match_1(1);
    }

    /// Enables the auxiliary devices (mini UART, SPI).
    pub fn enable_auxiliary_device_interrupts(&mut self)
        ensures
            final(self).registers.enable_irq_1.value == with_field32(
                old(self).registers.enable_irq_1.value,
                29,
                29,
                1,
            ),
    {
        self.registers.enable_irq_1 = self.registers.enable_irq_1.set_auxiliary_device_interrupt(1);
    }
}

/// The pending interrupt the kernel handles: only when bank 1 is pending
/// (bit 8 of the basic register), and then, unless an auxiliary device
/// interrupt is pending (bit 29 of bank 1), the user timer for system timer
/// match 3 (bit 3) before the kernel timer for match 1 (bit 1).
pub proof fn lemma_pending_interrupt_bits(basic: u32, bank1: u32)
    ensures
        pending_interrupt(basic, bank1) == if basic & 0x100u32 == 0 || bank1 & 0x2000_0000u32 != 0 {
            None
        } else if bank1 & 0b1000u32 != 0 {
            Some(InterruptType::TimerInterrupt)
        } else if bank1 & 0b10u32 != 0 {
            Some(InterruptType::KernelTimerInterrupt)
        } else {
            None
        },
{
    assert((field32(basic, 8, 8) == 1) == (basic & 0x100u32 != 0)) by (bit_vector);
    assert((field32(bank1, 29, 29) == 1) == (bank1 & 0x2000_0000u32 != 0)) by (bit_vector);
    assert((field32(bank1, 3, 3) == 1) == (bank1 & 0b1000u32 != 0)) by (bit_vector);
    assert((field32(bank1, 1, 1) == 1) == (bank1 & 0b10u32 != 0)) by (bit_vector);
}

} // verus!

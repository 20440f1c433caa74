//! The BCM2837 system timer: a free-running microsecond counter and four
//! compare registers that raise interrupts.
use vstd::prelude::*;
use crate::bitfield::{field32, get_field32, set_field32, with_field32};

verus! {

/// Something that keeps time: it waits, reads the clock and arms the
/// scheduler's timeout. Nothing is promised of the time it reads.
pub trait Timer {
    fn delay_micros(&self, micros: u64);

    fn delay_millis(&self, millis: u64);

    fn get_micros(&self) -> u64;

    fn set_timeout(&self, micros: u32);

    fn clear_matches(&self);
}

/// The timer's match flags; writing a one clears a flag.
#[derive(Copy, Clone, Debug, PartialEq, Eq, Structural)]
pub struct Status {
    pub value: u32,
}

impl Status {
    pub fn get_match0(self) -> (r: u32)
        ensures
            r == field32(self.value, 0, 0),
    {
        get_field32(self.value, 0, 0)
    }

    pub fn set_match0(self, value: u32) -> (r: Self)
        ensures
            r.value == with_field32(self.value, 0, 0, value),
    {
        Status { value: set_field32(self.value, 0, 0, value) }
    }

    pub fn get_match1(self) -> (r: u32)
        ensures
            r == field32(self.value, 1, 1),
    {
        get_field32(self.value, 1, 1)
    }

    pub fn set_match1(self, value: u32) -> (r: Self)
        ensures
            r.value == with_field32(self.value, 1, 1, value),
    {
        Status { value: set_field32(self.value, 1, 1, value) }
    }

    pub fn get_match2(self) -> (r: u32)
        ensures
            r == field32(self.value, 2, 2),
    {
        get_field32(self.value, 2, 2)
    }

    pub fn set_match2(self, value: u32) -> (r: Self)
        ensures
            r.value == with_field32(self.value, 2, 2, value),
    {
        Status { value: set_field32(self.value, 2, 2, value) }
    }

    pub fn get_match3(self) -> (r: u32)
        ensures
            r == field32(self.value, 3, 3),
    {
        get_field32(self.value, 3, 3)
    }

    pub fn set_match3(self, value: u32) -> (r: Self)
        ensures
            r.value == with_field32(self.value, 3, 3, value),
    {
        Status { value: set_field32(self.value, 3, 3, value) }
    }

    pub fn cleared() -> (r: Self)
        ensures
            r.value == 0,
    {
        Status { value: 0 }
    }

}


/// The timer's register block.
#[derive(Copy, Clone, Debug)]
pub struct TimerRegisters {
    pub control_status: Status,
    pub counter_low_bits: u32,
    pub counter_high_bits: u32,
    pub compare_values: [u32; 4],
}

/// The counter made of its two halves.
pub open spec fn counter_value(low: u32, high: u32) -> u64 {
    (high as int * 0x1_0000_0000 + low as int) as u64
}

impl TimerRegisters {
    fn get_count(&self) -> (r: u64)
        ensures
            r == counter_value(self.counter_low_bits, self.counter_high_bits),
    {
        let low_bits = self.counter_low_bits as u64;
        let high_bits = self.counter_high_bits as u64;
        high_bits * 0x1_0000_0000 + low_bits
    }

    /// The system time in microseconds, read as two 32-bit halves.
    pub fn time(&self) -> (r: u64)
        ensures
            r == counter_value(self.counter_low_bits, self.counter_high_bits),
    {
        self.get_count()
    }

    /// Arms compare register 3 to match `micros` after the counter's low half.
    pub fn set_timeout(&mut self, micros: u32)
        requires
            old(self).counter_low_bits + micros <= u32::MAX,
        ensures
            final(self).compare_values@ == old(self).compare_values@.update(
                3,
                (old(self).counter_low_bits + micros) as u32,
            ),
            final(self).counter_low_bits == old(self).counter_low_bits,
            final(self).counter_high_bits == old(self).counter_high_bits,
            final(self).control_status == old(self).control_status,
    {
        self.compare_values[3] = self.counter_low_bits + micros;
    }

    /// Arms compare register 1, the scheduler's, `millis` counter ticks after
    /// the counter's low half.
    pub fn set_kernel_timeout(&mut self, millis: u32)
        requires
            old(self).counter_low_bits + millis <= u32::MAX,
        ensures
            final(self).compare_values@ == old(self).compare_values@.update(
                1,
                (old(self).counter_low_bits + millis) as u32,
            ),
            final(self).counter_low_bits == old(self).counter_low_bits,
            final(self).counter_high_bits == old(self).counter_high_bits,
            final(self).control_status == old(self).control_status,
    {
        self.compare_values[1] = self.counter_low_bits + millis;
    }

    /// Clears the match flags of compare registers 1 and 3.
    pub fn clear_matches(&mut self)
        ensures
            final(self).control_status.value == with_field32(with_field32(0, 3, 3, 1), 1, 1, 1),
            final(self).compare_values == old(self).compare_values,
            final(self).counter_low_bits == old(self).counter_low_bits,
            final(self).counter_high_bits == old(self).counter_high_bits,
    {
        self.control_status = Status::cleared().set_match3(1).set_match1(1);
    }
}

/// The counter's value is its high word shifted up by 32 bits over its low
/// word.
pub proof fn lemma_counter_value_bits(low: u32, high: u32)
    ensures
        counter_value(low, high) == ((high as u64) << 32u64) | low as u64,
{
    assert((high as int * 0x1_0000_0000 + low as int) as u64 == ((high as u64) << 32u64) | low as u64)
        by (bit_vector);
}

} // verus!

//! The general purpose input/output pins: their function, output level,
//! pull resistors and edge detection.
use vstd::prelude::*;
use crate::bit_array::{bit_of, with_bit, BitArray};
use crate::bitfield::{
    field32, get_field32, lemma_field32_get_set, lemma_field32_set_other, set_field32,
    width_mask32, with_field32,
};

verus! {

/// The highest pin number.
pub const PINS: u32 = 53;

/// Pins per function select register.
pub const GPFSEL_SIZE: u32 = 10;

/// Pins per output set register.
pub const GPSET_SIZE: u32 = 32;

/// Pins per output clear register.
pub const GPCLR_SIZE: u32 = 32;

/// Pins per pull-up/down clock register.
pub const GPPUDCLK_SIZE: u32 = 32;

/// Cycles to wait after each step of changing a pull resistor.
pub const PULL_SETTLE_CYCLES: u64 = 150;

/// Something that can idle the processor for a number of cycles.
pub trait CpuDelay {
    fn wait_for_cycles(&self, cycles: u64);
}

/// The functions a pin can take.
#[derive(Copy, Clone, Debug, PartialEq, Eq, Structural)]
pub enum Mode {
    IN,
    OUT,
    AF0,
    AF1,
    AF2,
    AF3,
    AF4,
    AF5,
}

/// The three bits that select a function.
pub open spec fn mode_bits(mode: Mode) -> u32 {
    match mode {
        Mode::IN => 0b000,
        Mode::OUT => 0b001,
        Mode::AF0 => 0b100,
        Mode::AF1 => 0b101,
        Mode::AF2 => 0b110,
        Mode::AF3 => 0b111,
        Mode::AF4 => 0b011,
        Mode::AF5 => 0b010,
    }
}

impl Mode {
    /// The three bits that select this function.
    pub fn as_u32(self) -> (r: u32)
        ensures
            r == mode_bits(self),
            r <= 7,
    {
        match self {
            Mode::IN => 0b000,
            Mode::OUT => 0b001,
            Mode::AF0 => 0b100,
            Mode::AF1 => 0b101,
            Mode::AF2 => 0b110,
            Mode::AF3 => 0b111,
            Mode::AF4 => 0b011,
            Mode::AF5 => 0b010,
        }
    }
}

/// The levels an output pin can drive.
#[derive(Copy, Clone, Debug, PartialEq, Eq, Structural)]
pub enum OutputLevel {
    High,
    Low,
}

/// The pull resistor settings.
#[derive(Copy, Clone, Debug, PartialEq, Eq, Structural)]
pub enum Pull {
    Off,
    Down,
    Up,
}

/// The two bits that select a pull setting.
pub open spec fn pull_bits(pull: Pull) -> u32 {
    match pull {
        Pull::Off => 0b00,
        Pull::Down => 0b01,
        Pull::Up => 0b10,
    }
}

/// First bit of pin `slot` in a function select word.
pub open spec fn slot_start(slot: u32) -> u32 {
    (3 * slot) as u32
}

/// Last bit of pin `slot` in a function select word.
pub open spec fn slot_end(slot: u32) -> u32 {
    (3 * slot + 2) as u32
}

/// The function of pin `slot` of a function select word.
pub open spec fn slot_mode(word: u32, slot: u32) -> u32 {
    field32(word, slot_start(slot), slot_end(slot))
}

proof fn lemma_slot_bits(word: u32, slot: u32, mode: u32)
    by (bit_vector)
    requires
        slot < 10,
        mode <= 7,
    ensures
        (word >> (3 * slot) as u32) & 7u32 == field32(word, (3 * slot) as u32, (3 * slot + 2) as u32),
        (word & !(7u32 << (3 * slot) as u32)) | (mode << (3 * slot) as u32) == with_field32(
            word,
            (3 * slot) as u32,
            (3 * slot + 2) as u32,
            mode,
        ),
{
}

/// A function select register: three bits for each of ten pins.
#[derive(Copy, Clone, Debug, PartialEq, Eq, Structural)]
pub struct FunctionSelectBlock {
    pub value: u32,
}

impl FunctionSelectBlock {
    pub const PIN_STATUS_BITS: u32 = 3;

    pub const PIN_STATUS_MASK: u32 = 0b111;

    /// The function bits of pin `pin_number_in_block`.
    pub fn get_pin_mode(&self, pin_number_in_block: u32) -> (r: u32)
        requires
            pin_number_in_block < 10,
        ensures
            r == slot_mode(self.value, pin_number_in_block),
    {
        proof {
            lemma_slot_bits(self.value, pin_number_in_block, 0);
        }
        (self.value >> (pin_number_in_block * 3)) & 0b111
    }

    /// The register with pin `pin_number_in_block` set to `mode`.
    pub fn set_pin_mode(&self, pin_number_in_block: u32, mode: Mode) -> (r: Self)
        requires
            pin_number_in_block < 10,
        ensures
            r.value == with_field32(
                self.value,
                slot_start(pin_number_in_block),
                slot_end(pin_number_in_block),
                mode_bits(mode),
            ),
    {
        let m = mode.as_u32();
        proof {
            lemma_slot_bits(self.value, pin_number_in_block, m);
        }
        let shifted_inverted_mask = !(0b111u32 << (pin_number_in_block * 3));
        let value = (self.value & shifted_inverted_mask) | (m << (pin_number_in_block * 3));
        FunctionSelectBlock { value }
    }

}

/// The pull-up/down register.
#[derive(Copy, Clone, Debug, PartialEq, Eq, Structural)]
pub struct PullRegister {
    pub value: u32,
}

impl PullRegister {
    pub fn get_pull_mode(self) -> (r: u32)
        ensures
            r == field32(self.value, 0, 1),
    {
        get_field32(self.value, 0, 1)
    }

    pub fn set_pull_mode(self, value: u32) -> (r: Self)
        ensures
            r.value == with_field32(self.value, 0, 1, value),
    {
        PullRegister { value: set_field32(self.value, 0, 1, value) }
    }

    /// The register selecting `mode`.
    pub fn mode(mode: Pull) -> (r: Self)
        ensures
            r.value == pull_bits(mode),
    {
        let value = match mode {
            Pull::Off => 0b00,
            Pull::Down => 0b01,
            Pull::Up => 0b10,
        };
        PullRegister { value }
    }

}


/// A pin number; `new` admits only the board's pins.
#[derive(Copy, Clone, Debug, PartialEq, Eq, Structural)]
pub struct Pin {
    pub number: u32,
}

impl Pin {
    /// The pin numbered `number`, if the board has it.
    pub fn new(number: u32) -> (r: Result<Pin, ()>)
        ensures
            r is Ok <==> number <= PINS,
            r matches Ok(p) ==> p.number == number,
    {
        if number > PINS {
            Err(())
        } else {
            Ok(Pin { number })
        }
    }

    /// The pin numbered `number`, unchecked.
    pub fn new_unchecked(number: u32) -> (r: Self)
        ensures
            r.number == number,
    {
        Pin { number }
    }

    /// The function select register of the pin.
    pub fn function_select_bank_number(&self) -> (r: usize)
        ensures
            r == self.number / GPFSEL_SIZE,
    {
        (self.number / GPFSEL_SIZE) as usize
    }

    /// The pin's slot in its function select register.
    pub fn number_in_function_select_bank(&self) -> (r: u32)
        ensures
            r == self.number % GPFSEL_SIZE,
    {
        self.number % GPFSEL_SIZE
    }

    pub fn set_block(&self) -> (r: usize)
        ensures
            r == self.number / GPSET_SIZE,
    {
        (self.number / GPSET_SIZE) as usize
    }

    pub fn set_offset(&self) -> (r: usize)
        ensures
            r == self.number % GPSET_SIZE,
    {
        (self.number % GPSET_SIZE) as usize
    }

    pub fn clear_block(&self) -> (r: usize)
        ensures
            r == self.number / GPCLR_SIZE,
    {
        (self.number / GPCLR_SIZE) as usize
    }

    pub fn clear_offset(&self) -> (r: usize)
        ensures
            r == self.number % GPCLR_SIZE,
    {
        (self.number % GPCLR_SIZE) as usize
    }

    pub fn pull_enable_block(&self) -> (r: usize)
        ensures
            r == self.number / GPPUDCLK_SIZE,
    {
        (self.number / GPPUDCLK_SIZE) as usize
    }

    pub fn pull_enable_offset(&self) -> (r: usize)
        ensures
            r == self.number % GPPUDCLK_SIZE,
    {
        (self.number % GPPUDCLK_SIZE) as usize
    }
}

/// The GPIO register block.
#[derive(Copy, Clone, Debug)]
pub struct GPIORegisters {
    pub function_select_banks: [FunctionSelectBlock; 6],
    pub set_output: [BitArray; 2],
    pub clear_output: [BitArray; 2],
    pub gplev: [BitArray; 2],
    pub gpsed: [u32; 2],
    pub gpren: [u32; 2],
    pub gpfen: [u32; 2],
    pub high_detect_enable: [BitArray; 2],
    pub gplen: [u32; 2],
    pub gparen: [u32; 2],
    pub gpafen: [u32; 2],
    pub pull_register: PullRegister,
    pub pull_enable: [BitArray; 2],
}

/// The function bits of pin `n` in the registers.
pub open spec fn pin_mode_of(registers: GPIORegisters, n: u32) -> u32 {
    slot_mode(registers.function_select_banks@[(n / GPFSEL_SIZE) as int].value, n % GPFSEL_SIZE)
}

/// `a` and `b` agree on the level and event-detect registers.
pub open spec fn detect_registers_same(a: GPIORegisters, b: GPIORegisters) -> bool {
    &&& a.gplev == b.gplev
    &&& a.gpsed == b.gpsed
    &&& a.gpren == b.gpren
    &&& a.gpfen == b.gpfen
    &&& a.high_detect_enable == b.high_detect_enable
    &&& a.gplen == b.gplen
    &&& a.gparen == b.gparen
    &&& a.gpafen == b.gpafen
}

/// `after` is `before` with a one written to pin `n`'s bit of the set
/// register (for `High`) or of the clear register (for `Low`); nothing else
/// changes.
pub open spec fn output_written(before: GPIORegisters, after: GPIORegisters, n: u32, level: OutputLevel) -> bool {
    let block = (n / 32) as int;
    let bit = n % 32;
    &&& match level {
        OutputLevel::High => {
            &&& after.set_output@ == before.set_output@.update(
                block,
                BitArray { array: with_bit(before.set_output@[block].array, bit, 1) },
            )
            &&& after.clear_output == before.clear_output
        },
        OutputLevel::Low => {
            &&& after.clear_output@ == before.clear_output@.update(
                block,
                BitArray { array: with_bit(before.clear_output@[block].array, bit, 1) },
            )
            &&& after.set_output == before.set_output
        },
    }
    &&& after.function_select_banks == before.function_select_banks
    &&& after.pull_register == before.pull_register
    &&& after.pull_enable == before.pull_enable
    &&& detect_registers_same(before, after)
}

/// One step of setting a pin's pull resistor.
#[derive(Copy, Clone, Debug, PartialEq, Eq, Structural)]
pub enum PullStep {
    /// The pull register is written with these mode bits.
    Mode(u32),
    /// The processor waits this many cycles for the signals to settle.
    Settle(u64),
    /// The pull-enable clock bit of this pin is set.
    ClockOn(u32),
    /// The pull-enable clock bit of this pin is cleared.
    ClockOff(u32),
}

/// The steps of setting pin `n`'s pull resistor to `mode`, in order.
pub open spec fn pull_steps_for(n: u32, mode: Pull) -> Seq<PullStep> {
    seq![
        PullStep::Mode(pull_bits(mode)),
        PullStep::Settle(PULL_SETTLE_CYCLES),
        PullStep::ClockOn(n),
        PullStep::Settle(PULL_SETTLE_CYCLES),
        PullStep::ClockOff(n),
    ]
}

/// The registers with pin `n`'s function select bits set to `mode`.
pub open spec fn with_pin_mode(registers: GPIORegisters, n: u32, mode: Mode) -> Seq<FunctionSelectBlock> {
    let bank = n / GPFSEL_SIZE;
    let slot = n % GPFSEL_SIZE;
    registers.function_select_banks@.update(
        bank as int,
        FunctionSelectBlock {
            value: with_field32(
                registers.function_select_banks@[bank as int].value,
                slot_start(slot),
                slot_end(slot),
                mode_bits(mode),
            ),
        },
    )
}

/// Setting pin `n`'s function to `mode` makes its function bits those of
/// `mode` and leaves every other pin's function as it was.
pub proof fn lemma_set_pin_function(before: GPIORegisters, after: GPIORegisters, n: u32, mode: Mode)
    requires
        n <= PINS,
        after.function_select_banks@ == with_pin_mode(before, n, mode),
    ensures
        pin_mode_of(after, n) == mode_bits(mode),
        forall|m: u32| m <= PINS && m != n ==> #[trigger] pin_mode_of(after, m) == pin_mode_of(before, m),
{
    lemma_mode_bits();
    let slot = n % GPFSEL_SIZE;
    let bits = mode_bits(mode);
    let word = before.function_select_banks@[(n / GPFSEL_SIZE) as int].value;
    lemma_field32_get_set(word, slot_start(slot), slot_end(slot), bits);
    assert(width_mask32(slot_start(slot), slot_end(slot)) == 7) by {
        assert((1u32 << 3u32) == 8) by (bit_vector);
    }
    assert(bits & 7u32 == bits) by (bit_vector)
        requires
            bits <= 7,
    ;
    assert forall|m: u32| m <= PINS && m != n implies #[trigger] pin_mode_of(after, m) == pin_mode_of(
        before,
        m,
    ) by {
        if m / GPFSEL_SIZE == n / GPFSEL_SIZE {
            let t = m % GPFSEL_SIZE;
            assert(t != slot);
            lemma_field32_set_other(word, slot_start(slot), slot_end(slot), bits, slot_start(t), slot_end(t));
        }
    }
}

/// The function select bits of each mode, as the BCM2835 gives them: input
/// 000, output 001, alternate functions 0..5 100, 101, 110, 111, 011, 010;
/// no two modes share bits.
pub proof fn lemma_mode_bits()
    ensures
        mode_bits(Mode::IN) == 0b000,
        mode_bits(Mode::OUT) == 0b001,
        mode_bits(Mode::AF0) == 0b100,
        mode_bits(Mode::AF1) == 0b101,
        mode_bits(Mode::AF2) == 0b110,
        mode_bits(Mode::AF3) == 0b111,
        mode_bits(Mode::AF4) == 0b011,
        mode_bits(Mode::AF5) == 0b010,
        forall|a: Mode, b: Mode| #[trigger] mode_bits(a) == #[trigger] mode_bits(b) ==> a == b,
        forall|a: Mode| #[trigger] mode_bits(a) <= 7,
{
}

/// The pull settings' bits: off 00, pull down 01, pull up 10.
pub proof fn lemma_pull_bits()
    ensures
        pull_bits(Pull::Off) == 0b00,
        pull_bits(Pull::Down) == 0b01,
        pull_bits(Pull::Up) == 0b10,
{
}

/// Pin `n`'s function is bits `3 * (n % 10)` to `3 * (n % 10) + 2` of
/// function select register `n / 10`.
pub proof fn lemma_pin_mode_layout(registers: GPIORegisters, n: u32)
    requires
        n <= PINS,
    ensures
        pin_mode_of(registers, n) == (registers.function_select_banks@[(n / 10) as int].value >> (3
            * (n % 10)) as u32) & 7u32,
{
    let word = registers.function_select_banks@[(n / 10) as int].value;
    lemma_slot_bits(word, n % 10, 0);
}

/// Drives the GPIO pins through their register block.
pub struct GPIOController {
    pub registers: GPIORegisters,
    /// Each step taken to set pull resistors, oldest first.
    pub pull_steps: Ghost<Seq<PullStep>>,
}

impl GPIOController {
    /// A controller over `registers`.
    pub fn with_registers(registers: GPIORegisters) -> (r: Self)
        ensures
            r.registers == registers,
            r.pull_steps@ == Seq::<PullStep>::empty(),
    {
        GPIOController { registers, pull_steps: Ghost(Seq::empty()) }
    }

    /// Gives `pin` the function `mode`, leaving every other pin's function.
    pub fn set_mode(&mut self, pin: Pin, mode: Mode)
        requires
            pin.number <= PINS,
        ensures
            ({
                let bank = pin.number / GPFSEL_SIZE;
                let slot = pin.number % GPFSEL_SIZE;
                final(self).registers.function_select_banks@ == old(
                    self,
                ).registers.function_select_banks@.update(
                    bank as int,
                    FunctionSelectBlock {
                        value: with_field32(
                            old(self).registers.function_select_banks@[bank as int].value,
                            slot_start(slot),
                            slot_end(slot),
                            mode_bits(mode),
                        ),
                    },
                )
            }),
            final(self).registers.set_output == old(self).registers.set_output,
            final(self).registers.clear_output == old(self).registers.clear_output,
            final(self).registers.pull_enable == old(self).registers.pull_enable,
            final(self).registers.pull_register == old(self).registers.pull_register,
            detect_registers_same(old(self).registers, final(self).registers),
            final(self).pull_steps == old(self).pull_steps,
            pin_mode_of(final(self).registers, pin.number) == mode_bits(mode),
            forall|m: u32|
                m <= PINS && m != pin.number ==> #[trigger] pin_mode_of(final(self).registers, m)
                    == pin_mode_of(old(self).registers, m),
    {
        let ghost before = self.registers;
        let bank = pin.function_select_bank_number();
        let block = self.registers.function_select_banks[bank];
        let updated = block.set_pin_mode(pin.number_in_function_select_bank(), mode);
        self.registers.function_select_banks[bank] = updated;
        proof {
            assert(self.registers.function_select_banks@ =~= with_pin_mode(before, pin.number, mode));
            lemma_set_pin_function(before, self.registers, pin.number, mode);
        }
    }

    /// The function bits of `pin`.
    pub fn get_pin_mode(&self, pin: Pin) -> (r: u32)
        requires
            pin.number <= PINS,
        ensures
            r == pin_mode_of(self.registers, pin.number),
    {
        self.registers.function_select_banks[pin.function_select_bank_number()].get_pin_mode(
            pin.number_in_function_select_bank(),
        )
    }

    /// Drives an output pin high (through the set register) or low (through
    /// the clear register). The pin's function is not checked.
    pub fn set_out(&mut self, pin: Pin, output: OutputLevel)
        requires
            pin.number <= PINS,
        ensures
            output_written(old(self).registers, final(self).registers, pin.number, output),
            final(self).pull_steps == old(self).pull_steps,
    {
        match output {
            OutputLevel::High => {
                let block = pin.set_block();
                let updated = self.registers.set_output[block].set_bit(pin.set_offset(), 1);
                self.registers.set_output[block] = updated;
            },
            OutputLevel::Low => {
                let block = pin.clear_block();
                let updated = self.registers.clear_output[block].set_bit(pin.clear_offset(), 1);
                self.registers.clear_output[block] = updated;
            },
        }
    }

    /// Sets the pull resistor of `pin`: selects the mode, clocks it into the
    /// pin, then stops the clock, waiting for the signals to settle between
    /// steps. The mode cannot be read back.
    pub fn pull<D: CpuDelay>(&mut self, pin: Pin, mode: Pull, delay: &D)
        requires
            pin.number <= PINS,
        ensures
            final(self).registers.pull_register.value == pull_bits(mode),
            ({
                let block = (pin.number / 32) as int;
                let bit = pin.number % 32;
                final(self).registers.pull_enable@ == old(self).registers.pull_enable@.update(
                    block,
                    BitArray {
                        array: with_bit(
                            with_bit(old(self).registers.pull_enable@[block].array, bit, 1),
                            bit,
                            0,
                        ),
                    },
                )
            }),
            final(self).registers.function_select_banks == old(self).registers.function_select_banks,
            final(self).registers.set_output == old(self).registers.set_output,
            final(self).registers.clear_output == old(self).registers.clear_output,
            detect_registers_same(old(self).registers, final(self).registers),
            final(self).pull_steps@ == old(self).pull_steps@ + pull_steps_for(pin.number, mode),
    {
        let ghost steps = self.pull_steps@;
        let pull_enable_block = pin.pull_enable_block();
        let pull_enable_offset = pin.pull_enable_offset();
        self.registers.pull_register = PullRegister::mode(mode);
        self.pull_steps = Ghost(self.pull_steps@.push(PullStep::Mode(pull_bits(mode))));
        delay.wait_for_cycles(PULL_SETTLE_CYCLES);
        self.pull_steps = Ghost(self.pull_steps@.push(PullStep::Settle(PULL_SETTLE_CYCLES)));
        let enabled = self.registers.pull_enable[pull_enable_block].set_bit(pull_enable_offset, 1);
        self.registers.pull_enable[pull_enable_block] = enabled;
        self.pull_steps = Ghost(self.pull_steps@.push(PullStep::ClockOn(pin.number)));
        delay.wait_for_cycles(PULL_SETTLE_CYCLES);
        self.pull_steps = Ghost(self.pull_steps@.push(PullStep::Settle(PULL_SETTLE_CYCLES)));
        let disabled = self.registers.pull_enable[pull_enable_block].set_bit(pull_enable_offset, 0);
        self.registers.pull_enable[pull_enable_block] = disabled;
        self.pull_steps = Ghost(self.pull_steps@.push(PullStep::ClockOff(pin.number)));
        assert(self.pull_steps@ =~= steps + pull_steps_for(pin.number, mode));
    }

    /// Writes `value` to the high-level detect bit of `pin`.
    pub fn set_high_detect_enable(&mut self, pin: Pin, value: u32)
        requires
            pin.number <= PINS,
        ensures
            ({
                let bank: int = if pin.number < 32 {
                    0
                } else {
                    1
                };
                final(self).registers.high_detect_enable@ == old(
                    self,
                ).registers.high_detect_enable@.update(
                    bank,
                    BitArray {
                        array: with_bit(
                            old(self).registers.high_detect_enable@[bank].array,
                            (pin.number - 32 * bank) as u32,
                            value,
                        ),
                    },
                )
            }),
            final(self).registers.function_select_banks == old(self).registers.function_select_banks,
            final(self).registers.set_output == old(self).registers.set_output,
            final(self).registers.clear_output == old(self).registers.clear_output,
            final(self).registers.pull_register == old(self).registers.pull_register,
            final(self).registers.pull_enable == old(self).registers.pull_enable,
            final(self).registers.gplev == old(self).registers.gplev,
            final(self).registers.gpsed == old(self).registers.gpsed,
            final(self).registers.gpren == old(self).registers.gpren,
            final(self).registers.gpfen == old(self).registers.gpfen,
            final(self).registers.gplen == old(self).registers.gplen,
            final(self).registers.gparen == old(self).registers.gparen,
            final(self).registers.gpafen == old(self).registers.gpafen,
            final(self).pull_steps == old(self).pull_steps,
    {
        let bank: u32 = if pin.number < 32 {
            0
        } else {
            1
        };
        let offset_in_bank = pin.number - 32 * bank;
        let updated = self.registers.high_detect_enable[bank as usize].set_bit(
            offset_in_bank as usize,
            value,
        );
        self.registers.high_detect_enable[bank as usize] = updated;
    }
}

/// After `set_mode(pin, mode)`, the pin reads back `mode` and every other
/// pin keeps its function.
pub proof fn lemma_set_mode_then_get(before: GPIORegisters, after: GPIORegisters, pin: u32, mode: Mode, other: u32)
    requires
        pin <= PINS,
        other <= PINS,
        after.function_select_banks@ == before.function_select_banks@.update(
            (pin / GPFSEL_SIZE) as int,
            FunctionSelectBlock {
                value: with_field32(
                    before.function_select_banks@[(pin / GPFSEL_SIZE) as int].value,
                    slot_start((pin % GPFSEL_SIZE)),
                    slot_end((pin % GPFSEL_SIZE)),
                    mode_bits(mode),
                ),
            },
        ),
    ensures
        pin_mode_of(after, pin) == mode_bits(mode),
        other != pin ==> pin_mode_of(after, other) == pin_mode_of(before, other),
{
    let bank = (pin / GPFSEL_SIZE) as int;
    let slot = pin % GPFSEL_SIZE;
    let word = before.function_select_banks@[bank].value;
    lemma_field32_get_set(word, slot_start(slot), slot_end(slot), mode_bits(mode));
    assert(((((1u32 << 3u32) - 1) as u32)) == 7u32) by (bit_vector);
    let mb = mode_bits(mode);
    assert(mb <= 7);
    assert(mb & 7u32 == mb) by (bit_vector)
        requires
            mb <= 7,
    ;
    if other != pin && other / GPFSEL_SIZE == pin / GPFSEL_SIZE {
        let oslot = other % GPFSEL_SIZE;
        lemma_field32_set_other(word, slot_start(slot), slot_end(slot), mode_bits(mode), slot_start(oslot), slot_end(oslot));
    }
}

/// The board's RGB status light on pins 17 (red), 27 (green) and 22 (blue).
pub struct StatusLight {
    pub red_pin: Pin,
    pub green_pin: Pin,
    pub blue_pin: Pin,
    pub gpio_controller: GPIOController,
}

impl StatusLight {
    pub const RED_PIN: u32 = 17;

    pub const GREEN_PIN: u32 = 27;

    pub const BLUE_PIN: u32 = 22;

    /// The status light driven through `gpio_controller`, with its three
    /// pins set to output; every other pin keeps its function.
    pub fn new(gpio_controller: GPIOController) -> (r: Self)
        ensures
            r.red_pin.number == 17,
            r.green_pin.number == 27,
            r.blue_pin.number == 22,
            forall|n: u32|
                n <= PINS ==> #[trigger] pin_mode_of(r.gpio_controller.registers, n) == if n == 17 || n
                    == 27 || n == 22 {
                    mode_bits(Mode::OUT)
                } else {
                    pin_mode_of(gpio_controller.registers, n)
                },
    {
        let mut light = StatusLight {
            red_pin: Pin::new_unchecked(17),
            green_pin: Pin::new_unchecked(27),
            blue_pin: Pin::new_unchecked(22),
            gpio_controller,
        };
        let r0 = light.gpio_controller.registers;
        light.gpio_controller.set_mode(light.red_pin, Mode::OUT);
        let r1 = light.gpio_controller.registers;
        light.gpio_controller.set_mode(light.green_pin, Mode::OUT);
        let r2 = light.gpio_controller.registers;
        light.gpio_controller.set_mode(light.blue_pin, Mode::OUT);
        proof {
            assert forall|n: u32| n <= PINS implies #[trigger] pin_mode_of(
                light.gpio_controller.registers,
                n,
            ) == if n == 17 || n == 27 || n == 22 {
                mode_bits(Mode::OUT)
            } else {
                pin_mode_of(r0, n)
            } by {
                lemma_set_mode_then_get(r0, r1, 17, Mode::OUT, n);
                lemma_set_mode_then_get(r1, r2, 27, Mode::OUT, n);
                lemma_set_mode_then_get(r2, light.gpio_controller.registers, 22, Mode::OUT, n);
                lemma_set_mode_then_get(r1, r2, 27, Mode::OUT, 17);
                lemma_set_mode_then_get(r2, light.gpio_controller.registers, 22, Mode::OUT, 17);
                lemma_set_mode_then_get(r2, light.gpio_controller.registers, 22, Mode::OUT, 27);
            }
        }
        light
    }

    /// The light's pins are its own: 17, 27 and 22.
    pub open spec fn wf(&self) -> bool {
        self.red_pin.number == 17 && self.green_pin.number == 27 && self.blue_pin.number == 22
    }

    /// Makes the three pins outputs.
    pub fn init(&mut self)
        requires
            old(self).wf(),
        ensures
            final(self).wf(),
            pin_mode_of(final(self).gpio_controller.registers, 17) == mode_bits(Mode::OUT),
            pin_mode_of(final(self).gpio_controller.registers, 27) == mode_bits(Mode::OUT),
            pin_mode_of(final(self).gpio_controller.registers, 22) == mode_bits(Mode::OUT),
    {
        let r0 = self.gpio_controller.registers;
        self.gpio_controller.set_mode(self.red_pin, Mode::OUT);
        let r1 = self.gpio_controller.registers;
        self.gpio_controller.set_mode(self.green_pin, Mode::OUT);
        let r2 = self.gpio_controller.registers;
        self.gpio_controller.set_mode(self.blue_pin, Mode::OUT);
        let r3 = self.gpio_controller.registers;
        proof {
            lemma_set_mode_then_get(r0, r1, 17, Mode::OUT, 17);
            lemma_set_mode_then_get(r1, r2, 27, Mode::OUT, 17);
            lemma_set_mode_then_get(r2, r3, 22, Mode::OUT, 17);
            lemma_set_mode_then_get(r2, r3, 22, Mode::OUT, 27);
        }
    }

    /// Drives the red light: a one in pin 17's bit of the set register
    /// (`High`) or of the clear register (`Low`).
    pub fn set_red(&mut self, level: OutputLevel)
        requires
            old(self).wf(),
        ensures
            final(self).wf(),
            output_written(old(self).gpio_controller.registers, final(self).gpio_controller.registers, 17, level),
    {
        self.gpio_controller.set_out(self.red_pin, level);
    }

    /// Drives the green light, through pin 27.
    pub fn set_green(&mut self, level: OutputLevel)
        requires
            old(self).wf(),
        ensures
            final(self).wf(),
            output_written(old(self).gpio_controller.registers, final(self).gpio_controller.registers, 27, level),
    {
        self.gpio_controller.set_out(self.green_pin, level);
    }

    /// Drives the blue light, through pin 22.
    pub fn set_blue(&mut self, level: OutputLevel)
        requires
            old(self).wf(),
        ensures
            final(self).wf(),
            output_written(old(self).gpio_controller.registers, final(self).gpio_controller.registers, 22, level),
    {
        self.gpio_controller.set_out(self.blue_pin, level);
    }
}

} // verus!

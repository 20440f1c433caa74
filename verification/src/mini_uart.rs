//! The mini UART of the BCM2837's auxiliary peripherals: its register
//! block and a console on it.
use vstd::prelude::*;
use crate::bitfield::{field32, get_field32, set_field32, with_field32};
use crate::gpio::{lemma_set_mode_then_get, mode_bits, pin_mode_of, GPIOController, Mode, Pin, PINS};
use crate::uart::{LogLevel, UARTConfig};
use crate::volatile::Volatile;

verus! {

/// Which auxiliary peripheral raised an interrupt.
#[derive(Copy, Clone, Debug, PartialEq, Eq, Structural)]
pub struct InterruptSource {
    pub value: u32,
}

impl InterruptSource {
    pub fn get_mini_uart(self) -> (r: u32)
        ensures
            r == field32(self.value, 0, 0),
    {
        get_field32(self.value, 0, 0)
    }

    pub fn set_mini_uart(self, value: u32) -> (r: Self)
        ensures
            r.value == with_field32(self.value, 0, 0, value),
    {
        InterruptSource { value: set_field32(self.value, 0, 0, value) }
    }

    pub fn get_spi1(self) -> (r: u32)
        ensures
            r == field32(self.value, 1, 1),
    {
        get_field32(self.value, 1, 1)
    }

    pub fn set_spi1(self, value: u32) -> (r: Self)
        ensures
            r.value == with_field32(self.value, 1, 1, value),
    {
        InterruptSource { value: set_field32(self.value, 1, 1, value) }
    }

    pub fn get_spi2(self) -> (r: u32)
        ensures
            r == field32(self.value, 2, 2),
    {
        get_field32(self.value, 2, 2)
    }

    pub fn set_spi2(self, value: u32) -> (r: Self)
        ensures
            r.value == with_field32(self.value, 2, 2, value),
    {
        InterruptSource { value: set_field32(self.value, 2, 2, value) }
    }

}

/// Which auxiliary peripherals are enabled.
#[derive(Copy, Clone, Debug, PartialEq, Eq, Structural)]
pub struct InterruptEnable {
    pub value: u32,
}

impl InterruptEnable {
    pub fn get_mini_uart(self) -> (r: u32)
        ensures
            r == field32(self.value, 0, 0),
    {
        get_field32(self.value, 0, 0)
    }

    pub fn set_mini_uart(self, value: u32) -> (r: Self)
        ensures
            r.value == with_field32(self.value, 0, 0, value),
    {
        InterruptEnable { value: set_field32(self.value, 0, 0, value) }
    }

    pub fn get_spi1(self) -> (r: u32)
        ensures
            r == field32(self.value, 1, 1),
    {
        get_field32(self.value, 1, 1)
    }

    pub fn set_spi1(self, value: u32) -> (r: Self)
        ensures
            r.value == with_field32(self.value, 1, 1, value),
    {
        InterruptEnable { value: set_field32(self.value, 1, 1, value) }
    }

    pub fn get_spi2(self) -> (r: u32)
        ensures
            r == field32(self.value, 2, 2),
    {
        get_field32(self.value, 2, 2)
    }

    pub fn set_spi2(self, value: u32) -> (r: Self)
        ensures
            r.value == with_field32(self.value, 2, 2, value),
    {
        InterruptEnable { value: set_field32(self.value, 2, 2, value) }
    }

    pub fn disabled() -> (r: Self)
        ensures
            r.value == 0,
    {
        InterruptEnable { value: 0 }
    }

}

/// The data register: the byte to send or the byte received.
#[derive(Copy, Clone, Debug, PartialEq, Eq, Structural)]
pub struct MiniUARTIO {
    pub value: u32,
}

impl MiniUARTIO {
    pub fn get_data(self) -> (r: u32)
        ensures
            r == field32(self.value, 0, 7),
    {
        get_field32(self.value, 0, 7)
    }

    pub fn set_data(self, value: u32) -> (r: Self)
        ensures
            r.value == with_field32(self.value, 0, 7, value),
    {
        MiniUARTIO { value: set_field32(self.value, 0, 7, value) }
    }

    pub fn get_baud_rate_lower_half(self) -> (r: u32)
        ensures
            r == field32(self.value, 0, 7),
    {
        get_field32(self.value, 0, 7)
    }

    pub fn set_baud_rate_lower_half(self, value: u32) -> (r: Self)
        ensures
            r.value == with_field32(self.value, 0, 7, value),
    {
        MiniUARTIO { value: set_field32(self.value, 0, 7, value) }
    }

    /// The register holding the character `data`.
    pub fn with_data(data: char) -> (r: Self)
        ensures
            r.value == data as u32,
    {
        MiniUARTIO { value: data as u32 }
    }

}

/// Which mini UART interrupts are enabled.
#[derive(Copy, Clone, Debug, PartialEq, Eq, Structural)]
pub struct MiniUARTInterruptEnable {
    pub value: u32,
}

impl MiniUARTInterruptEnable {
    pub fn get_received_enabled(self) -> (r: u32)
        ensures
            r == field32(self.value, 0, 0),
    {
        get_field32(self.value, 0, 0)
    }

    pub fn set_received_enabled(self, value: u32) -> (r: Self)
        ensures
            r.value == with_field32(self.value, 0, 0, value),
    {
        MiniUARTInterruptEnable { value: set_field32(self.value, 0, 0, value) }
    }

    pub fn get_transmitted_enabled(self) -> (r: u32)
        ensures
            r == field32(self.value, 1, 1),
    {
        get_field32(self.value, 1, 1)
    }

    pub fn set_transmitted_enabled(self, value: u32) -> (r: Self)
        ensures
            r.value == with_field32(self.value, 1, 1, value),
    {
        MiniUARTInterruptEnable { value: set_field32(self.value, 1, 1, value) }
    }

    pub fn get_baud_rate_upper_half(self) -> (r: u32)
        ensures
            r == field32(self.value, 0, 7),
    {
        get_field32(self.value, 0, 7)
    }

    pub fn set_baud_rate_upper_half(self, value: u32) -> (r: Self)
        ensures
            r.value == with_field32(self.value, 0, 7, value),
    {
        MiniUARTInterruptEnable { value: set_field32(self.value, 0, 7, value) }
    }

    pub fn disabled() -> (r: Self)
        ensures
            r.value == 0,
    {
        MiniUARTInterruptEnable { value: 0 }
    }

    pub fn enabled() -> (r: Self)
        ensures
            r.value == 0b01,
    {
        MiniUARTInterruptEnable { value: 0b01 }
    }

}

/// The pending interrupt; writing the id bits clears the FIFOs.
#[derive(Copy, Clone, Debug, PartialEq, Eq, Structural)]
pub struct MiniUARTInterruptStatus {
    pub value: u32,
}

impl MiniUARTInterruptStatus {
    pub fn get_interrupt_pending(self) -> (r: u32)
        ensures
            r == field32(self.value, 0, 0),
    {
        get_field32(self.value, 0, 0)
    }

    pub fn set_interrupt_pending(self, value: u32) -> (r: Self)
        ensures
            r.value == with_field32(self.value, 0, 0, value),
    {
        MiniUARTInterruptStatus { value: set_field32(self.value, 0, 0, value) }
    }

    pub fn get_interrupt_id(self) -> (r: u32)
        ensures
            r == field32(self.value, 1, 2),
    {
        get_field32(self.value, 1, 2)
    }

    pub fn set_interrupt_id(self, value: u32) -> (r: Self)
        ensures
            r.value == with_field32(self.value, 1, 2, value),
    {
        MiniUARTInterruptStatus { value: set_field32(self.value, 1, 2, value) }
    }

    pub fn get_fifo_enables(self) -> (r: u32)
        ensures
            r == field32(self.value, 6, 7),
    {
        get_field32(self.value, 6, 7)
    }

    pub fn set_fifo_enables(self, value: u32) -> (r: Self)
        ensures
            r.value == with_field32(self.value, 6, 7, value),
    {
        MiniUARTInterruptStatus { value: set_field32(self.value, 6, 7, value) }
    }

}

/// The data format.
#[derive(Copy, Clone, Debug, PartialEq, Eq, Structural)]
pub struct LineControl {
    pub value: u32,
}

impl LineControl {
    pub fn get_data_size(self) -> (r: u32)
        ensures
            r == field32(self.value, 0, 1),
    {
        get_field32(self.value, 0, 1)
    }

    pub fn set_data_size(self, value: u32) -> (r: Self)
        ensures
            r.value == with_field32(self.value, 0, 1, value),
    {
        LineControl { value: set_field32(self.value, 0, 1, value) }
    }

    pub fn get_break_condition(self) -> (r: u32)
        ensures
            r == field32(self.value, 6, 6),
    {
        get_field32(self.value, 6, 6)
    }

    pub fn set_break_condition(self, value: u32) -> (r: Self)
        ensures
            r.value == with_field32(self.value, 6, 6, value),
    {
        LineControl { value: set_field32(self.value, 6, 6, value) }
    }

    pub fn get_dlab_access(self) -> (r: u32)
        ensures
            r == field32(self.value, 7, 7),
    {
        get_field32(self.value, 7, 7)
    }

    pub fn set_dlab_access(self, value: u32) -> (r: Self)
        ensures
            r.value == with_field32(self.value, 7, 7, value),
    {
        LineControl { value: set_field32(self.value, 7, 7, value) }
    }

}

/// The modem control lines.
#[derive(Copy, Clone, Debug, PartialEq, Eq, Structural)]
pub struct ModemControl {
    pub value: u32,
}

impl ModemControl {
    pub fn get_request_to_send(self) -> (r: u32)
        ensures
            r == field32(self.value, 1, 1),
    {
        get_field32(self.value, 1, 1)
    }

    pub fn set_request_to_send(self, value: u32) -> (r: Self)
        ensures
            r.value == with_field32(self.value, 1, 1, value),
    {
        ModemControl { value: set_field32(self.value, 1, 1, value) }
    }

}

/// The state of the line: data received, room to send.
#[derive(Copy, Clone, Debug, PartialEq, Eq, Structural)]
pub struct LineStatus {
    pub value: u32,
}

impl LineStatus {
    pub fn get_data_ready(self) -> (r: u32)
        ensures
            r == field32(self.value, 0, 0),
    {
        get_field32(self.value, 0, 0)
    }

    pub fn set_data_ready(self, value: u32) -> (r: Self)
        ensures
            r.value == with_field32(self.value, 0, 0, value),
    {
        LineStatus { value: set_field32(self.value, 0, 0, value) }
    }

    pub fn get_receiver_overrun(self) -> (r: u32)
        ensures
            r == field32(self.value, 1, 1),
    {
        get_field32(self.value, 1, 1)
    }

    pub fn set_receiver_overrun(self, value: u32) -> (r: Self)
        ensures
            r.value == with_field32(self.value, 1, 1, value),
    {
        LineStatus { value: set_field32(self.value, 1, 1, value) }
    }

    pub fn get_transmitter_empty(self) -> (r: u32)
        ensures
            r == field32(self.value, 5, 5),
    {
        get_field32(self.value, 5, 5)
    }

    pub fn set_transmitter_empty(self, value: u32) -> (r: Self)
        ensures
            r.value == with_field32(self.value, 5, 5, value),
    {
        LineStatus { value: set_field32(self.value, 5, 5, value) }
    }

    pub fn get_transmitter_idle(self) -> (r: u32)
        ensures
            r == field32(self.value, 6, 6),
    {
        get_field32(self.value, 6, 6)
    }

    pub fn set_transmitter_idle(self, value: u32) -> (r: Self)
        ensures
            r.value == with_field32(self.value, 6, 6, value),
    {
        LineStatus { value: set_field32(self.value, 6, 6, value) }
    }

}

/// The modem status lines.
#[derive(Copy, Clone, Debug, PartialEq, Eq, Structural)]
pub struct ModemStatus {
    pub value: u32,
}

impl ModemStatus {
    pub fn get_clear_to_send(self) -> (r: u32)
        ensures
            r == field32(self.value, 5, 5),
    {
        get_field32(self.value, 5, 5)
    }

    pub fn set_clear_to_send(self, value: u32) -> (r: Self)
        ensures
            r.value == with_field32(self.value, 5, 5, value),
    {
        ModemStatus { value: set_field32(self.value, 5, 5, value) }
    }

}

/// A byte of scratch storage.
#[derive(Copy, Clone, Debug, PartialEq, Eq, Structural)]
pub struct Scratch {
    pub value: u32,
}

impl Scratch {
    pub fn get_scratch(self) -> (r: u32)
        ensures
            r == field32(self.value, 0, 7),
    {
        get_field32(self.value, 0, 7)
    }

    pub fn set_scratch(self, value: u32) -> (r: Self)
        ensures
            r.value == with_field32(self.value, 0, 7, value),
    {
        Scratch { value: set_field32(self.value, 0, 7, value) }
    }

}

/// Receiver and transmitter enables.
#[derive(Copy, Clone, Debug, PartialEq, Eq, Structural)]
pub struct ExtraControl {
    pub value: u32,
}

impl ExtraControl {
    pub fn get_receiver_enabled(self) -> (r: u32)
        ensures
            r == field32(self.value, 0, 0),
    {
        get_field32(self.value, 0, 0)
    }

    pub fn set_receiver_enabled(self, value: u32) -> (r: Self)
        ensures
            r.value == with_field32(self.value, 0, 0, value),
    {
        ExtraControl { value: set_field32(self.value, 0, 0, value) }
    }

    pub fn get_transmitter_enabled(self) -> (r: u32)
        ensures
            r == field32(self.value, 1, 1),
    {
        get_field32(self.value, 1, 1)
    }

    pub fn set_transmitter_enabled(self, value: u32) -> (r: Self)
        ensures
            r.value == with_field32(self.value, 1, 1, value),
    {
        ExtraControl { value: set_field32(self.value, 1, 1, value) }
    }

    pub fn empty() -> (r: Self)
        ensures
            r.value == 0,
    {
        ExtraControl { value: 0 }
    }

    pub fn enabled() -> (r: Self)
        ensures
            r.value == 0b11,
    {
        ExtraControl { value: 0b11 }
    }

}

/// The extra status register.
#[derive(Copy, Clone, Debug, PartialEq, Eq, Structural)]
pub struct ExtraStatus {
    pub value: u32,
}

impl ExtraStatus {
}

/// The baud rate divisor.
#[derive(Copy, Clone, Debug, PartialEq, Eq, Structural)]
pub struct BaudRate {
    pub value: u32,
}

impl BaudRate {
    pub fn get_baud_rate(self) -> (r: u32)
        ensures
            r == field32(self.value, 0, 15),
    {
        get_field32(self.value, 0, 15)
    }

    pub fn set_baud_rate(self, value: u32) -> (r: Self)
        ensures
            r.value == with_field32(self.value, 0, 15, value),
    {
        BaudRate { value: set_field32(self.value, 0, 15, value) }
    }

    pub fn with_baud_rate(rate: u32) -> (r: Self)
        ensures
            r.value == rate,
    {
        BaudRate { value: rate }
    }

}


/// The auxiliary peripherals' register block, from the interrupt source
/// register to the mini UART's baud rate.
pub struct MiniUARTRegisters {
    pub interrupt: Volatile<InterruptSource>,
    pub enables: Volatile<InterruptEnable>,
    pub res: [u8; 56],
    pub io_data: Volatile<MiniUARTIO>,
    pub interrupt_enable: Volatile<MiniUARTInterruptEnable>,
    pub interrupt_identify: Volatile<MiniUARTInterruptStatus>,
    pub line_control: Volatile<LineControl>,
    pub modem_control: Volatile<ModemControl>,
    pub line_status: Volatile<LineStatus>,
    pub modem_status: Volatile<ModemStatus>,
    pub scratch: Volatile<Scratch>,
    pub extra_control: Volatile<ExtraControl>,
    pub extra_status: Volatile<ExtraStatus>,
    pub baud_rate: Volatile<BaudRate>,
}

/// Divisor for 115200 baud from the 250 MHz core clock.
pub const BAUD_RATE_DIVISOR: u32 = 270;

/// The mini UART's transmit pin, and its receive pin.
pub const TX_PIN: u32 = 14;
pub const RX_PIN: u32 = 15;

/// A console on the mini UART.
pub struct MiniUARTController {
    pub gpio: GPIOController,
    pub registers: MiniUARTRegisters,
    pub config: UARTConfig,
    /// Each character handed to the transmitter, oldest first.
    pub transmitted: Ghost<Seq<char>>,
}

impl MiniUARTController {
    /// A console on `registers`, routing its pins through `gpio`; plain
    /// output, no line written yet.
    pub fn new(gpio: GPIOController, registers: MiniUARTRegisters) -> (r: Self)
        ensures
            r.config.level == LogLevel::Plain,
            r.config.lines == 0,
            r.gpio == gpio,
            r.registers == registers,
            r.transmitted@ == Seq::<char>::empty(),
    {
        MiniUARTController { gpio, registers, config: UARTConfig::new(), transmitted: Ghost(Seq::empty()) }
    }

    /// Brings the mini UART up: enables it, sets 8-bit data, raises the
    /// request-to-send line, enables its receive interrupt, clears the FIFOs,
    /// sets 115200 baud, routes pins 14 and 15 to it (alternate function 5)
    /// and enables its transmitter and receiver.
    pub fn init(&mut self)
        ensures
            final(self).registers.enables@.value == with_field32(old(self).registers.enables@.value, 0, 0, 1),
            final(self).registers.line_control@.value == 0b11,
            final(self).registers.modem_control@.value == with_field32(old(self).registers.modem_control@.value, 1, 1, 0),
            final(self).registers.interrupt_enable@.value == 0b01,
            final(self).registers.interrupt_identify@.value == with_field32(
                with_field32(old(self).registers.interrupt_identify@.value, 1, 2, 0b11),
                6,
                7,
                0b11,
            ),
            final(self).registers.baud_rate@.value == BAUD_RATE_DIVISOR,
            final(self).registers.extra_control@.value == 0b11,
            final(self).registers.line_status@ == old(self).registers.line_status@,
            final(self).config == old(self).config,
            forall|n: u32|
                n <= PINS ==> #[trigger] pin_mode_of(final(self).gpio.registers, n) == if n == TX_PIN
                    || n == RX_PIN {
                    mode_bits(Mode::AF5)
                } else {
                    pin_mode_of(old(self).gpio.registers, n)
                },
    {
        let enables = self.registers.enables.get();
        self.registers.enables.set(enables.set_mini_uart(1));
        self.registers.extra_control.set(ExtraControl::empty());
        self.registers.line_control.set(LineControl { value: 0b11 });
        let modem_control = self.registers.modem_control.get();
        self.registers.modem_control.set(modem_control.set_request_to_send(0));
        self.registers.interrupt_enable.set(MiniUARTInterruptEnable::enabled());
        let identify = self.registers.interrupt_identify.get();
        self.registers.interrupt_identify.set(identify.set_interrupt_id(0b11).set_fifo_enables(0b11));
        self.registers.baud_rate.set(BaudRate::with_baud_rate(BAUD_RATE_DIVISOR));
        let ghost r0 = self.gpio.registers;
        self.gpio.set_mode(Pin::new_unchecked(TX_PIN), Mode::AF5);
        let ghost r1 = self.gpio.registers;
        self.gpio.set_mode(Pin::new_unchecked(RX_PIN), Mode::AF5);
        proof {
            assert forall|n: u32| n <= PINS implies #[trigger] pin_mode_of(self.gpio.registers, n) == if n
                == TX_PIN || n == RX_PIN {
                mode_bits(Mode::AF5)
            } else {
                pin_mode_of(r0, n)
            } by {
                lemma_set_mode_then_get(r0, r1, TX_PIN, Mode::AF5, n);
                lemma_set_mode_then_get(r1, self.gpio.registers, RX_PIN, Mode::AF5, n);
                lemma_set_mode_then_get(r1, self.gpio.registers, RX_PIN, Mode::AF5, TX_PIN);
            }
        }
        self.registers.extra_control.set(ExtraControl::enabled());
    }

    /// The transmitter has room for a character.
    pub fn is_transmitter_ready(&self) -> (r: bool)
        ensures
            r == (field32(self.registers.line_status@.value, 5, 5) != 0),
    {
        self.registers.line_status.get().get_transmitter_empty() != 0
    }

    /// Sends `c` if the transmitter has room for it, and tells whether it
    /// did; the caller waits and tries again otherwise.
    pub fn putc(&mut self, c: char) -> (r: bool)
        ensures
            r == (field32(old(self).registers.line_status@.value, 5, 5) != 0),
            r ==> final(self).registers.io_data@.value == c as u32,
            !r ==> final(self).registers.io_data@ == old(self).registers.io_data@,
            final(self).registers.line_status@ == old(self).registers.line_status@,
            final(self).config == old(self).config,
            final(self).transmitted@ == if r {
                old(self).transmitted@.push(c)
            } else {
                old(self).transmitted@
            },
    {
        if !self.is_transmitter_ready() {
            return false;
        }
        self.registers.io_data.set(MiniUARTIO::with_data(c));
        self.transmitted = Ghost(self.transmitted@.push(c));
        true
    }

    /// Sends a line feed, then a carriage return.
    pub fn newline(&mut self) -> (r: bool)
        ensures
            r == (field32(old(self).registers.line_status@.value, 5, 5) != 0),
            r ==> final(self).registers.io_data@.value == '\r' as u32,
            final(self).registers.line_status@ == old(self).registers.line_status@,
            final(self).config == old(self).config,
            final(self).transmitted@ == if r {
                old(self).transmitted@.push('\n').push('\r')
            } else {
                old(self).transmitted@
            },
    {
        if !self.putc('\n') {
            return false;
        }
        self.putc('\r')
    }

    /// Sends the characters of `s` in order.
    pub fn write(&mut self, s: &str) -> (r: bool)
        ensures
            r == (s@.len() == 0 || field32(old(self).registers.line_status@.value, 5, 5) != 0),
            r && s@.len() > 0 ==> final(self).registers.io_data@.value == s@.last() as u32,
            final(self).registers.line_status@ == old(self).registers.line_status@,
            final(self).config == old(self).config,
            final(self).transmitted@ == if r {
                old(self).transmitted@ + s@
            } else {
                old(self).transmitted@
            },
    {
        let ghost ready = field32(self.registers.line_status@.value, 5, 5) != 0;
        for c in it: s.chars()
            invariant
                self.registers.line_status@ == old(self).registers.line_status@,
                self.config == old(self).config,
                ready == (field32(self.registers.line_status@.value, 5, 5) != 0),
                it.seq() == s@,
                it.index() > 0 ==> ready,
                ready && it.index() > 0 ==> self.registers.io_data@.value == s@[it.index() - 1] as u32,
                self.transmitted@ == old(self).transmitted@ + s@.take(it.index() as int),
        {
            let ghost k = it.index();
            if !self.putc(c) {
                return false;
            }
            assert(s@.take(k + 1) =~= s@.take(k).push(c));
        }
        assert(s@.take(s@.len() as int) =~= s@);
        true
    }

    /// Counts a new line; in debug mode, gives its number, which goes in
    /// front of the line.
    pub fn update_debug(&mut self) -> (r: Option<u64>)
        requires
            old(self).config.lines < u64::MAX,
        ensures
            final(self).config.lines == old(self).config.lines + 1,
            final(self).config.level == old(self).config.level,
            r == (if old(self).config.level == LogLevel::Debug {
                Some((old(self).config.lines + 1) as u64)
            } else {
                None::<u64>
            }),
            final(self).registers == old(self).registers,
    {
        self.config.next_line()
    }

    pub fn set_log_level(&mut self, level: LogLevel)
        ensures
            final(self).config.level == level,
            final(self).config.lines == old(self).config.lines,
    {
        self.config.level = level;
    }
}

} // verus!

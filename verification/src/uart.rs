//! A console on the mini UART, driven through the auxiliary peripherals'
//! registers by their offsets from the start of the peripheral space.
use vstd::prelude::*;
use crate::gpio::{lemma_set_mode_then_get, mode_bits, pin_mode_of, GPIOController, Mode, Pin, PINS};

verus! {

/// Where the auxiliary peripherals start.
pub const UART_BASE_OFFSET: u32 = 0x215000;

pub const AUX_ENABLE: u32 = 0x215004;
pub const AUX_MU_IO: u32 = 0x215040;
pub const AUX_MU_IER: u32 = 0x215044;
pub const AUX_MU_IIR: u32 = 0x215048;
pub const AUX_MU_LCR: u32 = 0x21504c;
pub const AUX_MU_MCR: u32 = 0x215050;
pub const AUX_MU_LSR: u32 = 0x215054;
pub const AUX_MU_CNTL: u32 = 0x215060;
pub const AUX_MU_BAUD: u32 = 0x215068;

/// How console lines are written: as they are, or numbered.
#[derive(Copy, Clone, Debug, PartialEq, Eq, Structural)]
pub enum LogLevel {
    Plain,
    Debug,
}

/// The console's settings, and the lines written so far.
#[derive(Copy, Clone, Debug, PartialEq, Eq, Structural)]
pub struct UARTConfig {
    pub level: LogLevel,
    pub lines: u64,
}

impl UARTConfig {
    /// Plain output, no line written yet.
    pub fn new() -> (r: Self)
        ensures
            r.level == LogLevel::Plain,
            r.lines == 0,
    {
        UARTConfig { level: LogLevel::Plain, lines: 0 }
    }

    /// Counts a new line; in debug mode, gives its number.
    pub fn next_line(&mut self) -> (r: Option<u64>)
        requires
            old(self).lines < u64::MAX,
        ensures
            final(self).lines == old(self).lines + 1,
            final(self).level == old(self).level,
            r == (if old(self).level == LogLevel::Debug {
                Some((old(self).lines + 1) as u64)
            } else {
                None::<u64>
            }),
    {
        self.lines = self.lines + 1;
        if self.level == LogLevel::Debug {
            Some(self.lines)
        } else {
            None
        }
    }
}

/// The registers of the auxiliary peripherals the console uses.
#[derive(Copy, Clone, Debug, PartialEq, Eq, Structural)]
pub struct AuxRegisters {
    pub enable: u32,
    pub io: u32,
    pub ier: u32,
    pub iir: u32,
    pub lcr: u32,
    pub mcr: u32,
    pub lsr: u32,
    pub cntl: u32,
    pub baud: u32,
}

/// `r` with the register at `offset` set to `data`.
pub open spec fn with_aux_register(r: AuxRegisters, offset: usize, data: u32) -> AuxRegisters {
    if offset == AUX_ENABLE {
        AuxRegisters { enable: data, ..r }
    } else if offset == AUX_MU_IO {
        AuxRegisters { io: data, ..r }
    } else if offset == AUX_MU_IER {
        AuxRegisters { ier: data, ..r }
    } else if offset == AUX_MU_IIR {
        AuxRegisters { iir: data, ..r }
    } else if offset == AUX_MU_LCR {
        AuxRegisters { lcr: data, ..r }
    } else if offset == AUX_MU_MCR {
        AuxRegisters { mcr: data, ..r }
    } else if offset == AUX_MU_LSR {
        AuxRegisters { lsr: data, ..r }
    } else if offset == AUX_MU_CNTL {
        AuxRegisters { cntl: data, ..r }
    } else {
        AuxRegisters { baud: data, ..r }
    }
}

/// `offset` is one of the registers of `AuxRegisters`.
pub open spec fn is_aux_offset(offset: usize) -> bool {
    offset == AUX_ENABLE || offset == AUX_MU_IO || offset == AUX_MU_IER || offset == AUX_MU_IIR
        || offset == AUX_MU_LCR || offset == AUX_MU_MCR || offset == AUX_MU_LSR || offset
        == AUX_MU_CNTL || offset == AUX_MU_BAUD
}

/// The register at `offset`.
pub open spec fn aux_register(r: AuxRegisters, offset: usize) -> u32 {
    if offset == AUX_ENABLE {
        r.enable
    } else if offset == AUX_MU_IO {
        r.io
    } else if offset == AUX_MU_IER {
        r.ier
    } else if offset == AUX_MU_IIR {
        r.iir
    } else if offset == AUX_MU_LCR {
        r.lcr
    } else if offset == AUX_MU_MCR {
        r.mcr
    } else if offset == AUX_MU_LSR {
        r.lsr
    } else if offset == AUX_MU_CNTL {
        r.cntl
    } else {
        r.baud
    }
}

impl AuxRegisters {
    /// Every register zero.
    pub fn zeroed() -> (r: Self)
        ensures
            forall|offset: usize| is_aux_offset(offset) ==> aux_register(r, offset) == 0,
    {
        AuxRegisters { enable: 0, io: 0, ier: 0, iir: 0, lcr: 0, mcr: 0, lsr: 0, cntl: 0, baud: 0 }
    }

    /// The register at `offset`.
    pub fn read_at_offset(&self, offset: usize) -> (r: u32)
        requires
            is_aux_offset(offset),
        ensures
            r == aux_register(*self, offset),
    {
        if offset == AUX_ENABLE as usize {
            self.enable
        } else if offset == AUX_MU_IO as usize {
            self.io
        } else if offset == AUX_MU_IER as usize {
            self.ier
        } else if offset == AUX_MU_IIR as usize {
            self.iir
        } else if offset == AUX_MU_LCR as usize {
            self.lcr
        } else if offset == AUX_MU_MCR as usize {
            self.mcr
        } else if offset == AUX_MU_LSR as usize {
            self.lsr
        } else if offset == AUX_MU_CNTL as usize {
            self.cntl
        } else {
            self.baud
        }
    }

    /// Writes `data` to the register at `offset`; the others keep their values.
    pub fn write_at_offset(&mut self, data: u32, offset: usize)
        requires
            is_aux_offset(offset),
        ensures
            *final(self) == with_aux_register(*old(self), offset, data),
    {
        if offset == AUX_ENABLE as usize {
            self.enable = data;
        } else if offset == AUX_MU_IO as usize {
            self.io = data;
        } else if offset == AUX_MU_IER as usize {
            self.ier = data;
        } else if offset == AUX_MU_IIR as usize {
            self.iir = data;
        } else if offset == AUX_MU_LCR as usize {
            self.lcr = data;
        } else if offset == AUX_MU_MCR as usize {
            self.mcr = data;
        } else if offset == AUX_MU_LSR as usize {
            self.lsr = data;
        } else if offset == AUX_MU_CNTL as usize {
            self.cntl = data;
        } else {
            self.baud = data;
        }
    }
}

/// A console on the mini UART, through the auxiliary registers.
pub struct UARTController {
    pub gpio: GPIOController,
    pub mmio: AuxRegisters,
    pub config: UARTConfig,
    /// Each character written to the data register, oldest first.
    pub transmitted: Ghost<Seq<char>>,
}

impl UARTController {
    /// A console on `mmio`, without touching the hardware.
    pub fn new(gpio: GPIOController, mmio: AuxRegisters) -> (r: Self)
        ensures
            r.gpio == gpio,
            r.mmio == mmio,
            r.config == (UARTConfig { level: LogLevel::Plain, lines: 0 }),
            r.transmitted@ == Seq::<char>::empty(),
    {
        UARTController { gpio, mmio, config: UARTConfig::new(), transmitted: Ghost(Seq::empty()) }
    }

    /// Brings the mini UART up: enables it, stops transmitter and receiver,
    /// sets 8-bit data, raises request-to-send, disables its interrupts,
    /// clears the FIFOs, sets 115200 baud, routes pins 14 and 15 to it
    /// (alternate function 5) and starts transmitter and receiver.
    pub fn init(gpio: GPIOController, mmio: AuxRegisters) -> (r: Self)
        ensures
            r.mmio.enable == mmio.enable | 1,
            r.mmio.cntl == 3,
            r.mmio.lcr == 0b11,
            r.mmio.mcr == 0,
            r.mmio.ier == 0,
            r.mmio.iir == 0b11000110,
            r.mmio.baud == 270,
            r.mmio.lsr == mmio.lsr,
            r.mmio.io == mmio.io,
            r.config == (UARTConfig { level: LogLevel::Plain, lines: 0 }),
            r.transmitted@ == Seq::<char>::empty(),
            forall|n: u32|
                n <= PINS ==> #[trigger] pin_mode_of(r.gpio.registers, n) == if n == 14 || n == 15 {
                    mode_bits(Mode::AF5)
                } else {
                    pin_mode_of(gpio.registers, n)
                },
    {
        let mut mmio = mmio;
        let mut gpio = gpio;
        let enabled = mmio.read_at_offset(AUX_ENABLE as usize) | 1;
        mmio.write_at_offset(enabled, AUX_ENABLE as usize);
        mmio.write_at_offset(0, AUX_MU_CNTL as usize);
        mmio.write_at_offset(0b11, AUX_MU_LCR as usize);
        mmio.write_at_offset(0, AUX_MU_MCR as usize);
        mmio.write_at_offset(0, AUX_MU_IER as usize);
        mmio.write_at_offset(0b11000110, AUX_MU_IIR as usize);
        mmio.write_at_offset(270, AUX_MU_BAUD as usize);
        let ghost r0 = gpio.registers;
        gpio.set_mode(Pin::new_unchecked(14), Mode::AF5);
        let ghost r1 = gpio.registers;
        gpio.set_mode(Pin::new_unchecked(15), Mode::AF5);
        proof {
            assert forall|n: u32| n <= PINS implies #[trigger] pin_mode_of(gpio.registers, n) == if n
                == 14 || n == 15 {
                mode_bits(Mode::AF5)
            } else {
                pin_mode_of(r0, n)
            } by {
                lemma_set_mode_then_get(r0, r1, 14, Mode::AF5, n);
                lemma_set_mode_then_get(r1, gpio.registers, 15, Mode::AF5, n);
                lemma_set_mode_then_get(r1, gpio.registers, 15, Mode::AF5, 14);
            }
        }
        mmio.write_at_offset(3, AUX_MU_CNTL as usize);
        UARTController { gpio, mmio, config: UARTConfig::new(), transmitted: Ghost(Seq::empty()) }
    }

    /// Sends `c` if the transmitter has room for it (bit 5 of the line
    /// status), and tells whether it did; the caller waits and tries again
    /// otherwise.
    pub fn putc(&mut self, c: char) -> (r: bool)
        ensures
            r == (old(self).mmio.lsr & 0b100000 != 0),
            r ==> final(self).mmio.io == c as u32,
            !r ==> final(self).mmio.io == old(self).mmio.io,
            final(self).mmio.lsr == old(self).mmio.lsr,
            final(self).config == old(self).config,
            final(self).transmitted@ == if r {
                old(self).transmitted@.push(c)
            } else {
                old(self).transmitted@
            },
    {
        if self.mmio.read_at_offset(AUX_MU_LSR as usize) & 0b100000 == 0 {
            return false;
        }
        self.mmio.write_at_offset(c as u32, AUX_MU_IO as usize);
        self.transmitted = Ghost(self.transmitted@.push(c));
        true
    }

    /// Sends a line feed, then a carriage return.
    pub fn newline(&mut self) -> (r: bool)
        ensures
            r == (old(self).mmio.lsr & 0b100000 != 0),
            r ==> final(self).mmio.io == '\r' as u32,
            final(self).mmio.lsr == old(self).mmio.lsr,
            final(self).config == old(self).config,
            final(self).transmitted@ == if r {
                old(self).transmitted@.push('\n').push('\r')
            } else {
                old(self).transmitted@
            },
    {
        if !self.putc('\n') {
            return false;
        }
        self.putc('\r')
    }

    /// Sends the characters of `s` in order.
    pub fn write(&mut self, s: &str) -> (r: bool)
        ensures
            r == (s@.len() == 0 || old(self).mmio.lsr & 0b100000 != 0),
            r && s@.len() > 0 ==> final(self).mmio.io == s@.last() as u32,
            final(self).mmio.lsr == old(self).mmio.lsr,
            final(self).config == old(self).config,
            final(self).transmitted@ == if r {
                old(self).transmitted@ + s@
            } else {
                old(self).transmitted@
            },
    {
        let ghost ready = self.mmio.lsr & 0b100000 != 0;
        for c in it: s.chars()
            invariant
                self.mmio.lsr == old(self).mmio.lsr,
                self.config == old(self).config,
                ready == (self.mmio.lsr & 0b100000 != 0),
                it.seq() == s@,
                it.index() > 0 ==> ready,
                ready && it.index() > 0 ==> self.mmio.io == s@[it.index() - 1] as u32,
                self.transmitted@ == old(self).transmitted@ + s@.take(it.index() as int),
        {
            let ghost k = it.index();
            if !self.putc(c) {
                return false;
            }
            assert(s@.take(k + 1) =~= s@.take(k).push(c));
        }
        assert(s@.take(s@.len() as int) =~= s@);
        true
    }

    /// Counts a new line; in debug mode, gives its number, which goes in
    /// front of the line.
    pub fn update_debug(&mut self) -> (r: Option<u64>)
        requires
            old(self).config.lines < u64::MAX,
        ensures
            final(self).config.lines == old(self).config.lines + 1,
            final(self).config.level == old(self).config.level,
            r == (if old(self).config.level == LogLevel::Debug {
                Some((old(self).config.lines + 1) as u64)
            } else {
                None::<u64>
            }),
            final(self).mmio == old(self).mmio,
    {
        self.config.next_line()
    }

    pub fn set_log_level(&mut self, level: LogLevel)
        ensures
            final(self).config.level == level,
            final(self).config.lines == old(self).config.lines,
            final(self).mmio == old(self).mmio,
    {
        self.config.level = level;
    }
}

/// The auxiliary registers' offsets from the peripheral base, as the
/// BCM2835 places them: AUX_ENABLES at 0x215004 and the mini UART's IO,
/// IER, IIR, LCR, MCR, LSR, CNTL and BAUD registers at 0x215040, 0x44,
/// 0x48, 0x4C, 0x50, 0x54, 0x60 and 0x68.
pub proof fn lemma_aux_offsets()
    ensures
        AUX_ENABLE == 0x215004,
        AUX_MU_IO == 0x215040,
        AUX_MU_IER == 0x215044,
        AUX_MU_IIR == 0x215048,
        AUX_MU_LCR == 0x21504c,
        AUX_MU_MCR == 0x215050,
        AUX_MU_LSR == 0x215054,
        AUX_MU_CNTL == 0x215060,
        AUX_MU_BAUD == 0x215068,
{
}

} // verus!

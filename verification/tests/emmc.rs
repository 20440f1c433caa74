use raspi_os::emmc::{interrupt_poll, Interrupt};
use raspi_os::emmc::{
    clock_divider_for, ACMD41Response, EMMCConfiguration, EMMCRegisters, InterruptType,
    SDCommand, SDConfigurationRegister, StatusSetting, APPLICATION_SPECIFIC_COMMAND,
    APPLICATION_SPECIFIC_COMMAND_48, CARD_SELECT, GO_IDLE, READ_MULTIPLE_BLOCKS,
    READ_SINGLE_BLOCK, SEND_CARD_IDENTIFICATION, SEND_INTERFACE_CONDITIONS, SEND_OP_COND,
    SEND_RELATIVE_ADDRESS, SET_BLOCK_COUNT, STOP_TRANSMISSION,
};
use raspi_os::emmc_controller::{
    application_command, application_command_outcome, command_delay_millis, initialize_pins,
    EMMCController, EMMCError, EMMCSlot,
};
use raspi_os::fat32::Sector;
use raspi_os::gpio::{CpuDelay, GPIOController, GPIORegisters, Mode};
use raspi_os::timer::Timer;
use std::cell::{Cell, RefCell};

struct NoDelay;

impl CpuDelay for NoDelay {
    fn wait_for_cycles(&self, _cycles: u64) {}
}

struct NullTimer;

impl Timer for NullTimer {
    fn delay_micros(&self, _micros: u64) {}
    fn delay_millis(&self, _millis: u64) {}
    fn get_micros(&self) -> u64 {
        0
    }
    fn set_timeout(&self, _micros: u32) {}
    fn clear_matches(&self) {}
}

/// A card that answers as a version 2 SD card would.
struct FakeCard {
    version: u32,
    reset_completes: bool,
    op_cond: u32,
    relative_address: u32,
    scr: [u32; 2],
    commands: RefCell<Vec<(u32, u32)>>,
    last: Cell<u32>,
    next_word: Cell<u32>,
    scr_read: Cell<usize>,
    four_lines: Cell<bool>,
    block_size: Cell<(u32, u32)>,
}

impl FakeCard {
    fn new() -> Self {
        FakeCard {
            version: 2,
            reset_completes: true,
            op_cond: 0x80ff_8000,
            relative_address: 0x1234_0000,
            scr: [0x0235_8400, 0],
            commands: RefCell::new(Vec::new()),
            last: Cell::new(0),
            next_word: Cell::new(0),
            scr_read: Cell::new(0),
            four_lines: Cell::new(false),
            block_size: Cell::new((0, 0)),
        }
    }

    fn sent(&self) -> Vec<(u32, u32)> {
        self.commands.borrow().clone()
    }
}

impl EMMCSlot for FakeCard {
    fn wait_for_interrupt(&self, _interrupt: InterruptType) -> Result<(), &'static str> {
        Ok(())
    }
    fn wait_for_status(&self, _status: StatusSetting) -> Result<(), &'static str> {
        Ok(())
    }
    fn wait_for_command_response(&self) -> Result<u32, &'static str> {
        let c = self.last.get();
        if c == 0x2902_0000 {
            Ok(self.op_cond)
        } else if c == SEND_RELATIVE_ADDRESS {
            Ok(self.relative_address)
        } else if c == APPLICATION_SPECIFIC_COMMAND_48 {
            Ok(0x20)
        } else if c == SEND_INTERFACE_CONDITIONS {
            Ok(self.commands.borrow().last().map_or(0, |&(_, argument)| argument))
        } else {
            Ok(0)
        }
    }
    fn read_response_registers(&self) -> [u32; 3] {
        [0, 0, 0]
    }
    fn send_command(&self, command: SDCommand, argument: u32) {
        self.last.set(command.value);
        self.commands.borrow_mut().push((command.value, argument));
    }
    fn is_clock_enabled(&self) -> bool {
        true
    }
    fn enable_clock(&self) {}
    fn disable_clock(&self) {}
    fn configure_clock(&self, _d: u32) {}
    fn configure_internal_clocks(&self, _data_timeout_exponent: u32) {}
    fn start_reset(&self) {}
    fn is_reset_complete(&self) -> bool {
        self.reset_completes
    }
    fn enable_interrupts(&self) {}
    fn set_block_size_and_count(&self, size: u32, count: u32) {
        self.block_size.set((size, count));
    }
    fn is_read_available(&self) -> bool {
        true
    }
    fn read_data(&self) -> u32 {
        if self.last.get() == 0x3322_0010 && self.scr_read.get() < 2 {
            let i = self.scr_read.get();
            self.scr_read.set(i + 1);
            return self.scr[i];
        }
        let w = self.next_word.get();
        self.next_word.set(w.wrapping_add(1));
        w
    }
    fn get_host_controller_specification_version(&self) -> u32 {
        self.version
    }
    fn use_four_data_lines(&self) {
        self.four_lines.set(true);
    }
    fn is_inhibited(&self) -> bool {
        false
    }
    fn rewrite_interrupt(&self) {}
}

#[test]
fn clock_divider_for_identification_clock() {
    // 41666666 / 400000 = 104; c - 1 = 103 has its top bit at 6: 1 << 6 = 64.
    assert_eq!(clock_divider_for(400_000, 1), 64 << 8);
    // A newer controller divides by c = 104 itself.
    assert_eq!(clock_divider_for(400_000, 2), 104 << 8);
}

#[test]
fn clock_divider_for_transfer_clock() {
    // 41666666 / 25000000 = 1: the divider becomes 2.
    assert_eq!(clock_divider_for(25_000_000, 1), 2 << 8);
    assert_eq!(clock_divider_for(25_000_000, 2), 2 << 8);
}

#[test]
fn clock_divider_for_slow_clock_keeps_upper_bits() {
    // 41666666 / 50000 = 833 = 0x341: low byte 0x41, upper two bits 0x300 >> 2 = 0xc0.
    assert_eq!(clock_divider_for(50_000, 2), (0x41 << 8) | 0xc0);
    // Before version 3 the shift stops at 7.
    assert_eq!(clock_divider_for(50_000, 1), 128 << 8);
}

#[test]
fn calculate_d_uses_hardware_version() {
    let mut controller = EMMCController::new(FakeCard::new(), NullTimer);
    controller.configuration.hardware_version = 2;
    assert_eq!(controller.calculate_d(400_000), 104 << 8);
    controller.configuration.hardware_version = 0;
    assert_eq!(controller.calculate_d(400_000), 64 << 8);
}

#[test]
fn application_command_has_48_bit_answer_once_addressed() {
    assert_eq!(application_command(0).value, APPLICATION_SPECIFIC_COMMAND);
    assert_eq!(application_command(0x1234_0000).value, APPLICATION_SPECIFIC_COMMAND_48);
}

#[test]
fn application_command_outcome_cases() {
    assert_eq!(application_command_outcome(0, Ok(0)), Ok(()));
    assert_eq!(application_command_outcome(5, Ok(0)), Err(EMMCError::ApplicationCommandRefused));
    assert_eq!(application_command_outcome(5, Ok(0x20)), Ok(()));
    assert_eq!(application_command_outcome(5, Err(EMMCError::Busy)), Err(EMMCError::Busy));
}

#[test]
fn command_delays() {
    assert_eq!(command_delay_millis(SDCommand { value: SEND_OP_COND }), 1000);
    assert_eq!(command_delay_millis(SDCommand { value: SEND_INTERFACE_CONDITIONS }), 100);
    assert_eq!(command_delay_millis(SDCommand { value: APPLICATION_SPECIFIC_COMMAND }), 100);
    assert_eq!(command_delay_millis(SDCommand { value: GO_IDLE }), 0);
}

#[test]
fn send_command_announces_application_commands() {
    let mut controller = EMMCController::new(FakeCard::new(), NullTimer);
    let r = controller.send_command(SDCommand { value: SEND_OP_COND }, 7);
    // The command goes out with its application flag cleared, and its
    // answer is read as that command's: through the error mask.
    assert_eq!(r, Ok(0x80ff_8000 & 0xfff9_c004));
    assert_eq!(
        controller.slot.sent(),
        vec![(APPLICATION_SPECIFIC_COMMAND, 0), (0x2902_0000, 7)]
    );
}

#[test]
fn initialize_card_brings_a_card_up() {
    let mut controller = EMMCController::new(FakeCard::new(), NullTimer);
    assert_eq!(controller.initialize_card(&NoDelay), Ok(()));
    assert_eq!(controller.configuration.hardware_version, 2);
    assert_eq!(controller.configuration.relative_card_address, 0x1234_0000);
    let sent = controller.slot.sent();
    assert_eq!(sent[0], (GO_IDLE, 0));
    assert_eq!(sent[1], (SEND_INTERFACE_CONDITIONS, 0x1AA));
    assert!(sent.contains(&(SEND_CARD_IDENTIFICATION, 0)));
    assert!(sent.contains(&(SEND_RELATIVE_ADDRESS, 0)));
    assert!(sent.contains(&(CARD_SELECT, 0x1234_0000)));
    // The configuration register asks for four data lines.
    assert!(sent.contains(&(0x0602_0000, 0x1234_0002)));
    assert!(controller.slot.four_lines.get());
    // The card answered with bit 30 clear: capacity support bits become 1.
    let scr = controller.configuration.configuration;
    assert_eq!(scr.get_command_support_bits(), 1);
}

#[test]
fn initialize_card_reports_reset_failure() {
    let mut card = FakeCard::new();
    card.reset_completes = false;
    let mut controller = EMMCController::new(card, NullTimer);
    assert_eq!(controller.initialize_card(&NoDelay), Err(EMMCError::ResetFailed));
}

#[test]
fn initialize_card_reports_power_up_timeout() {
    let mut card = FakeCard::new();
    card.op_cond = 0x00ff_8000;
    let mut controller = EMMCController::new(card, NullTimer);
    assert_eq!(controller.initialize_card(&NoDelay), Err(EMMCError::PowerUpTimeout));
}

#[test]
fn initialize_card_reports_missing_voltage() {
    let mut card = FakeCard::new();
    card.op_cond = 0x8000_0000;
    let mut controller = EMMCController::new(card, NullTimer);
    assert_eq!(controller.initialize_card(&NoDelay), Err(EMMCError::Voltage));
}

#[test]
fn read_blocks_single_block_little_endian() {
    let mut controller = EMMCController::new(FakeCard::new(), NullTimer);
    controller.configuration.configuration = SDConfigurationRegister { value: 1 << 32 };
    controller.slot.next_word.set(0x0403_0201);
    let mut buffer = [0xAAu8; 520];
    assert_eq!(controller.read_blocks(9, &mut buffer, 1), Ok(512));
    assert_eq!(&buffer[0..4], &[1, 2, 3, 4]);
    assert_eq!(&buffer[4..8], &[2, 2, 3, 4]);
    assert_eq!(&buffer[512..520], &[0xAA; 8]);
    assert_eq!(controller.slot.sent(), vec![(READ_SINGLE_BLOCK, 9)]);
    assert_eq!(controller.slot.block_size.get(), (512, 16));
}

#[test]
fn read_blocks_multiple_with_stop() {
    let mut controller = EMMCController::new(FakeCard::new(), NullTimer);
    controller.configuration.configuration = SDConfigurationRegister { value: 1 << 32 };
    let mut buffer = vec![0u8; 1024];
    assert_eq!(controller.read_blocks(3, &mut buffer, 2), Ok(1024));
    assert_eq!(
        controller.slot.sent(),
        vec![(READ_MULTIPLE_BLOCKS, 3), (STOP_TRANSMISSION, 0)]
    );
}

#[test]
fn read_blocks_with_block_count() {
    let mut controller = EMMCController::new(FakeCard::new(), NullTimer);
    controller.configuration.configuration = SDConfigurationRegister { value: (1 << 32) | (1 << 57) };
    let mut buffer = vec![0u8; 1024];
    assert_eq!(controller.read_blocks(3, &mut buffer, 2), Ok(1024));
    assert_eq!(
        controller.slot.sent(),
        vec![(SET_BLOCK_COUNT, 2), (READ_MULTIPLE_BLOCKS, 3)]
    );
}

#[test]
fn read_blocks_one_command_per_block_without_support() {
    let mut controller = EMMCController::new(FakeCard::new(), NullTimer);
    let mut buffer = vec![0u8; 1024];
    assert_eq!(controller.read_blocks(3, &mut buffer, 2), Ok(1024));
    assert_eq!(
        controller.slot.sent(),
        vec![(READ_SINGLE_BLOCK, 3), (READ_SINGLE_BLOCK, 4)]
    );
    assert_eq!(controller.slot.block_size.get(), (512, 1));
}

#[test]
fn read_sector_and_load() {
    let mut controller = EMMCController::new(FakeCard::new(), NullTimer);
    controller.slot.next_word.set(0x0000_00ff);
    let sector = Sector::load(0, &mut controller).expect("read succeeds");
    assert_eq!(sector.values[0], 0xff);
    assert_eq!(sector.values[4], 0x00);
    assert_eq!(sector.values[5], 0x01);
}

#[test]
fn initialize_pins_routes_sd_pins() {
    let registers = GPIORegisters {
        function_select_banks: [raspi_os::gpio::FunctionSelectBlock { value: 0 }; 6],
        set_output: [raspi_os::bit_array::BitArray::new(0); 2],
        clear_output: [raspi_os::bit_array::BitArray::new(0); 2],
        gplev: [raspi_os::bit_array::BitArray::new(0); 2],
        gpsed: [0; 2],
        gpren: [0; 2],
        gpfen: [0; 2],
        high_detect_enable: [raspi_os::bit_array::BitArray::new(0); 2],
        gplen: [0; 2],
        gparen: [0; 2],
        gpafen: [0; 2],
        pull_register: raspi_os::gpio::PullRegister { value: 0 },
        pull_enable: [raspi_os::bit_array::BitArray::new(0); 2],
    };
    let mut gpio = GPIOController::with_registers(registers);
    initialize_pins(&mut gpio, &NoDelay);
    for n in 47..=53 {
        let pin = raspi_os::gpio::Pin::new(n).unwrap();
        assert_eq!(gpio.get_pin_mode(pin), Mode::AF3.as_u32());
    }
    assert_eq!(gpio.get_pin_mode(raspi_os::gpio::Pin::new(46).unwrap()), 0);
    assert_eq!(gpio.registers.high_detect_enable[1].get_bit(15), 1);
}

#[test]
fn emmc_configuration_starts_empty() {
    let c = EMMCConfiguration::new();
    assert_eq!(c.relative_card_address, 0);
    assert_eq!(c.hardware_version, 0);
    assert_eq!(c.configuration.value, 0);
}

#[test]
fn acmd41_response_fields() {
    let r = ACMD41Response::from(0xC0ff_8000);
    assert_eq!(r.get_complete(), 1);
    assert_eq!(r.get_command_support_bits(), 1);
    assert_eq!(r.get_voltage(), 0x1ff);
}

#[test]
fn scr_from_array_high_word_first() {
    let scr = SDConfigurationRegister::from_array([0x0235_8000, 0x1]);
    assert_eq!(scr.value, 0x0235_8000_0000_0001);
    assert_eq!(scr.get_spec_version_4_or_higher(), 0);
}

#[test]
fn register_parse_response_by_command() {
    let mut registers = EMMCRegisters::zeroed();
    registers.resp1.set(1);
    registers.resp2.set(2);
    registers.resp3.set(4);
    assert_eq!(registers.parse_response(0xff, SDCommand { value: GO_IDLE }, 0), Ok(0));
    assert_eq!(registers.parse_response(0xff, SDCommand { value: APPLICATION_SPECIFIC_COMMAND_48 }, 0), Ok(0x20));
    assert_eq!(registers.parse_response(0x1AA, SDCommand { value: SEND_INTERFACE_CONDITIONS }, 0x1AA), Ok(0));
    assert!(registers.parse_response(0x1AB, SDCommand { value: SEND_INTERFACE_CONDITIONS }, 0x1AA).is_err());
    assert_eq!(registers.parse_response(8, SDCommand { value: SEND_CARD_IDENTIFICATION }, 0), Ok(15));
    assert_eq!(registers.parse_response(0x1234_5678, SDCommand { value: SEND_RELATIVE_ADDRESS }, 0), Ok(0x1234_0000));
    assert_eq!(registers.parse_response(0xffff_ffff, SDCommand { value: CARD_SELECT }, 0), Ok(0xfff9_c004));
}

#[test]
fn register_wait_for_status() {
    let mut registers = EMMCRegisters::zeroed();
    assert_eq!(registers.wait_for_status(StatusSetting::CommandInhibit), Ok(()));
    registers.status.set(raspi_os::emmc::Status { value: 1 });
    assert!(registers.wait_for_status(StatusSetting::CommandInhibit).is_err());
}

#[test]
fn initialize_pins_pulls_sd_pins_up() {
    let registers = GPIORegisters {
        function_select_banks: [raspi_os::gpio::FunctionSelectBlock { value: 0 }; 6],
        set_output: [raspi_os::bit_array::BitArray::new(0); 2],
        clear_output: [raspi_os::bit_array::BitArray::new(0); 2],
        gplev: [raspi_os::bit_array::BitArray::new(0); 2],
        gpsed: [0; 2],
        gpren: [0; 2],
        gpfen: [0; 2],
        high_detect_enable: [raspi_os::bit_array::BitArray::new(0); 2],
        gplen: [0; 2],
        gparen: [0; 2],
        gpafen: [0; 2],
        pull_register: raspi_os::gpio::PullRegister { value: 0 },
        pull_enable: [raspi_os::bit_array::BitArray::new(0xffff_ffff); 2],
    };
    let mut gpio = GPIOController::with_registers(registers);
    initialize_pins(&mut gpio, &NoDelay);
    // Pull-up selected; each SD pin's clock bit was pulsed and left clear.
    assert_eq!(gpio.registers.pull_register.value, 0b10);
    assert_eq!(gpio.registers.pull_enable[1].array, 0xffff_ffff & !(0x7f << 15));
    assert_eq!(gpio.registers.pull_enable[0].array, 0xffff_ffff);
}

#[test]
fn interrupt_poll_outcomes() {
    assert!(interrupt_poll(Interrupt { value: 0 }, InterruptType::ReadReady).is_none());
    let (ack, outcome) = interrupt_poll(Interrupt { value: 0x21 }, InterruptType::ReadReady).unwrap();
    assert_eq!(outcome, Ok(()));
    assert_eq!(ack.value, 0x20);
    let (ack, outcome) = interrupt_poll(Interrupt { value: (1 << 16) | 1 }, InterruptType::CommandDone).unwrap();
    assert_eq!(outcome, Err("Error in interrupt"));
    assert_eq!(ack.value, (1 << 16) | 1);
}

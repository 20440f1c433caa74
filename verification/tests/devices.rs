use raspi_os::gpio::StatusLight;
use raspi_os::mailbox_property::{simple_answer, simple_message, SimpleRequest};
use raspi_os::bit_array::BitArray;
use raspi_os::gpio::{
    FunctionSelectBlock, GPIOController, GPIORegisters, Mode, OutputLevel, Pin, PullRegister,
};
use raspi_os::gpu::{FBConfig, GPUController, GPUMessageBuffer, GPUMessageBuilder, Tag, FRAMEBUFFER_WORDS};
use raspi_os::mailbox::{Channel, MailboxBuffer, MailboxController};
use raspi_os::mailbox_property::{GetPhysicalDimensions, Instruction, MessageBuilder, SetDepth};
use raspi_os::mini_uart::{
    BaudRate, ExtraControl, ExtraStatus, InterruptEnable, InterruptSource, LineControl, LineStatus,
    MiniUARTController, MiniUARTIO, MiniUARTInterruptEnable, MiniUARTInterruptStatus,
    MiniUARTRegisters, ModemControl, ModemStatus, Scratch,
};
use raspi_os::uart::{AuxRegisters, LogLevel, UARTConfig, UARTController};
use raspi_os::volatile::{AlignedBuffer, Volatile};
use raspi_os::hardware_config::HardwareConfig;
use raspi_os::framebuffer::{
    Dimensions, FrameBuffer, FrameBufferConfig, FrameBufferConfigBuilder, Offset, Overscan, PixelOrder,
};

fn gpio() -> GPIOController {
    GPIOController::with_registers(GPIORegisters {
        function_select_banks: [FunctionSelectBlock { value: 0 }; 6],
        set_output: [BitArray::new(0); 2],
        clear_output: [BitArray::new(0); 2],
        gplev: [BitArray::new(0); 2],
        gpsed: [0; 2],
        gpren: [0; 2],
        gpfen: [0; 2],
        high_detect_enable: [BitArray::new(0); 2],
        gplen: [0; 2],
        gparen: [0; 2],
        gpafen: [0; 2],
        pull_register: PullRegister { value: 0 },
        pull_enable: [BitArray::new(0); 2],
    })
}

#[test]
fn gpu_request_words() {
    let b = GPUMessageBuffer::new();
    assert_eq!(b.get(0), 140);
    assert_eq!(b.get(1), 0);
    assert_eq!(b.get(2), 0x48003);
    assert_eq!(b.get(5), 1920);
    assert_eq!(b.get(6), 1080);
    assert_eq!(b.get(20), 32);
    assert_eq!(b.get(25), 0x40001);
    assert_eq!(b.get(28), 4096);
    assert_eq!(b.get(34), 0);
    assert_eq!(b.get(35), 0);
}

#[test]
fn gpu_builder_writes_in_order() {
    let mut builder = GPUMessageBuilder::new(GPUMessageBuffer::new());
    builder.add(99);
    builder.add_tag(Tag::GetPitch);
    builder.add_size(4);
    assert_eq!(builder.add_index, 4);
    assert_eq!(builder.buffer.get(0), 99);
    assert_eq!(builder.buffer.get(1), 0x40008);
    assert_eq!(builder.buffer.get(2), 4);
    assert_eq!(builder.buffer.get(3), 4);
    assert_eq!(builder.buffer.get(4), 8);
}

#[test]
fn gpu_tags_and_default_config() {
    assert_eq!(Tag::SetPower.as_u32(), 0x28001);
    assert_eq!(Tag::EndOfMessage.as_u32(), 0);
    let c = FBConfig::default();
    assert_eq!(c.phy_width, 1920);
    assert_eq!(c.vir_height, 1080);
    assert_eq!(c.depth, 32);
    assert_eq!(c.pxl_order, 1);
    assert_eq!(c.pitch, 0);
}

#[test]
fn gpu_controller_from_answer_and_pixels() {
    let mut answer = GPUMessageBuffer::new();
    answer.set(10, 640);
    answer.set(28, 0xC000_1000);
    answer.set(33, 2560);
    let mut gpu = GPUController::from_answer(&answer);
    assert_eq!(gpu.fb_config.vir_width, 640);
    assert_eq!(gpu.fb_config.pitch, 2560);
    assert_eq!(gpu.fb_address, 0x0000_1000);
    assert_eq!(gpu.fb.len(), FRAMEBUFFER_WORDS);
    gpu.set_pxl(3, 2, 0xff00ff);
    assert_eq!(gpu.fb[640 * 2 + 3], 0xff00ff);
    assert_eq!(gpu.fb[640 * 2 + 2], 0);
}

struct EchoMailbox;

impl MailboxController for EchoMailbox {
    fn send_message_on_channel(&self, buffer: &mut MailboxBuffer, channel: Channel) -> u32 {
        assert_eq!(channel.as_u32(), Channel::Prop.as_u32());
        buffer.set(28, 0x4000_2000);
        buffer.set(10, 800);
        0
    }
}

#[test]
fn gpu_init_reads_the_answer() {
    let gpu = GPUController::init(&EchoMailbox, FBConfig::default()).expect("answer has the request's length");
    assert_eq!(gpu.fb_address, 0x0000_2000);
    assert_eq!(gpu.fb_config.vir_width, 800);
    assert_eq!(gpu.fb_config.phy_height, 1080);
}

#[test]
fn instruction_codes() {
    assert_eq!(Instruction::GetFirmwareRevision.as_u32(), 0x1);
    assert_eq!(Instruction::GetBoardMAC.as_u32(), 0x10003);
    assert_eq!(Instruction::SetCursorState.as_u32(), 0x8011);
    assert_eq!(Instruction::SetOverScan.as_u32(), 0x4800a);
}

#[test]
fn message_builder_lays_out_tags() {
    let message = MessageBuilder::new()
        .request(&GetPhysicalDimensions::new())
        .request(&SetDepth::new(24));
    let buffer = message.to_buffer();
    let words: Vec<u32> = (0..buffer.len()).map(|i| buffer.get(i)).collect();
    assert_eq!(
        words,
        vec![4 * 11, 0, 0x40003, 8, 0, 0, 0, 0x48005, 4, 0, 24]
    );
}

#[test]
fn test_volatile() {
    let mut volatile = Volatile::new(9u32);
    assert_eq!(volatile.get(), 9);
    volatile.set(16);
    assert_eq!(volatile.get(), 16);
}

#[test]
fn volatile_reads_back_writes() {
    let mut v = Volatile::new(9u32);
    assert_eq!(v.get(), 9);
    v.set(16);
    assert_eq!(v.get(), 16);
    v.map(|x: u32| x + 1);
    assert_eq!(v.get(), 17);
}

#[test]
fn gpio_set_mode_then_get() {
    let mut g = gpio();
    let pin = Pin::new(17).unwrap();
    g.set_mode(pin, Mode::OUT);
    assert_eq!(g.get_pin_mode(pin), Mode::OUT.as_u32());
    assert_eq!(g.get_pin_mode(Pin::new(18).unwrap()), 0);
    g.set_out(pin, OutputLevel::High);
    assert_eq!(g.registers.set_output[0].get_bit(17), 1);
    g.set_out(Pin::new(40).unwrap(), OutputLevel::Low);
    assert_eq!(g.registers.clear_output[1].get_bit(8), 1);
    assert!(Pin::new(54).is_err());
}

#[test]
fn bit_array_set_then_get() {
    let a = BitArray::new(0b1010);
    assert_eq!(a.get_bit(1), 1);
    assert_eq!(a.get_bit(0), 0);
    let b = a.set_bit(0, 1).set_bit(1, 0);
    assert_eq!(b.array, 0b1001);
}

#[test]
fn uart_init_configures_registers_and_pins() {
    let mut mmio = AuxRegisters::zeroed();
    mmio.enable = 0b100;
    let uart = UARTController::init(gpio(), mmio);
    assert_eq!(uart.mmio.enable, 0b101);
    assert_eq!(uart.mmio.cntl, 3);
    assert_eq!(uart.mmio.lcr, 3);
    assert_eq!(uart.mmio.iir, 0b11000110);
    assert_eq!(uart.mmio.baud, 270);
    assert_eq!(uart.gpio.get_pin_mode(Pin::new(14).unwrap()), Mode::AF5.as_u32());
    assert_eq!(uart.gpio.get_pin_mode(Pin::new(15).unwrap()), Mode::AF5.as_u32());
    assert_eq!(uart.gpio.get_pin_mode(Pin::new(16).unwrap()), 0);
    assert_eq!(uart.config, UARTConfig::new());
}

#[test]
fn uart_sends_only_when_transmitter_has_room() {
    let mut uart = UARTController::new(gpio(), AuxRegisters::zeroed());
    assert!(!uart.putc('a'));
    assert_eq!(uart.mmio.io, 0);
    uart.mmio.lsr = 0b100000;
    assert!(uart.putc('a'));
    assert_eq!(uart.mmio.io, 'a' as u32);
    assert!(uart.write("hey"));
    assert_eq!(uart.mmio.io, 'y' as u32);
    assert!(uart.newline());
    assert_eq!(uart.mmio.io, '\r' as u32);
}

#[test]
fn uart_numbers_lines_in_debug_mode() {
    let mut uart = UARTController::new(gpio(), AuxRegisters::zeroed());
    assert_eq!(uart.update_debug(), None);
    uart.set_log_level(LogLevel::Debug);
    assert_eq!(uart.update_debug(), Some(2));
    assert_eq!(uart.update_debug(), Some(3));
    assert_eq!(uart.config.lines, 3);
}

fn mini_registers() -> MiniUARTRegisters {
    MiniUARTRegisters {
        interrupt: Volatile::new(InterruptSource { value: 0 }),
        enables: Volatile::new(InterruptEnable { value: 0b100 }),
        res: [0; 56],
        io_data: Volatile::new(MiniUARTIO { value: 0 }),
        interrupt_enable: Volatile::new(MiniUARTInterruptEnable { value: 0 }),
        interrupt_identify: Volatile::new(MiniUARTInterruptStatus { value: 0 }),
        line_control: Volatile::new(LineControl { value: 0 }),
        modem_control: Volatile::new(ModemControl { value: 0xff }),
        line_status: Volatile::new(LineStatus { value: 0b100000 }),
        modem_status: Volatile::new(ModemStatus { value: 0 }),
        scratch: Volatile::new(Scratch { value: 0 }),
        extra_control: Volatile::new(ExtraControl { value: 0 }),
        extra_status: Volatile::new(ExtraStatus { value: 0 }),
        baud_rate: Volatile::new(BaudRate { value: 0 }),
    }
}

#[test]
fn mini_uart_init_and_write() {
    let mut uart = MiniUARTController::new(gpio(), mini_registers());
    uart.init();
    assert_eq!(uart.registers.enables.get().value, 0b101);
    assert_eq!(uart.registers.line_control.get().value, 0b11);
    assert_eq!(uart.registers.modem_control.get().value, 0xfd);
    assert_eq!(uart.registers.interrupt_enable.get().value, 0b01);
    assert_eq!(uart.registers.interrupt_identify.get().value, 0b1100_0110);
    assert_eq!(uart.registers.baud_rate.get().value, 270);
    assert_eq!(uart.registers.extra_control.get().value, 0b11);
    assert_eq!(uart.gpio.get_pin_mode(Pin::new(14).unwrap()), Mode::AF5.as_u32());
    assert!(uart.write("ok"));
    assert_eq!(uart.registers.io_data.get().value, 'k' as u32);
    assert!(uart.newline());
    assert_eq!(uart.registers.io_data.get().value, '\r' as u32);
    assert_eq!(uart.update_debug(), None);
}

fn answer_buffer(words: Vec<u32>) -> MailboxBuffer {
    AlignedBuffer::from_elements(words, 16)
}

#[test]
fn hardware_config_from_answer() {
    let mut words = vec![0u32; 24];
    words[5] = 0x5f00_1234;
    words[9] = 7;
    words[13] = 0xa02082;
    words[17] = 0xb827_eb12;
    words[18] = 0x3456_0000;
    words[22] = 1;
    words[23] = 2;
    let config = HardwareConfig::from_answer(&answer_buffer(words));
    assert_eq!(config.firmware_revision, 0x5f00_1234);
    // The board model is read from the board revision's answer.
    assert_eq!(config.board_model, 0xa02082);
    assert_eq!(config.board_revision, 0xa02082);
    assert_eq!(config.mac_address.bytes, [0xb8, 0x27, 0xeb, 0x12, 0x34, 0x56]);
    assert_eq!(config.board_serial, 0x1_0000_0002);
}

#[test]
fn hardware_config_message_layout() {
    let message = HardwareConfig::message();
    let buffer = message.to_buffer();
    assert_eq!(buffer.len(), 24);
    assert_eq!(buffer.get(0), 96);
    assert_eq!(buffer.get(2), 0x1);
    assert_eq!(buffer.get(6), 0x10001);
    assert_eq!(buffer.get(10), 0x10002);
    assert_eq!(buffer.get(14), 0x10003);
    assert_eq!(buffer.get(19), 0x10004);
}

fn frame_buffer_config() -> FrameBufferConfig {
    FrameBufferConfigBuilder::new()
        .depth(32)
        .overscan(Overscan::none())
        .pixel_order(PixelOrder::RGB)
        .physical_dimensions(Dimensions::new(640, 480))
        .virtual_dimensions(Dimensions::new(640, 480))
        .virtual_offset(Offset::none())
        .build()
}

#[test]
fn frame_buffer_from_answer() {
    let mut words = vec![0u32; 41];
    words[5] = 24;
    words[9] = 1;
    words[12] = 4;
    words[16] = 640;
    words[17] = 480;
    words[21] = 2560;
    words[25] = 0;
    words[29] = 640;
    words[30] = 480;
    words[39] = 0xC010_0000;
    let mut config = frame_buffer_config();
    config.virtual_dimensions = Dimensions::new(4, 3);
    let fb = FrameBuffer::from_answer(config, &answer_buffer(words.clone())).expect("a pixel order");
    assert_eq!(fb.config.depth, 24);
    assert_eq!(fb.config.overscan.top, 1);
    assert_eq!(fb.config.overscan.right, 4);
    assert_eq!(fb.config.physical_dimensions, Dimensions::new(640, 480));
    assert_eq!(fb.config.pitch, 2560);
    assert_eq!(fb.config.pixel_order, PixelOrder::BGR);
    assert_eq!(fb.config.virtual_dimensions, Dimensions::new(640, 480));
    assert_eq!(fb.start_address, 0x0010_0000);
    assert_eq!(fb.buffer.len(), 12);
    words[25] = 2;
    assert!(FrameBuffer::from_answer(config, &answer_buffer(words)).is_none());
}

#[test]
fn status_light_sets_its_pins_to_output() {
    let mut light = StatusLight::new(gpio());
    for n in [17u32, 27, 22] {
        assert_eq!(light.gpio_controller.get_pin_mode(Pin::new(n).unwrap()), Mode::OUT.as_u32());
    }
    assert_eq!(light.gpio_controller.get_pin_mode(Pin::new(18).unwrap()), 0);
    light.set_red(OutputLevel::High);
    assert_eq!(light.gpio_controller.registers.set_output[0].get_bit(17), 1);
    light.set_blue(OutputLevel::Low);
    assert_eq!(light.gpio_controller.registers.clear_output[0].get_bit(22), 1);
}

#[test]
fn gpu_request_buffer_holds_the_request() {
    let b = GPUController::request_buffer();
    let words = GPUMessageBuffer::new();
    assert_eq!(b.len(), 36);
    for i in 0..36 {
        assert_eq!(b.get(i), words.get(i));
    }
}

#[test]
fn simple_message_layout() {
    let request = SimpleRequest::<0x30002>::with_request(4);
    let message = simple_message(&request);
    let buffer = message.to_buffer();
    assert_eq!(buffer.len(), 7);
    assert_eq!(buffer.get(2), 0x30002);
    assert_eq!(buffer.get(5), 4);
    let answer = AlignedBuffer::from_elements(vec![28, 0x8000_0000, 0x30002, 8, 0x8000_0008, 4, 250_000_000], 16);
    assert_eq!(simple_answer(&message, request, &answer), [4, 250_000_000]);
}

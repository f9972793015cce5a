use kinglet::console::BoundedSink;
use kinglet::console::Console;
use kinglet::console::VecSink;
use kinglet::gpio::decode_op;
use kinglet::gpio::op_code;
use kinglet::gpio::pin_nr;
use kinglet::gpio::pin_start_bit;
use kinglet::gpio::Gpio;
use kinglet::gpio::GpioPin;
use kinglet::gpio::GpioPinOp;
use kinglet::gpio::FSEL1_ADDR;
use kinglet::gpio::PUDCLK0_ADDR;
use kinglet::gpio::PUD_ADDR;
use kinglet::gpio::PUD_CPU_CYCLES;
use kinglet::mmio::Ev;
use kinglet::mmio::Register;
use kinglet::serial::MiniUart;
use kinglet::serial::BAUD_ADDR;
use kinglet::serial::CNTL_ADDR;
use kinglet::serial::ENABLES_ADDR;
use kinglet::serial::IER_ADDR;
use kinglet::serial::IIR_ADDR;
use kinglet::serial::IO_ADDR;
use kinglet::serial::LCR_ADDR;
use kinglet::serial::LSR_ADDR;
use kinglet::serial::MCR_ADDR;
use kinglet::serial::TRANSMITTER_EMPTY;
use kinglet::sim::SimHw;

#[test]
fn register_read_returns_last_write() {
    let mut hw = SimHw::new();
    let reg = Register::new(0x1000);
    assert_eq!(reg.read(&mut hw), 0);
    reg.write(&mut hw, 0xdead_beef);
    assert_eq!(reg.read(&mut hw), 0xdead_beef);
    assert_eq!(hw.peek(0x1000), 0xdead_beef);
    assert_eq!(
        *hw.events(),
        vec![
            Ev::Read { addr: 0x1000, value: 0 },
            Ev::Write { addr: 0x1000, value: 0xdead_beef },
            Ev::Read { addr: 0x1000, value: 0xdead_beef },
        ]
    );
}

#[test]
fn enable_pin_trace_is_exact() {
    let mut hw = SimHw::new();
    hw.seed(FSEL1_ADDR, 0xffff_ffff);
    let mut gpio = Gpio::new(hw);
    gpio.enable_pin(GpioPin::Pin14, GpioPinOp::Alt5);
    assert_eq!(
        *gpio.port().events(),
        vec![
            Ev::Read { addr: FSEL1_ADDR, value: 0xffff_ffff },
            Ev::Write { addr: FSEL1_ADDR, value: 0xffff_afff },
            Ev::Write { addr: PUD_ADDR, value: 0 },
            Ev::Wait { cycles: PUD_CPU_CYCLES },
            Ev::Write { addr: PUDCLK0_ADDR, value: 1 << 14 },
            Ev::Wait { cycles: PUD_CPU_CYCLES },
            Ev::Write { addr: PUDCLK0_ADDR, value: 0 },
        ]
    );
}

#[test]
fn enable_pin_preserves_bits_outside_the_field() {
    for &(pin, fsel_before) in &[
        (GpioPin::Pin14, 0xffff_ffffu32),
        (GpioPin::Pin14, 0x1234_5678),
        (GpioPin::Pin15, 0xffff_ffff),
        (GpioPin::Pin15, 0x0000_0000),
    ] {
        let mut hw = SimHw::new();
        hw.seed(FSEL1_ADDR, fsel_before);
        let mut gpio = Gpio::new(hw);
        gpio.enable_pin(pin, GpioPinOp::Alt3);
        let written = match gpio.port().events()[1] {
            Ev::Write { addr, value } => {
                assert_eq!(addr, FSEL1_ADDR);
                value
            }
            ref other => panic!("expected a function-select write, got {:?}", other),
        };
        let start_bit = pin_start_bit(pin);
        let field_mask = 0x7u32 << start_bit;
        assert_eq!(written & !field_mask, fsel_before & !field_mask);
    }
}

#[test]
fn pull_handshake_writes_in_order() {
    let hw = SimHw::new();
    let mut gpio = Gpio::new(hw);
    gpio.enable_pin(GpioPin::Pin15, GpioPinOp::Output);
    let events = gpio.port().events();
    let pull_writes: Vec<&Ev> = events
        .iter()
        .filter(|ev| matches!(ev, Ev::Write { addr, .. } if *addr == PUD_ADDR || *addr == PUDCLK0_ADDR))
        .collect();
    assert_eq!(
        pull_writes,
        vec![
            &Ev::Write { addr: PUD_ADDR, value: 0 },
            &Ev::Write { addr: PUDCLK0_ADDR, value: 1 << 15 },
            &Ev::Write { addr: PUDCLK0_ADDR, value: 0 },
        ]
    );
    // Nothing but the setup wait sits between the control write and the
    // clock-bit write for the pin.
    assert_eq!(events[2], Ev::Write { addr: PUD_ADDR, value: 0 });
    assert_eq!(events[3], Ev::Wait { cycles: PUD_CPU_CYCLES });
    assert_eq!(events[4], Ev::Write { addr: PUDCLK0_ADDR, value: 1 << 15 });
}

#[test]
fn op_codes_match_the_datasheet() {
    assert_eq!(op_code(GpioPinOp::Input), 0);
    assert_eq!(op_code(GpioPinOp::Output), 1);
    assert_eq!(op_code(GpioPinOp::Alt0), 4);
    assert_eq!(op_code(GpioPinOp::Alt1), 5);
    assert_eq!(op_code(GpioPinOp::Alt2), 6);
    assert_eq!(op_code(GpioPinOp::Alt3), 7);
    assert_eq!(op_code(GpioPinOp::Alt4), 3);
    assert_eq!(op_code(GpioPinOp::Alt5), 2);
    assert_eq!(pin_nr(GpioPin::Pin14), 14);
    assert_eq!(pin_nr(GpioPin::Pin15), 15);
    assert_eq!(pin_start_bit(GpioPin::Pin14), 12);
    assert_eq!(pin_start_bit(GpioPin::Pin15), 15);
}

#[test]
fn op_code_round_trip() {
    let ops = [
        GpioPinOp::Input,
        GpioPinOp::Output,
        GpioPinOp::Alt0,
        GpioPinOp::Alt1,
        GpioPinOp::Alt2,
        GpioPinOp::Alt3,
        GpioPinOp::Alt4,
        GpioPinOp::Alt5,
    ];
    for &op in &ops {
        assert_eq!(decode_op(op_code(op)), Some(op));
    }
    for pin in [GpioPin::Pin14, GpioPin::Pin15] {
        for &op in &ops {
            // Encode into a function-select value over an arbitrary prior
            // register state, then decode the pin's field back out.
            let fsel_before = 0xa5a5_a5a5u32;
            let start_bit = pin_start_bit(pin);
            let encoded = (fsel_before & !(0x7 << start_bit)) | (op_code(op) << start_bit);
            let field = (encoded >> start_bit) & 0x7;
            assert_eq!(decode_op(field), Some(op));
        }
    }
}

#[test]
fn decode_rejects_out_of_range_codes() {
    assert_eq!(decode_op(8), None);
    assert_eq!(decode_op(0xffff_ffff), None);
}

#[test]
fn init_writes_the_bring_up_sequence() {
    let gpio = Gpio::new(SimHw::new());
    let uart = MiniUart::init(gpio);
    let events = uart.port().events();
    // The pin hand-over (14 events) completes before the first UART write.
    assert_eq!(events.len(), 22);
    assert_eq!(
        events[14..],
        [
            Ev::Write { addr: ENABLES_ADDR, value: 0x01 },
            Ev::Write { addr: CNTL_ADDR, value: 0 },
            Ev::Write { addr: LCR_ADDR, value: 0x03 },
            Ev::Write { addr: MCR_ADDR, value: 0 },
            Ev::Write { addr: IER_ADDR, value: 0 },
            Ev::Write { addr: IIR_ADDR, value: 0xc6 },
            Ev::Write { addr: BAUD_ADDR, value: 0x10e },
            Ev::Write { addr: CNTL_ADDR, value: 0x03 },
        ]
    );
    // The final extra-control value has both directions enabled, and no
    // event before it reads line-status or I/O.
    match events[events.len() - 1] {
        Ev::Write { addr, value } => {
            assert_eq!(addr, CNTL_ADDR);
            assert_ne!(value & 0x01, 0);
            assert_ne!(value & 0x02, 0);
        }
        ref other => panic!("expected the final enable write, got {:?}", other),
    }
    assert!(events
        .iter()
        .all(|ev| !matches!(ev, Ev::Read { addr, .. } if *addr == LSR_ADDR || *addr == IO_ADDR)));
}

#[test]
fn init_switches_both_serial_pins() {
    let gpio = Gpio::new(SimHw::new());
    let uart = MiniUart::init(gpio);
    let events = uart.port().events();
    // Two enable-pin traces back to back: Pin14 to Alt5, then Pin15, and
    // every one of their events stays on the GPIO block.
    assert_eq!(events[1], Ev::Write { addr: FSEL1_ADDR, value: 0x2000 });
    assert_eq!(events[4], Ev::Write { addr: PUDCLK0_ADDR, value: 1 << 14 });
    assert_eq!(events[8], Ev::Write { addr: FSEL1_ADDR, value: 0x1_2000 });
    assert_eq!(events[11], Ev::Write { addr: PUDCLK0_ADDR, value: 1 << 15 });
    assert!(events[..14].iter().all(|ev| match ev {
        Ev::Read { addr, .. } => *addr == FSEL1_ADDR,
        Ev::Write { addr, .. } =>
            *addr == FSEL1_ADDR || *addr == PUD_ADDR || *addr == PUDCLK0_ADDR,
        Ev::Wait { .. } => true,
    }));
}

#[test]
fn write_waits_for_transmitter_room() {
    // Three polls will find the FIFO full before the hardware reports room;
    // the bring-up consumes none of the scripted statuses.
    let mut hw = SimHw::new();
    hw.push_status(0);
    hw.push_status(0x60 & !TRANSMITTER_EMPTY);
    hw.push_status(0);
    let gpio = Gpio::new(hw);
    let mut uart = MiniUart::init(gpio);
    let mark = uart.port().events().len();
    uart.write('A');

    let events = &uart.port().events()[mark..];
    assert_eq!(events.len(), 5);
    for busy in &events[..3] {
        match busy {
            Ev::Read { addr, value } => {
                assert_eq!(*addr, LSR_ADDR);
                assert_eq!(value & TRANSMITTER_EMPTY, 0);
            }
            other => panic!("expected a line-status poll, got {:?}", other),
        }
    }
    match events[3] {
        Ev::Read { addr, value } => {
            assert_eq!(addr, LSR_ADDR);
            assert_ne!(value & TRANSMITTER_EMPTY, 0);
        }
        ref other => panic!("expected the ready poll, got {:?}", other),
    }
    assert_eq!(events[4], Ev::Write { addr: IO_ADDR, value: 'A' as u32 });
}

#[test]
fn no_io_write_before_a_ready_status() {
    let mut hw = SimHw::new();
    for _ in 0..8 {
        hw.push_status(0);
    }
    let gpio = Gpio::new(hw);
    let mut uart = MiniUart::init(gpio);
    uart.write('x');
    let mut ready_seen = false;
    for ev in uart.port().events() {
        match ev {
            Ev::Read { addr, value } if *addr == LSR_ADDR => {
                if value & TRANSMITTER_EMPTY != 0 {
                    ready_seen = true;
                }
            }
            Ev::Write { addr, .. } if *addr == IO_ADDR => {
                assert!(ready_seen, "I/O write before the FIFO reported room");
            }
            _ => {}
        }
    }
}

#[test]
fn write_str_transmits_in_call_order() {
    let gpio = Gpio::new(SimHw::new());
    let uart = MiniUart::init(gpio);
    let mut console = Console::new(uart);
    assert_eq!(console.print_str("Hi!"), Ok(()));
    let io_values: Vec<u32> = console
        .writer()
        .port()
        .events()
        .iter()
        .filter_map(|ev| match ev {
            Ev::Write { addr, value } if *addr == IO_ADDR => Some(*value),
            _ => None,
        })
        .collect();
    assert_eq!(io_values, vec!['H' as u32, 'i' as u32, '!' as u32]);
}

#[test]
fn console_delivers_hello_world_exactly() {
    let sink = VecSink::new();
    let mut console = Console::new(sink);
    assert_eq!(console.print_str("Hello World!"), Ok(()));
    let received: String = console.writer().received().iter().collect();
    assert_eq!(received, "Hello World!");
    assert_eq!(console.writer().received().len(), 12);
}

#[test]
fn console_print_formats_through_the_sink() {
    let sink = VecSink::new();
    let mut console = Console::new(sink);
    let text = format!("{} + {} = {}", 1, 2, 1 + 2);
    assert_eq!(console.print(&text), Ok(()));
    let received: String = console.writer().received().iter().collect();
    assert_eq!(received, "1 + 2 = 3");
}

#[test]
fn empty_text_moves_nothing() {
    let sink = VecSink::new();
    let mut console = Console::new(sink);
    assert_eq!(console.print_str(""), Ok(()));
    assert!(console.writer().received().is_empty());

    let gpio = Gpio::new(SimHw::new());
    let uart = MiniUart::init(gpio);
    let mark = uart.port().events().len();
    let mut uart_console = Console::new(uart);
    assert_eq!(uart_console.print_str(""), Ok(()));
    assert_eq!(uart_console.writer().port().events().len(), mark);
}

#[test]
fn console_propagates_a_sink_failure() {
    let sink = BoundedSink::new(5);
    let mut console = Console::new(sink);
    let err = console.print_str("Hello World!");
    assert!(err.is_err());
    assert_eq!(console.writer().received().len(), 0);
    assert_eq!(console.print_str("Hello"), Ok(()));
    let received: String = console.writer().received().iter().collect();
    assert_eq!(received, "Hello");
    assert!(console.print_str("!").is_err());
}

#[test]
fn seeded_registers_survive_unrelated_writes() {
    let mut hw = SimHw::new();
    hw.seed(FSEL1_ADDR, 0x7);
    let reg = Register::new(PUD_ADDR);
    reg.write(&mut hw, 0x1);
    assert_eq!(hw.peek(FSEL1_ADDR), 0x7);
    assert_eq!(hw.peek(PUD_ADDR), 0x1);
    assert_eq!(hw.peek(PUDCLK0_ADDR), 0);
}

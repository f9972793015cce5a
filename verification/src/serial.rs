//! The mini-UART transmitter: one-time bring-up of the serial line through
//! the GPIO controller, and blocking, polled character transmission.

use vstd::prelude::*;

use crate::console::SinkError;
use crate::console::TextSink;
use crate::gpio::Gpio;
use crate::gpio::GpioPin;
use crate::gpio::GpioPinOp;
use crate::gpio::enable_pin_events;
use crate::gpio::enable_pin_trace;
use crate::gpio::gpio_block_event;
use crate::gpio::lemma_enable_pin_stays_on_gpio_block;
use crate::mmio::Ev;
use crate::mmio::Hw;
use crate::mmio::Register;
use crate::mmio::read_value;

verus! {

pub const UART_BASE_REG_ADDR: u32 = 0x3f21_5000;

/// Enables the mini UART and access to its registers.
pub const ENABLES_ADDR: u32 = UART_BASE_REG_ADDR + 0x04;

/// Data is written to and read from the UART FIFOs through this register.
pub const IO_ADDR: u32 = UART_BASE_REG_ADDR + 0x40;

/// Enables and disables the transmit and receive interrupts.
pub const IER_ADDR: u32 = UART_BASE_REG_ADDR + 0x44;

/// Interrupt status; also holds the FIFO enable and FIFO clear bits.
pub const IIR_ADDR: u32 = UART_BASE_REG_ADDR + 0x48;

/// Controls the line data format.
pub const LCR_ADDR: u32 = UART_BASE_REG_ADDR + 0x4c;

/// Controls the modem signals.
pub const MCR_ADDR: u32 = UART_BASE_REG_ADDR + 0x50;

/// Shows the data status, among it the transmit-FIFO-has-room bit.
pub const LSR_ADDR: u32 = UART_BASE_REG_ADDR + 0x54;

/// Extra control features; holds the transmitter and receiver enables.
pub const CNTL_ADDR: u32 = UART_BASE_REG_ADDR + 0x60;

/// Direct access to the 16-bit baud-rate counter.
pub const BAUD_ADDR: u32 = UART_BASE_REG_ADDR + 0x68;

/// Line-status bit: the transmit FIFO can accept at least one byte.
pub const TRANSMITTER_EMPTY: u32 = 0x20;

/// Line-status bit: the receive FIFO holds at least one symbol.
pub const DATA_READY: u32 = 0x01;

/// Extra-control bit: the receiver is enabled.
pub const CNTL_RX_ENABLE: u32 = 0x01;

/// Extra-control bit: the transmitter is enabled.
pub const CNTL_TX_ENABLE: u32 = 0x02;

/// Line-control value selecting 8-bit character mode.
pub const LCR_8BIT_MODE: u32 = 0x03;

/// Interrupt-identify value enabling and clearing both FIFOs.
pub const IIR_ENABLE_CLEAR_FIFOS: u32 = 0xc6;

/// The baud-rate counter value for 115200 baud at the fixed input clock.
pub const BAUD_115200: u32 = 0x10e;

/// The unicode code points of a character sequence, in order: what the
/// characters look like on the wire, one I/O-register write each.
pub open spec fn codes_of(text: Seq<char>) -> Seq<u32> {
    text.map_values(|c: char| c as u32)
}

/// The values written to the I/O register over a trace, in order: the
/// payload the trace puts on the wire.
pub open spec fn io_writes(log: Seq<Ev>) -> Seq<u32>
    decreases log.len(),
{
    if log.len() == 0 {
        Seq::empty()
    } else {
        let rest = io_writes(log.drop_last());
        match log.last() {
            Ev::Write { addr, value } => if addr == IO_ADDR {
                rest.push(value)
            } else {
                rest
            },
            _ => rest,
        }
    }
}

/// Appending one event to a trace appends its I/O payload, if any.
pub proof fn lemma_io_writes_push(log: Seq<Ev>, ev: Ev)
    ensures
        io_writes(log.push(ev)) == (match ev {
            Ev::Write { addr, value } => if addr == IO_ADDR {
                io_writes(log).push(value)
            } else {
                io_writes(log)
            },
            _ => io_writes(log),
        }),
{
    assert(log.push(ev).drop_last() =~= log);
    assert(log.push(ev).last() == ev);
}

/// The I/O payload of two traces in sequence is the two payloads in
/// sequence.
pub proof fn lemma_io_writes_append(left: Seq<Ev>, right: Seq<Ev>)
    ensures
        io_writes(left + right) == io_writes(left) + io_writes(right),
    decreases right.len(),
{
    if right.len() == 0 {
        assert(left + right =~= left);
        assert(io_writes(left) + io_writes(right) =~= io_writes(left));
    } else {
        lemma_io_writes_append(left, right.drop_last());
        assert((left + right).drop_last() =~= left + right.drop_last());
        assert((left + right).last() == right.last());
        match right.last() {
            Ev::Write { addr, value } => {
                if addr == IO_ADDR {
                    assert(io_writes(left) + io_writes(right.drop_last()).push(value)
                        =~= (io_writes(left) + io_writes(right.drop_last())).push(value));
                }
            }
            _ => {}
        }
    }
}

/// A trace that never writes the I/O register puts nothing on the wire.
pub proof fn lemma_io_writes_empty(log: Seq<Ev>)
    requires
        forall|i: int|
            0 <= i < log.len() ==> !((#[trigger] log[i]) matches Ev::Write { addr, .. }
                && addr == IO_ADDR),
    ensures
        io_writes(log) == Seq::<u32>::empty(),
    decreases log.len(),
{
    if log.len() > 0 {
        lemma_io_writes_empty(log.drop_last());
    }
}

/// A read of the line-status register.
pub open spec fn is_lsr_read(ev: Ev) -> bool {
    ev matches Ev::Read { addr, .. } && addr == LSR_ADDR
}

/// A line-status read that found the transmit FIFO full.
pub open spec fn lsr_busy_read(ev: Ev) -> bool {
    is_lsr_read(ev) && read_value(ev) & TRANSMITTER_EMPTY == 0
}

/// A line-status read that found room in the transmit FIFO.
pub open spec fn lsr_ready_read(ev: Ev) -> bool {
    is_lsr_read(ev) && read_value(ev) & TRANSMITTER_EMPTY != 0
}

/// A completed transmit poll: line-status reads that all found the FIFO
/// full, except the last one, which found room.
pub open spec fn lsr_poll_seq(polls: Seq<Ev>) -> bool {
    &&& polls.len() >= 1
    &&& forall|i: int| 0 <= i < polls.len() - 1 ==> lsr_busy_read(#[trigger] polls[i])
    &&& lsr_ready_read(polls.last())
}

/// The exact trace of register writes the bring-up sequence appends, in
/// the manufacturer-mandated order: enable the peripheral, hold the
/// transmitter and receiver disabled while configuring, select 8-bit
/// frames, idle the modem line, disable interrupts, enable and clear the
/// FIFOs, program 115200 baud, and only then re-enable both directions.
pub open spec fn init_events() -> Seq<Ev> {
    seq![
        Ev::Write { addr: ENABLES_ADDR, value: 1 },
        Ev::Write { addr: CNTL_ADDR, value: 0 },
        Ev::Write { addr: LCR_ADDR, value: LCR_8BIT_MODE },
        Ev::Write { addr: MCR_ADDR, value: 0 },
        Ev::Write { addr: IER_ADDR, value: 0 },
        Ev::Write { addr: IIR_ADDR, value: IIR_ENABLE_CLEAR_FIFOS },
        Ev::Write { addr: BAUD_ADDR, value: BAUD_115200 },
        Ev::Write { addr: CNTL_ADDR, value: CNTL_RX_ENABLE | CNTL_TX_ENABLE },
    ]
}

/// Whether `post` extends `pre` by the whole bring-up, in order: first
/// the two pin switches that hand the transmit and receive pads to the
/// serial peripheral's alternate function, then — only after both have
/// completed — the UART register writes of `init_events`.
pub open spec fn uart_bringup_trace(pre: Seq<Ev>, post: Seq<Ev>) -> bool {
    exists|mid1: Seq<Ev>, mid2: Seq<Ev>|
        enable_pin_trace(pre, mid1, GpioPin::Pin14, GpioPinOp::Alt5)
            && #[trigger] enable_pin_trace(mid1, mid2, GpioPin::Pin15, GpioPinOp::Alt5)
            && post == mid2 + init_events()
}

/// The mini-UART transmitter: the nine registers of the peripheral and
/// the port they are driven through, together with the ghost transcript of
/// the characters handed over for transmission. The nine register
/// addresses are owned exclusively by this driver.
pub struct MiniUart<B: Hw> {
    io: Register,
    lsr: Register,
    mcr: Register,
    enables: Register,
    cntl: Register,
    ier: Register,
    iir: Register,
    lcr: Register,
    baud: Register,
    port: B,
    base: Ghost<Seq<Ev>>,
    sent: Ghost<Seq<char>>,
}

impl<B: Hw> MiniUart<B> {
    /// The trace of operations this transmitter's port has performed.
    pub closed spec fn log(&self) -> Seq<Ev> {
        self.port.log()
    }

    /// The trace as it stood when bring-up finished.
    pub closed spec fn base(&self) -> Seq<Ev> {
        self.base@
    }

    /// The characters handed over for transmission so far, in order.
    pub closed spec fn sent(&self) -> Seq<char> {
        self.sent@
    }

    /// The register handles sit at the fixed UART addresses, and the wire
    /// carries exactly the transcript: every I/O-register write since
    /// bring-up is the code point of the corresponding sent character.
    pub closed spec fn wf(&self) -> bool {
        &&& self.io.addr() == IO_ADDR
        &&& self.lsr.addr() == LSR_ADDR
        &&& self.mcr.addr() == MCR_ADDR
        &&& self.enables.addr() == ENABLES_ADDR
        &&& self.cntl.addr() == CNTL_ADDR
        &&& self.ier.addr() == IER_ADDR
        &&& self.iir.addr() == IIR_ADDR
        &&& self.lcr.addr() == LCR_ADDR
        &&& self.baud.addr() == BAUD_ADDR
        &&& io_writes(self.port.log()) == io_writes(self.base@) + codes_of(self.sent@)
    }

    /// The port the transmitter drives its registers through.
    pub fn port(&self) -> (port: &B)
        ensures
            port.log() == self.log(),
    {
        &self.port
    }

    /// One-time bring-up over the one port the boot flow owns. The serial
    /// pads are switched to their alternate function through the GPIO
    /// controller, which is consumed and hands its port on; only after
    /// both pin switches have completed are the peripheral's registers
    /// written, exactly as `init_events` lists them, and the line-status
    /// and I/O registers are not touched. Construction cannot fail: an
    /// absent peripheral is discovered only by symptom.
    pub fn init(gpio: Gpio<B>) -> (uart: MiniUart<B>)
        requires
            gpio.wf(),
        ensures
            uart.wf(),
            uart_bringup_trace(gpio.log(), uart.log()),
            uart.base() == uart.log(),
            uart.sent() == Seq::<char>::empty(),
    {
        // Hand the transmit and receive pads to the serial peripheral.
        let mut gpio = gpio;
        let ghost pre = gpio.log();
        gpio.enable_pin(GpioPin::Pin14, GpioPinOp::Alt5);
        let ghost mid1 = gpio.log();
        gpio.enable_pin(GpioPin::Pin15, GpioPinOp::Alt5);
        let ghost mid2 = gpio.log();

        let mut uart = MiniUart {
            io: Register::new(IO_ADDR),
            lsr: Register::new(LSR_ADDR),
            mcr: Register::new(MCR_ADDR),
            enables: Register::new(ENABLES_ADDR),
            cntl: Register::new(CNTL_ADDR),
            ier: Register::new(IER_ADDR),
            iir: Register::new(IIR_ADDR),
            lcr: Register::new(LCR_ADDR),
            baud: Register::new(BAUD_ADDR),
            port: gpio.into_port(),
            base: Ghost(Seq::empty()),
            sent: Ghost(Seq::empty()),
        };

        // Enable the peripheral's clock and register access.
        uart.enables.write(&mut uart.port, 1);

        // Disable auto flow control, transmitter and receiver while the
        // line is reconfigured: never configure a live peripheral.
        uart.cntl.write(&mut uart.port, 0);

        // 8-bit character mode.
        uart.lcr.write(&mut uart.port, LCR_8BIT_MODE);

        // Hold the request-to-send line in its idle state.
        uart.mcr.write(&mut uart.port, 0);

        // This driver polls: no transmit or receive interrupts.
        uart.ier.write(&mut uart.port, 0);

        // Enable and flush both FIFOs.
        uart.iir.write(&mut uart.port, IIR_ENABLE_CLEAR_FIFOS);

        // 115200 baud at the peripheral's fixed input clock.
        uart.baud.write(&mut uart.port, BAUD_115200);

        // Reconfiguration done: enable the transmitter and receiver.
        uart.cntl.write(&mut uart.port, CNTL_RX_ENABLE | CNTL_TX_ENABLE);

        uart.base = Ghost(uart.port.log());
        proof {
            assert(uart.port.log() =~= mid2 + init_events());
            assert(enable_pin_trace(pre, mid1, GpioPin::Pin14, GpioPinOp::Alt5)
                && enable_pin_trace(mid1, mid2, GpioPin::Pin15, GpioPinOp::Alt5));
            assert(codes_of(Seq::<char>::empty()) =~= Seq::<u32>::empty());
        }
        uart
    }

    /// Blocks until the line-status register reports room in the transmit
    /// FIFO, then writes the character's code point into the I/O register.
    /// The trace shows the discipline: nothing is written to the I/O
    /// register until a line-status read has the transmit-ready bit set,
    /// and the write is the code point of `c`, so call order equals wire
    /// order.
    pub fn write(&mut self, c: char)
        requires
            old(self).wf(),
        ensures
            final(self).wf(),
            final(self).base() == old(self).base(),
            final(self).sent() == old(self).sent().push(c),
            exists|polls: Seq<Ev>|
                #[trigger] lsr_poll_seq(polls) && final(self).log() == old(self).log() + polls
                    + seq![Ev::Write { addr: IO_ADDR, value: c as u32 }],
    {
        let ghost pre = self.port.log();
        let ghost sent0 = self.sent@;
        let ghost base0 = self.base@;
        let ghost mut polls: Seq<Ev> = Seq::empty();
        loop
            invariant_except_break
                forall|i: int| 0 <= i < polls.len() ==> lsr_busy_read(#[trigger] polls[i]),
            invariant
                self.wf(),
                self.base@ == base0,
                self.sent@ == sent0,
                self.port.log() == pre + polls,
            ensures
                lsr_poll_seq(polls),
            decreases self.port.budget(),
        {
            let ghost before = self.port.log();
            let status = self.lsr.poll(&mut self.port, TRANSMITTER_EMPTY);
            proof {
                lemma_io_writes_push(before, Ev::Read { addr: LSR_ADDR, value: status });
                polls = polls.push(Ev::Read { addr: LSR_ADDR, value: status });
                assert(pre + polls =~= (pre + polls.drop_last()).push(polls.last()));
            }
            if status & TRANSMITTER_EMPTY != 0 {
                break;
            }
        }

        let ghost before = self.port.log();
        self.io.write(&mut self.port, c as u32);
        self.sent = Ghost(self.sent@.push(c));
        proof {
            lemma_io_writes_push(before, Ev::Write { addr: IO_ADDR, value: c as u32 });
            assert(codes_of(self.sent@) =~= codes_of(sent0).push(c as u32));
            assert(self.port.log() =~= pre + polls + seq![Ev::Write { addr: IO_ADDR, value: c as u32 }]);
        }
    }
}

/// What the wire carries is the transcript: over any well-formed
/// transmitter, the I/O-register writes since bring-up are exactly the
/// code points of the characters handed over, in order — none inserted,
/// none dropped.
pub proof fn lemma_wire_matches_transcript<B: Hw>(uart: &MiniUart<B>)
    requires
        uart.wf(),
    ensures
        io_writes(uart.log()) == io_writes(uart.base()) + codes_of(uart.sent()),
{
}

impl<B: Hw> TextSink for MiniUart<B> {
    /// The transmitter's well-formedness.
    open spec fn inv(&self) -> bool {
        self.wf()
    }

    /// The blocking wait in `write` absorbs backpressure, so this sink
    /// never reports a failure.
    open spec fn infallible(&self) -> bool {
        true
    }

    /// What the transmitter has accepted is what it has sent.
    open spec fn sunk(&self) -> Seq<char> {
        self.sent()
    }

    /// Transmits the characters of `text` one at a time, in order, and
    /// always succeeds: the blocking wait in `write` absorbs
    /// backpressure, and there is no failure path.
    fn write_str(&mut self, text: &str) -> (result: Result<(), SinkError>)
        ensures
            result is Ok,
            final(self).sunk() == old(self).sunk() + text@,
            final(self).base() == old(self).base(),
    {
        let len = text.unicode_len();
        let mut i: usize = 0;
        while i < len
            invariant
                i <= len,
                len == text@.len(),
                self.wf(),
                self.base@ == old(self).base@,
                self.sent@ == old(self).sent@ + text@.subrange(0, i as int),
            decreases len - i,
        {
            self.write(text.get_char(i));
            proof {
                assert(text@.subrange(0, i + 1) =~= text@.subrange(0, i as int).push(text@[i as int]));
            }
            i = i + 1;
        }
        proof {
            assert(text@.subrange(0, len as int) =~= text@);
            assert(self.sent@.subrange(0, 0) =~= Seq::<char>::empty());
        }
        Ok(())
    }
}

/// The bring-up order is load-bearing, and the trace shows it: the
/// fourteen events of the two pin switches all stay on the GPIO block, so
/// both hand-overs complete before any UART register is written, and the
/// eight UART configuration writes are exactly the trace's tail.
pub proof fn lemma_bringup_order(pre: Seq<Ev>, post: Seq<Ev>)
    requires
        uart_bringup_trace(pre, post),
    ensures
        post.len() == pre.len() + 22,
        post.subrange(pre.len() as int + 14, post.len() as int) == init_events(),
        forall|i: int|
            pre.len() <= i < pre.len() + 14 ==> gpio_block_event(#[trigger] post[i]),
{
    let (mid1, mid2) = choose|mid1: Seq<Ev>, mid2: Seq<Ev>|
        enable_pin_trace(pre, mid1, GpioPin::Pin14, GpioPinOp::Alt5)
            && #[trigger] enable_pin_trace(mid1, mid2, GpioPin::Pin15, GpioPinOp::Alt5)
            && post == mid2 + init_events();
    let fb1 = choose|fsel_before: u32|
        mid1 == pre + #[trigger] enable_pin_events(fsel_before, GpioPin::Pin14, GpioPinOp::Alt5);
    let fb2 = choose|fsel_before: u32|
        mid2 == mid1 + #[trigger] enable_pin_events(fsel_before, GpioPin::Pin15, GpioPinOp::Alt5);
    assert(post.subrange(pre.len() as int + 14, post.len() as int) =~= init_events());
    lemma_enable_pin_stays_on_gpio_block(fb1, GpioPin::Pin14, GpioPinOp::Alt5);
    lemma_enable_pin_stays_on_gpio_block(fb2, GpioPin::Pin15, GpioPinOp::Alt5);
    assert forall|i: int| pre.len() <= i < pre.len() + 14 implies gpio_block_event(
        #[trigger] post[i],
    ) by {
        if i < pre.len() + 7 {
            assert(post[i] == enable_pin_events(fb1, GpioPin::Pin14, GpioPinOp::Alt5)[i - pre.len()]);
        } else {
            assert(post[i] == enable_pin_events(fb2, GpioPin::Pin15, GpioPinOp::Alt5)[i - pre.len()
                - 7]);
        }
    }
}

/// Bring-up puts nothing on the wire: the whole bring-up trace leaves
/// the I/O payload untouched, so after `init` the wire carries exactly
/// the characters later handed to `write` — starting from nothing.
pub proof fn lemma_bringup_wire_is_silent(pre: Seq<Ev>, post: Seq<Ev>)
    requires
        uart_bringup_trace(pre, post),
    ensures
        io_writes(post) == io_writes(pre),
{
    lemma_bringup_order(pre, post);
    let tail = post.subrange(pre.len() as int, post.len() as int);
    assert(post =~= pre + tail);
    assert forall|i: int|
        0 <= i < tail.len() implies !((#[trigger] tail[i]) matches Ev::Write { addr, .. }
        && addr == IO_ADDR) by {
        if i < 14 {
            assert(gpio_block_event(post[pre.len() + i]));
        } else {
            assert(tail[i] == post.subrange(pre.len() as int + 14, post.len() as int)[i - 14]);
        }
    }
    lemma_io_writes_empty(tail);
    lemma_io_writes_append(pre, tail);
    assert(io_writes(pre) + Seq::<u32>::empty() =~= io_writes(pre));
}

/// The bring-up sequence ends with both the transmitter and the receiver
/// enabled, and contains no read at all — in particular none of the
/// line-status or I/O registers — before that final enable.
pub proof fn lemma_init_events_shape()
    ensures
        init_events().len() == 8,
        init_events().last() == (Ev::Write { addr: CNTL_ADDR, value: CNTL_RX_ENABLE | CNTL_TX_ENABLE }),
        (CNTL_RX_ENABLE | CNTL_TX_ENABLE) & CNTL_TX_ENABLE != 0,
        (CNTL_RX_ENABLE | CNTL_TX_ENABLE) & CNTL_RX_ENABLE != 0,
        forall|i: int| 0 <= i < init_events().len() ==> !((#[trigger] init_events()[i]) is Read),
{
    assert((0x01u32 | 0x02u32) & 0x02u32 != 0 && (0x01u32 | 0x02u32) & 0x01u32 != 0) by (bit_vector);
}

} // verus!

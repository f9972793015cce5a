//! The GPIO pin-function controller. It switches one logical pin to a
//! requested function through the function-select register and then runs
//! the clocked pull-control hand-shake the pads require.

use vstd::prelude::*;

use crate::mmio::Ev;
use crate::mmio::Hw;
use crate::mmio::Register;
use crate::mmio::read_value;

verus! {

pub const GPIO_BASE_REG_ADDR: u32 = 0x3f20_0000;

/// Function-select register: three bits per pin choose the pin's operation.
pub const FSEL1_ADDR: u32 = GPIO_BASE_REG_ADDR + 0x04;

/// Pull-up/down control register, used together with the pull clock.
pub const PUD_ADDR: u32 = GPIO_BASE_REG_ADDR + 0x94;

/// Pull-up/down clock register: a set bit latches the control value into
/// that pin's pad.
pub const PUDCLK0_ADDR: u32 = GPIO_BASE_REG_ADDR + 0x98;

/// Hardware-mandated setup and hold time of the pull-control hand-shake.
pub const PUD_CPU_CYCLES: u32 = 150;

/// Width mask of one pin's function-select field.
pub const CLEAR_PIN_MASK: u32 = 0x7;

pub const GPIO_PAD_MASK: u32 = 0x1;

/// The logical pins this board layer drives.
#[derive(Clone, Copy, PartialEq, Eq, Structural, Debug)]
pub enum GpioPin {
    Pin14,
    Pin15,
}

/// A pin operation: input, output, or one of five alternate functions. The
/// numeric codes are fixed by the hardware datasheet and are not in
/// enumeration order.
#[derive(Clone, Copy, PartialEq, Eq, Structural, Debug)]
pub enum GpioPinOp {
    Input,
    Output,
    Alt0,
    Alt1,
    Alt2,
    Alt3,
    Alt4,
    Alt5,
}

/// The absolute pin number, used to pick the pull-clock bit.
pub open spec fn spec_pin_nr(pin: GpioPin) -> u32 {
    match pin {
        GpioPin::Pin14 => 14,
        GpioPin::Pin15 => 15,
    }
}

/// The absolute pin number, used to pick the pull-clock bit.
#[verifier::when_used_as_spec(spec_pin_nr)]
pub fn pin_nr(pin: GpioPin) -> (nr: u32)
    ensures
        nr == spec_pin_nr(pin),
{
    match pin {
        GpioPin::Pin14 => 14,
        GpioPin::Pin15 => 15,
    }
}

/// The bit position of the pin's function-select field.
pub open spec fn spec_pin_start_bit(pin: GpioPin) -> u32 {
    match pin {
        GpioPin::Pin14 => 12,
        GpioPin::Pin15 => 15,
    }
}

/// The bit position of the pin's function-select field.
#[verifier::when_used_as_spec(spec_pin_start_bit)]
pub fn pin_start_bit(pin: GpioPin) -> (start_bit: u32)
    ensures
        start_bit == spec_pin_start_bit(pin),
{
    match pin {
        GpioPin::Pin14 => 12,
        GpioPin::Pin15 => 15,
    }
}

/// The datasheet's three-bit code of a pin operation.
pub open spec fn spec_op_code(op: GpioPinOp) -> u32 {
    match op {
        GpioPinOp::Input => 0,
        GpioPinOp::Output => 1,
        GpioPinOp::Alt0 => 4,
        GpioPinOp::Alt1 => 5,
        GpioPinOp::Alt2 => 6,
        GpioPinOp::Alt3 => 7,
        GpioPinOp::Alt4 => 3,
        GpioPinOp::Alt5 => 2,
    }
}

/// The datasheet's three-bit code of a pin operation.
#[verifier::when_used_as_spec(spec_op_code)]
pub fn op_code(op: GpioPinOp) -> (code: u32)
    ensures
        code == spec_op_code(op),
{
    match op {
        GpioPinOp::Input => 0,
        GpioPinOp::Output => 1,
        GpioPinOp::Alt0 => 4,
        GpioPinOp::Alt1 => 5,
        GpioPinOp::Alt2 => 6,
        GpioPinOp::Alt3 => 7,
        GpioPinOp::Alt4 => 3,
        GpioPinOp::Alt5 => 2,
    }
}

/// The pin operation a three-bit code stands for.
pub open spec fn spec_decode_op(code: u32) -> Option<GpioPinOp> {
    if code == 0 {
        Some(GpioPinOp::Input)
    } else if code == 1 {
        Some(GpioPinOp::Output)
    } else if code == 4 {
        Some(GpioPinOp::Alt0)
    } else if code == 5 {
        Some(GpioPinOp::Alt1)
    } else if code == 6 {
        Some(GpioPinOp::Alt2)
    } else if code == 7 {
        Some(GpioPinOp::Alt3)
    } else if code == 3 {
        Some(GpioPinOp::Alt4)
    } else if code == 2 {
        Some(GpioPinOp::Alt5)
    } else {
        None
    }
}

/// The pin operation a three-bit code stands for.
#[verifier::when_used_as_spec(spec_decode_op)]
pub fn decode_op(code: u32) -> (op: Option<GpioPinOp>)
    ensures
        op == spec_decode_op(code),
{
    if code == 0 {
        Some(GpioPinOp::Input)
    } else if code == 1 {
        Some(GpioPinOp::Output)
    } else if code == 4 {
        Some(GpioPinOp::Alt0)
    } else if code == 5 {
        Some(GpioPinOp::Alt1)
    } else if code == 6 {
        Some(GpioPinOp::Alt2)
    } else if code == 7 {
        Some(GpioPinOp::Alt3)
    } else if code == 3 {
        Some(GpioPinOp::Alt4)
    } else if code == 2 {
        Some(GpioPinOp::Alt5)
    } else {
        None
    }
}

/// A function-select value with the three-bit field at `start_bit` cleared
/// and replaced by `code`; every bit outside the field keeps its value.
pub open spec fn fsel_update(fsel: u32, start_bit: u32, code: u32) -> u32 {
    (fsel & !(CLEAR_PIN_MASK << start_bit)) | (code << start_bit)
}

/// The three-bit field at `start_bit` of a function-select value.
pub open spec fn fsel_field(fsel: u32, start_bit: u32) -> u32 {
    (fsel >> start_bit) & CLEAR_PIN_MASK
}

/// Whether bit `i` of `value` is set.
pub open spec fn bit_set(value: u32, i: u32) -> bool {
    value & (1u32 << i) != 0
}

/// The exact trace one `enable_pin` call appends, given the value
/// `fsel_before` that the function-select read observed: the field update,
/// then the clocked pull-control hand-shake in the order the pads require.
pub open spec fn enable_pin_events(fsel_before: u32, pin: GpioPin, op: GpioPinOp) -> Seq<Ev> {
    seq![
        Ev::Read { addr: FSEL1_ADDR, value: fsel_before },
        Ev::Write {
            addr: FSEL1_ADDR,
            value: fsel_update(fsel_before, spec_pin_start_bit(pin), spec_op_code(op)),
        },
        Ev::Write { addr: PUD_ADDR, value: 0 },
        Ev::Wait { cycles: PUD_CPU_CYCLES },
        Ev::Write { addr: PUDCLK0_ADDR, value: GPIO_PAD_MASK << spec_pin_nr(pin) },
        Ev::Wait { cycles: PUD_CPU_CYCLES },
        Ev::Write { addr: PUDCLK0_ADDR, value: 0 },
    ]
}

/// Whether `post` extends `pre` by exactly one `enable_pin` trace for
/// `pin` and `op`, whatever function-select value the read observed.
pub open spec fn enable_pin_trace(pre: Seq<Ev>, post: Seq<Ev>, pin: GpioPin, op: GpioPinOp) -> bool {
    exists|fsel_before: u32| post == pre + #[trigger] enable_pin_events(fsel_before, pin, op)
}

/// The GPIO peripheral: the three registers of the pin-function and
/// pull-control blocks, and the port they are driven through. The port
/// also supplies the busy-wait that paces the timing-critical pull-control
/// hand-shake. The three register addresses are owned exclusively by this
/// controller.
pub struct Gpio<B: Hw> {
    fsel1: Register,
    pud: Register,
    pudclk0: Register,
    port: B,
}

impl<B: Hw> Gpio<B> {
    /// The controller's register handles sit at the fixed GPIO addresses.
    pub closed spec fn wf(&self) -> bool {
        &&& self.fsel1.addr() == FSEL1_ADDR
        &&& self.pud.addr() == PUD_ADDR
        &&& self.pudclk0.addr() == PUDCLK0_ADDR
    }

    /// The trace of operations this controller has performed.
    pub closed spec fn log(&self) -> Seq<Ev> {
        self.port.log()
    }

    /// Binds the controller to the fixed function-select, pull-control and
    /// pull-clock addresses, driven through `port`.
    pub fn new(port: B) -> (gpio: Gpio<B>)
        ensures
            gpio.wf(),
            gpio.log() == port.log(),
    {
        Gpio {
            fsel1: Register::new(FSEL1_ADDR),
            pud: Register::new(PUD_ADDR),
            pudclk0: Register::new(PUDCLK0_ADDR),
            port,
        }
    }

    /// The port the controller drives its registers through.
    pub fn port(&self) -> (port: &B)
        ensures
            port.log() == self.log(),
    {
        &self.port
    }

    /// Releases the port once the controller's work is done, for the next
    /// bring-up stage to drive its own registers through; the pin
    /// configuration already latched stays in hardware.
    pub fn into_port(self) -> (port: B)
        ensures
            port.log() == self.log(),
    {
        self.port
    }

    /// Configures one logical pin to the requested operation: reads the
    /// function-select register, rewrites only the pin's three-bit field,
    /// and runs the pull-control hand-shake — control value, setup wait,
    /// clock bit, hold wait, clock removal — in exactly that order.
    pub fn enable_pin(&mut self, pin: GpioPin, op: GpioPinOp)
        requires
            old(self).wf(),
        ensures
            final(self).wf(),
            enable_pin_trace(old(self).log(), final(self).log(), pin, op),
    {
        let start_bit = pin_start_bit(pin);
        let fsel_before = self.fsel1.read(&mut self.port);

        let mut fsel = fsel_before;
        fsel = fsel & !(CLEAR_PIN_MASK << start_bit);
        fsel = fsel | (op_code(op) << start_bit);
        self.fsel1.write(&mut self.port, fsel);

        // Disable pull-up/down for the pad.
        self.pud.write(&mut self.port, 0);
        self.port.wait(PUD_CPU_CYCLES);

        // Clock the control value into the pad.
        self.pudclk0.write(&mut self.port, GPIO_PAD_MASK << pin_nr(pin));
        self.port.wait(PUD_CPU_CYCLES);

        // Remove the clock; the control value written above is already the
        // steady state, so it is left in place.
        self.pudclk0.write(&mut self.port, 0);

        proof {
            assert(self.port.log() =~= old(self).port.log()
                + enable_pin_events(fsel_before, pin, op));
        }
    }
}

/// All function-select bits outside the target pin's three-bit field are
/// left exactly as they were: `enable_pin` writes back the value it read,
/// changed only in the field at the pin's start bit.
pub proof fn lemma_enable_pin_preserves_other_bits(fsel_before: u32, pin: GpioPin, op: GpioPinOp, i: u32)
    requires
        i < 32,
        !(spec_pin_start_bit(pin) <= i < spec_pin_start_bit(pin) + 3),
    ensures
        bit_set(fsel_update(fsel_before, spec_pin_start_bit(pin), spec_op_code(op)), i)
            == bit_set(fsel_before, i),
{
    let start_bit = spec_pin_start_bit(pin);
    let code = spec_op_code(op);
    assert(code < 8 && (start_bit == 12 || start_bit == 15));
    assert(((fsel_before & !(0x7u32 << start_bit)) | (code << start_bit)) & (1u32 << i) != 0
        <==> fsel_before & (1u32 << i) != 0) by (bit_vector)
        requires
            i < 32,
            !(start_bit <= i < start_bit + 3),
            code < 8,
            start_bit == 12 || start_bit == 15,
    ;
}

/// An event that stays on the GPIO block: a function-select read, a write
/// to one of the controller's three registers, or a busy-wait. Nothing
/// else — in particular no other peripheral's register — appears in an
/// `enable_pin` trace.
pub open spec fn gpio_block_event(ev: Ev) -> bool {
    match ev {
        Ev::Read { addr, .. } => addr == FSEL1_ADDR,
        Ev::Write { addr, .. } => addr == FSEL1_ADDR || addr == PUD_ADDR || addr == PUDCLK0_ADDR,
        Ev::Wait { .. } => true,
    }
}

/// Every event of an `enable_pin` trace stays on the GPIO block.
pub proof fn lemma_enable_pin_stays_on_gpio_block(fsel_before: u32, pin: GpioPin, op: GpioPinOp)
    ensures
        forall|k: int|
            0 <= k < enable_pin_events(fsel_before, pin, op).len()
                ==> gpio_block_event(#[trigger] enable_pin_events(fsel_before, pin, op)[k]),
{
}

/// The same preservation, read off a completed `enable_pin` call: the
/// trace grew by the seven hand-shake events, and the value written back
/// to the function-select register differs from the value read out of it
/// only inside the target pin's three-bit field.
pub proof fn lemma_enable_pin_trace_preserves_other_bits(
    pre: Seq<Ev>,
    post: Seq<Ev>,
    pin: GpioPin,
    op: GpioPinOp,
)
    requires
        enable_pin_trace(pre, post, pin, op),
    ensures
        post.len() == pre.len() + 7,
        ({
            let fsel_before = read_value(post[pre.len() as int]);
            let fsel_after = fsel_update(fsel_before, spec_pin_start_bit(pin), spec_op_code(op));
            &&& post[pre.len() as int] == (Ev::Read { addr: FSEL1_ADDR, value: fsel_before })
            &&& post[pre.len() as int + 1] == (Ev::Write { addr: FSEL1_ADDR, value: fsel_after })
            &&& forall|i: u32|
                i < 32 && !(spec_pin_start_bit(pin) <= i < spec_pin_start_bit(pin) + 3)
                    ==> #[trigger] bit_set(fsel_after, i) == bit_set(fsel_before, i)
        }),
{
    let fsel_before = choose|fsel_before: u32|
        post == pre + #[trigger] enable_pin_events(fsel_before, pin, op);
    assert(post[pre.len() as int] == (Ev::Read { addr: FSEL1_ADDR, value: fsel_before }));
    let fsel_after = fsel_update(fsel_before, spec_pin_start_bit(pin), spec_op_code(op));
    assert forall|i: u32|
        i < 32 && !(spec_pin_start_bit(pin) <= i < spec_pin_start_bit(pin) + 3)
            implies #[trigger] bit_set(fsel_after, i) == bit_set(fsel_before, i) by {
        lemma_enable_pin_preserves_other_bits(fsel_before, pin, op, i);
    }
}

/// The pull-control hand-shake writes the control value, the clock bit and
/// the clock removal in exactly that order, with nothing but the setup
/// wait between control value and clock bit; no other write in the trace
/// touches the pull-control or pull-clock registers.
pub proof fn lemma_pull_handshake_order(fsel_before: u32, pin: GpioPin, op: GpioPinOp)
    ensures
        ({
            let events = enable_pin_events(fsel_before, pin, op);
            &&& events[2] == (Ev::Write { addr: PUD_ADDR, value: 0 })
            &&& events[3] == (Ev::Wait { cycles: PUD_CPU_CYCLES })
            &&& events[4] == (Ev::Write {
                addr: PUDCLK0_ADDR,
                value: GPIO_PAD_MASK << spec_pin_nr(pin),
            })
            &&& events[5] == (Ev::Wait { cycles: PUD_CPU_CYCLES })
            &&& events[6] == (Ev::Write { addr: PUDCLK0_ADDR, value: 0 })
            &&& forall|j: int|
                0 <= j < events.len() && ((#[trigger] events[j]) matches Ev::Write { addr, .. }
                    && (addr == PUD_ADDR || addr == PUDCLK0_ADDR)) ==> (j == 2 || j == 4 || j == 6)
        }),
{
}

/// Encoding a pin operation into a function-select value and reading the
/// pin's field back out reproduces the operation's code, for every defined
/// operation and every prior register value.
pub proof fn lemma_fsel_round_trip(fsel: u32, pin: GpioPin, op: GpioPinOp)
    ensures
        fsel_field(fsel_update(fsel, spec_pin_start_bit(pin), spec_op_code(op)), spec_pin_start_bit(pin))
            == spec_op_code(op),
        spec_decode_op(fsel_field(fsel_update(fsel, spec_pin_start_bit(pin), spec_op_code(op)), spec_pin_start_bit(pin)))
            == Some(op),
{
    let start_bit = spec_pin_start_bit(pin);
    let code = spec_op_code(op);
    assert(code < 8 && (start_bit == 12 || start_bit == 15));
    assert((((fsel & !(0x7u32 << start_bit)) | (code << start_bit)) >> start_bit) & 0x7u32 == code)
        by (bit_vector)
        requires
            code < 8,
            start_bit == 12 || start_bit == 15,
    ;
}

} // verus!

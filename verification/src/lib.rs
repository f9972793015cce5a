//! A minimal hardware-abstraction layer for a bare-metal single-core board:
//! a memory-mapped register abstraction, a GPIO pin-function controller, a
//! mini-UART transmitter, and a formatting console on top.
//!
//! Hardware itself cannot be reasoned about directly, so every driver is
//! generic over a [`mmio::Hw`] port: an object that carries out register
//! reads, register writes and busy-waits, and whose specification records
//! each operation in an event trace. The drivers' contracts pin down the
//! exact trace of register operations they perform, which is what the
//! hardware protocols (the pull-control hand-shake, the UART bring-up
//! order, the transmit-ready polling) are about. The in-memory port
//! [`sim::SimHw`] is a verified stand-in used by tests; a real port
//! performs volatile accesses at the recorded addresses.

pub mod console;
pub mod gpio;
pub mod mmio;
pub mod serial;
pub mod sim;

pub use console::Console;
pub use console::TextSink;
pub use gpio::Gpio;
pub use gpio::GpioPin;
pub use gpio::GpioPinOp;
pub use mmio::Ev;
pub use mmio::Hw;
pub use mmio::Register;
pub use serial::MiniUart;
pub use sim::SimHw;

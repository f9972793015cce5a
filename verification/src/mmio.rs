//! The memory-mapped I/O abstraction: hardware events, the hardware port
//! trait, and the typed register handle that drivers own.

use vstd::prelude::*;

verus! {

/// One observable hardware operation: a register write, a register read
/// together with the value the hardware produced, or a busy-wait of a given
/// number of processor cycles.
#[derive(Clone, Copy, PartialEq, Eq, Structural, Debug)]
pub enum Ev {
    Write { addr: u32, value: u32 },
    Read { addr: u32, value: u32 },
    Wait { cycles: u32 },
}

/// The value a read event observed; 0 for any other event.
pub open spec fn read_value(ev: Ev) -> u32 {
    match ev {
        Ev::Read { value, .. } => value,
        _ => 0,
    }
}

/// A hardware port: the one object through which a driver touches the
/// machine. Its specification is an append-only trace of the operations
/// performed, so a driver's contract can state exactly which registers it
/// wrote, in which order, and what it observed in between.
///
/// The port also carries a liveness `budget`: an upper bound on how many
/// times a status poll may come back not-ready before the hardware reports
/// the polled condition. A functioning peripheral drains its transmit FIFO,
/// so such a bound exists; a port for a wedged peripheral has no
/// implementation of this trait.
pub trait Hw: Sized {
    /// The trace of operations performed through this port so far.
    spec fn log(&self) -> Seq<Ev>;

    /// An upper bound on the not-ready status polls still to come.
    spec fn budget(&self) -> nat;

    /// One volatile load from `addr`.
    fn read_reg(&mut self, addr: u32) -> (value: u32)
        ensures
            final(self).log() == old(self).log().push(Ev::Read { addr, value }),
    ;

    /// One volatile store of `value` to `addr`.
    fn write_reg(&mut self, addr: u32, value: u32)
        ensures
            final(self).log() == old(self).log().push(Ev::Write { addr, value }),
    ;

    /// One volatile load from the status register at `addr`, polled for the
    /// bits in `mask`: whenever the load comes back with all `mask` bits
    /// clear, the liveness budget strictly shrinks.
    fn poll_status(&mut self, addr: u32, mask: u32) -> (value: u32)
        requires
            mask != 0,
        ensures
            final(self).log() == old(self).log().push(Ev::Read { addr, value }),
            final(self).budget() <= old(self).budget(),
            value & mask == 0 ==> final(self).budget() < old(self).budget(),
    ;

    /// A busy-wait of `cycles` processor cycles, with no memory traffic.
    fn wait(&mut self, cycles: u32)
        ensures
            final(self).log() == old(self).log().push(Ev::Wait { cycles }),
            final(self).budget() == old(self).budget(),
    ;
}

/// A statically known memory-mapped hardware location. The address is fixed
/// at construction and never reassigned; every access through the handle is
/// a single operation on the port, recorded in the port's trace.
#[derive(Clone, Copy, Debug)]
pub struct Register {
    addr: u32,
}

impl Register {
    /// The fixed address this handle stands for.
    pub closed spec fn addr(&self) -> u32 {
        self.addr
    }

    /// Creates a register handle for the location `addr`. The caller is
    /// responsible for handing the handle a port whose accesses at `addr`
    /// reach valid, stable hardware memory.
    pub fn new(addr: u32) -> (reg: Register)
        ensures
            reg.addr() == addr,
    {
        Register { addr }
    }

    /// Reads the value at the register address.
    pub fn read<B: Hw>(&self, hw: &mut B) -> (value: u32)
        ensures
            final(hw).log() == old(hw).log().push(Ev::Read { addr: self.addr(), value }),
    {
        hw.read_reg(self.addr)
    }

    /// Writes the provided value at the register address.
    pub fn write<B: Hw>(&self, hw: &mut B, value: u32)
        ensures
            final(hw).log() == old(hw).log().push(Ev::Write { addr: self.addr(), value }),
    {
        hw.write_reg(self.addr, value)
    }

    /// Reads the register address as a status poll for the bits in `mask`.
    pub fn poll<B: Hw>(&self, hw: &mut B, mask: u32) -> (value: u32)
        requires
            mask != 0,
        ensures
            final(hw).log() == old(hw).log().push(Ev::Read { addr: self.addr(), value }),
            final(hw).budget() <= old(hw).budget(),
            value & mask == 0 ==> final(hw).budget() < old(hw).budget(),
    {
        hw.poll_status(self.addr, mask)
    }
}

} // verus!

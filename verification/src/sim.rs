//! An in-memory hardware port. It backs ordinary registers with a
//! last-write-wins store, answers status polls from a caller-chosen script,
//! and records every operation, so the drivers' register protocols can be
//! exercised without hardware.

use vstd::prelude::*;

use crate::mmio::Ev;
use crate::mmio::Hw;

verus! {

/// The value a last-write-wins store holds at `addr`: the value of the
/// latest entry for `addr`, or 0 when no entry mentions it.
pub open spec fn stored_in(store: Seq<(u32, u32)>, addr: u32) -> u32
    decreases store.len(),
{
    if store.len() == 0 {
        0
    } else if store.last().0 == addr {
        store.last().1
    } else {
        stored_in(store.drop_last(), addr)
    }
}

/// An in-memory hardware port.
///
/// Reads of ordinary registers return the latest value written (or seeded)
/// at that address, 0 if none. Status polls consume `script` front to back;
/// once it is exhausted the polled bits read as set, so a poll loop always
/// comes to rest.
pub struct SimHw {
    events: Vec<Ev>,
    store: Vec<(u32, u32)>,
    script: Vec<u32>,
}

impl SimHw {
    /// The register store, as a sequence of (address, value) entries in
    /// write order.
    pub closed spec fn store(&self) -> Seq<(u32, u32)> {
        self.store@
    }

    /// The status values still scripted, in the order polls will see them.
    pub closed spec fn script(&self) -> Seq<u32> {
        self.script@
    }

    /// A fresh port: empty trace, empty store, empty status script.
    pub fn new() -> (hw: SimHw)
        ensures
            hw.log() == Seq::<Ev>::empty(),
            hw.store() == Seq::<(u32, u32)>::empty(),
            hw.script() == Seq::<u32>::empty(),
    {
        SimHw { events: Vec::new(), store: Vec::new(), script: Vec::new() }
    }

    /// Places `value` at `addr` in the register store without logging an
    /// event, as if the hardware had powered up with that value.
    pub fn seed(&mut self, addr: u32, value: u32)
        ensures
            final(self).log() == old(self).log(),
            final(self).store() == old(self).store().push((addr, value)),
            final(self).script() == old(self).script(),
    {
        self.store.push((addr, value));
    }

    /// Appends `value` to the status script: one more poll will see it
    /// before the hardware reads as ready.
    pub fn push_status(&mut self, value: u32)
        ensures
            final(self).log() == old(self).log(),
            final(self).store() == old(self).store(),
            final(self).script() == old(self).script().push(value),
    {
        self.script.push(value);
    }

    /// The recorded trace of operations.
    pub fn events(&self) -> (events: &Vec<Ev>)
        ensures
            events@ == self.log(),
    {
        &self.events
    }

    /// The value the store holds at `addr`.
    pub fn peek(&self, addr: u32) -> (value: u32)
        ensures
            value == stored_in(self.store(), addr),
    {
        let mut i: usize = self.store.len();
        proof {
            assert(self.store@.subrange(0, i as int) =~= self.store@);
        }
        while i > 0
            invariant
                i <= self.store@.len(),
                stored_in(self.store@, addr) == stored_in(self.store@.subrange(0, i as int), addr),
            decreases i,
        {
            i = i - 1;
            let entry = self.store[i];
            proof {
                assert(self.store@.subrange(0, i + 1).last() == self.store@[i as int]);
                assert(self.store@.subrange(0, i + 1).drop_last() =~= self.store@.subrange(0, i as int));
            }
            if entry.0 == addr {
                return entry.1;
            }
        }
        proof {
            assert(self.store@.subrange(0, 0) =~= Seq::<(u32, u32)>::empty());
        }
        0
    }
}

/// A write-then-read round trip through a last-write-wins store: right
/// after `value` is written at `addr`, the store holds `value` there, and
/// every other address keeps what it held.
pub proof fn lemma_store_round_trip(store: Seq<(u32, u32)>, addr: u32, value: u32, other: u32)
    ensures
        stored_in(store.push((addr, value)), addr) == value,
        other != addr ==> stored_in(store.push((addr, value)), other) == stored_in(store, other),
{
    assert(store.push((addr, value)).drop_last() =~= store);
}

impl Hw for SimHw {
    closed spec fn log(&self) -> Seq<Ev> {
        self.events@
    }

    closed spec fn budget(&self) -> nat {
        self.script@.len()
    }

    /// Reads exactly what the store holds at `addr`: the value of the
    /// latest write or seed there, 0 if none.
    fn read_reg(&mut self, addr: u32) -> (value: u32)
        ensures
            value == stored_in(old(self).store(), addr),
            final(self).store() == old(self).store(),
            final(self).script() == old(self).script(),
    {
        let value = self.peek(addr);
        self.events.push(Ev::Read { addr, value });
        value
    }

    /// Appends the write to the store; later reads of `addr` see `value`.
    fn write_reg(&mut self, addr: u32, value: u32)
        ensures
            final(self).store() == old(self).store().push((addr, value)),
            final(self).script() == old(self).script(),
    {
        self.store.push((addr, value));
        self.events.push(Ev::Write { addr, value });
    }

    /// Consumes the status script front to back; once it is exhausted,
    /// the polled bits read as set. The store is untouched.
    fn poll_status(&mut self, addr: u32, mask: u32) -> (value: u32)
        ensures
            final(self).store() == old(self).store(),
            old(self).script().len() > 0 ==> value == old(self).script()[0]
                && final(self).script() == old(self).script().subrange(
                1,
                old(self).script().len() as int,
            ),
            old(self).script().len() == 0 ==> value == mask && final(self).script() == old(
                self,
            ).script(),
    {
        let value: u32 = if self.script.len() > 0 {
            let ghost script0 = self.script@;
            let popped = self.script.remove(0);
            proof {
                assert(script0.remove(0) =~= script0.subrange(1, script0.len() as int));
            }
            popped
        } else {
            proof {
                assert(mask & mask != 0) by (bit_vector)
                    requires
                        mask != 0,
                ;
            }
            mask
        };
        self.events.push(Ev::Read { addr, value });
        value
    }

    fn wait(&mut self, cycles: u32)
        ensures
            final(self).store() == old(self).store(),
            final(self).script() == old(self).script(),
    {
        self.events.push(Ev::Wait { cycles });
    }
}

} // verus!

//! The console façade and the text-sink capability it writes through. The
//! console decouples "something that can be printed to" from the concrete
//! transmitter, so the same code can drive the serial line or an in-memory
//! sink.

use vstd::prelude::*;

verus! {

/// The failure a text sink may report.
#[derive(Clone, Copy, PartialEq, Eq, Structural, Debug)]
pub struct SinkError;

/// Something that text can be handed to, character by character and in
/// order. `sunk` is the transcript of everything accepted so far: on
/// success a write appends exactly the characters handed in, and on
/// failure it leaves the transcript as it was. A sink that declares
/// itself `infallible` never reports a failure.
pub trait TextSink: Sized {
    /// The sink's internal invariant.
    spec fn inv(&self) -> bool;

    /// Whether this sink never reports a failure.
    spec fn infallible(&self) -> bool;

    /// The characters accepted so far, in order.
    spec fn sunk(&self) -> Seq<char>;

    /// Accepts the characters of `text`, in order.
    fn write_str(&mut self, text: &str) -> (result: Result<(), SinkError>)
        requires
            old(self).inv(),
        ensures
            final(self).inv(),
            final(self).infallible() == old(self).infallible(),
            old(self).infallible() ==> result is Ok,
            result is Ok ==> final(self).sunk() == old(self).sunk() + text@,
            result is Err ==> final(self).sunk() == old(self).sunk(),
    ;
}

/// A formatting façade over an exclusively owned text sink.
pub struct Console<W: TextSink> {
    writer: W,
}

impl<W: TextSink> Console<W> {
    /// The owned sink's invariant.
    pub closed spec fn inv(&self) -> bool {
        self.writer.inv()
    }

    /// Whether the owned sink never reports a failure.
    pub closed spec fn infallible(&self) -> bool {
        self.writer.infallible()
    }

    /// The characters the owned sink has accepted so far, in order.
    pub closed spec fn sunk(&self) -> Seq<char> {
        self.writer.sunk()
    }

    /// Takes exclusive ownership of `writer`.
    pub fn new(writer: W) -> (console: Console<W>)
        ensures
            console.inv() == writer.inv(),
            console.infallible() == writer.infallible(),
            console.sunk() == writer.sunk(),
    {
        Console { writer }
    }

    /// The owned sink.
    pub fn writer(&self) -> (writer: &W)
        ensures
            writer.inv() == self.inv(),
            writer.infallible() == self.infallible(),
            writer.sunk() == self.sunk(),
    {
        &self.writer
    }

    /// Forwards formatted text to the sink, unchanged and whole; a
    /// failure the sink reports is propagated, with the transcript
    /// unchanged, and a sink that never fails makes the call succeed.
    pub fn print(&mut self, text: &String) -> (result: Result<(), SinkError>)
        requires
            old(self).inv(),
        ensures
            final(self).inv(),
            final(self).infallible() == old(self).infallible(),
            old(self).infallible() ==> result is Ok,
            result is Ok ==> final(self).sunk() == old(self).sunk() + text@,
            result is Err ==> final(self).sunk() == old(self).sunk(),
    {
        self.writer.write_str(text.as_str())
    }

    /// Forwards plain text to the sink, unchanged and whole; a failure
    /// the sink reports is propagated, with the transcript unchanged, and
    /// a sink that never fails makes the call succeed.
    pub fn print_str(&mut self, text: &str) -> (result: Result<(), SinkError>)
        requires
            old(self).inv(),
        ensures
            final(self).inv(),
            final(self).infallible() == old(self).infallible(),
            old(self).infallible() ==> result is Ok,
            result is Ok ==> final(self).sunk() == old(self).sunk() + text@,
            result is Err ==> final(self).sunk() == old(self).sunk(),
    {
        self.writer.write_str(text)
    }
}

/// An in-memory text sink that accepts everything; it stands in for the
/// transmitter when the logic above it is exercised without hardware.
pub struct VecSink {
    received: Vec<char>,
}

impl VecSink {
    /// A fresh sink with an empty transcript.
    pub fn new() -> (sink: VecSink)
        ensures
            sink.inv(),
            sink.infallible(),
            sink.sunk() == Seq::<char>::empty(),
    {
        VecSink { received: Vec::new() }
    }

    /// The characters received so far, in order.
    pub fn received(&self) -> (received: &Vec<char>)
        ensures
            received@ == self.sunk(),
    {
        &self.received
    }
}

impl TextSink for VecSink {
    closed spec fn inv(&self) -> bool {
        true
    }

    /// This sink accepts everything.
    closed spec fn infallible(&self) -> bool {
        true
    }

    closed spec fn sunk(&self) -> Seq<char> {
        self.received@
    }

    /// Always succeeds and appends exactly the characters of `text`.
    fn write_str(&mut self, text: &str) -> (result: Result<(), SinkError>)
        ensures
            result is Ok,
            final(self).sunk() == old(self).sunk() + text@,
    {
        let len = text.unicode_len();
        let mut i: usize = 0;
        while i < len
            invariant
                i <= len,
                len == text@.len(),
                self.received@ == old(self).received@ + text@.subrange(0, i as int),
            decreases len - i,
        {
            self.received.push(text.get_char(i));
            proof {
                assert(text@.subrange(0, i + 1) =~= text@.subrange(0, i as int).push(text@[i as int]));
            }
            i = i + 1;
        }
        proof {
            assert(text@.subrange(0, len as int) =~= text@);
            assert(self.received@.subrange(0, 0) =~= Seq::<char>::empty());
        }
        Ok(())
    }
}

/// An in-memory text sink of fixed capacity: text that would overflow the
/// capacity is refused whole, with the transcript unchanged. It exercises
/// the failure path that the console must propagate.
pub struct BoundedSink {
    capacity: usize,
    received: Vec<char>,
}

impl BoundedSink {
    /// How many characters the sink accepts in total.
    pub closed spec fn capacity(&self) -> nat {
        self.capacity as nat
    }

    /// A fresh sink that accepts at most `capacity` characters.
    pub fn new(capacity: usize) -> (sink: BoundedSink)
        ensures
            sink.inv(),
            !sink.infallible(),
            sink.capacity() == capacity,
            sink.sunk() == Seq::<char>::empty(),
    {
        BoundedSink { capacity, received: Vec::new() }
    }

    /// The characters received so far, in order.
    pub fn received(&self) -> (received: &Vec<char>)
        ensures
            received@ == self.sunk(),
    {
        &self.received
    }
}

impl TextSink for BoundedSink {
    closed spec fn inv(&self) -> bool {
        self.received@.len() <= self.capacity
    }

    /// Text that would overflow the capacity is refused.
    closed spec fn infallible(&self) -> bool {
        false
    }

    closed spec fn sunk(&self) -> Seq<char> {
        self.received@
    }

    /// Succeeds exactly when the text still fits the capacity; the
    /// capacity itself never changes.
    fn write_str(&mut self, text: &str) -> (result: Result<(), SinkError>)
        ensures
            result is Ok <==> old(self).sunk().len() + text@.len() <= old(self).capacity(),
            final(self).capacity() == old(self).capacity(),
    {
        let len = text.unicode_len();
        if len > self.capacity - self.received.len() {
            return Err(SinkError);
        }
        let mut i: usize = 0;
        while i < len
            invariant
                i <= len,
                len == text@.len(),
                old(self).received@.len() + len <= self.capacity,
                self.capacity == old(self).capacity,
                self.received@ == old(self).received@ + text@.subrange(0, i as int),
            decreases len - i,
        {
            self.received.push(text.get_char(i));
            proof {
                assert(text@.subrange(0, i + 1) =~= text@.subrange(0, i as int).push(text@[i as int]));
            }
            i = i + 1;
        }
        proof {
            assert(text@.subrange(0, len as int) =~= text@);
        }
        Ok(())
    }
}

} // verus!

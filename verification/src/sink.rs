//! Byte sinks: where the records of an event file go.

use vstd::prelude::*;
use vstd::slice::slice_subrange;

verus! {

/// Whether a sink of the given capacity that holds `held` bytes is sure to
/// accept `count` more.
pub open spec fn fits(capacity: Option<nat>, held: nat, count: nat) -> bool {
    match capacity {
        Some(capacity) => held + count <= capacity,
        None => true,
    }
}

/// An append-only destination for bytes.
///
/// A sink is modelled by the sequence of bytes it has accepted so far. A
/// failed write leaves a proper prefix of the offered bytes behind, possibly
/// an empty one, and never anything else. A sink may hold accepted bytes
/// back in a buffer of its own until it is flushed.
pub trait Sink {
    /// What a failed operation reports.
    type Error;

    /// Every byte the sink has accepted, oldest first.
    spec fn accepted(&self) -> Seq<u8>;

    /// The number of bytes up to which the sink is sure to accept what it is
    /// offered, or `None` if it is sure to accept everything. A sink that
    /// may fail at any time has a capacity of zero.
    spec fn capacity(&self) -> Option<nat>;

    /// How many of the accepted bytes the sink still holds back, short of
    /// their destination.
    spec fn pending(&self) -> nat;

    /// Appends all of `bytes`, or fails having appended less than all of
    /// them: a proper prefix. No more bytes are newly held back than were
    /// newly accepted.
    fn write_all(&mut self, bytes: &[u8]) -> (outcome: Result<(), Self::Error>)
        ensures
            final(self).capacity() == old(self).capacity(),
            final(self).pending() - old(self).pending() <= final(self).accepted().len() - old(
                self,
            ).accepted().len(),
            fits(old(self).capacity(), old(self).accepted().len(), bytes@.len()) ==> outcome is Ok,
            outcome is Ok ==> final(self).accepted() == old(self).accepted() + bytes@,
            outcome is Err ==> exists|n: int|
                0 <= n < bytes@.len() && final(self).accepted() == old(self).accepted()
                    + #[trigger] bytes@.take(n),
    ;

    /// Pushes the bytes held back to their destination. On success none is
    /// held back any longer; on failure no more than before. What has been
    /// accepted does not change.
    fn flush(&mut self) -> (outcome: Result<(), Self::Error>)
        ensures
            final(self).capacity() == old(self).capacity(),
            final(self).accepted() == old(self).accepted(),
            final(self).pending() <= old(self).pending(),
            outcome is Ok ==> final(self).pending() == 0,
            fits(old(self).capacity(), old(self).accepted().len(), 0) ==> outcome is Ok,
    ;
}

/// Whether `sink` is sure to accept `count` more bytes.
pub open spec fn has_room<W: Sink + ?Sized>(sink: &W, count: nat) -> bool {
    fits(sink.capacity(), sink.accepted().len(), count)
}

/// An in-memory sink. It accepts everything and never fails.
impl Sink for Vec<u8> {
    type Error = core::convert::Infallible;

    open spec fn accepted(&self) -> Seq<u8> {
        self@
    }

    open spec fn capacity(&self) -> Option<nat> {
        None
    }

    open spec fn pending(&self) -> nat {
        0
    }

    fn write_all(&mut self, bytes: &[u8]) -> (outcome: Result<(), Self::Error>) {
        self.extend_from_slice(bytes);
        Ok(())
    }

    fn flush(&mut self) -> (outcome: Result<(), Self::Error>) {
        Ok(())
    }
}

/// The error of a [`BoundedBuffer`] that has no room for all the bytes
/// offered to it.
#[derive(Clone, Copy, Debug, PartialEq, Eq)]
pub struct BufferFull;

/// An in-memory sink with a limit on what it holds. A write that does not
/// fit fills the buffer up to its limit and fails.
pub struct BoundedBuffer {
    bytes: Vec<u8>,
    limit: usize,
}

impl BoundedBuffer {
    /// How many more bytes fit into the buffer.
    pub open spec fn room(&self) -> nat {
        match self.capacity() {
            Some(capacity) if self.accepted().len() <= capacity => (capacity
                - self.accepted().len()) as nat,
            _ => 0,
        }
    }

    /// Creates an empty buffer that holds at most `limit` bytes.
    pub fn with_limit(limit: usize) -> (buffer: Self)
        ensures
            buffer.accepted().len() == 0,
            buffer.capacity() == Some(limit as nat),
    {
        BoundedBuffer { bytes: Vec::new(), limit }
    }

    /// The bytes accepted so far.
    pub fn as_slice(&self) -> (bytes: &[u8])
        ensures
            bytes@ == self.accepted(),
    {
        self.bytes.as_slice()
    }
}

impl Sink for BoundedBuffer {
    type Error = BufferFull;

    closed spec fn accepted(&self) -> Seq<u8> {
        self.bytes@
    }

    closed spec fn capacity(&self) -> Option<nat> {
        if self.bytes@.len() <= self.limit {
            Some(self.limit as nat)
        } else {
            Some(self.bytes@.len())
        }
    }

    open spec fn pending(&self) -> nat {
        0
    }

    fn write_all(&mut self, bytes: &[u8]) -> (outcome: Result<(), Self::Error>)
        ensures
            outcome is Ok <==> fits(
                old(self).capacity(),
                old(self).accepted().len(),
                bytes@.len(),
            ),
            outcome is Err ==> final(self).accepted() == old(self).accepted() + bytes@.take(
                old(self).room() as int,
            ),
    {
        let held = self.bytes.len();
        let room = if held <= self.limit {
            self.limit - held
        } else {
            0
        };
        if bytes.len() <= room {
            self.bytes.extend_from_slice(bytes);
            Ok(())
        } else {
            self.bytes.extend_from_slice(slice_subrange(bytes, 0, room));
            proof {
                assert(bytes@.subrange(0, room as int) =~= bytes@.take(room as int));
                assert(self.bytes@ =~= old(self).bytes@ + bytes@.take(room as int));
            }
            Err(BufferFull)
        }
    }

    fn flush(&mut self) -> (outcome: Result<(), Self::Error>)
        ensures
            outcome is Ok,
    {
        Ok(())
    }
}

} // verus!

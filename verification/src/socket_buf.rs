//! Shared-buffer collaborators of the socket bridge.
//!
//! `SocketBuff` models the bounded, shared ring buffer that sits between a
//! host descriptor and the guest: a read ring the host fills and the guest
//! drains, a write ring the guest fills and the host drains, plus half-close
//! and error latches. `AcceptQueue` models the bounded queue of pending
//! accepted connections. The bridge pumps only ever touch these through the
//! operations below, and only the byte counts and cursor positions matter to
//! them: the bytes themselves are opaque to the bridge.

use vstd::prelude::*;

verus! {

/// A bounded ring with two cursors, reduced to what the bridge reads of it:
/// how many bytes are pending between producer and consumer, and where the
/// producing end stands within the ring (which bounds the next contiguous
/// chunk).
///
/// For the read direction the host produces (`readPending` grows on a host
/// read) and the guest consumes; for the write direction the guest produces
/// and the host consumes (`writePending` shrinks on a host write).
pub struct SocketBuff {
    /// Capacity of the read ring.
    pub readCapacity: usize,
    /// Bytes received from the host, not yet drained by the guest.
    pub readPending: usize,
    /// Position of the produce cursor within the read ring.
    pub readOffset: usize,
    /// Capacity of the write ring.
    pub writeCapacity: usize,
    /// Bytes staged by the guest, not yet written to the host.
    pub writePending: usize,
    /// Position of the consume cursor within the write ring.
    pub writeOffset: usize,
    /// The host peer closed the read direction.
    pub rClosed: bool,
    /// The host peer closed the write direction.
    pub wClosed: bool,
    /// The guest asked to shut the write direction down once drained.
    pub pendingWShutdown: bool,
    /// Latched host error code; zero means none.
    pub error: i32,
}

impl SocketBuff {
    /// Cursor positions stay inside their rings and pending counts within
    /// capacity.
    pub open spec fn wf(&self) -> bool {
        &&& self.readPending <= self.readCapacity
        &&& (if self.readCapacity > 0 {
            self.readOffset < self.readCapacity
        } else {
            self.readOffset == 0
        })
        &&& self.writePending <= self.writeCapacity
        &&& (if self.writeCapacity > 0 {
            self.writeOffset < self.writeCapacity
        } else {
            self.writeOffset == 0
        })
    }

    /// Free space in the read ring.
    pub open spec fn spec_free_read(&self) -> int {
        self.readCapacity - self.readPending
    }

    /// The next contiguous free chunk the host may read into: bounded both by
    /// the free space and by the distance from the produce cursor to the end
    /// of the ring.
    pub open spec fn spec_read_chunk(&self) -> int {
        let wrap = self.readCapacity - self.readOffset;
        if self.spec_free_read() < wrap {
            self.spec_free_read()
        } else {
            wrap
        }
    }

    /// The next contiguous chunk of staged bytes the host may write out:
    /// bounded both by the pending count and by the distance from the consume
    /// cursor to the end of the ring.
    pub open spec fn spec_write_chunk(&self) -> int {
        let wrap = self.writeCapacity - self.writeOffset;
        if self.writePending < wrap {
            self.writePending as int
        } else {
            wrap
        }
    }

    /// The buffer after the host produced `n` bytes into the read ring.
    pub open spec fn spec_produce(&self, n: int) -> SocketBuff {
        SocketBuff {
            readPending: (self.readPending + n) as usize,
            readOffset: (if self.readOffset + n == self.readCapacity {
                0
            } else {
                (self.readOffset + n) as usize
            }),
            ..*self
        }
    }

    /// The buffer after the host drained `n` bytes from the write ring.
    pub open spec fn spec_consume(&self, n: int) -> SocketBuff {
        SocketBuff {
            writePending: (self.writePending - n) as usize,
            writeOffset: (if self.writeOffset + n == self.writeCapacity {
                0
            } else {
                (self.writeOffset + n) as usize
            }),
            ..*self
        }
    }

    /// A fresh, empty buffer with the given ring capacities.
    pub fn New(readCapacity: usize, writeCapacity: usize) -> (r: Self)
        ensures
            r.wf(),
            r == (SocketBuff {
                readCapacity,
                readPending: 0,
                readOffset: 0,
                writeCapacity,
                writePending: 0,
                writeOffset: 0,
                rClosed: false,
                wClosed: false,
                pendingWShutdown: false,
                error: 0,
            }),
    {
        SocketBuff {
            readCapacity,
            readPending: 0,
            readOffset: 0,
            writeCapacity,
            writePending: 0,
            writeOffset: 0,
            rClosed: false,
            wClosed: false,
            pendingWShutdown: false,
            error: 0,
        }
    }

    /// The latched error code, zero when none was latched.
    pub fn Error(&self) -> (r: i32)
        ensures
            r == self.error,
    {
        self.error
    }

    /// Latches a host error code on the buffer.
    pub fn SetErr(&mut self, error: i32)
        ensures
            *final(self) == (SocketBuff { error, ..*old(self) }),
    {
        self.error = error;
    }

    /// Latches the read-side half-close.
    pub fn SetRClosed(&mut self)
        ensures
            *final(self) == (SocketBuff { rClosed: true, ..*old(self) }),
    {
        self.rClosed = true;
    }

    /// Latches the write-side half-close.
    pub fn SetWClosed(&mut self)
        ensures
            *final(self) == (SocketBuff { wClosed: true, ..*old(self) }),
    {
        self.wClosed = true;
    }

    /// Whether received bytes remain that the guest has not drained yet.
    pub fn HasReadData(&self) -> (r: bool)
        ensures
            r == (self.readPending > 0),
    {
        self.readPending > 0
    }

    /// Whether staged bytes remain that were not written to the host yet.
    pub fn HasWriteData(&self) -> (r: bool)
        ensures
            r == (self.writePending > 0),
    {
        self.writePending > 0
    }

    /// Whether a deferred write-side shutdown was requested.
    pub fn PendingWriteShutdown(&self) -> (r: bool)
        ensures
            r == self.pendingWShutdown,
    {
        self.pendingWShutdown
    }

    /// Requests a write-side shutdown to take effect once all staged bytes
    /// have been flushed.
    pub fn SetPendingWriteShutdown(&mut self)
        ensures
            *final(self) == (SocketBuff { pendingWShutdown: true, ..*old(self) }),
    {
        self.pendingWShutdown = true;
    }

    /// The size of the next contiguous free chunk of the read ring; zero means
    /// there is no space to read into.
    pub fn GetFreeReadBuf(&self) -> (r: usize)
        requires
            self.wf(),
        ensures
            r == self.spec_read_chunk(),
    {
        let free = self.readCapacity - self.readPending;
        let wrap = self.readCapacity - self.readOffset;
        if free < wrap {
            free
        } else {
            wrap
        }
    }

    /// Advances the produce cursor of the read ring by the `n` bytes the host
    /// just delivered, and returns whether a waiting consumer should be told
    /// (the ring went from empty to non-empty) together with the next free
    /// chunk.
    pub fn ProduceAndGetFreeReadBuf(&mut self, n: usize) -> (r: (bool, usize))
        requires
            old(self).wf(),
            n <= old(self).spec_read_chunk(),
        ensures
            final(self).wf(),
            *final(self) == old(self).spec_produce(n as int),
            r.0 == (old(self).readPending == 0 && n > 0),
            r.1 == final(self).spec_read_chunk(),
    {
        let trigger = self.readPending == 0 && n > 0;
        self.readPending = self.readPending + n;
        self.readOffset = if self.readOffset + n == self.readCapacity {
            0
        } else {
            self.readOffset + n
        };
        (trigger, self.GetFreeReadBuf())
    }

    /// The size of the next contiguous chunk of staged bytes awaiting
    /// transmission; zero means there is nothing to send.
    pub fn GetAvailableWriteBuf(&self) -> (r: usize)
        requires
            self.wf(),
        ensures
            r == self.spec_write_chunk(),
    {
        let wrap = self.writeCapacity - self.writeOffset;
        if self.writePending < wrap {
            self.writePending
        } else {
            wrap
        }
    }

    /// Advances the consume cursor of the write ring by the `n` bytes the host
    /// just accepted, and returns whether a waiting producer should be told
    /// (the ring went from full to non-full) together with the next available
    /// chunk.
    pub fn ConsumeAndGetAvailableWriteBuf(&mut self, n: usize) -> (r: (bool, usize))
        requires
            old(self).wf(),
            n <= old(self).spec_write_chunk(),
        ensures
            final(self).wf(),
            *final(self) == old(self).spec_consume(n as int),
            r.0 == (old(self).writePending == old(self).writeCapacity && n > 0),
            r.1 == final(self).spec_write_chunk(),
    {
        let trigger = self.writePending == self.writeCapacity && n > 0;
        self.writePending = self.writePending - n;
        self.writeOffset = if self.writeOffset + n == self.writeCapacity {
            0
        } else {
            self.writeOffset + n
        };
        (trigger, self.GetAvailableWriteBuf())
    }

    /// Stages `n` more bytes for transmission, as the guest-side producer
    /// does; the bridge itself only ever drains this ring.
    pub fn ProduceWriteBuf(&mut self, n: usize)
        requires
            old(self).wf(),
            n <= old(self).writeCapacity - old(self).writePending,
        ensures
            final(self).wf(),
            *final(self) == (SocketBuff {
                writePending: (old(self).writePending + n) as usize,
                ..*old(self)
            }),
    {
        self.writePending = self.writePending + n;
    }

    /// Drains `n` received bytes, as the guest-side consumer does; the bridge
    /// itself only ever fills this ring.
    pub fn ConsumeReadBuf(&mut self, n: usize)
        requires
            old(self).wf(),
            n <= old(self).readPending,
        ensures
            final(self).wf(),
            *final(self) == (SocketBuff {
                readPending: (old(self).readPending - n) as usize,
                ..*old(self)
            }),
    {
        self.readPending = self.readPending - n;
    }
}

/// One accepted connection waiting for the guest: the new host descriptor and
/// the peer address bytes the host reported.
pub struct AcceptItem {
    pub fd: i32,
    pub addr: Vec<u8>,
}

/// A bounded queue of pending accepted connections, with an error latch. The
/// listening bridge is its sole producer; the guest drains it.
pub struct AcceptQueue {
    pub capacity: usize,
    pub queue: Vec<AcceptItem>,
    pub error: i32,
}

impl AcceptQueue {
    /// The queue never holds more than its capacity.
    pub open spec fn wf(&self) -> bool {
        self.queue@.len() <= self.capacity
    }

    /// A fresh, empty queue with the given capacity.
    pub fn New(capacity: usize) -> (r: Self)
        ensures
            r.wf(),
            r.capacity == capacity,
            r.queue@.len() == 0,
            r.error == 0,
    {
        AcceptQueue { capacity, queue: Vec::new(), error: 0 }
    }

    /// The latched error code, zero when none was latched.
    pub fn Error(&self) -> (r: i32)
        ensures
            r == self.error,
    {
        self.error
    }

    /// Latches a host error code on the queue.
    pub fn SetErr(&mut self, error: i32)
        ensures
            *final(self) == (AcceptQueue { error, ..*old(self) }),
    {
        self.error = error;
    }

    /// Whether the queue can take another connection.
    pub fn HasSpace(&self) -> (r: bool)
        ensures
            r == (self.queue@.len() < self.capacity),
    {
        self.queue.len() < self.capacity
    }

    /// How many accepted connections are waiting.
    pub fn Len(&self) -> (r: usize)
        ensures
            r == self.queue@.len(),
    {
        self.queue.len()
    }

    /// Enqueues a freshly accepted connection. Returns whether a waiting
    /// consumer should be told (the queue went from empty to non-empty) and
    /// whether space remains for another.
    pub fn EnqSocket(&mut self, fd: i32, addr: Vec<u8>) -> (r: (bool, bool))
        requires
            old(self).wf(),
            old(self).queue@.len() < old(self).capacity,
        ensures
            final(self).wf(),
            final(self).queue@ == old(self).queue@.push(AcceptItem { fd, addr }),
            final(self).capacity == old(self).capacity,
            final(self).error == old(self).error,
            r.0 == (old(self).queue@.len() == 0),
            r.1 == (final(self).queue@.len() < final(self).capacity),
    {
        let trigger = self.queue.len() == 0;
        self.queue.push(AcceptItem { fd, addr });
        let has_space = self.queue.len() < self.capacity;
        (trigger, has_space)
    }
}

} // verus!

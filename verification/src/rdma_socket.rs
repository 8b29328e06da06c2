//! Per-descriptor socket bridges.
//!
//! A listening bridge (`RDMAServerSock`) drains completed host accepts into a
//! bounded `AcceptQueue`; a data bridge (`RDMADataSock`) pumps bytes in both
//! directions between a host descriptor and a shared `SocketBuff`. Both react
//! to edge-triggered readiness notifications and drain until the host has no
//! more immediate work, the shared structure runs out of capacity, the peer
//! closes, or an error is latched.
//!
//! The pumps themselves never touch a descriptor: the raw non-blocking host
//! calls are performed by the surrounding runtime, which feeds each call's
//! outcome in as a `HostIoResult` (or `HostAcceptResult`) and carries the
//! guest-visible signals of the returned `PumpOutcome` to the readiness
//! notifier. A pump stops either on a stop condition of its own (`more` is
//! false) or because it ran out of supplied outcomes while still willing to
//! issue another host call (`more` is true).

use vstd::prelude::*;

use crate::socket_buf::{AcceptItem, AcceptQueue, SocketBuff};

verus! {

/// Guest-visible readiness: data is available to read.
pub const EVENT_IN: u64 = 0x1;

/// Guest-visible readiness: space is available to write.
pub const EVENT_OUT: u64 = 0x4;

/// Guest-visible readiness: an error was latched.
pub const EVENT_ERR: u64 = 0x8;

/// Guest-visible readiness: the peer hung up.
pub const EVENT_HUP: u64 = 0x10;

/// Guest-visible readiness: a deferred write-side shutdown has completed.
pub const EVENT_PENDING_SHUTDOWN: u64 = 0x2000;

/// Notification mask bit that triggers the read pump.
pub const EVENT_READ: u64 = 0x1;

/// Notification mask bit that triggers the write pump.
pub const EVENT_WRITE: u64 = 0x4;

/// The host error code that means "no more immediate work", a normal stop
/// condition rather than an error.
pub const EAGAIN: i32 = 11;

/// The outcome of one non-blocking host read or write call.
#[derive(Clone, Copy, PartialEq, Eq, Structural, Debug)]
pub enum HostIoResult {
    /// The call returned zero bytes: the peer closed this direction.
    Closed,
    /// The call failed with the given host error code.
    Failed(i32),
    /// The call transferred this many bytes.
    Done(usize),
}

/// The outcome of one non-blocking host accept call, after the surrounding
/// runtime has registered the new descriptor and allocated its buffer.
pub enum HostAcceptResult {
    /// The accept failed with the given host error code.
    Failed(i32),
    /// A connection was accepted on a new descriptor, with the peer address
    /// bytes the host reported.
    Accepted(i32, Vec<u8>),
}

/// What one pump invocation did: the guest-visible signals to deliver, in
/// order; how many supplied host outcomes it consumed; and whether it stopped
/// only because the outcomes ran out.
pub struct PumpOutcome {
    pub signals: Vec<u64>,
    pub used: usize,
    pub more: bool,
}

/// The mathematical result of a data pump: the buffer afterwards, the signals
/// emitted, the outcomes consumed, and whether another host call was wanted.
pub struct PumpRun {
    pub buf: SocketBuff,
    pub signals: Seq<u64>,
    pub used: int,
    pub more: bool,
}

/// The mathematical result of an accept pump: the queue contents and error
/// latch afterwards, the signals emitted, the outcomes consumed, and whether
/// another host accept was wanted.
pub struct AcceptRun {
    pub items: Seq<AcceptItem>,
    pub error: i32,
    pub signals: Seq<u64>,
    pub used: int,
    pub more: bool,
}

/// One step-by-step run of the read pump loop, starting with a non-empty free
/// chunk. `None` marks an impossible host outcome: a read that claims more
/// bytes than the chunk that was requested.
pub open spec fn read_pump(b: SocketBuff, rs: Seq<HostIoResult>) -> Option<PumpRun>
    decreases rs.len(),
{
    if rs.len() == 0 {
        Some(PumpRun { buf: b, signals: Seq::empty(), used: 0, more: true })
    } else {
        let count = b.spec_read_chunk();
        match rs[0] {
            HostIoResult::Closed => Some(
                PumpRun {
                    buf: (SocketBuff { rClosed: true, ..b }),
                    signals: (if b.readPending > 0 {
                        seq![EVENT_IN]
                    } else {
                        seq![EVENT_HUP]
                    }),
                    used: 1,
                    more: false,
                },
            ),
            HostIoResult::Failed(e) => (if e == EAGAIN {
                Some(PumpRun { buf: b, signals: Seq::empty(), used: 1, more: false })
            } else {
                Some(
                    PumpRun {
                        buf: (SocketBuff { error: e, ..b }),
                        signals: seq![EVENT_ERR | EVENT_IN],
                        used: 1,
                        more: false,
                    },
                )
            }),
            HostIoResult::Done(n) => (if n > count {
                None
            } else {
                let trigger = b.readPending == 0 && n > 0;
                let b2 = b.spec_produce(n as int);
                let sigs: Seq<u64> = if trigger {
                    seq![EVENT_IN]
                } else {
                    Seq::empty()
                };
                if (n as int) < count || b2.spec_read_chunk() == 0 {
                    Some(PumpRun { buf: b2, signals: sigs, used: 1, more: false })
                } else {
                    match read_pump(b2, rs.drop_first()) {
                        Option::None => None,
                        Option::Some(r) => Some(
                            PumpRun {
                                buf: r.buf,
                                signals: sigs + r.signals,
                                used: 1 + r.used,
                                more: r.more,
                            },
                        ),
                    }
                }
            }),
        }
    }
}

/// What a whole read pump invocation does: nothing at all when the buffer has
/// no free chunk, otherwise the loop above.
pub open spec fn read_spec(b: SocketBuff, rs: Seq<HostIoResult>) -> Option<PumpRun> {
    if b.spec_read_chunk() == 0 {
        Some(PumpRun { buf: b, signals: Seq::empty(), used: 0, more: false })
    } else {
        read_pump(b, rs)
    }
}

/// One step-by-step run of the write pump loop, starting with a non-empty
/// staged chunk. `None` marks an impossible host outcome: a write that claims
/// more bytes than the chunk that was offered.
pub open spec fn write_pump(b: SocketBuff, rs: Seq<HostIoResult>) -> Option<PumpRun>
    decreases rs.len(),
{
    if rs.len() == 0 {
        Some(PumpRun { buf: b, signals: Seq::empty(), used: 0, more: true })
    } else {
        let count = b.spec_write_chunk();
        match rs[0] {
            HostIoResult::Closed => Some(
                PumpRun {
                    buf: (SocketBuff { wClosed: true, ..b }),
                    signals: (if b.writePending > 0 {
                        seq![EVENT_OUT]
                    } else {
                        seq![EVENT_HUP]
                    }),
                    used: 1,
                    more: false,
                },
            ),
            HostIoResult::Failed(e) => (if e == EAGAIN {
                Some(PumpRun { buf: b, signals: Seq::empty(), used: 1, more: false })
            } else {
                Some(
                    PumpRun {
                        buf: (SocketBuff { error: e, ..b }),
                        signals: seq![EVENT_ERR | EVENT_IN],
                        used: 1,
                        more: false,
                    },
                )
            }),
            HostIoResult::Done(n) => (if n > count {
                None
            } else {
                let trigger = b.writePending == b.writeCapacity && n > 0;
                let b2 = b.spec_consume(n as int);
                let sigs: Seq<u64> = if trigger {
                    seq![EVENT_OUT]
                } else {
                    Seq::empty()
                };
                if (n as int) < count {
                    Some(PumpRun { buf: b2, signals: sigs, used: 1, more: false })
                } else if b2.spec_write_chunk() == 0 {
                    let sigs2: Seq<u64> = if b2.pendingWShutdown {
                        sigs + seq![EVENT_PENDING_SHUTDOWN]
                    } else {
                        sigs
                    };
                    Some(PumpRun { buf: b2, signals: sigs2, used: 1, more: false })
                } else {
                    match write_pump(b2, rs.drop_first()) {
                        Option::None => None,
                        Option::Some(r) => Some(
                            PumpRun {
                                buf: r.buf,
                                signals: sigs + r.signals,
                                used: 1 + r.used,
                                more: r.more,
                            },
                        ),
                    }
                }
            }),
        }
    }
}

/// What a whole write pump invocation does: nothing at all when no bytes are
/// staged for sending, otherwise the loop above.
pub open spec fn write_spec(b: SocketBuff, rs: Seq<HostIoResult>) -> Option<PumpRun> {
    if b.spec_write_chunk() == 0 {
        Some(PumpRun { buf: b, signals: Seq::empty(), used: 0, more: false })
    } else {
        write_pump(b, rs)
    }
}

/// One step-by-step run of the accept pump loop over the queue state, which
/// runs while the queue has space and stops on backpressure, exhaustion or a
/// host error.
pub open spec fn accept_pump(
    capacity: int,
    error: i32,
    items: Seq<AcceptItem>,
    rs: Seq<HostAcceptResult>,
) -> AcceptRun
    decreases rs.len(),
{
    if items.len() >= capacity {
        AcceptRun { items, error, signals: Seq::empty(), used: 0, more: false }
    } else if rs.len() == 0 {
        AcceptRun { items, error, signals: Seq::empty(), used: 0, more: true }
    } else {
        match rs[0] {
            HostAcceptResult::Failed(e) => (if e == EAGAIN {
                AcceptRun { items, error, signals: Seq::empty(), used: 1, more: false }
            } else {
                AcceptRun { items, error: e, signals: seq![EVENT_ERR | EVENT_IN], used: 1, more: false }
            }),
            HostAcceptResult::Accepted(fd, addr) => {
                let trigger = items.len() == 0;
                let sigs: Seq<u64> = if trigger {
                    seq![EVENT_IN]
                } else {
                    Seq::empty()
                };
                let r = accept_pump(capacity, error, items.push(AcceptItem { fd, addr }), rs.drop_first());
                AcceptRun {
                    items: r.items,
                    error: r.error,
                    signals: sigs + r.signals,
                    used: 1 + r.used,
                    more: r.more,
                }
            },
        }
    }
}

/// What a whole accept pump invocation does: a latched queue error
/// short-circuits to a single error-and-readable signal with no host work,
/// otherwise the loop above.
pub open spec fn accept_spec(q: AcceptQueue, rs: Seq<HostAcceptResult>) -> AcceptRun {
    if q.error != 0 {
        AcceptRun {
            items: q.queue@,
            error: q.error,
            signals: seq![EVENT_ERR | EVENT_IN],
            used: 0,
            more: false,
        }
    } else {
        accept_pump(q.capacity as int, q.error, q.queue@, rs)
    }
}

/// What a data-bridge notification does: a latched buffer error
/// short-circuits to a single error-and-readable signal with no host work;
/// otherwise the read-ready bit drives the read pump, else the write-ready
/// bit drives the write pump, else nothing happens.
pub open spec fn notify_spec(b: SocketBuff, eventmask: u64, rs: Seq<HostIoResult>) -> Option<
    PumpRun,
> {
    if b.error != 0 {
        Some(PumpRun { buf: b, signals: seq![EVENT_ERR | EVENT_IN], used: 0, more: false })
    } else if eventmask & EVENT_READ != 0 {
        read_spec(b, rs)
    } else if eventmask & EVENT_WRITE != 0 {
        write_spec(b, rs)
    } else {
        Some(PumpRun { buf: b, signals: Seq::empty(), used: 0, more: false })
    }
}

/// The listening bridge: one host descriptor draining completed accepts into
/// a bounded queue.
pub struct RDMAServerSock {
    pub fd: i32,
    pub acceptQueue: AcceptQueue,
}

impl RDMAServerSock {
    /// A listening bridge over the given descriptor and accept queue.
    pub fn New(fd: i32, acceptQueue: AcceptQueue) -> (r: Self)
        ensures
            r.fd == fd,
            r.acceptQueue == acceptQueue,
    {
        RDMAServerSock { fd, acceptQueue }
    }

    /// Reacts to a readiness notification; every notification of a listening
    /// descriptor means new connections may be waiting, whatever its mask.
    pub fn Notify(&mut self, _eventmask: u64, rs: Vec<HostAcceptResult>) -> (r: PumpOutcome)
        requires
            old(self).acceptQueue.wf(),
        ensures
            final(self).fd == old(self).fd,
            final(self).acceptQueue.wf(),
            final(self).acceptQueue.capacity == old(self).acceptQueue.capacity,
            ({
                let run = accept_spec(old(self).acceptQueue, rs@);
                &&& final(self).acceptQueue.queue@ == run.items
                &&& final(self).acceptQueue.error == run.error
                &&& r.signals@ == run.signals
                &&& r.used as int == run.used
                &&& r.more == run.more
            }),
    {
        self.Accept(rs)
    }

    /// Drains completed host accepts into the queue, one supplied outcome per
    /// attempted accept, until the queue fills, the host runs dry, or an
    /// error is latched. A queue with an already-latched error short-circuits
    /// to a single error-and-readable signal and consumes nothing.
    pub fn Accept(&mut self, rs: Vec<HostAcceptResult>) -> (r: PumpOutcome)
        requires
            old(self).acceptQueue.wf(),
        ensures
            final(self).fd == old(self).fd,
            final(self).acceptQueue.wf(),
            final(self).acceptQueue.capacity == old(self).acceptQueue.capacity,
            ({
                let run = accept_spec(old(self).acceptQueue, rs@);
                &&& final(self).acceptQueue.queue@ == run.items
                &&& final(self).acceptQueue.error == run.error
                &&& r.signals@ == run.signals
                &&& r.used as int == run.used
                &&& r.more == run.more
            }),
    {
        let mut signals: Vec<u64> = Vec::new();
        if self.acceptQueue.Error() != 0 {
            signals.push(EVENT_ERR | EVENT_IN);
            proof {
                assert(signals@ =~= seq![EVENT_ERR | EVENT_IN]);
            }
            return PumpOutcome { signals, used: 0, more: false };
        }
        let (used, more) = accept_go(&mut self.acceptQueue, rs, &mut signals);
        proof {
            assert(signals@ =~= Seq::<u64>::empty() + signals@);
        }
        PumpOutcome { signals, used, more }
    }
}

/// The body of the accept loop: one recursive step per supplied host outcome.
fn accept_go(q: &mut AcceptQueue, rs: Vec<HostAcceptResult>, signals: &mut Vec<u64>) -> (r: (
    usize,
    bool,
))
    requires
        old(q).wf(),
        old(q).error == 0,
    ensures
        final(q).wf(),
        final(q).capacity == old(q).capacity,
        ({
            let run = accept_pump(old(q).capacity as int, old(q).error, old(q).queue@, rs@);
            &&& final(q).queue@ == run.items
            &&& final(q).error == run.error
            &&& final(signals)@ == old(signals)@ + run.signals
            &&& r.0 as int == run.used
            &&& r.1 == run.more
        }),
        r.0 <= rs@.len(),
    decreases rs@.len(),
{
    let ghost rs0 = rs@;
    if !q.HasSpace() {
        proof {
            assert(final(signals)@ =~= old(signals)@ + Seq::<u64>::empty());
        }
        return (0, false);
    }
    if rs.len() == 0 {
        proof {
            assert(final(signals)@ =~= old(signals)@ + Seq::<u64>::empty());
        }
        return (0, true);
    }
    let mut rest = rs;
    let first = rest.remove(0);
    proof {
        assert(rest@ =~= rs0.drop_first());
    }
    match first {
        HostAcceptResult::Failed(e) => {
            if e == EAGAIN {
                proof {
                    assert(final(signals)@ =~= old(signals)@ + Seq::<u64>::empty());
                }
                (1, false)
            } else {
                q.SetErr(e);
                signals.push(EVENT_ERR | EVENT_IN);
                proof {
                    assert(final(signals)@ =~= old(signals)@ + seq![EVENT_ERR | EVENT_IN]);
                }
                (1, false)
            }
        },
        HostAcceptResult::Accepted(fd, addr) => {
            let ghost mid = old(signals)@;
            let (trigger, _has_space) = q.EnqSocket(fd, addr);
            let ghost sigs: Seq<u64> = if trigger {
                seq![EVENT_IN]
            } else {
                Seq::empty()
            };
            if trigger {
                signals.push(EVENT_IN);
            }
            proof {
                assert(signals@ =~= mid + sigs);
            }
            let (u, m) = accept_go(q, rest, signals);
            proof {
                let run_inner = accept_pump(old(q).capacity as int, 0, old(q).queue@.push(
                    AcceptItem { fd, addr },
                ), rs0.drop_first());
                assert(final(signals)@ =~= mid + (sigs + run_inner.signals));
            }
            (u + 1, m)
        },
    }
}

/// The data bridge: one host descriptor pumping bytes in both directions
/// between the host and a shared socket buffer.
pub struct RDMADataSock {
    pub fd: i32,
    pub socketBuf: SocketBuff,
}

impl RDMADataSock {
    /// A data bridge over the given descriptor and shared buffer.
    pub fn New(fd: i32, socketBuf: SocketBuff) -> (r: Self)
        ensures
            r.fd == fd,
            r.socketBuf == socketBuf,
    {
        RDMADataSock { fd, socketBuf }
    }

    /// The read pump: fills the buffer's free read chunks from the host, one
    /// supplied outcome per host read, until the host runs dry, a partial
    /// read shows the host is momentarily out of data, the buffer fills, the
    /// peer closes, or an error is latched. With no free space at entry it
    /// does nothing at all.
    pub fn Read(&mut self, rs: &Vec<HostIoResult>) -> (r: PumpOutcome)
        requires
            old(self).socketBuf.wf(),
            read_spec(old(self).socketBuf, rs@) is Some,
        ensures
            final(self).fd == old(self).fd,
            final(self).socketBuf.wf(),
            ({
                let run = read_spec(old(self).socketBuf, rs@)->Some_0;
                &&& final(self).socketBuf == run.buf
                &&& r.signals@ == run.signals
                &&& r.used as int == run.used
                &&& r.more == run.more
            }),
    {
        let mut signals: Vec<u64> = Vec::new();
        let count = self.socketBuf.GetFreeReadBuf();
        if count == 0 {
            return PumpOutcome { signals, used: 0, more: false };
        }
        proof {
            assert(rs@.skip(0) =~= rs@);
        }
        let (used, more) = read_go(&mut self.socketBuf, count, rs, 0, &mut signals);
        proof {
            assert(signals@ =~= Seq::<u64>::empty() + signals@);
        }
        PumpOutcome { signals, used, more }
    }

    /// The write pump: drains the buffer's staged chunks to the host, one
    /// supplied outcome per host write, until everything staged is flushed, a
    /// partial write shows the host is momentarily full, the peer closes, or
    /// an error is latched. With nothing staged at entry it does nothing at
    /// all.
    pub fn Write(&mut self, rs: &Vec<HostIoResult>) -> (r: PumpOutcome)
        requires
            old(self).socketBuf.wf(),
            write_spec(old(self).socketBuf, rs@) is Some,
        ensures
            final(self).fd == old(self).fd,
            final(self).socketBuf.wf(),
            ({
                let run = write_spec(old(self).socketBuf, rs@)->Some_0;
                &&& final(self).socketBuf == run.buf
                &&& r.signals@ == run.signals
                &&& r.used as int == run.used
                &&& r.more == run.more
            }),
    {
        let mut signals: Vec<u64> = Vec::new();
        let count = self.socketBuf.GetAvailableWriteBuf();
        if count == 0 {
            return PumpOutcome { signals, used: 0, more: false };
        }
        proof {
            assert(rs@.skip(0) =~= rs@);
        }
        let (used, more) = write_go(&mut self.socketBuf, count, rs, 0, &mut signals);
        proof {
            assert(signals@ =~= Seq::<u64>::empty() + signals@);
        }
        PumpOutcome { signals, used, more }
    }

    /// Reacts to a readiness notification: a buffer with an already-latched
    /// error short-circuits to a single error-and-readable signal and
    /// performs no host I/O; otherwise the read-ready bit drives the read
    /// pump, else the write-ready bit drives the write pump.
    pub fn Notify(&mut self, eventmask: u64, rs: &Vec<HostIoResult>) -> (r: PumpOutcome)
        requires
            old(self).socketBuf.wf(),
            notify_spec(old(self).socketBuf, eventmask, rs@) is Some,
        ensures
            final(self).fd == old(self).fd,
            final(self).socketBuf.wf(),
            ({
                let run = notify_spec(old(self).socketBuf, eventmask, rs@)->Some_0;
                &&& final(self).socketBuf == run.buf
                &&& r.signals@ == run.signals
                &&& r.used as int == run.used
                &&& r.more == run.more
            }),
    {
        if self.socketBuf.Error() != 0 {
            let mut signals: Vec<u64> = Vec::new();
            signals.push(EVENT_ERR | EVENT_IN);
            proof {
                assert(signals@ =~= seq![EVENT_ERR | EVENT_IN]);
            }
            return PumpOutcome { signals, used: 0, more: false };
        }
        if eventmask & EVENT_READ != 0 {
            self.Read(rs)
        } else if eventmask & EVENT_WRITE != 0 {
            self.Write(rs)
        } else {
            PumpOutcome { signals: Vec::new(), used: 0, more: false }
        }
    }
}

/// The body of the read loop: one recursive step per supplied host outcome,
/// starting at index `i` of the script.
fn read_go(
    buf: &mut SocketBuff,
    count: usize,
    rs: &Vec<HostIoResult>,
    i: usize,
    signals: &mut Vec<u64>,
) -> (r: (usize, bool))
    requires
        old(buf).wf(),
        count as int == old(buf).spec_read_chunk(),
        count > 0,
        i <= rs@.len(),
        read_pump(*old(buf), rs@.skip(i as int)) is Some,
    ensures
        final(buf).wf(),
        ({
            let run = read_pump(*old(buf), rs@.skip(i as int))->Some_0;
            &&& *final(buf) == run.buf
            &&& final(signals)@ == old(signals)@ + run.signals
            &&& r.0 as int == run.used
            &&& r.1 == run.more
        }),
        r.0 <= rs@.len() - i,
    decreases rs@.len() - i,
{
    if i == rs.len() {
        proof {
            assert(rs@.skip(i as int) =~= Seq::<HostIoResult>::empty());
            assert(final(signals)@ =~= old(signals)@ + Seq::<u64>::empty());
        }
        return (0, true);
    }
    proof {
        assert(rs@.skip(i as int)[0] == rs@[i as int]);
    }
    let cur = rs[i];
    match cur {
        HostIoResult::Closed => {
            buf.SetRClosed();
            if buf.HasReadData() {
                signals.push(EVENT_IN);
                proof {
                    assert(final(signals)@ =~= old(signals)@ + seq![EVENT_IN]);
                }
            } else {
                signals.push(EVENT_HUP);
                proof {
                    assert(final(signals)@ =~= old(signals)@ + seq![EVENT_HUP]);
                }
            }
            (1, false)
        },
        HostIoResult::Failed(e) => {
            if e == EAGAIN {
                proof {
                    assert(final(signals)@ =~= old(signals)@ + Seq::<u64>::empty());
                }
                (1, false)
            } else {
                buf.SetErr(e);
                signals.push(EVENT_ERR | EVENT_IN);
                proof {
                    assert(final(signals)@ =~= old(signals)@ + seq![EVENT_ERR | EVENT_IN]);
                }
                (1, false)
            }
        },
        HostIoResult::Done(n) => {
            let ghost mid = old(signals)@;
            let (trigger, count_tmp) = buf.ProduceAndGetFreeReadBuf(n);
            let ghost sigs: Seq<u64> = if trigger {
                seq![EVENT_IN]
            } else {
                Seq::empty()
            };
            if trigger {
                signals.push(EVENT_IN);
            }
            proof {
                assert(signals@ =~= mid + sigs);
            }
            if n < count {
                (1, false)
            } else if count_tmp == 0 {
                (1, false)
            } else {
                proof {
                    assert(rs@.skip(i as int).drop_first() =~= rs@.skip(i as int + 1));
                }
                let ghost b2 = *buf;
                let (u, m) = read_go(buf, count_tmp, rs, i + 1, signals);
                proof {
                    let run_inner = read_pump(b2, rs@.skip(i as int + 1))->Some_0;
                    assert(final(signals)@ =~= mid + (sigs + run_inner.signals));
                }
                (u + 1, m)
            }
        },
    }
}

/// The body of the write loop: one recursive step per supplied host outcome,
/// starting at index `i` of the script.
fn write_go(
    buf: &mut SocketBuff,
    count: usize,
    rs: &Vec<HostIoResult>,
    i: usize,
    signals: &mut Vec<u64>,
) -> (r: (usize, bool))
    requires
        old(buf).wf(),
        count as int == old(buf).spec_write_chunk(),
        count > 0,
        i <= rs@.len(),
        write_pump(*old(buf), rs@.skip(i as int)) is Some,
    ensures
        final(buf).wf(),
        ({
            let run = write_pump(*old(buf), rs@.skip(i as int))->Some_0;
            &&& *final(buf) == run.buf
            &&& final(signals)@ == old(signals)@ + run.signals
            &&& r.0 as int == run.used
            &&& r.1 == run.more
        }),
        r.0 <= rs@.len() - i,
    decreases rs@.len() - i,
{
    if i == rs.len() {
        proof {
            assert(rs@.skip(i as int) =~= Seq::<HostIoResult>::empty());
            assert(final(signals)@ =~= old(signals)@ + Seq::<u64>::empty());
        }
        return (0, true);
    }
    proof {
        assert(rs@.skip(i as int)[0] == rs@[i as int]);
    }
    let cur = rs[i];
    match cur {
        HostIoResult::Closed => {
            buf.SetWClosed();
            if buf.HasWriteData() {
                signals.push(EVENT_OUT);
                proof {
                    assert(final(signals)@ =~= old(signals)@ + seq![EVENT_OUT]);
                }
            } else {
                signals.push(EVENT_HUP);
                proof {
                    assert(final(signals)@ =~= old(signals)@ + seq![EVENT_HUP]);
                }
            }
            (1, false)
        },
        HostIoResult::Failed(e) => {
            if e == EAGAIN {
                proof {
                    assert(final(signals)@ =~= old(signals)@ + Seq::<u64>::empty());
                }
                (1, false)
            } else {
                buf.SetErr(e);
                signals.push(EVENT_ERR | EVENT_IN);
                proof {
                    assert(final(signals)@ =~= old(signals)@ + seq![EVENT_ERR | EVENT_IN]);
                }
                (1, false)
            }
        },
        HostIoResult::Done(n) => {
            let ghost mid = old(signals)@;
            let (trigger, count_tmp) = buf.ConsumeAndGetAvailableWriteBuf(n);
            let ghost sigs: Seq<u64> = if trigger {
                seq![EVENT_OUT]
            } else {
                Seq::empty()
            };
            if trigger {
                signals.push(EVENT_OUT);
            }
            proof {
                assert(signals@ =~= mid + sigs);
            }
            if n < count {
                (1, false)
            } else if count_tmp == 0 {
                if buf.PendingWriteShutdown() {
                    signals.push(EVENT_PENDING_SHUTDOWN);
                    proof {
                        assert(final(signals)@ =~= mid + (sigs + seq![EVENT_PENDING_SHUTDOWN]));
                    }
                }
                (1, false)
            } else {
                proof {
                    assert(rs@.skip(i as int).drop_first() =~= rs@.skip(i as int + 1));
                }
                let ghost b2 = *buf;
                let (u, m) = write_go(buf, count_tmp, rs, i + 1, signals);
                proof {
                    let run_inner = write_pump(b2, rs@.skip(i as int + 1))->Some_0;
                    assert(final(signals)@ =~= mid + (sigs + run_inner.signals));
                }
                (u + 1, m)
            }
        },
    }
}

/// A read pump that observes a "would block" outcome leaves the buffer — its
/// produced cursor included — untouched and emits no guest-visible signal.
pub proof fn lemma_read_would_block(b: SocketBuff, rs: Seq<HostIoResult>)
    requires
        rs.len() > 0,
        rs[0] == HostIoResult::Failed(EAGAIN),
    ensures
        read_spec(b, rs) is Some,
        read_spec(b, rs)->Some_0.buf == b,
        read_spec(b, rs)->Some_0.signals =~= Seq::<u64>::empty(),
{
}

/// A read pump that observes a zero-length outcome latches the read-side
/// close on the buffer and emits exactly one guest-visible signal: readable
/// when unread data remains, hang-up otherwise — never both.
pub proof fn lemma_read_peer_closed(b: SocketBuff, rs: Seq<HostIoResult>)
    requires
        b.spec_read_chunk() > 0,
        rs.len() > 0,
        rs[0] == HostIoResult::Closed,
    ensures
        read_spec(b, rs) is Some,
        read_spec(b, rs)->Some_0.buf == (SocketBuff { rClosed: true, ..b }),
        read_spec(b, rs)->Some_0.signals.len() == 1,
        read_spec(b, rs)->Some_0.signals[0] == (if b.readPending > 0 {
            EVENT_IN
        } else {
            EVENT_HUP
        }),
{
}

/// A write pump entered with no staged bytes performs no host write and
/// emits no guest-visible signal.
pub proof fn lemma_write_nothing_staged(b: SocketBuff, rs: Seq<HostIoResult>)
    requires
        b.wf(),
        b.writePending == 0,
    ensures
        write_spec(b, rs) is Some,
        write_spec(b, rs)->Some_0.buf == b,
        write_spec(b, rs)->Some_0.signals =~= Seq::<u64>::empty(),
        write_spec(b, rs)->Some_0.used == 0,
{
}

/// A notification on a buffer with a latched error performs no host I/O and
/// emits exactly one error-and-readable signal.
pub proof fn lemma_notify_latched_error(b: SocketBuff, eventmask: u64, rs: Seq<HostIoResult>)
    requires
        b.error != 0,
    ensures
        notify_spec(b, eventmask, rs) is Some,
        notify_spec(b, eventmask, rs)->Some_0.buf == b,
        notify_spec(b, eventmask, rs)->Some_0.signals =~= seq![EVENT_ERR | EVENT_IN],
        notify_spec(b, eventmask, rs)->Some_0.used == 0,
{
}

} // verus!

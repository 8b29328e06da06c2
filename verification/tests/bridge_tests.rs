use hostbridge::rdma_socket::{
    HostAcceptResult, HostIoResult, RDMADataSock, RDMAServerSock, EAGAIN, EVENT_ERR, EVENT_HUP,
    EVENT_IN, EVENT_OUT, EVENT_PENDING_SHUTDOWN, EVENT_READ, EVENT_WRITE,
};
use hostbridge::socket_buf::{AcceptQueue, SocketBuff};
use hostbridge::sys_info::{SysInfo, SysInfoStep, EFAULT};

const ECONNRESET: i32 = 104;

fn data_sock(read_capacity: usize, write_capacity: usize) -> RDMADataSock {
    RDMADataSock::New(3, SocketBuff::New(read_capacity, write_capacity))
}

#[test]
fn accept_queue_enqueue_transitions() {
    let mut q = AcceptQueue::New(2);
    assert!(q.HasSpace());
    let (trigger, has_space) = q.EnqSocket(5, vec![127, 0, 0, 1]);
    assert!(trigger); // empty became non-empty
    assert!(has_space);
    let (trigger, has_space) = q.EnqSocket(6, vec![127, 0, 0, 2]);
    assert!(!trigger); // still non-empty
    assert!(!has_space);
    assert!(!q.HasSpace());
    assert_eq!(q.Len(), 2);
}

#[test]
fn accept_pump_two_connections_fill_queue() {
    let mut sock = RDMAServerSock::New(10, AcceptQueue::New(2));
    let out = sock.Accept(vec![
        HostAcceptResult::Accepted(5, vec![127, 0, 0, 1]),
        HostAcceptResult::Accepted(6, vec![127, 0, 0, 2]),
    ]);
    // only the empty-to-non-empty transition signals readable
    assert_eq!(out.signals, vec![EVENT_IN]);
    assert_eq!(out.used, 2);
    assert!(!out.more);
    assert_eq!(sock.acceptQueue.Len(), 2);
    assert!(!sock.acceptQueue.HasSpace());
    assert_eq!(sock.acceptQueue.queue[0].fd, 5);
    assert_eq!(sock.acceptQueue.queue[1].fd, 6);
}

#[test]
fn accept_pump_would_block_stops_cleanly() {
    let mut sock = RDMAServerSock::New(10, AcceptQueue::New(2));
    let out = sock.Accept(vec![HostAcceptResult::Failed(EAGAIN)]);
    assert!(out.signals.is_empty());
    assert_eq!(out.used, 1);
    assert!(!out.more);
    assert_eq!(sock.acceptQueue.Len(), 0);
    assert_eq!(sock.acceptQueue.Error(), 0);
}

#[test]
fn accept_pump_error_latches_and_short_circuits() {
    let mut sock = RDMAServerSock::New(10, AcceptQueue::New(2));
    let out = sock.Accept(vec![HostAcceptResult::Failed(ECONNRESET)]);
    assert_eq!(out.signals, vec![EVENT_ERR | EVENT_IN]);
    assert_eq!(sock.acceptQueue.Error(), ECONNRESET);
    // once latched, a later notification does no host work
    let out = sock.Notify(0, vec![HostAcceptResult::Accepted(7, vec![10, 0, 0, 1])]);
    assert_eq!(out.signals, vec![EVENT_ERR | EVENT_IN]);
    assert_eq!(out.used, 0);
    assert_eq!(sock.acceptQueue.Len(), 0);
}

#[test]
fn accept_pump_runs_dry_wants_more() {
    let mut sock = RDMAServerSock::New(10, AcceptQueue::New(4));
    let out = sock.Accept(vec![HostAcceptResult::Accepted(5, vec![127, 0, 0, 1])]);
    assert_eq!(out.signals, vec![EVENT_IN]);
    assert_eq!(out.used, 1);
    assert!(out.more); // space remains and the script ran out
}

#[test]
fn read_pump_partial_read_stops_and_tracks_space() {
    let mut sock = data_sock(100, 0);
    let out = sock.Read(&vec![HostIoResult::Done(40)]);
    assert_eq!(out.signals, vec![EVENT_IN]); // buffer went empty to non-empty
    assert_eq!(out.used, 1);
    assert!(!out.more); // 40 < 100 means the host is momentarily dry
    assert_eq!(sock.socketBuf.readPending, 40);
    assert_eq!(sock.socketBuf.GetFreeReadBuf(), 60);
}

#[test]
fn read_pump_would_block_changes_nothing() {
    let mut sock = data_sock(100, 0);
    let out = sock.Read(&vec![HostIoResult::Failed(EAGAIN)]);
    assert!(out.signals.is_empty());
    assert_eq!(out.used, 1);
    assert!(!out.more);
    assert_eq!(sock.socketBuf.readPending, 0);
    assert_eq!(sock.socketBuf.GetFreeReadBuf(), 100);
}

#[test]
fn read_pump_full_buffer_does_no_io() {
    let mut sock = data_sock(100, 0);
    let out = sock.Read(&vec![HostIoResult::Done(100)]);
    assert_eq!(out.signals, vec![EVENT_IN]);
    assert_eq!(sock.socketBuf.GetFreeReadBuf(), 0);
    // no space left: a further notification consumes no outcome at all
    let out = sock.Read(&vec![HostIoResult::Done(1)]);
    assert!(out.signals.is_empty());
    assert_eq!(out.used, 0);
    assert!(!out.more);
    assert_eq!(sock.socketBuf.readPending, 100);
}

#[test]
fn read_pump_continues_across_ring_wrap() {
    let mut sock = data_sock(100, 0);
    // fill 60 and let the guest drain it: the produce cursor now sits at 60,
    // so only 40 contiguous bytes remain before the ring end
    sock.Read(&vec![HostIoResult::Done(60)]);
    sock.socketBuf.ConsumeReadBuf(60);
    assert_eq!(sock.socketBuf.GetFreeReadBuf(), 40);
    // a full 40-byte read wraps the cursor and the pump loops into the next
    // chunk; the partial 10-byte read then stops it
    let out = sock.Read(&vec![HostIoResult::Done(40), HostIoResult::Done(10)]);
    assert_eq!(out.used, 2);
    assert_eq!(out.signals, vec![EVENT_IN]);
    assert!(!out.more);
    assert_eq!(sock.socketBuf.readPending, 50);
    assert_eq!(sock.socketBuf.GetFreeReadBuf(), 50);
}

#[test]
fn read_pump_peer_closed_with_data_signals_readable() {
    let mut sock = data_sock(100, 0);
    sock.Read(&vec![HostIoResult::Done(10)]);
    let out = sock.Read(&vec![HostIoResult::Closed]);
    assert_eq!(out.signals, vec![EVENT_IN]); // exactly one signal, not HUP too
    assert!(sock.socketBuf.rClosed);
    assert_eq!(sock.socketBuf.readPending, 10);
}

#[test]
fn read_pump_peer_closed_without_data_signals_hangup() {
    let mut sock = data_sock(100, 0);
    let out = sock.Read(&vec![HostIoResult::Closed]);
    assert_eq!(out.signals, vec![EVENT_HUP]);
    assert!(sock.socketBuf.rClosed);
}

#[test]
fn read_pump_host_error_latches() {
    let mut sock = data_sock(100, 0);
    let out = sock.Read(&vec![HostIoResult::Failed(ECONNRESET)]);
    assert_eq!(out.signals, vec![EVENT_ERR | EVENT_IN]);
    assert_eq!(sock.socketBuf.Error(), ECONNRESET);
}

#[test]
fn write_pump_with_nothing_staged_does_nothing() {
    let mut sock = data_sock(0, 100);
    let out = sock.Write(&vec![HostIoResult::Done(5)]);
    assert!(out.signals.is_empty());
    assert_eq!(out.used, 0); // zero host writes performed
    assert!(!out.more);
    assert_eq!(sock.socketBuf.writePending, 0);
}

#[test]
fn write_pump_drains_staged_bytes() {
    let mut sock = data_sock(0, 100);
    sock.socketBuf.ProduceWriteBuf(30);
    let out = sock.Write(&vec![HostIoResult::Done(30)]);
    assert!(out.signals.is_empty()); // the ring was not full, nobody waits
    assert_eq!(out.used, 1);
    assert_eq!(sock.socketBuf.writePending, 0);
}

#[test]
fn write_pump_full_ring_signals_writable() {
    let mut sock = data_sock(0, 100);
    sock.socketBuf.ProduceWriteBuf(100);
    let out = sock.Write(&vec![HostIoResult::Done(100)]);
    assert_eq!(out.signals, vec![EVENT_OUT]); // full became non-full
    assert_eq!(sock.socketBuf.writePending, 0);
}

#[test]
fn write_pump_partial_write_stops() {
    let mut sock = data_sock(0, 100);
    sock.socketBuf.ProduceWriteBuf(50);
    let out = sock.Write(&vec![HostIoResult::Done(20)]);
    assert!(out.signals.is_empty());
    assert_eq!(out.used, 1);
    assert!(!out.more); // the host write buffer is momentarily full
    assert_eq!(sock.socketBuf.writePending, 30);
}

#[test]
fn write_pump_completes_pending_shutdown() {
    let mut sock = data_sock(0, 100);
    sock.socketBuf.ProduceWriteBuf(10);
    sock.socketBuf.SetPendingWriteShutdown();
    let out = sock.Write(&vec![HostIoResult::Done(10)]);
    assert_eq!(out.signals, vec![EVENT_PENDING_SHUTDOWN]);
    assert_eq!(sock.socketBuf.writePending, 0);
}

#[test]
fn write_pump_peer_closed_with_data_signals_writable() {
    let mut sock = data_sock(0, 100);
    sock.socketBuf.ProduceWriteBuf(10);
    let out = sock.Write(&vec![HostIoResult::Closed]);
    assert_eq!(out.signals, vec![EVENT_OUT]);
    assert!(sock.socketBuf.wClosed);
    assert_eq!(sock.socketBuf.writePending, 10);
}

#[test]
fn write_pump_would_block_changes_nothing() {
    let mut sock = data_sock(0, 100);
    sock.socketBuf.ProduceWriteBuf(10);
    let out = sock.Write(&vec![HostIoResult::Failed(EAGAIN)]);
    assert!(out.signals.is_empty());
    assert_eq!(out.used, 1);
    assert_eq!(sock.socketBuf.writePending, 10);
}

#[test]
fn write_pump_host_error_latches() {
    let mut sock = data_sock(0, 100);
    sock.socketBuf.ProduceWriteBuf(10);
    let out = sock.Write(&vec![HostIoResult::Failed(ECONNRESET)]);
    assert_eq!(out.signals, vec![EVENT_ERR | EVENT_IN]);
    assert_eq!(sock.socketBuf.Error(), ECONNRESET);
}

#[test]
fn notify_dispatches_read_before_write() {
    let mut sock = data_sock(100, 100);
    sock.socketBuf.ProduceWriteBuf(10);
    // both bits set: only the read pump runs
    let out = sock.Notify(EVENT_READ | EVENT_WRITE, &vec![HostIoResult::Done(40)]);
    assert_eq!(out.signals, vec![EVENT_IN]);
    assert_eq!(sock.socketBuf.readPending, 40);
    assert_eq!(sock.socketBuf.writePending, 10);
}

#[test]
fn notify_write_bit_drives_write_pump() {
    let mut sock = data_sock(100, 100);
    sock.socketBuf.ProduceWriteBuf(10);
    let out = sock.Notify(EVENT_WRITE, &vec![HostIoResult::Done(10)]);
    assert!(out.signals.is_empty());
    assert_eq!(sock.socketBuf.writePending, 0);
}

#[test]
fn notify_without_relevant_bits_does_nothing() {
    let mut sock = data_sock(100, 100);
    let out = sock.Notify(0, &vec![HostIoResult::Done(10)]);
    assert!(out.signals.is_empty());
    assert_eq!(out.used, 0);
    assert_eq!(sock.socketBuf.readPending, 0);
}

#[test]
fn notify_with_latched_error_short_circuits() {
    let mut sock = data_sock(100, 100);
    sock.socketBuf.SetErr(ECONNRESET);
    let out = sock.Notify(EVENT_READ, &vec![HostIoResult::Done(10)]);
    // exactly one error-and-readable signal, and no host I/O at all
    assert_eq!(out.signals, vec![EVENT_ERR | EVENT_IN]);
    assert_eq!(out.used, 0);
    assert!(!out.more);
    assert_eq!(sock.socketBuf.readPending, 0);
}

#[test]
fn sysinfo_faults_on_untranslatable_address() {
    let step = SysInfo(None);
    assert_eq!(step, SysInfoStep::Fault);
    assert_eq!(step.ReturnValue(0), -(EFAULT as i64));
}

#[test]
fn sysinfo_queries_host_at_translated_address() {
    let step = SysInfo(Some(0x1000));
    assert_eq!(step, SysInfoStep::QueryHost(0x1000));
    assert_eq!(step.ReturnValue(0), 0);
    assert_eq!(SysInfo(Some(7)).ReturnValue(55), 55);
}

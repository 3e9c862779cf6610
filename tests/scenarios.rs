use udp_bench::coordinator::{Coordinator, CoordinatorAction};
use udp_bench::report::report_line;
use udp_bench::worker::{ReceiveStep, RecvOutcome, Worker, WorkerAction};

/// Runs a worker over receive results, flushing at the given steps, and
/// returns the shared counter.
fn drive(w: &mut Worker, results: &[usize], flush_after: &[usize], shared: &mut u64) {
    for (i, n) in results.iter().enumerate() {
        assert_eq!(w.next_action(false, false), WorkerAction::Receive);
        assert_eq!(w.on_receive(RecvOutcome::Received(*n)), ReceiveStep::Continue);
        if flush_after.contains(&i) {
            assert_eq!(w.next_action(false, true), WorkerAction::Flush);
            *shared += w.take_flush();
        }
    }
}

#[test]
fn hundred_datagrams_one_worker_batch_32() {
    // 100 datagrams arrive before the first reporting tick.
    let mut w = Worker::new(32);
    let mut shared: u64 = 0;
    drive(&mut w, &[32, 32, 0, 32, 4], &[1, 4], &mut shared);
    let mut c = Coordinator::new();
    assert_eq!(c.poll(false, true), CoordinatorAction::Report);
    let read = shared;
    assert_eq!(report_line(read), "Received 100 packets");
    shared -= read;
    assert_eq!(shared, 0);
}

#[test]
fn printed_periods_sum_to_received() {
    let mut w = Worker::new(16);
    let mut shared: u64 = 0;
    let mut printed: u64 = 0;
    let periods: [&[usize]; 3] = [&[16, 5, 0], &[1, 2, 3], &[16, 16, 16]];
    for p in periods.iter() {
        drive(&mut w, p, &[p.len() - 1], &mut shared);
        let read = shared;
        printed += read;
        shared -= read;
    }
    assert_eq!(printed, 21 + 6 + 48);
}

#[test]
fn counter_stays_non_negative_under_racing_flush() {
    // A flush lands between the coordinator's read and its subtraction.
    let mut shared: u64 = 40;
    let read = shared;
    shared += 7;
    shared -= read;
    assert_eq!(shared, 7);
    let read2 = shared;
    assert_eq!(read + read2, 47);
}

#[test]
fn four_workers_stop_on_one_signal() {
    let mut ws: Vec<Worker> = (0..4).map(|_| Worker::new(32)).collect();
    for w in ws.iter_mut() {
        w.on_receive(RecvOutcome::Received(5));
    }
    let mut c = Coordinator::new();
    let mut shutdown_lines = 0;
    for _ in 0..3 {
        if c.poll(true, true) == CoordinatorAction::Shutdown {
            shutdown_lines += 1;
        }
    }
    assert_eq!(shutdown_lines, 1);
    for w in ws.iter_mut() {
        assert_eq!(w.next_action(c.stop_sent(), false), WorkerAction::Stop);
        assert!(w.is_stopped());
    }
}

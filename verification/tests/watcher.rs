use flier_watch::codec::{
    decode_mask, encode_mask, MASK_ACCESS, MASK_ATTRIB, MASK_CLOSE_NOWRITE, MASK_CLOSE_WRITE,
    MASK_CREATE, MASK_DELETE, MASK_IGNORED, MASK_ISDIR, MASK_MODIFY, MASK_MOVED_FROM,
    MASK_MOVED_TO, MASK_OPEN,
};
use flier_watch::events::{EventKind, RawEvent};
use flier_watch::handle::{resolve_start, StartError, TeardownAction, WatcherState};
use flier_watch::session::{
    loop_step, run_session, running_after_delivery, translate_event, LoopDecision, PollResult,
    SessionMessage, StartupOutcome,
};

fn raw(name: &str, mask: u32) -> RawEvent {
    RawEvent { filename: name.to_string(), mask }
}

#[test]
fn encode_single_kinds() {
    assert_eq!(encode_mask(&vec![EventKind::Create]), MASK_CREATE);
    assert_eq!(encode_mask(&vec![EventKind::Modify]), MASK_MODIFY);
    assert_eq!(encode_mask(&vec![EventKind::Delete]), MASK_DELETE);
    assert_eq!(encode_mask(&vec![EventKind::MovedFrom]), MASK_MOVED_FROM);
    assert_eq!(encode_mask(&vec![EventKind::MovedTo]), MASK_MOVED_TO);
    assert_eq!(encode_mask(&vec![EventKind::Access]), MASK_ACCESS);
    assert_eq!(encode_mask(&vec![EventKind::Attrib]), MASK_ATTRIB);
    assert_eq!(encode_mask(&vec![EventKind::CloseWrite]), MASK_CLOSE_WRITE);
    assert_eq!(encode_mask(&vec![EventKind::CloseNoWrite]), MASK_CLOSE_NOWRITE);
    assert_eq!(encode_mask(&vec![EventKind::Open]), MASK_OPEN);
}

#[test]
fn encode_ors_requested_bits() {
    let m = encode_mask(&vec![EventKind::Create, EventKind::Delete]);
    assert_eq!(m, MASK_CREATE | MASK_DELETE);
    assert_eq!(encode_mask(&Vec::new()), 0);
}

#[test]
fn encode_ignores_unsupported_kinds() {
    // Report-only kinds cannot be requested; the request is advisory, so
    // they are dropped without error.
    let m = encode_mask(&vec![EventKind::WatchRemoved, EventKind::IsDir, EventKind::Unknown]);
    assert_eq!(m, 0);
    let m = encode_mask(&vec![EventKind::Create, EventKind::Unknown]);
    assert_eq!(m, MASK_CREATE);
}

#[test]
fn mask_round_trip_every_encodable_kind() {
    let encodable = [
        EventKind::Create,
        EventKind::Modify,
        EventKind::Delete,
        EventKind::MovedFrom,
        EventKind::MovedTo,
        EventKind::Access,
        EventKind::Attrib,
        EventKind::CloseWrite,
        EventKind::CloseNoWrite,
        EventKind::Open,
    ];
    for k in encodable {
        let decoded = decode_mask(encode_mask(&vec![k]));
        assert_eq!(decoded, vec![k]);
    }
}

#[test]
fn decode_unknown_fallback() {
    assert_eq!(decode_mask(0), vec![EventKind::Unknown]);
    // Bits the decoder does not recognize, alone, fall back to Unknown too.
    assert_eq!(decode_mask(0x0000_0800), vec![EventKind::Unknown]);
    assert_eq!(decode_mask(0x0000_4000), vec![EventKind::Unknown]);
}

#[test]
fn decode_canonical_scan_order() {
    let all = MASK_ACCESS | MASK_MODIFY | MASK_ATTRIB | MASK_CLOSE_WRITE | MASK_CLOSE_NOWRITE
        | MASK_OPEN | MASK_MOVED_FROM | MASK_MOVED_TO | MASK_CREATE | MASK_DELETE | MASK_IGNORED
        | MASK_ISDIR;
    assert_eq!(
        decode_mask(all),
        vec![
            EventKind::Create,
            EventKind::Modify,
            EventKind::Delete,
            EventKind::MovedFrom,
            EventKind::MovedTo,
            EventKind::Access,
            EventKind::Attrib,
            EventKind::CloseWrite,
            EventKind::CloseNoWrite,
            EventKind::Open,
            EventKind::WatchRemoved,
            EventKind::IsDir,
        ]
    );
    assert_eq!(
        decode_mask(MASK_ISDIR | MASK_CREATE),
        vec![EventKind::Create, EventKind::IsDir]
    );
}

#[test]
fn translate_keeps_name_and_decodes_mask() {
    let e = translate_event(&raw("song.mp3", MASK_CREATE | MASK_ISDIR));
    assert_eq!(e.filename, "song.mp3");
    assert_eq!(e.kinds, vec![EventKind::Create, EventKind::IsDir]);
}

#[test]
fn translate_with_no_kernel_name() {
    // The kernel supplied no name: the filename is empty, and the kinds
    // still never come back empty.
    let e = translate_event(&raw("", 0));
    assert_eq!(e.filename, "");
    assert_eq!(e.kinds, vec![EventKind::Unknown]);
}

#[test]
fn handshake_exactly_once() {
    // Whatever the startup results, the trace holds exactly one signal, and
    // it comes before every delivery.
    let polls = vec![
        PollResult::TimedOut,
        PollResult::Batch(vec![raw("x", MASK_MODIFY)]),
        PollResult::Batch(vec![raw("y", MASK_DELETE)]),
    ];
    for (init_ok, add_ok) in [(true, true), (false, true), (true, false), (false, false)] {
        let trace = run_session(init_ok, add_ok, &polls);
        let signals = trace
            .iter()
            .filter(|m| matches!(m, SessionMessage::Signal(_)))
            .count();
        assert_eq!(signals, 1);
        assert!(matches!(trace[0], SessionMessage::Signal(_)));
    }
}

#[test]
fn startup_failures_deliver_nothing() {
    let polls = vec![PollResult::Batch(vec![raw("x", MASK_CREATE)])];
    assert_eq!(
        run_session(false, true, &polls),
        vec![SessionMessage::Signal(StartupOutcome::InitFailed)]
    );
    assert_eq!(
        run_session(false, false, &polls),
        vec![SessionMessage::Signal(StartupOutcome::InitFailed)]
    );
    assert_eq!(
        run_session(true, false, &polls),
        vec![SessionMessage::Signal(StartupOutcome::WatchRegistrationFailed)]
    );
}

#[test]
fn order_preservation() {
    // N synthetic kernel events delivered to one session come back in the
    // same relative order.
    let names = ["first", "second", "third", "fourth"];
    let batch: Vec<RawEvent> = names.iter().map(|n| raw(n, MASK_CREATE)).collect();
    let trace = run_session(true, true, &vec![PollResult::Batch(batch)]);
    assert_eq!(trace.len(), 1 + names.len());
    assert_eq!(trace[0], SessionMessage::Signal(StartupOutcome::Started));
    for (i, n) in names.iter().enumerate() {
        match &trace[1 + i] {
            SessionMessage::Delivery(e) => assert_eq!(e.filename, *n),
            _ => panic!("expected a delivery"),
        }
    }
}

#[test]
fn fatal_read_ends_the_session() {
    let polls = vec![
        PollResult::Batch(vec![raw("kept", MASK_CREATE)]),
        PollResult::Fatal,
        PollResult::Batch(vec![raw("dropped", MASK_CREATE)]),
    ];
    let trace = run_session(true, true, &polls);
    assert_eq!(trace.len(), 2);
    match &trace[1] {
        SessionMessage::Delivery(e) => assert_eq!(e.filename, "kept"),
        _ => panic!("expected a delivery"),
    }
}

#[test]
fn loop_step_decisions() {
    assert_eq!(loop_step(false, PollResult::TimedOut), LoopDecision::Exit);
    assert_eq!(loop_step(false, PollResult::Batch(vec![raw("x", MASK_CREATE)])), LoopDecision::Exit);
    assert_eq!(loop_step(true, PollResult::TimedOut), LoopDecision::Retry);
    assert_eq!(loop_step(true, PollResult::WouldBlock), LoopDecision::Retry);
    assert_eq!(loop_step(true, PollResult::Fatal), LoopDecision::Exit);
    match loop_step(true, PollResult::Batch(vec![raw("x", MASK_MODIFY)])) {
        LoopDecision::Deliver(evs) => {
            assert_eq!(evs.len(), 1);
            assert_eq!(evs[0].filename, "x");
            assert_eq!(evs[0].kinds, vec![EventKind::Modify]);
        }
        _ => panic!("expected a delivery decision"),
    }
}

#[test]
fn delivery_failure_clears_running() {
    assert!(running_after_delivery(true, true));
    assert!(!running_after_delivery(true, false));
    assert!(!running_after_delivery(false, true));
    assert!(!running_after_delivery(false, false));
}

#[test]
fn idempotent_stop() {
    let mut s = WatcherState::new_running();
    assert_eq!(s.stop(), TeardownAction::JoinWorker);
    // A second stop still succeeds, changes nothing, and never joins twice.
    assert_eq!(s.stop(), TeardownAction::NoWorker);
    assert_eq!(s.stop(), TeardownAction::NoWorker);
    assert!(!s.running);
    assert!(!s.worker_active);
}

#[test]
fn no_orphan_after_liveness_signal() {
    // The liveness signal alone, with no explicit stop, reaches the same
    // end state; an explicit stop afterwards finds nothing to join.
    let mut s = WatcherState::new_running();
    assert_eq!(s.on_liveness_signal(), TeardownAction::JoinWorker);
    assert!(!s.running);
    assert!(!s.worker_active);
    assert_eq!(s.stop(), TeardownAction::NoWorker);
}

#[test]
fn resolve_start_outcomes() {
    match resolve_start(Some(StartupOutcome::Started)) {
        Ok(s) => {
            assert!(s.running);
            assert!(s.worker_active);
        }
        Err(_) => panic!("expected a handle state"),
    }
    assert_eq!(
        resolve_start(Some(StartupOutcome::InitFailed)),
        Err(StartError::InitFailed)
    );
    assert_eq!(
        resolve_start(Some(StartupOutcome::WatchRegistrationFailed)),
        Err(StartError::WatchRegistrationFailed)
    );
    assert_eq!(
        resolve_start(Some(StartupOutcome::RuntimeError)),
        Err(StartError::RuntimeError)
    );
    // The handshake channel closed without a message: a fatal start
    // failure distinct from the session's own outcomes.
    assert_eq!(resolve_start(None), Err(StartError::RuntimeError));
}

#[test]
fn scenario_happy_path() {
    // Watch for {create, delete}; a file "a.txt" is created; exactly one
    // event arrives, named "a.txt" and containing the create kind.
    let mask = encode_mask(&vec![EventKind::Create, EventKind::Delete]);
    assert_eq!(mask, MASK_CREATE | MASK_DELETE);
    let polls = vec![PollResult::Batch(vec![raw("a.txt", MASK_CREATE)])];
    let trace = run_session(true, true, &polls);
    assert_eq!(trace.len(), 2);
    assert_eq!(trace[0], SessionMessage::Signal(StartupOutcome::Started));
    match &trace[1] {
        SessionMessage::Delivery(e) => {
            assert_eq!(e.filename, "a.txt");
            assert!(e.kinds.contains(&EventKind::Create));
        }
        _ => panic!("expected a delivery"),
    }
}

#[test]
fn scenario_bad_path() {
    // Registration on a nonexistent path fails: the caller gets the
    // synchronous failure and no handle.
    let trace = run_session(true, false, &Vec::new());
    assert_eq!(
        trace,
        vec![SessionMessage::Signal(StartupOutcome::WatchRegistrationFailed)]
    );
    assert_eq!(
        resolve_start(Some(StartupOutcome::WatchRegistrationFailed)),
        Err(StartError::WatchRegistrationFailed)
    );
}

#[test]
fn scenario_rapid_stop() {
    // Stop before any filesystem activity: the loop exits on the next flag
    // check and no events were delivered.
    let trace = run_session(true, true, &Vec::new());
    assert_eq!(trace, vec![SessionMessage::Signal(StartupOutcome::Started)]);
    let mut s = WatcherState::new_running();
    assert_eq!(s.stop(), TeardownAction::JoinWorker);
    assert_eq!(loop_step(s.running, PollResult::TimedOut), LoopDecision::Exit);
}

use std::path::PathBuf;
use std::sync::atomic::{AtomicBool, Ordering};
use std::sync::Arc;
use std::time::Duration;

use rust_search::jni::poll::{PollAction, PollBatch, PollEvent};
use rust_search::jni::record::jvm_record;
use rust_search::jni::session::{CancelRegistry, SearchIdGenerator, SearchSession, SessionRegistry};
use rust_search::search::config::SearchConfig;
use rust_search::search::engine::SearchEngine;
use rust_search::search::line_kind::LineKind;
use rust_search::search::matcher::SearchMatch;
use rust_search::search::stream::{Delivery, DeliveryAction, DeliveryEvent, SendOutcome};
use rust_search::{SearchError, SearchResult};

fn m(line: usize) -> SearchMatch {
    SearchMatch {
        file_path: PathBuf::from("f.txt"),
        line_number: line,
        column: 0,
        matched_text: format!("line {line}\n"),
        context_before: vec!["b".into()],
        context_after: vec!["a".into()],
        line_kind: LineKind::Import,
    }
}

fn lines(v: &[SearchMatch]) -> Vec<usize> {
    v.iter().map(|m| m.line_number).collect()
}

fn session() -> (crossbeam_channel::Sender<SearchResult<SearchMatch>>, Arc<SearchSession>) {
    let config = SearchConfig::new(vec![PathBuf::from("/")], "hello".into());
    let (tx, rx) = crossbeam_channel::bounded(256);
    (tx, Arc::new(SearchSession::new(SearchEngine::new(config), rx)))
}

#[test]
fn test_generate_search_id_unique() {
    let mut ids = SearchIdGenerator::new();
    let id1 = ids.generate_search_id();
    let id2 = ids.generate_search_id();
    assert_ne!(id1, id2);
}

#[test]
fn search_ids_start_at_one_and_count_up() {
    let mut ids = SearchIdGenerator::new();
    assert_eq!(ids.generate_search_id(), 1);
    assert_eq!(ids.generate_search_id(), 2);
    assert_eq!(ids.generate_search_id(), 3);
}

#[test]
fn test_cancel_registry() {
    let flag = Arc::new(AtomicBool::new(false));
    let search_id = 999_999_999;
    let mut registry = CancelRegistry::new();
    registry.register(search_id, Arc::clone(&flag));
    assert!(registry.cancel(search_id));
    assert!(flag.load(Ordering::Relaxed));
    registry.remove(search_id);
    assert!(!registry.contains(search_id));
    assert!(!registry.cancel(search_id));
}

#[test]
fn test_is_search_complete_nonexistent() {
    let registry = SessionRegistry::new();
    assert!(registry.is_search_complete(999_999_998));
}

#[test]
fn test_release_search() {
    let (_tx, s) = session();
    let mut registry = SessionRegistry::new();
    registry.register(7, s);
    assert!(registry.contains(7));
    registry.release(7);
    assert!(!registry.contains(7));
    assert!(registry.is_search_complete(7));
}

#[test]
fn session_lookup_cancel_and_completion() {
    let (_tx, s) = session();
    let flag = s.engine().cancel_handle();
    let mut registry = SessionRegistry::new();
    registry.register(3, Arc::clone(&s));
    assert!(!registry.is_search_complete(3));
    assert!(registry.cancel(3));
    assert!(flag.load(Ordering::Relaxed));
    assert!(!registry.cancel(4));
    let found = registry.session(3).unwrap();
    found.mark_complete();
    assert!(registry.is_search_complete(3));
    match registry.session(12345) {
        Err(SearchError::Internal(msg)) => assert_eq!(msg, "搜索会话 12345 不存在"),
        _ => panic!("expected an internal error"),
    }
}

fn run(poll: &mut PollBatch, events: Vec<PollEvent>) {
    for ev in events {
        poll.on_event(ev);
    }
}

#[test]
fn poll_takes_ready_matches_without_waiting() {
    let mut poll = PollBatch::new();
    assert!(poll.next_action() == PollAction::TryReceive);
    run(&mut poll, vec![PollEvent::Received(Ok(m(1))), PollEvent::Received(Ok(m(2))), PollEvent::Empty]);
    assert!(poll.next_action() == PollAction::Finish);
    let (complete, result) = poll.finish();
    assert!(!complete);
    assert_eq!(lines(&result.unwrap()), vec![1, 2]);
}

#[test]
fn poll_waits_once_when_nothing_is_ready() {
    let mut poll = PollBatch::new();
    poll.on_event(PollEvent::Empty);
    assert!(poll.next_action() == PollAction::WaitReceive);
    poll.on_event(PollEvent::TimedOut);
    assert!(poll.next_action() == PollAction::Finish);
    let (complete, result) = poll.finish();
    assert!(!complete);
    assert!(result.unwrap().is_empty());

    let mut poll = PollBatch::new();
    run(&mut poll, vec![PollEvent::Empty, PollEvent::Received(Ok(m(5)))]);
    assert!(poll.next_action() == PollAction::TryReceive);
    run(&mut poll, vec![PollEvent::Received(Ok(m(6))), PollEvent::Empty]);
    assert!(poll.next_action() == PollAction::Finish);
    assert_eq!(lines(&poll.finish().1.unwrap()), vec![5, 6]);
}

#[test]
fn poll_marks_complete_on_closed_channel_and_drains() {
    let mut poll = PollBatch::new();
    run(&mut poll, vec![PollEvent::Empty, PollEvent::Disconnected]);
    assert!(poll.next_action() == PollAction::TryReceive);
    poll.on_event(PollEvent::Empty);
    let (complete, result) = poll.finish();
    assert!(complete);
    assert!(result.unwrap().is_empty());
}

#[test]
fn poll_keeps_matches_after_cancellation() {
    let mut poll = PollBatch::new();
    run(
        &mut poll,
        vec![
            PollEvent::Received(Ok(m(1))),
            PollEvent::Received(Err(SearchError::Cancelled)),
            PollEvent::Received(Ok(m(2))),
            PollEvent::Empty,
        ],
    );
    let (complete, result) = poll.finish();
    assert!(complete);
    assert_eq!(lines(&result.unwrap()), vec![1, 2]);
}

#[test]
fn poll_reports_an_error() {
    let mut poll = PollBatch::new();
    run(&mut poll, vec![PollEvent::Received(Ok(m(1))), PollEvent::Received(Err(SearchError::Internal("boom".into())))]);
    assert!(poll.next_action() == PollAction::Finish);
    let (complete, result) = poll.finish();
    assert!(complete);
    assert!(matches!(result, Err(SearchError::Internal(ref s)) if s == "boom"));
}

#[test]
fn poll_over_a_real_channel() {
    let (tx, s) = session();
    for i in 1..=3 {
        tx.send(Ok(m(i))).unwrap();
    }
    drop(tx);
    let mut batches: Vec<usize> = Vec::new();
    loop {
        let mut poll = PollBatch::new();
        loop {
            match poll.next_action() {
                PollAction::TryReceive => {
                    let ev = match s.receiver().try_recv() {
                        Ok(item) => PollEvent::Received(item),
                        Err(_) => PollEvent::Empty,
                    };
                    poll.on_event(ev);
                }
                PollAction::WaitReceive => {
                    let ev = match s.receiver().recv_timeout(Duration::from_millis(10)) {
                        Ok(item) => PollEvent::Received(item),
                        Err(crossbeam_channel::RecvTimeoutError::Timeout) => PollEvent::TimedOut,
                        Err(crossbeam_channel::RecvTimeoutError::Disconnected) => PollEvent::Disconnected,
                    };
                    poll.on_event(ev);
                }
                PollAction::Finish => break,
            }
        }
        let (complete, result) = poll.finish();
        if complete {
            s.mark_complete();
        }
        batches.extend(lines(&result.unwrap()));
        if s.is_complete() {
            break;
        }
    }
    assert_eq!(batches, vec![1, 2, 3]);
}

fn deliver(max_total: usize, cancel_reads: &[bool], previous: usize, sends: &[SendOutcome]) -> Vec<DeliveryAction> {
    let mut d = Delivery::new(max_total);
    let mut cancels = cancel_reads.iter();
    let mut outcomes = sends.iter();
    let mut actions = Vec::new();
    loop {
        let a = d.next_action();
        let ev = match a {
            DeliveryAction::ReadCancel => DeliveryEvent::CancelRead(*cancels.next().unwrap()),
            DeliveryAction::Claim => DeliveryEvent::Claimed(previous),
            DeliveryAction::Release => DeliveryEvent::Released,
            DeliveryAction::Send => DeliveryEvent::SendDone(match outcomes.next().unwrap() {
                SendOutcome::Sent => SendOutcome::Sent,
                SendOutcome::TimedOut => SendOutcome::TimedOut,
                SendOutcome::Disconnected => SendOutcome::Disconnected,
            }),
            DeliveryAction::Delivered | DeliveryAction::Stop => {
                actions.push(a);
                return actions;
            }
        };
        actions.push(a);
        d.on_event(ev);
    }
}

#[test]
fn delivery_sends_under_the_limit() {
    let a = deliver(2, &[false, false], 1, &[SendOutcome::Sent]);
    assert!(a == vec![DeliveryAction::ReadCancel, DeliveryAction::Claim, DeliveryAction::ReadCancel, DeliveryAction::Send, DeliveryAction::Delivered]);
}

#[test]
fn delivery_gives_back_a_claim_over_the_limit() {
    let a = deliver(2, &[false], 2, &[]);
    assert!(a == vec![DeliveryAction::ReadCancel, DeliveryAction::Claim, DeliveryAction::Release, DeliveryAction::Stop]);
}

#[test]
fn delivery_retries_after_a_timeout() {
    let a = deliver(5, &[false, false, false], 0, &[SendOutcome::TimedOut, SendOutcome::Sent]);
    assert!(a == vec![
        DeliveryAction::ReadCancel,
        DeliveryAction::Claim,
        DeliveryAction::ReadCancel,
        DeliveryAction::Send,
        DeliveryAction::ReadCancel,
        DeliveryAction::Send,
        DeliveryAction::Delivered,
    ]);
}

#[test]
fn delivery_stops_on_cancel_or_closed_channel() {
    let a = deliver(5, &[true], 0, &[]);
    assert!(a == vec![DeliveryAction::ReadCancel, DeliveryAction::Stop]);
    let a = deliver(5, &[false, true], 0, &[]);
    assert!(a == vec![DeliveryAction::ReadCancel, DeliveryAction::Claim, DeliveryAction::ReadCancel, DeliveryAction::Stop]);
    let a = deliver(5, &[false, false], 0, &[SendOutcome::Disconnected]);
    assert!(a == vec![
        DeliveryAction::ReadCancel,
        DeliveryAction::Claim,
        DeliveryAction::ReadCancel,
        DeliveryAction::Send,
        DeliveryAction::Stop,
    ]);
}

#[test]
fn jvm_record_fields() {
    let mut x = m(9);
    x.column = 4;
    let r = jvm_record(&x);
    assert_eq!(r.path, "f.txt");
    assert_eq!(r.line, 9);
    assert_eq!(r.column, 4);
    assert_eq!(r.matched, "line 9\n");
    assert_eq!(r.before, vec!["b".to_string()]);
    assert_eq!(r.after, vec!["a".to_string()]);
    assert_eq!(r.line_kind, 2);
    let mut big = m(1);
    big.line_number = (1usize << 32) + 5;
    assert_eq!(jvm_record(&big).line, 5);
}

#[test]
fn test_search_session_cancel() {
    let (_tx, s) = session();
    let cancel_flag = s.engine().cancel_handle();
    let search_id = 41;
    let mut registry = SessionRegistry::new();
    registry.register(search_id, s);
    assert!(!cancel_flag.load(Ordering::Relaxed));
    let session_clone = registry.session(search_id).unwrap();
    session_clone.cancel();
    assert!(cancel_flag.load(Ordering::Relaxed));
    registry.release(search_id);
}

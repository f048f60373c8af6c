use mod_manager::bridge::{
    BridgeAction, BridgeEvent, BridgeState, CallbackBridge, PendingOperation, Resolution,
    SignalFate, DEFAULT_TIMEOUT_MS, POLL_INTERVAL_MS, SIGNAL_CAPACITY,
};
use mod_manager::error::ErrorKind;
use mod_manager::registry::ClientRegistry;
use std::cell::Cell;
use std::rc::Rc;

/// A client that answers once its servicing routine has run `needed` times,
/// and never where `needed` is `None`. The answer is handed out once.
struct MockClient {
    needed: Option<u32>,
    answer: Result<(), String>,
    pumps: Cell<u32>,
    taken: Cell<bool>,
}

impl MockClient {
    fn new(needed: Option<u32>, answer: Result<(), String>) -> Rc<MockClient> {
        Rc::new(MockClient { needed, answer, pumps: Cell::new(0), taken: Cell::new(false) })
    }

    fn run_callbacks(&self) {
        self.pumps.set(self.pumps.get() + 1);
    }

    fn try_recv(&self) -> Option<Result<(), String>> {
        match self.needed {
            Some(n) if self.pumps.get() >= n && !self.taken.get() => {
                self.taken.set(true);
                Some(self.answer.clone())
            }
            _ => None,
        }
    }
}

/// What a drive saw: the caller's result, the runs of the servicing routine,
/// the looks of the worker and the time at the end.
struct Drive {
    result: Result<bool, String>,
    kind: Option<ErrorKind>,
    pumps: u32,
    looks: u32,
    ended_at: u64,
}

/// Drives the bridge in turns: the worker signals and looks; where that does
/// not end the request the owner serves the signal and the worker's sleep
/// passes.
fn drive(context_id: u32, client: Rc<MockClient>, timeout: u64, interval: u64) -> Drive {
    let mut registry: ClientRegistry<(), Rc<MockClient>> = ClientRegistry::new();
    registry.set_client(context_id, (), client.clone());
    let mut bridge = CallbackBridge::new(context_id);
    assert_eq!(bridge.advance(BridgeEvent::RequestSubmitted), BridgeAction::SpawnWorker);
    assert_eq!(bridge.advance(BridgeEvent::WorkerStarted), BridgeAction::Await);
    let op = PendingOperation::new(1, 1_000, timeout);
    let mut now = 1_000;
    let mut looks = 0;
    loop {
        looks += 1;
        assert!(looks < 1_000_000, "the bridge does not end");
        match op.look(SignalFate::Delivered, client.try_recv(), now) {
            Some(resolution) => {
                let action = bridge.advance(BridgeEvent::WorkerFinished(resolution));
                assert_eq!(action, BridgeAction::Finish);
                let resolution = bridge.resolution().unwrap();
                return Drive {
                    result: resolution.report(),
                    kind: resolution.kind(),
                    pumps: client.pumps.get(),
                    looks,
                    ended_at: now,
                };
            }
            None => {
                let action = bridge.advance(BridgeEvent::PumpDue);
                assert_eq!(action, BridgeAction::RunCallbacks(context_id));
                let served = registry.run_callbacks(context_id, |pump| pump.run_callbacks());
                let next = bridge.advance(BridgeEvent::Pumped(served.map_err(|e| e.message())));
                assert_eq!(next, BridgeAction::Await);
                now += interval;
            }
        }
    }
}

#[test]
fn unsubscribe_succeeds_after_two_pumps() {
    let run = drive(480, MockClient::new(Some(2), Ok(())), DEFAULT_TIMEOUT_MS, POLL_INTERVAL_MS);
    assert_eq!(run.result, Ok(true));
    assert_eq!(run.kind, None);
    assert_eq!(run.pumps, 2);
    assert_eq!(run.looks, 3);
    assert_eq!(run.ended_at, 1_000 + 2 * POLL_INTERVAL_MS);
}

#[test]
fn unsubscribe_times_out_when_the_client_never_answers() {
    let run = drive(480, MockClient::new(None, Ok(())), DEFAULT_TIMEOUT_MS, POLL_INTERVAL_MS);
    assert_eq!(run.result, Err("Operation timed out waiting for Steam response".to_string()));
    assert_eq!(run.kind, Some(ErrorKind::Timeout));
    assert_eq!(run.ended_at, 1_000 + DEFAULT_TIMEOUT_MS + POLL_INTERVAL_MS);
    assert_eq!(u64::from(run.pumps), DEFAULT_TIMEOUT_MS / POLL_INTERVAL_MS + 1);
}

#[test]
fn a_client_that_needs_no_pump_answers_at_the_first_look() {
    let run = drive(480, MockClient::new(Some(0), Ok(())), DEFAULT_TIMEOUT_MS, POLL_INTERVAL_MS);
    assert_eq!(run.result, Ok(true));
    assert_eq!(run.pumps, 0);
    assert_eq!(run.looks, 1);
    assert_eq!(run.ended_at, 1_000);
}

#[test]
fn the_bridge_ends_after_exactly_the_pumps_that_the_client_needs() {
    for needed in [0u32, 1, 2, 3, 10, 100] {
        let run = drive(7, MockClient::new(Some(needed), Ok(())), 5_000, 10);
        assert_eq!(run.result, Ok(true));
        assert_eq!(run.pumps, needed);
        assert_eq!(run.looks, needed + 1);
    }
}

#[test]
fn an_answer_at_the_last_moment_still_counts() {
    let run = drive(7, MockClient::new(Some(4), Ok(())), 30, 10);
    assert_eq!(run.result, Ok(true));
    assert_eq!(run.pumps, 4);
    let late = drive(7, MockClient::new(Some(5), Ok(())), 30, 10);
    assert_eq!(late.result, Err("Operation timed out waiting for Steam response".to_string()));
    assert_eq!(late.pumps, 4);
    assert_eq!(late.ended_at, 1_040);
    let zero = drive(7, MockClient::new(Some(1), Ok(())), 0, 10);
    assert_eq!(zero.result, Ok(true));
}

#[test]
fn an_error_of_the_service_is_handed_on_in_its_words() {
    let client = MockClient::new(Some(1), Err("access denied".to_string()));
    let run = drive(480, client, DEFAULT_TIMEOUT_MS, POLL_INTERVAL_MS);
    assert_eq!(run.result, Err("Steam API error: access denied".to_string()));
    assert_eq!(run.kind, Some(ErrorKind::ExternalServiceError));
    assert_eq!(run.pumps, 1);
}

#[test]
fn every_drive_ends_within_one_interval_of_the_deadline() {
    for timeout in [0u64, 1, 9, 10, 11, 95, 100] {
        for interval in [1u64, 3, 10, 250] {
            for needed in [None, Some(0), Some(1), Some(5), Some(50), Some(1_000)] {
                let run = drive(1, MockClient::new(needed, Ok(())), timeout, interval);
                assert!(run.ended_at <= 1_000 + timeout + interval);
                match run.result {
                    Ok(done) => {
                        assert!(done);
                        assert_eq!(Some(run.pumps), needed);
                    }
                    Err(message) => {
                        assert_eq!(message, "Operation timed out waiting for Steam response");
                        assert!(run.ended_at - 1_000 > timeout);
                        assert!(needed.map_or(true, |n| run.pumps < n));
                    }
                }
            }
        }
    }
}

#[test]
fn the_worker_waits_until_the_deadline_has_passed() {
    let op = PendingOperation::new(9, 100, 30);
    assert_eq!((op.request_id, op.started_at, op.timeout), (9, 100, 30));
    assert!(op.poll(None, 100).is_none());
    assert!(op.poll(None, 129).is_none());
    assert!(op.poll(None, 130).is_none());
    assert!(matches!(op.poll(None, 131), Some(Resolution::Timeout)));
    assert!(matches!(op.poll(None, u64::MAX), Some(Resolution::Timeout)));
    assert!(op.poll(None, 0).is_none());
    assert_eq!(op.elapsed(99), 0);
    assert_eq!(op.elapsed(100), 0);
    assert_eq!(op.elapsed(131), 31);
    assert!(!op.expired(130));
    assert!(op.expired(131));
}

#[test]
fn an_answer_ends_the_request_whatever_the_time() {
    let op = PendingOperation::new(9, 100, 30);
    assert!(matches!(op.poll(Some(Ok(())), 100), Some(Resolution::Success)));
    assert!(matches!(op.poll(Some(Ok(())), 10_000), Some(Resolution::Success)));
    assert!(matches!(
        op.poll(Some(Err("busy".to_string())), 10_000),
        Some(Resolution::ExternalError(text)) if text == "busy"
    ));
}

#[test]
fn a_deadline_near_the_end_of_the_clock_does_not_overflow() {
    let op = PendingOperation::new(1, u64::MAX - 5, u64::MAX);
    assert!(op.poll(None, u64::MAX).is_none());
    let short = PendingOperation::new(1, u64::MAX - 5, 4);
    assert!(short.poll(None, u64::MAX - 1).is_none());
    assert!(matches!(short.poll(None, u64::MAX), Some(Resolution::Timeout)));
}

#[test]
fn the_owner_walks_through_the_phases() {
    let mut bridge = CallbackBridge::new(480);
    assert_eq!(bridge.context_id(), 480);
    assert!(matches!(bridge.state(), BridgeState::Idle));
    assert!(!bridge.is_resolved());
    assert!(bridge.resolution().is_none());
    assert_eq!(bridge.advance(BridgeEvent::RequestSubmitted), BridgeAction::SpawnWorker);
    assert!(matches!(bridge.state(), BridgeState::Submitted));
    assert_eq!(bridge.advance(BridgeEvent::WorkerStarted), BridgeAction::Await);
    assert!(matches!(bridge.state(), BridgeState::Polling));
    assert_eq!(bridge.advance(BridgeEvent::PumpDue), BridgeAction::RunCallbacks(480));
    assert!(matches!(bridge.state(), BridgeState::Servicing));
    assert_eq!(bridge.advance(BridgeEvent::Pumped(Ok(()))), BridgeAction::Await);
    assert!(matches!(bridge.state(), BridgeState::Polling));
    let done = bridge.advance(BridgeEvent::WorkerFinished(Resolution::Success));
    assert_eq!(done, BridgeAction::Finish);
    assert!(bridge.is_resolved());
    assert!(matches!(bridge.resolution(), Some(Resolution::Success)));
}

#[test]
fn a_worker_that_ends_abnormally_is_a_task_failure() {
    let mut bridge = CallbackBridge::new(480);
    bridge.advance(BridgeEvent::RequestSubmitted);
    bridge.advance(BridgeEvent::WorkerStarted);
    let action = bridge.advance(BridgeEvent::WorkerFailed("task 7 panicked".to_string()));
    assert_eq!(action, BridgeAction::Finish);
    let resolution = bridge.resolution().unwrap();
    assert!(matches!(resolution, Resolution::Cancelled(text) if text == "task 7 panicked"));
    assert_eq!(resolution.kind(), Some(ErrorKind::TaskFailure));
    assert_eq!(resolution.report(), Err("Task join error: task 7 panicked".to_string()));
}

#[test]
fn a_pump_that_cannot_run_ends_the_request() {
    let registry: ClientRegistry<(), ()> = ClientRegistry::new();
    let mut bridge = CallbackBridge::new(480);
    bridge.advance(BridgeEvent::RequestSubmitted);
    bridge.advance(BridgeEvent::WorkerStarted);
    assert_eq!(bridge.advance(BridgeEvent::PumpDue), BridgeAction::RunCallbacks(480));
    let served = registry.run_callbacks(480, |_| ()).map_err(|e| e.message());
    assert_eq!(bridge.advance(BridgeEvent::Pumped(served)), BridgeAction::Finish);
    let resolution = bridge.resolution().unwrap();
    assert_eq!(resolution.kind(), Some(ErrorKind::ExternalServiceUnavailable));
    assert_eq!(resolution.report(), Err("No Steam client for app 480".to_string()));
}

#[test]
fn a_request_ends_once() {
    let mut bridge = CallbackBridge::new(480);
    bridge.advance(BridgeEvent::RequestSubmitted);
    bridge.advance(BridgeEvent::WorkerStarted);
    bridge.advance(BridgeEvent::WorkerFinished(Resolution::Timeout));
    let later = [
        BridgeEvent::RequestSubmitted,
        BridgeEvent::WorkerStarted,
        BridgeEvent::PumpDue,
        BridgeEvent::Pumped(Ok(())),
        BridgeEvent::Pumped(Err("gone".to_string())),
        BridgeEvent::WorkerFinished(Resolution::Success),
        BridgeEvent::WorkerFailed("late".to_string()),
    ];
    for event in later {
        assert_eq!(bridge.advance(event), BridgeAction::Ignore);
        assert!(matches!(bridge.resolution(), Some(Resolution::Timeout)));
    }
}

#[test]
fn events_out_of_turn_change_nothing() {
    let mut bridge = CallbackBridge::new(480);
    assert_eq!(bridge.advance(BridgeEvent::PumpDue), BridgeAction::Ignore);
    assert_eq!(bridge.advance(BridgeEvent::WorkerStarted), BridgeAction::Ignore);
    let early = bridge.advance(BridgeEvent::WorkerFinished(Resolution::Success));
    assert_eq!(early, BridgeAction::Ignore);
    assert!(matches!(bridge.state(), BridgeState::Idle));
    bridge.advance(BridgeEvent::RequestSubmitted);
    assert_eq!(bridge.advance(BridgeEvent::RequestSubmitted), BridgeAction::Ignore);
    assert_eq!(bridge.advance(BridgeEvent::PumpDue), BridgeAction::Ignore);
    assert!(matches!(bridge.state(), BridgeState::Submitted));
    bridge.advance(BridgeEvent::WorkerStarted);
    assert_eq!(bridge.advance(BridgeEvent::Pumped(Ok(()))), BridgeAction::Ignore);
    assert!(matches!(bridge.state(), BridgeState::Polling));
    bridge.advance(BridgeEvent::PumpDue);
    assert_eq!(bridge.advance(BridgeEvent::PumpDue), BridgeAction::Ignore);
    let busy = bridge.advance(BridgeEvent::WorkerFinished(Resolution::Success));
    assert_eq!(busy, BridgeAction::Ignore);
    assert!(matches!(bridge.state(), BridgeState::Servicing));
}

#[test]
fn resolutions_report_to_the_caller() {
    assert_eq!(Resolution::Success.report(), Ok(true));
    assert_eq!(Resolution::Success.kind(), None);
    assert_eq!(
        Resolution::Timeout.report(),
        Err("Operation timed out waiting for Steam response".to_string())
    );
    assert_eq!(
        Resolution::ExternalError("Fail".to_string()).report(),
        Err("Steam API error: Fail".to_string())
    );
    assert_eq!(
        Resolution::Unavailable("No Steam client for app 1".to_string()).report(),
        Err("No Steam client for app 1".to_string())
    );
}

#[test]
fn the_bridge_has_its_fixed_settings() {
    assert_eq!(DEFAULT_TIMEOUT_MS, 30_000);
    assert_eq!(POLL_INTERVAL_MS, 10);
    assert_eq!(SIGNAL_CAPACITY, 32);
}

#[test]
fn a_dropped_signal_changes_nothing_for_the_worker() {
    let op = PendingOperation::new(9, 100, 30);
    for fate in [SignalFate::Delivered, SignalFate::Dropped] {
        assert!(op.look(fate, None, 130).is_none());
        assert!(matches!(op.look(fate, None, 131), Some(Resolution::Timeout)));
        assert!(matches!(op.look(fate, Some(Ok(())), 500), Some(Resolution::Success)));
        assert!(matches!(
            op.look(fate, Some(Err("busy".to_string())), 100),
            Some(Resolution::ExternalError(text)) if text == "busy"
        ));
    }
}

#[test]
fn a_worker_whose_owner_is_gone_ends_as_cancelled() {
    let op = PendingOperation::new(9, 100, 30);
    for answer in [None, Some(Ok(())), Some(Err("busy".to_string()))] {
        let resolution = op.look(SignalFate::OwnerGone, answer, 100).unwrap();
        assert!(matches!(&resolution, Resolution::Cancelled(t) if t == "the request was abandoned"));
        assert_eq!(resolution.kind(), Some(ErrorKind::TaskFailure));
    }
}

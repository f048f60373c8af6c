//! The callback bridge: one request against a service client that answers
//! through a callback, driven from an async task.
//!
//! The client delivers its answer only while its servicing routine runs, and
//! that routine must run on the side that owns the client. So the work is
//! split. A worker waits: it signals that a servicing pump is due, looks
//! whether the answer has arrived, gives up once the deadline has passed and
//! otherwise sleeps for a short interval. The owner serves: on each signal it
//! runs the servicing routine once, and when the worker ends it takes the
//! worker's result as the result of the request.
//!
//! What each side decides stands here: [`PendingOperation::poll`] for the
//! worker and [`CallbackBridge::advance`] for the owner. Whoever drives them
//! performs the actions and reports what happened.

use crate::error::ErrorKind;
use vstd::prelude::*;

verus! {

/// The deadline of a request unless the caller sets another, in milliseconds.
pub const DEFAULT_TIMEOUT_MS: u64 = 30_000;

/// How long the worker sleeps between two looks, in milliseconds.
pub const POLL_INTERVAL_MS: u64 = 10;

/// How many pump signals may wait for the owner. A signal that finds no room
/// is dropped: the owner needs to know that a pump is due, not how many.
pub const SIGNAL_CAPACITY: usize = 32;

/// How a request ended, over plain text.
pub enum Outcome {
    Success,
    ExternalError(Seq<char>),
    Timeout,
    Cancelled(Seq<char>),
    Unavailable(Seq<char>),
}

/// How a request ended.
#[derive(Debug)]
pub enum Resolution {
    /// The service did what was asked.
    Success,
    /// The service answered with an error, given in its own words.
    ExternalError(String),
    /// The deadline passed without an answer.
    Timeout,
    /// The worker ended without a result: it was aborted or it panicked.
    Cancelled(String),
    /// The servicing routine could not be run: the client is gone.
    Unavailable(String),
}

impl View for Resolution {
    type V = Outcome;

    open spec fn view(&self) -> Outcome {
        match self {
            Resolution::Success => Outcome::Success,
            Resolution::ExternalError(text) => Outcome::ExternalError(text@),
            Resolution::Timeout => Outcome::Timeout,
            Resolution::Cancelled(text) => Outcome::Cancelled(text@),
            Resolution::Unavailable(text) => Outcome::Unavailable(text@),
        }
    }
}

/// What the caller of the operation is told: `true` for success, else the
/// message of the failure. An error of the service is passed on in its own
/// words behind a fixed opening, and so is the worker's; the registry's
/// message comes unchanged.
pub open spec fn outcome_report(outcome: Outcome) -> Result<bool, Seq<char>> {
    match outcome {
        Outcome::Success => Ok(true),
        Outcome::ExternalError(text) => Err("Steam API error: "@ + text),
        Outcome::Timeout => Err("Operation timed out waiting for Steam response"@),
        Outcome::Cancelled(text) => Err("Task join error: "@ + text),
        Outcome::Unavailable(text) => Err(text),
    }
}

/// The kind of failure of an outcome; none for success.
pub open spec fn outcome_kind(outcome: Outcome) -> Option<ErrorKind> {
    match outcome {
        Outcome::Success => None,
        Outcome::ExternalError(_) => Some(ErrorKind::ExternalServiceError),
        Outcome::Timeout => Some(ErrorKind::Timeout),
        Outcome::Cancelled(_) => Some(ErrorKind::TaskFailure),
        Outcome::Unavailable(_) => Some(ErrorKind::ExternalServiceUnavailable),
    }
}

/// The outcome that an answer of the service amounts to.
pub open spec fn answered(answer: Result<(), Seq<char>>) -> Outcome {
    match answer {
        Ok(()) => Outcome::Success,
        Err(text) => Outcome::ExternalError(text),
    }
}

impl Resolution {
    /// What the caller of the operation is told.
    pub fn report(&self) -> (r: Result<bool, String>)
        ensures
            match r {
                Ok(done) => outcome_report(self@) == Ok::<bool, Seq<char>>(done),
                Err(text) => outcome_report(self@) == Err::<bool, Seq<char>>(text@),
            },
    {
        match self {
            Resolution::Success => Ok(true),
            Resolution::ExternalError(text) => {
                let mut message = "Steam API error: ".to_owned();
                message.append(text.as_str());
                Err(message)
            },
            Resolution::Timeout => Err("Operation timed out waiting for Steam response".to_owned()),
            Resolution::Cancelled(text) => {
                let mut message = "Task join error: ".to_owned();
                message.append(text.as_str());
                Err(message)
            },
            Resolution::Unavailable(text) => Err(text.clone()),
        }
    }

    /// The kind of failure; none for success.
    pub fn kind(&self) -> (kind: Option<ErrorKind>)
        ensures
            kind == outcome_kind(self@),
    {
        match self {
            Resolution::Success => None,
            Resolution::ExternalError(_) => Some(ErrorKind::ExternalServiceError),
            Resolution::Timeout => Some(ErrorKind::Timeout),
            Resolution::Cancelled(_) => Some(ErrorKind::TaskFailure),
            Resolution::Unavailable(_) => Some(ErrorKind::ExternalServiceUnavailable),
        }
    }
}

/// A request that waits for its answer. Times are in milliseconds on a clock
/// that does not run backwards.
#[derive(Clone, Copy, Debug, PartialEq, Eq, Structural)]
pub struct PendingOperation {
    pub request_id: u64,
    pub started_at: u64,
    pub timeout: u64,
}

/// What became of a pump signal that the worker sent without waiting.
#[derive(Clone, Copy, Debug, PartialEq, Eq, Structural)]
pub enum SignalFate {
    /// The signal waits for the owner.
    Delivered,
    /// As many signals as may wait were waiting already: this one is dropped.
    Dropped,
    /// The owner no longer listens.
    OwnerGone,
}

/// The text of an answer taken from the side channel.
pub open spec fn answer_text(answer: Option<Result<(), String>>) -> Option<Result<(), Seq<char>>> {
    match answer {
        Some(Ok(())) => Some(Ok(())),
        Some(Err(text)) => Some(Err(text@)),
        None => None,
    }
}

impl PendingOperation {
    /// The time that has passed since the request was made; zero for a time
    /// before that.
    pub open spec fn elapsed_at(self, now: nat) -> nat {
        if now >= self.started_at {
            (now - self.started_at) as nat
        } else {
            0
        }
    }

    /// The deadline has passed: more time than the timeout has gone by.
    pub open spec fn expired_at(self, now: nat) -> bool {
        self.elapsed_at(now) > self.timeout
    }

    /// What the worker decides on one look: an answer ends the request, with
    /// success or with the service's error, whatever the time; without an
    /// answer the request times out once the deadline has passed; otherwise
    /// the worker goes on waiting.
    pub open spec fn poll_at(self, answer: Option<Result<(), Seq<char>>>, now: nat) -> Option<
        Outcome,
    > {
        match answer {
            Some(a) => Some(answered(a)),
            None => if self.expired_at(now) {
                Some(Outcome::Timeout)
            } else {
                None
            },
        }
    }

    /// What the worker decides on one turn, given what became of its signal.
    pub open spec fn look_at(
        self,
        fate: SignalFate,
        answer: Option<Result<(), Seq<char>>>,
        now: nat,
    ) -> Option<Outcome> {
        if fate == SignalFate::OwnerGone {
            Some(Outcome::Cancelled("the request was abandoned"@))
        } else {
            self.poll_at(answer, now)
        }
    }

    /// A request made at `started_at` that may take `timeout` milliseconds.
    pub fn new(request_id: u64, started_at: u64, timeout: u64) -> (op: Self)
        ensures
            op == (PendingOperation { request_id, started_at, timeout }),
    {
        PendingOperation { request_id, started_at, timeout }
    }

    /// The time that has passed since the request was made.
    pub fn elapsed(&self, now: u64) -> (ms: u64)
        ensures
            ms == self.elapsed_at(now as nat),
    {
        if now >= self.started_at {
            now - self.started_at
        } else {
            0
        }
    }

    /// Tells whether the deadline has passed.
    pub fn expired(&self, now: u64) -> (r: bool)
        ensures
            r == self.expired_at(now as nat),
    {
        self.elapsed(now) > self.timeout
    }

    /// One look of the worker: `answer` is what the side channel held, `now`
    /// the time. Returns how the request ended, or `None` where the worker is
    /// to sleep and look again.
    pub fn poll(&self, answer: Option<Result<(), String>>, now: u64) -> (r: Option<Resolution>)
        ensures
            match r {
                Some(resolution) => self.poll_at(answer_text(answer), now as nat) == Some(
                    resolution@,
                ),
                None => self.poll_at(answer_text(answer), now as nat) is None,
            },
    {
        match answer {
            Some(Ok(())) => Some(Resolution::Success),
            Some(Err(text)) => Some(Resolution::ExternalError(text)),
            None => {
                if self.expired(now) {
                    Some(Resolution::Timeout)
                } else {
                    None
                }
            },
        }
    }

    /// One turn of the worker: `fate` is what became of the pump signal it
    /// just sent, `answer` what the side channel held, `now` the time. Where
    /// the owner is gone nobody waits for a result, and the worker ends as
    /// cancelled; otherwise the turn is decided as by [`Self::poll`], whether
    /// the signal was delivered or dropped.
    pub fn look(&self, fate: SignalFate, answer: Option<Result<(), String>>, now: u64) -> (r:
        Option<Resolution>)
        ensures
            match r {
                Some(resolution) => self.look_at(fate, answer_text(answer), now as nat) == Some(
                    resolution@,
                ),
                None => self.look_at(fate, answer_text(answer), now as nat) is None,
            },
    {
        match fate {
            SignalFate::OwnerGone => Some(Resolution::Cancelled("the request was abandoned".to_owned())),
            _ => self.poll(answer, now),
        }
    }
}

/// Where the owner's side of a request stands, over plain text.
pub enum Phase {
    Idle,
    Submitted,
    Polling,
    Servicing,
    Resolved(Outcome),
}

/// Where the owner's side of a request stands.
#[derive(Debug)]
pub enum BridgeState {
    /// Nothing has been asked of the service yet.
    Idle,
    /// The request is registered with the client; no worker waits yet.
    Submitted,
    /// The worker waits; the owner awaits a signal or the worker's end.
    Polling,
    /// The owner runs the servicing routine.
    Servicing,
    /// The request has ended.
    Resolved(Resolution),
}

impl View for BridgeState {
    type V = Phase;

    open spec fn view(&self) -> Phase {
        match self {
            BridgeState::Idle => Phase::Idle,
            BridgeState::Submitted => Phase::Submitted,
            BridgeState::Polling => Phase::Polling,
            BridgeState::Servicing => Phase::Servicing,
            BridgeState::Resolved(resolution) => Phase::Resolved(resolution@),
        }
    }
}

/// What happened, as the owner sees it, over plain text.
pub enum Signal {
    RequestSubmitted,
    WorkerStarted,
    PumpDue,
    Pumped(Result<(), Seq<char>>),
    WorkerFinished(Outcome),
    WorkerFailed(Seq<char>),
}

/// What happened, as the owner sees it.
#[derive(Debug)]
pub enum BridgeEvent {
    /// The request was registered with the client.
    RequestSubmitted,
    /// The worker was started.
    WorkerStarted,
    /// The worker signalled that a servicing pump is due.
    PumpDue,
    /// The servicing routine was run, or could not be run.
    Pumped(Result<(), String>),
    /// The worker ended with a result.
    WorkerFinished(Resolution),
    /// The worker ended without a result.
    WorkerFailed(String),
}

impl View for BridgeEvent {
    type V = Signal;

    open spec fn view(&self) -> Signal {
        match self {
            BridgeEvent::RequestSubmitted => Signal::RequestSubmitted,
            BridgeEvent::WorkerStarted => Signal::WorkerStarted,
            BridgeEvent::PumpDue => Signal::PumpDue,
            BridgeEvent::Pumped(Ok(())) => Signal::Pumped(Ok(())),
            BridgeEvent::Pumped(Err(text)) => Signal::Pumped(Err(text@)),
            BridgeEvent::WorkerFinished(resolution) => Signal::WorkerFinished(resolution@),
            BridgeEvent::WorkerFailed(text) => Signal::WorkerFailed(text@),
        }
    }
}

/// What the owner does next.
#[derive(Clone, Copy, Debug, PartialEq, Eq, Structural)]
pub enum BridgeAction {
    /// Start the worker, then report `WorkerStarted`.
    SpawnWorker,
    /// Await a pump signal or the worker's end, and report it.
    Await,
    /// Run the servicing routine once for this context, then report `Pumped`.
    RunCallbacks(u32),
    /// The request has ended: take the resolution.
    Finish,
    /// The event does not belong here; nothing has changed.
    Ignore,
}

/// The owner's step: the phase after an event and what to do next. An event
/// that the phase does not expect changes nothing, so a request that has
/// ended stays as it ended.
pub open spec fn transition(context_id: u32, phase: Phase, signal: Signal) -> (Phase, BridgeAction) {
    match (phase, signal) {
        (Phase::Idle, Signal::RequestSubmitted) => (Phase::Submitted, BridgeAction::SpawnWorker),
        (Phase::Submitted, Signal::WorkerStarted) => (Phase::Polling, BridgeAction::Await),
        (Phase::Polling, Signal::PumpDue) => (
            Phase::Servicing,
            BridgeAction::RunCallbacks(context_id),
        ),
        (Phase::Servicing, Signal::Pumped(Ok(()))) => (Phase::Polling, BridgeAction::Await),
        (Phase::Servicing, Signal::Pumped(Err(text))) => (
            Phase::Resolved(Outcome::Unavailable(text)),
            BridgeAction::Finish,
        ),
        (Phase::Polling, Signal::WorkerFinished(outcome)) => (
            Phase::Resolved(outcome),
            BridgeAction::Finish,
        ),
        (Phase::Polling, Signal::WorkerFailed(text)) => (
            Phase::Resolved(Outcome::Cancelled(text)),
            BridgeAction::Finish,
        ),
        (phase, _) => (phase, BridgeAction::Ignore),
    }
}

/// The owner's side of one request.
pub struct CallbackBridge {
    context_id: u32,
    state: BridgeState,
}

impl CallbackBridge {
    /// The context whose client serves the request.
    pub closed spec fn context(&self) -> u32 {
        self.context_id
    }

    /// Where the request stands.
    pub closed spec fn phase(&self) -> Phase {
        self.state@
    }

    /// A bridge for a request to the client of `context_id`. The caller
    /// registers the request with the client and reports `RequestSubmitted`.
    pub fn new(context_id: u32) -> (bridge: Self)
        ensures
            bridge.context() == context_id,
            bridge.phase() == Phase::Idle,
    {
        CallbackBridge { context_id, state: BridgeState::Idle }
    }

    /// The context whose client serves the request.
    pub fn context_id(&self) -> (id: u32)
        ensures
            id == self.context(),
    {
        self.context_id
    }

    /// Where the request stands.
    pub fn state(&self) -> (state: &BridgeState)
        ensures
            state@ == self.phase(),
    {
        &self.state
    }

    /// Tells whether the request has ended.
    pub fn is_resolved(&self) -> (r: bool)
        ensures
            r == (self.phase() is Resolved),
    {
        match &self.state {
            BridgeState::Resolved(_) => true,
            _ => false,
        }
    }

    /// How the request ended, once it has.
    pub fn resolution(&self) -> (r: Option<&Resolution>)
        ensures
            match r {
                Some(resolution) => self.phase() == Phase::Resolved(resolution@),
                None => !(self.phase() is Resolved),
            },
    {
        match &self.state {
            BridgeState::Resolved(resolution) => Some(resolution),
            _ => None,
        }
    }

    /// Takes an event and says what to do next.
    pub fn advance(&mut self, event: BridgeEvent) -> (action: BridgeAction)
        ensures
            final(self).context() == old(self).context(),
            (final(self).phase(), action) == transition(
                old(self).context(),
                old(self).phase(),
                event@,
            ),
    {
        let context_id = self.context_id;
        let next = match (&self.state, event) {
            (BridgeState::Idle, BridgeEvent::RequestSubmitted) => Some(
                (BridgeState::Submitted, BridgeAction::SpawnWorker),
            ),
            (BridgeState::Submitted, BridgeEvent::WorkerStarted) => Some(
                (BridgeState::Polling, BridgeAction::Await),
            ),
            (BridgeState::Polling, BridgeEvent::PumpDue) => Some(
                (BridgeState::Servicing, BridgeAction::RunCallbacks(context_id)),
            ),
            (BridgeState::Servicing, BridgeEvent::Pumped(Ok(()))) => Some(
                (BridgeState::Polling, BridgeAction::Await),
            ),
            (BridgeState::Servicing, BridgeEvent::Pumped(Err(text))) => Some(
                (BridgeState::Resolved(Resolution::Unavailable(text)), BridgeAction::Finish),
            ),
            (BridgeState::Polling, BridgeEvent::WorkerFinished(resolution)) => Some(
                (BridgeState::Resolved(resolution), BridgeAction::Finish),
            ),
            (BridgeState::Polling, BridgeEvent::WorkerFailed(text)) => Some(
                (BridgeState::Resolved(Resolution::Cancelled(text)), BridgeAction::Finish),
            ),
            _ => None,
        };
        match next {
            Some((state, action)) => {
                self.state = state;
                action
            },
            None => BridgeAction::Ignore,
        }
    }
}

/// A request ends once: after it has ended no event changes how it ended.
pub proof fn lemma_resolves_once(context_id: u32, outcome: Outcome, signal: Signal)
    ensures
        transition(context_id, Phase::Resolved(outcome), signal) == (
            Phase::Resolved(outcome),
            BridgeAction::Ignore,
        ),
{
}

/// A client of the service as the bridge sees it: it answers with `answer`
/// once its servicing routine has run `needed` times, and never where
/// `needed` is `None`.
pub struct ClientModel {
    pub needed: Option<nat>,
    pub answer: Result<(), Seq<char>>,
}

/// What the side channel holds after `pumps` runs of the servicing routine.
pub open spec fn answer_after(client: ClientModel, pumps: nat) -> Option<Result<(), Seq<char>>> {
    match client.needed {
        Some(n) => if pumps >= n {
            Some(client.answer)
        } else {
            None
        },
        None => None,
    }
}

/// How a drive of the bridge ended: the owner's phase, how often the
/// servicing routine was run, and the time.
pub struct Run {
    pub phase: Phase,
    pub pumps: nat,
    pub ended_at: nat,
}

/// The looks that are left at most before the deadline has passed.
pub open spec fn looks_left(op: PendingOperation, now: nat) -> nat {
    if now <= op.started_at + op.timeout {
        (op.started_at + op.timeout + 1 - now) as nat
    } else {
        0
    }
}

/// The bridge driven in turns against a client, from a look of the worker at
/// time `now` after `pumps` runs of the servicing routine. In each turn the
/// worker signals and looks. Where that ends the request, the owner takes the
/// worker's result. Otherwise the worker sleeps for `interval`, and meanwhile
/// the owner takes the signal and runs the servicing routine as often as its
/// step asks for, which is once.
pub open spec fn drive(
    context_id: u32,
    phase: Phase,
    op: PendingOperation,
    client: ClientModel,
    interval: nat,
    pumps: nat,
    now: nat,
) -> Run
    decreases looks_left(op, now),
{
    match op.look_at(SignalFate::Delivered, answer_after(client, pumps), now) {
        Some(outcome) => Run {
            phase: transition(context_id, phase, Signal::WorkerFinished(outcome)).0,
            pumps,
            ended_at: now,
        },
        None => if interval == 0 {
            Run { phase, pumps, ended_at: now }
        } else {
            let (serving, action) = transition(context_id, phase, Signal::PumpDue);
            let served: nat = if action == BridgeAction::RunCallbacks(context_id) {
                1
            } else {
                0
            };
            let (waiting, _) = transition(context_id, serving, Signal::Pumped(Ok(())));
            drive(context_id, waiting, op, client, interval, pumps + served, now + interval)
        },
    }
}

/// Termination: driven with a worker that sleeps for a positive interval, the
/// bridge ends for every request and every client, and no later than one
/// interval after the deadline. It ends with the client's answer, which the
/// client had given by then, or with a timeout, and then the deadline has
/// passed and the client had not answered. A client that never answers gives
/// a timeout.
pub proof fn lemma_bridge_terminates(
    context_id: u32,
    op: PendingOperation,
    client: ClientModel,
    interval: nat,
    pumps: nat,
    now: nat,
)
    requires
        interval > 0,
    ensures
        ({
            let run = drive(context_id, Phase::Polling, op, client, interval, pumps, now);
            &&& run.phase is Resolved
            &&& run.phase->Resolved_0 == Outcome::Timeout ==> op.expired_at(run.ended_at)
                && answer_after(client, run.pumps) is None
            &&& run.phase->Resolved_0 != Outcome::Timeout ==> answer_after(client, run.pumps)
                == Some(client.answer) && run.phase->Resolved_0 == answered(client.answer)
            &&& client.needed is None ==> run.phase->Resolved_0 == Outcome::Timeout
            &&& run.ended_at == now || run.ended_at <= op.started_at + op.timeout + interval
            &&& run.pumps >= pumps
        }),
    decreases looks_left(op, now),
{
    if op.poll_at(answer_after(client, pumps), now) is None {
        lemma_bridge_terminates(context_id, op, client, interval, pumps + 1, now + interval);
    }
}

/// No deadlock and no pump too many: against a client that answers after `n`
/// runs of its servicing routine, the bridge ends with the client's answer
/// after exactly `n` runs, provided the deadline does not pass before the
/// last of them. With `n` zero it ends at the first look, without a run.
pub proof fn lemma_completes_after_exact_pumps(
    context_id: u32,
    op: PendingOperation,
    client: ClientModel,
    interval: nat,
    pumps: nat,
    now: nat,
)
    requires
        interval > 0,
        client.needed matches Some(n) && pumps <= n && (pumps < n ==> op.elapsed_at(now) + (n
            - pumps - 1) * interval <= op.timeout),
    ensures
        drive(context_id, Phase::Polling, op, client, interval, pumps, now) == (Run {
            phase: Phase::Resolved(answered(client.answer)),
            pumps: client.needed->0,
            ended_at: (now + (client.needed->0 - pumps) * interval) as nat,
        }),
    decreases client.needed->0 - pumps,
{
    let n = client.needed->0;
    if pumps < n {
        let left = n - pumps - 1;
        assert(left * interval >= 0) by (nonlinear_arith)
            requires
                left >= 0,
                interval > 0,
        ;
        assert((left + 1) * interval == left * interval + interval) by (nonlinear_arith);
        assert(!op.expired_at(now));
        if pumps + 1 < n {
            assert(left * interval == (left - 1) * interval + interval) by (nonlinear_arith);
            assert(op.elapsed_at(now + interval) <= op.elapsed_at(now) + interval);
        }
        lemma_completes_after_exact_pumps(
            context_id,
            op,
            client,
            interval,
            pumps + 1,
            now + interval,
        );
    } else {
        assert((n - pumps) * interval == 0) by (nonlinear_arith)
            requires
                n - pumps == 0,
        ;
    }
}

} // verus!

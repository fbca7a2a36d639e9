//! The actor's command queue: a bounded first-in first-out queue of waiting commands,
//! the command that runs, and cancellation and shutdown of both.
use vstd::prelude::*;

use super::cancel::{reason_error, CancellationReason, CommandCancellation};
use super::error::{BrowserError, ErrorView, COMMAND_QUEUE_CAPACITY};

verus! {

/// The identifier of a client request.
pub enum RequestKey {
    Number(i64),
    Text(String),
}

/// The mathematical form of a [`RequestKey`].
pub enum KeyView {
    Number(i64),
    Text(Seq<char>),
}

impl View for RequestKey {
    type V = KeyView;

    open spec fn view(&self) -> KeyView {
        match self {
            RequestKey::Number(n) => KeyView::Number(*n),
            RequestKey::Text(s) => KeyView::Text(s@),
        }
    }
}

impl RequestKey {
    /// Whether two identifiers name the same request.
    pub fn same(&self, other: &RequestKey) -> (r: bool)
        ensures
            r == (self@ == other@),
    {
        match (self, other) {
            (RequestKey::Number(a), RequestKey::Number(b)) => *a == *b,
            (RequestKey::Text(a), RequestKey::Text(b)) => *a == *b,
            _ => false,
        }
    }

    /// A copy of this identifier.
    pub fn duplicate(&self) -> (k: RequestKey)
        ensures
            k@ == self@,
    {
        match self {
            RequestKey::Number(n) => RequestKey::Number(*n),
            RequestKey::Text(s) => RequestKey::Text(s.clone()),
        }
    }
}

/// A command waiting in the queue, with whatever the caller attached to it.
pub struct Waiting<T> {
    pub key: RequestKey,
    pub timeout_ms: u64,
    pub payload: T,
}

/// The command that runs.
pub struct Running {
    pub key: RequestKey,
    pub timeout_ms: u64,
    pub cancellation: CommandCancellation,
}

/// The mathematical form of a waiting command.
pub struct WaitingView<T> {
    pub key: KeyView,
    pub timeout_ms: u64,
    pub payload: T,
}

/// The mathematical form of the running command.
pub struct RunningView {
    pub key: KeyView,
    pub timeout_ms: u64,
    pub reason: CancellationReason,
}

/// The mathematical form of the queue.
pub struct QueueState<T> {
    pub waiting: Seq<WaitingView<T>>,
    pub running: Option<RunningView>,
    pub closed: bool,
}

pub open spec fn waiting_view<T>(w: Waiting<T>) -> WaitingView<T> {
    WaitingView { key: w.key@, timeout_ms: w.timeout_ms, payload: w.payload }
}

pub open spec fn running_view(r: Running) -> RunningView {
    RunningView { key: r.key@, timeout_ms: r.timeout_ms, reason: r.cancellation.reason }
}

/// The first position of `key` among the waiting commands, if it waits.
pub open spec fn waiting_index<T>(waiting: Seq<WaitingView<T>>, key: KeyView) -> Option<int>
    decreases waiting.len(),
{
    if waiting.len() == 0 {
        None
    } else {
        match waiting_index(waiting.drop_last(), key) {
            Some(i) => Some(i),
            None => if waiting.last().key == key {
                Some(waiting.len() - 1)
            } else {
                None
            },
        }
    }
}

/// `waiting_index` finds the first waiting command with the key, or says that none has it.
pub proof fn lemma_waiting_index<T>(waiting: Seq<WaitingView<T>>, key: KeyView)
    ensures
        waiting_index(waiting, key) matches Some(i) ==> 0 <= i < waiting.len() && waiting[i].key
            == key && forall|j: int| 0 <= j < i ==> waiting[j].key != key,
        waiting_index(waiting, key) is None ==> forall|j: int|
            0 <= j < waiting.len() ==> waiting[j].key != key,
    decreases waiting.len(),
{
    if waiting.len() > 0 {
        let p = waiting.drop_last();
        lemma_waiting_index(p, key);
        assert forall|j: int| 0 <= j < p.len() implies p[j] == waiting[j] by {}
    }
}

/// What a cancellation of `key` reaches in queue state `q`.
pub enum CancelTarget {
    /// The waiting command at this position.
    Waiting(int),
    /// The running command.
    Running,
    /// Nothing: no command with that key waits or runs.
    Nothing,
}

pub open spec fn cancel_target<T>(q: QueueState<T>, key: KeyView) -> CancelTarget {
    match waiting_index(q.waiting, key) {
        Some(i) => CancelTarget::Waiting(i),
        None => match q.running {
            Some(r) => if r.key == key {
                CancelTarget::Running
            } else {
                CancelTarget::Nothing
            },
            None => CancelTarget::Nothing,
        },
    }
}

/// The answer that a waiting command removed by a cancellation for `reason` receives.
pub open spec fn removal_error(reason: CancellationReason, timeout_ms: u64) -> ErrorView {
    match reason_error(reason, timeout_ms) {
        Some(e) => e,
        None => ErrorView::Cancelled,
    }
}

/// What the actor does next.
pub enum NextStep<T> {
    /// Run this command; it is now the running one.
    Run { key: RequestKey, timeout_ms: u64, payload: T },
    /// Nothing waits: wait for a submission or a shutdown.
    Wait,
    /// The queue is closed and empty: stop.
    Stop,
}

/// The outcome of a cancellation request.
pub enum CancelOutcome<T> {
    /// A waiting command was taken out of the queue; the caller answers it with `error`.
    Removed { payload: T, error: BrowserError },
    /// The running command was asked to stop; whether the cancellation took effect.
    Running(bool),
    /// No command with that key waits or runs.
    Nothing,
}

impl<T> CancelOutcome<T> {
    /// Whether the cancellation reached a command and took effect.
    pub fn accepted(&self) -> (r: bool)
        ensures
            r == (match self {
                CancelOutcome::Removed { .. } => true,
                CancelOutcome::Running(b) => *b,
                CancelOutcome::Nothing => false,
            }),
    {
        match self {
            CancelOutcome::Removed { .. } => true,
            CancelOutcome::Running(b) => *b,
            CancelOutcome::Nothing => false,
        }
    }
}

/// The actor's queue of commands.
pub struct ActorQueue<T> {
    waiting: std::collections::VecDeque<Waiting<T>>,
    running: Option<Running>,
    closed: bool,
}

impl<T> View for ActorQueue<T> {
    type V = QueueState<T>;

    closed spec fn view(&self) -> QueueState<T> {
        QueueState {
            waiting: self.waiting@.map_values(|w: Waiting<T>| waiting_view(w)),
            running: match self.running {
                Some(r) => Some(running_view(r)),
                None => None,
            },
            closed: self.closed,
        }
    }
}

impl<T> ActorQueue<T> {
    /// The queue's invariant: no more commands wait than the capacity allows.
    pub open spec fn wf(&self) -> bool {
        self@.waiting.len() <= COMMAND_QUEUE_CAPACITY
    }

    /// An open queue with nothing waiting or running.
    pub fn new() -> (q: ActorQueue<T>)
        ensures
            q.wf(),
            q@.waiting.len() == 0,
            q@.running is None,
            !q@.closed,
    {
        let q = ActorQueue {
            waiting: std::collections::VecDeque::new(),
            running: None,
            closed: false,
        };
        assert(q@.waiting =~= Seq::<WaitingView<T>>::empty());
        q
    }

    /// How many commands wait; never more than the capacity.
    pub fn queued_len(&self) -> (n: usize)
        requires
            self.wf(),
        ensures
            n == self@.waiting.len(),
            n <= COMMAND_QUEUE_CAPACITY,
    {
        self.waiting.len()
    }

    /// Whether the queue has been shut down.
    pub fn is_closed(&self) -> (r: bool)
        ensures
            r == self@.closed,
    {
        self.closed
    }

    /// Adds a command at the back of the queue. A closed queue answers `Stopped` and a
    /// full one `Busy`; neither changes.
    pub fn submit(&mut self, key: RequestKey, timeout_ms: u64, payload: T) -> (r: Result<
        (),
        BrowserError,
    >)
        requires
            old(self).wf(),
        ensures
            final(self).wf(),
            old(self)@.closed ==> (r matches Err(e) && e@ == ErrorView::Stopped),
            !old(self)@.closed && old(self)@.waiting.len() >= COMMAND_QUEUE_CAPACITY ==> (r matches Err(
                e,
            ) && e@ == ErrorView::Busy),
            r is Err ==> final(self)@ == old(self)@,
            r is Ok <==> !old(self)@.closed && old(self)@.waiting.len() < COMMAND_QUEUE_CAPACITY,
            r is Ok ==> final(self)@ == (QueueState {
                waiting: old(self)@.waiting.push(
                    WaitingView { key: key@, timeout_ms, payload },
                ),
                ..old(self)@
            }),
    {
        if self.closed {
            return Err(BrowserError::Stopped);
        }
        if self.waiting.len() >= COMMAND_QUEUE_CAPACITY {
            return Err(BrowserError::Busy);
        }
        let ghost before = self.waiting@;
        self.waiting.push_back(Waiting { key, timeout_ms, payload });
        assert(self@.waiting =~= old(self)@.waiting.push(
            WaitingView { key: key@, timeout_ms, payload },
        ));
        Ok(())
    }

    /// Takes the oldest waiting command and makes it the running one, with a fresh
    /// cancellation state; or says to wait, or to stop once the queue is closed and empty.
    pub fn next(&mut self) -> (step: NextStep<T>)
        requires
            old(self).wf(),
        ensures
            final(self).wf(),
            old(self)@.waiting.len() > 0 ==> (step matches NextStep::Run { key, timeout_ms, payload }
                && key@ == old(self)@.waiting[0].key && timeout_ms == old(self)@.waiting[0].timeout_ms
                && payload == old(self)@.waiting[0].payload && final(self)@ == (QueueState {
                waiting: old(self)@.waiting.subrange(1, old(self)@.waiting.len() as int),
                running: Some(
                    RunningView {
                        key: key@,
                        timeout_ms,
                        reason: CancellationReason::Active,
                    },
                ),
                closed: old(self)@.closed,
            })),
            old(self)@.waiting.len() == 0 ==> final(self)@ == old(self)@ && (if old(self)@.closed {
                step is Stop
            } else {
                step is Wait
            }),
    {
        match self.waiting.pop_front() {
            Some(w) => {
                let Waiting { key, timeout_ms, payload } = w;
                self.running = Some(
                    Running { key: key.duplicate(), timeout_ms, cancellation: CommandCancellation::new() },
                );
                assert(self@.waiting =~= old(self)@.waiting.subrange(
                    1,
                    old(self)@.waiting.len() as int,
                ));
                NextStep::Run { key, timeout_ms, payload }
            },
            None => {
                if self.closed {
                    NextStep::Stop
                } else {
                    NextStep::Wait
                }
            },
        }
    }

    /// The cancellation reason of the running command (`Active` when none runs).
    pub fn running_reason(&self) -> (r: CancellationReason)
        ensures
            r == (match self@.running {
                Some(x) => x.reason,
                None => CancellationReason::Active,
            }),
    {
        match &self.running {
            Some(r) => r.cancellation.reason(),
            None => CancellationReason::Active,
        }
    }

    /// Finishes the running command `key` with `result`. Unless the engine committed a
    /// physical action for it (`committed`), a command that was cancelled ends with its
    /// cancellation error in place of its result; a committed command keeps its result.
    pub fn complete<O>(&mut self, key: &RequestKey, committed: bool, result: Result<
        O,
        BrowserError,
    >) -> (r: Result<O, BrowserError>)
        requires
            old(self).wf(),
        ensures
            final(self).wf(),
            ({
                let matched = old(self)@.running matches Some(x) && x.key == key@;
                &&& matched ==> final(self)@ == (QueueState { running: None, ..old(self)@ })
                &&& !matched ==> final(self)@ == old(self)@
                &&& (committed || !matched || old(self)@.running->0.reason
                    == CancellationReason::Active) ==> r == result
                &&& (!committed && matched && old(self)@.running->0.reason
                    != CancellationReason::Active) ==> (r matches Err(e) && Some(e@) == reason_error(
                    old(self)@.running->0.reason,
                    old(self)@.running->0.timeout_ms,
                ))
            }),
    {
        let mut taken: Option<Running> = None;
        if let Some(r) = &self.running {
            if r.key.same(key) {
                taken = self.running.take();
            }
        }
        match taken {
            Some(r) => {
                if committed {
                    result
                } else {
                    match r.cancellation.reason().error(r.timeout_ms) {
                        Some(e) => Err(e),
                        None => result,
                    }
                }
            },
            None => result,
        }
    }

    /// Cancels the command `key` for `reason`. A waiting command is taken out of the
    /// queue at once and handed back with the error to answer it with; the running
    /// command is asked to stop (see [`CommandCancellation::cancel`]); any other key is
    /// left alone.
    pub fn cancel<F: FnOnce() -> bool>(
        &mut self,
        key: &RequestKey,
        reason: CancellationReason,
        committed: bool,
        stop_engine: F,
    ) -> (outcome: CancelOutcome<T>)
        requires
            old(self).wf(),
            stop_engine.requires(()),
        ensures
            final(self).wf(),
            match cancel_target(old(self)@, key@) {
                CancelTarget::Waiting(i) => outcome matches CancelOutcome::Removed { payload, error }
                    && payload == old(self)@.waiting[i].payload && error@ == removal_error(
                    reason,
                    old(self)@.waiting[i].timeout_ms,
                ) && final(self)@ == (QueueState {
                    waiting: old(self)@.waiting.remove(i),
                    ..old(self)@
                }),
                CancelTarget::Running => outcome matches CancelOutcome::Running(accepted) && ({
                    let x = old(self)@.running->0;
                    &&& final(self)@.waiting == old(self)@.waiting
                    &&& final(self)@.closed == old(self)@.closed
                    &&& accepted ==> x.reason == CancellationReason::Active && !committed
                        && stop_engine.ensures((), true) && final(self)@.running == Some(
                        RunningView { reason, ..x },
                    )
                    &&& !accepted ==> final(self)@ == old(self)@
                    &&& !accepted && x.reason == CancellationReason::Active && !committed
                        ==> stop_engine.ensures((), false)
                }),
                CancelTarget::Nothing => outcome is Nothing && final(self)@ == old(self)@,
            },
    {
        proof {
            lemma_waiting_index(old(self)@.waiting, key@);
        }
        let ghost wv = self@.waiting;
        let mut i: usize = 0;
        while i < self.waiting.len()
            invariant
                i <= self.waiting@.len(),
                *self == *old(self),
                old(self).wf(),
                wv == self@.waiting,
                wv.len() == self.waiting@.len(),
                forall|j: int| 0 <= j < self.waiting@.len() ==> #[trigger] wv[j] == waiting_view(self.waiting@[j]),
                forall|j: int| 0 <= j < i ==> wv[j].key != key@,
            decreases self.waiting.len() - i,
        {
            if self.waiting[i].key.same(key) {
                assert(wv[i as int].key == key@);
                assert(waiting_index(wv, key@) == Some(i as int)) by {
                    lemma_waiting_index(wv, key@);
                    match waiting_index(wv, key@) {
                        Some(k) => {
                            if k < i {
                                assert(wv[k].key != key@);
                            } else if k > i {
                                assert(wv[i as int].key != key@);
                            }
                        },
                        None => {
                            assert(wv[i as int].key != key@);
                        },
                    }
                }
                let removed = self.waiting.remove(i);
                match removed {
                    Some(w) => {
                        assert(waiting_view(w) == wv[i as int]);
                        // A waiting command has not reached the engine, so nothing can refuse
                        // its cancellation.
                        let error = match reason.error(w.timeout_ms) {
                            Some(e) => e,
                            None => BrowserError::Cancelled,
                        };
                        assert(self@.waiting =~= old(self)@.waiting.remove(i as int));
                        assert(self@.waiting.len() == old(self)@.waiting.len() - 1);
                        return CancelOutcome::Removed { payload: w.payload, error };
                    },
                    None => {
                        assert(false);
                        return CancelOutcome::Nothing;
                    },
                }
            }
            i = i + 1;
        }
        let mut matched = false;
        if let Some(r) = &self.running {
            matched = r.key.same(key);
        }
        if matched {
            match &mut self.running {
                Some(r) => {
                    let accepted = r.cancellation.cancel(reason, committed, stop_engine);
                    CancelOutcome::Running(accepted)
                },
                None => CancelOutcome::Nothing,
            }
        } else {
            CancelOutcome::Nothing
        }
    }

    /// Closes the queue: the running command is cancelled (as [`Self::cancel`] would) and
    /// every waiting command is taken out and handed back, oldest first, to be answered
    /// `Stopped`.
    pub fn shutdown<F: FnOnce() -> bool>(&mut self, committed: bool, stop_engine: F) -> (drained:
        Vec<T>)
        requires
            old(self).wf(),
            stop_engine.requires(()),
        ensures
            final(self).wf(),
            final(self)@.closed,
            final(self)@.waiting.len() == 0,
            drained@ == old(self)@.waiting.map_values(|w: WaitingView<T>| w.payload),
            old(self)@.running is None ==> final(self)@.running is None,
            old(self)@.running matches Some(x) ==> (final(self)@.running matches Some(y) && y.key
                == x.key && y.timeout_ms == x.timeout_ms && (y.reason == x.reason || (x.reason
                == CancellationReason::Active && !committed && y.reason
                == CancellationReason::Cancelled))),
            old(self)@.running is Some && final(self)@.running->0.reason != old(
                self,
            )@.running->0.reason ==> old(self)@.running->0.reason == CancellationReason::Active
                && !committed && stop_engine.ensures((), true) && final(self)@.running->0.reason
                == CancellationReason::Cancelled,
            old(self)@.running is Some && old(self)@.running->0.reason
                == CancellationReason::Active && !committed && final(self)@.running->0.reason
                == CancellationReason::Active ==> stop_engine.ensures((), false),
    {
        self.closed = true;
        match &mut self.running {
            Some(r) => {
                let _ = r.cancellation.cancel(CancellationReason::Cancelled, committed, stop_engine);
            },
            None => {},
        }
        let ghost original = old(self)@.waiting;
        let ghost running_after = self@.running;
        let mut drained: Vec<T> = Vec::new();
        while self.waiting.len() > 0
            invariant
                self.closed,
                self@.running == running_after,
                drained@.len() + self.waiting@.len() == original.len(),
                forall|j: int| 0 <= j < drained@.len() ==> drained@[j] == #[trigger] original[j].payload,
                forall|j: int| 0 <= j < self.waiting@.len() ==> waiting_view(#[trigger] self.waiting@[j]) == original[j + drained@.len()],
            decreases self.waiting@.len(),
        {
            match self.waiting.pop_front() {
                Some(w) => {
                    drained.push(w.payload);
                },
                None => {},
            }
        }
        assert(drained@ =~= original.map_values(|w: WaitingView<T>| w.payload));
        assert(self@.waiting =~= Seq::<WaitingView<T>>::empty());
        drained
    }
}


/// Cancelling a command after it completed does nothing: once the running command with
/// `key` has been completed, and no other command with that key waits, a cancellation
/// of `key` reaches nothing.
pub proof fn law_cancel_after_complete_is_noop<T>(q: QueueState<T>, key: KeyView)
    requires
        q.running matches Some(x) && x.key == key,
        waiting_index(q.waiting, key) is None,
    ensures
        cancel_target(QueueState { running: None, ..q }, key) is Nothing,
{
}

/// A waiting command that is cancelled is answered `Cancelled`; one whose deadline
/// passed is answered with a timeout that names its own timeout.
pub proof fn law_waiting_cancellation_answer(timeout_ms: u64)
    ensures
        removal_error(CancellationReason::Cancelled, timeout_ms) == ErrorView::Cancelled,
        removal_error(CancellationReason::Deadline, timeout_ms) == ErrorView::Timeout(timeout_ms),
{
}

/// Cancelling a waiting command frees its place: after it, a full queue has room again.
pub proof fn law_cancel_frees_a_place<T>(q: QueueState<T>, i: int)
    requires
        q.waiting.len() <= COMMAND_QUEUE_CAPACITY,
        0 <= i < q.waiting.len(),
    ensures
        q.waiting.remove(i).len() < COMMAND_QUEUE_CAPACITY,
{
}

} // verus!

//! The decisions of a child process wrapper: how its reader stages what it
//! received until the shared queue takes it, and how the wrapper takes its
//! child down.

use vstd::prelude::*;

verus! {

/// The period of the reader's loop, and its budget for taking the lock, for a
/// receive and for a send to the queue, in milliseconds.
pub const FETCH_TICK_MILLIS: u64 = 16;

/// The capacity of the shared inbound queue.
pub const SHARED_QUEUE_CAPACITY: usize = 100;

/// How the reader's attempt to receive one envelope ended.
#[derive(Debug)]
pub enum RecvOutcome<T> {
    /// The endpoint's lock was not free in time.
    LockTimedOut,
    /// Nothing arrived in time.
    RecvTimedOut,
    /// The receive failed; what was in flight is lost.
    Failed,
    Received(T),
}

/// How the reader's attempt to hand the oldest staged envelope to the shared
/// queue ended.
#[derive(Clone, Copy, Debug, PartialEq, Eq, Structural)]
pub enum SendOutcome {
    Sent,
    /// The queue stayed full for the whole budget.
    TimedOut,
    /// The consumer is gone.
    Closed,
}

#[derive(Clone, Copy, Debug, PartialEq, Eq, Structural)]
pub enum LoopControl {
    Continue,
    Exit,
}

/// What is staged after a receive: a received envelope goes to the back,
/// anything else changes nothing.
pub open spec fn staged_after_recv<T>(staged: Seq<T>, outcome: RecvOutcome<T>) -> Seq<T> {
    match outcome {
        RecvOutcome::Received(x) => staged.push(x),
        _ => staged,
    }
}

/// What is staged after an attempt to send the oldest envelope: it leaves
/// only when the queue took it.
pub open spec fn staged_after_send<T>(staged: Seq<T>, outcome: SendOutcome) -> Seq<T> {
    if staged.len() > 0 && outcome == SendOutcome::Sent {
        staged.drop_first()
    } else {
        staged
    }
}

/// What an attempt to send put on the queue.
pub open spec fn delivered_by_send<T>(staged: Seq<T>, outcome: SendOutcome) -> Seq<T> {
    if staged.len() > 0 && outcome == SendOutcome::Sent {
        seq![staged[0]]
    } else {
        Seq::empty()
    }
}

/// The envelopes that the reader has received and not yet handed on, oldest
/// first.
#[derive(Debug)]
pub struct FetchBuffer<T> {
    staged: Vec<T>,
}

impl<T> View for FetchBuffer<T> {
    type V = Seq<T>;

    closed spec fn view(&self) -> Seq<T> {
        self.staged@
    }
}

impl<T> FetchBuffer<T> {
    pub fn new() -> (r: FetchBuffer<T>)
        ensures
            r@ == Seq::<T>::empty(),
    {
        FetchBuffer { staged: Vec::new() }
    }

    pub fn len(&self) -> (r: usize)
        ensures
            r == self@.len(),
    {
        self.staged.len()
    }

    /// Takes in the outcome of a receive.
    pub fn stage(&mut self, outcome: RecvOutcome<T>)
        ensures
            final(self)@ == staged_after_recv(old(self)@, outcome),
    {
        match outcome {
            RecvOutcome::Received(x) => {
                self.staged.push(x);
            },
            _ => {},
        }
    }

    /// The envelope to offer to the queue next: the oldest one staged.
    pub fn head(&self) -> (r: Option<&T>)
        ensures
            match r {
                Some(x) => self@.len() > 0 && *x == self@[0],
                None => self@.len() == 0,
            },
    {
        if self.staged.len() > 0 {
            Some(&self.staged[0])
        } else {
            None
        }
    }

    /// Takes in the outcome of offering the head to the queue, and says
    /// whether the reader goes on. A full queue keeps the envelope staged; a
    /// closed queue ends the reader.
    pub fn settle(&mut self, outcome: SendOutcome) -> (r: LoopControl)
        ensures
            final(self)@ == staged_after_send(old(self)@, outcome),
            r == if outcome == SendOutcome::Closed {
                LoopControl::Exit
            } else {
                LoopControl::Continue
            },
    {
        match outcome {
            SendOutcome::Sent => {
                if self.staged.len() > 0 {
                    self.staged.remove(0);
                    proof {
                        assert(final(self)@ =~= old(self)@.drop_first());
                    }
                }
                LoopControl::Continue
            },
            SendOutcome::TimedOut => LoopControl::Continue,
            SendOutcome::Closed => LoopControl::Exit,
        }
    }
}

/// One thing that happened in the reader's loop.
pub enum FetchEvent<T> {
    Recv(RecvOutcome<T>),
    Send(SendOutcome),
}

/// The history of a reader: what it received, what it put on the queue, and
/// what it holds.
pub struct FetchHistory<T> {
    pub received: Seq<T>,
    pub delivered: Seq<T>,
    pub staged: Seq<T>,
}

impl<T> FetchHistory<T> {
    pub open spec fn start() -> FetchHistory<T> {
        FetchHistory { received: Seq::empty(), delivered: Seq::empty(), staged: Seq::empty() }
    }

    pub open spec fn after(self, event: FetchEvent<T>) -> FetchHistory<T> {
        match event {
            FetchEvent::Recv(outcome) => FetchHistory {
                received: staged_after_recv(self.received, outcome),
                delivered: self.delivered,
                staged: staged_after_recv(self.staged, outcome),
            },
            FetchEvent::Send(outcome) => FetchHistory {
                received: self.received,
                delivered: self.delivered + delivered_by_send(self.staged, outcome),
                staged: staged_after_send(self.staged, outcome),
            },
        }
    }

    pub open spec fn after_all(self, events: Seq<FetchEvent<T>>) -> FetchHistory<T>
        decreases events.len(),
    {
        if events.len() == 0 {
            self
        } else {
            self.after(events[0]).after_all(events.drop_first())
        }
    }

    /// Nothing is lost, repeated or reordered: what was delivered, followed
    /// by what is staged, is what was received.
    pub open spec fn in_order(self) -> bool {
        self.delivered + self.staged == self.received
    }

    /// One event keeps the order.
    pub proof fn lemma_step_in_order(self, event: FetchEvent<T>)
        requires
            self.in_order(),
        ensures
            self.after(event).in_order(),
    {
        let next = self.after(event);
        match event {
            FetchEvent::Recv(RecvOutcome::Received(x)) => {
                assert(next.delivered + next.staged =~= (self.delivered + self.staged).push(x));
            },
            FetchEvent::Recv(_) => {},
            FetchEvent::Send(outcome) => {
                assert(next.delivered + next.staged =~= self.delivered + self.staged);
            },
        }
    }

    /// Whatever happens in the loop, and however the queue and the endpoint
    /// behave, the envelopes of one plugin reach the queue in the order in
    /// which they were received, each at most once, and those not yet
    /// delivered are still staged.
    pub proof fn lemma_run_in_order(self, events: Seq<FetchEvent<T>>)
        requires
            self.in_order(),
        ensures
            self.after_all(events).in_order(),
            self.after_all(events).delivered.is_prefix_of(self.after_all(events).received),
        decreases events.len(),
    {
        if events.len() > 0 {
            self.lemma_step_in_order(events[0]);
            self.after(events[0]).lemma_run_in_order(events.drop_first());
        }
        let end = self.after_all(events);
        assert(end.delivered =~= (end.delivered + end.staged).subrange(0, end.delivered.len() as int));
    }

    /// A send that finds the queue full or closed drops nothing.
    pub proof fn lemma_full_queue_keeps(self, outcome: SendOutcome)
        requires
            outcome != SendOutcome::Sent,
        ensures
            self.after(FetchEvent::Send(outcome)).staged == self.staged,
            self.after(FetchEvent::Send(outcome)).delivered == self.delivered,
    {
        assert(self.delivered + Seq::<T>::empty() =~= self.delivered);
    }
}

/// What a non-blocking look at the child showed.
#[derive(Clone, Copy, Debug, PartialEq, Eq, Structural)]
pub enum ChildStatus {
    /// The child has exited already.
    Exited,
    Running,
    /// The look itself failed.
    Unknown,
}

/// How the child was left behind.
#[derive(Clone, Copy, Debug, PartialEq, Eq, Structural)]
pub enum ChildEnd {
    ExitedEarly,
    StatusUnknown,
    KillFailed,
    ReapFailed,
    Reaped,
}

/// How far the teardown of a child wrapper has come.
#[derive(Clone, Copy, Debug, PartialEq, Eq, Structural)]
pub enum Teardown {
    Live,
    ReaderAborted,
    ChildRunning,
    ChildKilled,
    Finished(ChildEnd),
}

/// The next thing to do in a teardown.
#[derive(Clone, Copy, Debug, PartialEq, Eq, Structural)]
pub enum TeardownAction {
    AbortReader,
    CheckStatus,
    Kill,
    Reap,
    Done,
}

/// What came of the last action.
#[derive(Clone, Copy, Debug, PartialEq, Eq, Structural)]
pub enum TeardownEvent {
    ReaderAborted,
    Status(ChildStatus),
    Killed(bool),
    Reaped(bool),
}

impl Teardown {
    pub open spec fn action(self) -> TeardownAction {
        match self {
            Teardown::Live => TeardownAction::AbortReader,
            Teardown::ReaderAborted => TeardownAction::CheckStatus,
            Teardown::ChildRunning => TeardownAction::Kill,
            Teardown::ChildKilled => TeardownAction::Reap,
            Teardown::Finished(_) => TeardownAction::Done,
        }
    }

    /// The state after an event. An event that does not answer the state's
    /// action changes nothing.
    pub open spec fn after(self, event: TeardownEvent) -> Teardown {
        match (self, event) {
            (Teardown::Live, TeardownEvent::ReaderAborted) => Teardown::ReaderAborted,
            (Teardown::ReaderAborted, TeardownEvent::Status(ChildStatus::Running)) => Teardown::ChildRunning,
            (Teardown::ReaderAborted, TeardownEvent::Status(ChildStatus::Exited)) => Teardown::Finished(
                ChildEnd::ExitedEarly,
            ),
            (Teardown::ReaderAborted, TeardownEvent::Status(ChildStatus::Unknown)) => Teardown::Finished(
                ChildEnd::StatusUnknown,
            ),
            (Teardown::ChildRunning, TeardownEvent::Killed(true)) => Teardown::ChildKilled,
            (Teardown::ChildRunning, TeardownEvent::Killed(false)) => Teardown::Finished(
                ChildEnd::KillFailed,
            ),
            (Teardown::ChildKilled, TeardownEvent::Reaped(true)) => Teardown::Finished(
                ChildEnd::Reaped,
            ),
            (Teardown::ChildKilled, TeardownEvent::Reaped(false)) => Teardown::Finished(
                ChildEnd::ReapFailed,
            ),
            _ => self,
        }
    }

    /// The reader is aborted in every state but the first.
    pub open spec fn reader_aborted(self) -> bool {
        self != Teardown::Live
    }

    /// How many actions are still to come at most.
    pub open spec fn steps_left(self) -> nat {
        match self {
            Teardown::Live => 4,
            Teardown::ReaderAborted => 3,
            Teardown::ChildRunning => 2,
            Teardown::ChildKilled => 1,
            Teardown::Finished(_) => 0,
        }
    }

    pub fn start() -> (r: Teardown)
        ensures
            r == Teardown::Live,
    {
        Teardown::Live
    }

    /// The next thing to do.
    pub fn next_action(&self) -> (r: TeardownAction)
        ensures
            r == self.action(),
    {
        match self {
            Teardown::Live => TeardownAction::AbortReader,
            Teardown::ReaderAborted => TeardownAction::CheckStatus,
            Teardown::ChildRunning => TeardownAction::Kill,
            Teardown::ChildKilled => TeardownAction::Reap,
            Teardown::Finished(_) => TeardownAction::Done,
        }
    }

    /// Takes in what came of the last action.
    pub fn advance(&mut self, event: TeardownEvent)
        ensures
            *final(self) == old(self).after(event),
    {
        let next = match (*self, event) {
            (Teardown::Live, TeardownEvent::ReaderAborted) => Teardown::ReaderAborted,
            (Teardown::ReaderAborted, TeardownEvent::Status(status)) => match status {
                ChildStatus::Running => Teardown::ChildRunning,
                ChildStatus::Exited => Teardown::Finished(ChildEnd::ExitedEarly),
                ChildStatus::Unknown => Teardown::Finished(ChildEnd::StatusUnknown),
            },
            (Teardown::ChildRunning, TeardownEvent::Killed(ok)) => if ok {
                Teardown::ChildKilled
            } else {
                Teardown::Finished(ChildEnd::KillFailed)
            },
            (Teardown::ChildKilled, TeardownEvent::Reaped(ok)) => if ok {
                Teardown::Finished(ChildEnd::Reaped)
            } else {
                Teardown::Finished(ChildEnd::ReapFailed)
            },
            (state, _) => state,
        };
        *self = next;
    }

    /// The reader is aborted before the child is looked at, killed or
    /// reaped, and it stays aborted.
    pub proof fn lemma_reader_aborted_first(self, event: TeardownEvent)
        ensures
            self.action() != TeardownAction::AbortReader ==> self.reader_aborted(),
            self.reader_aborted() ==> self.after(event).reader_aborted(),
            self.after(event).action() == TeardownAction::Kill ==> self.reader_aborted(),
    {
    }

    /// The child is killed only after it was seen running, and reaped only
    /// after the kill went through; a teardown that ends in `Reaped` has done
    /// both.
    pub proof fn lemma_check_then_act(self, event: TeardownEvent)
        ensures
            self.after(event) == Teardown::ChildRunning && self != Teardown::ChildRunning ==> event
                == TeardownEvent::Status(ChildStatus::Running),
            self.after(event) == Teardown::ChildKilled && self != Teardown::ChildKilled ==> self
                == Teardown::ChildRunning && event == TeardownEvent::Killed(true),
            self.after(event) == Teardown::Finished(ChildEnd::Reaped) && self != Teardown::Finished(
                ChildEnd::Reaped,
            ) ==> self == Teardown::ChildKilled && event == TeardownEvent::Reaped(true),
    {
    }

    /// Every answer to the pending action brings the teardown closer to its
    /// end, which comes after four actions at most.
    pub proof fn lemma_teardown_ends(self, event: TeardownEvent)
        ensures
            self.after(event).steps_left() <= self.steps_left(),
            self.after(event) != self ==> self.after(event).steps_left() < self.steps_left(),
            self.steps_left() == 0 <==> self.action() == TeardownAction::Done,
    {
    }
}

} // verus!

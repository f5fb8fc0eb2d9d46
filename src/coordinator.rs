use tokio::sync::oneshot::Sender;
use tokio::task::JoinError;
use vstd::prelude::*;

use crate::error::Error;
use crate::event::Event;
use crate::exit_status::ExitStatus;

verus! {

/// How many built-in signal watchers run as ordinary tasks beside the
/// caller's own.
pub const SIGNAL_WATCHERS: usize = 2;

/// Where the coordinator stands in its event loop.
#[derive(Clone, Copy, Debug, PartialEq, Eq, Structural)]
pub enum Phase {
    /// Consuming events.
    Running,
    /// A completion event was received; the matching unit must be reaped
    /// before its status is dispatched.
    Reaping,
    /// The shutdown decision is made: no more events are consumed, and the
    /// remaining units are awaited.
    Draining,
}

/// What the event loop must do after an event.
pub enum Action<U> {
    /// Submit this unit to the task group, then receive the next event.
    Launch(U),
    /// Reap one finished unit from the task group and report it.
    Reap,
    /// Stop receiving events and await the remaining units.
    Drain,
}

/// What the event loop must do after a reap.
#[derive(Clone, Copy, Debug, PartialEq, Eq, Structural)]
pub enum Next {
    /// Receive the next event.
    Receive,
    /// Stop receiving events and await the remaining units.
    Drain,
}

/// The abstract state of a coordinator.
pub struct CoordinatorView<E> {
    pub phase: Phase,
    /// Names of the tasks whose shutdown producers are still held, in
    /// registration order. Dropping a producer resolves its task's token.
    pub held: Seq<Seq<char>>,
    /// Units submitted to the task group and not yet reaped.
    pub live: nat,
    /// The status of a completion whose unit is still to be reaped.
    pub pending: Option<ExitStatus<E>>,
    /// The first fatal error a task reported.
    pub fatal: Option<E>,
    /// The first join failure met while draining.
    pub join_failure: Option<JoinError>,
}

/// The state every coordinator is in: its invariant.
pub open spec fn consistent<E>(s: CoordinatorView<E>) -> bool {
    &&& s.phase != Phase::Draining ==> s.live <= s.held.len()
    &&& s.phase != Phase::Draining ==> s.fatal is None
    &&& s.phase == Phase::Draining ==> s.held.len() == 0
    &&& (s.phase == Phase::Reaping <==> s.pending is Some)
    &&& s.phase != Phase::Draining ==> s.join_failure is None
}

/// A fresh coordinator: running, with nothing registered.
pub open spec fn initial<E>() -> CoordinatorView<E> {
    CoordinatorView {
        phase: Phase::Running,
        held: Seq::empty(),
        live: 0,
        pending: None,
        fatal: None,
        join_failure: None,
    }
}

/// The shutdown decision: every held producer is discarded, which resolves
/// each task's token, and no more events are consumed.
pub open spec fn drained<E>(s: CoordinatorView<E>) -> CoordinatorView<E> {
    CoordinatorView { phase: Phase::Draining, held: Seq::empty(), pending: None, ..s }
}

/// The state after a running coordinator receives `e`.
pub open spec fn receive<E, U>(s: CoordinatorView<E>, e: Event<E, U>) -> CoordinatorView<E> {
    match e {
        Event::NewFuture { name, .. } => CoordinatorView {
            held: s.held.push(name@),
            live: s.live + 1,
            ..s
        },
        Event::FutureCompleted { exit_status, .. } => CoordinatorView {
            phase: Phase::Reaping,
            pending: Some(exit_status),
            ..s
        },
        Event::Signal(_) => drained(s),
        Event::Shutdown => drained(s),
    }
}

/// What the event loop must do after a running coordinator receives `e`.
pub open spec fn receive_action<E, U>(e: Event<E, U>) -> Action<U> {
    match e {
        Event::NewFuture { future, .. } => Action::Launch(future),
        Event::FutureCompleted { .. } => Action::Reap,
        Event::Signal(_) => Action::Drain,
        Event::Shutdown => Action::Drain,
    }
}


/// The status of the completion awaiting its reap.
pub open spec fn pending_status<E>(s: CoordinatorView<E>) -> ExitStatus<E>
    recommends
        s.pending is Some,
{
    s.pending->Some_0
}

/// The fatal error on record once `status` is dispatched: the first one wins.
pub open spec fn record_fatal<E>(recorded: Option<E>, status: ExitStatus<E>) -> Option<E> {
    match status {
        ExitStatus::FatalError(e) => if recorded is None { Some(e) } else { recorded },
        _ => recorded,
    }
}

/// Whether dispatching `status` ends the running phase: a fatal error does,
/// and so does any other end once no caller task is left beside the signal
/// watchers. `found` tells whether the reap found a unit at all; when the
/// group is empty, every unit is done.
pub open spec fn stops_after<E>(found: bool, status: ExitStatus<E>, live: nat) -> bool {
    ||| !found
    ||| status is FatalError
    ||| live <= SIGNAL_WATCHERS
}

/// The state after the reap that follows a completion event. `found` tells
/// whether the task group handed back a unit; when it did not, every unit is
/// done and the loop stops without dispatching the status.
pub open spec fn reap<E>(s: CoordinatorView<E>, found: bool) -> CoordinatorView<E> {
    let live = if found && s.live > 0 { (s.live - 1) as nat } else { s.live };
    let status = pending_status(s);
    let t = CoordinatorView {
        phase: Phase::Running,
        live,
        pending: None,
        fatal: if found { record_fatal(s.fatal, status) } else { s.fatal },
        ..s
    };
    if stops_after(found, status, live) { drained(t) } else { t }
}

/// What the event loop must do after that reap.
pub open spec fn reap_next<E>(s: CoordinatorView<E>, found: bool) -> Next {
    if reap(s, found).phase == Phase::Draining { Next::Drain } else { Next::Receive }
}

/// The state after one unit is awaited while draining; the first join
/// failure is kept.
pub open spec fn drain_one<E>(s: CoordinatorView<E>, joined: Result<(), JoinError>) -> CoordinatorView<E> {
    CoordinatorView {
        live: if s.live > 0 { (s.live - 1) as nat } else { 0 },
        join_failure: match joined {
            Err(j) => if s.join_failure is None { Some(j) } else { s.join_failure },
            Ok(_) => s.join_failure,
        },
        ..s
    }
}

/// The aggregated result: a join failure comes first, then the recorded fatal
/// error, else success.
pub open spec fn outcome<E>(s: CoordinatorView<E>) -> Result<Result<(), E>, Error> {
    match s.join_failure {
        Some(j) => Err(Error::JoinTaskHandle { source: j }),
        None => match s.fatal {
            Some(e) => Ok(Err(e)),
            None => Ok(Ok(())),
        },
    }
}

/// One input to the coordinator: an event, what a reap handed back, or a
/// unit awaited while draining.
pub enum Step<E, U> {
    /// An event taken from the queue.
    Receive(Event<E, U>),
    /// What the task group handed back to the reap after a completion.
    Reaped(Option<Result<(), JoinError>>),
    /// A unit awaited while draining.
    Drained(Result<(), JoinError>),
}

/// The state after one input. An input that the current phase does not take
/// (an event while draining, say) changes nothing: the event loop never
/// hands it over.
pub open spec fn apply<E, U>(s: CoordinatorView<E>, st: Step<E, U>) -> CoordinatorView<E> {
    match st {
        Step::Receive(e) => if s.phase == Phase::Running { receive(s, e) } else { s },
        Step::Reaped(r) => if s.phase == Phase::Reaping { reap(s, r is Some) } else { s },
        Step::Drained(r) => if s.phase == Phase::Draining { drain_one(s, r) } else { s },
    }
}

/// The state after a sequence of inputs.
pub open spec fn run<E, U>(s: CoordinatorView<E>, steps: Seq<Step<E, U>>) -> CoordinatorView<E>
    decreases steps.len(),
{
    if steps.len() == 0 {
        s
    } else {
        run(apply(s, steps[0]), steps.drop_first())
    }
}


/// The single authority over the tasks' lifecycle: it tracks the live units,
/// holds the producer side of every task's shutdown token, and records the
/// first fatal error.
pub struct Coordinator<E> {
    phase: Phase,
    producers: Vec<(String, Sender<()>)>,
    live: usize,
    pending: Option<ExitStatus<E>>,
    fatal: Option<E>,
    join_failure: Option<JoinError>,
}

impl<E> View for Coordinator<E> {
    type V = CoordinatorView<E>;

    closed spec fn view(&self) -> CoordinatorView<E> {
        CoordinatorView {
            phase: self.phase,
            held: self.producers@.map_values(|p: (String, Sender<()>)| p.0@),
            live: self.live as nat,
            pending: self.pending,
            fatal: self.fatal,
            join_failure: self.join_failure,
        }
    }
}

impl<E> Coordinator<E> {
    /// A coordinator that is running and has nothing registered.
    pub fn new() -> (c: Self)
        ensures
            c@ == initial::<E>(),
            consistent(c@),
    {
        let c = Coordinator {
            phase: Phase::Running,
            producers: Vec::new(),
            live: 0,
            pending: None,
            fatal: None,
            join_failure: None,
        };
        assert(c@.held =~= Seq::<Seq<char>>::empty());
        c
    }

    /// The phase the event loop is in.
    pub fn phase(&self) -> (r: Phase)
        ensures
            r == self@.phase,
    {
        self.phase
    }

    /// The number of units submitted and not yet reaped.
    pub fn live_tasks(&self) -> (r: usize)
        ensures
            r == self@.live,
    {
        self.live
    }

    /// Discards every held shutdown producer and stops consuming events.
    fn begin_drain(&mut self)
        ensures
            final(self)@ == drained(old(self)@),
    {
        self.producers.clear();
        self.phase = Phase::Draining;
        self.pending = None;
        assert(final(self)@.held =~= Seq::<Seq<char>>::empty());
    }

    /// Handles one event while running.
    pub fn on_event<U>(&mut self, event: Event<E, U>) -> (a: Action<U>)
        requires
            old(self)@.phase == Phase::Running,
            consistent(old(self)@),
        ensures
            final(self)@ == receive(old(self)@, event),
            a == receive_action(event),
            consistent(final(self)@),
    {
        match event {
            Event::NewFuture { name, shutdown_sender, future } => {
                self.producers.push((name, shutdown_sender));
                let n = self.producers.len();
                assert(self.live < n);
                self.live = self.live + 1;
                assert(self@.held =~= old(self)@.held.push(name@));
                Action::Launch(future)
            },
            Event::FutureCompleted { name: _, exit_status } => {
                self.phase = Phase::Reaping;
                self.pending = Some(exit_status);
                Action::Reap
            },
            Event::Signal(_) => {
                self.begin_drain();
                Action::Drain
            },
            Event::Shutdown => {
                self.begin_drain();
                Action::Drain
            },
        }
    }

    /// Dispatches the pending completion once its unit has been reaped.
    /// `reaped` is what the task group handed back: `None` when it was empty.
    /// A join failure here only ends that unit.
    pub fn on_reaped(&mut self, reaped: Option<Result<(), JoinError>>) -> (n: Next)
        requires
            old(self)@.phase == Phase::Reaping,
            consistent(old(self)@),
        ensures
            final(self)@ == reap(old(self)@, reaped is Some),
            n == reap_next(old(self)@, reaped is Some),
            consistent(final(self)@),
    {
        let found = reaped.is_some();
        if found && self.live > 0 {
            self.live = self.live - 1;
        }
        let status = self.pending.take();
        self.phase = Phase::Running;
        let fatal = match status {
            Some(ExitStatus::FatalError(e)) if found => {
                if self.fatal.is_none() {
                    self.fatal = Some(e);
                }
                true
            },
            _ => false,
        };
        if !found || fatal || self.live <= SIGNAL_WATCHERS {
            self.begin_drain();
            Next::Drain
        } else {
            Next::Receive
        }
    }

    /// Records one unit awaited while draining.
    pub fn on_drained(&mut self, joined: Result<(), JoinError>)
        requires
            old(self)@.phase == Phase::Draining,
            consistent(old(self)@),
        ensures
            final(self)@ == drain_one(old(self)@, joined),
            consistent(final(self)@),
    {
        if self.live > 0 {
            self.live = self.live - 1;
        }
        match joined {
            Err(j) => {
                if self.join_failure.is_none() {
                    self.join_failure = Some(j);
                }
            },
            Ok(()) => {},
        }
    }

    /// The aggregated result, once every unit has been awaited.
    pub fn finish(self) -> (r: Result<Result<(), E>, Error>)
        requires
            self@.phase == Phase::Draining,
        ensures
            r == outcome(self@),
    {
        match self.join_failure {
            Some(j) => Err(Error::JoinTaskHandle { source: j }),
            None => match self.fatal {
                Some(e) => Ok(Err(e)),
                None => Ok(Ok(())),
            },
        }
    }
}

} // verus!

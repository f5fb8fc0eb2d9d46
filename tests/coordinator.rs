use sigfinn::{Action, Coordinator, Error, Event, ExitStatus, Next, Phase, UnixSignal};
use tokio::sync::oneshot;
use tokio::task::JoinError;

type Ev = Event<&'static str, u32>;

fn join_error() -> JoinError {
    let rt = tokio::runtime::Builder::new_current_thread().build().unwrap();
    rt.block_on(async {
        let h = tokio::spawn(std::future::pending::<()>());
        h.abort();
        h.await.unwrap_err()
    })
}

fn register(c: &mut Coordinator<&'static str>, name: &str, unit: u32) -> oneshot::Receiver<()> {
    let (tx, rx) = oneshot::channel();
    let ev: Ev = Event::NewFuture { name: name.to_string(), shutdown_sender: tx, future: unit };
    match c.on_event(ev) {
        Action::Launch(u) => assert_eq!(u, unit),
        _ => panic!("a new task must be launched"),
    }
    rx
}

fn complete(c: &mut Coordinator<&'static str>, name: &str, status: ExitStatus<&'static str>) -> Next {
    let ev: Ev = Event::FutureCompleted { name: name.to_string(), exit_status: status };
    assert!(matches!(c.on_event(ev), Action::Reap));
    assert_eq!(c.phase(), Phase::Reaping);
    c.on_reaped(Some(Ok(())))
}

fn drain_all(c: &mut Coordinator<&'static str>) {
    while c.live_tasks() > 0 {
        c.on_drained(Ok(()));
    }
}

fn is_closed(rx: &mut oneshot::Receiver<()>) -> bool {
    matches!(rx.try_recv(), Err(oneshot::error::TryRecvError::Closed))
}

fn is_pending(rx: &mut oneshot::Receiver<()>) -> bool {
    matches!(rx.try_recv(), Err(oneshot::error::TryRecvError::Empty))
}

#[test]
fn fresh_coordinator_is_running_and_empty() {
    let c = Coordinator::<&'static str>::new();
    assert_eq!(c.phase(), Phase::Running);
    assert_eq!(c.live_tasks(), 0);
}

#[test]
fn new_task_is_launched_and_counted() {
    let mut c = Coordinator::new();
    let mut rx = register(&mut c, "worker", 42);
    assert_eq!(c.live_tasks(), 1);
    assert_eq!(c.phase(), Phase::Running);
    assert!(is_pending(&mut rx));
}

#[test]
fn shutdown_resolves_every_token() {
    let mut c = Coordinator::new();
    let mut a = register(&mut c, "a", 1);
    let mut b = register(&mut c, "b", 2);
    let ev: Ev = Event::Shutdown;
    assert!(matches!(c.on_event(ev), Action::Drain));
    assert_eq!(c.phase(), Phase::Draining);
    assert_eq!(c.live_tasks(), 2);
    assert!(is_closed(&mut a));
    assert!(is_closed(&mut b));
    drain_all(&mut c);
    assert!(matches!(c.finish(), Ok(Ok(()))));
}

#[test]
fn resolved_token_stays_resolved() {
    let mut c = Coordinator::new();
    let mut a = register(&mut c, "a", 1);
    let ev: Ev = Event::Shutdown;
    c.on_event(ev);
    assert!(is_closed(&mut a));
    assert!(is_closed(&mut a));
    assert!(is_closed(&mut a));
}

#[test]
fn signal_acts_as_shutdown() {
    for sig in [UnixSignal::Interrupt, UnixSignal::Terminate] {
        let mut c = Coordinator::new();
        let mut a = register(&mut c, "a", 1);
        let ev: Ev = Event::Signal(sig);
        assert!(matches!(c.on_event(ev), Action::Drain));
        assert_eq!(c.phase(), Phase::Draining);
        assert!(is_closed(&mut a));
        drain_all(&mut c);
        assert!(matches!(c.finish(), Ok(Ok(()))));
    }
}

#[test]
fn every_task_succeeding_gives_success() {
    let mut c = Coordinator::new();
    let _w1 = register(&mut c, "sigint", 0);
    let _w2 = register(&mut c, "sigterm", 0);
    let _a = register(&mut c, "a", 1);
    let _b = register(&mut c, "b", 2);
    assert_eq!(complete(&mut c, "a", ExitStatus::Success), Next::Receive);
    assert_eq!(c.live_tasks(), 3);
    assert_eq!(complete(&mut c, "b", ExitStatus::Success), Next::Drain);
    assert_eq!(c.live_tasks(), 2);
    drain_all(&mut c);
    assert!(matches!(c.finish(), Ok(Ok(()))));
}

#[test]
fn fatal_error_stops_the_others() {
    let mut c = Coordinator::new();
    let mut w1 = register(&mut c, "sigint", 0);
    let mut w2 = register(&mut c, "sigterm", 0);
    let mut a = register(&mut c, "sleeper", 1);
    let _b = register(&mut c, "failing", 2);
    assert!(is_pending(&mut a));
    assert_eq!(complete(&mut c, "failing", ExitStatus::FatalError("boom")), Next::Drain);
    assert!(is_closed(&mut a));
    assert!(is_closed(&mut w1));
    assert!(is_closed(&mut w2));
    assert_eq!(c.live_tasks(), 3);
    drain_all(&mut c);
    assert!(matches!(c.finish(), Ok(Err("boom"))));
}

#[test]
fn first_fatal_error_is_returned() {
    let mut c = Coordinator::new();
    let _a = register(&mut c, "a", 1);
    let _b = register(&mut c, "b", 2);
    assert_eq!(complete(&mut c, "b", ExitStatus::FatalError("first")), Next::Drain);
    drain_all(&mut c);
    assert!(matches!(c.finish(), Ok(Err("first"))));
}

#[test]
fn single_quick_success_returns_promptly() {
    let mut c = Coordinator::new();
    let _w1 = register(&mut c, "sigint", 0);
    let _w2 = register(&mut c, "sigterm", 0);
    let _a = register(&mut c, "quick", 1);
    assert_eq!(complete(&mut c, "quick", ExitStatus::Success), Next::Drain);
    assert_eq!(c.phase(), Phase::Draining);
    drain_all(&mut c);
    assert!(matches!(c.finish(), Ok(Ok(()))));
}

#[test]
fn task_spawned_while_running_is_tracked() {
    let mut c = Coordinator::new();
    let _w1 = register(&mut c, "sigint", 0);
    let _w2 = register(&mut c, "sigterm", 0);
    let _a = register(&mut c, "a", 1);
    let _b = register(&mut c, "b", 2);
    let mut nested = register(&mut c, "c", 3);
    assert_eq!(c.live_tasks(), 5);
    assert_eq!(complete(&mut c, "a", ExitStatus::Success), Next::Receive);
    assert_eq!(complete(&mut c, "c", ExitStatus::Success), Next::Receive);
    assert_eq!(c.live_tasks(), 3);
    assert!(is_pending(&mut nested));
    assert_eq!(complete(&mut c, "b", ExitStatus::Success), Next::Drain);
    drain_all(&mut c);
    assert!(matches!(c.finish(), Ok(Ok(()))));
}

#[test]
fn soft_error_is_treated_like_success() {
    let mut c = Coordinator::new();
    let _w1 = register(&mut c, "sigint", 0);
    let _w2 = register(&mut c, "sigterm", 0);
    let _a = register(&mut c, "a", 1);
    let _b = register(&mut c, "b", 2);
    assert_eq!(complete(&mut c, "a", ExitStatus::Error("soft")), Next::Receive);
    assert_eq!(complete(&mut c, "b", ExitStatus::Error("soft")), Next::Drain);
    drain_all(&mut c);
    assert!(matches!(c.finish(), Ok(Ok(()))));
}

#[test]
fn empty_task_group_ends_serving() {
    let mut c = Coordinator::new();
    for i in 0..5 {
        let _ = register(&mut c, "t", i);
    }
    let ev: Ev = Event::FutureCompleted { name: "t".to_string(), exit_status: ExitStatus::Success };
    assert!(matches!(c.on_event(ev), Action::Reap));
    assert_eq!(c.on_reaped(None), Next::Drain);
    assert_eq!(c.live_tasks(), 5);
}

#[test]
fn join_failure_while_running_is_only_reported() {
    let mut c = Coordinator::new();
    let _w1 = register(&mut c, "sigint", 0);
    let _w2 = register(&mut c, "sigterm", 0);
    let _a = register(&mut c, "a", 1);
    let _b = register(&mut c, "b", 2);
    let ev: Ev = Event::FutureCompleted { name: "a".to_string(), exit_status: ExitStatus::Success };
    c.on_event(ev);
    assert_eq!(c.on_reaped(Some(Err(join_error()))), Next::Receive);
    assert_eq!(c.live_tasks(), 3);
    assert_eq!(complete(&mut c, "b", ExitStatus::Success), Next::Drain);
    drain_all(&mut c);
    assert!(matches!(c.finish(), Ok(Ok(()))));
}

#[test]
fn join_failure_while_draining_comes_first() {
    let mut c = Coordinator::new();
    let _a = register(&mut c, "a", 1);
    let _b = register(&mut c, "b", 2);
    let _d = register(&mut c, "d", 3);
    assert_eq!(complete(&mut c, "b", ExitStatus::FatalError("boom")), Next::Drain);
    assert_eq!(c.live_tasks(), 2);
    c.on_drained(Err(join_error()));
    assert_eq!(c.live_tasks(), 1);
    c.on_drained(Ok(()));
    assert_eq!(c.live_tasks(), 0);
    match c.finish() {
        Err(Error::JoinTaskHandle { source }) => assert!(source.is_cancelled()),
        other => panic!("unexpected result: {other:?}"),
    }
}

#[test]
fn status_is_not_dispatched_when_group_is_empty() {
    let mut c = Coordinator::new();
    let mut a = register(&mut c, "a", 1);
    let ev: Ev = Event::FutureCompleted { name: "a".to_string(), exit_status: ExitStatus::FatalError("lost") };
    assert!(matches!(c.on_event(ev), Action::Reap));
    assert_eq!(c.on_reaped(None), Next::Drain);
    assert!(is_closed(&mut a));
    drain_all(&mut c);
    assert!(matches!(c.finish(), Ok(Ok(()))));
}

use wrpc_test::supervise::{Action, Event, Phase};
use wrpc_test::Error;

fn rt() -> tokio::runtime::Runtime {
    tokio::runtime::Builder::new_current_thread()
        .enable_all()
        .build()
        .expect("runtime")
}

#[test]
fn natural_exit_finishes_at_once() {
    let (next, action) = Phase::Racing.step(Event::Exited(7u32));
    assert!(matches!(next, Phase::Done(Ok(7))));
    assert!(matches!(action, Action::Finish));
}

#[test]
fn forced_kill_path_runs_kill_then_wait() {
    let (next, action) = Phase::<u32>::Racing.step(Event::ShutdownFired);
    assert!(matches!(action, Action::Kill));
    let (next, action) = next.step(Event::KillOk);
    assert!(matches!(action, Action::WaitChild));
    let (next, action) = next.step(Event::Reaped(9u32));
    assert!(matches!(next, Phase::Done(Ok(9))));
    assert!(matches!(action, Action::Finish));
}

#[test]
fn each_failure_gets_its_own_error() {
    let (next, _) = Phase::<u32>::Racing.step(Event::ShutdownDropped);
    assert!(matches!(next, Phase::Done(Err(Error::ShutdownChannelClosed))));
    let (next, _) = Phase::<u32>::Racing.step(Event::ExitErr);
    assert!(matches!(next, Phase::Done(Err(Error::WaitFailed))));
    let (next, _) = Phase::<u32>::Killing.step(Event::KillErr);
    assert!(matches!(next, Phase::Done(Err(Error::KillFailed))));
    let (next, _) = Phase::<u32>::Reaping.step(Event::ReapErr);
    assert!(matches!(next, Phase::Done(Err(Error::WaitFailed))));
}

#[test]
fn firing_shutdown_kills_long_running_child() {
    rt().block_on(async {
        let mut child = tokio::process::Command::new("sleep")
            .arg("30")
            .kill_on_drop(true)
            .spawn()
            .expect("spawn sleep");
        let (stop_tx, stop_rx) = tokio::sync::oneshot::channel::<()>();
        // Fire the trigger before the child has any chance to exit.
        stop_tx.send(()).expect("receiver alive");
        let mut ev = match stop_rx.await {
            Ok(()) => Event::ShutdownFired,
            Err(_) => Event::ShutdownDropped,
        };
        let mut phase = Phase::Racing;
        loop {
            let (next, action) = phase.step(ev);
            phase = next;
            match action {
                Action::Kill => {
                    ev = match child.kill().await {
                        Ok(()) => Event::KillOk,
                        Err(_) => Event::KillErr,
                    };
                }
                Action::WaitChild => {
                    ev = match child.wait().await {
                        Ok(s) => Event::Reaped(s),
                        Err(_) => Event::ReapErr,
                    };
                }
                Action::Finish => break,
            }
        }
        match phase {
            Phase::Done(Ok(status)) => {
                // Forced termination: the child cannot have exited cleanly.
                assert!(!status.success());
            }
            _ => panic!("forced-kill path did not resolve with a status"),
        }
    });
}

#[test]
fn immediate_exit_resolves_with_code_zero_and_inert_trigger() {
    rt().block_on(async {
        let mut child = tokio::process::Command::new("true")
            .kill_on_drop(true)
            .spawn()
            .expect("spawn true");
        let (stop_tx, stop_rx) = tokio::sync::oneshot::channel::<()>();
        // Natural exit wins the race: the child ends without the trigger.
        let ev = match child.wait().await {
            Ok(s) => Event::Exited(s),
            Err(_) => Event::ExitErr,
        };
        let (phase, action) = Phase::Racing.step(ev);
        assert!(matches!(action, Action::Finish));
        match phase {
            Phase::Done(Ok(status)) => assert_eq!(status.code(), Some(0)),
            _ => panic!("natural exit did not resolve with a status"),
        }
        // The never-fired trigger becomes inert, not a harness failure.
        drop(stop_rx);
        assert!(stop_tx.send(()).is_err());
    });
}

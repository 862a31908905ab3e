use flopsy::args::Args;
use flopsy::backoff::{next_backoff, INITIAL_BACKOFF};
use flopsy::proxy::{Action, Event, Phase, Proxy, State};
use flopsy::triggers::Exit;

fn args(hosts: &[&str], check: bool, triggers: bool, max_backoff: u64) -> Args {
    Args {
        bind: None,
        port: Some(5432),
        hosts: hosts.iter().map(|h| h.to_string()).collect(),
        check_host: if check { Some(String::from("/etc/flopsy/check")) } else { None },
        on_failover: if triggers { Some(String::from("/etc/flopsy/failover.d")) } else { None },
        max_backoff,
    }
}

fn activate(proxy: &mut Proxy, index: usize, hosts: usize) {
    assert_eq!(proxy.step(Event::Started), Some(Action::Probe { index: 0 }));
    for i in 0..hosts {
        let reachable = i == index;
        let next = proxy.step(Event::ProbeFinished { reachable });
        if reachable {
            assert_eq!(next, Some(Action::Bind));
            break;
        }
        assert_eq!(next, Some(Action::Probe { index: i + 1 }));
    }
    assert_eq!(proxy.step(Event::ListenerBound), Some(Action::Accept));
}

#[test]
fn created_proxy_is_selecting_without_primary() {
    let proxy = Proxy::create(args(&["h1:5432", "h2:5432"], false, false, 60));
    assert_eq!(proxy.state(), State::Selecting);
    assert_eq!(proxy.phase(), Phase::Idle);
    assert_eq!(proxy.primary_host(), "");
    assert_eq!(proxy.selected(), None);
    assert_eq!(proxy.backoff(), 1);
    assert!(!proxy.is_listening());
    assert_eq!(proxy.args().hosts.len(), 2);
}

#[test]
fn second_host_becomes_primary_without_triggers() {
    let mut proxy = Proxy::create(args(&["h1:5432", "h2:5432"], false, false, 60));
    assert_eq!(proxy.step(Event::Started), Some(Action::Probe { index: 0 }));
    assert_eq!(
        proxy.step(Event::ProbeFinished { reachable: false }),
        Some(Action::Probe { index: 1 })
    );
    // no health check and no trigger: the listener is asked for at once
    assert_eq!(proxy.step(Event::ProbeFinished { reachable: true }), Some(Action::Bind));
    assert_eq!(proxy.primary_host(), "h2:5432");
    assert_eq!(proxy.selected(), Some(1));
    assert_eq!(proxy.state(), State::Selecting);
    assert_eq!(proxy.step(Event::ListenerBound), Some(Action::Accept));
    assert_eq!(proxy.state(), State::Active);
    assert!(proxy.is_listening());
}

#[test]
fn health_check_rejects_first_host() {
    let mut proxy = Proxy::create(args(&["h1:5432", "h2:5432"], true, false, 60));
    assert_eq!(proxy.step(Event::Started), Some(Action::Probe { index: 0 }));
    assert_eq!(
        proxy.step(Event::ProbeFinished { reachable: true }),
        Some(Action::CheckHealth { index: 0 })
    );
    assert_eq!(
        proxy.step(Event::HealthChecked { exit: Exit::Code(1) }),
        Some(Action::Probe { index: 1 })
    );
    assert_eq!(
        proxy.step(Event::ProbeFinished { reachable: true }),
        Some(Action::CheckHealth { index: 1 })
    );
    assert_eq!(proxy.step(Event::HealthChecked { exit: Exit::Code(0) }), Some(Action::Bind));
    assert_eq!(proxy.primary_host(), "h2:5432");
}

#[test]
fn retries_with_doubling_backoff_until_a_host_answers() {
    let mut proxy = Proxy::create(args(&["h1:5432", "h2:5432"], false, false, 5));
    assert_eq!(proxy.step(Event::Started), Some(Action::Probe { index: 0 }));
    let mut waits = Vec::new();
    for _ in 0..5 {
        assert_eq!(
            proxy.step(Event::ProbeFinished { reachable: false }),
            Some(Action::Probe { index: 1 })
        );
        match proxy.step(Event::ProbeFinished { reachable: false }) {
            Some(Action::Sleep { seconds }) => waits.push(seconds),
            other => panic!("expected a sleep, got {:?}", other),
        }
        assert_eq!(proxy.state(), State::Selecting);
        assert!(!proxy.is_listening());
        assert_eq!(proxy.step(Event::BackoffElapsed), Some(Action::Probe { index: 0 }));
    }
    assert_eq!(waits, vec![1, 2, 4, 5, 5]);
    // h1 answers now: active within this pass
    assert_eq!(proxy.step(Event::ProbeFinished { reachable: true }), Some(Action::Bind));
    assert_eq!(proxy.step(Event::ListenerBound), Some(Action::Accept));
    assert_eq!(proxy.state(), State::Active);
    assert_eq!(proxy.primary_host(), "h1:5432");
}

#[test]
fn failed_connect_closes_the_listener_until_a_primary_is_validated() {
    let mut proxy = Proxy::create(args(&["h1:5432", "h2:5432"], true, true, 60));
    assert_eq!(proxy.step(Event::Started), Some(Action::Probe { index: 0 }));
    assert_eq!(
        proxy.step(Event::ProbeFinished { reachable: false }),
        Some(Action::Probe { index: 1 })
    );
    assert_eq!(
        proxy.step(Event::ProbeFinished { reachable: true }),
        Some(Action::CheckHealth { index: 1 })
    );
    assert_eq!(
        proxy.step(Event::HealthChecked { exit: Exit::Code(0) }),
        Some(Action::RunTriggers { index: 1 })
    );
    assert_eq!(proxy.step(Event::TriggersFinished { failures: 0 }), Some(Action::Bind));
    assert_eq!(proxy.step(Event::ListenerBound), Some(Action::Accept));
    assert_eq!(proxy.primary_host(), "h2:5432");

    // a client is served
    assert_eq!(proxy.step(Event::ClientAccepted), Some(Action::ConnectPrimary));
    assert_eq!(proxy.step(Event::UpstreamConnected { connected: true }), Some(Action::Bridge));
    assert_eq!(proxy.step(Event::SessionStarted), Some(Action::Accept));
    assert_eq!(proxy.state(), State::Active);

    // h2 stops accepting connections: the next client is dropped
    assert_eq!(proxy.step(Event::ClientAccepted), Some(Action::ConnectPrimary));
    assert_eq!(proxy.step(Event::UpstreamConnected { connected: false }), Some(Action::Reject));
    assert_eq!(proxy.state(), State::Selecting);
    assert!(!proxy.is_listening());
    assert_eq!(proxy.backoff(), 1);

    // while the failover runs, no client is accepted
    assert_eq!(proxy.step(Event::ClientAccepted), None);
    assert_eq!(proxy.step(Event::ClientRejected), Some(Action::Probe { index: 0 }));
    assert_eq!(proxy.step(Event::ClientAccepted), None);
    assert_eq!(
        proxy.step(Event::ProbeFinished { reachable: true }),
        Some(Action::CheckHealth { index: 0 })
    );
    assert!(!proxy.is_listening());
    assert_eq!(
        proxy.step(Event::HealthChecked { exit: Exit::Code(0) }),
        Some(Action::RunTriggers { index: 0 })
    );
    // the triggers are still running: still no listener, and the old primary
    assert!(!proxy.is_listening());
    assert_eq!(proxy.step(Event::ClientAccepted), None);
    assert_eq!(proxy.primary_host(), "h2:5432");
    assert_eq!(proxy.step(Event::TriggersFinished { failures: 2 }), Some(Action::Bind));
    assert_eq!(proxy.primary_host(), "h1:5432");
    assert!(!proxy.is_listening());
    assert_eq!(proxy.step(Event::ListenerBound), Some(Action::Accept));
    assert!(proxy.is_listening());
    assert_eq!(proxy.state(), State::Active);
}

#[test]
fn selecting_proxy_has_no_listener_in_any_phase() {
    let mut proxy = Proxy::create(args(&["h1", "h2"], true, true, 8));
    let script = [
        Event::Started,
        Event::ProbeFinished { reachable: true },
        Event::HealthChecked { exit: Exit::Killed },
        Event::ProbeFinished { reachable: false },
        Event::BackoffElapsed,
        Event::ProbeFinished { reachable: true },
        Event::HealthChecked { exit: Exit::Code(0) },
        Event::TriggersFinished { failures: 1 },
        Event::ListenerBound,
        Event::ClientAccepted,
        Event::UpstreamConnected { connected: false },
        Event::ClientRejected,
    ];
    for event in script {
        let action = proxy.step(event).expect("the event answers the request");
        let admits = matches!(action, Action::Accept | Action::ConnectPrimary | Action::Bridge);
        assert_eq!(proxy.is_listening(), proxy.state() == State::Active);
        if proxy.state() == State::Selecting {
            assert!(!admits);
        }
    }
    assert_eq!(proxy.phase(), Phase::Probing { index: 0 });
}

#[test]
fn first_eligible_host_wins_over_later_ones() {
    // all three are reachable and healthy: the first is taken, the others are not even tried
    let mut proxy = Proxy::create(args(&["a", "b", "c"], true, false, 60));
    assert_eq!(proxy.step(Event::Started), Some(Action::Probe { index: 0 }));
    assert_eq!(
        proxy.step(Event::ProbeFinished { reachable: true }),
        Some(Action::CheckHealth { index: 0 })
    );
    assert_eq!(proxy.step(Event::HealthChecked { exit: Exit::Code(0) }), Some(Action::Bind));
    assert_eq!(proxy.selected(), Some(0));
    assert_eq!(proxy.primary_host(), "a");
}

#[test]
fn health_check_that_does_not_exit_with_zero_rejects() {
    for exit in [Exit::Unlaunched, Exit::Killed, Exit::Code(1), Exit::Code(-1), Exit::Code(255)] {
        assert!(!exit.success());
        let mut proxy = Proxy::create(args(&["a", "b"], true, false, 60));
        proxy.step(Event::Started);
        proxy.step(Event::ProbeFinished { reachable: true });
        assert_eq!(
            proxy.step(Event::HealthChecked { exit }),
            Some(Action::Probe { index: 1 })
        );
    }
    assert!(Exit::Code(0).success());
}

#[test]
fn backoff_never_shrinks_while_selecting_and_never_passes_the_cap() {
    let mut proxy = Proxy::create(args(&["a"], false, false, 100));
    proxy.step(Event::Started);
    let mut last = proxy.backoff();
    let mut waits = Vec::new();
    for _ in 0..10 {
        match proxy.step(Event::ProbeFinished { reachable: false }) {
            Some(Action::Sleep { seconds }) => waits.push(seconds),
            other => panic!("expected a sleep, got {:?}", other),
        }
        proxy.step(Event::BackoffElapsed);
        assert!(proxy.backoff() >= last);
        assert!(proxy.backoff() <= 100);
        last = proxy.backoff();
    }
    assert_eq!(waits, vec![1, 2, 4, 8, 16, 32, 64, 100, 100, 100]);
}

#[test]
fn backoff_is_reset_when_the_next_episode_starts() {
    let mut proxy = Proxy::create(args(&["a"], false, false, 100));
    proxy.step(Event::Started);
    for _ in 0..4 {
        proxy.step(Event::ProbeFinished { reachable: false });
        proxy.step(Event::BackoffElapsed);
    }
    assert_eq!(proxy.backoff(), 16);
    assert_eq!(proxy.step(Event::ProbeFinished { reachable: true }), Some(Action::Bind));
    proxy.step(Event::ListenerBound);
    proxy.step(Event::ClientAccepted);
    assert_eq!(proxy.step(Event::UpstreamConnected { connected: false }), Some(Action::Reject));
    assert_eq!(proxy.backoff(), 1);
    proxy.step(Event::ClientRejected);
    assert_eq!(
        proxy.step(Event::ProbeFinished { reachable: false }),
        Some(Action::Sleep { seconds: 1 })
    );
}

#[test]
fn triggers_that_fail_change_nothing() {
    let mut outcomes = Vec::new();
    for failures in [0usize, 1, 7] {
        let mut proxy = Proxy::create(args(&["a", "b"], false, true, 60));
        proxy.step(Event::Started);
        assert_eq!(
            proxy.step(Event::ProbeFinished { reachable: true }),
            Some(Action::RunTriggers { index: 0 })
        );
        let action = proxy.step(Event::TriggersFinished { failures });
        outcomes.push((action, proxy.phase(), proxy.primary_host(), proxy.backoff()));
    }
    let mut bare = Proxy::create(args(&["a", "b"], false, false, 60));
    bare.step(Event::Started);
    let action = bare.step(Event::ProbeFinished { reachable: true });
    let expected = (action, bare.phase(), bare.primary_host(), bare.backoff());
    assert_eq!(expected.0, Some(Action::Bind));
    for outcome in outcomes {
        assert_eq!(outcome, expected);
    }
}

#[test]
fn event_that_does_not_answer_is_refused_and_changes_nothing() {
    let mut proxy = Proxy::create(args(&["a", "b"], true, true, 60));
    assert_eq!(proxy.step(Event::ListenerBound), None);
    assert_eq!(proxy.step(Event::BackoffElapsed), None);
    assert_eq!(proxy.phase(), Phase::Idle);
    proxy.step(Event::Started);
    assert_eq!(proxy.step(Event::Started), None);
    assert_eq!(proxy.step(Event::HealthChecked { exit: Exit::Code(0) }), None);
    assert_eq!(proxy.step(Event::TriggersFinished { failures: 0 }), None);
    assert_eq!(proxy.step(Event::SessionStarted), None);
    assert_eq!(proxy.step(Event::UpstreamConnected { connected: true }), None);
    assert_eq!(proxy.phase(), Phase::Probing { index: 0 });
    assert_eq!(proxy.primary_host(), "");
}

#[test]
fn empty_host_list_only_ever_waits() {
    let mut proxy = Proxy::create(args(&[], false, false, 3));
    assert_eq!(proxy.step(Event::Started), Some(Action::Sleep { seconds: 1 }));
    assert_eq!(proxy.step(Event::BackoffElapsed), Some(Action::Sleep { seconds: 2 }));
    assert_eq!(proxy.step(Event::BackoffElapsed), Some(Action::Sleep { seconds: 3 }));
    assert_eq!(proxy.step(Event::BackoffElapsed), Some(Action::Sleep { seconds: 3 }));
    assert_eq!(proxy.state(), State::Selecting);
}

#[test]
fn cap_of_zero_seconds_is_not_valid_and_ends_the_waiting() {
    assert!(!args(&["a"], false, false, 0).is_valid());
    assert!(args(&["a"], false, false, 1).is_valid());
    let mut proxy = Proxy::create(args(&["a"], false, false, 0));
    proxy.step(Event::Started);
    assert_eq!(
        proxy.step(Event::ProbeFinished { reachable: false }),
        Some(Action::Sleep { seconds: 1 })
    );
    proxy.step(Event::BackoffElapsed);
    assert_eq!(
        proxy.step(Event::ProbeFinished { reachable: false }),
        Some(Action::Sleep { seconds: 0 })
    );
}

#[test]
fn bridged_sessions_do_not_leave_the_active_state() {
    let mut proxy = Proxy::create(args(&["a", "b"], false, false, 60));
    activate(&mut proxy, 1, 2);
    for _ in 0..3 {
        assert_eq!(proxy.step(Event::ClientAccepted), Some(Action::ConnectPrimary));
        assert_eq!(
            proxy.step(Event::UpstreamConnected { connected: true }),
            Some(Action::Bridge)
        );
        assert_eq!(proxy.step(Event::SessionStarted), Some(Action::Accept));
        assert_eq!(proxy.state(), State::Active);
        assert_eq!(proxy.primary_host(), "b");
    }
}

#[test]
fn next_backoff_doubles_up_to_the_cap() {
    assert_eq!(INITIAL_BACKOFF, 1);
    assert_eq!(next_backoff(1, 60), 2);
    assert_eq!(next_backoff(16, 60), 32);
    assert_eq!(next_backoff(30, 60), 60);
    assert_eq!(next_backoff(32, 60), 60);
    assert_eq!(next_backoff(60, 60), 60);
    assert_eq!(next_backoff(0, 60), 0);
    assert_eq!(next_backoff(1, 0), 0);
    assert_eq!(next_backoff(u64::MAX, u64::MAX), u64::MAX);
    assert_eq!(next_backoff(u64::MAX / 2 + 1, u64::MAX), u64::MAX);
}

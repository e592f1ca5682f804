use mona_spy::check_update::call_every_hour;
use mona_spy::check_update::PollAction;
use mona_spy::check_update::PollEvent;
use mona_spy::check_update::PollPhase;
use mona_spy::check_update::INTERVAL;
use mona_spy::check_update::SETTLE_DELAY;

fn expect_call(action: PollAction, url: &str) {
    match action {
        PollAction::Call(to) => assert_eq!(to, url),
        other => panic!("expected a call, got {:?}", other),
    }
}

#[test]
fn delays_are_five_seconds_and_an_hour() {
    assert_eq!(SETTLE_DELAY, 5);
    assert_eq!(INTERVAL, 3600);
}

#[test]
fn poller_starts_with_the_settle_delay() {
    let (poller, action) = call_every_hour("127.0.0.1:8080".to_string(), vec!["/promotional_codes"]);
    assert!(matches!(action, PollAction::Sleep(5)));
    assert_eq!(poller.urls, vec!["http://127.0.0.1:8080/promotional_codes"]);
    assert_eq!(poller.phase, PollPhase::Sleeping);
}

#[test]
fn a_round_calls_every_path_and_sleeps_an_hour() {
    let (poller, _) = call_every_hour("host:1".to_string(), vec!["/a", "/b", "/c"]);
    let (poller, action) = poller.next(PollEvent::Woke);
    expect_call(action, "http://host:1/a");
    assert_eq!(poller.phase, PollPhase::Calling(0));
    let (poller, action) = poller.next(PollEvent::Called { answered: true });
    expect_call(action, "http://host:1/b");
    let (poller, action) = poller.next(PollEvent::Called { answered: true });
    expect_call(action, "http://host:1/c");
    assert_eq!(poller.phase, PollPhase::Calling(2));
    let (poller, action) = poller.next(PollEvent::Called { answered: true });
    assert!(matches!(action, PollAction::Sleep(3600)));
    assert_eq!(poller.phase, PollPhase::Sleeping);
    let (poller, action) = poller.next(PollEvent::Woke);
    expect_call(action, "http://host:1/a");
    assert_eq!(poller.urls, vec!["http://host:1/a", "http://host:1/b", "http://host:1/c"]);
}

#[test]
fn a_failed_call_does_not_stop_the_round() {
    let (poller, _) = call_every_hour("host:1".to_string(), vec!["/a", "/b"]);
    let (poller, _) = poller.next(PollEvent::Woke);
    let (poller, action) = poller.next(PollEvent::Called { answered: false });
    expect_call(action, "http://host:1/b");
    let (poller, action) = poller.next(PollEvent::Called { answered: false });
    assert!(matches!(action, PollAction::Sleep(3600)));
    let (_, action) = poller.next(PollEvent::Woke);
    expect_call(action, "http://host:1/a");
}

#[test]
fn a_poller_without_paths_only_sleeps() {
    let (poller, action) = call_every_hour("host:1".to_string(), Vec::new());
    assert!(matches!(action, PollAction::Sleep(5)));
    let (poller, action) = poller.next(PollEvent::Woke);
    assert!(matches!(action, PollAction::Sleep(3600)));
    let (poller, action) = poller.next(PollEvent::Woke);
    assert!(matches!(action, PollAction::Sleep(3600)));
    assert_eq!(poller.phase, PollPhase::Sleeping);
}

#[test]
fn poller_ignores_events_that_are_not_awaited() {
    let (poller, _) = call_every_hour("host:1".to_string(), vec!["/a"]);
    let (poller, action) = poller.next(PollEvent::Called { answered: true });
    assert!(matches!(action, PollAction::Wait));
    assert_eq!(poller.phase, PollPhase::Sleeping);
    let (poller, _) = poller.next(PollEvent::Woke);
    let (poller, action) = poller.next(PollEvent::Woke);
    assert!(matches!(action, PollAction::Wait));
    assert_eq!(poller.phase, PollPhase::Calling(0));
}

//! Starting, watching and stopping a client.

use arti_c::socks::{accept_loop, AcceptAction, AcceptEvent};
use arti_c::startup::{
    async_main, build_config, run_thread, ConfigPlan, Main, MainAction, MainEvent, ThreadAction,
    ThreadEvent,
};
use arti_c::{
    arti_is_ready, arti_last_error, arti_socks_port, arti_start, arti_stop, arti_version,
    finish_start, set_err, Arti, ClientEvent, ErrorSlot, StartOutcome, StartPlan, StartResult,
    StopStep,
};

fn plan(dir: Option<&str>, socks_port: u16) -> StartPlan {
    StartPlan { dir: dir.map(|d| d.to_string()), socks_port }
}

/// A client that was told of these many successes.
fn main_after(successes: usize) -> Main {
    let mut main = Main::new(plan(Some("/var/lib/arti"), 9150));
    async_main(&mut main, MainEvent::Begin);
    for _ in 0..successes {
        async_main(&mut main, MainEvent::Done);
    }
    main
}

#[test]
fn version() {
    assert_eq!(arti_version(), "arti-c 0.1.0");
}

#[test]
fn without_a_client() {
    let mut startup = ErrorSlot::empty();
    assert_eq!(arti_is_ready(None), -1);
    assert_eq!(arti_socks_port(None), 0);
    assert_eq!(arti_last_error(None, &startup), None);
    assert_eq!(arti_stop(None), vec![]);
    set_err(&mut startup, "went wrong".to_string());
    assert_eq!(arti_last_error(None, &startup), Some("went wrong"));
}

#[test]
fn a_new_client_is_connecting() {
    let arti = Arti::new();
    assert_eq!(arti_is_ready(Some(&arti)), 0);
    assert_eq!(arti_socks_port(Some(&arti)), 0);
    assert_eq!(arti_last_error(Some(&arti), &ErrorSlot::empty()), None);
    assert_eq!(arti_stop(Some(&arti)), vec![StopStep::Signal, StopStep::Join, StopStep::Free]);
}

#[test]
fn a_bootstrapped_client_is_ready() {
    let mut arti = Arti::new();
    arti.note(ClientEvent::Listening(9050));
    arti.note(ClientEvent::Bootstrapped);
    assert_eq!(arti_is_ready(Some(&arti)), 1);
    assert_eq!(arti_socks_port(Some(&arti)), 9050);
}

#[test]
fn a_failed_bootstrap_is_final_and_explained() {
    let mut arti = Arti::new();
    let mut startup = ErrorSlot::empty();
    set_err(&mut startup, "an older error".to_string());
    arti.note(ClientEvent::BootstrapFailed("no relays".to_string()));
    assert_eq!(arti_is_ready(Some(&arti)), -1);
    assert_eq!(arti_last_error(Some(&arti), &startup), Some("bootstrap failed: no relays"));
    arti.note(ClientEvent::Bootstrapped);
    assert_eq!(arti_is_ready(Some(&arti)), -1);
    arti.note(ClientEvent::AcceptFailed("EMFILE".to_string()));
    assert_eq!(
        arti_last_error(Some(&arti), &startup),
        Some("error accepting SOCKS connection: EMFILE")
    );
    assert_eq!(arti_is_ready(Some(&arti)), -1);
}

#[test]
fn the_most_recent_error_is_kept() {
    let mut slot = ErrorSlot::empty();
    assert_eq!(slot.message(), None);
    set_err(&mut slot, "first".to_string());
    set_err(&mut slot, "second".to_string());
    assert_eq!(slot.message(), Some("second"));
    set_err(&mut slot, "a\0b".to_string());
    assert_eq!(slot.message(), Some("error message contained NUL byte"));
    set_err(&mut slot, String::new());
    assert_eq!(slot.message(), Some(""));
}

#[test]
fn starting_with_defaults() {
    let mut slot = ErrorSlot::empty();
    set_err(&mut slot, "an older error".to_string());
    assert_eq!(arti_start(&mut slot, None, 0), Some(plan(None, 9050)));
    assert_eq!(slot.message(), Some("an older error"));
}

#[test]
fn the_reason_of_the_most_recent_failed_start_is_kept() {
    let mut slot = ErrorSlot::empty();
    assert_eq!(arti_start(&mut slot, Some(&[0xff]), 0), None);
    assert_eq!(arti_last_error(None, &slot), Some("data_dir is not valid UTF-8"));

    for port in [9050, 9051] {
        let mut arti = Arti::new();
        assert!(arti_start(&mut slot, None, port).is_some());
        finish_start(&mut slot, &mut arti, StartOutcome::Listening(port));
        assert_eq!(arti_last_error(Some(&arti), &slot), None);
        assert_eq!(arti_last_error(None, &slot), Some("data_dir is not valid UTF-8"));
    }

    let mut arti = Arti::new();
    assert!(arti_start(&mut slot, None, 9050).is_some());
    finish_start(&mut slot, &mut arti, StartOutcome::Refused("port in use".to_string()));
    assert_eq!(arti_last_error(None, &slot), Some("port in use"));
}

#[test]
fn starts_that_succeed_leave_no_reason() {
    let mut slot = ErrorSlot::empty();
    for port in [9050, 9051] {
        let mut arti = Arti::new();
        assert!(arti_start(&mut slot, None, port).is_some());
        finish_start(&mut slot, &mut arti, StartOutcome::Listening(port));
        assert_eq!(arti_last_error(None, &slot), None);
    }
}

#[test]
fn starting_with_a_directory_and_a_port() {
    let mut slot = ErrorSlot::empty();
    let dir = "/tmp/\u{e9}".as_bytes();
    assert_eq!(arti_start(&mut slot, Some(dir), 9150), Some(plan(Some("/tmp/\u{e9}"), 9150)));
    assert_eq!(arti_start(&mut slot, Some(b""), 1), Some(plan(Some(""), 1)));
}

#[test]
fn starting_with_a_directory_that_is_not_utf8() {
    let mut slot = ErrorSlot::empty();
    for dir in [&[0xffu8][..], &[b'/', 0xc3], &[0xed, 0xa0, 0x80], &[0xc0, 0x80]] {
        assert_eq!(arti_start(&mut slot, Some(dir), 9050), None);
        assert_eq!(arti_last_error(None, &slot), Some("data_dir is not valid UTF-8"));
    }
}

#[test]
fn a_start_that_succeeds() {
    let mut slot = ErrorSlot::empty();
    let mut arti = Arti::new();
    let result = finish_start(&mut slot, &mut arti, StartOutcome::Listening(9051));
    assert_eq!(result, StartResult::Running);
    assert_eq!(arti_socks_port(Some(&arti)), 9051);
    assert_eq!(arti_is_ready(Some(&arti)), 0);
    assert_eq!(arti_last_error(None, &slot), None);
}

#[test]
fn a_client_that_is_ready_before_its_start_has_ended() {
    let mut slot = ErrorSlot::empty();
    let mut arti = Arti::new();
    arti.note(ClientEvent::Bootstrapped);
    finish_start(&mut slot, &mut arti, StartOutcome::Listening(9051));
    assert_eq!(arti_is_ready(Some(&arti)), 1);
}

#[test]
fn starts_that_fail() {
    let cases = [
        (
            StartOutcome::SpawnFailed("no threads".to_string()),
            StartResult::Failed,
            "failed to spawn Arti thread: no threads",
        ),
        (
            StartOutcome::Refused("port in use".to_string()),
            StartResult::FailedAndJoin,
            "port in use",
        ),
        (
            StartOutcome::TimedOut,
            StartResult::Failed,
            "timed out waiting for Arti startup (config load or port bind)",
        ),
    ];
    for (outcome, result, reason) in cases {
        let mut slot = ErrorSlot::empty();
        let mut arti = Arti::new();
        assert_eq!(finish_start(&mut slot, &mut arti, outcome), result);
        assert_eq!(arti_last_error(None, &slot), Some(reason));
        assert_eq!(arti_socks_port(Some(&arti)), 0);
    }
}

#[test]
fn configurations() {
    assert_eq!(build_config(&None), ConfigPlan::PlatformDefault);
    assert_eq!(
        build_config(&Some("/var/lib/arti".to_string())),
        ConfigPlan::Directories { dir: "/var/lib/arti".to_string(), state: "state", cache: "cache" }
    );
}

#[test]
fn the_way_of_a_client() {
    let mut main = Main::new(plan(None, 9050));
    assert_eq!(
        async_main(&mut main, MainEvent::Begin),
        MainAction::Configure(ConfigPlan::PlatformDefault)
    );
    assert_eq!(async_main(&mut main, MainEvent::Done), MainAction::CreateClient);
    assert_eq!(async_main(&mut main, MainEvent::Done), MainAction::Bind(9050));
    assert_eq!(async_main(&mut main, MainEvent::Done), MainAction::ReadPort);
    assert_eq!(async_main(&mut main, MainEvent::Bound(9050)), MainAction::Serve(9050));
    assert_eq!(async_main(&mut main, MainEvent::Shutdown(false)), MainAction::Wait);
    assert_eq!(async_main(&mut main, MainEvent::Shutdown(false)), MainAction::Wait);
    assert_eq!(async_main(&mut main, MainEvent::Shutdown(true)), MainAction::Stop(9050));
    assert_eq!(async_main(&mut main, MainEvent::Shutdown(false)), MainAction::Stop(9050));
}

#[test]
fn a_client_ends_with_the_port_it_was_bound_to() {
    let mut main = main_after(3);
    assert_eq!(async_main(&mut main, MainEvent::Bound(9151)), MainAction::Serve(9151));
    assert_eq!(async_main(&mut main, MainEvent::Done), MainAction::Wait);
    assert_eq!(async_main(&mut main, MainEvent::Failed("why".to_string())), MainAction::Wait);
    assert_eq!(async_main(&mut main, MainEvent::Bound(1)), MainAction::Wait);
    assert_eq!(async_main(&mut main, MainEvent::Shutdown(true)), MainAction::Stop(9151));
}

#[test]
fn stopping_a_client() {
    let mut arti = Arti::new();
    let mut main = main_after(3);
    async_main(&mut main, MainEvent::Bound(9150));
    arti.note(ClientEvent::Listening(9150));
    for event in [ClientEvent::Bootstrapped, ClientEvent::BootstrapFailed("why".to_string())] {
        arti.note(event);
        assert_eq!(arti_stop(Some(&arti)), vec![StopStep::Signal, StopStep::Join, StopStep::Free]);
    }
    assert_eq!(async_main(&mut main, MainEvent::Shutdown(true)), MainAction::Stop(9150));
    assert_eq!(async_main(&mut main, MainEvent::Abandoned), MainAction::Stop(9150));
    assert_eq!(run_thread(&mut arti, ThreadEvent::MainEnded), ThreadAction::ShutDown);
    assert_eq!(accept_loop(&mut arti, AcceptEvent::Shutdown), AcceptAction::Stop);
}

#[test]
fn the_port_is_the_one_asked_for_and_stays() {
    for (asked, port) in [(0, 9050), (1, 1), (65535, 65535)] {
        let mut slot = ErrorSlot::empty();
        let mut main = Main::new(arti_start(&mut slot, None, asked).unwrap());
        async_main(&mut main, MainEvent::Begin);
        async_main(&mut main, MainEvent::Done);
        assert_eq!(async_main(&mut main, MainEvent::Done), MainAction::Bind(port));
        async_main(&mut main, MainEvent::Done);
        assert_eq!(async_main(&mut main, MainEvent::Bound(port)), MainAction::Serve(port));

        let mut arti = Arti::new();
        finish_start(&mut slot, &mut arti, StartOutcome::Listening(port));
        arti.note(ClientEvent::AcceptFailed("EMFILE".to_string()));
        arti.note(ClientEvent::BootstrapFailed("no relays".to_string()));
        arti.note(ClientEvent::Ended("gave up".to_string()));
        assert_eq!(arti_socks_port(Some(&arti)), port);
    }
}

#[test]
fn a_ready_client_stays_ready() {
    let mut arti = Arti::new();
    arti.note(ClientEvent::Bootstrapped);
    arti.note(ClientEvent::Listening(9050));
    assert_eq!(arti_is_ready(Some(&arti)), 1);
    arti.note(ClientEvent::AcceptFailed("EMFILE".to_string()));
    assert_eq!(arti_is_ready(Some(&arti)), 1);
}

#[test]
fn an_abandoned_client_stops() {
    let mut main = main_after(3);
    assert_eq!(async_main(&mut main, MainEvent::Bound(1)), MainAction::Serve(1));
    assert_eq!(async_main(&mut main, MainEvent::Abandoned), MainAction::Stop(1));
}

#[test]
fn failures_on_the_way() {
    let reasons = [
        "failed to build Arti configuration: why",
        "failed to create Arti client: why",
        "failed to bind SOCKS listener on 127.0.0.1:9150: why",
        "failed to read bound SOCKS port: why",
    ];
    for (successes, reason) in reasons.into_iter().enumerate() {
        let mut main = main_after(successes);
        assert_eq!(
            async_main(&mut main, MainEvent::Failed("why".to_string())),
            MainAction::Fail(reason.to_string())
        );
        assert_eq!(async_main(&mut main, MainEvent::Done), MainAction::Abort);
    }
}

#[test]
fn outcomes_of_what_was_not_asked_for() {
    for successes in 0..4 {
        let mut main = main_after(successes);
        assert_eq!(async_main(&mut main, MainEvent::Begin), MainAction::Abort);
        assert_eq!(async_main(&mut main, MainEvent::Bound(9050)), MainAction::Abort);
    }
}

#[test]
fn the_thread_of_a_client() {
    let mut arti = Arti::new();
    assert_eq!(run_thread(&mut arti, ThreadEvent::RuntimeBuilt), ThreadAction::RunMain);
    assert_eq!(run_thread(&mut arti, ThreadEvent::MainEnded), ThreadAction::ShutDown);
    assert_eq!(
        run_thread(&mut arti, ThreadEvent::RuntimeFailed("no memory".to_string())),
        ThreadAction::Report("failed to build tokio runtime: no memory".to_string())
    );
    assert_eq!(arti_is_ready(Some(&arti)), 0);
    assert_eq!(
        run_thread(&mut arti, ThreadEvent::MainFailed("gave up".to_string())),
        ThreadAction::ReportAndShutDown("gave up".to_string())
    );
    assert_eq!(arti_is_ready(Some(&arti)), -1);
    assert_eq!(arti_last_error(Some(&arti), &ErrorSlot::empty()), Some("gave up"));
}

#[test]
fn the_reason_of_a_failed_bind_reaches_the_caller() {
    let mut slot = ErrorSlot::empty();
    let mut arti = Arti::new();
    let mut main = Main::new(arti_start(&mut slot, None, 0).unwrap());
    async_main(&mut main, MainEvent::Begin);
    async_main(&mut main, MainEvent::Done);
    async_main(&mut main, MainEvent::Done);
    let reason = match async_main(&mut main, MainEvent::Failed("in use".to_string())) {
        MainAction::Fail(reason) => reason,
        other => panic!("{:?}", other),
    };
    let reported = match run_thread(&mut arti, ThreadEvent::MainFailed(reason)) {
        ThreadAction::ReportAndShutDown(reported) => reported,
        other => panic!("{:?}", other),
    };
    finish_start(&mut slot, &mut arti, StartOutcome::Refused(reported));
    assert_eq!(
        arti_last_error(None, &slot),
        Some("failed to bind SOCKS listener on 127.0.0.1:9050: in use")
    );
}

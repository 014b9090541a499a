//! What holds of the library as a whole.

use vstd::prelude::*;
use vstd::utf8::{decode_utf8, valid_utf8};

use crate::error::error_text;
use crate::handle::{stop_steps, ArtiView, ClientEvent, StopStep};
use crate::ip::{ip_of, IpAddr};
use crate::proto::{
    be16, octets, reply_bytes, request_addr, request_command, request_port, request_target,
    request_version, socks5_addr, stepped, unspecified, Outcome, Step, Target,
};
use crate::socks::{
    after_accept_event, after_event, after_outcome, after_request, after_step, family_of, is_fresh,
    noted_on_accept, plan_of, reply_to, status_of, AcceptAction, AcceptEvent, Action, ActionView,
    ConnState, ErrorKind, Event, Family, Phase, Plan, SocksStatus, CONNECT, RESOLVE,
};
use crate::startup::{
    after_main_event, after_thread_event, bytes_view, config_of, effective_port, kept_after_finish,
    kept_after_start, main_failure, noted_at_finish, noted_by_thread, start_failure, start_of,
    start_result, text_view, ConfigPlan, ConfigPlanView, MainAction, MainActionView, MainEvent,
    MainState, Stage, StartOutcome, StartPlan, StartPlanView, StartResult, ThreadAction,
    ThreadActionView, ThreadEvent, SHUTDOWN_TIMEOUT, STARTUP_TIMEOUT,
};
use crate::tcp_mark::{connect_steps, domain_of, mark_step, Domain, SocketStep};
use crate::text::decimal;

verus! {

/// A kept error message contains no NUL, whatever the message was.
pub proof fn law_error_text_has_no_nul(msg: Seq<char>)
    ensures
        !error_text(msg).contains('\0'),
{
    reveal_strlit("error message contained NUL byte");
}

/// A message is kept as it is, unless it contains a NUL: then the text says so.
pub proof fn law_message_is_kept(msg: Seq<char>)
    ensures
        error_text(msg) == msg || error_text(msg) == "error message contained NUL byte"@,
        error_text(msg) == msg <==> !msg.contains('\0'),
{
    reveal_strlit("error message contained NUL byte");
}

/// A number in decimal is its digits, the one for the units last.
pub proof fn law_decimal_digits(tens: nat, units: nat)
    requires
        units < 10,
    ensures
        decimal(units).len() == 1,
        decimal(units)[0] as int == '0' as int + units,
        tens > 0 ==> decimal(10 * tens + units) == decimal(tens) + decimal(units),
{
    assert((10 * tens + units) / 10 == tens);
    assert((10 * tens + units) % 10 == units);
}

// ---------------------------------------------------------------------------
// The client's handle
// ---------------------------------------------------------------------------

/// Whether `event` makes a client fail for good.
pub open spec fn is_failure(event: ClientEvent) -> bool {
    event is BootstrapFailed || event is Ended
}

/// Whether `event` is one that a client reports as an error.
pub open spec fn is_error(event: ClientEvent) -> bool {
    is_failure(event) || event is AcceptFailed
}

/// A client is ready if it has bootstrapped, in error if anything made it fail,
/// and connecting otherwise.
pub proof fn law_readiness(events: Seq<ClientEvent>)
    ensures
        ArtiView::started().after_all(events).failed <==> exists|i: int|
            0 <= i < events.len() && #[trigger] is_failure(events[i]),
        ArtiView::started().after_all(events).ready <==> exists|i: int|
            0 <= i < events.len() && #[trigger] events[i] is Bootstrapped,
        ({
            let readiness = ArtiView::started().after_all(events).readiness();
            let failed = exists|i: int| 0 <= i < events.len() && #[trigger] is_failure(events[i]);
            let ready = exists|i: int|
                0 <= i < events.len() && #[trigger] events[i] is Bootstrapped;
            &&& readiness == -1 <==> failed
            &&& readiness == 1 <==> ready && !failed
            &&& readiness == 0 <==> !ready && !failed
        }),
    decreases events.len(),
{
    if events.len() > 0 {
        let before = events.drop_last();
        let last = events.last();
        law_readiness(before);
        let state = ArtiView::started().after_all(events);
        if state.failed {
            if is_failure(last) {
                assert(is_failure(events[events.len() - 1]));
            } else {
                let i = choose|i: int| 0 <= i < before.len() && #[trigger] is_failure(before[i]);
                assert(is_failure(events[i]));
            }
        } else {
            assert forall|i: int| 0 <= i < events.len() implies !#[trigger] is_failure(
                events[i],
            ) by {
                if i < before.len() {
                    assert(!is_failure(before[i]));
                }
            }
        }
        if state.ready {
            if last is Bootstrapped {
                assert(events[events.len() - 1] is Bootstrapped);
            } else {
                let i = choose|i: int|
                    0 <= i < before.len() && #[trigger] before[i] is Bootstrapped;
                assert(events[i] is Bootstrapped);
            }
        } else {
            assert forall|i: int| 0 <= i < events.len() implies !(
                #[trigger] events[i] is Bootstrapped) by {
                if i < before.len() {
                    assert(!(before[i] is Bootstrapped));
                }
            }
        }
    }
}

/// A client that is in error says why: there is a most recent error exactly when
/// something went wrong.
pub proof fn law_failure_is_explained(events: Seq<ClientEvent>)
    ensures
        ArtiView::started().after_all(events).last_error is Some <==> exists|i: int|
            0 <= i < events.len() && #[trigger] is_error(events[i]),
        ArtiView::started().after_all(events).readiness() == -1 ==> ArtiView::started().after_all(
            events,
        ).last_error is Some,
    decreases events.len(),
{
    if events.len() > 0 {
        let before = events.drop_last();
        let last = events.last();
        law_failure_is_explained(before);
        if ArtiView::started().after_all(events).last_error is Some {
            if is_error(last) {
                assert(is_error(events[events.len() - 1]));
            } else {
                let i = choose|i: int| 0 <= i < before.len() && #[trigger] is_error(before[i]);
                assert(is_error(events[i]));
            }
        } else {
            assert forall|i: int| 0 <= i < events.len() implies !#[trigger] is_error(events[i]) by {
                if i < before.len() {
                    assert(!is_error(before[i]));
                }
            }
        }
    }
}

/// What each event changes of what a client reports, and that it changes nothing
/// else.
pub proof fn law_events_change_what_they_say(arti: ArtiView, event: ClientEvent)
    ensures
        ({
            let after = arti.after(event);
            &&& after.ready <==> arti.ready || event is Bootstrapped
            &&& after.failed <==> arti.failed || event is BootstrapFailed || event is Ended
            &&& after.socks_port == (if event is Listening {
                event->Listening_0
            } else {
                arti.socks_port
            })
            &&& event is Listening || event is Bootstrapped ==> after.last_error == arti.last_error
            &&& event is BootstrapFailed || event is AcceptFailed || event is Ended
                ==> after.last_error is Some
        }),
{
}

/// A client reports -1 if it failed, whether or not it was ready, and else 1 if it
/// is ready and 0 if it is not. A client that was just started has port zero, no
/// error, and is neither ready nor failed.
pub proof fn law_readiness_of_a_state(arti: ArtiView)
    ensures
        arti.failed <==> arti.readiness() == -1,
        arti.ready && !arti.failed <==> arti.readiness() == 1,
        !arti.ready && !arti.failed <==> arti.readiness() == 0,
        !ArtiView::started().ready,
        !ArtiView::started().failed,
        ArtiView::started().socks_port == 0,
        ArtiView::started().last_error is None,
{
}

/// A failure is final: whatever happens afterwards, the client stays in error.
pub proof fn law_failure_is_final(arti: ArtiView, events: Seq<ClientEvent>)
    requires
        arti.failed,
    ensures
        arti.after_all(events).readiness() == -1,
    decreases events.len(),
{
    if events.len() > 0 {
        law_failure_is_final(arti, events.drop_last());
    }
}

/// The flags of a client only ever rise: one that was ready stays ready, one that
/// failed stays failed.
pub proof fn law_flags_only_rise(arti: ArtiView, events: Seq<ClientEvent>)
    ensures
        arti.ready ==> arti.after_all(events).ready,
        arti.failed ==> arti.after_all(events).failed,
    decreases events.len(),
{
    if events.len() > 0 {
        law_flags_only_rise(arti, events.drop_last());
    }
}

/// The most recent error is the one that is kept: an error replaces what was
/// kept before, and nothing else does.
pub proof fn law_most_recent_error_is_kept(arti: ArtiView, event: ClientEvent)
    ensures
        !is_error(event) ==> arti.after(event).last_error == arti.last_error,
        event matches ClientEvent::BootstrapFailed(e) ==> arti.after(event).last_error == Some(
            error_text("bootstrap failed: "@ + e@),
        ),
        event matches ClientEvent::AcceptFailed(e) ==> arti.after(event).last_error == Some(
            error_text("error accepting SOCKS connection: "@ + e@),
        ),
        event matches ClientEvent::Ended(msg) ==> arti.after(event).last_error == Some(
            error_text(msg@),
        ),
{
}

/// The port that a client reports stays the one that it listens on.
pub proof fn law_port_is_kept(arti: ArtiView, port: u16, events: Seq<ClientEvent>)
    requires
        forall|i: int| 0 <= i < events.len() ==> !(#[trigger] events[i] is Listening),
    ensures
        arti.after(ClientEvent::Listening(port)).after_all(events).socks_port == port,
    decreases events.len(),
{
    if events.len() > 0 {
        let before = events.drop_last();
        assert forall|i: int| 0 <= i < before.len() implies !(
            #[trigger] before[i] is Listening) by {
            assert(before[i] == events[i]);
        }
        assert(!(events[events.len() - 1] is Listening));
        law_port_is_kept(arti, port, before);
    }
}

// ---------------------------------------------------------------------------
// Starting and stopping
// ---------------------------------------------------------------------------

/// Port zero selects 9050, any other port itself; the result is never zero.
pub proof fn law_default_port(socks_port: u16)
    ensures
        effective_port(0) == 9050,
        socks_port != 0 ==> effective_port(socks_port) == socks_port,
        effective_port(socks_port) != 0,
{
}

/// A client is started with the directory that was given, whatever the port, and
/// with the platform's default ones if none was given. It is refused only for a
/// directory that is not valid UTF-8.
pub proof fn law_start_uses_directory(bytes: Seq<u8>, socks_port: u16)
    ensures
        valid_utf8(bytes) ==> start_of(Some(bytes), socks_port) is Ok && start_of(
            Some(bytes),
            socks_port,
        )->Ok_0.dir == Some(decode_utf8(bytes)),
        !valid_utf8(bytes) ==> start_of(Some(bytes), socks_port) is Err && start_of(
            Some(bytes),
            socks_port,
        )->Err_0 == "data_dir is not valid UTF-8"@,
        start_of(None, socks_port) is Ok,
        start_of(None, socks_port)->Ok_0.dir is None,
{
}

/// A client is started with the port that was asked for, and with 9050 for port
/// zero, whatever the directory.
pub proof fn law_start_uses_port(data_dir: Option<Seq<u8>>, socks_port: u16)
    requires
        start_of(data_dir, socks_port) is Ok,
    ensures
        socks_port == 0 ==> start_of(data_dir, socks_port)->Ok_0.socks_port == 9050,
        socks_port != 0 ==> start_of(data_dir, socks_port)->Ok_0.socks_port == socks_port,
{
}

/// A client keeps its state and its cache in the subdirectories `state` and
/// `cache` of the directory that it was started with, and in the platform's
/// default directories without one.
pub proof fn law_config_uses_directory(s: MainState, dir: Seq<char>)
    requires
        s.stage == Stage::New,
    ensures
        s.plan.dir is None ==> after_main_event(s, MainEvent::Begin).1 == MainActionView::Configure(
            ConfigPlanView::PlatformDefault,
        ),
        s.plan.dir == Some(dir) ==> after_main_event(s, MainEvent::Begin).1
            == MainActionView::Configure(
            ConfigPlanView::Directories { dir, state: "state"@, cache: "cache"@ },
        ),
        config_of(None) == ConfigPlanView::PlatformDefault,
        config_of(Some(dir)) == (ConfigPlanView::Directories {
            dir,
            state: "state"@,
            cache: "cache"@,
        }),
{
}

/// A start succeeds exactly if the client listens on a port, which it then
/// reports; otherwise the client reports nothing new. The thread of a client that
/// gave up is waited for, and no other.
pub proof fn law_start_succeeds_if_listening(arti: ArtiView, outcome: StartOutcome)
    ensures
        start_result(outcome) == StartResult::Running <==> outcome is Listening,
        start_result(outcome) == StartResult::FailedAndJoin <==> outcome is Refused,
        start_failure(outcome) is None <==> outcome is Listening,
        noted_at_finish(arti, outcome).ready == arti.ready,
        noted_at_finish(arti, outcome).failed == arti.failed,
        noted_at_finish(arti, outcome).last_error == arti.last_error,
        noted_at_finish(arti, outcome).socks_port == (if outcome is Listening {
            outcome->Listening_0
        } else {
            arti.socks_port
        }),
{
}

/// What the caller is told of a start that failed, in place of anything that was
/// kept before.
pub proof fn law_reasons_of_failed_starts(kept: Option<Seq<char>>, e: String)
    requires
        !e@.contains('\0'),
    ensures
        kept_after_finish(kept, StartOutcome::SpawnFailed(e)) == Some(
            "failed to spawn Arti thread: "@ + e@,
        ),
        kept_after_finish(kept, StartOutcome::Refused(e)) == Some(e@),
        kept_after_finish(kept, StartOutcome::TimedOut) == Some(
            "timed out waiting for Arti startup (config load or port bind)"@,
        ),
        start_failure(StartOutcome::SpawnFailed(e)) == Some(
            "failed to spawn Arti thread: "@ + e@,
        ),
        start_failure(StartOutcome::Refused(e)) == Some(e@),
        start_failure(StartOutcome::TimedOut) == Some(
            "timed out waiting for Arti startup (config load or port bind)"@,
        ),
{
    reveal_strlit("failed to spawn Arti thread: ");
    reveal_strlit("timed out waiting for Arti startup (config load or port bind)");
    let spawn = "failed to spawn Arti thread: "@;
    assert forall|i: int| 0 <= i < (spawn + e@).len() implies (spawn + e@)[i] != '\0' by {
        if i >= spawn.len() {
            assert(e@.contains(e@[i - spawn.len()]));
        }
    }
}

/// What the thread of a client does: it runs the client when there is a runtime,
/// reports why it could not, and shuts the runtime down whenever there is one to
/// shut down. A client that gave up, and only that, is marked as failed, with its
/// reason.
pub proof fn law_thread_of_a_client(arti: ArtiView, event: ThreadEvent)
    ensures
        event is RuntimeBuilt <==> after_thread_event(event) is RunMain,
        event is MainEnded <==> after_thread_event(event) is ShutDown,
        event matches ThreadEvent::RuntimeFailed(e) ==> after_thread_event(event)
            == ThreadActionView::Report("failed to build tokio runtime: "@ + e@),
        event matches ThreadEvent::MainFailed(msg) ==> after_thread_event(event)
            == ThreadActionView::ReportAndShutDown(msg@),
        !(event is MainFailed) ==> noted_by_thread(arti, event) == arti,
        event matches ThreadEvent::MainFailed(msg) ==> {
            let after = noted_by_thread(arti, event);
            &&& after.readiness() == -1
            &&& after.last_error == Some(error_text(msg@))
            &&& after.socks_port == arti.socks_port
            &&& after.ready == arti.ready
        },
{
}

/// A text, and the bytes of a directory, are seen as they are, an empty one too.
pub proof fn law_texts_are_seen_as_they_are(text: String, bytes: &[u8])
    ensures
        text_view(Some(text)) == Some(text@),
        text_view(None) is None,
        bytes_view(Some(bytes)) == Some(bytes@),
        bytes_view(None) is None,
{
}

/// What a client is started and configured with is seen in full.
pub proof fn law_plans_are_seen_in_full(plan: StartPlan, config: ConfigPlan)
    ensures
        plan@.socks_port == plan.socks_port,
        plan@.dir is Some <==> plan.dir is Some,
        plan.dir is Some ==> plan@.dir->0 == plan.dir->0@,
        config@ is PlatformDefault <==> config is PlatformDefault,
        config is Directories ==> config@->Directories_dir == config->Directories_dir@,
        config is Directories ==> config@->Directories_state == config->Directories_state@,
        config is Directories ==> config@->Directories_cache == config->Directories_cache@,
{
}

/// What a client and its thread do is seen in full.
pub proof fn law_actions_of_a_client_are_seen_in_full(main: MainAction, thread: ThreadAction)
    ensures
        main@ is Configure <==> main is Configure,
        main is Configure ==> main@->Configure_0 == main->Configure_0@,
        main@ is CreateClient <==> main is CreateClient,
        main@ is Bind <==> main is Bind,
        main is Bind ==> main@->Bind_0 == main->Bind_0,
        main@ is ReadPort <==> main is ReadPort,
        main@ is Serve <==> main is Serve,
        main is Serve ==> main@->Serve_0 == main->Serve_0,
        main@ is Wait <==> main is Wait,
        main@ is Stop <==> main is Stop,
        main is Stop ==> main@->Stop_0 == main->Stop_0,
        main@ is Fail <==> main is Fail,
        main is Fail ==> main@->Fail_0 == main->Fail_0@,
        thread@ is RunMain <==> thread is RunMain,
        thread@ is Report <==> thread is Report,
        thread is Report ==> thread@->Report_0 == thread->Report_0@,
        thread@ is ReportAndShutDown <==> thread is ReportAndShutDown,
        thread is ReportAndShutDown ==> thread@->ReportAndShutDown_0
            == thread->ReportAndShutDown_0@,
        thread@ is ShutDown <==> thread is ShutDown,
{
}

/// How long a start and a shutdown may take, in seconds.
pub proof fn law_timeouts()
    ensures
        STARTUP_TIMEOUT == 120,
        SHUTDOWN_TIMEOUT == 5,
{
}

/// One attempt to start a client, and what became of it if it could begin.
pub struct Attempt {
    pub data_dir: Option<Seq<u8>>,
    pub socks_port: u16,
    pub outcome: StartOutcome,
}

impl Attempt {
    /// Whether the attempt ended with a running client.
    pub open spec fn succeeded(self) -> bool {
        start_of(self.data_dir, self.socks_port) is Ok && start_result(self.outcome)
            == StartResult::Running
    }

    /// Why the attempt failed, if it did.
    pub open spec fn reason(self) -> Option<Seq<char>> {
        match start_of(self.data_dir, self.socks_port) {
            Ok(_) => start_failure(self.outcome),
            Err(msg) => Some(msg),
        }
    }

    /// The reason that is kept after the attempt, when `kept` was kept before.
    pub open spec fn kept_after(self, kept: Option<Seq<char>>) -> Option<Seq<char>> {
        let begun = kept_after_start(kept, self.data_dir, self.socks_port);
        match start_of(self.data_dir, self.socks_port) {
            Ok(_) => kept_after_finish(begun, self.outcome),
            Err(_) => begun,
        }
    }
}

/// The reason that is kept after `attempts`, one after the other.
pub open spec fn kept_after_attempts(kept: Option<Seq<char>>, attempts: Seq<Attempt>) -> Option<
    Seq<char>,
>
    decreases attempts.len(),
{
    if attempts.len() == 0 {
        kept
    } else {
        attempts.last().kept_after(kept_after_attempts(kept, attempts.drop_last()))
    }
}

/// A start either ends with a running client or has a reason for its failure. A
/// failed start leaves its own reason, a successful one what was kept before.
pub proof fn law_failed_start_is_explained(kept: Option<Seq<char>>, attempt: Attempt)
    ensures
        attempt.succeeded() <==> attempt.reason() is None,
        attempt.kept_after(kept) == (match attempt.reason() {
            Some(msg) => Some(error_text(msg)),
            None => kept,
        }),
{
}

/// The reason of the most recent failed start is kept, however many starts
/// succeed after it.
pub proof fn law_most_recent_failed_start_is_kept(
    kept: Option<Seq<char>>,
    attempts: Seq<Attempt>,
    i: int,
)
    requires
        0 <= i < attempts.len(),
        !attempts[i].succeeded(),
        forall|j: int| i < j < attempts.len() ==> (#[trigger] attempts[j]).succeeded(),
    ensures
        attempts[i].reason() is Some,
        kept_after_attempts(kept, attempts) == Some(error_text(attempts[i].reason()->0)),
    decreases attempts.len(),
{
    let before = attempts.drop_last();
    let last = attempts.len() - 1;
    if i < last {
        assert(before[i] == attempts[i]);
        assert forall|j: int| i < j < before.len() implies (#[trigger] before[j]).succeeded() by {
            assert(before[j] == attempts[j]);
        }
        assert(attempts[last].succeeded());
        law_most_recent_failed_start_is_kept(kept, before, i);
    }
}

/// Starts that succeed leave what was kept before them, so that there is nothing
/// to report as long as no start has failed.
pub proof fn law_successful_starts_keep_no_reason(
    kept: Option<Seq<char>>,
    attempts: Seq<Attempt>,
)
    requires
        forall|i: int| 0 <= i < attempts.len() ==> (#[trigger] attempts[i]).succeeded(),
    ensures
        kept_after_attempts(kept, attempts) == kept,
    decreases attempts.len(),
{
    if attempts.len() > 0 {
        let before = attempts.drop_last();
        assert forall|i: int| 0 <= i < before.len() implies (#[trigger] before[i]).succeeded() by {
            assert(before[i] == attempts[i]);
        }
        assert(attempts[attempts.len() - 1].succeeded());
        law_successful_starts_keep_no_reason(kept, before);
    }
}

/// The failure of a client on its way to serving is what the caller of the start
/// is told.
pub proof fn law_failure_reaches_caller(
    s: MainState,
    e: String,
    reported: String,
    kept: Option<Seq<char>>,
)
    requires
        main_failure(s.stage, s.plan.socks_port, e@) is Some,
        after_main_event(s, MainEvent::Failed(e)).1 == MainActionView::Fail(reported@),
    ensures
        Some(reported@) == main_failure(s.stage, s.plan.socks_port, e@),
        after_thread_event(ThreadEvent::MainFailed(reported))
            == ThreadActionView::ReportAndShutDown(reported@),
        start_failure(StartOutcome::Refused(reported)) == Some(reported@),
        kept_after_finish(kept, StartOutcome::Refused(reported)) == Some(error_text(reported@)),
{
}

/// A client after `events`, one after the other.
pub open spec fn run(s: MainState, events: Seq<MainEvent>) -> MainState
    decreases events.len(),
{
    if events.len() == 0 {
        s
    } else {
        run(after_main_event(s, events[0]).0, events.skip(1))
    }
}

/// A client that nothing goes wrong for builds the configuration for its
/// directory, binds the port that was asked for, and reports the port that it is
/// bound to, all before it has bootstrapped.
pub proof fn law_start_succeeds(s: MainState, port: u16)
    requires
        s.stage == Stage::New,
    ensures
        ({
            let done = MainEvent::Done;
            let (config, first) = after_main_event(s, MainEvent::Begin);
            let (client, second) = after_main_event(config, done);
            let (bind, third) = after_main_event(client, done);
            let (read, fourth) = after_main_event(bind, done);
            let (serving, fifth) = after_main_event(read, MainEvent::Bound(port));
            &&& first == MainActionView::Configure(config_of(s.plan.dir))
            &&& second == MainActionView::CreateClient
            &&& third == MainActionView::Bind(s.plan.socks_port)
            &&& fourth == MainActionView::ReadPort
            &&& fifth == MainActionView::Serve(port)
            &&& serving == s.at(Stage::Serving(port))
        }),
{
}

/// What a client that fails on its way to serving says: what it was doing, and why
/// that failed.
pub proof fn law_failures_say_what_failed(s: MainState, e: String)
    ensures
        ({
            let (next, action) = after_main_event(s, MainEvent::Failed(e));
            &&& s.stage == Stage::Config ==> action == MainActionView::Fail(
                "failed to build Arti configuration: "@ + e@,
            )
            &&& s.stage == Stage::Client ==> action == MainActionView::Fail(
                "failed to create Arti client: "@ + e@,
            )
            &&& s.stage == Stage::Bind ==> action == MainActionView::Fail(
                "failed to bind SOCKS listener on 127.0.0.1:"@ + decimal(s.plan.socks_port as nat)
                    + ": "@ + e@,
            )
            &&& s.stage == Stage::Port ==> action == MainActionView::Fail(
                "failed to read bound SOCKS port: "@ + e@,
            )
            &&& action is Fail ==> next.stage == Stage::Ended
            &&& action is Fail <==> (s.stage is Config || s.stage is Client || s.stage is Bind
                || s.stage is Port)
        }),
{
}

/// A client goes from one stage to the next only when what it was asked to do has
/// succeeded, and keeps what it was started with. Before it serves, anything that
/// is not the outcome of what it was asked to do ends it at once.
pub proof fn law_stages_follow_each_other(s: MainState, event: MainEvent)
    ensures
        ({
            let (next, action) = after_main_event(s, event);
            &&& next.plan == s.plan
            &&& next.stage == Stage::Config <==> s.stage == Stage::New && event is Begin
            &&& next.stage == Stage::Client <==> s.stage == Stage::Config && event is Done
            &&& next.stage == Stage::Bind <==> s.stage == Stage::Client && event is Done
            &&& next.stage == Stage::Port <==> s.stage == Stage::Bind && event is Done
            &&& next.stage is Serving && !(s.stage is Serving) <==> s.stage == Stage::Port
                && event is Bound
            &&& next.stage != Stage::New
            &&& !is_outcome(s.stage, event) && !(s.stage is Serving) && !(s.stage is Stopped)
                ==> next.stage == Stage::Ended && action == MainActionView::Abort
        }),
{
}

/// A client that comes to serve a port, and to end with it, was told that its
/// listener is bound to that port.
pub proof fn law_serves_bound_port(s: MainState, events: Seq<MainEvent>, port: u16)
    requires
        !has_reported(s),
        run(s, events).stage == Stage::Serving(port) || run(s, events).stage == Stage::Stopped(
            port,
        ),
    ensures
        events.contains(MainEvent::Bound(port)),
    decreases events.len(),
{
    let next = after_main_event(s, events[0]).0;
    let rest = events.skip(1);
    if has_reported(next) {
        lemma_stage_is_kept(next, rest);
        assert(events[0] == MainEvent::Bound(port));
    } else {
        law_serves_bound_port(next, rest, port);
        let i = choose|i: int| 0 <= i < rest.len() && rest[i] == MainEvent::Bound(port);
        assert(events[i + 1] == MainEvent::Bound(port));
    }
}

proof fn lemma_stage_is_kept(s: MainState, events: Seq<MainEvent>)
    requires
        has_reported(s),
    ensures
        match s.stage {
            Stage::Serving(port) => run(s, events).stage == Stage::Serving(port) || run(
                s,
                events,
            ).stage == Stage::Stopped(port),
            _ => run(s, events).stage == s.stage,
        },
    decreases events.len(),
{
    if events.len() > 0 {
        lemma_stage_is_kept(after_main_event(s, events[0]).0, events.skip(1));
    }
}

/// How often a client reports to the caller of its start while `events` happen:
/// the port it serves, or a failure.
pub open spec fn reports(s: MainState, events: Seq<MainEvent>) -> nat
    decreases events.len(),
{
    if events.len() == 0 {
        0
    } else {
        let (next, action) = after_main_event(s, events[0]);
        (if action is Serve || action is Fail {
            1nat
        } else {
            0nat
        }) + reports(next, events.skip(1))
    }
}

/// A client reports at most once, and not at all when it already serves or has
/// ended.
pub proof fn law_reports_once(s: MainState, events: Seq<MainEvent>)
    ensures
        reports(s, events) <= 1,
        has_reported(s) ==> reports(s, events) == 0,
    decreases events.len(),
{
    if events.len() > 0 {
        law_reports_once(after_main_event(s, events[0]).0, events.skip(1));
    }
}

/// Whether `event` is one that can happen to a client at `stage`: the outcome of
/// what it was asked to do last.
pub open spec fn is_outcome(stage: Stage, event: MainEvent) -> bool {
    match stage {
        Stage::New => event is Begin,
        Stage::Config => event is Done || event is Failed,
        Stage::Client => event is Done || event is Failed,
        Stage::Bind => event is Done || event is Failed,
        Stage::Port => event is Bound || event is Failed,
        Stage::Serving(_) => event is Shutdown || event is Abandoned,
        Stage::Stopped(_) => false,
        Stage::Ended => false,
    }
}

/// Whether `events` are ones that can happen to a client, one after the other.
pub open spec fn are_outcomes(s: MainState, events: Seq<MainEvent>) -> bool
    decreases events.len(),
{
    events.len() == 0 || (is_outcome(s.stage, events[0]) && are_outcomes(
        after_main_event(s, events[0]).0,
        events.skip(1),
    ))
}

/// Whether a client has got so far that the caller of its start was told.
pub open spec fn has_reported(s: MainState) -> bool {
    s.stage is Serving || s.stage is Stopped || s.stage is Ended
}

/// The caller of a start is always told what became of it: a client that serves
/// or has ended has reported, exactly once.
pub proof fn law_start_is_answered(s: MainState, events: Seq<MainEvent>)
    requires
        are_outcomes(s, events),
    ensures
        reports(s, events) == (if !has_reported(s) && has_reported(run(s, events)) {
            1nat
        } else {
            0nat
        }),
    decreases events.len(),
{
    if events.len() > 0 {
        law_start_is_answered(after_main_event(s, events[0]).0, events.skip(1));
        if has_reported(s) {
            lemma_stays_reported(s, events);
        } else if has_reported(after_main_event(s, events[0]).0) {
            lemma_stays_reported(after_main_event(s, events[0]).0, events.skip(1));
        }
    }
}

proof fn lemma_stays_reported(s: MainState, events: Seq<MainEvent>)
    requires
        has_reported(s),
    ensures
        has_reported(run(s, events)),
    decreases events.len(),
{
    if events.len() > 0 {
        lemma_stays_reported(after_main_event(s, events[0]).0, events.skip(1));
    }
}

/// A client that serves stops when a shutdown is requested or nobody could
/// request one any more, ends with the port that it served, and does not stop
/// for anything else.
pub proof fn law_serves_until_shutdown(s: MainState, port: u16, event: MainEvent)
    requires
        s.stage == Stage::Serving(port),
    ensures
        event == MainEvent::Shutdown(true) || event is Abandoned ==> after_main_event(s, event) == (
            s.at(Stage::Stopped(port)),
            MainActionView::Stop(port),
        ),
        event != MainEvent::Shutdown(true) && !(event is Abandoned) ==> after_main_event(s, event)
            == (s, MainActionView::Wait),
{
}

/// Stopping a client signals the shutdown first, then waits for the client's
/// thread, and frees the handle last; each of these is done exactly once. Nothing
/// is done without a client.
pub proof fn law_stop_signals_before_waiting(running: bool, i: int)
    requires
        0 <= i < stop_steps(running).len(),
    ensures
        running,
        stop_steps(running)[i] == StopStep::Signal <==> i == 0,
        stop_steps(running)[i] == StopStep::Join <==> i == 1,
        stop_steps(running)[i] == StopStep::Free <==> i == 2,
        stop_steps(running).len() == 3,
{
}

/// The signal of a stop ends a client that serves, whether or not it has
/// bootstrapped: connections are no longer accepted, the client ends with its
/// port, and its thread shuts the runtime down and ends. From then on the client
/// does nothing else.
///
/// That its sockets are closed when the runtime is shut down, and that the port
/// can be bound again, is left to the runtime and the operating system.
pub proof fn law_stop_ends_client(s: MainState, port: u16, later: Seq<MainEvent>, event: MainEvent)
    requires
        s.stage == Stage::Serving(port),
    ensures
        stop_steps(true)[0] == StopStep::Signal,
        after_accept_event(AcceptEvent::Shutdown) == AcceptAction::Stop,
        ({
            let (stopped, action) = after_main_event(s, MainEvent::Shutdown(true));
            &&& action == MainActionView::Stop(port)
            &&& after_main_event(run(stopped, later), event) == (
                stopped,
                MainActionView::Stop(port),
            )
        }),
        after_thread_event(ThreadEvent::MainEnded) == ThreadActionView::ShutDown,
{
    let stopped = after_main_event(s, MainEvent::Shutdown(true)).0;
    lemma_stage_is_kept(stopped, later);
    lemma_plan_is_kept(stopped, later);
}

/// How often a client begins to serve while `events` happen.
pub open spec fn serve_count(s: MainState, events: Seq<MainEvent>) -> nat
    decreases events.len(),
{
    if events.len() == 0 {
        0
    } else {
        let (next, action) = after_main_event(s, events[0]);
        (if action is Serve {
            1nat
        } else {
            0nat
        }) + serve_count(next, events.skip(1))
    }
}

/// How often a client ends with a failure while `events` happen.
pub open spec fn fail_count(s: MainState, events: Seq<MainEvent>) -> nat
    decreases events.len(),
{
    if events.len() == 0 {
        0
    } else {
        let (next, action) = after_main_event(s, events[0]);
        (if action is Fail {
            1nat
        } else {
            0nat
        }) + fail_count(next, events.skip(1))
    }
}

proof fn lemma_reports_are_serve_or_fail(s: MainState, events: Seq<MainEvent>)
    ensures
        serve_count(s, events) + fail_count(s, events) == reports(s, events),
    decreases events.len(),
{
    if events.len() > 0 {
        lemma_reports_are_serve_or_fail(after_main_event(s, events[0]).0, events.skip(1));
    }
}

/// How many outcomes of a bootstrap are among `events`.
pub open spec fn bootstrap_count(events: Seq<ClientEvent>) -> nat
    decreases events.len(),
{
    if events.len() == 0 {
        0
    } else {
        bootstrap_count(events.drop_last()) + (if events.last() is Bootstrapped
            || events.last() is BootstrapFailed {
            1nat
        } else {
            0nat
        })
    }
}

/// How many failures that end the client are among `events`.
pub open spec fn end_count(events: Seq<ClientEvent>) -> nat
    decreases events.len(),
{
    if events.len() == 0 {
        0
    } else {
        end_count(events.drop_last()) + (if events.last() is Ended {
            1nat
        } else {
            0nat
        })
    }
}

/// Whether `events` can have been noted of a client that went through `steps`: it
/// bootstraps once when it begins to serve, and ends with a failure only as often
/// as it decided to.
pub open spec fn is_history(s: MainState, steps: Seq<MainEvent>, events: Seq<ClientEvent>) -> bool {
    &&& bootstrap_count(events) <= serve_count(s, steps)
    &&& end_count(events) <= fail_count(s, steps)
}

/// The readiness of a client changes once, from connecting to ready or to failed,
/// and is final then; a client is never both ready and failed. `steps` are what
/// happened on the client's way, `events` what was noted of it, of which the
/// first `i` came before the rest.
pub proof fn law_readiness_is_final(
    s: MainState,
    steps: Seq<MainEvent>,
    events: Seq<ClientEvent>,
    i: int,
)
    requires
        is_history(s, steps, events),
        0 <= i <= events.len(),
    ensures
        ({
            let earlier = ArtiView::started().after_all(events.take(i));
            let later = ArtiView::started().after_all(events);
            &&& !(later.ready && later.failed)
            &&& earlier.readiness() != 0 ==> later.readiness() == earlier.readiness()
        }),
{
    law_reports_once(s, steps);
    lemma_reports_are_serve_or_fail(s, steps);
    lemma_decided_once(events, i);
}

/// How often it was decided what becomes of a client.
spec fn decided(arti: ArtiView) -> nat {
    (if arti.ready {
        1nat
    } else {
        0nat
    }) + (if arti.failed {
        1nat
    } else {
        0nat
    })
}

proof fn lemma_decided_once(events: Seq<ClientEvent>, i: int)
    requires
        bootstrap_count(events) + end_count(events) <= 1,
        0 <= i <= events.len(),
    ensures
        decided(ArtiView::started().after_all(events)) <= bootstrap_count(events) + end_count(
            events,
        ),
        ({
            let earlier = ArtiView::started().after_all(events.take(i));
            let later = ArtiView::started().after_all(events);
            earlier.readiness() != 0 ==> later.readiness() == earlier.readiness()
        }),
    decreases events.len(),
{
    if i == events.len() {
        assert(events.take(i) =~= events);
    }
    if events.len() > 0 {
        let before = events.drop_last();
        if i < events.len() {
            lemma_decided_once(before, i);
            assert(before.take(i) =~= events.take(i));
        } else {
            lemma_decided_once(before, before.len() as int);
        }
    }
}

proof fn lemma_plan_is_kept(s: MainState, events: Seq<MainEvent>)
    ensures
        run(s, events).plan == s.plan,
    decreases events.len(),
{
    if events.len() > 0 {
        lemma_plan_is_kept(after_main_event(s, events[0]).0, events.skip(1));
    }
}

/// A client only ever binds the port that it was started with. The operating
/// system is not left to choose one.
pub proof fn law_binds_port_asked_for(
    data_dir: Option<Seq<u8>>,
    socks_port: u16,
    s: MainState,
    events: Seq<MainEvent>,
    event: MainEvent,
    port: u16,
)
    requires
        start_of(data_dir, socks_port) == Ok::<StartPlanView, Seq<char>>(s.plan),
        after_main_event(run(s, events), event).1 == MainActionView::Bind(port),
    ensures
        port == effective_port(socks_port),
        port != 0,
{
    lemma_plan_is_kept(s, events);
}

/// A client that was started for `socks_port`, and that serves, reports the
/// effective port, which is not zero, and goes on to report it, provided that the
/// listener is bound to the port that was asked for. Whether it is, the operating
/// system decides: the port that a client reports is the one that it was told.
pub proof fn law_reports_effective_port(
    data_dir: Option<Seq<u8>>,
    socks_port: u16,
    s: MainState,
    steps: Seq<MainEvent>,
    port: u16,
    arti: ArtiView,
    later: Seq<ClientEvent>,
)
    requires
        start_of(data_dir, socks_port) == Ok::<StartPlanView, Seq<char>>(s.plan),
        s.stage == Stage::New,
        run(s, steps).stage == Stage::Serving(port) || run(s, steps).stage == Stage::Stopped(port),
        forall|i: int|
            0 <= i < steps.len() ==> ((#[trigger] steps[i]) matches MainEvent::Bound(bound)
                ==> bound == s.plan.socks_port),
        forall|i: int| 0 <= i < later.len() ==> !(#[trigger] later[i] is Listening),
    ensures
        port == effective_port(socks_port),
        arti.after(ClientEvent::Listening(port)).after_all(later).socks_port == effective_port(
            socks_port,
        ),
        effective_port(socks_port) != 0,
{
    law_serves_bound_port(s, steps, port);
    let i = choose|i: int| 0 <= i < steps.len() && steps[i] == MainEvent::Bound(port);
    assert(steps[i] == MainEvent::Bound(port));
    law_port_is_kept(arti, port, later);
}

// ---------------------------------------------------------------------------
// Firewall marks
// ---------------------------------------------------------------------------

/// Without a mark, a socket is opened and connected as the stock runtime does
/// it, whether or not the platform has `SO_MARK`.
pub proof fn law_zero_mark_is_stock(addr: IpAddr, so_mark: bool)
    ensures
        connect_steps(0, addr, so_mark) == seq![
            SocketStep::Open(domain_of(addr)),
            SocketStep::SetNonblocking,
            SocketStep::Connect,
        ],
{
}

/// A socket is opened for the family of the address, with or without a mark.
pub proof fn law_socket_is_of_family(mark: u32, addr: IpAddr, so_mark: bool, i: int)
    requires
        0 <= i < connect_steps(mark, addr, so_mark).len(),
    ensures
        connect_steps(mark, addr, so_mark)[i] == SocketStep::Open(Domain::Ipv4) <==> i == 0
            && addr is V4,
        connect_steps(mark, addr, so_mark)[i] == SocketStep::Open(Domain::Ipv6) <==> i == 0
            && addr is V6,
{
}

/// A socket is marked between being opened and being made non-blocking and
/// connected, if there is a mark and the platform has `SO_MARK`. Without
/// `SO_MARK` nothing is done after the mark was refused.
pub proof fn law_steps_of_a_connection(mark: u32, addr: IpAddr, so_mark: bool)
    ensures
        ({
            let steps = connect_steps(mark, addr, so_mark);
            &&& steps[0] is Open
            &&& mark != 0 && so_mark ==> steps.len() == 4 && steps[1] == SocketStep::Mark(mark)
                && steps[2] == SocketStep::SetNonblocking && steps[3] == SocketStep::Connect
            &&& mark == 0 ==> steps.len() == 3 && steps[1] == SocketStep::SetNonblocking && steps[2]
                == SocketStep::Connect
            &&& mark != 0 && !so_mark ==> steps.len() == 2 && steps[1] == SocketStep::RefuseMark
        }),
        so_mark ==> mark_step(mark, so_mark) == SocketStep::Mark(mark),
        !so_mark ==> mark_step(mark, so_mark) == SocketStep::RefuseMark,
{
}

/// With a mark, no socket is connected unmarked: whenever a socket is connected,
/// it was marked before, and opened before that.
pub proof fn law_no_unmarked_connection(mark: u32, addr: IpAddr, so_mark: bool, i: int)
    requires
        mark != 0,
        0 <= i < connect_steps(mark, addr, so_mark).len(),
        connect_steps(mark, addr, so_mark)[i] == SocketStep::Connect,
    ensures
        so_mark,
        exists|j: int, k: int|
            0 <= j < k < i && #[trigger] connect_steps(mark, addr, so_mark)[j] is Open
                && #[trigger] connect_steps(mark, addr, so_mark)[k] == SocketStep::Mark(mark),
{
    let steps = connect_steps(mark, addr, so_mark);
    assert(steps[0] is Open);
    if so_mark {
        assert(steps[1] == SocketStep::Mark(mark));
        assert(i == 3);
    } else {
        assert(steps.len() == 2);
        assert(steps[1] == SocketStep::RefuseMark);
    }
}

// ---------------------------------------------------------------------------
// SOCKS connections
// ---------------------------------------------------------------------------

/// Whether the number `n` stands in `bytes` at position `i`, the high byte first.
pub open spec fn has_number(bytes: Seq<u8>, i: int, n: u16) -> bool {
    bytes[i] * 256 + bytes[i + 1] == n
}

/// Whether the address `ip` stands in `bytes` at position `i`.
pub open spec fn has_address(bytes: Seq<u8>, i: int, ip: IpAddr) -> bool {
    match ip {
        IpAddr::V4(a, b, c, d) => {
            &&& bytes[i] == a
            &&& bytes[i + 1] == b
            &&& bytes[i + 2] == c
            &&& bytes[i + 3] == d
        },
        IpAddr::V6(a, b, c, d, e, f, g, h) => {
            &&& has_number(bytes, i, a)
            &&& has_number(bytes, i + 2, b)
            &&& has_number(bytes, i + 4, c)
            &&& has_number(bytes, i + 6, d)
            &&& has_number(bytes, i + 8, e)
            &&& has_number(bytes, i + 10, f)
            &&& has_number(bytes, i + 12, g)
            &&& has_number(bytes, i + 14, h)
        },
    }
}

/// Whether `bytes` are a SOCKS4 reply, for success or failure: eight bytes, with
/// the port and the address if `answer` is an IPv4 address, and zeros otherwise.
pub open spec fn is_socks4_reply(
    bytes: Seq<u8>,
    success: bool,
    answer: Option<IpAddr>,
    port: u16,
) -> bool {
    &&& bytes.len() == 8
    &&& bytes[0] == 0
    &&& success ==> bytes[1] == 90
    &&& !success ==> bytes[1] == 91
    &&& if answer is Some && answer->0 is V4 {
        has_number(bytes, 2, port) && has_address(bytes, 4, answer->0)
    } else {
        forall|i: int| 2 <= i < 8 ==> bytes[i] == 0
    }
}

/// Whether `bytes` are a SOCKS5 reply with `status` that carries `ip` and `port`.
pub open spec fn is_socks5_reply(bytes: Seq<u8>, status: u8, ip: IpAddr, port: u16) -> bool {
    &&& bytes[0] == 5
    &&& bytes[1] == status
    &&& bytes[2] == 0
    &&& ip is V4 ==> bytes.len() == 10 && bytes[3] == 1 && has_number(bytes, 8, port)
    &&& ip is V6 ==> bytes.len() == 22 && bytes[3] == 4 && has_number(bytes, 20, port)
    &&& has_address(bytes, 4, ip)
}

/// Whether `bytes` are the reply to a request of `version` for `target` and
/// `port`, with `status` and `answer`. Without an answer, a SOCKS5 reply carries
/// zeros for an address: as many as IPv6 has if that is what was asked for, and as
/// many as IPv4 has otherwise.
pub open spec fn is_reply(
    bytes: Seq<u8>,
    version: u8,
    target: Target,
    port: u16,
    status: u8,
    answer: Option<IpAddr>,
) -> bool {
    &&& version == 4 ==> is_socks4_reply(bytes, status == 0, answer, port)
    &&& version != 4 && answer is Some ==> is_socks5_reply(bytes, status, answer->0, port)
    &&& version != 4 && answer is None ==> (match target {
        Target::Ip(IpAddr::V6(..)) => is_socks5_reply(
            bytes,
            status,
            IpAddr::V6(0, 0, 0, 0, 0, 0, 0, 0),
            0,
        ),
        _ => is_socks5_reply(bytes, status, IpAddr::V4(0, 0, 0, 0), 0),
    })
}

/// Whether `action` answers `request` for good, with `status` and `answer`.
pub open spec fn is_answer(
    action: ActionView,
    request: tor_socksproto::SocksRequest,
    status: u8,
    answer: Option<IpAddr>,
) -> bool {
    action is Finish && is_reply(
        action->Finish_0,
        request_version(request),
        request_target(request),
        request_port(request),
        status,
        answer,
    )
}

proof fn lemma_number_in_bytes(n: u16)
    ensures
        be16(n).len() == 2,
        be16(n)[0] * 256 + be16(n)[1] == n,
{
}

proof fn lemma_address_in_bytes(ip: IpAddr)
    ensures
        octets(ip).len() == (if ip is V4 {
            4nat
        } else {
            16nat
        }),
        has_address(octets(ip), 0, ip),
{
    if let IpAddr::V6(a, b, c, d, e, f, g, h) = ip {
        lemma_number_in_bytes(a);
        lemma_number_in_bytes(b);
        lemma_number_in_bytes(c);
        lemma_number_in_bytes(d);
        lemma_number_in_bytes(e);
        lemma_number_in_bytes(f);
        lemma_number_in_bytes(g);
        lemma_number_in_bytes(h);
    }
}

proof fn lemma_socks5_reply(status: u8, ip: IpAddr, port: u16)
    ensures
        is_socks5_reply(seq![5u8, status, 0u8] + (socks5_addr(ip) + be16(port)), status, ip, port),
{
    let bytes = seq![5u8, status, 0u8] + (socks5_addr(ip) + be16(port));
    let inner = octets(ip);
    lemma_address_in_bytes(ip);
    lemma_number_in_bytes(port);
    assert forall|i: int| 0 <= i < inner.len() implies bytes[4 + i] == #[trigger] inner[i] by {}
    if ip is V6 {
        assert(bytes[4] == inner[0] && bytes[5] == inner[1]);
        assert(bytes[6] == inner[2] && bytes[7] == inner[3]);
        assert(bytes[8] == inner[4] && bytes[9] == inner[5]);
        assert(bytes[10] == inner[6] && bytes[11] == inner[7]);
        assert(bytes[12] == inner[8] && bytes[13] == inner[9]);
        assert(bytes[14] == inner[10] && bytes[15] == inner[11]);
        assert(bytes[16] == inner[12] && bytes[17] == inner[13]);
        assert(bytes[18] == inner[14] && bytes[19] == inner[15]);
    } else {
        assert(bytes[4] == inner[0] && bytes[5] == inner[1]);
        assert(bytes[6] == inner[2] && bytes[7] == inner[3]);
    }
}

/// What a reply looks like, byte by byte. The address that it carries does not
/// depend on the port.
pub proof fn law_bytes_of_a_reply(
    version: u8,
    target: Target,
    port: u16,
    status: u8,
    answer: Option<IpAddr>,
)
    ensures
        is_reply(
            reply_bytes(version, target, port, status, answer),
            version,
            target,
            port,
            status,
            answer,
        ),
{
    let bytes = reply_bytes(version, target, port, status, answer);
    if version == 4 {
        lemma_number_in_bytes(port);
    } else {
        match answer {
            Some(ip) => lemma_socks5_reply(status, ip, port),
            None => lemma_socks5_reply(status, unspecified(target), 0),
        }
    }
}

/// The numbers of the statuses are those of SOCKS5, and a failure is reported with
/// the number of its kind.
pub proof fn law_status_numbers(kind: ErrorKind)
    ensures
        SocksStatus::Succeeded.number() == 0,
        SocksStatus::GeneralFailure.number() == 1,
        SocksStatus::NotAllowed.number() == 2,
        SocksStatus::HostUnreachable.number() == 4,
        SocksStatus::ConnectionRefused.number() == 5,
        SocksStatus::CommandNotSupported.number() == 7,
        SocksStatus::AddrtypeNotSupported.number() == 8,
        status_of(kind).number() == 2 <==> kind is ExitPolicyRejected,
        status_of(kind).number() == 5 <==> kind is RemoteConnectionRefused,
        status_of(kind).number() == 4 <==> kind is RemoteHostNotFound
            || kind is RemoteHostResolutionFailed,
        status_of(kind).number() == 1 <==> kind is Other,
{
}

/// The reply to a request is made from what was asked for, and carries the answer
/// whatever the destination and the port were.
pub proof fn law_reply_carries_answer(
    request: tor_socksproto::SocksRequest,
    status: SocksStatus,
    answer: Option<IpAddr>,
)
    ensures
        is_answer(
            ActionView::Finish(reply_to(request, status, answer)),
            request,
            status.number(),
            answer,
        ),
{
    law_bytes_of_a_reply(
        request_version(request),
        request_target(request),
        request_port(request),
        status.number(),
        answer,
    );
}

/// The family of a destination is that of the address that its text writes, and
/// any if it writes none.
pub proof fn law_family_of_a_destination(addr: Seq<char>)
    ensures
        family_of(addr) == Family::Any <==> ip_of(addr) is None,
        family_of(addr) == Family::Ipv4Only <==> ip_of(addr) is Some && ip_of(addr)->0 is V4,
        family_of(addr) == Family::Ipv6Only <==> ip_of(addr) is Some && ip_of(addr)->0 is V6,
{
}

/// Command 1 calls for a connection, whatever the destination. Command 240 calls
/// for an address: the one that the destination writes, or a lookup if it is a
/// name. Any other command is refused.
pub proof fn law_plan_of_a_request(command: u8, addr: Seq<char>)
    ensures
        command == 1 <==> plan_of(command, addr) is Connect,
        command == 1 ==> plan_of(command, addr)->Connect_0 == family_of(addr),
        command == 240 && ip_of(addr) is None <==> plan_of(command, addr) is Lookup,
        plan_of(command, addr) is Lookup ==> plan_of(command, addr)->Lookup_0 == Family::Any,
        command == 240 && ip_of(addr) is Some <==> plan_of(command, addr) is Answer,
        command == 240 && ip_of(addr) is Some ==> plan_of(command, addr)->Answer_0 == ip_of(
            addr,
        )->0,
        command != 1 && command != 240 ==> plan_of(command, addr) == Plan::Refuse(
            SocksStatus::CommandNotSupported,
        ),
{
}

/// Whether `phase` and `action` are what `request` calls for: a connection to the
/// host and the port that were asked for, over the family of the host; a lookup of
/// the name that was asked for; that address itself; or a refusal.
pub open spec fn is_served(
    request: tor_socksproto::SocksRequest,
    phase: Phase,
    action: ActionView,
) -> bool {
    let command = request_command(request);
    let asked = request_addr(request);
    &&& command == 1 ==> {
        &&& phase == Phase::Connecting(request)
        &&& action is Connect
        &&& action->Connect_addr == asked
        &&& action->port == request_port(request)
        &&& action->Connect_family == (match ip_of(asked) {
            None => Family::Any,
            Some(IpAddr::V4(..)) => Family::Ipv4Only,
            Some(IpAddr::V6(..)) => Family::Ipv6Only,
        })
    }
    &&& command == 240 && ip_of(asked) is None ==> {
        &&& phase == Phase::Resolving(request)
        &&& action is Resolve
        &&& action->Resolve_addr == asked
        &&& action->Resolve_family == Family::Any
    }
    &&& command == 240 && ip_of(asked) is Some ==> phase is Closed && is_answer(
        action,
        request,
        0,
        ip_of(asked),
    )
    &&& command != 1 && command != 240 ==> phase is Closed && is_answer(action, request, 7, None)
}

/// A request is served as it was made: the host, the port and the family that Tor
/// is asked for are those of the request, and an answer carries the address.
pub proof fn law_request_is_served(s: ConnState, request: tor_socksproto::SocksRequest)
    ensures
        is_served(request, after_request(s, request).0.phase, after_request(s, request).1),
        after_request(s, request).0.handshake == s.handshake,
        after_request(s, request).0.pending == s.pending,
        after_request(s, request).0.capacity == s.capacity,
{
    law_reply_carries_answer(request, SocksStatus::Succeeded, ip_of(request_addr(request)));
    law_reply_carries_answer(request, SocksStatus::CommandNotSupported, None);
}

/// A handshake is not over until the client has made its request or failed: after
/// a message to the client, whatever it says, and after asking for more bytes, it
/// goes on.
pub proof fn law_outcome_of_a_step(s: ConnState, outcome: Outcome)
    ensures
        ({
            let (next, action) = after_outcome(s, outcome);
            &&& outcome is Receive || outcome is Send ==> next.phase == s.phase
            &&& outcome is Receive ==> action is Receive && action->Receive_0 == (
            s.capacity - s.pending.len()) as nat
            &&& outcome is Send ==> action is Send && action->Send_0 == outcome->Send_0
            &&& outcome is Failed ==> next.phase is Closed && action is Close
            &&& outcome is Finished ==> is_served(outcome->Finished_0, next.phase, action)
            &&& next.handshake == s.handshake
            &&& next.pending == s.pending
            &&& next.capacity == s.capacity
        }),
{
    if outcome is Finished {
        law_request_is_served(s, outcome->Finished_0);
    }
}

/// Whether `event` lets a handshake make a step with `input`: a message was
/// written, or bytes came that there is room for, which stand behind those that
/// were there.
pub open spec fn makes_step(s: ConnState, event: Event, input: Seq<u8>) -> bool {
    match event {
        Event::Sent => input == s.pending,
        Event::Received(data) => {
            &&& data@.len() > 0
            &&& s.pending.len() + data@.len() <= s.capacity
            &&& input == s.pending + data@
        },
        _ => false,
    }
}

/// What a handshake does with what was read: it goes on after a message to the
/// client and when it needs more bytes; it is dropped when it failed, or when more
/// came than the request; and the request that it made is served.
pub proof fn law_handshake_runs_to_request(s: ConnState, event: Event, input: Seq<u8>)
    requires
        s.phase is Handshake,
        makes_step(s, event, input),
    ensures
        ({
            let (handshake, rest, outcome) = stepped(s.handshake, input, s.capacity);
            let (next, action) = after_event(s, event);
            &&& next.handshake == handshake
            &&& next.pending == rest
            &&& next.capacity == s.capacity
            &&& outcome is Receive ==> next.phase is Handshake && action is Receive
                && action->Receive_0 == (s.capacity - rest.len()) as nat
            &&& outcome is Send ==> next.phase is Handshake && action is Send && action->Send_0
                == outcome->Send_0
            &&& outcome is Failed ==> next.phase is Closed && action is Close
            &&& outcome is Finished && rest.len() > 0 ==> next.phase is Closed && action is Close
            &&& outcome is Finished && rest.len() == 0 ==> is_served(
                outcome->Finished_0,
                next.phase,
                action,
            )
        }),
{
    let (handshake, rest, outcome) = stepped(s.handshake, input, s.capacity);
    if outcome is Finished {
        law_request_is_served(
            ConnState { handshake, pending: rest, ..s },
            outcome->Finished_0,
        );
    }
}

/// What is done on a connection, and what a handshake asks for, is seen in full.
pub proof fn law_actions_of_a_connection_are_seen_in_full(action: Action, step: Step)
    ensures
        action@ is Receive <==> action is Receive,
        action is Receive ==> action@->Receive_0 == action->Receive_0,
        action@ is Send <==> action is Send,
        action is Send ==> action@->Send_0 == action->Send_0@,
        action@ is Connect <==> action is Connect,
        action is Connect ==> action@->Connect_addr == action->Connect_addr@,
        action is Connect ==> action@->port == action->port,
        action is Connect ==> action@->Connect_family == action->Connect_family,
        action@ is Resolve <==> action is Resolve,
        action is Resolve ==> action@->Resolve_addr == action->Resolve_addr@,
        action is Resolve ==> action@->Resolve_family == action->Resolve_family,
        action@ is Relay <==> action is Relay,
        action@ is Finish <==> action is Finish,
        action is Finish ==> action@->Finish_0 == action->Finish_0@,
        action@ is Close <==> action is Close,
        step@ is Receive <==> step is Receive,
        step@ is Send <==> step is Send,
        step is Send ==> step@->Send_0 == step->Send_0@,
        step@ is Finished <==> step is Finished,
        step is Finished ==> step@->Finished_0 == step->Finished_0,
        step@ is Failed <==> step is Failed,
{
}

/// A connection that was just accepted waits for as many bytes as there is room
/// for.
pub proof fn law_accepted_connection_is_read(s: ConnState)
    requires
        s.phase is Handshake,
        s.pending.len() < s.capacity,
    ensures
        after_event(s, Event::Accepted).0 == s,
        after_event(s, Event::Accepted).1 is Receive,
        after_event(s, Event::Accepted).1->Receive_0 + s.pending.len() == s.capacity,
{
}

/// The outcome of a connection through Tor reaches the client: success when it is
/// open, and a refusal with the number of the failure otherwise. Bytes are relayed
/// when the client has been told of success.
pub proof fn law_client_is_told_of_connection(
    s: ConnState,
    request: tor_socksproto::SocksRequest,
    kind: ErrorKind,
)
    requires
        s.phase == Phase::Connecting(request),
    ensures
        ({
            let (granting, told) = after_event(s, Event::Connected);
            let (relaying, relayed) = after_event(granting, Event::Sent);
            let (rejected, refusal) = after_event(s, Event::AddressRejected);
            let (failed, failure) = after_event(s, Event::ConnectFailed(kind));
            &&& told is Send && is_answer(ActionView::Finish(told->Send_0), request, 0, None)
            &&& granting.phase is Granting
            &&& relayed is Relay
            &&& relaying.phase is Relaying
            &&& rejected.phase is Closed
            &&& is_answer(refusal, request, 8, None)
            &&& failed.phase is Closed
            &&& kind is ExitPolicyRejected ==> is_answer(failure, request, 2, None)
            &&& kind is RemoteConnectionRefused ==> is_answer(failure, request, 5, None)
            &&& kind is RemoteHostNotFound ==> is_answer(failure, request, 4, None)
            &&& kind is RemoteHostResolutionFailed ==> is_answer(failure, request, 4, None)
            &&& kind is Other ==> is_answer(failure, request, 1, None)
        }),
{
    law_reply_carries_answer(request, SocksStatus::Succeeded, None);
    law_reply_carries_answer(request, SocksStatus::AddrtypeNotSupported, None);
    law_reply_carries_answer(request, status_of(kind), None);
}

/// The outcome of a lookup through Tor reaches the client: the first address that
/// was found, whatever the port of the request, and a failure if there is none.
pub proof fn law_client_is_told_of_lookup(
    s: ConnState,
    request: tor_socksproto::SocksRequest,
    ips: Vec<IpAddr>,
)
    requires
        s.phase == Phase::Resolving(request),
    ensures
        ({
            let (closed, answer) = after_event(s, Event::Resolved(ips));
            let (failed, failure) = after_event(s, Event::ResolveFailed);
            &&& closed.phase is Closed
            &&& ips@.len() > 0 ==> is_answer(answer, request, 0, Some(ips@[0]))
            &&& ips@.len() == 0 ==> is_answer(answer, request, 1, None)
            &&& failed.phase is Closed
            &&& is_answer(failure, request, 1, None)
        }),
{
    if ips@.len() > 0 {
        law_reply_carries_answer(request, SocksStatus::Succeeded, Some(ips@[0]));
    }
    law_reply_carries_answer(request, SocksStatus::GeneralFailure, None);
}

/// Whether `event` is one that a connection waits for.
pub open spec fn is_awaited(s: ConnState, event: Event) -> bool {
    match s.phase {
        Phase::Handshake => match event {
            Event::Accepted => s.pending.len() < s.capacity,
            Event::Sent => true,
            Event::Received(data) => data@.len() > 0 && s.pending.len() + data@.len()
                <= s.capacity,
            _ => false,
        },
        Phase::Connecting(_) => event is Connected || event is AddressRejected
            || event is ConnectFailed,
        Phase::Resolving(_) => event is Resolved || event is ResolveFailed,
        Phase::Granting => event is Sent,
        Phase::Relaying => false,
        Phase::Closed => false,
    }
}

/// Anything that a connection does not wait for, such as the end of the stream or a
/// failure to write, drops it without an answer.
pub proof fn law_other_events_drop_connection(s: ConnState, event: Event)
    requires
        !is_awaited(s, event),
    ensures
        after_event(s, event).0.phase is Closed,
        after_event(s, event).1 is Close,
{
}

/// Once its client has made a request, a connection consumes no more bytes.
pub proof fn law_input_is_left_alone(s: ConnState, event: Event)
    requires
        !(s.phase is Handshake) || !is_awaited(s, event) || event is Accepted,
    ensures
        after_event(s, event).0.handshake == s.handshake,
        after_event(s, event).0.pending == s.pending,
        after_event(s, event).0.capacity == s.capacity,
{
}

/// A connection after `events`, one after the other.
pub open spec fn state_after(s: ConnState, events: Seq<Event>) -> ConnState
    decreases events.len(),
{
    if events.len() == 0 {
        s
    } else {
        after_event(state_after(s, events.drop_last()), events.last()).0
    }
}

/// What is done on a connection after the event at position `i` of `events`.
pub open spec fn action_at(s: ConnState, events: Seq<Event>, i: int) -> ActionView {
    after_event(state_after(s, events.take(i)), events[i]).1
}

/// Whether a step of a connection, which led to `next` and calls for `action`,
/// answers the request of the client.
pub open spec fn answers(next: ConnState, action: ActionView) -> bool {
    action is Finish || (action is Send && next.phase is Granting)
}

/// How often the request of the client is answered while `events` happen.
pub open spec fn answer_count(s: ConnState, events: Seq<Event>) -> nat
    decreases events.len(),
{
    if events.len() == 0 {
        0
    } else {
        let (next, action) = after_event(s, events[0]);
        (if answers(next, action) {
            1nat
        } else {
            0nat
        }) + answer_count(next, events.skip(1))
    }
}

/// Whether the client of a connection still waits for an answer.
pub open spec fn unanswered(s: ConnState) -> bool {
    s.phase is Handshake || s.phase is Connecting || s.phase is Resolving
}

/// No request is answered twice.
pub proof fn law_answers_once(s: ConnState, events: Seq<Event>)
    ensures
        answer_count(s, events) <= 1,
        !unanswered(s) ==> answer_count(s, events) == 0,
    decreases events.len(),
{
    if events.len() > 0 {
        law_answers_once(after_event(s, events[0]).0, events.skip(1));
    }
}

/// How often Tor is asked to connect or to look up while `events` happen.
pub open spec fn call_count(s: ConnState, events: Seq<Event>) -> nat
    decreases events.len(),
{
    if events.len() == 0 {
        0
    } else {
        let (next, action) = after_event(s, events[0]);
        (if action is Connect || action is Resolve {
            1nat
        } else {
            0nat
        }) + call_count(next, events.skip(1))
    }
}

/// Tor is asked to connect or to look up at most once for a connection, and not
/// any more once its client has made a request.
pub proof fn law_calls_once(s: ConnState, events: Seq<Event>)
    ensures
        call_count(s, events) <= 1,
        !(s.phase is Handshake) ==> call_count(s, events) == 0,
    decreases events.len(),
{
    if events.len() > 0 {
        law_calls_once(after_event(s, events[0]).0, events.skip(1));
    }
}

/// A request that does not call for the network is answered at once: an address
/// to resolve with that address, and a command other than `CONNECT` and
/// `RESOLVE` with a refusal.
pub proof fn law_answers_without_network(s: ConnState, request: tor_socksproto::SocksRequest)
    ensures
        ({
            let command = request_command(request);
            let addr = request_addr(request);
            let (next, action) = after_request(s, request);
            &&& command == RESOLVE && ip_of(addr) is Some ==> action == ActionView::Finish(
                reply_to(request, SocksStatus::Succeeded, ip_of(addr)),
            )
            &&& command != CONNECT && command != RESOLVE ==> action == ActionView::Finish(
                reply_to(request, SocksStatus::CommandNotSupported, None),
            )
            &&& answers(next, action) ==> next.phase is Closed
            &&& !answers(next, action) ==> next.phase == Phase::Connecting(request) || next.phase
                == Phase::Resolving(request)
        }),
{
}

/// Whatever becomes of a connection that was asked for, the client is told:
/// success exactly if the connection is open, and else the status of the
/// failure.
pub proof fn law_connect_is_answered(
    s: ConnState,
    request: tor_socksproto::SocksRequest,
    kind: ErrorKind,
)
    requires
        s.phase == Phase::Connecting(request),
    ensures
        after_event(s, Event::Connected) == (
            s.at(Phase::Granting),
            ActionView::Send(reply_to(request, SocksStatus::Succeeded, None)),
        ),
        after_event(s, Event::AddressRejected) == (
            s.at(Phase::Closed),
            ActionView::Finish(reply_to(request, SocksStatus::AddrtypeNotSupported, None)),
        ),
        after_event(s, Event::ConnectFailed(kind)) == (
            s.at(Phase::Closed),
            ActionView::Finish(reply_to(request, status_of(kind), None)),
        ),
        status_of(kind) != SocksStatus::Succeeded,
{
}

/// Whatever becomes of a lookup that was asked for, the client is told: the
/// first address that was found, or a failure.
pub proof fn law_resolve_is_answered(
    s: ConnState,
    request: tor_socksproto::SocksRequest,
    ips: Vec<IpAddr>,
)
    requires
        s.phase == Phase::Resolving(request),
    ensures
        after_event(s, Event::Resolved(ips)) == (
            s.at(Phase::Closed),
            ActionView::Finish(
                if ips@.len() > 0 {
                    reply_to(request, SocksStatus::Succeeded, Some(ips@[0]))
                } else {
                    reply_to(request, SocksStatus::GeneralFailure, None)
                },
            ),
        ),
        after_event(s, Event::ResolveFailed) == (
            s.at(Phase::Closed),
            ActionView::Finish(reply_to(request, SocksStatus::GeneralFailure, None)),
        ),
{
}

/// The second byte of a reply tells success from failure: 0 or 90, by the
/// version of the protocol, if and only if the status is success.
pub proof fn law_reply_reports_status(
    version: u8,
    target: Target,
    port: u16,
    status: SocksStatus,
    answer: Option<IpAddr>,
)
    ensures
        ({
            let bytes = reply_bytes(version, target, port, status.number(), answer);
            let success = if version == 4 {
                90u8
            } else {
                0u8
            };
            &&& bytes.len() >= 8
            &&& bytes[1] == success <==> status == SocksStatus::Succeeded
        }),
{
}

/// Bytes are relayed only after the client was told that its connection is open,
/// and right after that was written.
pub proof fn law_relays_after_success(s: ConnState, events: Seq<Event>, i: int)
    requires
        s.phase is Handshake,
        0 <= i < events.len(),
        action_at(s, events, i) is Relay,
    ensures
        i >= 1,
        events[i] is Sent,
        events[i - 1] is Connected,
        state_after(s, events.take(i - 1)).phase matches Phase::Connecting(request)
            && action_at(s, events, i - 1) == ActionView::Send(
            reply_to(request, SocksStatus::Succeeded, None),
        ),
{
    let here = state_after(s, events.take(i));
    assert(here.phase is Granting);
    assert(i > 0);
    assert(events.take(i).drop_last() =~= events.take(i - 1));
    assert(events.take(i).last() == events[i - 1]);
}

/// A client that sends payload before it was told that its connection is open is
/// dropped.
pub proof fn law_pipelining_is_refused(s: ConnState)
    requires
        stepped(s.handshake, s.pending, s.capacity).2 is Finished,
        stepped(s.handshake, s.pending, s.capacity).1.len() > 0,
    ensures
        after_step(s).0.phase is Closed,
        after_step(s).1 is Close,
{
}

/// A client that does not begin with the number of a SOCKS version is dropped
/// without an answer, whether or not the connection was first noted as accepted.
pub proof fn law_not_socks_is_dropped(s: ConnState, data: Vec<u8>)
    requires
        is_fresh(s.handshake),
        s.phase is Handshake,
        s.pending.len() == 0,
        s.capacity > 0,
        data@.len() > 0,
        data@[0] != 4,
        data@[0] != 5,
    ensures
        ({
            let (accepted, first) = after_event(s, Event::Accepted);
            let (dropped, second) = after_event(accepted, Event::Received(data));
            &&& first == ActionView::Receive(s.capacity)
            &&& dropped.phase is Closed
            &&& second is Close
        }),
        after_event(s, Event::Received(data)).0.phase is Closed,
        after_event(s, Event::Received(data)).1 is Close,
{
    assert(s.pending + data@ =~= data@);
}

/// Connections are accepted until a shutdown is signalled: nothing else stops
/// accepting, and whoever connects before is served, whatever failed in between.
pub proof fn law_accepts_until_shutdown(events: Seq<AcceptEvent>)
    requires
        forall|i: int| 0 <= i < events.len() ==> !(#[trigger] events[i] is Shutdown),
    ensures
        forall|i: int|
            0 <= i < events.len() ==> after_accept_event(#[trigger] events[i])
                != AcceptAction::Stop,
        forall|i: int|
            0 <= i < events.len() ==> (after_accept_event(#[trigger] events[i])
                == AcceptAction::Handle <==> events[i] is Accepted),
        after_accept_event(AcceptEvent::Shutdown) == AcceptAction::Stop,
{
}

/// A failure to accept a connection is kept as the most recent error, and nothing
/// else that happens on the listening socket changes what a client reports.
pub proof fn law_accept_failure_is_kept(arti: ArtiView, event: AcceptEvent)
    ensures
        !(event is Failed) ==> noted_on_accept(arti, event) == arti,
        event matches AcceptEvent::Failed(e) ==> {
            let after = noted_on_accept(arti, event);
            &&& after.readiness() == arti.readiness()
            &&& after.ready == arti.ready
            &&& after.socks_port == arti.socks_port
            &&& after.last_error == Some(error_text("error accepting SOCKS connection: "@ + e@))
        },
{
}

/// Nothing is done any more on a connection that is over.
pub proof fn law_closed_stays_closed(s: ConnState, event: Event)
    requires
        s.phase is Closed,
    ensures
        after_event(s, event) == (s, ActionView::Close),
{
}

} // verus!

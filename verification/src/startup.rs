//! Starting a client, and the life of the thread that runs it.
//!
//! [`arti_start`] and [`finish_start`] are the two halves of a start, before and
//! after the client's thread has reported. [`run_thread`] and [`async_main`]
//! make the decisions of that thread: they are told what happened and answer
//! with what to do next.

use vstd::prelude::*;
use vstd::utf8::{decode_utf8, valid_utf8};

use crate::error::{error_text, set_err, ErrorSlot};
use crate::handle::{Arti, ArtiView, ClientEvent};
use crate::text::{decimal, decimal_text};

verus! {

/// The port that the SOCKS proxy listens on unless another one is asked for.
pub const DEFAULT_SOCKS_PORT: u16 = 9050;

/// How long a start may take, in seconds.
pub const STARTUP_TIMEOUT: u64 = 120;

/// How long the runtime may take to shut down, in seconds.
pub const SHUTDOWN_TIMEOUT: u64 = 5;

/// `std::str::from_utf8`: the text that `bytes` encode, if they are valid UTF-8.
#[verifier::external_body]
fn utf8_text(bytes: &[u8]) -> (text: Option<String>)
    ensures
        text is Some <==> valid_utf8(bytes@),
        text matches Some(t) ==> t@ == decode_utf8(bytes@),
{
    match std::str::from_utf8(bytes) {
        Ok(text) => Some(text.to_string()),
        Err(_) => None,
    }
}

/// What to start a client with.
#[derive(Debug, PartialEq, Eq)]
pub struct StartPlan {
    /// The directory for state and cache, if not the platform's default ones.
    pub dir: Option<String>,
    /// The port to listen on.
    pub socks_port: u16,
}

/// A [`StartPlan`], with its text as a sequence.
pub struct StartPlanView {
    pub dir: Option<Seq<char>>,
    pub socks_port: u16,
}

/// An optional text as a sequence.
pub open spec fn text_view(text: Option<String>) -> Option<Seq<char>> {
    match text {
        Some(t) => Some(t@),
        None => None,
    }
}

impl StartPlan {
    pub open spec fn view(&self) -> StartPlanView {
        StartPlanView { dir: text_view(self.dir), socks_port: self.socks_port }
    }
}

/// The port to listen on when `socks_port` was asked for: zero selects the
/// default.
pub open spec fn effective_port(socks_port: u16) -> u16 {
    if socks_port == 0 {
        DEFAULT_SOCKS_PORT
    } else {
        socks_port
    }
}

/// What to start a client with, or why it cannot be started.
pub open spec fn start_of(data_dir: Option<Seq<u8>>, socks_port: u16) -> Result<
    StartPlanView,
    Seq<char>,
> {
    match data_dir {
        Some(bytes) if !valid_utf8(bytes) => Err("data_dir is not valid UTF-8"@),
        Some(bytes) => Ok(
            StartPlanView {
                dir: Some(decode_utf8(bytes)),
                socks_port: effective_port(socks_port),
            },
        ),
        None => Ok(StartPlanView { dir: None, socks_port: effective_port(socks_port) }),
    }
}

/// The reason that is kept when a start has begun, after `kept` was kept so far.
pub open spec fn kept_after_start(
    kept: Option<Seq<char>>,
    data_dir: Option<Seq<u8>>,
    socks_port: u16,
) -> Option<Seq<char>> {
    match start_of(data_dir, socks_port) {
        Ok(_) => kept,
        Err(msg) => Some(error_text(msg)),
    }
}

/// The bytes as a sequence.
pub open spec fn bytes_view(bytes: Option<&[u8]>) -> Option<Seq<u8>> {
    match bytes {
        Some(b) => Some(b@),
        None => None,
    }
}

/// Begins to start a client that keeps its state and cache in `data_dir`, or in
/// the platform's default directories, and listens on `socks_port`, or on port
/// 9050 if that is zero. Keeps the reason if the start cannot go on; the reason of
/// an earlier failed start is kept until then.
pub fn arti_start(
    startup_error: &mut ErrorSlot,
    data_dir: Option<&[u8]>,
    socks_port: u16,
) -> (plan: Option<StartPlan>)
    ensures
        match start_of(bytes_view(data_dir), socks_port) {
            Ok(view) => plan is Some && plan->0@ == view,
            Err(_) => plan is None,
        },
        final(startup_error)@ == kept_after_start(
            old(startup_error)@,
            bytes_view(data_dir),
            socks_port,
        ),
{
    let dir = match data_dir {
        None => None,
        Some(bytes) => match utf8_text(bytes) {
            Some(text) => Some(text),
            None => {
                set_err(startup_error, "data_dir is not valid UTF-8".to_owned());
                return None;
            },
        },
    };
    let socks_port = if socks_port == 0 {
        DEFAULT_SOCKS_PORT
    } else {
        socks_port
    };
    Some(StartPlan { dir, socks_port })
}

/// What became of a start.
pub enum StartOutcome {
    /// The client's thread could not be spawned, for this reason.
    SpawnFailed(String),
    /// The client listens on this port.
    Listening(u16),
    /// The client's thread gave up, for this reason.
    Refused(String),
    /// The client's thread did not report in time.
    TimedOut,
}

/// How a start ends.
#[derive(Clone, Copy, Debug, PartialEq, Eq, Structural)]
pub enum StartResult {
    /// The client runs.
    Running,
    /// The client does not run.
    Failed,
    /// The client does not run; its thread is to be waited for.
    FailedAndJoin,
}

/// Why the client does not run, if it does not.
pub open spec fn start_failure(outcome: StartOutcome) -> Option<Seq<char>> {
    match outcome {
        StartOutcome::SpawnFailed(e) => Some("failed to spawn Arti thread: "@ + e@),
        StartOutcome::Listening(_) => None,
        StartOutcome::Refused(msg) => Some(msg@),
        StartOutcome::TimedOut => Some(
            "timed out waiting for Arti startup (config load or port bind)"@,
        ),
    }
}

/// How a start with this outcome ends.
pub open spec fn start_result(outcome: StartOutcome) -> StartResult {
    match outcome {
        StartOutcome::Listening(_) => StartResult::Running,
        StartOutcome::Refused(_) => StartResult::FailedAndJoin,
        _ => StartResult::Failed,
    }
}

/// The reason that is kept when a start has ended with this outcome, after
/// `kept` was kept so far.
pub open spec fn kept_after_finish(kept: Option<Seq<char>>, outcome: StartOutcome) -> Option<
    Seq<char>,
> {
    match start_failure(outcome) {
        Some(msg) => Some(error_text(msg)),
        None => kept,
    }
}

/// What a client reports about itself when its start has ended with this outcome.
pub open spec fn noted_at_finish(arti: ArtiView, outcome: StartOutcome) -> ArtiView {
    match outcome {
        StartOutcome::Listening(port) => arti.after(ClientEvent::Listening(port)),
        _ => arti,
    }
}

/// Ends a start, with what became of it. The client runs exactly if it listens
/// on a port, which it then reports. Keeps the reason if the client does not
/// run.
pub fn finish_start(
    startup_error: &mut ErrorSlot,
    arti: &mut Arti,
    outcome: StartOutcome,
) -> (result: StartResult)
    ensures
        result == start_result(outcome),
        final(startup_error)@ == kept_after_finish(old(startup_error)@, outcome),
        final(arti)@ == noted_at_finish(old(arti)@, outcome),
{
    match outcome {
        StartOutcome::SpawnFailed(e) => {
            let mut msg = "failed to spawn Arti thread: ".to_owned();
            msg.append(e.as_str());
            set_err(startup_error, msg);
            StartResult::Failed
        },
        StartOutcome::Listening(port) => {
            arti.note(ClientEvent::Listening(port));
            StartResult::Running
        },
        StartOutcome::Refused(msg) => {
            set_err(startup_error, msg);
            StartResult::FailedAndJoin
        },
        StartOutcome::TimedOut => {
            set_err(
                startup_error,
                "timed out waiting for Arti startup (config load or port bind)".to_owned(),
            );
            StartResult::Failed
        },
    }
}

/// Something that happened on the client's thread.
pub enum ThreadEvent {
    /// The runtime is there.
    RuntimeBuilt,
    /// The runtime could not be built, for this reason.
    RuntimeFailed(String),
    /// The client was shut down.
    MainEnded,
    /// The client gave up, for this reason.
    MainFailed(String),
}

/// What the client's thread does next.
#[derive(Debug, PartialEq, Eq)]
pub enum ThreadAction {
    /// Run the client.
    RunMain,
    /// Report this failure, and end.
    Report(String),
    /// Report this failure, then shut the runtime down and end.
    ReportAndShutDown(String),
    /// Shut the runtime down and end.
    ShutDown,
}

/// A [`ThreadAction`], with its text as a sequence.
pub enum ThreadActionView {
    RunMain,
    Report(Seq<char>),
    ReportAndShutDown(Seq<char>),
    ShutDown,
}

impl ThreadAction {
    pub open spec fn view(&self) -> ThreadActionView {
        match *self {
            ThreadAction::RunMain => ThreadActionView::RunMain,
            ThreadAction::Report(msg) => ThreadActionView::Report(msg@),
            ThreadAction::ReportAndShutDown(msg) => ThreadActionView::ReportAndShutDown(msg@),
            ThreadAction::ShutDown => ThreadActionView::ShutDown,
        }
    }
}

/// What the client's thread does after `event`.
pub open spec fn after_thread_event(event: ThreadEvent) -> ThreadActionView {
    match event {
        ThreadEvent::RuntimeBuilt => ThreadActionView::RunMain,
        ThreadEvent::RuntimeFailed(e) => ThreadActionView::Report(
            "failed to build tokio runtime: "@ + e@,
        ),
        ThreadEvent::MainEnded => ThreadActionView::ShutDown,
        ThreadEvent::MainFailed(msg) => ThreadActionView::ReportAndShutDown(msg@),
    }
}

/// What a client reports about itself after `event` on its thread.
pub open spec fn noted_by_thread(arti: ArtiView, event: ThreadEvent) -> ArtiView {
    match event {
        ThreadEvent::MainFailed(msg) => arti.after(ClientEvent::Ended(msg)),
        _ => arti,
    }
}

/// The body of the client's thread: decides what to do next. A client that gives
/// up is marked as failed.
pub fn run_thread(arti: &mut Arti, event: ThreadEvent) -> (action: ThreadAction)
    ensures
        action@ == after_thread_event(event),
        final(arti)@ == noted_by_thread(old(arti)@, event),
{
    match event {
        ThreadEvent::RuntimeBuilt => ThreadAction::RunMain,
        ThreadEvent::RuntimeFailed(e) => {
            let mut msg = "failed to build tokio runtime: ".to_owned();
            msg.append(e.as_str());
            ThreadAction::Report(msg)
        },
        ThreadEvent::MainEnded => ThreadAction::ShutDown,
        ThreadEvent::MainFailed(msg) => {
            arti.note(ClientEvent::Ended(msg.clone()));
            ThreadAction::ReportAndShutDown(msg)
        },
    }
}

/// Where the client keeps its state and its cache.
#[derive(Debug, PartialEq, Eq)]
pub enum ConfigPlan {
    /// In the platform's default directories.
    PlatformDefault,
    /// In the subdirectories `state` and `cache` of `dir`.
    Directories { dir: String, state: &'static str, cache: &'static str },
}

/// A [`ConfigPlan`], with its texts as sequences.
pub enum ConfigPlanView {
    PlatformDefault,
    Directories { dir: Seq<char>, state: Seq<char>, cache: Seq<char> },
}

impl ConfigPlan {
    pub open spec fn view(&self) -> ConfigPlanView {
        match *self {
            ConfigPlan::PlatformDefault => ConfigPlanView::PlatformDefault,
            ConfigPlan::Directories { dir, state, cache } => ConfigPlanView::Directories {
                dir: dir@,
                state: state@,
                cache: cache@,
            },
        }
    }
}

/// Where a client that was started with `dir` keeps its state and its cache.
pub open spec fn config_of(dir: Option<Seq<char>>) -> ConfigPlanView {
    match dir {
        None => ConfigPlanView::PlatformDefault,
        Some(d) => ConfigPlanView::Directories { dir: d, state: "state"@, cache: "cache"@ },
    }
}

/// Decides where a client that was started with `dir` keeps its state and its
/// cache.
pub fn build_config(dir: &Option<String>) -> (plan: ConfigPlan)
    ensures
        plan@ == config_of(text_view(*dir)),
{
    match dir {
        None => ConfigPlan::PlatformDefault,
        Some(d) => ConfigPlan::Directories { dir: d.clone(), state: "state", cache: "cache" },
    }
}

/// How far a client has come.
#[derive(Clone, Copy, Debug, PartialEq, Eq, Structural)]
pub enum Stage {
    /// Nothing has been done yet.
    New,
    /// The configuration is being built.
    Config,
    /// The client is being created.
    Client,
    /// The SOCKS listener is being bound.
    Bind,
    /// The port of the listener is being read.
    Port,
    /// The SOCKS proxy is served on this port.
    Serving(u16),
    /// The SOCKS proxy was served on this port, and was shut down.
    Stopped(u16),
    /// The client has ended without serving.
    Ended,
}

/// Something that happened to a client on its way.
pub enum MainEvent {
    /// The client may begin.
    Begin,
    /// What was asked for last is done.
    Done,
    /// What was asked for last failed, for this reason.
    Failed(String),
    /// The listener is bound to this port.
    Bound(u16),
    /// This is what is known of a shutdown: that it was requested, or not.
    Shutdown(bool),
    /// Nobody is left who could request a shutdown.
    Abandoned,
}

/// What a client does next.
#[derive(Debug, PartialEq, Eq)]
pub enum MainAction {
    /// Build the configuration.
    Configure(ConfigPlan),
    /// Create the client, without bootstrapping it.
    CreateClient,
    /// Bind the SOCKS listener to this port of 127.0.0.1.
    Bind(u16),
    /// Read the port that the listener is bound to.
    ReadPort,
    /// Bootstrap in the background, accept SOCKS connections in the background,
    /// and report this port.
    Serve(u16),
    /// Wait for a change of the shutdown request.
    Wait,
    /// Stop accepting SOCKS connections, and end with the port that they were
    /// accepted on.
    Stop(u16),
    /// End with this failure.
    Fail(String),
    /// End at once: nothing was asked for that could have had this outcome.
    Abort,
}

/// A [`MainAction`], with its texts as sequences.
pub enum MainActionView {
    Configure(ConfigPlanView),
    CreateClient,
    Bind(u16),
    ReadPort,
    Serve(u16),
    Wait,
    Stop(u16),
    Fail(Seq<char>),
    Abort,
}

impl MainAction {
    pub open spec fn view(&self) -> MainActionView {
        match *self {
            MainAction::Configure(plan) => MainActionView::Configure(plan@),
            MainAction::CreateClient => MainActionView::CreateClient,
            MainAction::Bind(port) => MainActionView::Bind(port),
            MainAction::ReadPort => MainActionView::ReadPort,
            MainAction::Serve(port) => MainActionView::Serve(port),
            MainAction::Wait => MainActionView::Wait,
            MainAction::Stop(port) => MainActionView::Stop(port),
            MainAction::Fail(msg) => MainActionView::Fail(msg@),
            MainAction::Abort => MainActionView::Abort,
        }
    }
}

/// A client on its way from the start to the end.
pub struct Main {
    plan: StartPlan,
    stage: Stage,
}

/// The state of a [`Main`].
pub struct MainState {
    pub plan: StartPlanView,
    pub stage: Stage,
}

impl MainState {
    /// The same client at another stage.
    pub open spec fn at(self, stage: Stage) -> MainState {
        MainState { stage, ..self }
    }
}

/// What a failure at `stage` with the reason `e` is called, for a client that
/// listens on `port`.
pub open spec fn main_failure(stage: Stage, port: u16, e: Seq<char>) -> Option<Seq<char>> {
    match stage {
        Stage::Config => Some("failed to build Arti configuration: "@ + e),
        Stage::Client => Some("failed to create Arti client: "@ + e),
        Stage::Bind => Some(
            "failed to bind SOCKS listener on 127.0.0.1:"@ + decimal(port as nat) + ": "@ + e,
        ),
        Stage::Port => Some("failed to read bound SOCKS port: "@ + e),
        _ => None,
    }
}

/// A client after `event`, and what it does then.
pub open spec fn after_main_event(s: MainState, event: MainEvent) -> (MainState, MainActionView) {
    match (s.stage, event) {
        (Stage::New, MainEvent::Begin) => (
            s.at(Stage::Config),
            MainActionView::Configure(config_of(s.plan.dir)),
        ),
        (Stage::Config, MainEvent::Done) => (s.at(Stage::Client), MainActionView::CreateClient),
        (Stage::Client, MainEvent::Done) => (
            s.at(Stage::Bind),
            MainActionView::Bind(s.plan.socks_port),
        ),
        (Stage::Bind, MainEvent::Done) => (s.at(Stage::Port), MainActionView::ReadPort),
        (Stage::Port, MainEvent::Bound(port)) => (
            s.at(Stage::Serving(port)),
            MainActionView::Serve(port),
        ),
        (Stage::Serving(port), MainEvent::Shutdown(true)) => (
            s.at(Stage::Stopped(port)),
            MainActionView::Stop(port),
        ),
        (Stage::Serving(port), MainEvent::Abandoned) => (
            s.at(Stage::Stopped(port)),
            MainActionView::Stop(port),
        ),
        (Stage::Serving(_), _) => (s, MainActionView::Wait),
        (Stage::Stopped(port), _) => (s, MainActionView::Stop(port)),
        (_, MainEvent::Failed(e)) if main_failure(s.stage, s.plan.socks_port, e@) is Some => (
            s.at(Stage::Ended),
            MainActionView::Fail(main_failure(s.stage, s.plan.socks_port, e@)->0),
        ),
        _ => (s.at(Stage::Ended), MainActionView::Abort),
    }
}

impl Main {
    pub closed spec fn view(&self) -> MainState {
        MainState { plan: self.plan@, stage: self.stage }
    }

    /// A client that is to be started with `plan`.
    pub fn new(plan: StartPlan) -> (main: Main)
        ensures
            main@ == (MainState { plan: plan@, stage: Stage::New }),
    {
        Main { plan, stage: Stage::New }
    }
}

/// What a failure is called: `what`, then the reason.
fn failure(what: &str, e: &str) -> (msg: String)
    ensures
        msg@ == what@ + e@,
{
    let mut msg = what.to_owned();
    msg.append(e);
    msg
}

/// Takes note of what happened to a client and decides what it does next: build
/// the configuration, create the client, bind the SOCKS listener, report its
/// port, then serve until a shutdown is requested, and end with that port.
pub fn async_main(main: &mut Main, event: MainEvent) -> (action: MainAction)
    ensures
        (final(main)@, action@) == after_main_event(old(main)@, event),
{
    match (main.stage, event) {
        (Stage::New, MainEvent::Begin) => {
            main.stage = Stage::Config;
            MainAction::Configure(build_config(&main.plan.dir))
        },
        (Stage::Config, MainEvent::Done) => {
            main.stage = Stage::Client;
            MainAction::CreateClient
        },
        (Stage::Client, MainEvent::Done) => {
            main.stage = Stage::Bind;
            MainAction::Bind(main.plan.socks_port)
        },
        (Stage::Bind, MainEvent::Done) => {
            main.stage = Stage::Port;
            MainAction::ReadPort
        },
        (Stage::Port, MainEvent::Bound(port)) => {
            main.stage = Stage::Serving(port);
            MainAction::Serve(port)
        },
        (Stage::Serving(port), MainEvent::Shutdown(true)) | (
            Stage::Serving(port),
            MainEvent::Abandoned,
        ) => {
            main.stage = Stage::Stopped(port);
            MainAction::Stop(port)
        },
        (Stage::Serving(_), _) => MainAction::Wait,
        (Stage::Stopped(port), _) => MainAction::Stop(port),
        (Stage::Config, MainEvent::Failed(e)) => {
            main.stage = Stage::Ended;
            MainAction::Fail(failure("failed to build Arti configuration: ", e.as_str()))
        },
        (Stage::Client, MainEvent::Failed(e)) => {
            main.stage = Stage::Ended;
            MainAction::Fail(failure("failed to create Arti client: ", e.as_str()))
        },
        (Stage::Bind, MainEvent::Failed(e)) => {
            main.stage = Stage::Ended;
            let mut msg = "failed to bind SOCKS listener on 127.0.0.1:".to_owned();
            msg.append(decimal_text(main.plan.socks_port as u32).as_str());
            msg.append(": ");
            msg.append(e.as_str());
            MainAction::Fail(msg)
        },
        (Stage::Port, MainEvent::Failed(e)) => {
            main.stage = Stage::Ended;
            MainAction::Fail(failure("failed to read bound SOCKS port: ", e.as_str()))
        },
        _ => {
            main.stage = Stage::Ended;
            MainAction::Abort
        },
    }
}

} // verus!

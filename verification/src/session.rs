//! One download session: from a submitted request to its outcome.
//!
//! A session is a state machine. The caller feeds it what happened (a request
//! was submitted, the tools were provisioned, a line arrived, the child
//! exited) and performs the action that the session answers with. The
//! session itself touches neither files nor processes.

use vstd::prelude::*;
use vstd::string::StringExecFns;
use crate::command::{build, command_args};
use crate::provision::{
    cleanup_steps, cleanup_steps_of, copy_steps, provision_steps, provision_steps_of, FileStep,
    FileStepView, Platform, ProvisionedTools, ProvisioningError, ProvisioningErrorView, ToolsView,
};
use crate::request::{request_of, DownloadRequest, InputError, RequestView, EMPTY_URL_MESSAGE};
use crate::settings::{Settings, SettingsView};
use crate::supervisor::{
    exit_description, exit_description_of, first_exit, lemma_merged_feed_length,
    lemma_supervised_feed, line_reports, lines_in, merges, orderly, passed_on, spawn_failure,
    spawn_failure_of, supervise_all, ExitView, LineSource, LineView, OutputLine, PipeEventView,
    ProcessExit, Report, ReportView, SupervisorView,
};
use crate::text::{copy_texts, views_of};

verus! {

/// The message for a download that succeeded.
pub const SUCCESS_MESSAGE: &'static str = "下载完成";

/// How a session ended.
#[derive(Debug, PartialEq, Eq)]
pub enum SessionOutcome {
    /// The child process ran and exited with success.
    Success,
    /// The child process ran and did not exit with success.
    ProcessFailed { exit_description: String },
    /// The tools could not be provisioned.
    ProvisioningFailed { reason: String },
    /// The submission was turned down before any work was done.
    Rejected { error: InputError },
    /// The child process could not be started.
    SpawnFailed { description: String },
}

/// Mathematical model of a `SessionOutcome`.
pub ghost enum OutcomeView {
    Success,
    ProcessFailed { exit_description: Seq<char> },
    ProvisioningFailed { reason: Seq<char> },
    Rejected { error: InputError },
    SpawnFailed { description: Seq<char> },
}

impl View for SessionOutcome {
    type V = OutcomeView;

    open spec fn view(&self) -> OutcomeView {
        match *self {
            SessionOutcome::Success => OutcomeView::Success,
            SessionOutcome::ProcessFailed { exit_description } => OutcomeView::ProcessFailed {
                exit_description: exit_description@,
            },
            SessionOutcome::ProvisioningFailed { reason } => OutcomeView::ProvisioningFailed {
                reason: reason@,
            },
            SessionOutcome::Rejected { error } => OutcomeView::Rejected { error },
            SessionOutcome::SpawnFailed { description } => OutcomeView::SpawnFailed {
                description: description@,
            },
        }
    }
}

impl Clone for SessionOutcome {
    /// A copy of the same outcome.
    fn clone(&self) -> (copy: SessionOutcome)
        ensures
            copy@ == self@,
    {
        match self {
            SessionOutcome::Success => SessionOutcome::Success,
            SessionOutcome::ProcessFailed { exit_description } => SessionOutcome::ProcessFailed {
                exit_description: exit_description.clone(),
            },
            SessionOutcome::ProvisioningFailed { reason } => SessionOutcome::ProvisioningFailed {
                reason: reason.clone(),
            },
            SessionOutcome::Rejected { error } => SessionOutcome::Rejected { error: *error },
            SessionOutcome::SpawnFailed { description } => SessionOutcome::SpawnFailed {
                description: description.clone(),
            },
        }
    }
}

impl OutcomeView {
    /// The line that tells the user of this outcome.
    pub open spec fn message(self) -> Seq<char> {
        match self {
            OutcomeView::Success => SUCCESS_MESSAGE@,
            OutcomeView::ProcessFailed { exit_description } => exit_description,
            OutcomeView::ProvisioningFailed { reason } => reason,
            OutcomeView::Rejected { error } => EMPTY_URL_MESSAGE@,
            OutcomeView::SpawnFailed { description } => description,
        }
    }
}

impl SessionOutcome {
    /// Whether the download succeeded.
    pub fn is_success(&self) -> (success: bool)
        ensures
            success == (self@ is Success),
    {
        match self {
            SessionOutcome::Success => true,
            _ => false,
        }
    }

    /// The line that tells the user of this outcome.
    pub fn message(&self) -> (message: String)
        ensures
            message@ == self@.message(),
    {
        match self {
            SessionOutcome::Success => String::from_str(SUCCESS_MESSAGE),
            SessionOutcome::ProcessFailed { exit_description } => exit_description.clone(),
            SessionOutcome::ProvisioningFailed { reason } => reason.clone(),
            SessionOutcome::Rejected { error } => error.describe(),
            SessionOutcome::SpawnFailed { description } => description.clone(),
        }
    }
}

/// Where a session stands.
#[derive(Debug, PartialEq, Eq)]
pub enum SessionState {
    /// Nothing was submitted yet.
    Idle,
    /// A request was accepted and the tools are being provisioned.
    Provisioning { request: DownloadRequest },
    /// The child process was asked for; its lines and its exit are awaited.
    Running { request: DownloadRequest },
    /// The session is over.
    Terminal { outcome: SessionOutcome },
}

/// Mathematical model of a `SessionState`.
pub ghost enum StateView {
    Idle,
    Provisioning { request: RequestView },
    Running { request: RequestView },
    Terminal { outcome: OutcomeView },
}

impl View for SessionState {
    type V = StateView;

    open spec fn view(&self) -> StateView {
        match *self {
            SessionState::Idle => StateView::Idle,
            SessionState::Provisioning { request } => StateView::Provisioning {
                request: request@,
            },
            SessionState::Running { request } => StateView::Running { request: request@ },
            SessionState::Terminal { outcome } => StateView::Terminal { outcome: outcome@ },
        }
    }
}

impl Clone for SessionState {
    /// A copy of the same state.
    fn clone(&self) -> (copy: SessionState)
        ensures
            copy@ == self@,
    {
        match self {
            SessionState::Idle => SessionState::Idle,
            SessionState::Provisioning { request } => SessionState::Provisioning {
                request: request.clone(),
            },
            SessionState::Running { request } => SessionState::Running { request: request.clone() },
            SessionState::Terminal { outcome } => SessionState::Terminal {
                outcome: outcome.clone(),
            },
        }
    }
}

/// What the caller reports to a session.
#[derive(Debug, PartialEq, Eq)]
pub enum SessionEvent {
    /// A URL was submitted under the given settings.
    Submit { url: String, settings: Settings },
    /// Every provisioning step succeeded.
    Provisioned,
    /// A provisioning step failed.
    ProvisioningFailed { error: ProvisioningError },
    /// The child process could not be started, for the given reason.
    SpawnFailed { reason: String },
    /// The child process wrote a line.
    Line { line: OutputLine },
    /// Both pipes are drained and the child process has exited.
    Exited { exit: ProcessExit },
}

/// Mathematical model of a `SessionEvent`.
pub ghost enum EventView {
    Submit { url: Seq<char>, settings: SettingsView },
    Provisioned,
    ProvisioningFailed { error: ProvisioningErrorView },
    SpawnFailed { reason: Seq<char> },
    Line { line: LineView },
    Exited { exit: ExitView },
}

impl View for SessionEvent {
    type V = EventView;

    open spec fn view(&self) -> EventView {
        match *self {
            SessionEvent::Submit { url, settings } => EventView::Submit {
                url: url@,
                settings: settings@,
            },
            SessionEvent::Provisioned => EventView::Provisioned,
            SessionEvent::ProvisioningFailed { error } => EventView::ProvisioningFailed {
                error: error@,
            },
            SessionEvent::SpawnFailed { reason } => EventView::SpawnFailed { reason: reason@ },
            SessionEvent::Line { line } => EventView::Line { line: line@ },
            SessionEvent::Exited { exit } => EventView::Exited { exit: exit@ },
        }
    }
}

impl Clone for SessionEvent {
    /// A copy of the same event.
    fn clone(&self) -> (copy: SessionEvent)
        ensures
            copy@ == self@,
    {
        match self {
            SessionEvent::Submit { url, settings } => SessionEvent::Submit {
                url: url.clone(),
                settings: settings.clone(),
            },
            SessionEvent::Provisioned => SessionEvent::Provisioned,
            SessionEvent::ProvisioningFailed { error } => SessionEvent::ProvisioningFailed {
                error: error.clone(),
            },
            SessionEvent::SpawnFailed { reason } => SessionEvent::SpawnFailed {
                reason: reason.clone(),
            },
            SessionEvent::Line { line } => SessionEvent::Line { line: line.clone() },
            SessionEvent::Exited { exit } => SessionEvent::Exited { exit: exit.clone() },
        }
    }
}

/// The event that reports to a session what the supervisor passed on.
pub open spec fn event_of(report: ReportView) -> Option<EventView> {
    match report {
        ReportView::Line { line } => Some(EventView::Line { line }),
        ReportView::Exited { exit } => Some(EventView::Exited { exit }),
        ReportView::Nothing => None,
    }
}

impl SessionEvent {
    /// The event that reports to a session what the supervisor passed on: a
    /// line, the exit, or no event where the supervisor passed nothing on.
    pub fn from_report(report: Report) -> (event: Option<SessionEvent>)
        ensures
            event is Some <==> event_of(report@) is Some,
            event matches Some(e) ==> Some(e@) == event_of(report@),
    {
        match report {
            Report::Line { line } => Some(SessionEvent::Line { line }),
            Report::Exited { exit } => Some(SessionEvent::Exited { exit }),
            Report::Nothing => None,
        }
    }
}

/// What a session asks its caller to do.
#[derive(Debug, PartialEq, Eq)]
pub enum SessionAction {
    /// Perform the steps in order, then report `Provisioned`, or
    /// `ProvisioningFailed` with the first failure that counts.
    Provision { steps: Vec<FileStep> },
    /// Start the program with the arguments, both pipes captured, then report
    /// each line, and the exit once both pipes are drained.
    Spawn { program: String, args: Vec<String> },
    /// Hand the line to the consumer.
    Relay { line: OutputLine },
    /// Hand the outcome to the consumer, and perform the cleanup steps, whose
    /// failures do not count.
    Finish { outcome: SessionOutcome, cleanup: Vec<FileStep> },
    /// The event does not belong to the state the session is in: do nothing.
    Ignore,
}

/// Mathematical model of a `SessionAction`.
pub ghost enum ActionView {
    Provision { steps: Seq<FileStepView> },
    Spawn { program: Seq<char>, args: Seq<Seq<char>> },
    Relay { line: LineView },
    Finish { outcome: OutcomeView, cleanup: Seq<FileStepView> },
    Ignore,
}

impl View for SessionAction {
    type V = ActionView;

    open spec fn view(&self) -> ActionView {
        match *self {
            SessionAction::Provision { steps } => ActionView::Provision { steps: views_of(steps@) },
            SessionAction::Spawn { program, args } => ActionView::Spawn {
                program: program@,
                args: views_of(args@),
            },
            SessionAction::Relay { line } => ActionView::Relay { line: line@ },
            SessionAction::Finish { outcome, cleanup } => ActionView::Finish {
                outcome: outcome@,
                cleanup: views_of(cleanup@),
            },
            SessionAction::Ignore => ActionView::Ignore,
        }
    }
}

impl Clone for SessionAction {
    /// A copy of the same action.
    fn clone(&self) -> (copy: SessionAction)
        ensures
            copy@ == self@,
    {
        match self {
            SessionAction::Provision { steps } => SessionAction::Provision {
                steps: copy_steps(steps),
            },
            SessionAction::Spawn { program, args } => SessionAction::Spawn {
                program: program.clone(),
                args: copy_texts(args),
            },
            SessionAction::Relay { line } => SessionAction::Relay { line: line.clone() },
            SessionAction::Finish { outcome, cleanup } => SessionAction::Finish {
                outcome: outcome.clone(),
                cleanup: copy_steps(cleanup),
            },
            SessionAction::Ignore => SessionAction::Ignore,
        }
    }
}

/// The session ends with `outcome`; the tools are removed only after success.
pub open spec fn finish_with(outcome: OutcomeView, tools: ToolsView) -> (StateView, ActionView) {
    (
        StateView::Terminal { outcome },
        ActionView::Finish {
            outcome,
            cleanup: if outcome is Success {
                cleanup_steps_of(tools)
            } else {
                Seq::empty()
            },
        },
    )
}

/// The transition relation of a session: the state that follows `state` on
/// `event`, and the action that the caller is asked for.
///
/// - An idle session accepts a submission. An empty URL ends it at once; any
///   other URL starts provisioning.
/// - A provisioning session waits for the result of provisioning. Success
///   asks for the child process; failure ends the session.
/// - A running session relays every line. It ends when the child could not
///   be started or has exited.
/// - Every other event is ignored; in particular a session that is over
///   stays as it is.
pub open spec fn next(state: StateView, tools: ToolsView, platform: Platform, event: EventView) -> (
    StateView,
    ActionView,
) {
    match (state, event) {
        (StateView::Idle, EventView::Submit { url, settings }) => if url.len() == 0 {
            finish_with(OutcomeView::Rejected { error: InputError::EmptyUrl }, tools)
        } else {
            (
                StateView::Provisioning { request: request_of(url, settings) },
                ActionView::Provision { steps: provision_steps_of(tools, platform) },
            )
        },
        (StateView::Provisioning { request }, EventView::Provisioned) => (
            StateView::Running { request },
            ActionView::Spawn {
                program: tools.downloader_path,
                args: command_args(request, tools.muxer_path),
            },
        ),
        (StateView::Provisioning { request }, EventView::ProvisioningFailed { error }) => {
            finish_with(OutcomeView::ProvisioningFailed { reason: error.message() }, tools)
        },
        (StateView::Running { request }, EventView::Line { line }) => (
            state,
            ActionView::Relay { line },
        ),
        (StateView::Running { request }, EventView::SpawnFailed { reason }) => finish_with(
            OutcomeView::SpawnFailed { description: spawn_failure_of(reason) },
            tools,
        ),
        (StateView::Running { request }, EventView::Exited { exit }) => {
            if exit.success {
                finish_with(OutcomeView::Success, tools)
            } else {
                finish_with(
                    OutcomeView::ProcessFailed {
                        exit_description: exit_description_of(exit.status_text),
                    },
                    tools,
                )
            }
        },
        _ => (state, ActionView::Ignore),
    }
}

/// Ends a session with a failure: nothing is cleaned up.
fn fail_with(outcome: SessionOutcome, tools: &ProvisionedTools) -> (r: (
    SessionState,
    SessionAction,
))
    requires
        !(outcome@ is Success),
    ensures
        (r.0@, r.1@) == finish_with(outcome@, tools@),
{
    let reported = outcome.clone();
    let cleanup: Vec<FileStep> = Vec::new();
    assert(views_of(cleanup@) =~= Seq::<FileStepView>::empty());
    (SessionState::Terminal { outcome }, SessionAction::Finish { outcome: reported, cleanup })
}

/// Takes one step of a session: the state after `event`, and the action that
/// the caller is asked for.
pub fn advance(
    state: SessionState,
    tools: &ProvisionedTools,
    platform: Platform,
    event: SessionEvent,
) -> (r: (SessionState, SessionAction))
    ensures
        (r.0@, r.1@) == next(state@, tools@, platform, event@),
{
    match (state, event) {
        (SessionState::Idle, SessionEvent::Submit { url, settings }) => {
            match DownloadRequest::new(url.as_str(), &settings) {
                Err(error) => fail_with(SessionOutcome::Rejected { error }, tools),
                Ok(request) => (
                    SessionState::Provisioning { request },
                    SessionAction::Provision { steps: provision_steps(tools, platform) },
                ),
            }
        },
        (SessionState::Provisioning { request }, SessionEvent::Provisioned) => {
            let args = build(&request, tools);
            (
                SessionState::Running { request },
                SessionAction::Spawn { program: tools.downloader_path.clone(), args },
            )
        },
        (SessionState::Provisioning { request }, SessionEvent::ProvisioningFailed { error }) => {
            fail_with(
                SessionOutcome::ProvisioningFailed { reason: error.describe() },
                tools,
            )
        },
        (SessionState::Running { request }, SessionEvent::Line { line }) => (
            SessionState::Running { request },
            SessionAction::Relay { line },
        ),
        (SessionState::Running { request }, SessionEvent::SpawnFailed { reason }) => fail_with(
            SessionOutcome::SpawnFailed { description: spawn_failure(reason.as_str()) },
            tools,
        ),
        (SessionState::Running { request }, SessionEvent::Exited { exit }) => {
            if exit.success {
                (
                    SessionState::Terminal { outcome: SessionOutcome::Success },
                    SessionAction::Finish {
                        outcome: SessionOutcome::Success,
                        cleanup: cleanup_steps(tools),
                    },
                )
            } else {
                fail_with(
                    SessionOutcome::ProcessFailed {
                        exit_description: exit_description(exit.status_text.as_str()),
                    },
                    tools,
                )
            }
        },
        (state, _) => (state, SessionAction::Ignore),
    }
}

/// A download session. It is created idle, for the tool paths and the
/// platform of one run, and changes only through `step`.
#[derive(Debug)]
pub struct DownloadSession {
    state: SessionState,
    tools: ProvisionedTools,
    platform: Platform,
}

/// Mathematical model of a `DownloadSession`.
pub ghost struct SessionView {
    pub state: StateView,
    pub tools: ToolsView,
    pub platform: Platform,
}

impl View for DownloadSession {
    type V = SessionView;

    closed spec fn view(&self) -> SessionView {
        SessionView { state: self.state@, tools: self.tools@, platform: self.platform }
    }
}

impl DownloadSession {
    /// A fresh, idle session for the given tool paths and platform.
    pub fn new(tools: ProvisionedTools, platform: Platform) -> (session: DownloadSession)
        ensures
            session@ == (SessionView { state: StateView::Idle, tools: tools@, platform }),
    {
        DownloadSession { state: SessionState::Idle, tools, platform }
    }

    /// The state the session is in.
    pub fn state(&self) -> (state: &SessionState)
        ensures
            state@ == self@.state,
    {
        &self.state
    }

    /// The tool paths of this session.
    pub fn tools(&self) -> (tools: &ProvisionedTools)
        ensures
            tools@ == self@.tools,
    {
        &self.tools
    }

    /// The platform this session provisions for.
    pub fn platform(&self) -> (platform: Platform)
        ensures
            platform == self@.platform,
    {
        self.platform
    }

    /// Whether a download is under way: a request was accepted and the
    /// session is not over.
    pub fn is_downloading(&self) -> (busy: bool)
        ensures
            busy == (self@.state is Provisioning || self@.state is Running),
    {
        match &self.state {
            SessionState::Provisioning { .. } => true,
            SessionState::Running { .. } => true,
            _ => false,
        }
    }

    /// The outcome, once the session is over.
    pub fn outcome(&self) -> (outcome: Option<&SessionOutcome>)
        ensures
            outcome is Some <==> self@.state is Terminal,
            outcome matches Some(o) ==> self@.state == (StateView::Terminal { outcome: o@ }),
    {
        match &self.state {
            SessionState::Terminal { outcome } => Some(outcome),
            _ => None,
        }
    }

    /// Feeds one event to the session and returns the action that the caller
    /// is asked for. State and action are those of `next`; the tool paths and
    /// the platform never change.
    pub fn step(&mut self, event: SessionEvent) -> (action: SessionAction)
        ensures
            final(self)@.tools == old(self)@.tools,
            final(self)@.platform == old(self)@.platform,
            (final(self)@.state, action@) == next(
                old(self)@.state,
                old(self)@.tools,
                old(self)@.platform,
                event@,
            ),
    {
        let mut state = SessionState::Idle;
        core::mem::swap(&mut self.state, &mut state);
        let (after, action) = advance(state, &self.tools, self.platform, event);
        self.state = after;
        action
    }
}

/// The state after a run of events, and the actions asked for on the way,
/// one for each event.
pub open spec fn run(
    state: StateView,
    tools: ToolsView,
    platform: Platform,
    events: Seq<EventView>,
) -> (StateView, Seq<ActionView>)
    decreases events.len(),
{
    if events.len() == 0 {
        (state, Seq::empty())
    } else {
        let (before, actions) = run(state, tools, platform, events.drop_last());
        let (after, action) = next(before, tools, platform, events.last());
        (after, actions.push(action))
    }
}

/// The events that report the lines of a feed, in the order of the feed.
pub open spec fn line_events(feed: Seq<LineView>) -> Seq<EventView> {
    Seq::new(feed.len(), |i: int| EventView::Line { line: feed[i] })
}

/// The actions that relay the lines of a feed, in the order of the feed.
pub open spec fn relays(feed: Seq<LineView>) -> Seq<ActionView> {
    Seq::new(feed.len(), |i: int| ActionView::Relay { line: feed[i] })
}

/// How many of the actions hand an outcome to the consumer.
pub open spec fn outcomes_in(actions: Seq<ActionView>) -> nat
    decreases actions.len(),
{
    if actions.len() == 0 {
        0
    } else {
        outcomes_in(actions.drop_last()) + if actions.last() is Finish {
            1nat
        } else {
            0nat
        }
    }
}

/// A run of events is a run of its first part followed by a run of the rest.
pub proof fn lemma_run_concat(
    state: StateView,
    tools: ToolsView,
    platform: Platform,
    first: Seq<EventView>,
    rest: Seq<EventView>,
)
    ensures
        run(state, tools, platform, first + rest) == ({
            let (middle, actions) = run(state, tools, platform, first);
            let (end, more) = run(middle, tools, platform, rest);
            (end, actions + more)
        }),
    decreases rest.len(),
{
    let (middle, actions) = run(state, tools, platform, first);
    if rest.len() == 0 {
        assert(first + rest =~= first);
        assert(actions + Seq::<ActionView>::empty() =~= actions);
    } else {
        lemma_run_concat(state, tools, platform, first, rest.drop_last());
        assert((first + rest).drop_last() =~= first + rest.drop_last());
        let (before, more) = run(middle, tools, platform, rest.drop_last());
        let (after, action) = next(before, tools, platform, rest.last());
        assert((actions + more).push(action) =~= actions + more.push(action));
    }
}

/// A session that is over stays as it is: whatever is reported to it, it
/// keeps its outcome and asks for nothing.
pub proof fn lemma_terminal_is_absorbing(
    outcome: OutcomeView,
    tools: ToolsView,
    platform: Platform,
    events: Seq<EventView>,
)
    ensures
        run(StateView::Terminal { outcome }, tools, platform, events).0 == (StateView::Terminal {
            outcome,
        }),
        run(StateView::Terminal { outcome }, tools, platform, events).1.len() == events.len(),
        forall|i: int|
            0 <= i < events.len() ==> run(
                StateView::Terminal { outcome },
                tools,
                platform,
                events,
            ).1[i] == ActionView::Ignore,
    decreases events.len(),
{
    if events.len() > 0 {
        lemma_terminal_is_absorbing(outcome, tools, platform, events.drop_last());
    }
}

/// While the child runs, every line that is reported is relayed, one action
/// for each line and in the order in which the lines arrive, and the session
/// keeps running.
pub proof fn lemma_running_relays_lines(
    request: RequestView,
    tools: ToolsView,
    platform: Platform,
    feed: Seq<LineView>,
)
    ensures
        run(StateView::Running { request }, tools, platform, line_events(feed)) == (
            StateView::Running { request },
            relays(feed),
        ),
    decreases feed.len(),
{
    if feed.len() == 0 {
        assert(relays(feed) =~= Seq::<ActionView>::empty());
    } else {
        lemma_running_relays_lines(request, tools, platform, feed.drop_last());
        assert(line_events(feed).drop_last() =~= line_events(feed.drop_last()));
        assert(relays(feed.drop_last()).push(ActionView::Relay { line: feed.last() }) =~= relays(
            feed,
        ));
    }
}

/// A child that writes its lines and then exits with success: the consumer
/// gets every line of the merged feed exactly once and in the order of the
/// feed, then the outcome `Success` together with the cleanup of both tools.
/// Where the feed merges the two streams, that is one relayed line for each
/// line of either stream.
pub proof fn lemma_successful_run_relays_every_line(
    request: RequestView,
    tools: ToolsView,
    platform: Platform,
    feed: Seq<LineView>,
    stdout: Seq<Seq<char>>,
    stderr: Seq<Seq<char>>,
    status_text: Seq<char>,
)
    requires
        merges(feed, stdout, stderr),
    ensures
        run(
            StateView::Running { request },
            tools,
            platform,
            line_events(feed).push(
                EventView::Exited { exit: ExitView { success: true, status_text } },
            ),
        ) == (
            StateView::Terminal { outcome: OutcomeView::Success },
            relays(feed).push(
                ActionView::Finish {
                    outcome: OutcomeView::Success,
                    cleanup: cleanup_steps_of(tools),
                },
            ),
        ),
        relays(feed).len() == stdout.len() + stderr.len(),
{
    let events = line_events(feed).push(
        EventView::Exited { exit: ExitView { success: true, status_text } },
    );
    lemma_running_relays_lines(request, tools, platform, feed);
    assert(events.drop_last() =~= line_events(feed));
    lemma_merged_feed_length(feed, stdout, stderr);
}

/// A child that exits without success ends the session with `ProcessFailed`.
/// The description is never empty, and no cleanup is asked for: the tools
/// stay where they are.
pub proof fn lemma_failed_exit_keeps_tools(
    request: RequestView,
    tools: ToolsView,
    platform: Platform,
    status_text: Seq<char>,
)
    ensures
        exit_description_of(status_text).len() > 0,
        next(
            StateView::Running { request },
            tools,
            platform,
            EventView::Exited { exit: ExitView { success: false, status_text } },
        ) == (
            StateView::Terminal {
                outcome: OutcomeView::ProcessFailed {
                    exit_description: exit_description_of(status_text),
                },
            },
            ActionView::Finish {
                outcome: OutcomeView::ProcessFailed {
                    exit_description: exit_description_of(status_text),
                },
                cleanup: Seq::empty(),
            },
        ),
{
    reveal_strlit("线程退出状态：");
}

/// Submitting an empty URL ends the session at once with `Rejected`, and
/// whatever is reported afterwards, the session never asks for the tools to
/// be provisioned nor for a process to be started.
pub proof fn lemma_empty_url_never_spawns(
    tools: ToolsView,
    platform: Platform,
    settings: SettingsView,
    later: Seq<EventView>,
)
    ensures
        ({
            let events = seq![EventView::Submit { url: Seq::empty(), settings }] + later;
            let rejected = OutcomeView::Rejected { error: InputError::EmptyUrl };
            let (state, actions) = run(StateView::Idle, tools, platform, events);
            &&& state == StateView::Terminal { outcome: rejected }
            &&& actions.len() == events.len()
            &&& actions[0] == ActionView::Finish { outcome: rejected, cleanup: Seq::empty() }
            &&& forall|i: int|
                0 <= i < actions.len() ==> !(actions[i] is Spawn) && !(actions[i] is Provision)
        }),
{
    let submit = seq![EventView::Submit { url: Seq::<char>::empty(), settings }];
    let rejected = OutcomeView::Rejected { error: InputError::EmptyUrl };
    assert(run(StateView::Idle, tools, platform, submit) == (
        StateView::Terminal { outcome: rejected },
        seq![ActionView::Finish { outcome: rejected, cleanup: Seq::empty() }],
    )) by {
        reveal_with_fuel(run, 2);
        assert(submit.drop_last() =~= Seq::<EventView>::empty());
        assert(Seq::<ActionView>::empty().push(
            ActionView::Finish { outcome: rejected, cleanup: Seq::empty() },
        ) =~= seq![ActionView::Finish { outcome: rejected, cleanup: Seq::empty() }]);
    }
    lemma_run_concat(StateView::Idle, tools, platform, submit, later);
    lemma_terminal_is_absorbing(rejected, tools, platform, later);
}

/// A session hands out at most one outcome, and it has handed one out exactly
/// when it is over. This holds of every run of events from a state that is
/// not yet terminal.
pub proof fn lemma_at_most_one_outcome(
    state: StateView,
    tools: ToolsView,
    platform: Platform,
    events: Seq<EventView>,
)
    requires
        !(state is Terminal),
    ensures
        ({
            let (end, actions) = run(state, tools, platform, events);
            &&& outcomes_in(actions) <= 1
            &&& end is Terminal <==> outcomes_in(actions) == 1
        }),
    decreases events.len(),
{
    if events.len() > 0 {
        lemma_at_most_one_outcome(state, tools, platform, events.drop_last());
        let (before, actions) = run(state, tools, platform, events.drop_last());
        let (after, action) = next(before, tools, platform, events.last());
        assert(actions.push(action).drop_last() =~= actions);
    }
}

/// The events that report to a session what the supervisor passed on, in
/// the same order.
pub open spec fn events_of(reports: Seq<ReportView>) -> Seq<EventView>
    decreases reports.len(),
{
    if reports.len() == 0 {
        Seq::empty()
    } else {
        match event_of(reports.last()) {
            Some(event) => events_of(reports.drop_last()).push(event),
            None => events_of(reports.drop_last()),
        }
    }
}

/// Reports that say nothing make no event.
proof fn lemma_events_of_passed_on(reports: Seq<ReportView>)
    ensures
        events_of(reports) == events_of(passed_on(reports)),
    decreases reports.len(),
{
    if reports.len() > 0 {
        lemma_events_of_passed_on(reports.drop_last());
        if !(reports.last() is Nothing) {
            let kept = passed_on(reports.drop_last());
            assert(kept.push(reports.last()).drop_last() =~= kept);
        }
    }
}

/// The reports of the lines of a feed make the events of those lines.
proof fn lemma_events_of_line_reports(feed: Seq<LineView>)
    ensures
        events_of(line_reports(feed)) == line_events(feed),
    decreases feed.len(),
{
    if feed.len() == 0 {
        assert(line_events(feed) =~= Seq::<EventView>::empty());
    } else {
        lemma_events_of_line_reports(feed.drop_last());
        assert(line_reports(feed).drop_last() =~= line_reports(feed.drop_last()));
        assert(line_events(feed.drop_last()).push(EventView::Line { line: feed.last() })
            =~= line_events(feed));
    }
}

/// A child whose two pipes are drained in an orderly way and that exits with
/// success. Whatever the order in which lines, ends of pipes and the exit
/// arrive at the supervisor, the consumer gets every line exactly once and in
/// the order of arrival, and after the last of them the outcome `Success`
/// with the cleanup of both tools. Where the lines that arrived merge the
/// two streams, that is one relayed line for each line of either stream.
pub proof fn lemma_drained_success_reaches_consumer(
    request: RequestView,
    tools: ToolsView,
    platform: Platform,
    events: Seq<PipeEventView>,
    stdout: Seq<Seq<char>>,
    stderr: Seq<Seq<char>>,
    status_text: Seq<char>,
)
    requires
        orderly(events),
        events.contains(PipeEventView::Closed { source: LineSource::Stdout }),
        events.contains(PipeEventView::Closed { source: LineSource::Stderr }),
        first_exit(events) == Some(ExitView { success: true, status_text }),
        merges(lines_in(events), stdout, stderr),
    ensures
        run(
            StateView::Running { request },
            tools,
            platform,
            events_of(supervise_all(SupervisorView::initial(), events).1),
        ) == (
            StateView::Terminal { outcome: OutcomeView::Success },
            relays(lines_in(events)).push(
                ActionView::Finish {
                    outcome: OutcomeView::Success,
                    cleanup: cleanup_steps_of(tools),
                },
            ),
        ),
        relays(lines_in(events)).len() == stdout.len() + stderr.len(),
{
    let feed = lines_in(events);
    let exit = ExitView { success: true, status_text };
    let reports = supervise_all(SupervisorView::initial(), events).1;
    lemma_supervised_feed(events);
    lemma_events_of_passed_on(reports);
    lemma_events_of_line_reports(feed);
    let ended = line_reports(feed).push(ReportView::Exited { exit });
    assert(passed_on(reports) =~= ended);
    assert(ended.drop_last() =~= line_reports(feed));
    assert(events_of(reports) == line_events(feed).push(EventView::Exited { exit }));
    lemma_successful_run_relays_every_line(
        request,
        tools,
        platform,
        feed,
        stdout,
        stderr,
        status_text,
    );
}

} // verus!

//! Watching over the child process: the lines of its two pipes, merged into
//! one feed, and its exit.
//!
//! The child's two pipes are drained by two readers that report to one
//! ordered channel, and a third party reports the exit. Lines of one stream
//! keep their order in that channel; lines of different streams may
//! interleave in any way, and the exit may arrive at any time. The supervisor
//! passes the lines on as they arrive and holds the exit back until both
//! pipes are drained, so that no line can follow the end of the run.

use vstd::prelude::*;
use crate::text::joined;

verus! {

/// Start of the description of a child process that did not succeed.
pub const EXIT_STATUS_PREFIX: &'static str = "线程退出状态：";

/// Start of the description of a child process that could not be started.
pub const SPAWN_FAILED_PREFIX: &'static str = "无法启动进程: ";

/// The stream a line was read from.
#[derive(Debug, Clone, Copy, PartialEq, Eq, Structural)]
pub enum LineSource {
    Stdout,
    Stderr,
}

/// One line of the child's output, without its line ending.
#[derive(Debug, PartialEq, Eq)]
pub struct OutputLine {
    pub source: LineSource,
    pub text: String,
}

/// Mathematical model of an `OutputLine`.
pub ghost struct LineView {
    pub source: LineSource,
    pub text: Seq<char>,
}

impl View for OutputLine {
    type V = LineView;

    open spec fn view(&self) -> LineView {
        LineView { source: self.source, text: self.text@ }
    }
}

impl Clone for OutputLine {
    /// A copy of the same line.
    fn clone(&self) -> (copy: OutputLine)
        ensures
            copy@ == self@,
    {
        OutputLine { source: self.source, text: self.text.clone() }
    }
}

impl OutputLine {
    /// The line for one read from a stream. A line that could not be decoded
    /// is forwarded as an empty line, so that none is lost.
    pub fn from_read(source: LineSource, read: Option<String>) -> (line: OutputLine)
        ensures
            line@.source == source,
            read matches Some(text) ==> line@.text == text@,
            read is None ==> line@.text == Seq::<char>::empty(),
    {
        let text = match read {
            Some(text) => text,
            None => String::new(),
        };
        OutputLine { source, text }
    }
}

/// The description of a child process that ended without success.
pub open spec fn exit_description_of(status_text: Seq<char>) -> Seq<char> {
    EXIT_STATUS_PREFIX@ + status_text
}

/// The description of a child process that could not be started.
pub open spec fn spawn_failure_of(reason: Seq<char>) -> Seq<char> {
    SPAWN_FAILED_PREFIX@ + reason
}

/// Describes a child process that ended without success, given the platform's
/// rendering of its exit status. The description is never empty.
pub fn exit_description(status_text: &str) -> (description: String)
    ensures
        description@ == exit_description_of(status_text@),
        description@.len() > 0,
{
    proof {
        reveal_strlit("线程退出状态：");
    }
    joined(EXIT_STATUS_PREFIX, status_text)
}

/// Describes a child process that could not be started, given the platform's
/// reason. The description is never empty.
pub fn spawn_failure(reason: &str) -> (description: String)
    ensures
        description@ == spawn_failure_of(reason@),
        description@.len() > 0,
{
    proof {
        reveal_strlit("无法启动进程: ");
    }
    joined(SPAWN_FAILED_PREFIX, reason)
}

/// The texts of the lines of one stream, in the order in which they stand in
/// a merged feed.
pub open spec fn lines_from(feed: Seq<LineView>, source: LineSource) -> Seq<Seq<char>>
    decreases feed.len(),
{
    if feed.len() == 0 {
        Seq::empty()
    } else if feed.last().source == source {
        lines_from(feed.drop_last(), source).push(feed.last().text)
    } else {
        lines_from(feed.drop_last(), source)
    }
}

/// A feed merges two streams when it holds the lines of each in their own
/// order. How the two interleave is left open.
pub open spec fn merges(feed: Seq<LineView>, stdout: Seq<Seq<char>>, stderr: Seq<Seq<char>>) -> bool {
    &&& lines_from(feed, LineSource::Stdout) == stdout
    &&& lines_from(feed, LineSource::Stderr) == stderr
}

/// A feed that merges two streams holds as many lines as both streams
/// together: none is lost and none is doubled.
pub proof fn lemma_merged_feed_length(
    feed: Seq<LineView>,
    stdout: Seq<Seq<char>>,
    stderr: Seq<Seq<char>>,
)
    requires
        merges(feed, stdout, stderr),
    ensures
        feed.len() == stdout.len() + stderr.len(),
    decreases feed.len(),
{
    if feed.len() > 0 {
        lemma_merged_feed_length(
            feed.drop_last(),
            lines_from(feed.drop_last(), LineSource::Stdout),
            lines_from(feed.drop_last(), LineSource::Stderr),
        );
    }
}

/// How the child process ended, as the platform reports it.
#[derive(Debug, PartialEq, Eq)]
pub struct ProcessExit {
    /// Whether the exit status stands for success.
    pub success: bool,
    /// The platform's rendering of the exit status.
    pub status_text: String,
}

/// Mathematical model of a `ProcessExit`.
pub ghost struct ExitView {
    pub success: bool,
    pub status_text: Seq<char>,
}

impl View for ProcessExit {
    type V = ExitView;

    open spec fn view(&self) -> ExitView {
        ExitView { success: self.success, status_text: self.status_text@ }
    }
}

impl Clone for ProcessExit {
    /// A copy of the same exit.
    fn clone(&self) -> (copy: ProcessExit)
        ensures
            copy@ == self@,
    {
        ProcessExit { success: self.success, status_text: self.status_text.clone() }
    }
}

/// What the readers of the two pipes and the waiter on the child report, in
/// the order in which their reports arrive.
#[derive(Debug, PartialEq, Eq)]
pub enum PipeEvent {
    /// A reader has read a line.
    Line { line: OutputLine },
    /// A reader has reached the end of its pipe.
    Closed { source: LineSource },
    /// The child process has exited.
    Exited { exit: ProcessExit },
}

/// Mathematical model of a `PipeEvent`.
pub ghost enum PipeEventView {
    Line { line: LineView },
    Closed { source: LineSource },
    Exited { exit: ExitView },
}

impl View for PipeEvent {
    type V = PipeEventView;

    open spec fn view(&self) -> PipeEventView {
        match *self {
            PipeEvent::Line { line } => PipeEventView::Line { line: line@ },
            PipeEvent::Closed { source } => PipeEventView::Closed { source },
            PipeEvent::Exited { exit } => PipeEventView::Exited { exit: exit@ },
        }
    }
}

impl Clone for PipeEvent {
    /// A copy of the same event.
    fn clone(&self) -> (copy: PipeEvent)
        ensures
            copy@ == self@,
    {
        match self {
            PipeEvent::Line { line } => PipeEvent::Line { line: line.clone() },
            PipeEvent::Closed { source } => PipeEvent::Closed { source: *source },
            PipeEvent::Exited { exit } => PipeEvent::Exited { exit: exit.clone() },
        }
    }
}

/// What the supervisor passes on for one pipe event.
#[derive(Debug, PartialEq, Eq)]
pub enum Report {
    /// A line of the merged feed.
    Line { line: OutputLine },
    /// The end of the run: both pipes are drained and the child has exited.
    Exited { exit: ProcessExit },
    /// Nothing to pass on yet.
    Nothing,
}

/// Mathematical model of a `Report`.
pub ghost enum ReportView {
    Line { line: LineView },
    Exited { exit: ExitView },
    Nothing,
}

impl View for Report {
    type V = ReportView;

    open spec fn view(&self) -> ReportView {
        match *self {
            Report::Line { line } => ReportView::Line { line: line@ },
            Report::Exited { exit } => ReportView::Exited { exit: exit@ },
            Report::Nothing => ReportView::Nothing,
        }
    }
}

impl Clone for Report {
    /// A copy of the same report.
    fn clone(&self) -> (copy: Report)
        ensures
            copy@ == self@,
    {
        match self {
            Report::Line { line } => Report::Line { line: line.clone() },
            Report::Exited { exit } => Report::Exited { exit: exit.clone() },
            Report::Nothing => Report::Nothing,
        }
    }
}

/// Mathematical model of a `Supervisor`.
pub ghost struct SupervisorView {
    /// The reader of standard output has not reached the end yet.
    pub stdout_open: bool,
    /// The reader of standard error has not reached the end yet.
    pub stderr_open: bool,
    /// The exit of the child, once it is known.
    pub exit: Option<ExitView>,
    /// The end of the run was passed on.
    pub reported: bool,
}

impl SupervisorView {
    /// The supervisor of a child that was just started.
    pub open spec fn initial() -> SupervisorView {
        SupervisorView { stdout_open: true, stderr_open: true, exit: None, reported: false }
    }

    /// Both readers have reached the end of their pipes.
    pub open spec fn drained(self) -> bool {
        !self.stdout_open && !self.stderr_open
    }

    /// This supervisor with one more pipe closed.
    pub open spec fn close(self, source: LineSource) -> SupervisorView {
        match source {
            LineSource::Stdout => SupervisorView { stdout_open: false, ..self },
            LineSource::Stderr => SupervisorView { stderr_open: false, ..self },
        }
    }

    /// Whether the pipe of a stream is still open.
    pub open spec fn is_open(self, source: LineSource) -> bool {
        match source {
            LineSource::Stdout => self.stdout_open,
            LineSource::Stderr => self.stderr_open,
        }
    }
}

/// Passes on the end of the run if it is due: the pipes are drained, the
/// exit is known, and it was not passed on before.
pub open spec fn settle(state: SupervisorView) -> (SupervisorView, ReportView) {
    if !state.reported && state.drained() && state.exit is Some {
        (SupervisorView { reported: true, ..state }, ReportView::Exited { exit: state.exit->0 })
    } else {
        (state, ReportView::Nothing)
    }
}

/// The transition relation of the supervisor.
///
/// - A line is passed on as long as the end of the run was not.
/// - The end of a pipe and the exit of the child are taken note of. The end
///   of the run is passed on with the one of them that comes last: when both
///   pipes are drained and the exit is known. It is passed on once.
/// - A second exit is ignored.
pub open spec fn supervise(state: SupervisorView, event: PipeEventView) -> (
    SupervisorView,
    ReportView,
) {
    match event {
        PipeEventView::Line { line } => if state.reported {
            (state, ReportView::Nothing)
        } else {
            (state, ReportView::Line { line })
        },
        PipeEventView::Closed { source } => settle(state.close(source)),
        PipeEventView::Exited { exit } => if state.exit is Some {
            (state, ReportView::Nothing)
        } else {
            settle(SupervisorView { exit: Some(exit), ..state })
        },
    }
}

/// Watches over one child process: merges the lines of its two pipes into one
/// feed and holds back the exit until both pipes are drained.
#[derive(Debug)]
pub struct Supervisor {
    stdout_open: bool,
    stderr_open: bool,
    exit: Option<ProcessExit>,
    reported: bool,
}

impl View for Supervisor {
    type V = SupervisorView;

    closed spec fn view(&self) -> SupervisorView {
        SupervisorView {
            stdout_open: self.stdout_open,
            stderr_open: self.stderr_open,
            exit: match self.exit {
                Some(exit) => Some(exit@),
                None => None,
            },
            reported: self.reported,
        }
    }
}

impl Supervisor {
    /// The supervisor of a child that was just started: both pipes are open
    /// and the exit is not known.
    pub fn new() -> (supervisor: Supervisor)
        ensures
            supervisor@ == SupervisorView::initial(),
    {
        Supervisor { stdout_open: true, stderr_open: true, exit: None, reported: false }
    }

    /// Whether the end of the run was passed on.
    pub fn is_done(&self) -> (done: bool)
        ensures
            done == self@.reported,
    {
        self.reported
    }

    /// Takes one pipe event and says what is to be passed on for it. State
    /// and report are those of `supervise`.
    pub fn step(&mut self, event: PipeEvent) -> (report: Report)
        ensures
            (final(self)@, report@) == supervise(old(self)@, event@),
    {
        match event {
            PipeEvent::Line { line } => {
                if self.reported {
                    Report::Nothing
                } else {
                    Report::Line { line }
                }
            },
            PipeEvent::Closed { source } => {
                match source {
                    LineSource::Stdout => {
                        self.stdout_open = false;
                    },
                    LineSource::Stderr => {
                        self.stderr_open = false;
                    },
                }
                self.report_if_over()
            },
            PipeEvent::Exited { exit } => {
                if self.exit.is_some() {
                    Report::Nothing
                } else {
                    self.exit = Some(exit);
                    self.report_if_over()
                }
            },
        }
    }

    /// Passes on the end of the run if it is due.
    fn report_if_over(&mut self) -> (report: Report)
        ensures
            (final(self)@, report@) == settle(old(self)@),
    {
        if self.reported || self.stdout_open || self.stderr_open {
            return Report::Nothing;
        }
        match &self.exit {
            Some(exit) => {
                let exit = exit.clone();
                self.reported = true;
                Report::Exited { exit }
            },
            None => Report::Nothing,
        }
    }
}

/// The supervisor's state after a run of pipe events, and what it passed on
/// for each of them.
pub open spec fn supervise_all(state: SupervisorView, events: Seq<PipeEventView>) -> (
    SupervisorView,
    Seq<ReportView>,
)
    decreases events.len(),
{
    if events.len() == 0 {
        (state, Seq::empty())
    } else {
        let (before, reports) = supervise_all(state, events.drop_last());
        let (after, report) = supervise(before, events.last());
        (after, reports.push(report))
    }
}

/// The lines among a run of pipe events, in the order in which they arrived.
pub open spec fn lines_in(events: Seq<PipeEventView>) -> Seq<LineView>
    decreases events.len(),
{
    if events.len() == 0 {
        Seq::empty()
    } else {
        match events.last() {
            PipeEventView::Line { line } => lines_in(events.drop_last()).push(line),
            _ => lines_in(events.drop_last()),
        }
    }
}

/// The exit that a run of pipe events reports first, if it reports any.
pub open spec fn first_exit(events: Seq<PipeEventView>) -> Option<ExitView>
    decreases events.len(),
{
    if events.len() == 0 {
        None
    } else {
        match (first_exit(events.drop_last()), events.last()) {
            (Some(exit), _) => Some(exit),
            (None, PipeEventView::Exited { exit }) => Some(exit),
            (None, _) => None,
        }
    }
}

/// What a run of reports passes on: the reports without those that say
/// nothing.
pub open spec fn passed_on(reports: Seq<ReportView>) -> Seq<ReportView>
    decreases reports.len(),
{
    if reports.len() == 0 {
        Seq::empty()
    } else if reports.last() is Nothing {
        passed_on(reports.drop_last())
    } else {
        passed_on(reports.drop_last()).push(reports.last())
    }
}

/// The reports that pass on the lines of a feed, in the order of the feed.
pub open spec fn line_reports(feed: Seq<LineView>) -> Seq<ReportView> {
    Seq::new(feed.len(), |i: int| ReportView::Line { line: feed[i] })
}

/// What a finished or unfinished run has passed on in the end: the exit, if
/// the end of the run was passed on, and nothing else.
pub open spec fn end_report(state: SupervisorView) -> Seq<ReportView> {
    if state.reported {
        seq![ReportView::Exited { exit: state.exit->0 }]
    } else {
        Seq::empty()
    }
}

/// A run of pipe events is orderly when no reader reports a line after it has
/// reported the end of its pipe.
pub open spec fn orderly(events: Seq<PipeEventView>) -> bool {
    forall|i: int, j: int|
        0 <= i < j < events.len() && events[j] is Line ==> events[i] != (PipeEventView::Closed {
            source: events[j]->line.source,
        })
}

/// What the supervisor makes of an orderly run of pipe events.
///
/// - A pipe counts as open until its end was reported, and the exit that is
///   kept is the one that was reported first.
/// - The end of the run is passed on exactly when both pipes are drained and
///   the exit is known.
/// - What was passed on is every line that arrived, once and in the order of
///   arrival, followed by the exit if the end of the run was passed on: no
///   line is lost, none is doubled, none follows the exit.
pub proof fn lemma_supervised_feed(events: Seq<PipeEventView>)
    requires
        orderly(events),
    ensures
        ({
            let (state, reports) = supervise_all(SupervisorView::initial(), events);
            &&& reports.len() == events.len()
            &&& state.stdout_open == !events.contains(
                PipeEventView::Closed { source: LineSource::Stdout },
            )
            &&& state.stderr_open == !events.contains(
                PipeEventView::Closed { source: LineSource::Stderr },
            )
            &&& state.exit == first_exit(events)
            &&& state.reported == (state.drained() && state.exit is Some)
            &&& passed_on(reports) == line_reports(lines_in(events)) + end_report(state)
        }),
    decreases events.len(),
{
    let stdout_closed = PipeEventView::Closed { source: LineSource::Stdout };
    let stderr_closed = PipeEventView::Closed { source: LineSource::Stderr };
    let (state, reports) = supervise_all(SupervisorView::initial(), events);
    if events.len() == 0 {
        assert(passed_on(reports) =~= line_reports(lines_in(events)) + end_report(state));
    } else {
        let earlier = events.drop_last();
        let last = events.last();
        assert(orderly(earlier)) by {
            assert forall|i: int, j: int|
                0 <= i < j < earlier.len() && earlier[j] is Line implies earlier[i] != (
                PipeEventView::Closed { source: earlier[j]->line.source }) by {
                assert(events[i] == earlier[i] && events[j] == earlier[j]);
            }
        }
        lemma_supervised_feed(earlier);
        let (before, passed) = supervise_all(SupervisorView::initial(), earlier);
        assert(events =~= earlier.push(last));
        assert forall|closed: PipeEventView|
            events.contains(closed) <==> earlier.contains(closed) || last == closed by {
            if earlier.contains(closed) {
                let i = choose|i: int| 0 <= i < earlier.len() && earlier[i] == closed;
                assert(events[i] == closed);
            }
            if last == closed {
                assert(events[events.len() - 1] == closed);
            }
            if events.contains(closed) {
                let i = choose|i: int| 0 <= i < events.len() && events[i] == closed;
                if i < earlier.len() {
                    assert(earlier[i] == closed);
                }
            }
        }
        assert(events.contains(stdout_closed) <==> earlier.contains(stdout_closed) || last
            == stdout_closed);
        assert(events.contains(stderr_closed) <==> earlier.contains(stderr_closed) || last
            == stderr_closed);
        let feed = lines_in(earlier);
        match last {
            PipeEventView::Line { line } => {
                let closed = PipeEventView::Closed { source: line.source };
                assert(!earlier.contains(closed)) by {
                    if earlier.contains(closed) {
                        let i = choose|i: int| 0 <= i < earlier.len() && earlier[i] == closed;
                        assert(events[i] == closed);
                        assert(events[events.len() - 1] is Line);
                    }
                }
                assert(before.is_open(line.source));
                assert(!before.reported);
                assert(reports.drop_last() =~= passed);
                assert(state == before);
                assert(line_reports(feed.push(line)) =~= line_reports(feed).push(
                    ReportView::Line { line },
                ));
                assert(passed_on(reports) =~= line_reports(lines_in(events)) + end_report(state));
            },
            _ => {
                assert(reports.drop_last() =~= passed);
                assert(passed_on(reports) =~= line_reports(lines_in(events)) + end_report(state));
            },
        }
    }
}

} // verus!

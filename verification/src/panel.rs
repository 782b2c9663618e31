//! What the user sees of a download: the URL field, the busy flag and the
//! status text. The session's actions are shown here one by one.

use vstd::prelude::*;
use vstd::string::StringExecFns;
use crate::extract::{extract_url, regex_first_match, URL_PATTERN};
use crate::session::{relays, ActionView, OutcomeView, SessionAction, SessionOutcome};
use crate::supervisor::LineView;
use crate::text::text_of;

verus! {

/// The status text at the start of a download.
pub const START_MESSAGE: &'static str = "开始下载...";

/// The pause between two lines shown, in milliseconds. It only bounds how
/// often the status text changes; the order of the lines does not depend on it.
pub const LINE_PACING_MILLIS: u64 = 500;

/// What ends a line of the status text.
pub const LINE_END: &'static str = "\n";

/// The state of the download form.
#[derive(Debug, PartialEq, Eq)]
pub struct StatusPanel {
    /// The URL that a submission would send.
    pub video_text: String,
    /// Whether a download is under way.
    pub is_downloading: bool,
    /// The status text: everything the download has reported so far.
    pub download_status: String,
}

/// Mathematical model of a `StatusPanel`.
pub ghost struct PanelView {
    pub video_text: Seq<char>,
    pub is_downloading: bool,
    pub download_status: Seq<char>,
}

impl View for StatusPanel {
    type V = PanelView;

    open spec fn view(&self) -> PanelView {
        PanelView {
            video_text: self.video_text@,
            is_downloading: self.is_downloading,
            download_status: self.download_status@,
        }
    }
}

impl Clone for StatusPanel {
    /// A copy that shows the same.
    fn clone(&self) -> (copy: StatusPanel)
        ensures
            copy@ == self@,
    {
        StatusPanel {
            video_text: self.video_text.clone(),
            is_downloading: self.is_downloading,
            download_status: self.download_status.clone(),
        }
    }
}

/// The panel after a text was pasted in which `found` was recognised as a
/// URL: the URL replaces the field; where none was found the field stays.
pub open spec fn after_paste(panel: PanelView, found: Option<Seq<char>>) -> PanelView {
    match found {
        Some(url) => PanelView { video_text: url, ..panel },
        None => panel,
    }
}

/// The panel after an action of the session was shown.
///
/// - Provisioning marks the panel busy and resets the status text to the
///   start message.
/// - A relayed line is appended to the status text, followed by a line end.
/// - An outcome ends the busy state. A rejection replaces the status text
///   with its message; every other outcome appends its message as a line.
/// - Nothing else changes the panel.
pub open spec fn after_action(panel: PanelView, action: ActionView) -> PanelView {
    match action {
        ActionView::Provision { .. } => PanelView {
            is_downloading: true,
            download_status: START_MESSAGE@,
            ..panel
        },
        ActionView::Relay { line } => PanelView {
            download_status: panel.download_status + line.text + LINE_END@,
            ..panel
        },
        ActionView::Finish { outcome, .. } => PanelView {
            is_downloading: false,
            download_status: if outcome is Rejected {
                outcome.message()
            } else {
                panel.download_status + outcome.message() + LINE_END@
            },
            ..panel
        },
        _ => panel,
    }
}

/// The panel after a run of actions was shown, one after the other.
pub open spec fn after_actions(panel: PanelView, actions: Seq<ActionView>) -> PanelView
    decreases actions.len(),
{
    if actions.len() == 0 {
        panel
    } else {
        after_action(after_actions(panel, actions.drop_last()), actions.last())
    }
}

/// The lines of a feed as status text: each line followed by a line end.
pub open spec fn log_of(feed: Seq<LineView>) -> Seq<char>
    decreases feed.len(),
{
    if feed.len() == 0 {
        Seq::empty()
    } else {
        log_of(feed.drop_last()) + feed.last().text + LINE_END@
    }
}

impl StatusPanel {
    /// An empty panel: no URL, not busy, no status text.
    pub fn new() -> (panel: StatusPanel)
        ensures
            panel@ == (PanelView {
                video_text: Seq::empty(),
                is_downloading: false,
                download_status: Seq::empty(),
            }),
    {
        StatusPanel {
            video_text: String::new(),
            is_downloading: false,
            download_status: String::new(),
        }
    }

    /// Empties the URL field and the status text.
    pub fn clear(&mut self)
        ensures
            final(self)@ == (PanelView {
                video_text: Seq::empty(),
                is_downloading: old(self)@.is_downloading,
                download_status: Seq::empty(),
            }),
    {
        self.video_text = String::new();
        self.download_status = String::new();
    }

    /// Takes over the URL that was recognised in a pasted text, if one was.
    pub fn set_extracted(&mut self, found: Option<String>)
        ensures
            final(self)@ == after_paste(old(self)@, text_of(found)),
    {
        match found {
            Some(url) => {
                self.video_text = url;
            },
            None => {},
        }
    }

    /// Handles a pasted text: the first URL in it replaces the URL field;
    /// a text without a URL changes nothing.
    pub fn accept_input(&mut self, pasted: &str)
        ensures
            final(self)@ == after_paste(old(self)@, regex_first_match(URL_PATTERN@, pasted@)),
    {
        let found = extract_url(pasted);
        self.set_extracted(found);
    }

    /// Shows one action of the session.
    pub fn show(&mut self, action: &SessionAction)
        ensures
            final(self)@ == after_action(old(self)@, action@),
    {
        match action {
            SessionAction::Provision { .. } => {
                self.is_downloading = true;
                self.download_status = String::from_str(START_MESSAGE);
            },
            SessionAction::Relay { line } => {
                self.download_status.append(line.text.as_str());
                self.download_status.append(LINE_END);
            },
            SessionAction::Finish { outcome, .. } => {
                self.is_downloading = false;
                let message = outcome.message();
                match outcome {
                    SessionOutcome::Rejected { .. } => {
                        self.download_status = message;
                    },
                    _ => {
                        self.download_status.append(message.as_str());
                        self.download_status.append(LINE_END);
                    },
                }
            },
            _ => {},
        }
    }
}

/// Showing the relayed lines of a feed appends them to the status text, each
/// followed by a line end and in the order of the feed, and changes nothing
/// else.
pub proof fn lemma_relayed_lines_are_logged(panel: PanelView, feed: Seq<LineView>)
    ensures
        after_actions(panel, relays(feed)) == (PanelView {
            download_status: panel.download_status + log_of(feed),
            ..panel
        }),
    decreases feed.len(),
{
    if feed.len() == 0 {
        assert(panel.download_status + log_of(feed) =~= panel.download_status);
    } else {
        lemma_relayed_lines_are_logged(panel, feed.drop_last());
        assert(relays(feed).drop_last() =~= relays(feed.drop_last()));
        assert(panel.download_status + log_of(feed.drop_last()) + feed.last().text + LINE_END@
            =~= panel.download_status + log_of(feed));
    }
}

} // verus!

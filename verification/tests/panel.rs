use zdownload::panel::{StatusPanel, LINE_PACING_MILLIS};
use zdownload::request::InputError;
use zdownload::session::{SessionAction, SessionOutcome};
use zdownload::supervisor::{LineSource, OutputLine};

fn relay(text: &str) -> SessionAction {
    SessionAction::Relay { line: OutputLine { source: LineSource::Stdout, text: text.to_string() } }
}

fn finish(outcome: SessionOutcome) -> SessionAction {
    SessionAction::Finish { outcome, cleanup: vec![] }
}

#[test]
fn a_new_panel_is_empty() {
    let panel = StatusPanel::new();
    assert_eq!(panel.video_text, "");
    assert_eq!(panel.download_status, "");
    assert!(!panel.is_downloading);
}

#[test]
fn pasted_text_is_replaced_by_its_url() {
    let mut panel = StatusPanel::new();
    panel.accept_input("复制链接 https://example.com/v?id=1 打开");
    assert_eq!(panel.video_text, "https://example.com/v?id=1");
}

#[test]
fn pasted_text_without_a_url_changes_nothing() {
    let mut panel = StatusPanel::new();
    panel.accept_input("https://example.com/a");
    panel.accept_input("just words");
    assert_eq!(panel.video_text, "https://example.com/a");
    panel.set_extracted(None);
    assert_eq!(panel.video_text, "https://example.com/a");
    panel.set_extracted(Some("www.example.org".to_string()));
    assert_eq!(panel.video_text, "www.example.org");
}

#[test]
fn clear_empties_url_and_status() {
    let mut panel = StatusPanel::new();
    panel.accept_input("https://example.com/a");
    panel.show(&SessionAction::Provision { steps: vec![] });
    panel.show(&relay("one"));
    panel.clear();
    assert_eq!(panel.video_text, "");
    assert_eq!(panel.download_status, "");
    assert!(panel.is_downloading);
}

#[test]
fn a_download_is_shown_line_by_line() {
    let mut panel = StatusPanel::new();
    panel.show(&SessionAction::Provision { steps: vec![] });
    assert!(panel.is_downloading);
    assert_eq!(panel.download_status, "开始下载...");
    panel.show(&SessionAction::Spawn { program: "p".to_string(), args: vec![] });
    assert_eq!(panel.download_status, "开始下载...");
    panel.show(&relay("[download] 1%"));
    panel.show(&relay("[download] 100%"));
    assert_eq!(panel.download_status, "开始下载...[download] 1%\n[download] 100%\n");
    panel.show(&finish(SessionOutcome::Success));
    assert_eq!(panel.download_status, "开始下载...[download] 1%\n[download] 100%\n下载完成\n");
    assert!(!panel.is_downloading);
    panel.show(&SessionAction::Ignore);
    assert_eq!(panel.download_status, "开始下载...[download] 1%\n[download] 100%\n下载完成\n");
}

#[test]
fn a_failure_is_shown_as_a_line() {
    let mut panel = StatusPanel::new();
    panel.show(&SessionAction::Provision { steps: vec![] });
    panel.show(&relay("ERROR: unsupported"));
    panel.show(&finish(SessionOutcome::ProcessFailed {
        exit_description: "线程退出状态：exit status: 1".to_string(),
    }));
    assert_eq!(panel.download_status, "开始下载...ERROR: unsupported\n线程退出状态：exit status: 1\n");
    assert!(!panel.is_downloading);
}

#[test]
fn a_rejection_replaces_the_status() {
    let mut panel = StatusPanel::new();
    panel.show(&relay("left over"));
    panel.show(&finish(SessionOutcome::Rejected { error: InputError::EmptyUrl }));
    assert_eq!(panel.download_status, "请输入有效的视频链接");
    assert!(!panel.is_downloading);
}

#[test]
fn lines_are_paced_at_half_a_second() {
    assert_eq!(LINE_PACING_MILLIS, 500);
}

use std::collections::BTreeMap;
use zdownload::provision::{
    cleanup_steps, decimal, needs_executable_mode, provision_steps, session_tool_file_name,
    tool_file_name, FileStep, Platform, ProvisionedTools, ProvisioningError, ToolKind,
    EXECUTABLE_MODE,
};

fn tools() -> ProvisionedTools {
    ProvisionedTools {
        downloader_path: "/tmp/yt-dlp-temp".to_string(),
        muxer_path: "/tmp/ffmpeg-temp".to_string(),
    }
}

fn perform(files: &mut BTreeMap<String, (ToolKind, Option<u32>)>, steps: &[FileStep]) {
    for step in steps {
        match step {
            FileStep::Write { kind, path } => {
                files.insert(path.clone(), (*kind, None));
            }
            FileStep::SetMode { path, mode } => {
                if let Some(entry) = files.get_mut(path) {
                    entry.1 = Some(*mode);
                }
            }
            FileStep::Remove { path } => {
                files.remove(path);
            }
        }
    }
}

#[test]
fn tool_file_names_by_platform() {
    assert_eq!(tool_file_name(ToolKind::Downloader, Platform::Unix), "yt-dlp-temp");
    assert_eq!(tool_file_name(ToolKind::Muxer, Platform::Unix), "ffmpeg-temp");
    assert_eq!(tool_file_name(ToolKind::Downloader, Platform::Windows), "yt-dlp-temp.exe");
    assert_eq!(tool_file_name(ToolKind::Muxer, Platform::Windows), "ffmpeg-temp.exe");
    assert_eq!(tool_file_name(ToolKind::Downloader, Platform::Other), "yt-dlp-temp");
    assert_eq!(tool_file_name(ToolKind::Muxer, Platform::Other), "ffmpeg-temp");
}

#[test]
fn executable_mode_is_0755_on_unix_only() {
    assert_eq!(EXECUTABLE_MODE, 0o755);
    assert_eq!(EXECUTABLE_MODE, 493);
    assert!(needs_executable_mode(Platform::Unix));
    assert!(!needs_executable_mode(Platform::Windows));
    assert!(!needs_executable_mode(Platform::Other));
}

#[test]
fn paths_by_kind() {
    let t = tools();
    assert_eq!(t.path_of(ToolKind::Downloader), "/tmp/yt-dlp-temp");
    assert_eq!(t.path_of(ToolKind::Muxer), "/tmp/ffmpeg-temp");
}

#[test]
fn provisioning_on_unix_writes_then_sets_modes() {
    assert_eq!(
        provision_steps(&tools(), Platform::Unix),
        vec![
            FileStep::Write { kind: ToolKind::Downloader, path: "/tmp/yt-dlp-temp".to_string() },
            FileStep::Write { kind: ToolKind::Muxer, path: "/tmp/ffmpeg-temp".to_string() },
            FileStep::SetMode { path: "/tmp/yt-dlp-temp".to_string(), mode: 0o755 },
            FileStep::SetMode { path: "/tmp/ffmpeg-temp".to_string(), mode: 0o755 },
        ]
    );
}

#[test]
fn provisioning_elsewhere_only_writes() {
    for platform in [Platform::Windows, Platform::Other] {
        assert_eq!(
            provision_steps(&tools(), platform),
            vec![
                FileStep::Write { kind: ToolKind::Downloader, path: "/tmp/yt-dlp-temp".to_string() },
                FileStep::Write { kind: ToolKind::Muxer, path: "/tmp/ffmpeg-temp".to_string() },
            ]
        );
    }
}

#[test]
fn cleanup_removes_both_tools() {
    assert_eq!(
        cleanup_steps(&tools()),
        vec![
            FileStep::Remove { path: "/tmp/yt-dlp-temp".to_string() },
            FileStep::Remove { path: "/tmp/ffmpeg-temp".to_string() },
        ]
    );
}

#[test]
fn cleanup_after_provisioning_restores_the_files() {
    for platform in [Platform::Unix, Platform::Windows, Platform::Other] {
        let mut files = BTreeMap::new();
        files.insert("/tmp/other".to_string(), (ToolKind::Muxer, Some(0o644)));
        let before = files.clone();
        perform(&mut files, &provision_steps(&tools(), platform));
        assert_eq!(files.len(), 3);
        perform(&mut files, &cleanup_steps(&tools()));
        assert_eq!(files, before);
    }
}

#[test]
fn failed_write_is_an_error() {
    let step = FileStep::Write { kind: ToolKind::Downloader, path: "/tmp/yt-dlp-temp".to_string() };
    let error = step.failure("disk full").unwrap();
    assert_eq!(error, ProvisioningError::WriteFailed { reason: "disk full".to_string() });
    assert_eq!(error.describe(), "写入临时文件失败: disk full");
}

#[test]
fn failed_mode_change_is_an_error() {
    let step = FileStep::SetMode { path: "/tmp/yt-dlp-temp".to_string(), mode: 0o755 };
    let error = step.failure("not permitted").unwrap();
    assert_eq!(error, ProvisioningError::PermissionFailed { reason: "not permitted".to_string() });
    assert_eq!(error.describe(), "设置可执行权限失败: not permitted");
}

#[test]
fn failed_removal_is_not_an_error() {
    let step = FileStep::Remove { path: "/tmp/yt-dlp-temp".to_string() };
    assert_eq!(step.failure("busy"), None);
}

#[test]
fn decimal_numerals() {
    assert_eq!(decimal(0), "0");
    assert_eq!(decimal(7), "7");
    assert_eq!(decimal(10), "10");
    assert_eq!(decimal(4096), "4096");
    assert_eq!(decimal(u64::MAX), "18446744073709551615");
    for n in [1u64, 9, 11, 99, 100, 101, 12345, 1 << 40] {
        assert_eq!(decimal(n), n.to_string());
    }
}

#[test]
fn session_file_names_carry_the_session_number() {
    assert_eq!(session_tool_file_name(ToolKind::Downloader, Platform::Unix, 42), "yt-dlp-temp-42");
    assert_eq!(session_tool_file_name(ToolKind::Muxer, Platform::Other, 0), "ffmpeg-temp-0");
    assert_eq!(
        session_tool_file_name(ToolKind::Downloader, Platform::Windows, 1234),
        "yt-dlp-temp-1234.exe"
    );
    assert_eq!(session_tool_file_name(ToolKind::Muxer, Platform::Windows, 7), "ffmpeg-temp-7.exe");
}

#[test]
fn session_file_names_do_not_collide() {
    let mut names = Vec::new();
    for session in [0u64, 1, 10, 11, 100, 101, 110, 111] {
        for kind in [ToolKind::Downloader, ToolKind::Muxer] {
            names.push(session_tool_file_name(kind, Platform::Unix, session));
        }
    }
    let mut unique = names.clone();
    unique.sort();
    unique.dedup();
    assert_eq!(unique.len(), names.len());
}

use zdownload::command::{build, classify, output_template, UrlProfile};
use zdownload::provision::ProvisionedTools;
use zdownload::request::DownloadRequest;
use zdownload::settings::Quality;

fn tools() -> ProvisionedTools {
    ProvisionedTools {
        downloader_path: "/tmp/yt-dlp-temp".to_string(),
        muxer_path: "/tmp/ffmpeg-temp".to_string(),
    }
}

fn request(url: &str, quality: Quality, include_playlist: bool) -> DownloadRequest {
    DownloadRequest {
        source_url: url.to_string(),
        quality,
        include_playlist,
        download_directory: "/home/alice/Downloads".to_string(),
    }
}

fn count(args: &[String], arg: &str) -> usize {
    args.iter().filter(|a| a.as_str() == arg).count()
}

#[test]
fn classify_tells_youtube_from_the_rest() {
    assert_eq!(classify("https://www.youtube.com/watch?v=abc"), UrlProfile::YouTube);
    assert_eq!(classify("https://youtu.be/abc"), UrlProfile::YouTube);
    assert_eq!(classify("https://example.com/?next=youtube.com"), UrlProfile::YouTube);
    assert_eq!(classify("https://www.bilibili.com/video/BV1"), UrlProfile::Generic);
    assert_eq!(classify("https://YouTube.com/watch"), UrlProfile::Generic);
    assert_eq!(classify(""), UrlProfile::Generic);
}

#[test]
fn output_template_appends_the_placeholders() {
    assert_eq!(output_template("/home/alice/Downloads"), "/home/alice/Downloads/%(title)s.%(ext)s");
    assert_eq!(output_template(""), "/%(title)s.%(ext)s");
}

#[test]
fn youtube_arguments_in_order() {
    let args = build(&request("https://youtu.be/abc", Quality::Best, false), &tools());
    assert_eq!(
        args,
        vec![
            "https://youtu.be/abc",
            "--newline",
            "--no-check-certificate",
            "--ffmpeg-location",
            "/tmp/ffmpeg-temp",
            "--retries",
            "10",
            "-o",
            "/home/alice/Downloads/%(title)s.%(ext)s",
            "--no-playlist",
        ]
    );
}

#[test]
fn generic_best_arguments_in_order() {
    let args = build(&request("https://example.com/v", Quality::Best, true), &tools());
    assert_eq!(
        args,
        vec![
            "https://example.com/v",
            "--newline",
            "--no-check-certificate",
            "--ffmpeg-location",
            "/tmp/ffmpeg-temp",
            "-f",
            "bestvideo[ext=mp4]+bestaudio[ext=m4a]/best[ext=mp4]/best",
            "--merge-output-format",
            "mp4",
            "-o",
            "/home/alice/Downloads/%(title)s.%(ext)s",
        ]
    );
}

#[test]
fn generic_normal_arguments_in_order() {
    let args = build(&request("https://example.com/v", Quality::Normal, false), &tools());
    assert_eq!(
        args,
        vec![
            "https://example.com/v",
            "--newline",
            "--no-check-certificate",
            "--ffmpeg-location",
            "/tmp/ffmpeg-temp",
            "-f",
            "best[ext=mp4]",
            "-o",
            "/home/alice/Downloads/%(title)s.%(ext)s",
            "--no-playlist",
        ]
    );
}

#[test]
fn youtube_arguments_retry_and_never_select_a_format() {
    for quality in [Quality::Best, Quality::Normal] {
        for playlist in [true, false] {
            let args = build(&request("https://www.youtube.com/watch?v=1", quality, playlist), &tools());
            assert_eq!(count(&args, "--retries"), 1);
            let at = args.iter().position(|a| a == "--retries").unwrap();
            assert_eq!(args[at + 1], "10");
            assert_eq!(count(&args, "-f"), 0);
        }
    }
}

#[test]
fn generic_arguments_select_by_quality() {
    let best = build(&request("https://example.com/v", Quality::Best, true), &tools());
    assert_eq!(count(&best, "bestvideo[ext=mp4]+bestaudio[ext=m4a]/best[ext=mp4]/best"), 1);
    assert_eq!(count(&best, "--merge-output-format"), 1);
    assert_eq!(count(&best, "--retries"), 0);
    let normal = build(&request("https://example.com/v", Quality::Normal, true), &tools());
    assert_eq!(count(&normal, "best[ext=mp4]"), 1);
    assert_eq!(count(&normal, "bestvideo[ext=mp4]+bestaudio[ext=m4a]/best[ext=mp4]/best"), 0);
    assert_eq!(count(&normal, "--merge-output-format"), 0);
    assert_eq!(count(&normal, "--retries"), 0);
}

#[test]
fn no_playlist_flag_follows_the_preference() {
    for url in ["https://youtu.be/abc", "https://example.com/v"] {
        for quality in [Quality::Best, Quality::Normal] {
            let without = build(&request(url, quality, false), &tools());
            assert_eq!(count(&without, "--no-playlist"), 1);
            assert_eq!(without.last().unwrap(), "--no-playlist");
            let with = build(&request(url, quality, true), &tools());
            assert_eq!(count(&with, "--no-playlist"), 0);
        }
    }
}

#[test]
fn every_profile_asks_for_newlines() {
    for url in ["https://youtu.be/abc", "https://example.com/v"] {
        let args = build(&request(url, Quality::Normal, true), &tools());
        assert_eq!(args[1], "--newline");
    }
}

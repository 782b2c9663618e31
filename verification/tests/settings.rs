use zdownload::request::{DownloadRequest, InputError};
use zdownload::settings::{playlist_setting, Quality, Settings, CONFIG_FILE_NAME};

fn stored(quality: &str, list: &str, path: &str) -> Settings {
    Settings {
        quality: quality.to_string(),
        down_video_list: list.to_string(),
        download_path: path.to_string(),
    }
}

#[test]
fn defaults_without_a_download_directory() {
    let s = Settings::with_download_dir(None);
    assert_eq!(s, stored("normal", "no", ""));
}

#[test]
fn defaults_with_a_download_directory() {
    let s = Settings::with_download_dir(Some("/home/alice/Downloads".to_string()));
    assert_eq!(s, stored("normal", "no", "/home/alice/Downloads"));
}

#[test]
fn load_without_a_stored_record_gives_the_defaults() {
    assert_eq!(Settings::load(None, None), stored("normal", "no", ""));
    assert_eq!(
        Settings::load(None, Some("/home/alice/Downloads".to_string())),
        stored("normal", "no", "/home/alice/Downloads")
    );
}

#[test]
fn load_keeps_a_stored_record() {
    let kept = stored("best", "yes", "/tmp/videos");
    assert_eq!(Settings::load(Some(kept.clone()), None), kept);
    assert_eq!(Settings::load(Some(kept.clone()), Some("/elsewhere".to_string())), kept);
}

#[test]
fn quality_is_best_only_for_the_exact_text() {
    assert_eq!(stored("best", "no", "").quality_level(), Quality::Best);
    assert_eq!(stored("normal", "no", "").quality_level(), Quality::Normal);
    assert_eq!(stored("Best", "no", "").quality_level(), Quality::Normal);
    assert_eq!(stored("", "no", "").quality_level(), Quality::Normal);
}

#[test]
fn playlists_are_left_out_only_for_the_exact_text() {
    assert!(!stored("best", "no", "").includes_playlist());
    assert!(stored("best", "yes", "").includes_playlist());
    assert!(stored("best", "", "").includes_playlist());
    assert!(stored("best", "No", "").includes_playlist());
}

#[test]
fn config_file_name_is_fixed() {
    assert_eq!(CONFIG_FILE_NAME, "zdownload_settings.json");
}

#[test]
fn request_takes_a_snapshot_of_the_settings() {
    let r = DownloadRequest::new("https://example.com/v", &stored("best", "yes", "/d")).unwrap();
    assert_eq!(
        r,
        DownloadRequest {
            source_url: "https://example.com/v".to_string(),
            quality: Quality::Best,
            include_playlist: true,
            download_directory: "/d".to_string(),
        }
    );
    let r = DownloadRequest::new("x", &stored("normal", "no", "")).unwrap();
    assert_eq!(r.quality, Quality::Normal);
    assert!(!r.include_playlist);
}

#[test]
fn request_without_a_url_is_refused() {
    let r = DownloadRequest::new("", &stored("best", "yes", "/d"));
    assert_eq!(r, Err(InputError::EmptyUrl));
    assert_eq!(InputError::EmptyUrl.describe(), "请输入有效的视频链接");
}

#[test]
fn stored_texts_read_back() {
    assert_eq!(Quality::Best.as_setting(), "best");
    assert_eq!(Quality::Normal.as_setting(), "normal");
    assert_eq!(playlist_setting(true), "yes");
    assert_eq!(playlist_setting(false), "no");
    for quality in [Quality::Best, Quality::Normal] {
        assert_eq!(stored(quality.as_setting(), "no", "").quality_level(), quality);
    }
    for playlist in [true, false] {
        assert_eq!(stored("best", playlist_setting(playlist), "").includes_playlist(), playlist);
    }
}

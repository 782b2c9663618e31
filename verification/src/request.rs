//! A download request: a URL together with the settings in force when it was
//! submitted.

use vstd::prelude::*;
use vstd::string::StringExecFns;
use crate::settings::{playlist_included, quality_of, Quality, Settings, SettingsView};

verus! {

/// The message for a submission without a URL.
pub const EMPTY_URL_MESSAGE: &'static str = "请输入有效的视频链接";

/// Why a submission was turned down before any work was done.
#[derive(Debug, Clone, Copy, PartialEq, Eq, Structural)]
pub enum InputError {
    /// No URL was given.
    EmptyUrl,
}

impl InputError {
    /// The message shown to the user.
    pub fn describe(&self) -> (message: String)
        ensures
            message@ == EMPTY_URL_MESSAGE@,
    {
        String::from_str(EMPTY_URL_MESSAGE)
    }
}

/// One request, fixed for the lifetime of its session.
#[derive(Debug, PartialEq, Eq)]
pub struct DownloadRequest {
    pub source_url: String,
    pub quality: Quality,
    pub include_playlist: bool,
    pub download_directory: String,
}

/// Mathematical model of a `DownloadRequest`.
pub ghost struct RequestView {
    pub source_url: Seq<char>,
    pub quality: Quality,
    pub include_playlist: bool,
    pub download_directory: Seq<char>,
}

impl View for DownloadRequest {
    type V = RequestView;

    open spec fn view(&self) -> RequestView {
        RequestView {
            source_url: self.source_url@,
            quality: self.quality,
            include_playlist: self.include_playlist,
            download_directory: self.download_directory@,
        }
    }
}

impl Clone for DownloadRequest {
    /// A copy of the same request.
    fn clone(&self) -> (copy: DownloadRequest)
        ensures
            copy@ == self@,
    {
        DownloadRequest {
            source_url: self.source_url.clone(),
            quality: self.quality,
            include_playlist: self.include_playlist,
            download_directory: self.download_directory.clone(),
        }
    }
}

/// The request that `url` makes under `settings`.
pub open spec fn request_of(url: Seq<char>, settings: SettingsView) -> RequestView {
    RequestView {
        source_url: url,
        quality: quality_of(settings.quality),
        include_playlist: playlist_included(settings.down_video_list),
        download_directory: settings.download_path,
    }
}

impl DownloadRequest {
    /// A request is well formed when its URL is not empty.
    pub open spec fn wf(&self) -> bool {
        self.source_url@.len() > 0
    }

    /// Builds the request for `url` from a snapshot of `settings`. An empty
    /// URL, and only an empty URL, is refused.
    pub fn new(url: &str, settings: &Settings) -> (r: Result<DownloadRequest, InputError>)
        ensures
            r is Err <==> url@.len() == 0,
            r matches Err(e) ==> e == InputError::EmptyUrl,
            r matches Ok(request) ==> request.wf() && request@ == request_of(url@, settings@),
    {
        if url.is_empty() {
            return Err(InputError::EmptyUrl);
        }
        Ok(
            DownloadRequest {
                source_url: String::from_str(url),
                quality: settings.quality_level(),
                include_playlist: settings.includes_playlist(),
                download_directory: settings.download_path.clone(),
            },
        )
    }
}

} // verus!

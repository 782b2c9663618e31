//! The settings record as the settings store keeps it, and its defaults.

use vstd::prelude::*;
use vstd::string::StringExecFns;
use crate::text::{same_text, text_of};

verus! {

/// Name of the settings file inside the per-user configuration directory.
pub const CONFIG_FILE_NAME: &'static str = "zdownload_settings.json";

/// The stored text that selects the best quality.
pub const BEST_QUALITY: &'static str = "best";

/// The stored text that selects the normal quality.
pub const NORMAL_QUALITY: &'static str = "normal";

/// The stored text that asks for whole playlists.
pub const WITH_PLAYLIST: &'static str = "yes";

/// The stored text that keeps playlists out.
pub const WITHOUT_PLAYLIST: &'static str = "no";

/// The persisted settings record. All three fields are free text, exactly as
/// they are stored; `quality_level` and `includes_playlist` say what they mean.
#[derive(Debug, PartialEq, Eq)]
pub struct Settings {
    pub quality: String,
    pub down_video_list: String,
    pub download_path: String,
}

/// Mathematical model of a `Settings` value.
pub ghost struct SettingsView {
    pub quality: Seq<char>,
    pub down_video_list: Seq<char>,
    pub download_path: Seq<char>,
}

impl View for Settings {
    type V = SettingsView;

    open spec fn view(&self) -> SettingsView {
        SettingsView {
            quality: self.quality@,
            down_video_list: self.down_video_list@,
            download_path: self.download_path@,
        }
    }
}

impl Clone for Settings {
    /// A copy with the same three texts.
    fn clone(&self) -> (copy: Settings)
        ensures
            copy@ == self@,
    {
        Settings {
            quality: self.quality.clone(),
            down_video_list: self.down_video_list.clone(),
            download_path: self.download_path.clone(),
        }
    }
}

/// Video quality preference.
#[derive(Debug, Clone, Copy, PartialEq, Eq, Structural)]
pub enum Quality {
    Best,
    Normal,
}

/// The settings used when nothing is stored: normal quality, no playlists, and
/// the platform's download directory, or the empty path where there is none.
pub open spec fn default_settings(download_dir: Option<Seq<char>>) -> SettingsView {
    SettingsView {
        quality: NORMAL_QUALITY@,
        down_video_list: WITHOUT_PLAYLIST@,
        download_path: match download_dir {
            Some(dir) => dir,
            None => Seq::empty(),
        },
    }
}

/// The quality that a stored `quality` text selects: `best` selects the best
/// quality, every other text the normal one.
pub open spec fn quality_of(text: Seq<char>) -> Quality {
    if text == BEST_QUALITY@ {
        Quality::Best
    } else {
        Quality::Normal
    }
}

/// Whether a stored `down_video_list` text asks for whole playlists: every
/// text but `no` does.
pub open spec fn playlist_included(text: Seq<char>) -> bool {
    text != WITHOUT_PLAYLIST@
}

impl Quality {
    /// The text under which this quality is stored. Reading the text back
    /// gives the quality again.
    pub fn as_setting(self) -> (text: &'static str)
        ensures
            text@ == (match self {
                Quality::Best => BEST_QUALITY@,
                Quality::Normal => NORMAL_QUALITY@,
            }),
            quality_of(text@) == self,
    {
        proof {
            reveal_strlit("best");
            reveal_strlit("normal");
            assert(BEST_QUALITY@.len() == 4);
            assert(NORMAL_QUALITY@.len() == 6);
        }
        match self {
            Quality::Best => BEST_QUALITY,
            Quality::Normal => NORMAL_QUALITY,
        }
    }
}

/// The text under which the playlist preference is stored. Reading the text
/// back gives the preference again.
pub fn playlist_setting(include_playlist: bool) -> (text: &'static str)
    ensures
        text@ == (if include_playlist {
            WITH_PLAYLIST@
        } else {
            WITHOUT_PLAYLIST@
        }),
        playlist_included(text@) == include_playlist,
{
    proof {
        reveal_strlit("yes");
        reveal_strlit("no");
        assert(WITH_PLAYLIST@.len() == 3);
        assert(WITHOUT_PLAYLIST@.len() == 2);
    }
    if include_playlist {
        WITH_PLAYLIST
    } else {
        WITHOUT_PLAYLIST
    }
}

impl Settings {
    /// The default settings, given the platform's download directory.
    pub fn with_download_dir(download_dir: Option<String>) -> (s: Settings)
        ensures
            s@ == default_settings(text_of(download_dir)),
    {
        let download_path = match download_dir {
            Some(dir) => dir,
            None => String::new(),
        };
        Settings {
            quality: String::from_str(NORMAL_QUALITY),
            down_video_list: String::from_str(WITHOUT_PLAYLIST),
            download_path,
        }
    }

    /// What the settings store hands out: the stored record where one could be
    /// read, the defaults otherwise. A missing or malformed file is `None`;
    /// `download_dir` is the platform's download directory, where it has one.
    pub fn load(stored: Option<Settings>, download_dir: Option<String>) -> (s: Settings)
        ensures
            stored matches Some(kept) ==> s == kept,
            stored is None ==> s@ == default_settings(text_of(download_dir)),
    {
        match stored {
            Some(kept) => kept,
            None => Settings::with_download_dir(download_dir),
        }
    }

    /// The quality preference that the stored text selects.
    pub fn quality_level(&self) -> (q: Quality)
        ensures
            q == quality_of(self@.quality),
    {
        if same_text(self.quality.as_str(), BEST_QUALITY) {
            Quality::Best
        } else {
            Quality::Normal
        }
    }

    /// Whether whole playlists are to be downloaded.
    pub fn includes_playlist(&self) -> (included: bool)
        ensures
            included == playlist_included(self@.down_video_list),
    {
        !same_text(self.down_video_list.as_str(), WITHOUT_PLAYLIST)
    }
}

} // verus!

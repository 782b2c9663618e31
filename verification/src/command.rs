//! The arguments with which the downloader is started.
//!
//! The argument list depends on the request and on the muxer's path, and on
//! nothing else. Its shape is chosen by the URL alone: YouTube-shaped URLs get
//! one profile, every other URL the generic one.

use vstd::prelude::*;
use vstd::string::StringExecFns;
use crate::provision::ProvisionedTools;
use crate::request::{DownloadRequest, RequestView};
use crate::settings::Quality;
use crate::text::{contains, has_substring, joined, views_of};

verus! {

/// Host name that marks a URL as YouTube-shaped.
pub const YOUTUBE_HOST: &'static str = "youtube.com";

/// Short host name that marks a URL as YouTube-shaped.
pub const YOUTUBE_SHORT_HOST: &'static str = "youtu.be";

/// Asks the downloader to end each progress update with a newline.
pub const NEWLINE_FLAG: &'static str = "--newline";

/// Switches off the check of TLS certificates.
pub const NO_CERTIFICATE_CHECK_FLAG: &'static str = "--no-check-certificate";

/// Announces the muxer's path.
pub const MUXER_LOCATION_FLAG: &'static str = "--ffmpeg-location";

/// Announces the retry count.
pub const RETRIES_FLAG: &'static str = "--retries";

/// The retry count of the YouTube profile.
pub const RETRY_COUNT: &'static str = "10";

/// Announces the format selection.
pub const FORMAT_FLAG: &'static str = "-f";

/// Format selection for the best quality: the best MP4 video with the best M4A
/// audio, else the best MP4, else the best of any kind.
pub const BEST_FORMAT: &'static str = "bestvideo[ext=mp4]+bestaudio[ext=m4a]/best[ext=mp4]/best";

/// Announces the container into which separate streams are merged.
pub const MERGE_FORMAT_FLAG: &'static str = "--merge-output-format";

/// The container into which separate streams are merged.
pub const MERGE_FORMAT: &'static str = "mp4";

/// Format selection for the normal quality: the best MP4 on offer.
pub const NORMAL_FORMAT: &'static str = "best[ext=mp4]";

/// Announces the output template.
pub const OUTPUT_FLAG: &'static str = "-o";

/// What follows the download directory in the output template. The title and
/// extension placeholders are the downloader's to fill in.
pub const OUTPUT_TEMPLATE_SUFFIX: &'static str = "/%(title)s.%(ext)s";

/// Keeps the downloader from following a playlist.
pub const NO_PLAYLIST_FLAG: &'static str = "--no-playlist";

/// The two shapes of URL that the command builder tells apart.
#[derive(Debug, Clone, Copy, PartialEq, Eq, Structural)]
pub enum UrlProfile {
    YouTube,
    Generic,
}

/// A URL is YouTube-shaped when one of the two YouTube host names occurs in it.
pub open spec fn profile_of(url: Seq<char>) -> UrlProfile {
    if has_substring(url, YOUTUBE_HOST@) || has_substring(url, YOUTUBE_SHORT_HOST@) {
        UrlProfile::YouTube
    } else {
        UrlProfile::Generic
    }
}

/// The output template for a download directory.
pub open spec fn output_template_of(directory: Seq<char>) -> Seq<char> {
    directory + OUTPUT_TEMPLATE_SUFFIX@
}

/// The arguments that only one profile has: the retry count for YouTube, the
/// format selection for every other URL.
pub open spec fn selection_args_of(profile: UrlProfile, quality: Quality) -> Seq<Seq<char>> {
    match profile {
        UrlProfile::YouTube => seq![RETRIES_FLAG@, RETRY_COUNT@],
        UrlProfile::Generic => match quality {
            Quality::Best => seq![
                FORMAT_FLAG@,
                BEST_FORMAT@,
                MERGE_FORMAT_FLAG@,
                MERGE_FORMAT@,
            ],
            Quality::Normal => seq![FORMAT_FLAG@, NORMAL_FORMAT@],
        },
    }
}

/// The arguments that say whether playlists are followed.
pub open spec fn playlist_args_of(include_playlist: bool) -> Seq<Seq<char>> {
    if include_playlist {
        seq![]
    } else {
        seq![NO_PLAYLIST_FLAG@]
    }
}

/// The whole argument list for a request, given the muxer's path.
pub open spec fn command_args(request: RequestView, muxer_path: Seq<char>) -> Seq<Seq<char>> {
    seq![
        request.source_url,
        NEWLINE_FLAG@,
        NO_CERTIFICATE_CHECK_FLAG@,
        MUXER_LOCATION_FLAG@,
        muxer_path,
    ] + selection_args_of(profile_of(request.source_url), request.quality) + seq![
        OUTPUT_FLAG@,
        output_template_of(request.download_directory),
    ] + playlist_args_of(request.include_playlist)
}

/// How often `arg` occurs in `args`.
pub open spec fn count_of(args: Seq<Seq<char>>, arg: Seq<char>) -> nat
    decreases args.len(),
{
    if args.len() == 0 {
        0
    } else {
        count_of(args.drop_last(), arg) + if args.last() == arg {
            1nat
        } else {
            0nat
        }
    }
}

/// Tells a YouTube-shaped URL from every other.
pub fn classify(url: &str) -> (profile: UrlProfile)
    ensures
        profile == profile_of(url@),
{
    if contains(url, YOUTUBE_HOST) || contains(url, YOUTUBE_SHORT_HOST) {
        UrlProfile::YouTube
    } else {
        UrlProfile::Generic
    }
}

/// The output template for a download directory.
pub fn output_template(directory: &str) -> (template: String)
    ensures
        template@ == output_template_of(directory@),
{
    joined(directory, OUTPUT_TEMPLATE_SUFFIX)
}

/// Builds the downloader's arguments for a request.
pub fn build(request: &DownloadRequest, tools: &ProvisionedTools) -> (args: Vec<String>)
    ensures
        views_of(args@) == command_args(request@, tools@.muxer_path),
{
    let mut args: Vec<String> = Vec::new();
    args.push(request.source_url.clone());
    args.push(String::from_str(NEWLINE_FLAG));
    args.push(String::from_str(NO_CERTIFICATE_CHECK_FLAG));
    args.push(String::from_str(MUXER_LOCATION_FLAG));
    args.push(tools.muxer_path.clone());
    match classify(request.source_url.as_str()) {
        UrlProfile::YouTube => {
            args.push(String::from_str(RETRIES_FLAG));
            args.push(String::from_str(RETRY_COUNT));
        },
        UrlProfile::Generic => {
            args.push(String::from_str(FORMAT_FLAG));
            match request.quality {
                Quality::Best => {
                    args.push(String::from_str(BEST_FORMAT));
                    args.push(String::from_str(MERGE_FORMAT_FLAG));
                    args.push(String::from_str(MERGE_FORMAT));
                },
                Quality::Normal => {
                    args.push(String::from_str(NORMAL_FORMAT));
                },
            }
        },
    }
    args.push(String::from_str(OUTPUT_FLAG));
    args.push(output_template(request.download_directory.as_str()));
    if !request.include_playlist {
        args.push(String::from_str(NO_PLAYLIST_FLAG));
    }
    assert(views_of(args@) =~= command_args(request@, tools@.muxer_path));
    args
}

/// Counting over a concatenation adds up.
pub proof fn lemma_count_of_concat(front: Seq<Seq<char>>, back: Seq<Seq<char>>, arg: Seq<char>)
    ensures
        count_of(front + back, arg) == count_of(front, arg) + count_of(back, arg),
    decreases back.len(),
{
    if back.len() == 0 {
        assert(front + back =~= front);
    } else {
        assert((front + back).drop_last() =~= front + back.drop_last());
        lemma_count_of_concat(front, back.drop_last(), arg);
    }
}

/// An argument occurs in a list exactly when its count there is not zero.
pub proof fn lemma_count_of_contains(args: Seq<Seq<char>>, arg: Seq<char>)
    ensures
        args.contains(arg) <==> count_of(args, arg) > 0,
    decreases args.len(),
{
    if args.len() > 0 {
        lemma_count_of_contains(args.drop_last(), arg);
        if args.drop_last().contains(arg) {
            let i = choose|i: int| 0 <= i < args.drop_last().len() && args.drop_last()[i] == arg;
            assert(args[i] == arg);
        }
        if args.contains(arg) && args.last() != arg {
            let i = choose|i: int| 0 <= i < args.len() && args[i] == arg;
            assert(args.drop_last()[i] == arg);
        }
    }
}

/// The lengths of the fixed argument texts, and the characters that tell
/// apart those of equal length.
proof fn lemma_argument_texts()
    ensures
        YOUTUBE_HOST@.len() == 11,
        YOUTUBE_SHORT_HOST@.len() == 8,
        NEWLINE_FLAG@.len() == 9,
        NO_CERTIFICATE_CHECK_FLAG@.len() == 22,
        MUXER_LOCATION_FLAG@.len() == 17,
        RETRIES_FLAG@.len() == 9,
        RETRY_COUNT@.len() == 2,
        FORMAT_FLAG@.len() == 2,
        BEST_FORMAT@.len() == 56,
        MERGE_FORMAT_FLAG@.len() == 21,
        MERGE_FORMAT@.len() == 3,
        NORMAL_FORMAT@.len() == 13,
        OUTPUT_FLAG@.len() == 2,
        OUTPUT_TEMPLATE_SUFFIX@.len() == 18,
        NO_PLAYLIST_FLAG@.len() == 13,
        FORMAT_FLAG@[1] == 'f',
        RETRY_COUNT@[1] == '0',
        OUTPUT_FLAG@[1] == 'o',
        NORMAL_FORMAT@[0] == 'b',
        NO_PLAYLIST_FLAG@[0] == '-',
        BEST_FORMAT@[55] == 't',
        MERGE_FORMAT_FLAG@[20] == 't',
        OUTPUT_TEMPLATE_SUFFIX@[17] == 's',
{
    reveal_strlit("youtube.com");
    reveal_strlit("youtu.be");
    reveal_strlit("--newline");
    reveal_strlit("--no-check-certificate");
    reveal_strlit("--ffmpeg-location");
    reveal_strlit("--retries");
    reveal_strlit("10");
    reveal_strlit("-f");
    reveal_strlit("bestvideo[ext=mp4]+bestaudio[ext=m4a]/best[ext=mp4]/best");
    reveal_strlit("--merge-output-format");
    reveal_strlit("mp4");
    reveal_strlit("best[ext=mp4]");
    reveal_strlit("-o");
    reveal_strlit("/%(title)s.%(ext)s");
    reveal_strlit("--no-playlist");
}

/// For a YouTube-shaped URL the retry flag and the retry count stand side by
/// side in the arguments, and the format flag occurs nowhere in them, as long
/// as the muxer's path is not itself the text of that flag.
pub proof fn lemma_youtube_retries_without_format(request: RequestView, muxer_path: Seq<char>)
    requires
        profile_of(request.source_url) == UrlProfile::YouTube,
        muxer_path != FORMAT_FLAG@,
    ensures
        command_args(request, muxer_path)[5] == RETRIES_FLAG@,
        command_args(request, muxer_path)[6] == RETRY_COUNT@,
        command_args(request, muxer_path).contains(RETRIES_FLAG@),
        command_args(request, muxer_path).contains(RETRY_COUNT@),
        !command_args(request, muxer_path).contains(FORMAT_FLAG@),
        count_of(command_args(request, muxer_path), FORMAT_FLAG@) == 0,
{
    lemma_argument_texts();
    let args = command_args(request, muxer_path);
    let url = request.source_url;
    assert(url.len() >= 8) by {
        if has_substring(url, YOUTUBE_HOST@) {
            let at = choose|at: int| crate::text::occurs_at(url, YOUTUBE_HOST@, at);
            assert(crate::text::occurs_at(url, YOUTUBE_HOST@, at));
        } else {
            let at = choose|at: int| crate::text::occurs_at(url, YOUTUBE_SHORT_HOST@, at);
            assert(crate::text::occurs_at(url, YOUTUBE_SHORT_HOST@, at));
        }
    }
    assert(output_template_of(request.download_directory).len() >= 18);
    assert(args[5] == RETRIES_FLAG@);
    assert(args[6] == RETRY_COUNT@);
    assert(forall|i: int| 0 <= i < args.len() ==> args[i] != FORMAT_FLAG@);
    lemma_count_of_contains(args, FORMAT_FLAG@);
}

/// For any other URL and the best quality, the format flag is followed by the
/// preference chain, and that by the merge flag and the MP4 container.
pub proof fn lemma_generic_best_selects_preference_chain(
    request: RequestView,
    muxer_path: Seq<char>,
)
    requires
        profile_of(request.source_url) == UrlProfile::Generic,
        request.quality == Quality::Best,
    ensures
        command_args(request, muxer_path)[5] == FORMAT_FLAG@,
        command_args(request, muxer_path)[6] == BEST_FORMAT@,
        command_args(request, muxer_path)[7] == MERGE_FORMAT_FLAG@,
        command_args(request, muxer_path)[8] == MERGE_FORMAT@,
        command_args(request, muxer_path).contains(BEST_FORMAT@),
        command_args(request, muxer_path).contains(MERGE_FORMAT_FLAG@),
{
    let args = command_args(request, muxer_path);
    assert(args[6] == BEST_FORMAT@);
    assert(args[7] == MERGE_FORMAT_FLAG@);
}

/// For any other URL and the normal quality, the format flag is followed by
/// the single MP4 selector, and neither the preference chain nor the merge
/// flag occurs in the arguments, as long as neither the URL nor the muxer's
/// path is itself one of those two texts.
pub proof fn lemma_generic_normal_selects_single_format(
    request: RequestView,
    muxer_path: Seq<char>,
)
    requires
        profile_of(request.source_url) == UrlProfile::Generic,
        request.quality == Quality::Normal,
        request.source_url != BEST_FORMAT@,
        request.source_url != MERGE_FORMAT_FLAG@,
        muxer_path != BEST_FORMAT@,
        muxer_path != MERGE_FORMAT_FLAG@,
    ensures
        command_args(request, muxer_path)[5] == FORMAT_FLAG@,
        command_args(request, muxer_path)[6] == NORMAL_FORMAT@,
        command_args(request, muxer_path).contains(NORMAL_FORMAT@),
        !command_args(request, muxer_path).contains(BEST_FORMAT@),
        !command_args(request, muxer_path).contains(MERGE_FORMAT_FLAG@),
{
    lemma_argument_texts();
    let args = command_args(request, muxer_path);
    let template = output_template_of(request.download_directory);
    assert(template.len() >= 18 && template[template.len() - 1] == 's');
    assert(args[6] == NORMAL_FORMAT@);
    assert(forall|i: int| 0 <= i < args.len() ==> args[i] != BEST_FORMAT@);
    assert(forall|i: int| 0 <= i < args.len() ==> args[i] != MERGE_FORMAT_FLAG@);
}

/// Where playlists are not to be followed, the no-playlist flag occurs in the
/// arguments exactly once; where they are, it occurs nowhere. This holds as
/// long as neither the URL nor the muxer's path is itself the text of that
/// flag.
pub proof fn lemma_playlist_flag_follows_preference(request: RequestView, muxer_path: Seq<char>)
    requires
        request.source_url != NO_PLAYLIST_FLAG@,
        muxer_path != NO_PLAYLIST_FLAG@,
    ensures
        !request.include_playlist ==> count_of(
            command_args(request, muxer_path),
            NO_PLAYLIST_FLAG@,
        ) == 1,
        request.include_playlist ==> count_of(command_args(request, muxer_path), NO_PLAYLIST_FLAG@)
            == 0,
        request.include_playlist <==> !command_args(request, muxer_path).contains(
            NO_PLAYLIST_FLAG@,
        ),
{
    lemma_argument_texts();
    let flag = NO_PLAYLIST_FLAG@;
    let head = seq![
        request.source_url,
        NEWLINE_FLAG@,
        NO_CERTIFICATE_CHECK_FLAG@,
        MUXER_LOCATION_FLAG@,
        muxer_path,
    ];
    let selection = selection_args_of(profile_of(request.source_url), request.quality);
    let output = seq![OUTPUT_FLAG@, output_template_of(request.download_directory)];
    let tail = playlist_args_of(request.include_playlist);
    assert(forall|i: int| 0 <= i < head.len() ==> head[i] != flag);
    assert(forall|i: int| 0 <= i < selection.len() ==> selection[i] != flag);
    assert(forall|i: int| 0 <= i < output.len() ==> output[i] != flag) by {
        assert(output_template_of(request.download_directory).len() >= 18);
    }
    lemma_count_of_contains(head, flag);
    lemma_count_of_contains(selection, flag);
    lemma_count_of_contains(output, flag);
    lemma_count_of_concat(head, selection, flag);
    lemma_count_of_concat(head + selection, output, flag);
    lemma_count_of_concat(head + selection + output, tail, flag);
    assert(count_of(tail, flag) == if request.include_playlist { 0nat } else { 1nat }) by {
        reveal_with_fuel(count_of, 3);
        if !request.include_playlist {
            assert(tail.drop_last() =~= Seq::<Seq<char>>::empty());
        }
    }
    lemma_count_of_contains(command_args(request, muxer_path), flag);
}

} // verus!

//! Deciding where a download goes and what happens once it is on disk.

use vstd::prelude::*;

use crate::text::{contains, contains_str, from_utf8_lossy, owned, trim, trim_str, utf8_lossy};

verus! {

/// The size limit a finished file has to meet: 8 MiB.
pub const MAX_SIZE_BYTES: u64 = 8 * 1024 * 1024;

/// A category list marks a music video when it names music or a song.
pub open spec fn mentions_music(categories: Seq<char>) -> bool {
    ||| contains(categories, "Music"@)
    ||| contains(categories, "music"@)
    ||| contains(categories, "Song"@)
    ||| contains(categories, "song"@)
}

/// Whether the category list printed for a video marks it as music.
pub fn is_music_category(categories: &str) -> (b: bool)
    ensures
        b == mentions_music(categories@),
{
    contains_str(categories, "Music") || contains_str(categories, "music") || contains_str(
        categories,
        "Song",
    ) || contains_str(categories, "song")
}

/// Whether the raw output of the category query marks the video as music.
pub fn is_music_output(stdout: &[u8]) -> (b: bool)
    ensures
        b == mentions_music(utf8_lossy(stdout@)),
{
    let categories = from_utf8_lossy(stdout);
    is_music_category(categories.as_str())
}

/// The arguments that make the downloader print the categories of `url`.
pub fn category_query_args(url: &str) -> (args: Vec<String>)
    ensures
        args.deep_view() == seq!["--print"@, "%(categories)s"@, url@],
{
    let mut args: Vec<String> = Vec::new();
    args.push(owned("--print"));
    args.push(owned("%(categories)s"));
    args.push(owned(url));
    assert(args.deep_view() =~= seq!["--print"@, "%(categories)s"@, url@]);
    args
}

/// Output template for music downloads.
pub open spec fn music_template() -> Seq<char> {
    "C:\\Users\\Temmie\\Pictures\\Pictures\\Music\\%(title)s.%(ext)s"@
}

/// Output template for every other download.
pub open spec fn video_template() -> Seq<char> {
    "C:\\Users\\Temmie\\Pictures\\Pictures\\Vidéo\\%(title)s.%(ext)s"@
}

/// The output template: music goes to the music folder, anything else to the video folder.
pub fn output_template(is_music: bool) -> (t: String)
    ensures
        t@ == (if is_music { music_template() } else { video_template() }),
{
    if is_music {
        owned("C:\\Users\\Temmie\\Pictures\\Pictures\\Music\\%(title)s.%(ext)s")
    } else {
        owned("C:\\Users\\Temmie\\Pictures\\Pictures\\Vidéo\\%(title)s.%(ext)s")
    }
}

/// Everything the downloader is told, in order; the URL is trimmed.
pub open spec fn download_arg_list(template: Seq<char>, url: Seq<char>) -> Seq<Seq<char>> {
    seq![
        "--encoding"@,
        "utf-8"@,
        "-o"@,
        template,
        "--quiet"@,
        "--no-warnings"@,
        "--replace-in-metadata"@,
        "title"@,
        " "@,
        "_"@,
        "--format-sort"@,
        "res:480,ext:mp4:m4a"@,
        "--concurrent-fragments"@,
        "5"@,
        "--extractor-args"@,
        "youtube:player_client=tv,mweb"@,
        "--print"@,
        "after_move:filepath"@,
        trim(url),
    ]
}

/// The downloader's arguments for `url`, writing through `template`.
pub fn download_args(template: &str, url: &str) -> (args: Vec<String>)
    ensures
        args.deep_view() == download_arg_list(template@, url@),
{
    let mut args: Vec<String> = Vec::new();
    args.push(owned("--encoding"));
    args.push(owned("utf-8"));
    args.push(owned("-o"));
    args.push(owned(template));
    args.push(owned("--quiet"));
    args.push(owned("--no-warnings"));
    args.push(owned("--replace-in-metadata"));
    args.push(owned("title"));
    args.push(owned(" "));
    args.push(owned("_"));
    args.push(owned("--format-sort"));
    args.push(owned("res:480,ext:mp4:m4a"));
    args.push(owned("--concurrent-fragments"));
    args.push(owned("5"));
    args.push(owned("--extractor-args"));
    args.push(owned("youtube:player_client=tv,mweb"));
    args.push(owned("--print"));
    args.push(owned("after_move:filepath"));
    args.push(trim_str(url));
    assert(args.deep_view() =~= download_arg_list(template@, url@));
    args
}

/// The path of the downloaded file, as the downloader printed it.
pub fn downloaded_path(stdout: &[u8]) -> (path: String)
    ensures
        path@ == trim(utf8_lossy(stdout@)),
{
    let printed = from_utf8_lossy(stdout);
    trim_str(printed.as_str())
}

/// What follows a download.
#[derive(Debug, Clone, Copy, PartialEq, Eq, Structural)]
pub enum AfterDownload {
    /// The file meets the size limit: offer to show it.
    OfferExplorer,
    /// The file is too large: compress it.
    Compress,
    /// The file's size could not be read: report it and stop.
    MetadataUnavailable,
}

/// A file of `size` bytes meets the limit.
pub open spec fn fits_limit(size: u64) -> bool {
    size <= MAX_SIZE_BYTES
}

/// The step after a download whose file size is `size` (`None` when it could not be read).
pub fn after_download(size: Option<u64>) -> (next: AfterDownload)
    ensures
        next == (match size {
            None => AfterDownload::MetadataUnavailable,
            Some(s) => if fits_limit(s) {
                AfterDownload::OfferExplorer
            } else {
                AfterDownload::Compress
            },
        }),
{
    match size {
        None => AfterDownload::MetadataUnavailable,
        Some(s) => if s <= MAX_SIZE_BYTES {
            AfterDownload::OfferExplorer
        } else {
            AfterDownload::Compress
        },
    }
}


// ---------------------------------------------------------------------------
// Laws
// ---------------------------------------------------------------------------

/// The size limit is 8 MiB, bounds included: a file fits exactly when it has at most
/// 8 * 1024 * 1024 bytes.
pub proof fn law_limit_is_eight_mebibytes(size: u64)
    ensures
        MAX_SIZE_BYTES == 8 * 1024 * 1024,
        fits_limit(size) <==> size <= 8 * 1024 * 1024,
{
}

/// Fitting the limit is monotone: a smaller file fits whenever a larger one does.
pub proof fn law_limit_is_monotone(small: u64, large: u64)
    requires
        small <= large,
        fits_limit(large),
    ensures
        fits_limit(small),
{
}

/// A piece `needle` at position `i` of `s` is an occurrence of it.
pub proof fn law_occurrence_is_contained(s: Seq<char>, needle: Seq<char>, i: int)
    requires
        0 <= i,
        i + needle.len() <= s.len(),
        s.subrange(i, i + needle.len()) == needle,
    ensures
        contains(s, needle),
{
}

/// Music or a song is named at position `i` of `c`.
pub open spec fn keyword_at(c: Seq<char>, i: int) -> bool {
    ||| (0 <= i && i + 5 <= c.len() && c.subrange(i, i + 5) == seq!['M', 'u', 's', 'i', 'c'])
    ||| (0 <= i && i + 5 <= c.len() && c.subrange(i, i + 5) == seq!['m', 'u', 's', 'i', 'c'])
    ||| (0 <= i && i + 4 <= c.len() && c.subrange(i, i + 4) == seq!['S', 'o', 'n', 'g'])
    ||| (0 <= i && i + 4 <= c.len() && c.subrange(i, i + 4) == seq!['s', 'o', 'n', 'g'])
}

/// A category text counts as music exactly when `Music`, `music`, `Song` or `song` occurs
/// in it; any other text, such as `['Entertainment']`, does not.
pub proof fn law_music_keywords(categories: Seq<char>)
    ensures
        mentions_music(categories) <==> exists|i: int| #[trigger] keyword_at(categories, i),
{
    reveal_strlit("Music");
    reveal_strlit("music");
    reveal_strlit("Song");
    reveal_strlit("song");
    assert("Music"@ =~= seq!['M', 'u', 's', 'i', 'c']);
    assert("music"@ =~= seq!['m', 'u', 's', 'i', 'c']);
    assert("Song"@ =~= seq!['S', 'o', 'n', 'g']);
    assert("song"@ =~= seq!['s', 'o', 'n', 'g']);
    if mentions_music(categories) {
        if contains(categories, "Music"@) {
            let i = choose|i: int| 0 <= i <= categories.len() - 5 && #[trigger] categories.subrange(i, i + 5) == "Music"@;
            assert(keyword_at(categories, i));
        } else if contains(categories, "music"@) {
            let i = choose|i: int| 0 <= i <= categories.len() - 5 && #[trigger] categories.subrange(i, i + 5) == "music"@;
            assert(keyword_at(categories, i));
        } else if contains(categories, "Song"@) {
            let i = choose|i: int| 0 <= i <= categories.len() - 4 && #[trigger] categories.subrange(i, i + 4) == "Song"@;
            assert(keyword_at(categories, i));
        } else {
            let i = choose|i: int| 0 <= i <= categories.len() - 4 && #[trigger] categories.subrange(i, i + 4) == "song"@;
            assert(keyword_at(categories, i));
        }
    }
    if exists|i: int| #[trigger] keyword_at(categories, i) {
        let i = choose|i: int| #[trigger] keyword_at(categories, i);
        if i + 5 <= categories.len() && categories.subrange(i, i + 5) == seq!['M', 'u', 's', 'i', 'c'] {
            law_occurrence_is_contained(categories, "Music"@, i);
        } else if i + 5 <= categories.len() && categories.subrange(i, i + 5) == seq!['m', 'u', 's', 'i', 'c'] {
            law_occurrence_is_contained(categories, "music"@, i);
        } else if i + 4 <= categories.len() && categories.subrange(i, i + 4) == seq!['S', 'o', 'n', 'g'] {
            law_occurrence_is_contained(categories, "Song"@, i);
        } else {
            law_occurrence_is_contained(categories, "song"@, i);
        }
    }
}

/// The downloader is told the encoding, the output template, how to name and pick formats,
/// and last the URL without surrounding white space.
pub proof fn law_download_arguments(template: Seq<char>, url: Seq<char>)
    ensures
        download_arg_list(template, url).len() == 19,
        download_arg_list(template, url)[2] == "-o"@,
        download_arg_list(template, url)[3] == template,
        download_arg_list(template, url)[18] == trim(url),
{
}

/// Music is written to the music folder and every other download to the video folder.
pub proof fn law_templates()
    ensures
        music_template() == "C:\\Users\\Temmie\\Pictures\\Pictures\\Music\\%(title)s.%(ext)s"@,
        video_template() == "C:\\Users\\Temmie\\Pictures\\Pictures\\Vidéo\\%(title)s.%(ext)s"@,
{
}

} // verus!

//! The compression passes: which quality each pass tries, and when to stop.

use vstd::prelude::*;

use crate::download::{fits_limit, MAX_SIZE_BYTES};
use crate::text::{concat_str, contains, contains_str, decimal, decimal_string, digit_char, owned};

verus! {

/// How many compression passes are tried at most.
pub const PASS_COUNT: usize = 6;

/// The constant rate factor (CRF) that pass `index` asks ffmpeg for.
pub open spec fn crf_of(index: int) -> nat {
    if index == 0 {
        28
    } else if index == 1 {
        32
    } else if index == 2 {
        36
    } else if index == 3 {
        40
    } else if index == 4 {
        44
    } else {
        50
    }
}

/// The CRF of pass `index`.
pub fn crf_number(index: usize) -> (crf: u64)
    requires
        index < PASS_COUNT,
    ensures
        crf == crf_of(index as int),
{
    if index == 0 {
        28
    } else if index == 1 {
        32
    } else if index == 2 {
        36
    } else if index == 3 {
        40
    } else if index == 4 {
        44
    } else {
        50
    }
}

/// The CRF of pass `index`, as ffmpeg reads it on its command line.
pub fn crf_value(index: usize) -> (crf: String)
    requires
        index < PASS_COUNT,
    ensures
        crf@ == decimal(crf_of(index as int)),
{
    decimal_string(crf_number(index))
}

/// Where pass `index` writes its attempt.
pub open spec fn temp_output(index: int) -> Seq<char> {
    "C:\\Users\\Temmie\\Pictures\\Pictures\\Vidéo\\temp\\output_"@ + decimal((index + 1) as nat)
        + ".mp4"@
}

/// The file that pass `index` writes.
pub fn temp_output_path(index: usize) -> (path: String)
    requires
        index < PASS_COUNT,
    ensures
        path@ == temp_output(index as int),
{
    let number = decimal_string((index + 1) as u64);
    let head = concat_str("C:\\Users\\Temmie\\Pictures\\Pictures\\Vidéo\\temp\\output_", number.as_str());
    concat_str(head.as_str(), ".mp4")
}

/// The ffmpeg arguments of one pass.
pub open spec fn ffmpeg_arg_list(input: Seq<char>, crf: Seq<char>, output: Seq<char>) -> Seq<Seq<char>> {
    seq![
        "-y"@,
        "-i"@,
        input,
        "-c:v"@,
        "libx264"@,
        "-crf"@,
        crf,
        "-preset"@,
        "medium"@,
        "-c:a"@,
        "copy"@,
        "-movflags"@,
        "+faststart"@,
        output,
    ]
}

/// ffmpeg's arguments to re-encode `input` at `crf` into `output`.
pub fn ffmpeg_args(input: &str, crf: &str, output: &str) -> (args: Vec<String>)
    ensures
        args.deep_view() == ffmpeg_arg_list(input@, crf@, output@),
{
    let mut args: Vec<String> = Vec::new();
    args.push(owned("-y"));
    args.push(owned("-i"));
    args.push(owned(input));
    args.push(owned("-c:v"));
    args.push(owned("libx264"));
    args.push(owned("-crf"));
    args.push(owned(crf));
    args.push(owned("-preset"));
    args.push(owned("medium"));
    args.push(owned("-c:a"));
    args.push(owned("copy"));
    args.push(owned("-movflags"));
    args.push(owned("+faststart"));
    args.push(owned(output));
    assert(args.deep_view() =~= ffmpeg_arg_list(input@, crf@, output@));
    args
}

/// Everything one pass needs.
pub struct PassPlan {
    /// The CRF the pass tries.
    pub crf: String,
    /// Where the pass writes.
    pub temp_output: String,
    /// The ffmpeg arguments.
    pub args: Vec<String>,
}

/// The plan of pass `index` over the file at `input`.
pub fn plan_pass(input: &str, index: usize) -> (plan: PassPlan)
    requires
        index < PASS_COUNT,
    ensures
        plan.crf@ == decimal(crf_of(index as int)),
        plan.temp_output@ == temp_output(index as int),
        plan.args.deep_view() == ffmpeg_arg_list(input@, plan.crf@, plan.temp_output@),
{
    let crf = crf_value(index);
    let temp = temp_output_path(index);
    let args = ffmpeg_args(input, crf.as_str(), temp.as_str());
    PassPlan { crf, temp_output: temp, args }
}

/// The name the compressed file gets: its stem (or `video`) and `_compressed.mp4`.
pub open spec fn compressed_name(stem: Option<Seq<char>>) -> Seq<char> {
    match stem {
        Some(s) => s + "_compressed.mp4"@,
        None => "video"@ + "_compressed.mp4"@,
    }
}

/// The file name of the compressed copy of a file whose stem is `stem`.
pub fn compressed_file_name(stem: Option<&str>) -> (name: String)
    ensures
        name@ == compressed_name(match stem {
            Some(s) => Some(s@),
            None => None,
        }),
{
    match stem {
        Some(s) => concat_str(s, "_compressed.mp4"),
        None => concat_str("video", "_compressed.mp4"),
    }
}

/// Folder for compressed music.
pub open spec fn music_dir() -> Seq<char> {
    "C:\\Users\\Temmie\\Pictures\\Pictures\\Music"@
}

/// Folder for every other compressed file.
pub open spec fn video_dir() -> Seq<char> {
    "C:\\Users\\Temmie\\Pictures\\Pictures\\Vidéo"@
}

/// The folder the compressed file goes to: the music folder when its path names `Music`.
pub fn target_dir(full_path: &str) -> (dir: String)
    ensures
        dir@ == (if contains(full_path@, "Music"@) { music_dir() } else { video_dir() }),
{
    if contains_str(full_path, "Music") {
        owned("C:\\Users\\Temmie\\Pictures\\Pictures\\Music")
    } else {
        owned("C:\\Users\\Temmie\\Pictures\\Pictures\\Vidéo")
    }
}

/// Why a pass's file is kept.
#[derive(Debug, Clone, Copy, PartialEq, Eq, Structural)]
pub enum KeptBecause {
    /// It meets the size limit.
    TargetMet,
    /// It is too large, but no pass is left.
    LastPass,
}

/// What becomes of one pass.
#[derive(Debug, Clone, Copy, PartialEq, Eq, Structural)]
pub enum PassVerdict {
    /// ffmpeg failed or the size of its output could not be read: go on to the next pass.
    Skipped,
    /// The attempt is too large: delete it and go on to the next pass.
    Discard,
    /// Keep the attempt and stop.
    Keep(KeptBecause),
}

/// The verdict on pass `index`, given whether ffmpeg succeeded and the size of its output.
pub open spec fn verdict_of(index: int, ffmpeg_ok: bool, size: Option<u64>) -> PassVerdict {
    if !ffmpeg_ok {
        PassVerdict::Skipped
    } else {
        match size {
            None => PassVerdict::Skipped,
            Some(s) => if fits_limit(s) {
                PassVerdict::Keep(KeptBecause::TargetMet)
            } else if index + 1 == PASS_COUNT {
                PassVerdict::Keep(KeptBecause::LastPass)
            } else {
                PassVerdict::Discard
            },
        }
    }
}

/// Judges pass `index`.
pub fn judge_pass(index: usize, ffmpeg_ok: bool, size: Option<u64>) -> (v: PassVerdict)
    requires
        index < PASS_COUNT,
    ensures
        v == verdict_of(index as int, ffmpeg_ok, size),
{
    if !ffmpeg_ok {
        return PassVerdict::Skipped;
    }
    match size {
        None => PassVerdict::Skipped,
        Some(s) => if s <= MAX_SIZE_BYTES {
            PassVerdict::Keep(KeptBecause::TargetMet)
        } else if index + 1 == PASS_COUNT {
            PassVerdict::Keep(KeptBecause::LastPass)
        } else {
            PassVerdict::Discard
        },
    }
}

/// The question asked once a kept attempt was (or was not) moved to its final place.
pub open spec fn explorer_prompt_text(kept: KeptBecause, renamed: bool) -> Seq<char> {
    if !renamed {
        "Would you like to open Explorer to view the temporary file? (Y/N)"@
    } else {
        match kept {
            KeptBecause::TargetMet => "Would you like to open Explorer? (Y/N)"@,
            KeptBecause::LastPass => "Would you like to open Explorer to view the saved file? (Y/N)"@,
        }
    }
}

/// The question asked after keeping an attempt.
pub fn explorer_prompt(kept: KeptBecause, renamed: bool) -> (p: String)
    ensures
        p@ == explorer_prompt_text(kept, renamed),
{
    if !renamed {
        owned("Would you like to open Explorer to view the temporary file? (Y/N)")
    } else {
        match kept {
            KeptBecause::TargetMet => owned("Would you like to open Explorer? (Y/N)"),
            KeptBecause::LastPass => owned(
                "Would you like to open Explorer to view the saved file? (Y/N)",
            ),
        }
    }
}

/// The progress of a compression: the next pass to run, and whether an attempt was kept.
pub struct CompressionRun {
    next: usize,
    kept: bool,
}

impl CompressionRun {
    #[verifier::type_invariant]
    spec fn inv(self) -> bool {
        self.next <= PASS_COUNT
    }

    /// The number of passes recorded so far.
    pub closed spec fn passes_done(self) -> nat {
        self.next as nat
    }

    /// Whether an attempt was kept.
    pub closed spec fn has_kept(self) -> bool {
        self.kept
    }

    /// The run is over: an attempt was kept, or every pass was tried.
    pub open spec fn is_over(self) -> bool {
        self.has_kept() || self.passes_done() >= PASS_COUNT
    }

    /// A run before its first pass.
    pub fn new() -> (run: Self)
        ensures
            run.passes_done() == 0,
            !run.has_kept(),
    {
        CompressionRun { next: 0, kept: false }
    }

    /// The pass to run next, or `None` once the run is over.
    pub fn current_pass(&self) -> (pass: Option<usize>)
        ensures
            pass == (if self.is_over() {
                None
            } else {
                Some(self.passes_done() as usize)
            }),
            pass matches Some(i) ==> i < PASS_COUNT,
    {
        if self.kept || self.next >= PASS_COUNT {
            None
        } else {
            Some(self.next)
        }
    }

    /// Records the outcome of the current pass and gives its verdict; a run that is over
    /// records nothing and gives `None`.
    pub fn record(&mut self, ffmpeg_ok: bool, size: Option<u64>) -> (v: Option<PassVerdict>)
        ensures
            old(self).is_over() ==> v is None && *final(self) == *old(self),
            !old(self).is_over() ==> {
                &&& v == Some(verdict_of(old(self).passes_done() as int, ffmpeg_ok, size))
                &&& final(self).passes_done() == old(self).passes_done() + 1
                &&& final(self).has_kept() == (v matches Some(PassVerdict::Keep(_)))
            },
            final(self).passes_done() <= PASS_COUNT,
    {
        proof {
            use_type_invariant(&*self);
        }
        if self.kept || self.next >= PASS_COUNT {
            return None;
        }
        let verdict = judge_pass(self.next, ffmpeg_ok, size);
        let kept = match verdict {
            PassVerdict::Keep(_) => true,
            _ => false,
        };
        *self = CompressionRun { next: self.next + 1, kept };
        Some(verdict)
    }
}


// ---------------------------------------------------------------------------
// Laws of the passes
// ---------------------------------------------------------------------------

/// Every retry asks for a higher CRF, that is a stronger compression, than the pass before.
pub proof fn law_crf_increases(i: int, j: int)
    requires
        0 <= i < j < PASS_COUNT,
    ensures
        crf_of(i) < crf_of(j),
{
}

/// An attempt that meets the size limit is kept, whichever pass made it.
pub proof fn law_fitting_attempt_is_kept(index: int, size: u64)
    requires
        0 <= index < PASS_COUNT,
        fits_limit(size),
    ensures
        verdict_of(index, true, Some(size)) == PassVerdict::Keep(KeptBecause::TargetMet),
{
}

/// The last pass keeps its attempt whenever ffmpeg succeeded and the size could be read, so a
/// compression that gets that far always leaves a file.
pub proof fn law_last_pass_keeps(size: u64)
    ensures
        verdict_of(PASS_COUNT - 1, true, Some(size)) is Keep,
{
}

/// An attempt is kept for meeting the limit only when it does meet it, and an attempt is
/// thrown away only when it is too large and another pass is left.
pub proof fn law_verdicts_follow_size(index: int, ffmpeg_ok: bool, size: Option<u64>)
    requires
        0 <= index < PASS_COUNT,
    ensures
        verdict_of(index, ffmpeg_ok, size) == PassVerdict::Keep(KeptBecause::TargetMet) ==> (size
            matches Some(s) && fits_limit(s)),
        verdict_of(index, ffmpeg_ok, size) == PassVerdict::Discard ==> (size matches Some(s)
            && !fits_limit(s) && index + 1 < PASS_COUNT),
        verdict_of(index, ffmpeg_ok, size) == PassVerdict::Skipped <==> (!ffmpeg_ok || size is None),
{
}


/// Six passes are tried at most.
pub proof fn law_six_passes()
    ensures
        PASS_COUNT == 6,
{
}

/// The passes ask for CRF 28, 32, 36, 40, 44 and 50, in this order.
pub proof fn law_crf_table(index: int)
    requires
        0 <= index < 6,
    ensures
        crf_of(index) == seq![28nat, 32nat, 36nat, 40nat, 44nat, 50nat][index],
{
}

/// A successful pass whose output is over 8 MiB, with another pass still to come, is thrown
/// away so that the next, stronger pass can run.
pub proof fn law_oversized_attempt_is_retried(index: int, size: u64)
    requires
        0 <= index,
        index + 1 < 6,
        size > 8 * 1024 * 1024,
    ensures
        verdict_of(index, true, Some(size)) == PassVerdict::Discard,
{
}

/// A successful pass whose output is at most 8 MiB is kept as meeting the target.
pub proof fn law_small_attempt_meets_target(index: int, size: u64)
    requires
        0 <= index < 6,
        size <= 8 * 1024 * 1024,
    ensures
        verdict_of(index, true, Some(size)) == PassVerdict::Keep(KeptBecause::TargetMet),
{
}

/// The sixth pass keeps an output over 8 MiB as the best attempt.
pub proof fn law_last_oversized_attempt_is_saved(size: u64)
    requires
        size > 8 * 1024 * 1024,
    ensures
        verdict_of(5, true, Some(size)) == PassVerdict::Keep(KeptBecause::LastPass),
{
}

/// A pass whose ffmpeg run failed, or whose output size cannot be read, changes nothing.
pub proof fn law_failed_pass_is_skipped(index: int, ffmpeg_ok: bool, size: Option<u64>)
    requires
        !ffmpeg_ok || size is None,
    ensures
        verdict_of(index, ffmpeg_ok, size) == PassVerdict::Skipped,
{
}

/// The compressed copy of a file with stem `s` is named `s` followed by `_compressed.mp4`;
/// a file without a stem gives `video_compressed.mp4`.
pub proof fn law_compressed_name(s: Seq<char>)
    ensures
        compressed_name(Some(s)) == s + "_compressed.mp4"@,
        compressed_name(Some(s)).subrange(0, s.len() as int) == s,
        compressed_name(None) == "video_compressed.mp4"@,
{
    reveal_strlit("video");
    reveal_strlit("_compressed.mp4");
    reveal_strlit("video_compressed.mp4");
    assert(("video"@ + "_compressed.mp4"@) =~= "video_compressed.mp4"@);
    assert((s + "_compressed.mp4"@).subrange(0, s.len() as int) =~= s);
}

/// Different stems give different names, so compressed files do not overwrite each other.
pub proof fn law_compressed_names_differ(a: Seq<char>, b: Seq<char>)
    requires
        a != b,
    ensures
        compressed_name(Some(a)) != compressed_name(Some(b)),
{
    let x = compressed_name(Some(a));
    let y = compressed_name(Some(b));
    assert(x == a + "_compressed.mp4"@);
    assert(y == b + "_compressed.mp4"@);
    if x == y {
        assert(a.len() == b.len());
        assert(x.subrange(0, a.len() as int) =~= a);
        assert(y.subrange(0, b.len() as int) =~= b);
    }
}

/// Compressed music goes to the music folder and everything else to the video folder.
pub proof fn law_target_folders()
    ensures
        music_dir() == "C:\\Users\\Temmie\\Pictures\\Pictures\\Music"@,
        video_dir() == "C:\\Users\\Temmie\\Pictures\\Pictures\\Vidéo"@,
        music_dir() != video_dir(),
{
    reveal_strlit("C:\\Users\\Temmie\\Pictures\\Pictures\\Music");
    reveal_strlit("C:\\Users\\Temmie\\Pictures\\Pictures\\Vidéo");
    assert(music_dir().len() != video_dir().len() || music_dir()[36] != video_dir()[36]);
}

/// Pass `index` writes `output_<index + 1>.mp4` in the temporary folder.
pub proof fn law_temp_output(index: int)
    requires
        0 <= index < 6,
    ensures
        temp_output(index) == "C:\\Users\\Temmie\\Pictures\\Pictures\\Vidéo\\temp\\output_"@
            + decimal((index + 1) as nat) + ".mp4"@,
        decimal((index + 1) as nat) == seq![digit_char((index + 1) as nat)],
{
}

} // verus!

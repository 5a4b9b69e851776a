//! Choosing the download folders: the answers a folder dialog can give, the write test,
//! and the dialogue that ends in one combined folder or a video and a music folder.

use vstd::prelude::*;

use crate::text::{chars_of, concat_str, owned, trim, trim_str};

verus! {

/// One folder for both kinds of media, or one for each.
#[derive(Debug, Clone, Copy, PartialEq, Eq, Structural)]
pub enum PathChoice {
    /// A video folder and a music folder.
    Separated,
    /// One media folder.
    Combined,
}

/// Why a chosen folder cannot be used.
#[derive(Debug, Clone, Copy, PartialEq, Eq, Structural)]
pub enum PathError {
    /// The dialog gave an empty path.
    Empty,
    /// Nothing can be written in the folder.
    NotWritable,
    /// The path is not a folder.
    NotDirectory,
}

/// What a folder dialog gave.
#[derive(Debug, Clone, PartialEq, Eq)]
pub enum PathSelection {
    /// A usable folder.
    Selected(String),
    /// The user closed the dialog.
    Cancelled,
    /// The folder cannot be used.
    Invalid(PathError),
}

/// The folders the media go to.
#[derive(Debug, Clone, PartialEq, Eq)]
pub enum UserPath {
    /// A folder for videos and one for music.
    Separated { video_path: String, music_path: String },
    /// One folder for all media.
    Combined(String),
}

/// Which kind of media a folder is asked for.
#[derive(Debug, Clone, Copy, PartialEq, Eq, Structural)]
pub enum MediaKind {
    Video,
    Music,
    Media,
}

/// The message of the dialog that asks for a `kind` folder.
pub open spec fn prompt_text(kind: MediaKind) -> Seq<char> {
    match kind {
        MediaKind::Media => "Choose your Media path."@,
        MediaKind::Music => "Choose your Music path."@,
        MediaKind::Video => "Choose your Video path"@,
    }
}

/// The message of the dialog that asks for a `kind` folder.
pub fn path_prompt(kind: MediaKind) -> (p: String)
    ensures
        p@ == prompt_text(kind),
{
    match kind {
        MediaKind::Media => owned("Choose your Media path."),
        MediaKind::Music => owned("Choose your Music path."),
        MediaKind::Video => owned("Choose your Video path"),
    }
}

// ---------------------------------------------------------------------------
// The write test
// ---------------------------------------------------------------------------

/// The step of the write test that failed.
#[derive(Debug, Clone, Copy, PartialEq, Eq, Structural)]
pub enum FileTestStage {
    Creating,
    Deleting,
}

/// How the write test went.
#[derive(Debug, Clone, PartialEq, Eq)]
pub enum FileTestStatus {
    Success,
    Problem { stage: FileTestStage, description: String },
}

/// The outcome of the write test in a folder.
#[derive(Debug, Clone, PartialEq, Eq)]
pub struct WriteCheckResult {
    pub status: FileTestStatus,
    pub is_writable: bool,
}

/// The description of a failed step.
pub open spec fn problem_text(what: Seq<char>, error: Seq<char>, path: Seq<char>) -> Seq<char> {
    "Couldn't "@ + what + " the test file. Error details: "@ + error + " // Path: "@ + path
}

fn problem_description(what: &str, error: &str, path: &str) -> (d: String)
    ensures
        d@ == problem_text(what@, error@, path@),
{
    let a = concat_str("Couldn't ", what);
    let b = concat_str(a.as_str(), " the test file. Error details: ");
    let c = concat_str(b.as_str(), error);
    let e = concat_str(c.as_str(), " // Path: ");
    concat_str(e.as_str(), path)
}

/// The write test when the test file at `path` could not be created, for `error`.
pub fn creation_failed(error: &str, path: &str) -> (r: WriteCheckResult)
    ensures
        !r.is_writable,
        consistent(r),
        r.status matches FileTestStatus::Problem { stage, description } && stage == FileTestStage::Creating
            && description@ == problem_text("create"@, error@, path@),
{
    WriteCheckResult {
        status: FileTestStatus::Problem {
            stage: FileTestStage::Creating,
            description: problem_description("create", error, path),
        },
        is_writable: false,
    }
}

/// The write test once the test file at `path` was created; `error` tells why deleting it
/// failed, if it did.
pub fn deletion_finished(error: Option<&str>, path: &str) -> (r: WriteCheckResult)
    ensures
        r.is_writable,
        consistent(r),
        error is None ==> r.status == FileTestStatus::Success,
        error matches Some(e) ==> (r.status matches FileTestStatus::Problem { stage, description }
            && stage == FileTestStage::Deleting && description@ == problem_text(
            "delete"@,
            e@,
            path@,
        )),
{
    match error {
        None => WriteCheckResult { status: FileTestStatus::Success, is_writable: true },
        Some(e) => WriteCheckResult {
            status: FileTestStatus::Problem {
                stage: FileTestStage::Deleting,
                description: problem_description("delete", e, path),
            },
            is_writable: true,
        },
    }
}

/// The dialog's answer once the write test ran in the chosen folder: only a folder in which
/// the test file could not be created is refused.
pub open spec fn selection_for(path: String, status: FileTestStatus) -> PathSelection {
    match status {
        FileTestStatus::Problem { stage: FileTestStage::Creating, .. } => PathSelection::Invalid(
            PathError::NotWritable,
        ),
        _ => PathSelection::Selected(path),
    }
}

/// The dialog's answer for the folder `path`, given how the write test went there.
pub fn selection_from_check(path: String, status: &FileTestStatus) -> (s: PathSelection)
    ensures
        s == selection_for(path, *status),
{
    match status {
        FileTestStatus::Success => PathSelection::Selected(path),
        FileTestStatus::Problem { stage, .. } => match stage {
            FileTestStage::Creating => PathSelection::Invalid(PathError::NotWritable),
            FileTestStage::Deleting => PathSelection::Selected(path),
        },
    }
}


// ---------------------------------------------------------------------------
// The folder dialogue
// ---------------------------------------------------------------------------

/// Where the folder dialogue stands; each step asks one question.
#[derive(Debug, Clone, PartialEq, Eq)]
pub enum SelectionStep {
    /// Ask for the video folder.
    AskVideo,
    /// The video dialog was cancelled: offer one combined folder instead.
    OfferCombinedForVideo,
    /// Ask for the music folder.
    AskMusic { video: String },
    /// The music dialog was cancelled: offer one combined folder instead.
    OfferCombinedForMusic { video: String },
    /// Show both folders and ask whether they are right.
    ConfirmPaths { video: String, music: String },
    /// Ask which folder to choose again: `1` for video, `2` for music.
    ChooseReselect { video: String, music: String },
    /// Ask for the video folder again.
    ReaskVideo { video: String, music: String },
    /// The repeated video dialog was cancelled: offer one combined folder instead.
    OfferCombinedAfterReaskVideo { video: String, music: String },
    /// Ask for the music folder again.
    ReaskMusic { video: String, music: String },
    /// The repeated music dialog was cancelled: offer one combined folder instead.
    OfferCombinedAfterReaskMusic { video: String, music: String },
    /// Ask for the one media folder.
    AskMedia,
    /// The media dialog was cancelled: ask whether to try again.
    OfferReenterMedia,
    /// The dialogue is over, with the folders or without.
    Done(Option<UserPath>),
}

/// An answer to the question of a step.
#[derive(Debug, Clone, PartialEq, Eq)]
pub enum Reply {
    /// What a folder dialog gave.
    Path(PathSelection),
    /// A yes or a no.
    YesNo(bool),
    /// A line typed by the user.
    Text(String),
}

/// The question a step asks.
#[derive(Debug, Clone, PartialEq, Eq)]
pub enum Question {
    /// Open a folder dialog for this kind of media.
    PickFolder(MediaKind),
    /// Show the notice, if any, then ask this yes-or-no question.
    YesNo { notice: Option<String>, prompt: String },
    /// Show the two folders, then ask whether they are right.
    ConfirmPaths { video: String, music: String, prompt: String },
    /// Ask which folder to choose again.
    WhichToReselect,
    /// Nothing more to ask.
    Nothing,
}

/// The first step of the dialogue for separate folders.
pub fn start_separated() -> (s: SelectionStep)
    ensures
        s == SelectionStep::AskVideo,
{
    SelectionStep::AskVideo
}

/// The first step of the dialogue for one combined folder.
pub fn start_combined() -> (s: SelectionStep)
    ensures
        s == SelectionStep::AskMedia,
{
    SelectionStep::AskMedia
}

/// The line typed to choose the video folder again.
pub open spec fn is_reselect_video(t: Seq<char>) -> bool {
    trim(t) == seq!['1']
}

/// The line typed to choose the music folder again.
pub open spec fn is_reselect_music(t: Seq<char>) -> bool {
    trim(t) == seq!['2']
}

/// The step that follows `step` when `reply` answers it. A reply of the wrong kind, or any
/// reply once the dialogue is over, leaves the step as it is.
pub open spec fn next_step(step: SelectionStep, reply: Reply) -> SelectionStep {
    match (step, reply) {
        (SelectionStep::AskVideo, Reply::Path(sel)) => match sel {
            PathSelection::Selected(p) => SelectionStep::AskMusic { video: p },
            PathSelection::Cancelled => SelectionStep::OfferCombinedForVideo,
            PathSelection::Invalid(_) => SelectionStep::AskVideo,
        },
        (SelectionStep::OfferCombinedForVideo, Reply::YesNo(yes)) => if yes {
            SelectionStep::AskMedia
        } else {
            SelectionStep::AskVideo
        },
        (SelectionStep::AskMusic { video }, Reply::Path(sel)) => match sel {
            PathSelection::Selected(p) => SelectionStep::ConfirmPaths { video, music: p },
            PathSelection::Cancelled => SelectionStep::OfferCombinedForMusic { video },
            PathSelection::Invalid(_) => SelectionStep::AskMusic { video },
        },
        (SelectionStep::OfferCombinedForMusic { video }, Reply::YesNo(yes)) => if yes {
            SelectionStep::AskMedia
        } else {
            SelectionStep::AskMusic { video }
        },
        (SelectionStep::ConfirmPaths { video, music }, Reply::YesNo(yes)) => if yes {
            SelectionStep::Done(Some(UserPath::Separated { video_path: video, music_path: music }))
        } else {
            SelectionStep::ChooseReselect { video, music }
        },
        (SelectionStep::ChooseReselect { video, music }, Reply::Text(t)) => if is_reselect_video(
            t@,
        ) {
            SelectionStep::ReaskVideo { video, music }
        } else if is_reselect_music(t@) {
            SelectionStep::ReaskMusic { video, music }
        } else {
            SelectionStep::ChooseReselect { video, music }
        },
        (SelectionStep::ReaskVideo { video, music }, Reply::Path(sel)) => match sel {
            PathSelection::Selected(p) => SelectionStep::ConfirmPaths { video: p, music },
            PathSelection::Cancelled => SelectionStep::OfferCombinedAfterReaskVideo { video, music },
            PathSelection::Invalid(_) => SelectionStep::Done(None),
        },
        (SelectionStep::OfferCombinedAfterReaskVideo { video, music }, Reply::YesNo(yes)) => if yes {
            SelectionStep::AskMedia
        } else {
            SelectionStep::ChooseReselect { video, music }
        },
        (SelectionStep::ReaskMusic { video, music }, Reply::Path(sel)) => match sel {
            PathSelection::Selected(p) => SelectionStep::ConfirmPaths { video, music: p },
            PathSelection::Cancelled => SelectionStep::OfferCombinedAfterReaskMusic { video, music },
            PathSelection::Invalid(_) => SelectionStep::Done(None),
        },
        (SelectionStep::OfferCombinedAfterReaskMusic { video, music }, Reply::YesNo(yes)) => if yes {
            SelectionStep::AskMedia
        } else {
            SelectionStep::ChooseReselect { video, music }
        },
        (SelectionStep::AskMedia, Reply::Path(sel)) => match sel {
            PathSelection::Selected(p) => SelectionStep::Done(Some(UserPath::Combined(p))),
            PathSelection::Cancelled => SelectionStep::OfferReenterMedia,
            PathSelection::Invalid(_) => SelectionStep::Done(None),
        },
        (SelectionStep::OfferReenterMedia, Reply::YesNo(yes)) => if yes {
            SelectionStep::AskMedia
        } else {
            SelectionStep::Done(None)
        },
        (s, _) => s,
    }
}

fn is_single_char(t: &str, c: char) -> (b: bool)
    ensures
        b == (trim(t@) == seq![c]),
{
    let trimmed = trim_str(t);
    let v = chars_of(trimmed.as_str());
    if v.len() == 1 && v[0] == c {
        assert(v@ == seq![c]);
        true
    } else {
        proof {
            if v@ == seq![c] {
                assert(v@[0] == c);
            }
        }
        false
    }
}

/// Advances the dialogue by one answer.
pub fn advance(step: SelectionStep, reply: Reply) -> (next: SelectionStep)
    ensures
        next == next_step(step, reply),
{
    match (step, reply) {
        (SelectionStep::AskVideo, Reply::Path(sel)) => match sel {
            PathSelection::Selected(p) => SelectionStep::AskMusic { video: p },
            PathSelection::Cancelled => SelectionStep::OfferCombinedForVideo,
            PathSelection::Invalid(_) => SelectionStep::AskVideo,
        },
        (SelectionStep::OfferCombinedForVideo, Reply::YesNo(yes)) => if yes {
            SelectionStep::AskMedia
        } else {
            SelectionStep::AskVideo
        },
        (SelectionStep::AskMusic { video }, Reply::Path(sel)) => match sel {
            PathSelection::Selected(p) => SelectionStep::ConfirmPaths { video, music: p },
            PathSelection::Cancelled => SelectionStep::OfferCombinedForMusic { video },
            PathSelection::Invalid(_) => SelectionStep::AskMusic { video },
        },
        (SelectionStep::OfferCombinedForMusic { video }, Reply::YesNo(yes)) => if yes {
            SelectionStep::AskMedia
        } else {
            SelectionStep::AskMusic { video }
        },
        (SelectionStep::ConfirmPaths { video, music }, Reply::YesNo(yes)) => if yes {
            SelectionStep::Done(Some(UserPath::Separated { video_path: video, music_path: music }))
        } else {
            SelectionStep::ChooseReselect { video, music }
        },
        (SelectionStep::ChooseReselect { video, music }, Reply::Text(t)) => if is_single_char(
            t.as_str(),
            '1',
        ) {
            SelectionStep::ReaskVideo { video, music }
        } else if is_single_char(t.as_str(), '2') {
            SelectionStep::ReaskMusic { video, music }
        } else {
            SelectionStep::ChooseReselect { video, music }
        },
        (SelectionStep::ReaskVideo { video, music }, Reply::Path(sel)) => match sel {
            PathSelection::Selected(p) => SelectionStep::ConfirmPaths { video: p, music },
            PathSelection::Cancelled => SelectionStep::OfferCombinedAfterReaskVideo { video, music },
            PathSelection::Invalid(_) => SelectionStep::Done(None),
        },
        (SelectionStep::OfferCombinedAfterReaskVideo { video, music }, Reply::YesNo(yes)) => if yes {
            SelectionStep::AskMedia
        } else {
            SelectionStep::ChooseReselect { video, music }
        },
        (SelectionStep::ReaskMusic { video, music }, Reply::Path(sel)) => match sel {
            PathSelection::Selected(p) => SelectionStep::ConfirmPaths { video, music: p },
            PathSelection::Cancelled => SelectionStep::OfferCombinedAfterReaskMusic { video, music },
            PathSelection::Invalid(_) => SelectionStep::Done(None),
        },
        (SelectionStep::OfferCombinedAfterReaskMusic { video, music }, Reply::YesNo(yes)) => if yes {
            SelectionStep::AskMedia
        } else {
            SelectionStep::ChooseReselect { video, music }
        },
        (SelectionStep::AskMedia, Reply::Path(sel)) => match sel {
            PathSelection::Selected(p) => SelectionStep::Done(Some(UserPath::Combined(p))),
            PathSelection::Cancelled => SelectionStep::OfferReenterMedia,
            PathSelection::Invalid(_) => SelectionStep::Done(None),
        },
        (SelectionStep::OfferReenterMedia, Reply::YesNo(yes)) => if yes {
            SelectionStep::AskMedia
        } else {
            SelectionStep::Done(None)
        },
        (s, _) => s,
    }
}


/// A yes-or-no question with this prompt and no notice.
pub open spec fn is_plain_yes_no(q: Question, prompt: Seq<char>) -> bool {
    q matches Question::YesNo { notice, prompt: p } && notice is None && p@ == prompt
}

/// `q` is the question that `step` asks.
pub open spec fn asks(step: SelectionStep, q: Question) -> bool {
    match step {
        SelectionStep::AskVideo => q == Question::PickFolder(MediaKind::Video),
        SelectionStep::ReaskVideo { .. } => q == Question::PickFolder(MediaKind::Video),
        SelectionStep::AskMusic { .. } => q == Question::PickFolder(MediaKind::Music),
        SelectionStep::ReaskMusic { .. } => q == Question::PickFolder(MediaKind::Music),
        SelectionStep::AskMedia => q == Question::PickFolder(MediaKind::Media),
        SelectionStep::OfferCombinedForVideo => is_plain_yes_no(
            q,
            "You've cancelled the Video dialog. Would you like to use a combined path? (Y/N)"@,
        ),
        SelectionStep::OfferCombinedForMusic { .. } => is_plain_yes_no(
            q,
            "You've cancelled the Music dialog. Would you like to use a combined path? (Y/N)"@,
        ),
        SelectionStep::OfferCombinedAfterReaskVideo { .. } => is_plain_yes_no(
            q,
            "You've cancelled the Video's dialog. Would you like to have combined path ? (Y/N)"@,
        ),
        SelectionStep::OfferCombinedAfterReaskMusic { .. } => is_plain_yes_no(
            q,
            "You've cancelled Music's dialog. Would you like to have combined path ? (Y/N)"@,
        ),
        SelectionStep::OfferReenterMedia => q matches Question::YesNo { notice, prompt } && notice
            matches Some(n) && n@ == "You've cancelled the Media dialog."@ && prompt@
            == "Would you like to re-enter your path? (Y/N)"@,
        SelectionStep::ConfirmPaths { video, music } => q matches Question::ConfirmPaths {
            video: v,
            music: m,
            prompt,
        } && v@ == video@ && m@ == music@ && prompt@ == "Are those path correct ? (Y/N)"@,
        SelectionStep::ChooseReselect { .. } => q == Question::WhichToReselect,
        SelectionStep::Done(_) => q == Question::Nothing,
    }
}

fn plain_yes_no(prompt: &str) -> (q: Question)
    ensures
        is_plain_yes_no(q, prompt@),
{
    Question::YesNo { notice: None, prompt: owned(prompt) }
}

/// The question that `step` asks.
pub fn question(step: &SelectionStep) -> (q: Question)
    ensures
        asks(*step, q),
{
    match step {
        SelectionStep::AskVideo => Question::PickFolder(MediaKind::Video),
        SelectionStep::ReaskVideo { .. } => Question::PickFolder(MediaKind::Video),
        SelectionStep::AskMusic { .. } => Question::PickFolder(MediaKind::Music),
        SelectionStep::ReaskMusic { .. } => Question::PickFolder(MediaKind::Music),
        SelectionStep::AskMedia => Question::PickFolder(MediaKind::Media),
        SelectionStep::OfferCombinedForVideo => plain_yes_no(
            "You've cancelled the Video dialog. Would you like to use a combined path? (Y/N)",
        ),
        SelectionStep::OfferCombinedForMusic { .. } => plain_yes_no(
            "You've cancelled the Music dialog. Would you like to use a combined path? (Y/N)",
        ),
        SelectionStep::OfferCombinedAfterReaskVideo { .. } => plain_yes_no(
            "You've cancelled the Video's dialog. Would you like to have combined path ? (Y/N)",
        ),
        SelectionStep::OfferCombinedAfterReaskMusic { .. } => plain_yes_no(
            "You've cancelled Music's dialog. Would you like to have combined path ? (Y/N)",
        ),
        SelectionStep::OfferReenterMedia => Question::YesNo {
            notice: Some(owned("You've cancelled the Media dialog.")),
            prompt: owned("Would you like to re-enter your path? (Y/N)"),
        },
        SelectionStep::ConfirmPaths { video, music } => Question::ConfirmPaths {
            video: owned(video.as_str()),
            music: owned(music.as_str()),
            prompt: owned("Are those path correct ? (Y/N)"),
        },
        SelectionStep::ChooseReselect { .. } => Question::WhichToReselect,
        SelectionStep::Done(_) => Question::Nothing,
    }
}

// ---------------------------------------------------------------------------
// Laws of the dialogue and of the write test
// ---------------------------------------------------------------------------

/// The folders a step holds.
pub open spec fn folders(step: SelectionStep) -> Set<String> {
    match step {
        SelectionStep::AskMusic { video } => set![video],
        SelectionStep::OfferCombinedForMusic { video } => set![video],
        SelectionStep::ConfirmPaths { video, music } => set![video, music],
        SelectionStep::ChooseReselect { video, music } => set![video, music],
        SelectionStep::ReaskVideo { video, music } => set![video, music],
        SelectionStep::OfferCombinedAfterReaskVideo { video, music } => set![video, music],
        SelectionStep::ReaskMusic { video, music } => set![video, music],
        SelectionStep::OfferCombinedAfterReaskMusic { video, music } => set![video, music],
        SelectionStep::Done(Some(UserPath::Separated { video_path, music_path })) => set![
            video_path,
            music_path,
        ],
        SelectionStep::Done(Some(UserPath::Combined(p))) => set![p],
        _ => Set::empty(),
    }
}

/// Every folder the dialogue holds was given by a folder dialog: a step keeps the folders it
/// had and adds at most the one that the answer selected.
pub proof fn law_folders_come_from_dialogs(step: SelectionStep, reply: Reply, p: String)
    requires
        folders(next_step(step, reply)).contains(p),
    ensures
        folders(step).contains(p) || reply == Reply::Path(PathSelection::Selected(p)),
{
}

/// Separate folders are only settled by a yes to the question that shows both of them.
pub proof fn law_separated_folders_are_confirmed(
    step: SelectionStep,
    reply: Reply,
    video: String,
    music: String,
)
    requires
        !(step is Done),
        next_step(step, reply) == SelectionStep::Done(
            Some(UserPath::Separated { video_path: video, music_path: music }),
        ),
    ensures
        step == (SelectionStep::ConfirmPaths { video, music }),
        reply == Reply::YesNo(true),
{
}

/// The combined folder is settled as soon as the media dialog selects it.
pub proof fn law_combined_folder_is_selected(step: SelectionStep, reply: Reply, p: String)
    requires
        !(step is Done),
        next_step(step, reply) == SelectionStep::Done(Some(UserPath::Combined(p))),
    ensures
        step == SelectionStep::AskMedia,
        reply == Reply::Path(PathSelection::Selected(p)),
{
}

/// The dialogue ends without folders only for an unusable folder in a repeated or media
/// dialog, or when the user declines to choose the media folder again.
pub proof fn law_gives_up_only_when_told(step: SelectionStep, reply: Reply)
    requires
        !(step is Done),
        next_step(step, reply) == SelectionStep::Done(None),
    ensures
        (reply matches Reply::Path(PathSelection::Invalid(_)) && (step is ReaskVideo
            || step is ReaskMusic || step is AskMedia)) || (step == SelectionStep::OfferReenterMedia
            && reply == Reply::YesNo(false)),
{
}

/// A cancelled dialog never ends the dialogue.
pub proof fn law_cancel_never_ends(step: SelectionStep)
    requires
        !(step is Done),
    ensures
        !(next_step(step, Reply::Path(PathSelection::Cancelled)) is Done),
{
}

/// An unusable first choice of a folder is asked for again.
pub proof fn law_first_choice_retried(step: SelectionStep, e: PathError)
    requires
        step is AskVideo || step is AskMusic,
    ensures
        next_step(step, Reply::Path(PathSelection::Invalid(e))) == step,
{
}

/// Once over, the dialogue stays over.
pub proof fn law_done_is_final(outcome: Option<UserPath>, reply: Reply)
    ensures
        next_step(SelectionStep::Done(outcome), reply) == SelectionStep::Done(outcome),
{
}

/// A write test is consistent when it calls the folder writable exactly when the test file
/// could be created.
pub open spec fn consistent(r: WriteCheckResult) -> bool {
    r.is_writable <==> !(r.status matches FileTestStatus::Problem { stage, .. } && stage
        == FileTestStage::Creating)
}

/// A folder is accepted exactly when the write test calls it writable, whether or not the
/// test file could be deleted afterwards; otherwise it is refused as not writable.
pub proof fn law_accepted_iff_writable(path: String, r: WriteCheckResult)
    requires
        consistent(r),
    ensures
        r.is_writable ==> selection_for(path, r.status) == PathSelection::Selected(path),
        !r.is_writable ==> selection_for(path, r.status) == PathSelection::Invalid(
            PathError::NotWritable,
        ),
{
}


/// A yes to any offer of one combined folder goes on to the media folder dialog.
pub proof fn law_yes_to_combined_offer_asks_media(video: String, music: String)
    ensures
        next_step(SelectionStep::OfferCombinedForVideo, Reply::YesNo(true)) == SelectionStep::AskMedia,
        next_step(SelectionStep::OfferCombinedForMusic { video }, Reply::YesNo(true))
            == SelectionStep::AskMedia,
        next_step(SelectionStep::OfferCombinedAfterReaskVideo { video, music }, Reply::YesNo(true))
            == SelectionStep::AskMedia,
        next_step(SelectionStep::OfferCombinedAfterReaskMusic { video, music }, Reply::YesNo(true))
            == SelectionStep::AskMedia,
{
}

/// A no to an offer of one combined folder goes back: to the same folder dialog during the
/// first choice, to the menu of folders to choose again later.
pub proof fn law_no_to_combined_offer_goes_back(video: String, music: String)
    ensures
        next_step(SelectionStep::OfferCombinedForVideo, Reply::YesNo(false)) == SelectionStep::AskVideo,
        next_step(SelectionStep::OfferCombinedForMusic { video }, Reply::YesNo(false))
            == (SelectionStep::AskMusic { video }),
        next_step(SelectionStep::OfferCombinedAfterReaskVideo { video, music }, Reply::YesNo(false))
            == (SelectionStep::ChooseReselect { video, music }),
        next_step(SelectionStep::OfferCombinedAfterReaskMusic { video, music }, Reply::YesNo(false))
            == (SelectionStep::ChooseReselect { video, music }),
{
}

/// A cancelled dialog leads to the offer that belongs to it.
pub proof fn law_cancel_leads_to_offer(video: String, music: String)
    ensures
        next_step(SelectionStep::AskVideo, Reply::Path(PathSelection::Cancelled))
            == SelectionStep::OfferCombinedForVideo,
        next_step(SelectionStep::AskMusic { video }, Reply::Path(PathSelection::Cancelled))
            == (SelectionStep::OfferCombinedForMusic { video }),
        next_step(SelectionStep::ReaskVideo { video, music }, Reply::Path(PathSelection::Cancelled))
            == (SelectionStep::OfferCombinedAfterReaskVideo { video, music }),
        next_step(SelectionStep::ReaskMusic { video, music }, Reply::Path(PathSelection::Cancelled))
            == (SelectionStep::OfferCombinedAfterReaskMusic { video, music }),
        next_step(SelectionStep::AskMedia, Reply::Path(PathSelection::Cancelled))
            == SelectionStep::OfferReenterMedia,
{
}

/// A selected folder takes the place it was asked for, and every other folder is kept.
pub proof fn law_selected_folder_is_used(video: String, music: String, p: String)
    ensures
        next_step(SelectionStep::AskVideo, Reply::Path(PathSelection::Selected(p)))
            == (SelectionStep::AskMusic { video: p }),
        next_step(SelectionStep::AskMusic { video }, Reply::Path(PathSelection::Selected(p)))
            == (SelectionStep::ConfirmPaths { video, music: p }),
        next_step(SelectionStep::ReaskVideo { video, music }, Reply::Path(PathSelection::Selected(p)))
            == (SelectionStep::ConfirmPaths { video: p, music }),
        next_step(SelectionStep::ReaskMusic { video, music }, Reply::Path(PathSelection::Selected(p)))
            == (SelectionStep::ConfirmPaths { video, music: p }),
        next_step(SelectionStep::AskMedia, Reply::Path(PathSelection::Selected(p)))
            == SelectionStep::Done(Some(UserPath::Combined(p))),
{
}

/// An unusable folder ends the dialogue without folders in a repeated or media dialog.
pub proof fn law_unusable_folder_later_ends(video: String, music: String, e: PathError)
    ensures
        next_step(SelectionStep::ReaskVideo { video, music }, Reply::Path(PathSelection::Invalid(e)))
            == SelectionStep::Done(None),
        next_step(SelectionStep::ReaskMusic { video, music }, Reply::Path(PathSelection::Invalid(e)))
            == SelectionStep::Done(None),
        next_step(SelectionStep::AskMedia, Reply::Path(PathSelection::Invalid(e)))
            == SelectionStep::Done(None),
{
}

/// Confirming the two folders settles them; refusing leads to the menu of folders to choose
/// again.
pub proof fn law_confirmation(video: String, music: String)
    ensures
        next_step(SelectionStep::ConfirmPaths { video, music }, Reply::YesNo(true))
            == SelectionStep::Done(Some(UserPath::Separated { video_path: video, music_path: music })),
        next_step(SelectionStep::ConfirmPaths { video, music }, Reply::YesNo(false))
            == (SelectionStep::ChooseReselect { video, music }),
{
}

/// In the menu, `1` chooses the video folder again, `2` the music folder, and anything else
/// shows the menu again; white space around the answer does not matter.
pub proof fn law_reselect_menu(video: String, music: String, t: String)
    ensures
        trim(t@) == seq!['1'] ==> next_step(SelectionStep::ChooseReselect { video, music }, Reply::Text(t))
            == (SelectionStep::ReaskVideo { video, music }),
        trim(t@) == seq!['2'] ==> next_step(SelectionStep::ChooseReselect { video, music }, Reply::Text(t))
            == (SelectionStep::ReaskMusic { video, music }),
        trim(t@) != seq!['1'] && trim(t@) != seq!['2'] ==> next_step(
            SelectionStep::ChooseReselect { video, music },
            Reply::Text(t),
        ) == (SelectionStep::ChooseReselect { video, music }),
{
    if trim(t@) == seq!['2'] {
        assert(trim(t@)[0] == '2');
    }
}

/// After a cancelled media dialog, a yes asks for the media folder again and a no ends the
/// dialogue without folders.
pub proof fn law_reenter_media()
    ensures
        next_step(SelectionStep::OfferReenterMedia, Reply::YesNo(true)) == SelectionStep::AskMedia,
        next_step(SelectionStep::OfferReenterMedia, Reply::YesNo(false)) == SelectionStep::Done(None),
{
}

/// Each folder dialog is opened for the kind of media its step asks for.
pub proof fn law_dialog_kinds(video: String, music: String, q: Question)
    ensures
        asks(SelectionStep::AskVideo, q) ==> q == Question::PickFolder(MediaKind::Video),
        asks(SelectionStep::ReaskVideo { video, music }, q) ==> q == Question::PickFolder(MediaKind::Video),
        asks(SelectionStep::AskMusic { video }, q) ==> q == Question::PickFolder(MediaKind::Music),
        asks(SelectionStep::ReaskMusic { video, music }, q) ==> q == Question::PickFolder(MediaKind::Music),
        asks(SelectionStep::AskMedia, q) ==> q == Question::PickFolder(MediaKind::Media),
        asks(SelectionStep::ChooseReselect { video, music }, q) ==> q == Question::WhichToReselect,
        asks(SelectionStep::ConfirmPaths { video, music }, q) ==> (q matches Question::ConfirmPaths {
            video: v,
            music: m,
            ..
        } && v@ == video@ && m@ == music@),
{
}

/// The offers and confirmations ask these questions.
pub proof fn law_offer_prompts(video: String, music: String, q: Question)
    ensures
        asks(SelectionStep::OfferCombinedForVideo, q) ==> (q matches Question::YesNo { prompt, .. }
            && prompt@ == "You've cancelled the Video dialog. Would you like to use a combined path? (Y/N)"@),
        asks(SelectionStep::OfferCombinedForMusic { video }, q) ==> (q matches Question::YesNo {
            prompt,
            ..
        } && prompt@ == "You've cancelled the Music dialog. Would you like to use a combined path? (Y/N)"@),
        asks(SelectionStep::OfferCombinedAfterReaskVideo { video, music }, q) ==> (q matches Question::YesNo {
            prompt,
            ..
        } && prompt@ == "You've cancelled the Video's dialog. Would you like to have combined path ? (Y/N)"@),
        asks(SelectionStep::OfferCombinedAfterReaskMusic { video, music }, q) ==> (q matches Question::YesNo {
            prompt,
            ..
        } && prompt@ == "You've cancelled Music's dialog. Would you like to have combined path ? (Y/N)"@),
        asks(SelectionStep::OfferReenterMedia, q) ==> (q matches Question::YesNo { prompt, .. }
            && prompt@ == "Would you like to re-enter your path? (Y/N)"@),
{
}

/// The folder dialogs say which folder they want.
pub proof fn law_path_prompts()
    ensures
        prompt_text(MediaKind::Media) == "Choose your Media path."@,
        prompt_text(MediaKind::Music) == "Choose your Music path."@,
        prompt_text(MediaKind::Video) == "Choose your Video path"@,
{
}

/// A folder is refused, as not writable, only when the test file could not be created in it;
/// a failed deletion of the test file does not refuse it.
pub proof fn law_selection_after_write_test(path: String, d: String)
    ensures
        selection_for(path, FileTestStatus::Success) == PathSelection::Selected(path),
        selection_for(
            path,
            FileTestStatus::Problem { stage: FileTestStage::Deleting, description: d },
        ) == PathSelection::Selected(path),
        selection_for(
            path,
            FileTestStatus::Problem { stage: FileTestStage::Creating, description: d },
        ) == PathSelection::Invalid(PathError::NotWritable),
{
}

/// A failed step is described by what failed, the error and the path of the test file.
pub proof fn law_problem_text(what: Seq<char>, error: Seq<char>, path: Seq<char>)
    ensures
        problem_text(what, error, path) == "Couldn't "@ + what + " the test file. Error details: "@
            + error + " // Path: "@ + path,
{
}

} // verus!

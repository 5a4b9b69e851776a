//! Reading the user's answers: retries after failed reads, and yes-or-no questions.

use vstd::prelude::*;

use crate::setup::PathChoice;
use crate::text::{chars_of, concat_str, owned, to_uppercase, trim, trim_str, uppercase};

verus! {

/// How many failed reads in a row end the program.
pub const MAX_READ_FAILURES: i32 = 3;

/// What to do after a failed read.
#[derive(Debug, Clone, Copy, PartialEq, Eq, Structural)]
pub enum AfterReadError {
    /// Ask again; this many reads have failed so far.
    Retry(i32),
    /// Too many failures: tell the user and exit.
    GiveUp,
}

/// The count of failed reads while waiting for one line.
pub struct ReadAttempts {
    failures: i32,
}

impl ReadAttempts {
    #[verifier::type_invariant]
    spec fn inv(self) -> bool {
        0 <= self.failures <= MAX_READ_FAILURES
    }

    /// How many reads have failed.
    pub closed spec fn failures(self) -> int {
        self.failures as int
    }

    /// No read has failed yet.
    pub fn new() -> (r: Self)
        ensures
            r.failures() == 0,
    {
        ReadAttempts { failures: 0 }
    }

    /// Counts one more failed read and says whether to ask again. The third failure gives up;
    /// after that, every further call gives up too.
    pub fn on_error(&mut self) -> (next: AfterReadError)
        ensures
            old(self).failures() < MAX_READ_FAILURES ==> final(self).failures() == old(self).failures() + 1,
            old(self).failures() >= MAX_READ_FAILURES ==> final(self).failures() == old(self).failures(),
            next == (if final(self).failures() < MAX_READ_FAILURES {
                AfterReadError::Retry(final(self).failures() as i32)
            } else {
                AfterReadError::GiveUp
            }),
            0 <= final(self).failures() <= MAX_READ_FAILURES,
    {
        proof {
            use_type_invariant(&*self);
        }
        if self.failures < MAX_READ_FAILURES {
            *self = ReadAttempts { failures: self.failures + 1 };
        }
        if self.failures < MAX_READ_FAILURES {
            AfterReadError::Retry(self.failures)
        } else {
            AfterReadError::GiveUp
        }
    }
}

/// The line the user typed, without surrounding white space.
pub fn accepted_input(line: &str) -> (r: String)
    ensures
        r@ == trim(line@),
{
    trim_str(line)
}

/// The answer that an upper-cased line gives to a yes-or-no question: exactly `Y` or `N`.
pub open spec fn yes_no(upper: Seq<char>) -> Option<bool> {
    if upper == seq!['Y'] {
        Some(true)
    } else if upper == seq!['N'] {
        Some(false)
    } else {
        None
    }
}

/// The answer an already upper-cased line gives.
pub fn yes_no_of_uppercased(upper: &str) -> (a: Option<bool>)
    ensures
        a == yes_no(upper@),
{
    let v = chars_of(upper);
    if v.len() == 1 && v[0] == 'Y' {
        assert(v@ == seq!['Y']);
        Some(true)
    } else if v.len() == 1 && v[0] == 'N' {
        assert(v@ == seq!['N']);
        Some(false)
    } else {
        proof {
            if v@ == seq!['Y'] || v@ == seq!['N'] {
                assert(v@[0] == 'Y' || v@[0] == 'N');
            }
        }
        None
    }
}

/// The answer a line (read and trimmed) gives to a yes-or-no question; `None` asks again.
pub fn confirmation_answer(input: &str) -> (a: Option<bool>)
    ensures
        a == yes_no(uppercase(input@)),
{
    let upper = to_uppercase(input);
    yes_no_of_uppercased(upper.as_str())
}

/// The folder layout an upper-cased answer asks for, once trimmed: `Y` for separate folders,
/// `N` for one.
pub open spec fn choice_of(upper: Seq<char>) -> Option<PathChoice> {
    match yes_no(trim(upper)) {
        Some(true) => Some(PathChoice::Separated),
        Some(false) => Some(PathChoice::Combined),
        None => None,
    }
}

/// The layout an already upper-cased answer asks for.
pub fn choice_of_uppercased(upper: &str) -> (c: Option<PathChoice>)
    ensures
        c == choice_of(upper@),
{
    let t = trim_str(upper);
    match yes_no_of_uppercased(t.as_str()) {
        Some(true) => Some(PathChoice::Separated),
        Some(false) => Some(PathChoice::Combined),
        None => None,
    }
}

/// The answers to the first question of the folder setup. Every line read is appended to
/// the same buffer, which is never cleared, and the whole buffer is judged each time.
pub struct ChoiceReader {
    buffer: String,
}

impl ChoiceReader {
    /// Everything read so far.
    pub closed spec fn buffer(self) -> Seq<char> {
        self.buffer@
    }

    /// Nothing read yet.
    pub fn new() -> (r: Self)
        ensures
            r.buffer() == Seq::<char>::empty(),
    {
        ChoiceReader { buffer: String::new() }
    }

    /// Appends what one read gave (nothing, when the read failed) and judges the buffer.
    pub fn read(&mut self, appended: &str) -> (c: Option<PathChoice>)
        ensures
            final(self).buffer() == old(self).buffer() + appended@,
            c == choice_of(uppercase(final(self).buffer())),
    {
        let joined = concat_str(self.buffer.as_str(), appended);
        self.buffer = joined;
        let upper = to_uppercase(self.buffer.as_str());
        choice_of_uppercased(upper.as_str())
    }
}

/// The titles of the folder dialogs that the setup opens for a layout.
pub open spec fn dialog_title_list(choice: PathChoice) -> Seq<Seq<char>> {
    match choice {
        PathChoice::Separated => seq!["Choose your Video folder."@, "Choose your Music folder."@],
        PathChoice::Combined => seq!["Choose your Media folder."@],
    }
}

/// The titles of the folder dialogs opened for `choice`, in order.
pub fn dialog_titles(choice: PathChoice) -> (titles: Vec<String>)
    ensures
        titles.deep_view() == dialog_title_list(choice),
{
    let mut titles: Vec<String> = Vec::new();
    match choice {
        PathChoice::Separated => {
            titles.push(owned("Choose your Video folder."));
            titles.push(owned("Choose your Music folder."));
        },
        PathChoice::Combined => {
            titles.push(owned("Choose your Media folder."));
        },
    }
    assert(titles.deep_view() =~= dialog_title_list(choice));
    titles
}


/// Three failed reads in a row end the program.
pub proof fn law_three_failures()
    ensures
        MAX_READ_FAILURES == 3,
{
}

/// A yes-or-no answer is yes exactly for `Y` and no exactly for `N`, once upper-cased;
/// nothing else answers.
pub proof fn law_yes_no(upper: Seq<char>)
    ensures
        yes_no(upper) == Some(true) <==> upper == seq!['Y'],
        yes_no(upper) == Some(false) <==> upper == seq!['N'],
        yes_no(upper) is None <==> (upper != seq!['Y'] && upper != seq!['N']),
{
    if upper == seq!['N'] {
        assert(upper[0] == 'N');
    }
}

/// The first setup question asks for separate folders on `Y` and for one folder on `N`,
/// white space around the upper-cased buffer aside.
pub proof fn law_layout_answer(upper: Seq<char>)
    ensures
        choice_of(upper) == Some(PathChoice::Separated) <==> trim(upper) == seq!['Y'],
        choice_of(upper) == Some(PathChoice::Combined) <==> trim(upper) == seq!['N'],
{
    law_yes_no(trim(upper));
}

/// Separate folders are asked for video first, then music; one folder is asked for as media.
pub proof fn law_dialog_titles()
    ensures
        dialog_title_list(PathChoice::Separated) == seq![
            "Choose your Video folder."@,
            "Choose your Music folder."@,
        ],
        dialog_title_list(PathChoice::Combined) == seq!["Choose your Media folder."@],
{
}

} // verus!

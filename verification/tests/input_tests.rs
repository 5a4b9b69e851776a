use media_downloader::input::{
    accepted_input, choice_of_uppercased, confirmation_answer, dialog_titles, yes_no_of_uppercased,
    AfterReadError, ChoiceReader, ReadAttempts,
};
use media_downloader::setup::PathChoice;

#[test]
fn third_failed_read_gives_up() {
    let mut r = ReadAttempts::new();
    assert_eq!(r.on_error(), AfterReadError::Retry(1));
    assert_eq!(r.on_error(), AfterReadError::Retry(2));
    assert_eq!(r.on_error(), AfterReadError::GiveUp);
    assert_eq!(r.on_error(), AfterReadError::GiveUp);
}

#[test]
fn accepted_input_is_trimmed() {
    assert_eq!(accepted_input("  1\r\n"), "1");
}

#[test]
fn yes_no_answers() {
    assert_eq!(confirmation_answer("y"), Some(true));
    assert_eq!(confirmation_answer("Y"), Some(true));
    assert_eq!(confirmation_answer("n"), Some(false));
    assert_eq!(confirmation_answer("N"), Some(false));
    assert_eq!(confirmation_answer("yes"), None);
    assert_eq!(confirmation_answer(""), None);
    assert_eq!(yes_no_of_uppercased("Y"), Some(true));
    assert_eq!(yes_no_of_uppercased("y"), None);
    assert_eq!(yes_no_of_uppercased("N"), Some(false));
}

#[test]
fn layout_choice() {
    assert_eq!(choice_of_uppercased(" Y\n"), Some(PathChoice::Separated));
    assert_eq!(choice_of_uppercased("N"), Some(PathChoice::Combined));
    assert_eq!(choice_of_uppercased("X"), None);
}

#[test]
fn choice_reader_keeps_everything_read() {
    let mut r = ChoiceReader::new();
    assert_eq!(r.read("y\n"), Some(PathChoice::Separated));

    let mut r = ChoiceReader::new();
    assert_eq!(r.read("\n"), None);
    // only white space was read before, so the answer still counts
    assert_eq!(r.read("n\n"), Some(PathChoice::Combined));

    let mut r = ChoiceReader::new();
    assert_eq!(r.read("x\n"), None);
    // the wrong answer stays in the buffer, so no later answer is accepted
    assert_eq!(r.read("y\n"), None);
    assert_eq!(r.read("n\n"), None);

    let mut r = ChoiceReader::new();
    // a failed read adds nothing
    assert_eq!(r.read(""), None);
    assert_eq!(r.read("Y"), Some(PathChoice::Separated));
}

#[test]
fn dialog_titles_per_layout() {
    assert_eq!(
        dialog_titles(PathChoice::Separated),
        vec!["Choose your Video folder.", "Choose your Music folder."]
    );
    assert_eq!(dialog_titles(PathChoice::Combined), vec!["Choose your Media folder."]);
}

use media_downloader::setup::{
    advance, creation_failed, deletion_finished, path_prompt, question, selection_from_check,
    start_combined, start_separated, FileTestStage, FileTestStatus, MediaKind, PathError,
    PathSelection, Question, Reply, SelectionStep, UserPath,
};

fn sel(p: &str) -> Reply {
    Reply::Path(PathSelection::Selected(p.to_string()))
}

#[test]
fn prompts_of_the_dialogs() {
    assert_eq!(path_prompt(MediaKind::Media), "Choose your Media path.");
    assert_eq!(path_prompt(MediaKind::Music), "Choose your Music path.");
    assert_eq!(path_prompt(MediaKind::Video), "Choose your Video path");
}

#[test]
fn write_test_results() {
    let r = creation_failed("denied", "D:/x/test_1");
    assert!(!r.is_writable);
    assert_eq!(
        r.status,
        FileTestStatus::Problem {
            stage: FileTestStage::Creating,
            description: "Couldn't create the test file. Error details: denied // Path: D:/x/test_1"
                .to_string(),
        }
    );
    let ok = deletion_finished(None, "p");
    assert!(ok.is_writable);
    assert_eq!(ok.status, FileTestStatus::Success);
    let half = deletion_finished(Some("busy"), "p");
    assert!(half.is_writable);
    assert_eq!(
        half.status,
        FileTestStatus::Problem {
            stage: FileTestStage::Deleting,
            description: "Couldn't delete the test file. Error details: busy // Path: p".to_string(),
        }
    );
}

#[test]
fn folder_accepted_iff_writable() {
    let p = "D:/media".to_string();
    assert_eq!(
        selection_from_check(p.clone(), &FileTestStatus::Success),
        PathSelection::Selected(p.clone())
    );
    assert_eq!(
        selection_from_check(p.clone(), &deletion_finished(Some("e"), "x").status),
        PathSelection::Selected(p.clone())
    );
    assert_eq!(
        selection_from_check(p.clone(), &creation_failed("e", "x").status),
        PathSelection::Invalid(PathError::NotWritable)
    );
}

#[test]
fn separated_happy_path() {
    let mut s = start_separated();
    assert_eq!(question(&s), Question::PickFolder(MediaKind::Video));
    s = advance(s, sel("V"));
    assert_eq!(question(&s), Question::PickFolder(MediaKind::Music));
    s = advance(s, sel("M"));
    assert_eq!(
        question(&s),
        Question::ConfirmPaths {
            video: "V".to_string(),
            music: "M".to_string(),
            prompt: "Are those path correct ? (Y/N)".to_string(),
        }
    );
    s = advance(s, Reply::YesNo(true));
    assert_eq!(
        s,
        SelectionStep::Done(Some(UserPath::Separated {
            video_path: "V".to_string(),
            music_path: "M".to_string()
        }))
    );
    assert_eq!(question(&s), Question::Nothing);
    // once over, nothing changes it
    assert_eq!(advance(s.clone(), sel("Z")), s);
}

#[test]
fn invalid_first_choice_is_asked_again() {
    let s = advance(start_separated(), Reply::Path(PathSelection::Invalid(PathError::NotWritable)));
    assert_eq!(s, SelectionStep::AskVideo);
    let s = advance(advance(s, sel("V")), Reply::Path(PathSelection::Invalid(PathError::Empty)));
    assert_eq!(s, SelectionStep::AskMusic { video: "V".to_string() });
}

#[test]
fn cancelling_offers_combined_folder() {
    let s = advance(start_separated(), Reply::Path(PathSelection::Cancelled));
    assert_eq!(s, SelectionStep::OfferCombinedForVideo);
    match question(&s) {
        Question::YesNo { notice, prompt } => {
            assert_eq!(notice, None);
            assert_eq!(
                prompt,
                "You've cancelled the Video dialog. Would you like to use a combined path? (Y/N)"
            );
        }
        q => panic!("unexpected question {:?}", q),
    }
    assert_eq!(advance(s.clone(), Reply::YesNo(false)), SelectionStep::AskVideo);
    let c = advance(s, Reply::YesNo(true));
    assert_eq!(c, SelectionStep::AskMedia);
    let done = advance(c, sel("All"));
    assert_eq!(done, SelectionStep::Done(Some(UserPath::Combined("All".to_string()))));

    let m = advance(advance(start_separated(), sel("V")), Reply::Path(PathSelection::Cancelled));
    assert_eq!(m, SelectionStep::OfferCombinedForMusic { video: "V".to_string() });
    assert_eq!(
        advance(m, Reply::YesNo(false)),
        SelectionStep::AskMusic { video: "V".to_string() }
    );
}

#[test]
fn reselecting_a_folder() {
    let confirm = advance(advance(start_separated(), sel("V")), sel("M"));
    let choose = advance(confirm, Reply::YesNo(false));
    assert_eq!(question(&choose), Question::WhichToReselect);
    let same = advance(choose.clone(), Reply::Text("3".to_string()));
    assert_eq!(same, choose);
    let rv = advance(choose.clone(), Reply::Text(" 1 ".to_string()));
    assert_eq!(rv, SelectionStep::ReaskVideo { video: "V".to_string(), music: "M".to_string() });
    let back = advance(rv.clone(), sel("V2"));
    assert_eq!(
        back,
        SelectionStep::ConfirmPaths { video: "V2".to_string(), music: "M".to_string() }
    );
    assert_eq!(
        advance(rv.clone(), Reply::Path(PathSelection::Invalid(PathError::NotWritable))),
        SelectionStep::Done(None)
    );
    let offer = advance(rv, Reply::Path(PathSelection::Cancelled));
    assert_eq!(advance(offer.clone(), Reply::YesNo(false)), choose);
    assert_eq!(advance(offer, Reply::YesNo(true)), SelectionStep::AskMedia);

    let rm = advance(choose, Reply::Text("2".to_string()));
    assert_eq!(
        advance(rm, sel("M2")),
        SelectionStep::ConfirmPaths { video: "V".to_string(), music: "M2".to_string() }
    );
}

#[test]
fn combined_dialogue() {
    let s = start_combined();
    assert_eq!(question(&s), Question::PickFolder(MediaKind::Media));
    assert_eq!(
        advance(s.clone(), Reply::Path(PathSelection::Invalid(PathError::NotDirectory))),
        SelectionStep::Done(None)
    );
    let offer = advance(s, Reply::Path(PathSelection::Cancelled));
    match question(&offer) {
        Question::YesNo { notice, prompt } => {
            assert_eq!(notice.as_deref(), Some("You've cancelled the Media dialog."));
            assert_eq!(prompt, "Would you like to re-enter your path? (Y/N)");
        }
        q => panic!("unexpected question {:?}", q),
    }
    assert_eq!(advance(offer.clone(), Reply::YesNo(true)), SelectionStep::AskMedia);
    assert_eq!(advance(offer, Reply::YesNo(false)), SelectionStep::Done(None));
}

#[test]
fn replies_of_the_wrong_kind_change_nothing() {
    let s = start_separated();
    assert_eq!(advance(s.clone(), Reply::YesNo(true)), s);
    assert_eq!(advance(s.clone(), Reply::Text("1".to_string())), s);
}

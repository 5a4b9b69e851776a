use media_downloader::compress::{
    compressed_file_name, crf_number, crf_value, explorer_prompt, ffmpeg_args, judge_pass,
    plan_pass, target_dir, temp_output_path, CompressionRun, KeptBecause, PassVerdict,
    PASS_COUNT,
};
use media_downloader::download::MAX_SIZE_BYTES;

#[test]
fn crf_values_rise() {
    let values: Vec<String> = (0..PASS_COUNT).map(crf_value).collect();
    assert_eq!(values, vec!["28", "32", "36", "40", "44", "50"]);
    for i in 1..PASS_COUNT {
        assert!(crf_number(i - 1) < crf_number(i));
    }
}

#[test]
fn temp_outputs_are_numbered_from_one() {
    assert_eq!(
        temp_output_path(0),
        r"C:\Users\Temmie\Pictures\Pictures\Vidéo\temp\output_1.mp4"
    );
    assert_eq!(
        temp_output_path(5),
        r"C:\Users\Temmie\Pictures\Pictures\Vidéo\temp\output_6.mp4"
    );
}

#[test]
fn ffmpeg_arguments() {
    assert_eq!(
        ffmpeg_args("in.mp4", "36", "out.mp4"),
        vec![
            "-y", "-i", "in.mp4", "-c:v", "libx264", "-crf", "36", "-preset", "medium", "-c:a",
            "copy", "-movflags", "+faststart", "out.mp4"
        ]
    );
}

#[test]
fn plan_of_a_pass() {
    let plan = plan_pass("v.mp4", 2);
    assert_eq!(plan.crf, "36");
    assert_eq!(plan.temp_output, r"C:\Users\Temmie\Pictures\Pictures\Vidéo\temp\output_3.mp4");
    assert_eq!(plan.args[6], "36");
    assert_eq!(plan.args[13], plan.temp_output);
    assert_eq!(plan.args[2], "v.mp4");
}

#[test]
fn compressed_names() {
    assert_eq!(compressed_file_name(Some("clip")), "clip_compressed.mp4");
    assert_eq!(compressed_file_name(None), "video_compressed.mp4");
}

#[test]
fn target_folder_follows_the_path() {
    assert_eq!(
        target_dir(r"C:\Users\Temmie\Pictures\Pictures\Music\a.mp4"),
        r"C:\Users\Temmie\Pictures\Pictures\Music"
    );
    assert_eq!(target_dir(r"C:\x\music\a.mp4"), r"C:\Users\Temmie\Pictures\Pictures\Vidéo");
}

#[test]
fn verdicts() {
    assert_eq!(judge_pass(0, false, Some(1)), PassVerdict::Skipped);
    assert_eq!(judge_pass(0, true, None), PassVerdict::Skipped);
    assert_eq!(judge_pass(0, true, Some(MAX_SIZE_BYTES)), PassVerdict::Keep(KeptBecause::TargetMet));
    assert_eq!(judge_pass(3, true, Some(MAX_SIZE_BYTES + 1)), PassVerdict::Discard);
    assert_eq!(judge_pass(5, true, Some(MAX_SIZE_BYTES + 1)), PassVerdict::Keep(KeptBecause::LastPass));
    assert_eq!(judge_pass(5, true, Some(10)), PassVerdict::Keep(KeptBecause::TargetMet));
    assert_eq!(judge_pass(5, false, None), PassVerdict::Skipped);
}

#[test]
fn last_pass_always_keeps() {
    for size in [0, MAX_SIZE_BYTES, MAX_SIZE_BYTES + 1, u64::MAX] {
        assert!(matches!(judge_pass(PASS_COUNT - 1, true, Some(size)), PassVerdict::Keep(_)));
    }
}

#[test]
fn prompts_after_keeping() {
    assert_eq!(explorer_prompt(KeptBecause::TargetMet, true), "Would you like to open Explorer? (Y/N)");
    assert_eq!(
        explorer_prompt(KeptBecause::LastPass, true),
        "Would you like to open Explorer to view the saved file? (Y/N)"
    );
    assert_eq!(
        explorer_prompt(KeptBecause::TargetMet, false),
        "Would you like to open Explorer to view the temporary file? (Y/N)"
    );
    assert_eq!(
        explorer_prompt(KeptBecause::LastPass, false),
        "Would you like to open Explorer to view the temporary file? (Y/N)"
    );
}

#[test]
fn run_stops_at_the_first_kept_attempt() {
    let mut run = CompressionRun::new();
    assert_eq!(run.current_pass(), Some(0));
    assert_eq!(run.record(true, Some(MAX_SIZE_BYTES + 5)), Some(PassVerdict::Discard));
    assert_eq!(run.current_pass(), Some(1));
    assert_eq!(run.record(false, None), Some(PassVerdict::Skipped));
    assert_eq!(run.current_pass(), Some(2));
    assert_eq!(run.record(true, Some(100)), Some(PassVerdict::Keep(KeptBecause::TargetMet)));
    assert_eq!(run.current_pass(), None);
    assert_eq!(run.record(true, Some(100)), None);
}

#[test]
fn run_tries_at_most_six_passes() {
    let mut run = CompressionRun::new();
    let mut passes = 0;
    while let Some(i) = run.current_pass() {
        assert_eq!(i, passes);
        let v = run.record(true, Some(MAX_SIZE_BYTES * 2)).unwrap();
        passes += 1;
        if passes < PASS_COUNT {
            assert_eq!(v, PassVerdict::Discard);
        } else {
            assert_eq!(v, PassVerdict::Keep(KeptBecause::LastPass));
        }
    }
    assert_eq!(passes, PASS_COUNT);

    let mut failing = CompressionRun::new();
    let mut count = 0;
    while failing.current_pass().is_some() {
        assert_eq!(failing.record(false, None), Some(PassVerdict::Skipped));
        count += 1;
    }
    assert_eq!(count, PASS_COUNT);
}

use media_downloader::explorer::{explorer_args, wants_explorer};

#[test]
fn yes_opens_the_explorer() {
    assert!(wants_explorer("y"));
    assert!(wants_explorer("Y\n"));
    assert!(wants_explorer("  y \r\n"));
    assert!(!wants_explorer("yes"));
    assert!(!wants_explorer("n"));
    assert!(!wants_explorer(""));
    assert!(!wants_explorer("\n"));
}

#[test]
fn explorer_arguments_use_backslashes() {
    assert_eq!(
        explorer_args("C:/Users/a b/c.mp4"),
        vec!["/c", "explorer", "/select,", r"C:\Users\a b\c.mp4"]
    );
}

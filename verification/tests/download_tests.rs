use media_downloader::download::{
    after_download, category_query_args, download_args, downloaded_path, is_music_category,
    is_music_output, output_template, AfterDownload, MAX_SIZE_BYTES,
};

#[test]
fn music_categories_are_recognised() {
    assert!(is_music_category("['Music']"));
    assert!(is_music_category("['song covers']"));
    assert!(is_music_category("Songs"));
    assert!(is_music_category("['People & Blogs', 'music']"));
    assert!(!is_music_category("['Gaming']"));
    assert!(!is_music_category("MUSIC"));
    assert!(!is_music_category(""));
}

#[test]
fn music_output_is_decoded_first() {
    assert!(is_music_output(b"['Music']\n"));
    assert!(!is_music_output(b"['Education']\n"));
    // an invalid byte becomes a replacement character and does not hide the keyword
    assert!(is_music_output(b"\xffMusic"));
    // an invalid byte inside the keyword breaks it
    assert!(!is_music_output(b"Mu\xffsic"));
}

#[test]
fn category_query() {
    assert_eq!(
        category_query_args("https://example.com/v"),
        vec!["--print", "%(categories)s", "https://example.com/v"]
    );
}

#[test]
fn templates_pick_the_folder() {
    assert_eq!(
        output_template(true),
        r"C:\Users\Temmie\Pictures\Pictures\Music\%(title)s.%(ext)s"
    );
    assert_eq!(
        output_template(false),
        r"C:\Users\Temmie\Pictures\Pictures\Vidéo\%(title)s.%(ext)s"
    );
}

#[test]
fn download_arguments_trim_the_url() {
    let args = download_args("T", "  https://x.test/watch?v=1 \n");
    let expected = vec![
        "--encoding",
        "utf-8",
        "-o",
        "T",
        "--quiet",
        "--no-warnings",
        "--replace-in-metadata",
        "title",
        " ",
        "_",
        "--format-sort",
        "res:480,ext:mp4:m4a",
        "--concurrent-fragments",
        "5",
        "--extractor-args",
        "youtube:player_client=tv,mweb",
        "--print",
        "after_move:filepath",
        "https://x.test/watch?v=1",
    ];
    assert_eq!(args, expected);
}

#[test]
fn downloaded_path_is_the_trimmed_output() {
    assert_eq!(downloaded_path(b"C:\\a\\b.mp4\r\n"), "C:\\a\\b.mp4");
    assert_eq!(downloaded_path(b""), "");
    assert_eq!(downloaded_path(b" x\xff "), "x\u{fffd}");
}

#[test]
fn size_limit_decides_the_next_step() {
    assert_eq!(MAX_SIZE_BYTES, 8 * 1024 * 1024);
    assert_eq!(after_download(Some(0)), AfterDownload::OfferExplorer);
    assert_eq!(after_download(Some(MAX_SIZE_BYTES)), AfterDownload::OfferExplorer);
    assert_eq!(after_download(Some(MAX_SIZE_BYTES + 1)), AfterDownload::Compress);
    assert_eq!(after_download(None), AfterDownload::MetadataUnavailable);
}

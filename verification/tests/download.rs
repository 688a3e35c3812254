use yt_dlp_webui::download::{content_disposition, download_file_name, name_or_default};

#[test]
fn file_name_is_the_last_component() {
    assert_eq!(download_file_name("/tmp/ytdlp/j/My Video.mp4"), "My Video.mp4");
    assert_eq!(download_file_name("song.opus"), "song.opus");
    assert_eq!(download_file_name("/tmp/ytdlp/j/a.mp4/"), "a.mp4");
}

#[test]
fn paths_without_a_name_fall_back() {
    assert_eq!(download_file_name("/"), "download");
    assert_eq!(download_file_name(""), "download");
    assert_eq!(download_file_name("/tmp/.."), "download");
    assert_eq!(name_or_default(None), "download");
    assert_eq!(name_or_default(Some("x.mp4".to_string())), "x.mp4");
}

#[test]
fn attachment_header() {
    assert_eq!(content_disposition("a.mp4"), "attachment; filename=\"a.mp4\"");
    assert_eq!(content_disposition(""), "attachment; filename=\"\"");
}

#[test]
fn served_names_are_single_components() {
    assert_eq!(download_file_name("foo.txt/.//"), "foo.txt");
    assert_eq!(download_file_name("foo.txt/.."), "download");
    assert_eq!(download_file_name("."), "download");
    assert_eq!(download_file_name("//tmp//ytdlp//j//x.mkv"), "x.mkv");
    for path in ["/a/b/c.mp4", "c.mp4/", "/", "..", "a/b/..", "./x"] {
        let name = download_file_name(path);
        assert!(!name.is_empty());
        assert!(!name.contains('/'));
        assert_ne!(name, "..");
    }
}

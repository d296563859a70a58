use rdaio::track::{get_display_name, track_path, Track};

#[test]
fn test_get_display_name_filename_mode() {
    let file_name = "my_song.mp3";

    let display = get_display_name(file_name, None, false);
    assert_eq!(display, file_name);
}

#[test]
fn test_get_display_name_without_title() {
    let file_name = "track_123.mp3";

    // When show_title is false, should return the filename
    let display = get_display_name(file_name, None, false);
    assert_eq!(display, file_name);
}

#[test]
fn test_get_display_name_fallback_to_filename() {
    let file_name = "nonexistent_file.mp3";

    // File doesn't exist, so no title was found: should fallback to filename
    let display = get_display_name(file_name, None, true);
    assert_eq!(display, file_name);
}

#[test]
fn test_get_display_name_special_characters() {
    let file_name = "song_!@#$%.mp3";

    let display = get_display_name(file_name, None, false);
    assert_eq!(display, file_name);
}

#[test]
fn title_is_shown_only_where_asked_for() {
    assert_eq!(get_display_name("a.mp3", Some("A Song"), true), "A Song");
    assert_eq!(get_display_name("a.mp3", Some("A Song"), false), "a.mp3");
    assert_eq!(get_display_name("a.mp3", Some(""), true), "");
    assert_eq!(get_display_name("", None, true), "");
}

#[test]
fn track_shows_its_title_once_resolved() {
    let mut track = Track::new("a.mp3".to_string());
    assert_eq!(track.name(), "a.mp3");
    assert_eq!(track.display_name(true), "a.mp3");
    track.resolve_title(Some("A Song".to_string()));
    assert_eq!(track.display_name(true), "A Song");
    assert_eq!(track.display_name(false), "a.mp3");
    assert_eq!(track.name(), "a.mp3");
    track.resolve_title(None);
    assert_eq!(track.display_name(true), "a.mp3");
}

#[test]
fn path_joins_directory_and_file_with_a_slash() {
    assert_eq!(track_path("./music", "a.mp3"), "./music/a.mp3");
    assert_eq!(track_path(".", "a b.mp3"), "./a b.mp3");
    assert_eq!(track_path("", "a.mp3"), "/a.mp3");
    assert_eq!(track_path("dir/", ""), "dir//");
}

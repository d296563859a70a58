use rdaio::queue::{load_queue, save_queue, QUEUE_FILE};

fn strings(names: &[&str]) -> Vec<String> {
    names.iter().map(|n| n.to_string()).collect()
}

#[test]
fn test_save_and_load_queue() {
    let files = vec![
        "song1.mp3".to_string(),
        "song2.mp3".to_string(),
        "song3.mp3".to_string(),
    ];
    let directory = "./test_dir";

    // Test saving
    let saved = save_queue(&files, directory);

    // Test loading
    let loaded = load_queue(Some(&saved));
    assert!(loaded.is_some(), "Loaded queue should not be empty");

    let (loaded_dir, loaded_files) = loaded.unwrap();
    assert_eq!(loaded_dir, "./test_dir", "Loaded directory should match");
    assert_eq!(loaded_files, files, "Loaded files should match");
}

#[test]
fn test_load_queue_empty() {
    // There is no queue file.
    let result = load_queue(None);
    assert!(result.is_none());
}

#[test]
fn test_save_queue_empty_list() {
    let files: Vec<String> = vec![];
    let directory = "./test_dir";

    let saved = save_queue(&files, directory);

    // Verify we can load it back
    let loaded = load_queue(Some(&saved));
    assert!(loaded.is_some(), "Should be able to load empty queue");
}

#[test]
fn test_save_queue_multiline_filenames() {
    let files = vec!["song_one.mp3".to_string(), "song_two.mp3".to_string()];
    let directory = "./my_music";

    let saved = save_queue(&files, directory);

    let loaded = load_queue(Some(&saved));
    assert!(loaded.is_some());

    let (_, loaded_files) = loaded.unwrap();
    assert_eq!(loaded_files.len(), files.len());
}

#[test]
fn queue_file_has_its_fixed_name() {
    assert_eq!(QUEUE_FILE, ".rdaio_queue");
}

#[test]
fn saved_text_is_one_line_each() {
    let files = strings(&["song1.mp3", "song2.mp3"]);
    assert_eq!(save_queue(&files, "./test_dir"), "./test_dir\nsong1.mp3\nsong2.mp3\n");
    assert_eq!(save_queue(&Vec::new(), "./test_dir"), "./test_dir\n");
    assert_eq!(save_queue(&Vec::new(), ""), "\n");
}

#[test]
fn empty_queue_round_trip_is_exact() {
    let saved = save_queue(&Vec::new(), "./test_dir");
    assert_eq!(load_queue(Some(&saved)), Some(("./test_dir".to_string(), Vec::new())));
}

#[test]
fn round_trip_keeps_odd_names() {
    let cases: Vec<(&str, Vec<String>)> = vec![
        ("", Vec::new()),
        ("", strings(&[""])),
        ("dir", strings(&["", "", "x"])),
        ("/music/\u{e9}t\u{e9}", strings(&["a b.mp3", " lead.mp3", "trail.mp3 ", "\u{4e2d}.mp3"])),
        ("c:\\music\r", strings(&["tab\tname.mp3", "cr\r", "\r"])),
    ];
    for (directory, files) in cases {
        let saved = save_queue(&files, directory);
        assert_eq!(load_queue(Some(&saved)), Some((directory.to_string(), files)));
    }
}

#[test]
fn text_without_a_line_holds_no_queue() {
    assert_eq!(load_queue(Some("")), None);
    assert_eq!(load_queue(None), None);
}

#[test]
fn last_line_counts_without_its_line_feed() {
    assert_eq!(
        load_queue(Some("dir\na.mp3\nb.mp3")),
        Some(("dir".to_string(), strings(&["a.mp3", "b.mp3"])))
    );
    assert_eq!(load_queue(Some("dir")), Some(("dir".to_string(), Vec::new())));
    assert_eq!(load_queue(Some("\n")), Some(("".to_string(), Vec::new())));
    assert_eq!(load_queue(Some("\n\n")), Some(("".to_string(), strings(&[""]))));
    assert_eq!(
        load_queue(Some("dir\n\nb.mp3\n")),
        Some(("dir".to_string(), strings(&["", "b.mp3"])))
    );
}

#[test]
fn a_line_feed_in_a_name_splits_it() {
    let files = strings(&["two\nlines.mp3"]);
    let saved = save_queue(&files, "dir");
    assert_eq!(
        load_queue(Some(&saved)),
        Some(("dir".to_string(), strings(&["two", "lines.mp3"])))
    );
}

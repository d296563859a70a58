use rdaio::error::PlayerError;
use rdaio::names::{is_supported_name, names_in_order};
use rdaio::playlist::{
    load_mp3_files, playable_names, shuffle_names, sort_names, swap_names, DirEntry,
    PlaylistManager,
};

fn file(name: &str) -> DirEntry {
    DirEntry { name: name.to_string(), is_file: true }
}

fn folder(name: &str) -> DirEntry {
    DirEntry { name: name.to_string(), is_file: false }
}

fn strings(names: &[&str]) -> Vec<String> {
    names.iter().map(|n| n.to_string()).collect()
}

// The listing of a directory with three tracks and one text file.
fn test_dir_with_mp3s() -> Vec<DirEntry> {
    vec![file("song1.mp3"), file("song2.mp3"), file("song3.mp3"), file("not_mp3.txt")]
}

#[test]
fn test_load_mp3_files_filters_correctly() {
    let listing = test_dir_with_mp3s();

    let result = load_mp3_files(Some(&listing));
    assert!(result.is_ok());

    let files = result.unwrap();
    // Should only contain .mp3 files
    assert!(files.iter().all(|f| f.ends_with(".mp3")));
    assert!(!files.iter().any(|f| f.ends_with(".txt")));
    // Should have 3 mp3 files
    assert_eq!(files.len(), 3);
}

#[test]
fn test_load_mp3_files_sorted() {
    let listing = test_dir_with_mp3s();

    let result = load_mp3_files(Some(&listing));
    assert!(result.is_ok());

    let files = result.unwrap();
    // Check if sorted
    let mut sorted_files = files.clone();
    sorted_files.sort();
    assert_eq!(files, sorted_files);
}

#[test]
fn test_load_mp3_files_invalid_directory() {
    // A directory that cannot be read has no listing.
    let result = load_mp3_files(None);
    assert!(result.is_err());
}

#[test]
fn test_load_mp3_files_empty_directory() {
    let listing: Vec<DirEntry> = Vec::new();

    let result = load_mp3_files(Some(&listing));
    assert!(result.is_ok());

    let files = result.unwrap();
    assert_eq!(files.len(), 0);
}

#[test]
fn load_keeps_supported_files_in_ascending_order() {
    let listing = vec![file("b.mp3"), file("A.MP3"), file("x.txt")];
    assert_eq!(load_mp3_files(Some(&listing)), Ok(strings(&["A.MP3", "b.mp3"])));
}

#[test]
fn unreadable_directory_is_an_io_error() {
    assert_eq!(load_mp3_files(None), Err(PlayerError::Io));
}

#[test]
fn load_leaves_out_folders_and_keeps_listed_order_before_sorting() {
    let listing = vec![
        file("zeta.mp3"),
        folder("album.mp3"),
        file("notes.txt"),
        file("alpha.Mp3"),
        file(".mp3"),
        file("mp3"),
        file("beta.mp3.bak"),
        file("..mp3"),
    ];
    assert_eq!(playable_names(&listing), strings(&["zeta.mp3", "alpha.Mp3", "..mp3"]));
    assert_eq!(
        load_mp3_files(Some(&listing)),
        Ok(strings(&["..mp3", "alpha.Mp3", "zeta.mp3"]))
    );
}

#[test]
fn supported_extension_cases() {
    assert!(is_supported_name("a.mp3"));
    assert!(is_supported_name("a.MP3"));
    assert!(is_supported_name("a.mP3"));
    assert!(is_supported_name("two.dots.Mp3"));
    assert!(is_supported_name("\u{e9}t\u{e9}.mp3"));
    assert!(!is_supported_name(".mp3"));
    assert!(!is_supported_name("amp3"));
    assert!(!is_supported_name("a.mp4"));
    assert!(!is_supported_name("a.mp3 "));
    assert!(!is_supported_name("a.np3"));
    assert!(!is_supported_name("a.m\u{70}\u{b3}"));
    assert!(!is_supported_name(""));
}

#[test]
fn name_order_is_that_of_the_strings() {
    let names = ["", "a", "A", "ab", "b", "a.mp3", "\u{e9}", "z", "Z", "a\u{0}", "10", "9"];
    for a in names {
        for b in names {
            assert_eq!(names_in_order(a, b), a <= b, "{:?} {:?}", a, b);
        }
    }
}

#[test]
fn sort_names_orders_and_keeps_duplicates() {
    let names = strings(&["b", "a", "c", "a", "B", ""]);
    assert_eq!(sort_names(&names), strings(&["", "B", "a", "a", "b", "c"]));
    assert_eq!(sort_names(&Vec::new()), Vec::<String>::new());
}

#[test]
fn swap_names_exchanges_two_places() {
    let mut names = strings(&["a", "b", "c", "d"]);
    swap_names(&mut names, 3, 1);
    assert_eq!(names, strings(&["a", "d", "c", "b"]));
    swap_names(&mut names, 2, 2);
    assert_eq!(names, strings(&["a", "d", "c", "b"]));
    swap_names(&mut names, 0, 1);
    assert_eq!(names, strings(&["d", "a", "c", "b"]));
    // A place outside the list leaves it as it is.
    swap_names(&mut names, 4, 0);
    swap_names(&mut names, 0, 4);
    swap_names(&mut names, usize::MAX, usize::MAX);
    assert_eq!(names, strings(&["d", "a", "c", "b"]));
}

#[test]
fn shuffle_names_permutes() {
    let original: Vec<String> = (0..50).map(|i| format!("track{:02}.mp3", i)).collect();
    let mut orders: Vec<Vec<String>> = Vec::new();
    for _ in 0..20 {
        let mut names = original.clone();
        shuffle_names(&mut names);
        let mut sorted = names.clone();
        sorted.sort();
        assert_eq!(sorted, original);
        orders.push(names);
    }
    // The order is drawn anew each time: twenty draws are not all the same,
    // and not all the order that went in.
    assert!(orders.iter().any(|order| order != &original));
    assert!(orders.iter().any(|order| order != &orders[0]));
}

#[test]
fn shuffle_names_moves_every_place() {
    // Over many draws each of three names turns up in each place.
    let original = strings(&["a", "b", "c"]);
    let mut seen = [[false; 3]; 3];
    for _ in 0..400 {
        let mut names = original.clone();
        shuffle_names(&mut names);
        for (place, name) in names.iter().enumerate() {
            let which = original.iter().position(|n| n == name).unwrap();
            seen[place][which] = true;
        }
    }
    assert_eq!(seen, [[true; 3]; 3]);
}

#[test]
fn new_playlist_is_empty() {
    let playlist = PlaylistManager::new();
    assert_eq!(playlist.len(), 0);
    assert_eq!(playlist.selected_index(), None);
    assert_eq!(playlist.directory(), "");
    assert!(playlist.current_order().is_empty());
    assert!(playlist.original_order().is_empty());
    assert_eq!(playlist.next(0), None);
    assert_eq!(playlist.previous(0), None);
    assert_eq!(playlist.track(0), None);
}

#[test]
fn load_sets_both_orders_and_selects_the_first() {
    let mut playlist = PlaylistManager::new();
    let listing = vec![file("b.mp3"), file("A.MP3"), file("x.txt")];
    let loaded = playlist.load("./music", Some(&listing));
    assert_eq!(loaded, Ok(strings(&["A.MP3", "b.mp3"])));
    assert_eq!(playlist.directory(), "./music");
    assert_eq!(playlist.current_order(), &strings(&["A.MP3", "b.mp3"]));
    assert_eq!(playlist.original_order(), &strings(&["A.MP3", "b.mp3"]));
    assert_eq!(playlist.selected_index(), Some(0));
    assert_eq!(playlist.track(1), Some(&"b.mp3".to_string()));
    assert_eq!(playlist.track(2), None);
}

#[test]
fn failed_load_leaves_the_playlist_untouched() {
    let mut playlist = PlaylistManager::new();
    let listing = vec![file("one.mp3"), file("two.mp3")];
    playlist.load("first", Some(&listing)).unwrap();
    assert!(playlist.select(1));

    assert_eq!(playlist.load("second", None), Err(PlayerError::Io));
    assert_eq!(playlist.directory(), "first");
    assert_eq!(playlist.current_order(), &strings(&["one.mp3", "two.mp3"]));
    assert_eq!(playlist.original_order(), &strings(&["one.mp3", "two.mp3"]));
    assert_eq!(playlist.selected_index(), Some(1));
}

#[test]
fn load_of_a_directory_without_tracks_selects_nothing() {
    let mut playlist = PlaylistManager::new();
    let listing = vec![file("readme.txt"), folder("sub")];
    assert_eq!(playlist.load("empty", Some(&listing)), Ok(Vec::new()));
    assert_eq!(playlist.selected_index(), None);
    assert_eq!(playlist.len(), 0);
}

#[test]
fn next_and_previous_wrap() {
    let mut playlist = PlaylistManager::new();
    let listing = vec![file("a.mp3"), file("b.mp3"), file("c.mp3")];
    playlist.load(".", Some(&listing)).unwrap();
    assert_eq!(playlist.next(2), Some(0));
    assert_eq!(playlist.previous(0), Some(2));
    assert_eq!(playlist.next(0), Some(1));
    assert_eq!(playlist.next(1), Some(2));
    assert_eq!(playlist.previous(2), Some(1));
    assert_eq!(playlist.previous(1), Some(0));
    // Past the end the places still go round.
    assert_eq!(playlist.next(4), Some(2));
    assert_eq!(playlist.previous(4), Some(0));
    assert_eq!(playlist.next(usize::MAX), Some((usize::MAX % 3 + 1) % 3));
    assert_eq!(playlist.previous(usize::MAX), Some((usize::MAX % 3 + 2) % 3));

    playlist.clear();
    assert_eq!(playlist.next(0), None);
    assert_eq!(playlist.previous(0), None);
    assert_eq!(playlist.next(2), None);
}

#[test]
fn next_then_previous_comes_back() {
    let mut playlist = PlaylistManager::new();
    let listing: Vec<DirEntry> = (0..7).map(|i| file(&format!("{}.mp3", i))).collect();
    playlist.load(".", Some(&listing)).unwrap();
    for from in 0..7 {
        let after = playlist.next(from).unwrap();
        assert_eq!(playlist.previous(after), Some(from));
        let before = playlist.previous(from).unwrap();
        assert_eq!(playlist.next(before), Some(from));
    }
}

#[test]
fn shuffle_then_restore_gives_the_loaded_order() {
    let mut playlist = PlaylistManager::new();
    let listing: Vec<DirEntry> = (0..30).map(|i| file(&format!("t{:02}.mp3", i))).collect();
    let loaded = playlist.load("dir", Some(&listing)).unwrap();
    for shuffles in 0..5 {
        for _ in 0..shuffles {
            playlist.shuffle();
            assert_eq!(playlist.original_order(), &loaded);
            assert_eq!(playlist.selected_index(), Some(0));
            assert_eq!(playlist.len(), 30);
            let mut sorted = playlist.current_order().clone();
            sorted.sort();
            assert_eq!(sorted, loaded);
        }
        playlist.select(4);
        playlist.restore_original();
        assert_eq!(playlist.current_order(), &loaded);
        assert_eq!(playlist.original_order(), &loaded);
        assert_eq!(playlist.selected_index(), Some(0));
        assert_eq!(playlist.directory(), "dir");
    }
}

#[test]
fn shuffle_of_an_empty_playlist_selects_nothing() {
    let mut playlist = PlaylistManager::new();
    playlist.shuffle();
    assert_eq!(playlist.len(), 0);
    assert_eq!(playlist.selected_index(), None);
}

#[test]
fn clear_empties_the_current_order_only() {
    let mut playlist = PlaylistManager::new();
    let listing = vec![file("a.mp3"), file("b.mp3")];
    playlist.load("dir", Some(&listing)).unwrap();
    playlist.clear();
    assert!(playlist.current_order().is_empty());
    assert_eq!(playlist.selected_index(), None);
    assert_eq!(playlist.original_order(), &strings(&["a.mp3", "b.mp3"]));
    assert_eq!(playlist.directory(), "dir");
    assert!(!playlist.select(0));

    playlist.restore_original();
    assert_eq!(playlist.current_order(), &strings(&["a.mp3", "b.mp3"]));
    assert_eq!(playlist.selected_index(), Some(0));
}

#[test]
fn select_takes_places_inside_the_list_only() {
    let mut playlist = PlaylistManager::new();
    let listing = vec![file("a.mp3"), file("b.mp3")];
    playlist.load("dir", Some(&listing)).unwrap();
    assert!(playlist.select(1));
    assert_eq!(playlist.selected_index(), Some(1));
    assert!(!playlist.select(2));
    assert_eq!(playlist.selected_index(), Some(1));
}

#[test]
fn queue_contents_hold_directory_and_current_order() {
    let mut playlist = PlaylistManager::new();
    assert_eq!(playlist.queue_contents(), "\n");
    let listing = vec![file("b.mp3"), file("a.mp3")];
    playlist.load("./music", Some(&listing)).unwrap();
    assert_eq!(playlist.queue_contents(), "./music\na.mp3\nb.mp3\n");
    playlist.clear();
    assert_eq!(playlist.queue_contents(), "./music\n");
}

#[test]
fn from_queue_keeps_the_saved_order() {
    let playlist = PlaylistManager::from_queue("d".to_string(), strings(&["z.mp3", "a.mp3"]));
    assert_eq!(playlist.directory(), "d");
    assert_eq!(playlist.current_order(), &strings(&["z.mp3", "a.mp3"]));
    assert_eq!(playlist.original_order(), &strings(&["z.mp3", "a.mp3"]));
    assert_eq!(playlist.selected_index(), Some(0));

    let none = PlaylistManager::from_queue("d".to_string(), Vec::new());
    assert_eq!(none.selected_index(), None);
}

#[test]
fn selection_moves_round() {
    let mut playlist = PlaylistManager::new();
    playlist.select_next();
    playlist.select_previous();
    assert_eq!(playlist.selected_index(), None);

    let listing = vec![file("a.mp3"), file("b.mp3"), file("c.mp3")];
    playlist.load(".", Some(&listing)).unwrap();
    playlist.select_next();
    assert_eq!(playlist.selected_index(), Some(1));
    playlist.select_next();
    playlist.select_next();
    assert_eq!(playlist.selected_index(), Some(0));
    playlist.select_previous();
    assert_eq!(playlist.selected_index(), Some(2));
    playlist.select_previous();
    assert_eq!(playlist.selected_index(), Some(1));
    assert_eq!(playlist.current_order().len(), 3);
}

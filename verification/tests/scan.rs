use tui_player::scan::{audio_name, str_ends_with, AudioFileList, DirEntryInfo};
use tui_player::player::Player;

fn entry(name: &str, is_file: bool) -> DirEntryInfo {
    DirEntryInfo { name: name.to_string(), is_file }
}

#[test]
fn recognizes_the_four_suffixes() {
    assert!(audio_name("song.mp3"));
    assert!(audio_name("song.flac"));
    assert!(audio_name("song.ogg"));
    assert!(audio_name("song.wav"));
}

#[test]
fn rejects_other_names() {
    assert!(!audio_name("notes.txt"));
    assert!(!audio_name("song.MP3"));
    assert!(!audio_name("song.mp4"));
    assert!(!audio_name(""));
}

#[test]
fn suffix_match_is_not_an_extension_parse() {
    // A plain suffix match: "foo.xmp3" matches too.
    assert!(audio_name("foo.xmp3"));
    assert!(audio_name("wav"));
}

#[test]
fn ends_with_on_short_strings() {
    assert!(str_ends_with("abc", ""));
    assert!(str_ends_with("abc", "bc"));
    assert!(!str_ends_with("c", "bc"));
    assert!(str_ends_with("naïve.mp3", "mp3"));
    assert!(!str_ends_with("naïve.mp3", "naï"));
}

#[test]
fn scan_keeps_audio_files_in_order() {
    // Directory with `a.mp3`, `b.txt`, `c.flac`: the scan keeps
    // `["a.mp3", "c.flac"]`, in enumeration order.
    let mut p = Player::new();
    let entries = vec![entry("a.mp3", true), entry("b.txt", true), entry("c.flac", true)];
    p.handle_load(Ok(entries));
    assert_eq!(p.audio_file_list.files, vec!["a.mp3".to_string(), "c.flac".to_string()]);
    assert_eq!(p.curr_playlist, vec!["a.mp3".to_string(), "c.flac".to_string()]);
    assert_eq!(p.curr_songnum, 2);
}

#[test]
fn scan_excludes_non_regular_files() {
    let mut p = Player::new();
    let entries = vec![entry("dir.flac", false), entry("real.flac", true)];
    p.handle_load(Ok(entries));
    assert_eq!(p.audio_file_list.files, vec!["real.flac".to_string()]);
}

#[test]
fn file_list_new_is_empty() {
    let l = AudioFileList::new();
    assert!(l.dirs.is_empty());
    assert!(l.files.is_empty());
}

#[test]
fn file_list_insert_appends() {
    let mut l = AudioFileList::new();
    l.insert_file("x.ogg".to_string());
    l.insert_file("y.wav".to_string());
    assert_eq!(l.files, vec!["x.ogg".to_string(), "y.wav".to_string()]);
}

#[test]
fn file_list_reset_clears_files_only() {
    let mut l = AudioFileList::new();
    l.dirs.push("sub".to_string());
    l.insert_file("x.ogg".to_string());
    l.reset();
    assert!(l.files.is_empty());
    assert_eq!(l.dirs, vec!["sub".to_string()]);
}

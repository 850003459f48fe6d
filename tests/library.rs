use std::path::PathBuf;

use mp3_player::file_gui::{
    entry_label, entry_listed, file_choice, is_playlist_format, is_supported_format,
    step_selection, FileChoice,
};
use mp3_player::gui_lyrics::get_dimensions;
use mp3_player::gui_main::{Action, GuiScreen, MainGuiState, NavKeys};
use mp3_player::playlist::{
    center_offset, playlist_file_paths, playlist_text, AfterRemoval, PlayStart, Playlist, TrackEnd,
};
use mp3_player::song::{PlayingSong, RepeatBehavior, SongEntry};
use mp3_player::text::{bytes_equal, terminate, utf8_bytes};

fn names(stem: &str, parent: &[u8]) -> (Vec<u8>, Vec<u8>) {
    SongEntry::process_os_str(stem, parent).unwrap()
}

fn entry(path: &str) -> SongEntry {
    SongEntry::new(PathBuf::from(path)).unwrap()
}

fn playlist_of(paths: &[&str]) -> Playlist<u32> {
    let mut p: Playlist<u32> = Playlist::new();
    for path in paths {
        p.add_song(entry(path));
    }
    p
}

fn titles(p: &Playlist<u32>) -> Vec<Vec<u8>> {
    p.get_songs().iter().map(|e| e.file_name().clone()).collect()
}

fn keys() -> NavKeys {
    NavKeys {
        down: false,
        up: false,
        right: false,
        left: false,
        enter_released: false,
        escape_released: false,
    }
}

#[test]
fn author_dash_title_in_arbitrary_dir() {
    let (name, author) = SongEntry::process_os_str_case_arbitrary_dir("Artist - Song").unwrap();
    assert_eq!(name, b"Song\0".to_vec());
    assert_eq!(author, b"Artist\0".to_vec());
}

#[test]
fn bare_title_has_unknown_author() {
    let (name, author) = SongEntry::process_os_str_case_arbitrary_dir("  Song  ").unwrap();
    assert_eq!(name, b"Song\0".to_vec());
    assert_eq!(author, vec![0u8]);
}

#[test]
fn several_dashes_join_title_without_dashes() {
    let (name, author) = SongEntry::process_os_str_case_arbitrary_dir("A - B - C").unwrap();
    assert_eq!(name, b"B  C\0".to_vec());
    assert_eq!(author, b"A\0".to_vec());
    let (name, author) = SongEntry::process_os_str_case_arbitrary_dir("x-y-z-w ").unwrap();
    assert_eq!(name, b"yzw\0".to_vec());
    assert_eq!(author, b"x\0".to_vec());
}

#[test]
fn empty_stem_gives_empty_names() {
    let (name, author) = SongEntry::process_os_str_case_arbitrary_dir("").unwrap();
    assert_eq!(name, vec![0u8]);
    assert_eq!(author, vec![0u8]);
}

#[test]
fn unicode_white_space_is_trimmed() {
    let (name, author) =
        SongEntry::process_os_str_case_arbitrary_dir("\u{a0}Ünï\u{3000}-\u{2003}Ça\t").unwrap();
    assert_eq!(name, "Ça\0".as_bytes().to_vec());
    assert_eq!(author, "Ünï\0".as_bytes().to_vec());
}

#[test]
fn arbitrary_directory_names() {
    for dir in ["_", "unordered", "any", "unknown", "random"] {
        assert_eq!(names("Queen - Bohemian", dir.as_bytes()), (b"Bohemian\0".to_vec(), b"Queen\0".to_vec()));
    }
    assert_eq!(
        names("Queen - Bohemian", b"Random"),
        (b"Queen - Bohemian\0".to_vec(), b"Random\0".to_vec())
    );
}

#[test]
fn author_directory_gives_author() {
    assert_eq!(names("Song", b"Queen"), (b"Song\0".to_vec(), b"Queen\0".to_vec()));
    assert_eq!(names("", b""), (vec![0u8], vec![0u8]));
}

#[test]
fn song_entry_from_path() {
    let e = entry("/music/Queen/Bohemian Rhapsody.mp3");
    assert_eq!(e.file_name(), &b"Bohemian Rhapsody\0".to_vec());
    assert_eq!(e.author(), &b"Queen\0".to_vec());
    assert_eq!(e.path(), &PathBuf::from("/music/Queen/Bohemian Rhapsody.mp3"));
    let e = entry("/music/unknown/Queen - Bohemian.ogg");
    assert_eq!(e.file_name(), &b"Bohemian\0".to_vec());
    assert_eq!(e.author(), &b"Queen\0".to_vec());
}

#[test]
fn song_entry_needs_stem_and_parent_name() {
    assert!(SongEntry::new(PathBuf::from("/")).is_none());
    assert!(SongEntry::new(PathBuf::from("song.mp3")).is_none());
}

#[test]
fn from_parts_keeps_path() {
    let e = SongEntry::from_parts(PathBuf::from("/x/y.mp3"), "T", b"A");
    assert_eq!(e.file_name(), &b"T\0".to_vec());
    assert_eq!(e.author(), &b"A\0".to_vec());
    assert_eq!(e.path(), &PathBuf::from("/x/y.mp3"));
}

#[test]
fn repeat_cycles_through_modes() {
    let mut r = RepeatBehavior::Normal;
    assert_eq!(r.to_icon(), "#222#");
    r.next();
    assert_eq!(r, RepeatBehavior::Repeat);
    assert_eq!(r.to_icon(), "#224#");
    r.next();
    assert_eq!(r, RepeatBehavior::RepeatSingle);
    assert_eq!(r.to_icon(), "#223#");
    r.next();
    assert_eq!(r, RepeatBehavior::Normal);
}

#[test]
fn playing_song_copies_entry() {
    let e = entry("/m/Band/Tune.mp3");
    let mut s = PlayingSong::new_play(&e, 3, 9u32, String::from("la la"));
    assert_eq!(s.index(), 3);
    assert_eq!(s.file_name(), &b"Tune\0".to_vec());
    assert_eq!(s.author(), &b"Band\0".to_vec());
    assert_eq!(*s.music(), 9);
    assert_eq!(s.lyrics, "la la");
    assert_eq!(s.lyrics_dimensions, None);
    *s.music_mut() = 4;
    s.set_lyrics_box((5, 6));
    assert_eq!(s.lyrics_dimensions, Some((5, 6)));
    assert_eq!(s.into_music(), 4);
}

#[test]
fn new_playlist_is_empty() {
    let p: Playlist<u32> = Playlist::default();
    assert_eq!(p.len(), 0);
    assert_eq!(p.currently_playing_id(), None);
    assert!(!p.has_music_stream());
    assert_eq!(p.repeat_behavior, RepeatBehavior::Normal);
    assert_eq!(p.__render_scroll_index, 0);
    assert_eq!(p.__render_current_selected, 0);
    assert!(p.filename_vec().is_none());
    assert!(p.author_vec().is_none());
}

#[test]
fn start_playing_sets_current_and_centres() {
    let mut p = playlist_of(&["/m/A/a.mp3", "/m/A/b.mp3", "/m/B/c.mp3"]);
    assert!(p.start_playing(2, 7, String::new(), 500).is_none());
    assert_eq!(p.currently_playing_id(), Some(2));
    assert_eq!(p.filename_vec(), Some(&b"c\0".to_vec()));
    assert_eq!(p.author_vec(), Some(&b"B\0".to_vec()));
    assert_eq!(p.__render_scroll_index, 0);
    let old = p.start_playing(0, 8, String::new(), 100).unwrap();
    assert_eq!(old.index(), 2);
    assert_eq!(*old.music(), 7);
    assert_eq!(p.currently_playing().unwrap().index(), 0);
}

#[test]
fn centre_offsets() {
    let mut p = playlist_of(&["/m/A/a.mp3"]);
    p.adjust_center_song(10, 500);
    assert_eq!(p.__render_scroll_index, -160);
    p.adjust_center_song(0, 500);
    assert_eq!(p.__render_scroll_index, 0);
    assert_eq!(center_offset(0, -100), -70);
    assert_eq!(center_offset(0, -101), -70);
    assert_eq!(center_offset(4, 320), 0);
    assert_eq!(center_offset(5, 320), -10);
    assert_eq!(center_offset(usize::MAX, 0), i32::MIN);
}

#[test]
fn prepare_play_restarts_or_switches() {
    let mut p = playlist_of(&["/m/A/a.mp3", "/m/A/b.mp3"]);
    p.start_playing(1, 5, String::new(), 500);
    assert!(matches!(p.prepare_play(1), PlayStart::Restart));
    assert_eq!(p.currently_playing_id(), Some(1));
    match p.prepare_play(0) {
        PlayStart::Switch(Some(s)) => assert_eq!(s.index(), 1),
        _ => panic!("expected the playing song back"),
    }
    assert_eq!(p.currently_playing_id(), None);
    assert!(matches!(p.prepare_play(0), PlayStart::Switch(None)));
}

#[test]
fn remove_before_playing_moves_it_down() {
    let mut p = playlist_of(&["/m/A/a.mp3", "/m/A/b.mp3", "/m/A/c.mp3"]);
    p.start_playing(2, 1, String::new(), 500);
    assert!(matches!(p.remove_song(0), AfterRemoval::Nothing));
    assert_eq!(p.len(), 2);
    assert_eq!(p.currently_playing_id(), Some(1));
    assert_eq!(titles(&p), vec![b"b\0".to_vec(), b"c\0".to_vec()]);
}

#[test]
fn remove_after_playing_keeps_it() {
    let mut p = playlist_of(&["/m/A/a.mp3", "/m/A/b.mp3", "/m/A/c.mp3"]);
    p.start_playing(0, 1, String::new(), 500);
    assert!(matches!(p.remove_song(2), AfterRemoval::Nothing));
    assert_eq!(p.currently_playing_id(), Some(0));
}

#[test]
fn remove_playing_plays_next_or_previous() {
    let mut p = playlist_of(&["/m/A/a.mp3", "/m/A/b.mp3", "/m/A/c.mp3"]);
    p.start_playing(1, 1, String::new(), 500);
    match p.remove_song(1) {
        AfterRemoval::Play(s, next) => {
            assert_eq!(s.index(), 1);
            assert_eq!(next, 1);
        }
        _ => panic!("expected a song to play"),
    }
    assert_eq!(p.currently_playing_id(), None);
    p.start_playing(1, 2, String::new(), 500);
    match p.remove_song(1) {
        AfterRemoval::Play(s, next) => {
            assert_eq!(*s.music(), 2);
            assert_eq!(next, 0);
        }
        _ => panic!("expected a song to play"),
    }
}

#[test]
fn remove_last_playing_stops() {
    let mut p = playlist_of(&["/m/A/a.mp3"]);
    p.start_playing(0, 3, String::new(), 500);
    match p.remove_song(0) {
        AfterRemoval::Stop(s) => assert_eq!(s.into_music(), 3),
        _ => panic!("expected a stop"),
    }
    assert_eq!(p.len(), 0);
    assert!(!p.has_music_stream());
}

#[test]
fn remove_out_of_range_changes_nothing() {
    let mut p = playlist_of(&["/m/A/a.mp3"]);
    p.start_playing(0, 3, String::new(), 500);
    assert!(matches!(p.remove_song(1), AfterRemoval::Nothing));
    assert_eq!(p.len(), 1);
    assert_eq!(p.currently_playing_id(), Some(0));
}

#[test]
fn remove_clamps_selection() {
    let mut p = playlist_of(&["/m/A/a.mp3", "/m/A/b.mp3", "/m/A/c.mp3"]);
    p.__render_current_selected = 5;
    p.remove_song(0);
    assert_eq!(p.__render_current_selected, 1);
    p.__render_current_selected = 1;
    p.remove_song(0);
    assert_eq!(p.__render_current_selected, 1);
}

#[test]
fn shuffle_swaps_and_follows_playing() {
    let mut p = playlist_of(&["/m/A/a.mp3", "/m/A/b.mp3", "/m/A/c.mp3"]);
    p.start_playing(0, 1, String::new(), 500);
    p.shuffle(&vec![(0, 2), (1, 1), (5, 0)]);
    assert_eq!(titles(&p), vec![b"c\0".to_vec(), b"b\0".to_vec(), b"a\0".to_vec()]);
    assert_eq!(p.currently_playing_id(), Some(2));
    assert_eq!(p.filename_vec(), Some(&b"a\0".to_vec()));
    p.shuffle(&vec![(1, 2)]);
    assert_eq!(p.currently_playing_id(), Some(1));
    assert_eq!(titles(&p), vec![b"c\0".to_vec(), b"a\0".to_vec(), b"b\0".to_vec()]);
}

#[test]
fn shuffle_empty_playlist() {
    let mut p: Playlist<u32> = Playlist::new();
    p.shuffle(&vec![(0, 0)]);
    assert_eq!(p.len(), 0);
}

#[test]
fn next_and_previous_slots() {
    let mut p = playlist_of(&["/m/A/a.mp3", "/m/A/b.mp3", "/m/A/c.mp3"]);
    assert_eq!(p.next_index(), 0);
    assert_eq!(p.previous_index(), Some(0));
    assert_eq!(p.previous_button_index(), 0);
    p.start_playing(0, 1, String::new(), 500);
    assert_eq!(p.next_index(), 1);
    assert_eq!(p.previous_index(), Some(1));
    assert_eq!(p.previous_button_index(), 0);
    p.start_playing(2, 1, String::new(), 500);
    assert_eq!(p.next_index(), 0);
    assert_eq!(p.previous_index(), Some(1));
    assert_eq!(p.previous_button_index(), 1);
}

#[test]
fn track_end_by_repeat_mode() {
    let mut p = playlist_of(&["/m/A/a.mp3", "/m/A/b.mp3"]);
    assert_eq!(p.on_track_end(), TrackEnd::Stop);
    p.start_playing(0, 1, String::new(), 500);
    assert_eq!(p.on_track_end(), TrackEnd::Play(1));
    p.start_playing(1, 1, String::new(), 500);
    assert_eq!(p.on_track_end(), TrackEnd::Stop);
    p.repeat_behavior.next();
    assert_eq!(p.on_track_end(), TrackEnd::Play(0));
    p.repeat_behavior.next();
    assert_eq!(p.on_track_end(), TrackEnd::Restart);
}

#[test]
fn stop_and_clear_hand_back_song() {
    let mut p = playlist_of(&["/m/A/a.mp3", "/m/A/b.mp3"]);
    assert!(p.stop_playing().is_none());
    p.start_playing(1, 6, String::new(), 500);
    assert_eq!(p.stop_playing().unwrap().into_music(), 6);
    p.start_playing(0, 7, String::new(), 500);
    assert_eq!(p.clear().unwrap().into_music(), 7);
    assert_eq!(p.len(), 0);
    assert!(!p.has_music_stream());
}

#[test]
fn selection_moves_and_init() {
    let mut p = playlist_of(&["/m/A/a.mp3", "/m/A/b.mp3", "/m/A/c.mp3"]);
    p.__render_scroll_index = -40;
    p.init_select(500);
    assert_eq!(p.__render_current_selected, 0);
    assert_eq!(p.__render_scroll_index, 0);
    p.select_previous(500);
    assert_eq!(p.__render_current_selected, 0);
    p.select_next(500);
    p.select_next(500);
    p.select_next(500);
    assert_eq!(p.__render_current_selected, 2);
    p.select_previous(500);
    assert_eq!(p.__render_current_selected, 1);
    p.start_playing(2, 1, String::new(), 500);
    p.init_select(100);
    assert_eq!(p.__render_current_selected, 2);
    assert_eq!(p.__render_scroll_index, -120);
}

#[test]
fn add_song_file_and_music_access() {
    let mut p: Playlist<u32> = Playlist::new();
    assert!(p.add_song_file(PathBuf::from("/m/Artist/Track.flac")));
    assert!(!p.add_song_file(PathBuf::from("/")));
    assert_eq!(p.len(), 1);
    assert!(p.current_music_mut().is_none());
    p.start_playing(0, 10, String::from("words"), 500);
    *p.current_music_mut().unwrap() += 1;
    assert_eq!(*p.currently_playing().unwrap().music(), 11);
    p.set_lyrics_dimensions((3, 4));
    assert_eq!(p.currently_playing().unwrap().lyrics_dimensions, Some((3, 4)));
    assert_eq!(p.currently_playing().unwrap().lyrics, "words");
}

#[test]
fn playlist_file_lines() {
    assert_eq!(playlist_file_paths("a.mp3\nb.mp3\n"), vec!["a.mp3", "b.mp3", ""]);
    assert_eq!(playlist_file_paths(""), vec![""]);
}

#[test]
fn focus_moves_through_rows() {
    let mut s = MainGuiState::default();
    let down = NavKeys { down: true, ..keys() };
    let up = NavKeys { up: true, ..keys() };
    let right = NavKeys { right: true, ..keys() };
    let left = NavKeys { left: true, ..keys() };
    assert!(!s.navigate(down));
    assert_eq!((s.current_x(), s.current_y()), (0, 1));
    for _ in 0..10 {
        s.navigate(right);
    }
    assert_eq!(s.current_x(), 6);
    assert!(s.top_button_focused(6));
    s.navigate(left);
    assert_eq!(s.current_x(), 5);
    s.navigate(down);
    assert_eq!((s.current_x(), s.current_y()), (0, 2));
    assert!(s.navigate(NavKeys { enter_released: true, ..keys() }));
    assert!(s.currently_unselected());
    s.navigate(down);
    assert_eq!(s.current_y(), 2);
    assert!(!s.navigate(NavKeys { escape_released: true, ..keys() }));
    assert!(!s.currently_unselected());
    assert_eq!(s.current_y(), 2);
    s.navigate(down);
    s.navigate(down);
    assert_eq!((s.current_x(), s.current_y()), (2, 4));
    assert!(s.control_button_focused(2));
    s.navigate(right);
    s.navigate(right);
    s.navigate(right);
    assert_eq!(s.current_x(), 4);
    s.navigate(down);
    assert_eq!((s.current_x(), s.current_y()), (0, 5));
    s.navigate(down);
    assert_eq!(s.current_y(), 5);
    s.navigate(up);
    assert_eq!((s.current_x(), s.current_y()), (1, 4));
    s.navigate(NavKeys { escape_released: true, ..keys() });
    assert_eq!(s.current_y(), 0);
    s.focus_top_bar();
    assert_eq!(s.current_y(), 1);
}

#[test]
fn enter_and_escape_in_one_frame() {
    let mut s = MainGuiState::default();
    s.navigate(NavKeys { down: true, ..keys() });
    s.navigate(NavKeys { down: true, ..keys() });
    assert!(s.navigate(NavKeys { enter_released: true, escape_released: true, ..keys() }));
    assert!(!s.currently_unselected());
    assert_eq!(s.current_y(), 2);
}

#[test]
fn screens() {
    assert!(GuiScreen::FileSelectSaveFile.picks_folder());
    assert!(GuiScreen::FileSelectAddFolder.picks_folder());
    assert!(!GuiScreen::FileSelectOpenFile.picks_folder());
    assert!(!GuiScreen::Player.is_file_select());
    assert!(GuiScreen::FileSelectAddFile.is_file_select());
    assert_ne!(Action::Nothing, Action::SwitchGuiScreen(GuiScreen::Lyrics));
}

#[test]
fn formats() {
    for ext in ["mp3", "ogg", "wav", "qoa", "flac", "xm", "mod"] {
        assert!(is_supported_format(ext.as_bytes()));
    }
    assert!(!is_supported_format(b"MP3"));
    assert!(!is_supported_format(b"m3u"));
    assert!(is_playlist_format(b"m3u"));
    assert!(!is_playlist_format(b"mp3"));
}

#[test]
fn listed_entries() {
    assert!(entry_listed(false, true, Some(b"mp3"), false));
    assert!(entry_listed(false, true, Some(b"m3u"), false));
    assert!(!entry_listed(false, true, Some(b"txt"), false));
    assert!(!entry_listed(false, true, None, false));
    assert!(!entry_listed(false, true, Some(b"mp3"), true));
    assert!(entry_listed(true, false, None, true));
    assert!(entry_listed(true, false, Some(b"d"), false));
    assert!(!entry_listed(false, false, None, false));
}

#[test]
fn labels() {
    assert_eq!(entry_label(true, b"Music"), Some(b"#217#Music\0".to_vec()));
    assert_eq!(entry_label(false, b"song.mp3"), Some(b"#218#song.mp3\0".to_vec()));
    assert_eq!(entry_label(false, b"song\0"), Some(b"#218#song\0".to_vec()));
    assert_eq!(entry_label(false, b"a\0b"), None);
}

#[test]
fn file_rows() {
    assert_eq!(file_choice(0, 3, true), FileChoice::Nothing);
    assert_eq!(file_choice(1, 3, true), FileChoice::Up);
    assert_eq!(file_choice(2, 3, false), FileChoice::Entry(0));
    assert_eq!(file_choice(4, 3, false), FileChoice::Entry(2));
    assert_eq!(file_choice(5, 3, true), FileChoice::Confirm);
    assert_eq!(file_choice(5, 3, false), FileChoice::Nothing);
    assert_eq!(file_choice(6, 3, true), FileChoice::Nothing);
    assert_eq!(step_selection(0, true, false, 3, false), 0);
    assert_eq!(step_selection(2, true, false, 3, false), 1);
    assert_eq!(step_selection(3, false, true, 3, false), 4);
    assert_eq!(step_selection(4, false, true, 3, false), 4);
    assert_eq!(step_selection(4, false, true, 3, true), 5);
    assert_eq!(step_selection(5, false, true, 3, true), 5);
    assert_eq!(step_selection(2, false, false, 3, true), 2);
}

#[test]
fn lyrics_box() {
    assert_eq!(get_dimensions(&vec![10, 30, 20], 10), (30, 57));
    assert_eq!(get_dimensions(&vec![], 10), (0, 12));
    assert_eq!(get_dimensions(&vec![-5], 3), (0, 16));
    assert_eq!(get_dimensions(&vec![1; 3], i32::MAX), (1, i32::MAX));
    assert_eq!(get_dimensions(&vec![5, 7], -3), (7, 4));
    assert_eq!(get_dimensions(&vec![0; 3], i32::MIN), (0, i32::MIN));
}

#[test]
fn byte_helpers() {
    assert!(bytes_equal(b"abc", b"abc"));
    assert!(!bytes_equal(b"abc", b"abd"));
    assert!(!bytes_equal(b"ab", b"abc"));
    let mut v = utf8_bytes("é");
    assert_eq!(v, vec![0xc3, 0xa9]);
    terminate(&mut v);
    assert_eq!(v, vec![0xc3, 0xa9, 0]);
    terminate(&mut v);
    assert_eq!(v, vec![0xc3, 0xa9, 0]);
}

#[test]
fn playlist_text_one_path_per_line() {
    let paths = vec![String::from("/m/a.mp3"), String::from("/m/é.ogg")];
    assert_eq!(playlist_text(&paths), "/m/a.mp3\n/m/é.ogg".as_bytes().to_vec());
    assert_eq!(playlist_text(&vec![String::from("x")]), b"x".to_vec());
    assert_eq!(playlist_text(&vec![]), Vec::<u8>::new());
}

#[test]
fn playlist_text_reads_back() {
    let paths = vec![String::from("/m/A/a.mp3"), String::from(""), String::from("/m/B/b c.flac")];
    let text = String::from_utf8(playlist_text(&paths)).unwrap();
    assert_eq!(playlist_file_paths(&text), vec!["/m/A/a.mp3", "", "/m/B/b c.flac"]);
}

#[test]
fn add_song_file_names_entry() {
    let mut p: Playlist<u32> = Playlist::new();
    assert!(p.add_song_file(PathBuf::from("/m/unknown/Band - Tune.mp3")));
    assert_eq!(p.get_songs()[0].file_name(), &b"Tune\0".to_vec());
    assert_eq!(p.get_songs()[0].author(), &b"Band\0".to_vec());
    assert!(!p.add_song_file(PathBuf::from("Song.mp3")));
    assert_eq!(p.len(), 1);
}

use playlist_player::menu::{parse_choice, trim_input, MenuChoice};

#[test]
fn each_menu_number_selects_its_entry() {
    assert_eq!(parse_choice("1"), MenuChoice::CreatePlaylist);
    assert_eq!(parse_choice("2"), MenuChoice::AddMusic);
    assert_eq!(parse_choice("3"), MenuChoice::PlayMusic);
    assert_eq!(parse_choice("4"), MenuChoice::Exit);
}

#[test]
fn choice_is_read_after_trimming_the_line() {
    assert_eq!(parse_choice("  2 \n"), MenuChoice::AddMusic);
    assert_eq!(parse_choice("3\r\n"), MenuChoice::PlayMusic);
    assert_eq!(parse_choice("\u{3000}4\u{85}"), MenuChoice::Exit);
}

#[test]
fn anything_else_is_an_invalid_choice() {
    assert_eq!(parse_choice(""), MenuChoice::Invalid);
    assert_eq!(parse_choice("   \n"), MenuChoice::Invalid);
    assert_eq!(parse_choice("5"), MenuChoice::Invalid);
    assert_eq!(parse_choice("0"), MenuChoice::Invalid);
    assert_eq!(parse_choice("12"), MenuChoice::Invalid);
    assert_eq!(parse_choice("1 2"), MenuChoice::Invalid);
    assert_eq!(parse_choice("one"), MenuChoice::Invalid);
}

#[test]
fn only_exit_ends_the_session() {
    assert!(MenuChoice::Exit.ends_session());
    assert!(!MenuChoice::CreatePlaylist.ends_session());
    assert!(!MenuChoice::AddMusic.ends_session());
    assert!(!MenuChoice::PlayMusic.ends_session());
    assert!(!MenuChoice::Invalid.ends_session());
}

#[test]
fn trim_removes_leading_and_trailing_white_space_only() {
    assert_eq!(trim_input("  road-trip \t\n"), "road-trip");
    assert_eq!(trim_input("song one.mp3"), "song one.mp3");
    assert_eq!(trim_input("\u{a0}café\u{2009}"), "café");
    assert_eq!(trim_input(" \t\r\n"), "");
    assert_eq!(trim_input(""), "");
}

#[test]
fn trim_agrees_with_std_trim() {
    for s in ["", " a ", "\n\tx y\u{200a}", "\u{1680}\u{205f}z", "no-space", "\u{2028}\u{2029}"] {
        assert_eq!(trim_input(s), s.trim());
    }
}

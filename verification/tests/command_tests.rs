use prtgn::about::get_about;
use prtgn::command::{command_for_extension, shortcut_command, Command};

fn args(v: &[&str]) -> Vec<String> {
    v.iter().map(|s| s.to_string()).collect()
}

#[test]
fn shortcuts() {
    match shortcut_command(&args(&["prtgn", "notes.prtgn"])) {
        Some(Command::Init { filename }) => assert_eq!(filename, "notes.prtgn"),
        _ => panic!("expected init"),
    }
    match shortcut_command(&args(&["prtgn", "dir/song.prtgn_wav"])) {
        Some(Command::Wav { filename, convert, play }) => {
            assert_eq!(filename, "dir/song.prtgn_wav");
            assert!(!convert && play);
        }
        _ => panic!("expected wav"),
    }
    assert!(matches!(shortcut_command(&args(&["prtgn", "x.prtgn_flac"])), Some(Command::Flac { convert: false, play: true, .. })));
    assert!(shortcut_command(&args(&["prtgn", "song.wav"])).is_none());
    assert!(shortcut_command(&args(&["prtgn", "fox"])).is_none());
    assert!(shortcut_command(&args(&["prtgn", "-h"])).is_none());
    assert!(shortcut_command(&args(&["prtgn", ".prtgn"])).is_none());
    assert!(shortcut_command(&args(&["prtgn", "a.b.prtgn_flac.prtgn"])).is_some());
    assert!(shortcut_command(&args(&["prtgn", "a.prtgn."])).is_none());
    assert!(shortcut_command(&args(&["prtgn"])).is_none());
    assert!(shortcut_command(&args(&["prtgn", "a.prtgn", "b"])).is_none());
}

#[test]
fn shortcuts_with_directories() {
    match shortcut_command(&args(&["prtgn", "dir/notes.prtgn"])) {
        Some(Command::Init { filename }) => assert_eq!(filename, "dir/notes.prtgn"),
        _ => panic!("expected init"),
    }
    assert!(matches!(shortcut_command(&args(&["prtgn", "/home/u/x.prtgn_wav"])), Some(Command::Wav { convert: false, play: true, .. })));
    assert!(matches!(shortcut_command(&args(&["prtgn", "./a.b/c.prtgn_flac"])), Some(Command::Flac { .. })));
    assert!(shortcut_command(&args(&["prtgn", "dir.prtgn/notes"])).is_none());
    assert!(shortcut_command(&args(&["prtgn", "dir/.prtgn"])).is_none());
}

#[test]
fn extensions() {
    assert!(matches!(command_for_extension("a".into(), Some("prtgn".into())), Some(Command::Init { .. })));
    assert!(command_for_extension("a".into(), Some("PRTGN".into())).is_none());
    assert!(command_for_extension("a".into(), None).is_none());
}

#[test]
fn about_text() {
    let about = get_about();
    let plain: String = {
        let mut out = String::new();
        let mut chars = about.chars().peekable();
        while let Some(c) = chars.next() {
            if c == '\u{1b}' {
                for d in chars.by_ref() {
                    if d == 'm' {
                        break;
                    }
                }
            } else {
                out.push(c);
            }
        }
        out
    };
    assert!(plain.starts_with("             ++++++++++++++++++++\n"));
    assert!(plain.contains(" +÷÷×××××××÷÷÷-+   +∞√√√∞++    +÷÷×××××××××÷++\n"));
    assert!(plain.contains("\n\n    A protogen CLI resource.\n\n    "));
    assert!(plain.contains("    .prtgn  Copyright (C) 2026  PRTGN Development Team\n"));
    assert!(plain.ends_with("Project inspired by Generic Purple Protogen (https://www.youtube.com/@genericpurpleprotogen1)\n\n    -----------------------------------------------------------------"));
    colored::control::set_override(true);
    let colored_about = get_about();
    assert!(colored_about.starts_with("\u{1b}[31m             ++++++++++++++++++++\u{1b}[0m\n"));
    assert!(colored_about.contains("\u{1b}[1mA protogen CLI resource.\u{1b}[0m"));
    assert!(colored_about.contains("\u{1b}[32m.prtgn\u{1b}[0m"));
    colored::control::set_override(false);
    assert_eq!(get_about(), plain);
}

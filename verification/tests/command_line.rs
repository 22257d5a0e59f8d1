use std::path::PathBuf;

use airadb::cli::{Args, ScrcpyLaunchMode};
use airadb::scrcpy::ScrcpyOptions;

fn line(words: &[&str]) -> Vec<PathBuf> {
    words.iter().map(PathBuf::from).collect()
}

#[test]
fn parses_scrcpy_launch_flags() {
    let default_args = Args::try_parse_from(line(&["airadb"])).unwrap();
    assert_eq!(default_args.scrcpy_launch_mode(), ScrcpyLaunchMode::Menu);

    let background_args = Args::try_parse_from(line(&["airadb", "--background"])).unwrap();
    assert_eq!(
        background_args.scrcpy_launch_mode(),
        ScrcpyLaunchMode::Background
    );

    let foreground_args = Args::try_parse_from(line(&["airadb", "--foreground"])).unwrap();
    assert_eq!(
        foreground_args.scrcpy_launch_mode(),
        ScrcpyLaunchMode::Foreground
    );
}

#[test]
fn builds_scrcpy_options_from_args() {
    let default_args = Args::try_parse_from(line(&["airadb"])).unwrap();
    assert_eq!(default_args.scrcpy_options(), ScrcpyOptions::default());

    let custom_args = Args::try_parse_from(line(&[
        "airadb",
        "--plain-window",
        "--always-on-top",
        "--window-title",
        "Ovi Pixel",
    ]))
    .unwrap();

    assert_eq!(
        custom_args.scrcpy_options(),
        ScrcpyOptions {
            borderless: false,
            always_on_top: true,
            window_title: "Ovi Pixel".to_string(),
            ..ScrcpyOptions::default()
        }
    );
}

#[test]
fn rejects_conflicting_scrcpy_launch_flags() {
    assert!(Args::try_parse_from(line(&["airadb", "--background", "--foreground"])).is_err());
}

#[test]
fn empty_line_gives_the_defaults() {
    let expected = Args {
        adb: None,
        scrcpy: None,
        timeout: 60,
        no_scrcpy_check: false,
        reset_adb: false,
        background: false,
        foreground: false,
        plain_window: false,
        always_on_top: false,
        window_title: "Pixel 10 Pro".to_string(),
    };
    assert_eq!(Args::try_parse_from(line(&["airadb"])).unwrap(), expected);
    assert_eq!(Args::try_parse_from(line(&["--help"])).unwrap(), expected);
    assert_eq!(Args::try_parse_from(line(&[])).unwrap(), expected);
}

#[test]
fn every_option_reaches_its_field() {
    let args = Args::try_parse_from(line(&[
        "/usr/bin/airadb",
        "--adb",
        "/opt/adb",
        "--scrcpy",
        "/opt/my scrcpy",
        "--timeout",
        "+90",
        "--no-scrcpy-check",
        "--reset-adb",
        "--background",
        "--plain-window",
        "--always-on-top",
        "--window-title",
        "",
    ]))
    .unwrap();
    assert_eq!(
        args,
        Args {
            adb: Some(PathBuf::from("/opt/adb")),
            scrcpy: Some(PathBuf::from("/opt/my scrcpy")),
            timeout: 90,
            no_scrcpy_check: true,
            reset_adb: true,
            background: true,
            foreground: false,
            plain_window: true,
            always_on_top: true,
            window_title: String::new(),
        }
    );
}

#[test]
fn each_switch_alone_turns_on_itself() {
    let only = |word: &str| Args::try_parse_from(line(&["airadb", word])).unwrap();
    let switches = |args: &Args| {
        [
            args.no_scrcpy_check,
            args.reset_adb,
            args.background,
            args.foreground,
            args.plain_window,
            args.always_on_top,
        ]
    };
    let words = [
        "--no-scrcpy-check",
        "--reset-adb",
        "--background",
        "--foreground",
        "--plain-window",
        "--always-on-top",
    ];
    for (i, word) in words.iter().enumerate() {
        for (j, on) in switches(&only(word)).iter().enumerate() {
            assert_eq!(*on, i == j);
        }
    }
}

#[test]
fn values_can_be_attached_with_an_equals_sign() {
    let args = Args::try_parse_from(line(&["airadb", "--timeout=5", "--window-title=-x"])).unwrap();
    assert_eq!(args.timeout, 5);
    assert_eq!(args.window_title, "-x");
}

#[test]
fn timeout_takes_all_of_its_range() {
    let timeout = |value: &str| {
        Args::try_parse_from(line(&["airadb", "--timeout", value])).map(|args| args.timeout)
    };
    assert_eq!(timeout("0"), Ok(0));
    assert_eq!(timeout("18446744073709551615"), Ok(u64::MAX));
    assert!(timeout("18446744073709551616").unwrap_err().is_error);
    assert!(timeout("soon").unwrap_err().is_error);
    assert!(timeout("-1").unwrap_err().is_error);
    assert!(timeout("").unwrap_err().is_error);
}

#[test]
fn refused_lines_are_errors() {
    let refused = [
        vec!["airadb", "--background", "--foreground"],
        vec!["airadb", "--foreground", "--background"],
        vec!["airadb", "--background", "--background"],
        vec!["airadb", "--adb"],
        vec!["airadb", "--adb", ""],
        vec!["airadb", "--scrcpy="],
        vec!["airadb", "--unknown"],
        vec!["airadb", "phone"],
        vec!["airadb", "--window-title", "-x"],
        vec!["airadb", "--background=yes"],
    ];
    for words in refused {
        let error = Args::try_parse_from(line(&words)).unwrap_err();
        assert!(error.is_error);
        assert_eq!(error.exit_code(), 2);
        assert!(error.text.starts_with("error: "));
    }
}

#[test]
fn conflict_names_both_switches() {
    let error =
        Args::try_parse_from(line(&["airadb", "--background", "--foreground"])).unwrap_err();
    assert!(error.text.contains("--background"));
    assert!(error.text.contains("--foreground"));
}

#[test]
fn help_shows_every_option_and_is_no_error() {
    let shown = Args::try_parse_from(line(&["airadb", "--help"])).unwrap_err();
    assert!(!shown.is_error);
    assert_eq!(shown.exit_code(), 0);
    let expected = [
        "Interactive QR pairing for Android wireless debugging.",
        "Usage: airadb",
        "--adb <PATH>",
        "Path to adb",
        "--scrcpy <PATH>",
        "Path to scrcpy",
        "--timeout <SECONDS>",
        "How long to wait for phone pairing and connection discovery [default: 60]",
        "--no-scrcpy-check",
        "Skip checking for scrcpy before launching it",
        "--reset-adb",
        "Kill and restart the local ADB server before pairing",
        "--background",
        "Start scrcpy in the background once connected and skip the menu",
        "--foreground",
        "Start scrcpy in the foreground once connected and skip the menu",
        "--plain-window",
        "Use scrcpy's regular decorated window instead of a borderless Pixel-style window",
        "--always-on-top",
        "Keep the scrcpy window above other windows",
        "--window-title <TEXT>",
        "Window title passed to scrcpy [default: \"Pixel 10 Pro\"]",
    ];
    for text in expected {
        assert!(shown.text.contains(text), "{} is missing", text);
    }
}

#[test]
fn version_is_shown_and_is_no_error() {
    let shown = Args::try_parse_from(line(&["airadb", "--version"])).unwrap_err();
    assert!(!shown.is_error);
    assert_eq!(shown.text, "airadb 0.1.0\n");
    assert_eq!(shown.styled, "airadb 0.1.0\n");
}

#[test]
fn paths_come_back_as_they_were_given() {
    let path = "/opt/größe 1/adb";
    let args = Args::try_parse_from(line(&["airadb", "--adb", path, "--scrcpy=-s"])).unwrap();
    assert_eq!(args.adb, Some(PathBuf::from(path)));
    assert_eq!(args.scrcpy, Some(PathBuf::from("-s")));
}

#[test]
fn styled_text_is_the_text_with_escape_codes() {
    let error = Args::try_parse_from(line(&["airadb", "--unknown"])).unwrap_err();
    assert!(error.styled.starts_with("\u{1b}[1m\u{1b}[31merror:\u{1b}[0m "));
    assert!(error.text.starts_with("error: "));
    assert!(!error.text.contains('\u{1b}'));
    let help = Args::try_parse_from(line(&["airadb", "--help"])).unwrap_err();
    assert!(help.styled.contains("\u{1b}[1m\u{1b}[4mUsage:"));
    for shown in [error, help] {
        let mut plain = String::new();
        let mut escaped = false;
        for c in shown.styled.chars() {
            if c == '\u{1b}' {
                escaped = true;
            } else if !escaped {
                plain.push(c);
            } else if c == 'm' {
                escaped = false;
            }
        }
        assert_eq!(plain, shown.text);
    }
}

//! The line editor: accumulation, limits, history and autocompletion.

use longan_nano::env::Env;
use longan_nano::led::Led;
use longan_nano::shell::{split_line, Shell};

/// Types a string and accepts it with a carriage return, returning the
/// line the editor handed back.
fn submit(sh: &mut Shell, s: &str) -> Option<String> {
    for b in s.bytes() {
        let out = sh.feed(b);
        assert!(out.line.is_none());
    }
    sh.feed(0x0d).line
}

#[test]
fn typed_line_is_echoed_and_accepted() {
    let mut sh = Shell::new(16, 4);
    let mut echoed = String::new();
    for b in "on r".bytes() {
        let out = sh.feed(b);
        assert!(!out.rejected);
        echoed.push_str(&out.echo);
    }
    assert_eq!(echoed, "on r");
    assert_eq!(sh.current_line(), "on r");
    let out = sh.feed(0x0d);
    assert_eq!(out.line.as_deref(), Some("on r"));
    assert_eq!(out.echo, "");
    assert_eq!(sh.current_line(), "");
}

#[test]
fn line_feed_is_ignored() {
    let mut sh = Shell::new(16, 4);
    assert_eq!(submit(&mut sh, "x").as_deref(), Some("x"));
    let out = sh.feed(0x0a);
    assert!(out.line.is_none());
    assert_eq!(out.echo, "");
    assert_eq!(sh.current_line(), "");
}

#[test]
fn overflow_character_is_rejected() {
    let mut sh = Shell::new(4, 4);
    for b in "abcd".bytes() {
        assert!(!sh.feed(b).rejected);
    }
    let out = sh.feed(b'e');
    assert!(out.rejected);
    assert!(out.line.is_none());
    assert_eq!(out.echo, "");
    assert_eq!(sh.current_line(), "abcd");
    let out = sh.feed(0x0d);
    assert_eq!(out.line.as_deref(), Some("abcd"));
}

#[test]
fn backspace_deletes_last_character() {
    let mut sh = Shell::new(16, 4);
    sh.feed(b'o');
    sh.feed(b'n');
    let out = sh.feed(0x08);
    assert_eq!(out.echo, "\u{8} \u{8}");
    assert_eq!(sh.current_line(), "o");
    sh.feed(0x7f);
    assert_eq!(sh.current_line(), "");
    let out = sh.feed(0x08);
    assert_eq!(out.echo, "");
    assert_eq!(sh.current_line(), "");
}

#[test]
fn history_keeps_last_four_lines_oldest_evicted() {
    let mut sh = Shell::new(16, 4);
    for s in ["c1", "c2", "c3", "c4", "c5"] {
        assert_eq!(submit(&mut sh, s).as_deref(), Some(s));
    }
    assert_eq!(sh.history_len(), 4);
    assert_eq!(sh.recent_line(0), "c5");
    assert_eq!(sh.recent_line(1), "c4");
    assert_eq!(sh.recent_line(2), "c3");
    assert_eq!(sh.recent_line(3), "c2");
}

#[test]
fn empty_lines_are_not_recorded() {
    let mut sh = Shell::new(16, 4);
    submit(&mut sh, "one");
    submit(&mut sh, "");
    assert_eq!(sh.history_len(), 1);
    assert_eq!(sh.recent_line(0), "one");
}

#[test]
fn arrow_keys_walk_history() {
    let mut sh = Shell::new(16, 4);
    submit(&mut sh, "on r");
    submit(&mut sh, "off b");
    // Up: newest entry.
    sh.feed(0x1b);
    sh.feed(b'[');
    let out = sh.feed(b'A');
    assert_eq!(out.echo, "\r\u{1b}[2K#> off b");
    assert_eq!(sh.current_line(), "off b");
    // Up again: older entry.
    sh.feed(0x1b);
    sh.feed(b'[');
    let out = sh.feed(b'A');
    assert_eq!(out.echo, "\r\u{1b}[2K#> on r");
    // Up at the oldest entry: nothing moves.
    sh.feed(0x1b);
    sh.feed(b'[');
    let out = sh.feed(b'A');
    assert_eq!(out.echo, "");
    assert_eq!(sh.current_line(), "on r");
    // Down: back to the newer entry, then to the empty line.
    sh.feed(0x1b);
    sh.feed(b'[');
    let out = sh.feed(b'B');
    assert_eq!(out.echo, "\r\u{1b}[2K#> off b");
    sh.feed(0x1b);
    sh.feed(b'[');
    let out = sh.feed(b'B');
    assert_eq!(out.echo, "\r\u{1b}[2K#> ");
    assert_eq!(sh.current_line(), "");
}

#[test]
fn unrecognized_escape_sequences_do_nothing() {
    let mut sh = Shell::new(16, 4);
    sh.feed(b'h');
    sh.feed(0x1b);
    sh.feed(b'[');
    sh.feed(b'1');
    let out = sh.feed(b'C');
    assert_eq!(out.echo, "");
    assert_eq!(sh.current_line(), "h");
    sh.feed(0x1b);
    let out = sh.feed(b'x');
    assert_eq!(out.echo, "");
    assert_eq!(sh.current_line(), "h");
}

#[test]
fn tab_completes_first_matching_candidate() {
    let mut sh = Shell::new(16, 4);
    sh.feed(b's');
    sh.feed(b't');
    let out = sh.feed(0x09);
    assert_eq!(out.echo, "atus");
    assert_eq!(sh.current_line(), "status");
    // A completed word gains nothing more.
    let out = sh.feed(0x09);
    assert_eq!(out.echo, "");
    assert_eq!(sh.current_line(), "status");
}

#[test]
fn tab_completion_keeps_trailing_space() {
    let mut sh = Shell::new(16, 4);
    sh.feed(b'o');
    sh.feed(b'f');
    let out = sh.feed(0x09);
    assert_eq!(out.echo, "f ");
    assert_eq!(sh.current_line(), "off ");
}

#[test]
fn tab_on_empty_buffer_takes_first_candidate() {
    let mut sh = Shell::new(16, 4);
    let out = sh.feed(0x09);
    assert_eq!(out.echo, "clear");
    assert_eq!(sh.current_line(), "clear");
}

#[test]
fn split_line_at_first_space() {
    let (c, a) = split_line("on r");
    assert_eq!((c.as_str(), a.as_str()), ("on", "r"));
    let (c, a) = split_line("status");
    assert_eq!((c.as_str(), a.as_str()), ("status", ""));
    let (c, a) = split_line("on  r");
    assert_eq!((c.as_str(), a.as_str()), ("on", " r"));
    let (c, a) = split_line("on r g");
    assert_eq!((c.as_str(), a.as_str()), ("on", "r g"));
    let (c, a) = split_line("");
    assert_eq!((c.as_str(), a.as_str()), ("", ""));
    let (c, a) = split_line(" on");
    assert_eq!((c.as_str(), a.as_str()), ("", "on"));
}

#[test]
fn step_runs_a_whole_session() {
    let mut sh = Shell::new(16, 4);
    let mut env = Env::new();
    let mut out = String::new();
    for b in "on all\r".bytes() {
        out.push_str(&sh.step(&mut env, b));
    }
    assert_eq!(out, "on all\r\n#> ");
    assert!(env.red.is_on() && env.green.is_on() && env.blue.is_on());
    let mut out = String::new();
    for b in "status\r".bytes() {
        out.push_str(&sh.step(&mut env, b));
    }
    assert_eq!(out, "status\r\nRed:   On\r\nGreen: On\r\nBlue:  On\r\n#> ");
    assert_eq!(sh.history_len(), 2);
    assert_eq!(sh.recent_line(0), "status");
}

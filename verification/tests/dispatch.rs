//! The dispatcher's command surface: replies and channel effects.

use longan_nano::env::Env;
use longan_nano::led::Led;

#[test]
fn on_token_then_status_reports_on() {
    let red = ["r", "red"];
    let green = ["g", "green"];
    let blue = ["b", "blue"];
    let all = ["a", "all"];
    for t in red {
        let mut env = Env::new();
        assert_eq!(env.handle("on", t), "\r\n#> ");
        assert_eq!(
            env.handle("status", ""),
            "\r\nRed:   On\r\nGreen: Off\r\nBlue:  Off\r\n#> "
        );
    }
    for t in green {
        let mut env = Env::new();
        assert_eq!(env.handle("on", t), "\r\n#> ");
        assert_eq!(
            env.handle("status", ""),
            "\r\nRed:   Off\r\nGreen: On\r\nBlue:  Off\r\n#> "
        );
    }
    for t in blue {
        let mut env = Env::new();
        assert_eq!(env.handle("on", t), "\r\n#> ");
        assert_eq!(
            env.handle("status", ""),
            "\r\nRed:   Off\r\nGreen: Off\r\nBlue:  On\r\n#> "
        );
    }
    for t in all {
        let mut env = Env::new();
        assert_eq!(env.handle("on", t), "\r\n#> ");
        assert_eq!(
            env.handle("status", ""),
            "\r\nRed:   On\r\nGreen: On\r\nBlue:  On\r\n#> "
        );
    }
}

#[test]
fn off_token_then_status_reports_off() {
    for (t, expect) in [
        ("r", "\r\nRed:   Off\r\nGreen: On\r\nBlue:  On\r\n#> "),
        ("red", "\r\nRed:   Off\r\nGreen: On\r\nBlue:  On\r\n#> "),
        ("g", "\r\nRed:   On\r\nGreen: Off\r\nBlue:  On\r\n#> "),
        ("green", "\r\nRed:   On\r\nGreen: Off\r\nBlue:  On\r\n#> "),
        ("b", "\r\nRed:   On\r\nGreen: On\r\nBlue:  Off\r\n#> "),
        ("blue", "\r\nRed:   On\r\nGreen: On\r\nBlue:  Off\r\n#> "),
        ("a", "\r\nRed:   Off\r\nGreen: Off\r\nBlue:  Off\r\n#> "),
        ("all", "\r\nRed:   Off\r\nGreen: Off\r\nBlue:  Off\r\n#> "),
    ] {
        let mut env = Env::new();
        env.handle("on", "all");
        assert_eq!(env.handle("off", t), "\r\n#> ");
        assert_eq!(env.handle("status", ""), expect);
    }
}

#[test]
fn unknown_channel_changes_nothing() {
    let mut env = Env::new();
    env.handle("on", "g");
    for bad in ["purple", "R", " r", "r ", "rg", ""] {
        let reply = env.handle("on", bad);
        assert_eq!(reply, "\r\nunsupported color channel\r\n#> ");
        let reply = env.handle("off", bad);
        assert_eq!(reply, "\r\nunsupported color channel\r\n#> ");
        assert!(!env.red.is_on());
        assert!(env.green.is_on());
        assert!(!env.blue.is_on());
    }
}

#[test]
fn empty_command_replies_bare_newline() {
    let mut env = Env::new();
    let reply = env.handle("", "");
    assert_eq!(reply, "\r\n#> ");
}

#[test]
fn unknown_command_echoed_verbatim() {
    let mut env = Env::new();
    for bad in ["foo", "On", "STATUS", "on\u{7}", "hel p"] {
        let reply = env.handle(bad, "");
        assert_eq!(
            reply,
            format!("\r\nunsupported command: \"{}\"\r\n#> ", bad)
        );
        assert!(!env.red.is_on() && !env.green.is_on() && !env.blue.is_on());
    }
}

#[test]
fn on_all_twice_is_idempotent() {
    let mut env = Env::new();
    env.handle("on", "all");
    let first = env.handle("status", "");
    env.handle("on", "all");
    let second = env.handle("status", "");
    assert_eq!(first, second);
    assert!(env.red.is_on() && env.green.is_on() && env.blue.is_on());

    env.handle("off", "all");
    let first = env.handle("status", "");
    env.handle("off", "all");
    let second = env.handle("status", "");
    assert_eq!(first, second);
    assert!(!env.red.is_on() && !env.green.is_on() && !env.blue.is_on());
}

#[test]
fn help_banner_exact() {
    let mut env = Env::new();
    let reply = env.handle("help", "");
    let expected = "\r\n\u{1b}[31mL\u{1b}[32mE\u{1b}[34mD\u{1b}[33m Shell\u{1b}[0m\r\n\r\nUSAGE:\r\n  command [arg]\r\n\r\nCOMMANDS:\r\n  on  <ch>  Switch led channel on [r,g,b,a]\r\n  off <ch>  Switch led channel off [r,g,b,a]\r\n  status    Get leds status\r\n  clear     Clear screen\r\n  help      Print this message\r\n\n#> ";
    assert_eq!(reply, expected);
}

#[test]
fn clear_replies_erase_sequence() {
    let mut env = Env::new();
    let reply = env.handle("clear", "");
    assert_eq!(reply, "\u{1b}[2J\u{1b}[0;0H#> ");
}

#[test]
fn commands_are_case_sensitive_and_untrimmed() {
    let mut env = Env::new();
    let reply = env.handle("Clear", "");
    assert_eq!(reply, "\r\nunsupported command: \"Clear\"\r\n#> ");
    let reply = env.handle("on ", "r");
    assert_eq!(reply, "\r\nunsupported command: \"on \"\r\n#> ");
    assert!(!env.red.is_on());
}

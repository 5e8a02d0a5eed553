//! Device handles, the history ring, the SD-card stubs and the text
//! helpers.

use longan_nano::history::History;
use longan_nano::led::{rgb, Led, BLUE, GREEN, RED};
use longan_nano::sdcard::{FakeTimeSource, SdCardFreq};
use longan_nano::stdout::expand_newlines;
use longan_nano::text::{chars_to_string, copy_chars, str_eq, string_chars};

#[test]
fn rgb_handles_start_off() {
    let (mut red, mut green, mut blue) = rgb();
    assert!(!red.is_on() && !green.is_on() && !blue.is_on());
    red.on();
    green.on();
    blue.on();
    assert!(red.is_on() && green.is_on() && blue.is_on());
    red.off();
    green.off();
    blue.off();
    assert!(!red.is_on() && !green.is_on() && !blue.is_on());
}

#[test]
fn led_handles_are_independent() {
    let mut red = RED::new();
    let mut green = GREEN::new();
    let blue = BLUE::new();
    red.on();
    assert!(red.is_on());
    assert!(!green.is_on());
    assert!(!blue.is_on());
    green.on();
    red.off();
    assert!(!red.is_on());
    assert!(green.is_on());
}

#[test]
fn history_ring_evicts_oldest() {
    let mut h = History::new(2);
    assert_eq!(h.len(), 0);
    assert_eq!(h.capacity(), 2);
    h.push(vec!['a']);
    h.push(vec!['b']);
    h.push(vec!['c']);
    assert_eq!(h.len(), 2);
    assert_eq!(h.recent(0), &vec!['c']);
    assert_eq!(h.recent(1), &vec!['b']);
}

#[test]
fn history_skips_empty_lines() {
    let mut h = History::new(2);
    h.push(vec![]);
    assert_eq!(h.len(), 0);
    h.push(vec!['x']);
    h.push(vec![]);
    assert_eq!(h.len(), 1);
}

#[test]
fn zero_capacity_history_stays_empty() {
    let mut h = History::new(0);
    h.push(vec!['a']);
    assert_eq!(h.len(), 0);
}

#[test]
fn sdcard_frequencies() {
    assert_eq!(SdCardFreq::Safe.hertz(), 200_000);
    assert_eq!(SdCardFreq::Fast.hertz(), 27_000_000);
    assert_eq!(SdCardFreq::Custom(1_000_000).hertz(), 1_000_000);
}

#[test]
fn fake_time_source_is_all_zero() {
    let t = FakeTimeSource {}.get_timestamp();
    assert_eq!(t.year_since_1970, 0);
    assert_eq!(t.zero_indexed_month, 0);
    assert_eq!(t.zero_indexed_day, 0);
    assert_eq!(t.hours, 0);
    assert_eq!(t.minutes, 0);
    assert_eq!(t.seconds, 0);
}

#[test]
fn text_round_trips() {
    let v = vec!['o', 'n', ' ', 'r'];
    let s = chars_to_string(&v);
    assert_eq!(s, "on r");
    assert_eq!(string_chars(&s), v);
    assert_eq!(copy_chars(&v), v);
    assert_eq!(chars_to_string(&Vec::new()), "");
}

#[test]
fn newline_expansion_for_serial_output() {
    assert_eq!(expand_newlines("hello\n"), "hello\r\n");
    assert_eq!(expand_newlines("a\nb\n"), "a\r\nb\r\n");
    assert_eq!(expand_newlines("\n\n"), "\r\n\r\n");
    assert_eq!(expand_newlines("already\r\n"), "already\r\r\n");
    assert_eq!(expand_newlines("plain"), "plain");
    assert_eq!(expand_newlines(""), "");
}

#[test]
fn str_eq_is_exact() {
    assert!(str_eq("red", "red"));
    assert!(!str_eq("red", "r"));
    assert!(!str_eq("red", "rex"));
    assert!(!str_eq("Red", "red"));
    assert!(str_eq("", ""));
}

//! The command dispatcher: the shell's environment.
//!
//! A completed line, split into a command name and an argument string, is
//! handed to [`Env::handle`]. The dispatcher switches the LED channels and
//! returns the exact text to write back to the transport: the reply for the
//! command followed by the prompt. Writing that text to the transport is the
//! caller's business; a failed write never touches channel state, which is
//! changed before the reply is handed out.
//!
//! Matching is by exact literal equality, case-sensitive, with no trimming:
//! an argument with stray whitespace fails to match and is reported as an
//! unsupported channel. The reply formatting follows the serial variant of
//! the on-board shell: replies open with a carriage-return/newline pair, the
//! `clear` reply is the ANSI erase-display sequence with the cursor moved
//! home, and the status lines pad the channel names to a common width.

use vstd::prelude::*;

use crate::led::{Led, BLUE, GREEN, RED};
use crate::text::str_eq;

verus! {

/// The logical on/off state of the three LED channels.
pub struct LedStates {
    pub red: bool,
    pub green: bool,
    pub blue: bool,
}

/// Tokens selecting the red channel.
pub open spec fn is_red_token(t: Seq<char>) -> bool {
    t == "r"@ || t == "red"@
}

/// Tokens selecting the green channel.
pub open spec fn is_green_token(t: Seq<char>) -> bool {
    t == "g"@ || t == "green"@
}

/// Tokens selecting the blue channel.
pub open spec fn is_blue_token(t: Seq<char>) -> bool {
    t == "b"@ || t == "blue"@
}

/// Tokens selecting every channel at once.
pub open spec fn is_all_token(t: Seq<char>) -> bool {
    t == "a"@ || t == "all"@
}

/// The recognized channel-argument vocabulary of `on` and `off`.
pub open spec fn is_channel_token(t: Seq<char>) -> bool {
    is_red_token(t) || is_green_token(t) || is_blue_token(t) || is_all_token(t)
}

/// The channel states after `on` with the given argument: the matching
/// channels are lit, the rest keep their state, and an unrecognized
/// argument changes nothing.
pub open spec fn leds_after_on(s: LedStates, t: Seq<char>) -> LedStates {
    if is_red_token(t) {
        LedStates { red: true, green: s.green, blue: s.blue }
    } else if is_green_token(t) {
        LedStates { red: s.red, green: true, blue: s.blue }
    } else if is_blue_token(t) {
        LedStates { red: s.red, green: s.green, blue: true }
    } else if is_all_token(t) {
        LedStates { red: true, green: true, blue: true }
    } else {
        s
    }
}

/// The channel states after `off` with the given argument.
pub open spec fn leds_after_off(s: LedStates, t: Seq<char>) -> LedStates {
    if is_red_token(t) {
        LedStates { red: false, green: s.green, blue: s.blue }
    } else if is_green_token(t) {
        LedStates { red: s.red, green: false, blue: s.blue }
    } else if is_blue_token(t) {
        LedStates { red: s.red, green: s.green, blue: false }
    } else if is_all_token(t) {
        LedStates { red: false, green: false, blue: false }
    } else {
        s
    }
}

/// The channel states after dispatching a command: only `on` and `off`
/// touch the channels.
pub open spec fn leds_after(s: LedStates, cmd: Seq<char>, args: Seq<char>) -> LedStates {
    if cmd == "clear"@ {
        s
    } else if cmd == "help"@ {
        s
    } else if cmd == "status"@ {
        s
    } else if cmd == "on"@ {
        leds_after_on(s, args)
    } else if cmd == "off"@ {
        leds_after_off(s, args)
    } else {
        s
    }
}

/// The line terminator of the shell's replies.
pub open spec fn crlf() -> Seq<char> {
    "\r\n"@
}

/// The prompt written after every completed command.
pub open spec fn prompt_text() -> Seq<char> {
    "#> "@
}

/// The reply to `clear`: erase the display and move the cursor to the top.
pub open spec fn clear_text() -> Seq<char> {
    "\u{1b}[2J\u{1b}[0;0H"@
}

/// The help banner.
pub open spec fn help_text() -> Seq<char> {
    "\r\n\u{1b}[31mL\u{1b}[32mE\u{1b}[34mD\u{1b}[33m Shell\u{1b}[0m\r\n\r\nUSAGE:\r\n  command [arg]\r\n\r\nCOMMANDS:\r\n  on  <ch>  Switch led channel on [r,g,b,a]\r\n  off <ch>  Switch led channel off [r,g,b,a]\r\n  status    Get leds status\r\n  clear     Clear screen\r\n  help      Print this message\r\n\n"@
}

/// How one channel's state reads in the status report.
pub open spec fn on_off_text(lit: bool) -> Seq<char> {
    if lit {
        "On"@
    } else {
        "Off"@
    }
}

/// The reply to `status`: one line per channel, names padded to a common
/// width.
pub open spec fn status_reply(s: LedStates) -> Seq<char> {
    "\r\nRed:   "@ + on_off_text(s.red) + "\r\nGreen: "@ + on_off_text(s.green) + "\r\nBlue:  "@
        + on_off_text(s.blue) + "\r\n"@
}

/// The reply to `on` or `off`: a bare line terminator when the argument is
/// recognized, the channel complaint otherwise.
pub open spec fn channel_reply(t: Seq<char>) -> Seq<char> {
    if is_channel_token(t) {
        "\r\n"@
    } else {
        "\r\nunsupported color channel\r\n"@
    }
}

/// The reply body of a dispatched command, before the prompt.
pub open spec fn reply_body(s: LedStates, cmd: Seq<char>, args: Seq<char>) -> Seq<char> {
    if cmd == "clear"@ {
        clear_text()
    } else if cmd == "help"@ {
        help_text()
    } else if cmd == "status"@ {
        status_reply(s)
    } else if cmd == "on"@ {
        channel_reply(args)
    } else if cmd == "off"@ {
        channel_reply(args)
    } else if cmd.len() == 0 {
        crlf()
    } else {
        "\r\nunsupported command: \""@ + cmd + "\"\r\n"@
    }
}

/// The full reply to a dispatched command: the body followed by the prompt.
pub open spec fn reply_full(s: LedStates, cmd: Seq<char>, args: Seq<char>) -> Seq<char> {
    reply_body(s, cmd, args) + prompt_text()
}

/// The dispatcher's environment: exclusive owner of the three LED handles.
pub struct Env {
    pub red: RED,
    pub green: GREEN,
    pub blue: BLUE,
}

impl View for Env {
    type V = LedStates;

    open spec fn view(&self) -> LedStates {
        LedStates { red: self.red.lit(), green: self.green.lit(), blue: self.blue.lit() }
    }
}

/// One channel's status text as written into the reply.
fn led_text(lit: bool) -> (r: &'static str)
    ensures
        r@ == on_off_text(lit),
{
    if lit {
        "On"
    } else {
        "Off"
    }
}

impl Env {
    /// An environment over fresh handles, every channel off.
    pub fn new() -> (r: Self)
        ensures
            r@ == (LedStates { red: false, green: false, blue: false }),
    {
        let (red, green, blue) = crate::led::rgb();
        Env { red, green, blue }
    }

    fn on_cmd(&mut self, args: &str) -> (hit: bool)
        ensures
            final(self)@ == leds_after_on(old(self)@, args@),
            hit == is_channel_token(args@),
    {
        if str_eq(args, "r") || str_eq(args, "red") {
            self.red.on();
            true
        } else if str_eq(args, "g") || str_eq(args, "green") {
            self.green.on();
            true
        } else if str_eq(args, "b") || str_eq(args, "blue") {
            self.blue.on();
            true
        } else if str_eq(args, "a") || str_eq(args, "all") {
            self.red.on();
            self.green.on();
            self.blue.on();
            true
        } else {
            false
        }
    }

    fn off_cmd(&mut self, args: &str) -> (hit: bool)
        ensures
            final(self)@ == leds_after_off(old(self)@, args@),
            hit == is_channel_token(args@),
    {
        if str_eq(args, "r") || str_eq(args, "red") {
            self.red.off();
            true
        } else if str_eq(args, "g") || str_eq(args, "green") {
            self.green.off();
            true
        } else if str_eq(args, "b") || str_eq(args, "blue") {
            self.blue.off();
            true
        } else if str_eq(args, "a") || str_eq(args, "all") {
            self.red.off();
            self.green.off();
            self.blue.off();
            true
        } else {
            false
        }
    }

    fn status_cmd(&self) -> (reply: String)
        ensures
            reply@ == status_reply(self@),
    {
        let mut reply = String::from_str("\r\nRed:   ");
        reply.append(led_text(self.red.is_on()));
        reply.append("\r\nGreen: ");
        reply.append(led_text(self.green.is_on()));
        reply.append("\r\nBlue:  ");
        reply.append(led_text(self.blue.is_on()));
        reply.append("\r\n");
        reply
    }

    /// Dispatches one parsed command.
    ///
    /// The matching channels are switched first; the returned text is the
    /// command's reply followed by the prompt, ready to be written to the
    /// transport. Unrecognized commands and channel arguments are reported
    /// in the reply, never as a failure, and never change a channel.
    pub fn handle(&mut self, cmd: &str, args: &str) -> (reply: String)
        ensures
            final(self)@ == leds_after(old(self)@, cmd@, args@),
            reply@ == reply_full(old(self)@, cmd@, args@),
    {
        let mut reply: String;
        if str_eq(cmd, "clear") {
            reply = String::from_str("\u{1b}[2J\u{1b}[0;0H");
        } else if str_eq(cmd, "help") {
            reply = String::from_str(
                "\r\n\u{1b}[31mL\u{1b}[32mE\u{1b}[34mD\u{1b}[33m Shell\u{1b}[0m\r\n\r\nUSAGE:\r\n  command [arg]\r\n\r\nCOMMANDS:\r\n  on  <ch>  Switch led channel on [r,g,b,a]\r\n  off <ch>  Switch led channel off [r,g,b,a]\r\n  status    Get leds status\r\n  clear     Clear screen\r\n  help      Print this message\r\n\n",
            );
        } else if str_eq(cmd, "status") {
            reply = self.status_cmd();
        } else if str_eq(cmd, "on") {
            let hit = self.on_cmd(args);
            if hit {
                reply = String::from_str("\r\n");
            } else {
                reply = String::from_str("\r\nunsupported color channel\r\n");
            }
        } else if str_eq(cmd, "off") {
            let hit = self.off_cmd(args);
            if hit {
                reply = String::from_str("\r\n");
            } else {
                reply = String::from_str("\r\nunsupported color channel\r\n");
            }
        } else if cmd.is_empty() {
            reply = String::from_str("\r\n");
        } else {
            reply = String::from_str("\r\nunsupported command: \"");
            reply.append(cmd);
            reply.append("\"\r\n");
        }
        reply.append("#> ");
        reply
    }
}

/// Pins down the five command names, character by character.
proof fn command_literals_facts()
    ensures
        "clear"@ == seq!['c', 'l', 'e', 'a', 'r'],
        "help"@ == seq!['h', 'e', 'l', 'p'],
        "status"@ == seq!['s', 't', 'a', 't', 'u', 's'],
        "on"@ == seq!['o', 'n'],
        "off"@ == seq!['o', 'f', 'f'],
{
    reveal_strlit("clear");
    reveal_strlit("help");
    reveal_strlit("status");
    reveal_strlit("on");
    reveal_strlit("off");
    assert("clear"@ =~= seq!['c', 'l', 'e', 'a', 'r']);
    assert("help"@ =~= seq!['h', 'e', 'l', 'p']);
    assert("status"@ =~= seq!['s', 't', 'a', 't', 'u', 's']);
    assert("on"@ =~= seq!['o', 'n']);
    assert("off"@ =~= seq!['o', 'f', 'f']);
}

/// Pins down the eight channel tokens, character by character.
proof fn token_literals_facts()
    ensures
        "r"@ == seq!['r'],
        "red"@ == seq!['r', 'e', 'd'],
        "g"@ == seq!['g'],
        "green"@ == seq!['g', 'r', 'e', 'e', 'n'],
        "b"@ == seq!['b'],
        "blue"@ == seq!['b', 'l', 'u', 'e'],
        "a"@ == seq!['a'],
        "all"@ == seq!['a', 'l', 'l'],
        "r"@ != "g"@,
        "r"@ != "b"@,
        "r"@ != "a"@,
        "g"@ != "b"@,
        "g"@ != "a"@,
        "b"@ != "a"@,
        "red"@ != "all"@,
{
    reveal_strlit("r");
    reveal_strlit("red");
    reveal_strlit("g");
    reveal_strlit("green");
    reveal_strlit("b");
    reveal_strlit("blue");
    reveal_strlit("a");
    reveal_strlit("all");
    assert("r"@ =~= seq!['r']);
    assert("red"@ =~= seq!['r', 'e', 'd']);
    assert("g"@ =~= seq!['g']);
    assert("green"@ =~= seq!['g', 'r', 'e', 'e', 'n']);
    assert("b"@ =~= seq!['b']);
    assert("blue"@ =~= seq!['b', 'l', 'u', 'e']);
    assert("a"@ =~= seq!['a']);
    assert("all"@ =~= seq!['a', 'l', 'l']);
    assert("r"@[0] == 'r' && "g"@[0] == 'g' && "b"@[0] == 'b' && "a"@[0] == 'a');
    assert("red"@[0] == 'r' && "all"@[0] == 'a');
}

/// Switching a recognized channel token on sets exactly the matching
/// channels and leaves the rest as they were; a status report taken
/// afterwards then reads `On` for every matched channel.
pub proof fn lemma_on_then_status(s: LedStates, t: Seq<char>, e: Seq<char>)
    requires
        is_channel_token(t),
    ensures
        ({
            let s2 = leds_after(s, "on"@, t);
            &&& (is_red_token(t) || is_all_token(t)) ==> s2.red
            &&& (is_green_token(t) || is_all_token(t)) ==> s2.green
            &&& (is_blue_token(t) || is_all_token(t)) ==> s2.blue
            &&& !(is_red_token(t) || is_all_token(t)) ==> s2.red == s.red
            &&& !(is_green_token(t) || is_all_token(t)) ==> s2.green == s.green
            &&& !(is_blue_token(t) || is_all_token(t)) ==> s2.blue == s.blue
            &&& reply_body(s2, "status"@, e) == "\r\nRed:   "@ + on_off_text(s2.red)
                + "\r\nGreen: "@ + on_off_text(s2.green) + "\r\nBlue:  "@ + on_off_text(s2.blue)
                + "\r\n"@
            &&& (is_red_token(t) || is_all_token(t)) ==> on_off_text(s2.red) == "On"@
            &&& (is_green_token(t) || is_all_token(t)) ==> on_off_text(s2.green) == "On"@
            &&& (is_blue_token(t) || is_all_token(t)) ==> on_off_text(s2.blue) == "On"@
        }),
{
    command_literals_facts();
    token_literals_facts();
}

/// Switching a recognized channel token off clears exactly the matching
/// channels and leaves the rest as they were; a status report taken
/// afterwards then reads `Off` for every matched channel.
pub proof fn lemma_off_then_status(s: LedStates, t: Seq<char>, e: Seq<char>)
    requires
        is_channel_token(t),
    ensures
        ({
            let s2 = leds_after(s, "off"@, t);
            &&& (is_red_token(t) || is_all_token(t)) ==> !s2.red
            &&& (is_green_token(t) || is_all_token(t)) ==> !s2.green
            &&& (is_blue_token(t) || is_all_token(t)) ==> !s2.blue
            &&& !(is_red_token(t) || is_all_token(t)) ==> s2.red == s.red
            &&& !(is_green_token(t) || is_all_token(t)) ==> s2.green == s.green
            &&& !(is_blue_token(t) || is_all_token(t)) ==> s2.blue == s.blue
            &&& reply_body(s2, "status"@, e) == "\r\nRed:   "@ + on_off_text(s2.red)
                + "\r\nGreen: "@ + on_off_text(s2.green) + "\r\nBlue:  "@ + on_off_text(s2.blue)
                + "\r\n"@
            &&& (is_red_token(t) || is_all_token(t)) ==> on_off_text(s2.red) == "Off"@
            &&& (is_green_token(t) || is_all_token(t)) ==> on_off_text(s2.green) == "Off"@
            &&& (is_blue_token(t) || is_all_token(t)) ==> on_off_text(s2.blue) == "Off"@
        }),
{
    command_literals_facts();
    token_literals_facts();
}

/// An unrecognized channel argument to `on` or `off` changes no channel and
/// draws the channel complaint as the reply body.
pub proof fn lemma_unrecognized_channel(s: LedStates, t: Seq<char>)
    requires
        !is_channel_token(t),
    ensures
        leds_after(s, "on"@, t) == s,
        leds_after(s, "off"@, t) == s,
        reply_body(s, "on"@, t) == "\r\nunsupported color channel\r\n"@,
        reply_body(s, "off"@, t) == "\r\nunsupported color channel\r\n"@,
{
    command_literals_facts();
}

/// An empty command draws exactly one line terminator as its reply body,
/// and nothing else.
pub proof fn lemma_empty_command(s: LedStates, cmd: Seq<char>, args: Seq<char>)
    requires
        cmd.len() == 0,
    ensures
        reply_body(s, cmd, args) == crlf(),
        crlf() == seq!['\r', '\n'],
{
    reveal_strlit("clear");
    reveal_strlit("help");
    reveal_strlit("status");
    reveal_strlit("on");
    reveal_strlit("off");
    reveal_strlit("\r\n");
    assert(crlf() =~= seq!['\r', '\n']);
}

/// A command outside the recognized set draws the complaint with the
/// command echoed verbatim between the quotation marks.
pub proof fn lemma_unsupported_command(s: LedStates, cmd: Seq<char>, args: Seq<char>)
    requires
        cmd != "clear"@,
        cmd != "help"@,
        cmd != "status"@,
        cmd != "on"@,
        cmd != "off"@,
        cmd.len() != 0,
    ensures
        reply_body(s, cmd, args) == "\r\nunsupported command: \""@ + cmd + "\"\r\n"@,
{
}

/// Dispatching the same command twice leaves the channels exactly as one
/// dispatch does, whatever the command.
pub proof fn lemma_dispatch_idempotent(s: LedStates, cmd: Seq<char>, args: Seq<char>)
    ensures
        leds_after(leds_after(s, cmd, args), cmd, args) == leds_after(s, cmd, args),
{
}

/// `on all` twice ends as `on all` once: every channel lit.
pub proof fn lemma_on_all_idempotent(s: LedStates)
    ensures
        ({
            let s1 = leds_after(s, "on"@, "all"@);
            &&& leds_after(s1, "on"@, "all"@) == s1
            &&& s1 == (LedStates { red: true, green: true, blue: true })
        }),
{
    command_literals_facts();
    token_literals_facts();
}

/// `off all` twice ends as `off all` once: every channel dark.
pub proof fn lemma_off_all_idempotent(s: LedStates)
    ensures
        ({
            let s1 = leds_after(s, "off"@, "all"@);
            &&& leds_after(s1, "off"@, "all"@) == s1
            &&& s1 == (LedStates { red: false, green: false, blue: false })
        }),
{
    command_literals_facts();
    token_literals_facts();
}

} // verus!

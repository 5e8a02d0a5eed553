//! The line editor: accumulates bytes into a command line, drives the
//! history ring and the autocompletion, and hands completed lines on.
//!
//! Bytes arrive one at a time through [`Shell::feed`]. Printable characters
//! are appended to the edit buffer as long as it is below its fixed maximum
//! length; a character beyond that bound is rejected outright, leaving the
//! buffer untouched. Carriage return accepts the line, records it in the
//! history and resets the buffer. Backspace deletes the last character.
//! Tab completes the buffer to the first matching candidate of the fixed
//! command set. The arrow keys arrive as escape sequences and walk the
//! history: up towards older entries, down back towards the empty line.
//! Line feed and every other control byte are ignored, and any byte that is
//! neither a parameter nor an arrow within an escape sequence ends that
//! sequence without effect.

use vstd::prelude::*;

use crate::env::{leds_after, prompt_text, reply_full, Env};
use crate::history::{hist_push, History};
use crate::text::{chars_to_string, copy_chars, push_char};

verus! {

/// Where the editor stands within an escape sequence.
#[derive(PartialEq, Eq, Structural)]
pub enum EscState {
    /// Plain input.
    Normal,
    /// An escape byte was read.
    Escape,
    /// Escape and `[` were read: an arrow key may follow.
    Bracket,
}

/// Bytes that join the edit buffer: the printable ASCII range.
pub open spec fn is_printable(b: u8) -> bool {
    0x20 <= b <= 0x7e
}

/// The carriage return that accepts a line.
pub open spec fn is_cr(b: u8) -> bool {
    b == 0x0d
}

/// The two bytes commonly sent for backspace.
pub open spec fn is_backspace(b: u8) -> bool {
    b == 0x08 || b == 0x7f
}

/// The first index at which the line holds a space, if any: everything
/// before it is the command name.
pub open spec fn is_first_space(line: Seq<char>, i: int) -> bool {
    &&& 0 <= i < line.len()
    &&& line[i] == ' '
    &&& forall|j: int| 0 <= j < i ==> line[j] != ' '
}

/// Whether the line holds a space at all.
pub open spec fn has_space(line: Seq<char>) -> bool {
    exists|i: int| is_first_space(line, i)
}

/// The command name of an accepted line: everything before the first
/// space, or the whole line when there is none.
pub open spec fn cmd_of(line: Seq<char>) -> Seq<char> {
    if has_space(line) {
        line.subrange(0, choose|i: int| is_first_space(line, i))
    } else {
        line
    }
}

/// The argument string of an accepted line: everything after the first
/// space, untouched, or the empty string when there is none.
pub open spec fn args_of(line: Seq<char>) -> Seq<char> {
    if has_space(line) {
        line.subrange((choose|i: int| is_first_space(line, i)) + 1, line.len() as int)
    } else {
        Seq::empty()
    }
}

/// At most one index is the first space.
proof fn lemma_first_space_unique(line: Seq<char>, i: int, j: int)
    requires
        is_first_space(line, i),
        is_first_space(line, j),
    ensures
        i == j,
{
    if i < j {
        assert(line[i] != ' ');
    }
    if j < i {
        assert(line[j] != ' ');
    }
}

/// Splits an accepted line into the command name and the argument string
/// at the first space; the space itself belongs to neither part.
pub fn split_line(line: &str) -> (r: (String, String))
    ensures
        r.0@ == cmd_of(line@),
        r.1@ == args_of(line@),
{
    let len = line.unicode_len();
    let mut i: usize = 0;
    while i < len
        invariant
            i <= len,
            len == line@.len(),
            forall|j: int| 0 <= j < i ==> line@[j] != ' ',
        decreases len - i,
    {
        if line.get_char(i) == ' ' {
            proof {
                assert(is_first_space(line@, i as int));
                let w = choose|k: int| is_first_space(line@, k);
                lemma_first_space_unique(line@, i as int, w);
            }
            let cmd = line.substring_char(0, i);
            let args = line.substring_char(i + 1, len);
            return (cmd.to_owned(), args.to_owned());
        }
        i += 1;
    }
    proof {
        assert(!has_space(line@));
        assert(Seq::<char>::empty() =~= ""@) by {
            reveal_strlit("");
        }
    }
    (line.to_owned(), String::from_str(""))
}

/// The fixed autocompletion candidates, tried in this order. The two
/// commands that take an argument carry their trailing space, so that
/// completing them leaves the cursor ready for the channel token.
pub open spec fn candidate_list() -> Seq<Seq<char>> {
    seq!["clear"@, "help"@, "status"@, "off "@, "on "@]
}

/// The first candidate that the buffer is a proper prefix of, if any.
pub open spec fn find_completion(cs: Seq<Seq<char>>, buf: Seq<char>) -> Option<Seq<char>>
    decreases cs.len(),
{
    if cs.len() == 0 {
        Option::None
    } else if buf.is_prefix_of(cs.first()) && buf.len() < cs.first().len() {
        Option::Some(cs.first())
    } else {
        find_completion(cs.drop_first(), buf)
    }
}

/// What a tab would complete the buffer to, if anything.
pub open spec fn completion_of(buf: Seq<char>) -> Option<Seq<char>> {
    find_completion(candidate_list(), buf)
}

/// A completion extends the buffer properly.
proof fn lemma_find_completion_props(cs: Seq<Seq<char>>, buf: Seq<char>)
    ensures
        match find_completion(cs, buf) {
            Option::Some(t) => buf.is_prefix_of(t) && buf.len() < t.len(),
            Option::None => true,
        },
    decreases cs.len(),
{
    if cs.len() > 0 {
        if !(buf.is_prefix_of(cs.first()) && buf.len() < cs.first().len()) {
            lemma_find_completion_props(cs.drop_first(), buf);
        }
    }
}

/// Ruling out a non-matching candidate moves the search one entry on.
proof fn lemma_find_completion_step(cs: Seq<Seq<char>>, buf: Seq<char>, i: int)
    requires
        0 <= i < cs.len(),
        !(buf.is_prefix_of(cs[i]) && buf.len() < cs[i].len()),
    ensures
        find_completion(cs.skip(i), buf) == find_completion(cs.skip(i + 1), buf),
{
    assert(cs.skip(i).first() == cs[i]);
    assert(cs.skip(i).drop_first() =~= cs.skip(i + 1));
}

/// A matching candidate ends the search with itself.
proof fn lemma_find_completion_hit(cs: Seq<Seq<char>>, buf: Seq<char>, i: int)
    requires
        0 <= i < cs.len(),
        buf.is_prefix_of(cs[i]),
        buf.len() < cs[i].len(),
    ensures
        find_completion(cs.skip(i), buf) == Option::Some(cs[i]),
{
    assert(cs.skip(i).first() == cs[i]);
}

/// The outcome of one history-navigation key: the new buffer, the new
/// position, and whether anything moved.
pub struct NavMove {
    pub line: Seq<char>,
    pub pos: Option<int>,
    pub moved: bool,
}

/// Up-arrow: step from the edit buffer to the newest history entry, or
/// from an entry to the next older one; at the oldest entry nothing moves.
pub open spec fn nav_up_move(line: Seq<char>, hist: Seq<Seq<char>>, pos: Option<int>) -> NavMove {
    match pos {
        Option::None => if hist.len() > 0 {
            NavMove { line: hist[hist.len() - 1], pos: Option::Some(0), moved: true }
        } else {
            NavMove { line, pos, moved: false }
        },
        Option::Some(i) => if i + 1 < hist.len() {
            NavMove { line: hist[hist.len() - 2 - i], pos: Option::Some(i + 1), moved: true }
        } else {
            NavMove { line, pos, moved: false }
        },
    }
}

/// Down-arrow: step back towards newer entries; from the newest entry the
/// buffer returns to the empty line. Outside navigation nothing moves.
pub open spec fn nav_down_move(line: Seq<char>, hist: Seq<Seq<char>>, pos: Option<int>) -> NavMove {
    match pos {
        Option::None => NavMove { line, pos, moved: false },
        Option::Some(i) => if i == 0 {
            NavMove { line: Seq::empty(), pos: Option::None, moved: true }
        } else {
            NavMove { line: hist[hist.len() - i], pos: Option::Some(i - 1), moved: true }
        },
    }
}

/// The text redrawing the current line after history navigation: return to
/// the line start, erase it, and write the prompt and the new buffer.
pub open spec fn redraw_text(line: Seq<char>) -> Seq<char> {
    "\r\u{1b}[2K"@ + prompt_text() + line
}

/// Everything one fed byte does to the editor: the state it leaves behind
/// and the visible outcome.
pub struct ShellStep {
    /// The edit buffer afterwards.
    pub line: Seq<char>,
    /// The history entries afterwards, oldest first.
    pub hist: Seq<Seq<char>>,
    /// The navigation position afterwards.
    pub nav: Option<int>,
    /// The escape-sequence state afterwards.
    pub esc: EscState,
    /// What the terminal is shown in response.
    pub echo: Seq<char>,
    /// The accepted line, when the byte completed one.
    pub accepted: Option<Seq<char>>,
    /// Whether the byte was a printable character refused for want of room.
    pub rejected: bool,
}

/// The editor's transition function, one byte at a time.
pub open spec fn shell_step(s: &Shell, b: u8) -> ShellStep {
    match s.esc_state() {
        EscState::Normal => {
            if is_cr(b) {
                ShellStep {
                    line: Seq::empty(),
                    hist: hist_push(s.hist(), s.cap(), s.line()),
                    nav: Option::None,
                    esc: EscState::Normal,
                    echo: Seq::empty(),
                    accepted: Option::Some(s.line()),
                    rejected: false,
                }
            } else if is_backspace(b) {
                if s.line().len() > 0 {
                    ShellStep {
                        line: s.line().drop_last(),
                        hist: s.hist(),
                        nav: Option::None,
                        esc: EscState::Normal,
                        echo: "\u{8} \u{8}"@,
                        accepted: Option::None,
                        rejected: false,
                    }
                } else {
                    ShellStep {
                        line: s.line(),
                        hist: s.hist(),
                        nav: s.nav_pos(),
                        esc: EscState::Normal,
                        echo: Seq::empty(),
                        accepted: Option::None,
                        rejected: false,
                    }
                }
            } else if b == 0x09 {
                match completion_of(s.line()) {
                    Option::Some(t) => if t.len() <= s.max() {
                        ShellStep {
                            line: t,
                            hist: s.hist(),
                            nav: Option::None,
                            esc: EscState::Normal,
                            echo: t.skip(s.line().len() as int),
                            accepted: Option::None,
                            rejected: false,
                        }
                    } else {
                        ShellStep {
                            line: s.line(),
                            hist: s.hist(),
                            nav: s.nav_pos(),
                            esc: EscState::Normal,
                            echo: Seq::empty(),
                            accepted: Option::None,
                            rejected: false,
                        }
                    },
                    Option::None => ShellStep {
                        line: s.line(),
                        hist: s.hist(),
                        nav: s.nav_pos(),
                        esc: EscState::Normal,
                        echo: Seq::empty(),
                        accepted: Option::None,
                        rejected: false,
                    },
                }
            } else if b == 0x1b {
                ShellStep {
                    line: s.line(),
                    hist: s.hist(),
                    nav: s.nav_pos(),
                    esc: EscState::Escape,
                    echo: Seq::empty(),
                    accepted: Option::None,
                    rejected: false,
                }
            } else if is_printable(b) {
                if s.line().len() < s.max() {
                    ShellStep {
                        line: s.line().push(b as char),
                        hist: s.hist(),
                        nav: Option::None,
                        esc: EscState::Normal,
                        echo: seq![b as char],
                        accepted: Option::None,
                        rejected: false,
                    }
                } else {
                    ShellStep {
                        line: s.line(),
                        hist: s.hist(),
                        nav: s.nav_pos(),
                        esc: EscState::Normal,
                        echo: Seq::empty(),
                        accepted: Option::None,
                        rejected: true,
                    }
                }
            } else {
                ShellStep {
                    line: s.line(),
                    hist: s.hist(),
                    nav: s.nav_pos(),
                    esc: EscState::Normal,
                    echo: Seq::empty(),
                    accepted: Option::None,
                    rejected: false,
                }
            }
        },
        EscState::Escape => ShellStep {
            line: s.line(),
            hist: s.hist(),
            nav: s.nav_pos(),
            esc: if b == 0x5b {
                EscState::Bracket
            } else {
                EscState::Normal
            },
            echo: Seq::empty(),
            accepted: Option::None,
            rejected: false,
        },
        EscState::Bracket => {
            if b == 0x41 {
                let m = nav_up_move(s.line(), s.hist(), s.nav_pos());
                ShellStep {
                    line: m.line,
                    hist: s.hist(),
                    nav: m.pos,
                    esc: EscState::Normal,
                    echo: if m.moved {
                        redraw_text(m.line)
                    } else {
                        Seq::empty()
                    },
                    accepted: Option::None,
                    rejected: false,
                }
            } else if b == 0x42 {
                let m = nav_down_move(s.line(), s.hist(), s.nav_pos());
                ShellStep {
                    line: m.line,
                    hist: s.hist(),
                    nav: m.pos,
                    esc: EscState::Normal,
                    echo: if m.moved {
                        redraw_text(m.line)
                    } else {
                        Seq::empty()
                    },
                    accepted: Option::None,
                    rejected: false,
                }
            } else if 0x30 <= b && b <= 0x3f {
                ShellStep {
                    line: s.line(),
                    hist: s.hist(),
                    nav: s.nav_pos(),
                    esc: EscState::Bracket,
                    echo: Seq::empty(),
                    accepted: Option::None,
                    rejected: false,
                }
            } else {
                ShellStep {
                    line: s.line(),
                    hist: s.hist(),
                    nav: s.nav_pos(),
                    esc: EscState::Normal,
                    echo: Seq::empty(),
                    accepted: Option::None,
                    rejected: false,
                }
            }
        },
    }
}

/// Line length boundary law: a printable byte fed to a buffer already at
/// the maximum length is rejected and changes nothing, visibly so; below
/// the maximum it simply joins the buffer.
pub proof fn lemma_line_length_boundary(s: &Shell, b: u8)
    requires
        s.esc_state() == EscState::Normal,
        is_printable(b),
    ensures
        ({
            let st = shell_step(s, b);
            &&& s.line().len() == s.max() ==> {
                &&& st.rejected
                &&& st.line == s.line()
                &&& st.hist == s.hist()
                &&& st.nav == s.nav_pos()
                &&& st.esc == EscState::Normal
                &&& st.echo == Seq::<char>::empty()
                &&& st.accepted is None
            }
            &&& s.line().len() < s.max() ==> {
                &&& !st.rejected
                &&& st.line == s.line().push(b as char)
                &&& st.hist == s.hist()
            }
        }),
{
}

/// The line editor.
pub struct Shell {
    buf: Vec<char>,
    max_len: usize,
    history: History,
    nav: Option<usize>,
    esc: EscState,
}

/// What one fed byte handed back: the echo to write to the terminal, the
/// accepted line when the byte completed one, and whether the byte was
/// refused for want of room.
pub struct FeedOutcome {
    pub echo: String,
    pub line: Option<String>,
    pub rejected: bool,
}

impl Shell {
    /// The current edit buffer.
    pub closed spec fn line(&self) -> Seq<char> {
        self.buf@
    }

    /// The fixed maximum line length.
    pub closed spec fn max(&self) -> nat {
        self.max_len as nat
    }

    /// The recorded history, oldest first.
    pub closed spec fn hist(&self) -> Seq<Seq<char>> {
        self.history@
    }

    /// The history capacity.
    pub closed spec fn cap(&self) -> nat {
        self.history.cap()
    }

    /// The navigation position: which entry, by recency, the buffer shows.
    pub closed spec fn nav_pos(&self) -> Option<int> {
        match self.nav {
            Option::Some(i) => Option::Some(i as int),
            Option::None => Option::None,
        }
    }

    /// Where the editor stands within an escape sequence.
    pub closed spec fn esc_state(&self) -> EscState {
        self.esc
    }

    /// The editor's invariant: the buffer and every history entry stay
    /// within the maximum line length, the history is within capacity, and
    /// the navigation position points at a recorded entry.
    pub closed spec fn wf(&self) -> bool {
        &&& self.buf@.len() <= self.max_len
        &&& self.history.wf()
        &&& forall|i: int| 0 <= i < self.history@.len() ==> self.history@[i].len() <= self.max_len
        &&& match self.nav {
            Option::Some(i) => i < self.history@.len(),
            Option::None => true,
        }
    }

    /// Whether the buffer is a prefix of the candidate.
    fn buf_prefix_of(buf: &Vec<char>, cand: &str) -> (r: bool)
        ensures
            r == buf@.is_prefix_of(cand@),
    {
        let n = cand.unicode_len();
        if buf.len() > n {
            return false;
        }
        let mut i: usize = 0;
        while i < buf.len()
            invariant
                i <= buf.len(),
                buf.len() <= n,
                n == cand@.len(),
                forall|j: int| 0 <= j < i ==> buf@[j] == cand@[j],
            decreases buf.len() - i,
        {
            if buf[i] != cand.get_char(i) {
                proof {
                    assert(!buf@.is_prefix_of(cand@)) by {
                        if buf@.is_prefix_of(cand@) {
                            assert(buf@[i as int] == cand@.subrange(0, buf@.len() as int)[i as int]);
                        }
                    }
                }
                return false;
            }
            i += 1;
        }
        proof {
            assert(buf@ =~= cand@.subrange(0, buf@.len() as int));
        }
        true
    }

    /// The autocompletion candidates, in the order they are tried.
    fn candidate(i: usize) -> (r: &'static str)
        requires
            i < candidate_list().len(),
        ensures
            r@ == candidate_list()[i as int],
    {
        proof {
            assert(candidate_list()[0] == "clear"@);
            assert(candidate_list()[1] == "help"@);
            assert(candidate_list()[2] == "status"@);
            assert(candidate_list()[3] == "off "@);
            assert(candidate_list()[4] == "on "@);
        }
        match i {
            0 => "clear",
            1 => "help",
            2 => "status",
            3 => "off ",
            _ => "on ",
        }
    }

    /// Searches the candidates for the first the buffer properly prefixes.
    fn find_candidate(buf: &Vec<char>) -> (r: Option<&'static str>)
        ensures
            match r {
                Option::Some(c) => completion_of(buf@) == Option::Some(c@),
                Option::None => completion_of(buf@) is None,
            },
    {
        let ghost cs = candidate_list();
        proof {
            assert(cs.skip(0) =~= cs);
        }
        let mut i: usize = 0;
        while i < 5
            invariant
                i <= 5,
                cs == candidate_list(),
                cs.len() == 5,
                completion_of(buf@) == find_completion(cs.skip(i as int), buf@),
            decreases 5 - i,
        {
            let cand = Self::candidate(i);
            if Self::buf_prefix_of(buf, cand) && buf.len() < cand.unicode_len() {
                proof {
                    lemma_find_completion_hit(cs, buf@, i as int);
                }
                return Option::Some(cand);
            }
            proof {
                lemma_find_completion_step(cs, buf@, i as int);
            }
            i += 1;
        }
        proof {
            assert(cs.skip(5).len() == 0);
        }
        Option::None
    }

    /// Up-arrow navigation: loads the next older history entry.
    fn hist_up(&mut self) -> (echo: String)
        requires
            old(self).wf(),
        ensures
            final(self).wf(),
            final(self).hist() == old(self).hist(),
            final(self).max() == old(self).max(),
            final(self).cap() == old(self).cap(),
            final(self).esc_state() == old(self).esc_state(),
            ({
                let m = nav_up_move(old(self).line(), old(self).hist(), old(self).nav_pos());
                &&& final(self).line() == m.line
                &&& final(self).nav_pos() == m.pos
                &&& echo@ == if m.moved {
                    redraw_text(m.line)
                } else {
                    Seq::<char>::empty()
                }
            }),
    {
        let n = self.history.len();
        let go: Option<usize> = match self.nav {
            Option::None => if n > 0 {
                Option::Some(0)
            } else {
                Option::None
            },
            Option::Some(i) => if i + 1 < n {
                Option::Some(i + 1)
            } else {
                Option::None
            },
        };
        match go {
            Option::None => {
                let echo = String::new();
                proof {
                    assert(echo@ =~= Seq::<char>::empty());
                }
                echo
            },
            Option::Some(p) => {
                let entry = copy_chars(self.history.recent(p));
                self.buf = entry;
                self.nav = Option::Some(p);
                let mut echo = String::from_str("\r\u{1b}[2K");
                echo.append("#> ");
                let line_s = chars_to_string(&self.buf);
                echo.append(line_s.as_str());
                echo
            },
        }
    }

    /// Down-arrow navigation: loads the next newer entry, or returns to
    /// the empty line.
    fn hist_down(&mut self) -> (echo: String)
        requires
            old(self).wf(),
        ensures
            final(self).wf(),
            final(self).hist() == old(self).hist(),
            final(self).max() == old(self).max(),
            final(self).cap() == old(self).cap(),
            final(self).esc_state() == old(self).esc_state(),
            ({
                let m = nav_down_move(old(self).line(), old(self).hist(), old(self).nav_pos());
                &&& final(self).line() == m.line
                &&& final(self).nav_pos() == m.pos
                &&& echo@ == if m.moved {
                    redraw_text(m.line)
                } else {
                    Seq::<char>::empty()
                }
            }),
    {
        match self.nav {
            Option::None => {
                let echo = String::new();
                proof {
                    assert(echo@ =~= Seq::<char>::empty());
                }
                echo
            },
            Option::Some(i) => {
                if i == 0 {
                    self.nav = Option::None;
                    self.buf = Vec::new();
                    let mut echo = String::from_str("\r\u{1b}[2K");
                    echo.append("#> ");
                    proof {
                        assert(self.buf@ =~= Seq::<char>::empty());
                        assert(echo@ =~= redraw_text(Seq::<char>::empty()));
                    }
                    echo
                } else {
                    let entry = copy_chars(self.history.recent(i - 1));
                    self.buf = entry;
                    self.nav = Option::Some(i - 1);
                    let mut echo = String::from_str("\r\u{1b}[2K");
                    echo.append("#> ");
                    let line_s = chars_to_string(&self.buf);
                    echo.append(line_s.as_str());
                    echo
                }
            },
        }
    }

    /// A fresh editor: empty buffer, empty history, plain input.
    pub fn new(max_len: usize, hist_cap: usize) -> (r: Self)
        ensures
            r.wf(),
            r.line() == Seq::<char>::empty(),
            r.hist() == Seq::<Seq<char>>::empty(),
            r.nav_pos() is None,
            r.esc_state() == EscState::Normal,
            r.max() == max_len,
            r.cap() == hist_cap,
    {
        Shell {
            buf: Vec::new(),
            max_len,
            history: History::new(hist_cap),
            nav: Option::None,
            esc: EscState::Normal,
        }
    }

    /// The current edit buffer as text.
    pub fn current_line(&self) -> (r: String)
        ensures
            r@ == self.line(),
    {
        chars_to_string(&self.buf)
    }

    /// How many lines the history records.
    pub fn history_len(&self) -> (n: usize)
        ensures
            n == self.hist().len(),
    {
        self.history.len()
    }

    /// The `k`-th most recent history entry as text: `k == 0` is the
    /// newest.
    pub fn recent_line(&self, k: usize) -> (r: String)
        requires
            k < self.hist().len(),
        ensures
            r@ == self.hist()[self.hist().len() - 1 - k],
    {
        chars_to_string(self.history.recent(k))
    }

    /// An empty echo.
    fn empty_echo() -> (r: String)
        ensures
            r@ == Seq::<char>::empty(),
    {
        let r = String::new();
        proof {
            assert(r@ =~= Seq::<char>::empty());
        }
        r
    }

    /// Feeds one byte from the transport into the editor.
    ///
    /// The editor moves exactly as [`shell_step`] says: the outcome hands
    /// back the echo to write to the terminal, the accepted line when the
    /// byte completed one, and whether a printable byte was refused
    /// because the buffer already held the maximum number of characters.
    pub fn feed(&mut self, b: u8) -> (r: FeedOutcome)
        requires
            old(self).wf(),
        ensures
            final(self).wf(),
            final(self).max() == old(self).max(),
            final(self).cap() == old(self).cap(),
            ({
                let st = shell_step(old(self), b);
                &&& final(self).line() == st.line
                &&& final(self).hist() == st.hist
                &&& final(self).nav_pos() == st.nav
                &&& final(self).esc_state() == st.esc
                &&& r.echo@ == st.echo
                &&& match st.accepted {
                    Option::Some(l) => r.line matches Option::Some(s) && s@ == l,
                    Option::None => r.line is None,
                }
                &&& r.rejected == st.rejected
            }),
    {
        match self.esc {
            EscState::Escape => {
                self.esc = if b == 0x5b {
                    EscState::Bracket
                } else {
                    EscState::Normal
                };
                FeedOutcome { echo: Self::empty_echo(), line: Option::None, rejected: false }
            },
            EscState::Bracket => {
                if b == 0x41 {
                    let echo = self.hist_up();
                    self.esc = EscState::Normal;
                    FeedOutcome { echo, line: Option::None, rejected: false }
                } else if b == 0x42 {
                    let echo = self.hist_down();
                    self.esc = EscState::Normal;
                    FeedOutcome { echo, line: Option::None, rejected: false }
                } else if 0x30 <= b && b <= 0x3f {
                    FeedOutcome { echo: Self::empty_echo(), line: Option::None, rejected: false }
                } else {
                    self.esc = EscState::Normal;
                    FeedOutcome { echo: Self::empty_echo(), line: Option::None, rejected: false }
                }
            },
            EscState::Normal => {
                if b == 0x0d {
                    let accepted = chars_to_string(&self.buf);
                    let stored = copy_chars(&self.buf);
                    let ghost oldh = self.history@;
                    let ghost oldline = self.buf@;
                    self.history.push(stored);
                    self.buf.clear();
                    self.nav = Option::None;
                    proof {
                        let h2 = self.history@;
                        assert forall|i: int| 0 <= i < h2.len() implies h2[i].len()
                            <= self.max_len by {
                            if oldline.len() != 0 && self.history.cap() != 0 {
                                if oldh.len() < self.history.cap() {
                                    assert(h2 == oldh.push(oldline));
                                } else {
                                    assert(h2 == oldh.drop_first().push(oldline));
                                    if i < h2.len() - 1 {
                                        assert(h2[i] == oldh[i + 1]);
                                    }
                                }
                            }
                        }
                    }
                    FeedOutcome {
                        echo: Self::empty_echo(),
                        line: Option::Some(accepted),
                        rejected: false,
                    }
                } else if b == 0x08 || b == 0x7f {
                    if self.buf.len() > 0 {
                        self.buf.pop();
                        self.nav = Option::None;
                        FeedOutcome {
                            echo: String::from_str("\u{8} \u{8}"),
                            line: Option::None,
                            rejected: false,
                        }
                    } else {
                        FeedOutcome { echo: Self::empty_echo(), line: Option::None, rejected: false }
                    }
                } else if b == 0x09 {
                    match Self::find_candidate(&self.buf) {
                        Option::Some(cand) => {
                            let clen = cand.unicode_len();
                            if clen <= self.max_len {
                                proof {
                                    lemma_find_completion_props(candidate_list(), self.buf@);
                                    assert(self.buf@ =~= cand@.subrange(0, self.buf@.len() as int));
                                }
                                let start = self.buf.len();
                                let mut echo = String::new();
                                proof {
                                    assert(echo@ =~= cand@.subrange(start as int, start as int));
                                }
                                let mut i: usize = start;
                                while i < clen
                                    invariant
                                        start <= i <= clen,
                                        clen == cand@.len(),
                                        clen <= self.max_len,
                                        self.buf@ == cand@.subrange(0, i as int),
                                        echo@ == cand@.subrange(start as int, i as int),
                                        self.max_len == old(self).max_len,
                                        self.history == old(self).history,
                                        self.esc == old(self).esc,
                                        self.nav == old(self).nav,
                                    decreases clen - i,
                                {
                                    let c = cand.get_char(i);
                                    self.buf.push(c);
                                    push_char(&mut echo, c);
                                    proof {
                                        assert(cand@.subrange(0, i as int).push(cand@[i as int])
                                            =~= cand@.subrange(0, i + 1));
                                        assert(cand@.subrange(start as int, i as int).push(
                                            cand@[i as int],
                                        ) =~= cand@.subrange(start as int, i + 1));
                                    }
                                    i += 1;
                                }
                                self.nav = Option::None;
                                proof {
                                    assert(self.buf@ =~= cand@);
                                    assert(echo@ =~= cand@.skip(start as int));
                                }
                                FeedOutcome { echo, line: Option::None, rejected: false }
                            } else {
                                FeedOutcome {
                                    echo: Self::empty_echo(),
                                    line: Option::None,
                                    rejected: false,
                                }
                            }
                        },
                        Option::None => {
                            FeedOutcome {
                                echo: Self::empty_echo(),
                                line: Option::None,
                                rejected: false,
                            }
                        },
                    }
                } else if b == 0x1b {
                    self.esc = EscState::Escape;
                    FeedOutcome { echo: Self::empty_echo(), line: Option::None, rejected: false }
                } else if 0x20 <= b && b <= 0x7e {
                    if self.buf.len() < self.max_len {
                        let c = b as char;
                        self.buf.push(c);
                        self.nav = Option::None;
                        let mut echo = String::new();
                        push_char(&mut echo, c);
                        proof {
                            assert(echo@ =~= seq![b as char]);
                        }
                        FeedOutcome { echo, line: Option::None, rejected: false }
                    } else {
                        FeedOutcome { echo: Self::empty_echo(), line: Option::None, rejected: true }
                    }
                } else {
                    FeedOutcome { echo: Self::empty_echo(), line: Option::None, rejected: false }
                }
            },
        }
    }

    /// Runs one byte through the editor and, when it completes a line,
    /// splits the line and dispatches it.
    ///
    /// The returned text is everything the transport should be shown: the
    /// editor's echo, followed, when a line was accepted, by the
    /// dispatcher's reply and the prompt. The channels move exactly when a
    /// line is accepted.
    pub fn step(&mut self, env: &mut Env, b: u8) -> (out: String)
        requires
            old(self).wf(),
        ensures
            final(self).wf(),
            final(self).max() == old(self).max(),
            final(self).cap() == old(self).cap(),
            ({
                let st = shell_step(old(self), b);
                &&& final(self).line() == st.line
                &&& final(self).hist() == st.hist
                &&& final(self).nav_pos() == st.nav
                &&& final(self).esc_state() == st.esc
                &&& match st.accepted {
                    Option::Some(l) => {
                        &&& final(env)@ == leds_after(old(env)@, cmd_of(l), args_of(l))
                        &&& out@ == st.echo + reply_full(old(env)@, cmd_of(l), args_of(l))
                    },
                    Option::None => {
                        &&& final(env)@ == old(env)@
                        &&& out@ == st.echo
                    },
                }
            }),
    {
        let fed = self.feed(b);
        match fed.line {
            Option::Some(line) => {
                let (c, a) = split_line(line.as_str());
                let reply = env.handle(c.as_str(), a.as_str());
                let mut out = fed.echo;
                out.append(reply.as_str());
                out
            },
            Option::None => fed.echo,
        }
    }
}

} // verus!

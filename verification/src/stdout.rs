//! Text preparation for the serial standard output.
//!
//! The serial console expects every line feed on the wire to be preceded
//! by a carriage return. The writer that owns the UART lives with the
//! hardware; what belongs here is the expansion it performs: each line
//! feed in the text gains a carriage return before it, and every other
//! character passes through unchanged.

use vstd::prelude::*;

use crate::text::push_char;

verus! {

/// The text with a carriage return put before every line feed.
pub open spec fn crlf_expanded(s: Seq<char>) -> Seq<char>
    decreases s.len(),
{
    if s.len() == 0 {
        Seq::empty()
    } else {
        (if s.first() == '\n' {
            seq!['\r', '\n']
        } else {
            seq![s.first()]
        }) + crlf_expanded(s.drop_first())
    }
}

/// Expanding distributes over appending one character at the end.
proof fn lemma_crlf_expanded_push(s: Seq<char>, c: char)
    ensures
        crlf_expanded(s.push(c)) == crlf_expanded(s) + (if c == '\n' {
            seq!['\r', '\n']
        } else {
            seq![c]
        }),
    decreases s.len(),
{
    let tail = if c == '\n' {
        seq!['\r', '\n']
    } else {
        seq![c]
    };
    if s.len() == 0 {
        assert(s.push(c).first() == c);
        assert(s.push(c).drop_first() =~= Seq::<char>::empty());
        assert(crlf_expanded(s.push(c)) == tail + crlf_expanded(s.push(c).drop_first()));
        assert(crlf_expanded(s.push(c).drop_first()) == Seq::<char>::empty());
        assert(crlf_expanded(s) == Seq::<char>::empty());
        assert(tail + Seq::<char>::empty() =~= Seq::<char>::empty() + tail);
    } else {
        assert(s.push(c).first() == s.first());
        assert(s.push(c).drop_first() =~= s.drop_first().push(c));
        lemma_crlf_expanded_push(s.drop_first(), c);
        let head = if s.first() == '\n' {
            seq!['\r', '\n']
        } else {
            seq![s.first()]
        };
        assert(crlf_expanded(s.push(c)) == head + (crlf_expanded(s.drop_first()) + tail));
        assert(head + (crlf_expanded(s.drop_first()) + tail) =~= (head + crlf_expanded(
            s.drop_first(),
        )) + tail);
    }
}

/// Prepares text for the serial console: a carriage return is written
/// before every line feed, and everything else passes through unchanged.
pub fn expand_newlines(s: &str) -> (r: String)
    ensures
        r@ == crlf_expanded(s@),
{
    let len = s.unicode_len();
    let mut r = String::new();
    let mut i: usize = 0;
    proof {
        assert(s@.subrange(0, 0) =~= Seq::<char>::empty());
        assert(r@ =~= Seq::<char>::empty());
    }
    while i < len
        invariant
            i <= len,
            len == s@.len(),
            r@ == crlf_expanded(s@.subrange(0, i as int)),
        decreases len - i,
    {
        let c = s.get_char(i);
        if c == '\n' {
            push_char(&mut r, '\r');
        }
        push_char(&mut r, c);
        proof {
            lemma_crlf_expanded_push(s@.subrange(0, i as int), s@[i as int]);
            assert(s@.subrange(0, i as int).push(s@[i as int]) =~= s@.subrange(0, i + 1));
            if s@[i as int] == '\n' {
                assert(r@ =~= crlf_expanded(s@.subrange(0, i as int)) + seq!['\r', '\n']);
            } else {
                assert(r@ =~= crlf_expanded(s@.subrange(0, i as int)) + seq![s@[i as int]]);
            }
        }
        i += 1;
    }
    proof {
        assert(s@.subrange(0, s@.len() as int) =~= s@);
    }
    r
}

} // verus!

//! The shell's history ring: the last accepted lines, oldest first.
//!
//! The ring has a fixed capacity chosen at construction and never holds
//! more entries than that. Accepting a line appends it; once the ring is
//! full, the oldest entry is evicted. Entries are immutable once stored;
//! empty lines are not recorded. Entries are read out by recency, so that
//! arrow-key navigation walks from the newest entry backwards.

use vstd::prelude::*;

verus! {

/// What pushing one line does to the recorded entries: an empty line and a
/// zero-capacity ring record nothing; a full ring evicts its oldest entry.
pub open spec fn hist_push(h: Seq<Seq<char>>, cap: nat, line: Seq<char>) -> Seq<Seq<char>> {
    if line.len() == 0 || cap == 0 {
        h
    } else if h.len() < cap {
        h.push(line)
    } else {
        h.drop_first().push(line)
    }
}

/// What pushing each line of a sequence in turn does to the entries.
pub open spec fn hist_push_all(h: Seq<Seq<char>>, cap: nat, lines: Seq<Seq<char>>) -> Seq<
    Seq<char>,
>
    decreases lines.len(),
{
    if lines.len() == 0 {
        h
    } else {
        hist_push_all(hist_push(h, cap, lines.first()), cap, lines.drop_first())
    }
}

/// A fixed-capacity ring of previously accepted lines.
pub struct History {
    entries: Vec<Vec<char>>,
    cap: usize,
}

impl View for History {
    type V = Seq<Seq<char>>;

    closed spec fn view(&self) -> Seq<Seq<char>> {
        self.entries@.map(|i: int, e: Vec<char>| e@)
    }
}

impl History {
    /// The configured capacity.
    pub closed spec fn cap(&self) -> nat {
        self.cap as nat
    }

    /// The ring never exceeds its capacity and records no empty line.
    pub open spec fn wf(&self) -> bool {
        &&& self@.len() <= self.cap()
        &&& forall|i: int| 0 <= i < self@.len() ==> self@[i].len() != 0
    }

    /// An empty ring of the given capacity.
    pub fn new(cap: usize) -> (r: Self)
        ensures
            r.wf(),
            r@ == Seq::<Seq<char>>::empty(),
            r.cap() == cap,
    {
        let r = History { entries: Vec::new(), cap };
        proof {
            assert(r@ =~= Seq::<Seq<char>>::empty());
        }
        r
    }

    /// How many lines are recorded.
    pub fn len(&self) -> (n: usize)
        ensures
            n == self@.len(),
    {
        self.entries.len()
    }

    /// The configured capacity.
    pub fn capacity(&self) -> (n: usize)
        ensures
            n == self.cap(),
    {
        self.cap
    }

    /// Records an accepted line, evicting the oldest entry when full.
    pub fn push(&mut self, line: Vec<char>)
        requires
            old(self).wf(),
        ensures
            final(self).wf(),
            final(self)@ == hist_push(old(self)@, old(self).cap(), line@),
            final(self).cap() == old(self).cap(),
    {
        if line.len() == 0 || self.cap == 0 {
            return ;
        }
        if self.entries.len() == self.cap {
            self.entries.remove(0);
            proof {
                assert(self@ =~= old(self)@.drop_first());
            }
        }
        let ghost mid = self@;
        self.entries.push(line);
        proof {
            assert(self@ =~= mid.push(line@));
        }
    }

    /// The `k`-th most recent entry: `k == 0` is the newest.
    pub fn recent(&self, k: usize) -> (line: &Vec<char>)
        requires
            k < self@.len(),
        ensures
            line@ == self@[self@.len() - 1 - k],
    {
        &self.entries[self.entries.len() - 1 - k]
    }
}

/// History capacity law: pushing any run of nonempty lines into a ring that
/// is within capacity retains exactly the last `cap` lines of the ring and
/// the run together, in order, the oldest evicted first. In particular one
/// more distinct line than the ring holds evicts exactly the oldest.
pub proof fn lemma_history_fifo(h: Seq<Seq<char>>, cap: nat, lines: Seq<Seq<char>>)
    requires
        h.len() <= cap,
        forall|i: int| 0 <= i < lines.len() ==> lines[i].len() != 0,
    ensures
        ({
            let all = h + lines;
            let keep = if all.len() <= cap {
                0
            } else {
                all.len() - cap
            };
            hist_push_all(h, cap, lines) == all.subrange(keep as int, all.len() as int)
        }),
    decreases lines.len(),
{
    let all = h + lines;
    let keep: int = if all.len() <= cap {
        0
    } else {
        all.len() - cap
    };
    if lines.len() == 0 {
        assert(hist_push_all(h, cap, lines) == h);
        assert(all.subrange(keep, all.len() as int) =~= h);
    } else {
        let first = lines.first();
        let rest = lines.drop_first();
        let h2 = hist_push(h, cap, first);
        assert(first.len() != 0) by {
            assert(lines[0].len() != 0);
        }
        assert(forall|i: int| 0 <= i < rest.len() ==> rest[i].len() != 0) by {
            assert(forall|i: int| 0 <= i < rest.len() ==> rest[i] == lines[i + 1]);
        }
        if cap == 0 {
            assert(h.len() == 0);
            assert(h2 == h);
            lemma_history_fifo(h2, cap, rest);
            assert(h2 + rest =~= all.subrange(1, all.len() as int));
            assert((h2 + rest).subrange(h2.len() + rest.len() - cap, (h2 + rest).len() as int)
                =~= all.subrange(keep, all.len() as int));
        } else {
            lemma_history_fifo(h2, cap, rest);
            let all2 = h2 + rest;
            let keep2: int = if all2.len() <= cap {
                0
            } else {
                all2.len() - cap
            };
            if h.len() < cap {
                assert(h2 =~= h.push(first));
                assert(all2 =~= all);
                assert(keep2 == keep);
            } else {
                assert(h2 =~= h.drop_first().push(first));
                assert(all2 =~= all.subrange(1, all.len() as int));
                assert(all2.subrange(keep2, all2.len() as int) =~= all.subrange(
                    keep,
                    all.len() as int,
                ));
            }
        }
    }
}

} // verus!

use vstd::prelude::*;

verus! {

/// The number of card slots a discard index may name, counted from zero.
pub const HAND_SLOTS: u8 = 6;

/// ASCII white space: space, tab, line feed, vertical tab, form feed,
/// carriage return.
pub open spec fn is_space(b: u8) -> bool {
    b == 32 || (9 <= b && b <= 13)
}

pub open spec fn is_digit(b: u8) -> bool {
    48 <= b && b <= 57
}

pub open spec fn all_digits(s: Seq<u8>) -> bool {
    forall|k: int| 0 <= k < s.len() ==> is_digit(#[trigger] s[k])
}

/// The number written in decimal by a sequence of digits.
pub open spec fn digits_value(s: Seq<u8>) -> int
    decreases s.len(),
{
    if s.len() == 0 {
        0
    } else {
        digits_value(s.drop_last()) * 10 + (s.last() - 48)
    }
}

pub open spec fn trim_start(s: Seq<u8>) -> Seq<u8>
    decreases s.len(),
{
    if s.len() > 0 && is_space(s[0]) {
        trim_start(s.drop_first())
    } else {
        s
    }
}

pub open spec fn trim_end(s: Seq<u8>) -> Seq<u8>
    decreases s.len(),
{
    if s.len() > 0 && is_space(s.last()) {
        trim_end(s.drop_last())
    } else {
        s
    }
}

/// The line without white space at either end.
pub open spec fn trimmed(s: Seq<u8>) -> Seq<u8> {
    trim_end(trim_start(s))
}

/// The number a line of input holds: decimal digits, at least one, with
/// white space around them, for a value that fits in a byte.
pub open spec fn parsed_index(line: Seq<u8>) -> Option<u8> {
    let t = trimmed(line);
    if t.len() > 0 && all_digits(t) && digits_value(t) < 256 {
        Some(digits_value(t) as u8)
    } else {
        None
    }
}

proof fn lemma_digits_prefix(s: Seq<u8>, k: int)
    requires
        all_digits(s),
        0 <= k <= s.len(),
    ensures
        0 <= digits_value(s.subrange(0, k)) <= digits_value(s),
    decreases s.len(),
{
    if s.len() > 0 {
        let p = s.drop_last();
        assert forall|j: int| 0 <= j < p.len() implies is_digit(#[trigger] p[j]) by {
            assert(p[j] == s[j]);
        }
        if k == s.len() {
            assert(s.subrange(0, k) =~= s);
            lemma_digits_prefix(p, k - 1);
        } else {
            lemma_digits_prefix(p, k);
            assert(p.subrange(0, k) =~= s.subrange(0, k));
        }
        assert(is_digit(s[s.len() - 1]));
    }
}

/// Reads a discard index from a line the player typed.
pub fn parse_index(line: &[u8]) -> (r: Option<u8>)
    ensures
        r == parsed_index(line@),
{
    let n = line.len();
    let mut start: usize = 0;
    assert(line@.subrange(0, n as int) =~= line@);
    while start < n && (line[start] == 32 || (9 <= line[start] && line[start] <= 13))
        invariant
            start <= n == line@.len(),
            trim_start(line@) == trim_start(line@.subrange(start as int, n as int)),
        decreases n - start,
    {
        assert(line@.subrange(start as int, n as int).drop_first() =~= line@.subrange(
            start as int + 1,
            n as int,
        ));
        start = start + 1;
    }
    assert(trim_start(line@) == line@.subrange(start as int, n as int));
    let ghost rest = line@.subrange(start as int, n as int);
    let mut end: usize = n;
    while end > start && (line[end - 1] == 32 || (9 <= line[end - 1] && line[end - 1] <= 13))
        invariant
            start <= end <= n == line@.len(),
            rest == line@.subrange(start as int, n as int),
            trim_end(rest) == trim_end(line@.subrange(start as int, end as int)),
        decreases end - start,
    {
        assert(line@.subrange(start as int, end as int).drop_last() =~= line@.subrange(
            start as int,
            end as int - 1,
        ));
        end = end - 1;
    }
    let ghost t = line@.subrange(start as int, end as int);
    assert(trimmed(line@) == t);
    if end == start {
        return None;
    }
    let mut acc: u32 = 0;
    let mut j: usize = start;
    while j < end
        invariant
            start <= j <= end <= n == line@.len(),
            t == line@.subrange(start as int, end as int),
            trimmed(line@) == t,
            t.len() > 0,
            all_digits(t.subrange(0, j - start)),
            acc as int == digits_value(t.subrange(0, j - start)),
            acc <= 255,
        decreases end - j,
    {
        let b = line[j];
        if b < 48 || b > 57 {
            assert(t[j - start] == b);
            assert(!all_digits(t));
            return None;
        }
        let ghost p = t.subrange(0, j - start + 1);
        assert(p.drop_last() =~= t.subrange(0, j - start));
        assert(p.last() == b);
        let next = acc * 10 + (b - 48) as u32;
        assert(digits_value(p) == next as int);
        if next > 255 {
            proof {
                if all_digits(t) {
                    lemma_digits_prefix(t, (j - start + 1) as int);
                }
            }
            return None;
        }
        acc = next;
        j = j + 1;
        assert forall|k: int| 0 <= k < p.len() implies is_digit(#[trigger] p[k]) by {
            if k < p.len() - 1 {
                assert(p[k] == t.subrange(0, j - start - 1)[k]);
            }
        }
    }
    assert(t.subrange(0, j - start) =~= t);
    Some(acc as u8)
}

/// The prompt the collector shows next.
#[derive(Clone, Copy, Debug, PartialEq, Eq, Structural)]
pub enum DiscardPrompt {
    /// The one card of a one-card discard.
    Only,
    /// The first card of a two-card discard.
    First,
    /// The second card of a two-card discard.
    Second,
}

/// What a collector is: whether it collects a pair, the first index of a
/// pair once chosen, and whether it has handed over all it wanted.
pub struct CollectorView {
    pub pair: bool,
    pub first: Option<u8>,
    pub done: bool,
}

impl CollectorView {
    /// A pair collector holds a first index only in range; a one-card
    /// collector holds none; a pair collector is done only after its first.
    pub open spec fn wf(self) -> bool {
        &&& (self.first matches Some(f) ==> self.pair && f < HAND_SLOTS)
        &&& (self.pair && self.done ==> self.first is Some)
    }
}

/// A collector that has taken nothing yet.
pub open spec fn fresh(pair: bool) -> CollectorView {
    CollectorView { pair, first: None, done: false }
}

/// What the collector does with a line: the index it hands over, or `None`
/// when the line is refused and the player is asked again (a line that is no
/// number, an index out of range, the first index again, or anything once
/// done).
pub open spec fn offer(c: CollectorView, line: Seq<u8>) -> (CollectorView, Option<u8>) {
    match parsed_index(line) {
        None => (c, None),
        Some(i) => if c.done || i >= HAND_SLOTS {
            (c, None)
        } else if !c.pair {
            (CollectorView { done: true, ..c }, Some(i))
        } else {
            match c.first {
                None => (CollectorView { first: Some(i), ..c }, Some(i)),
                Some(f) => if i == f {
                    (c, None)
                } else {
                    (CollectorView { done: true, ..c }, Some(i))
                },
            }
        },
    }
}

/// Feeds a collector lines in order: the collector after them and the
/// indices it handed over.
pub open spec fn collect(c: CollectorView, lines: Seq<Seq<u8>>) -> (CollectorView, Seq<u8>)
    decreases lines.len(),
{
    if lines.len() == 0 {
        (c, Seq::empty())
    } else {
        let (c1, o) = offer(c, lines[0]);
        let (c2, out) = collect(c1, lines.drop_first());
        match o {
            Some(i) => (c2, seq![i] + out),
            None => (c2, out),
        }
    }
}

/// Collects the discard indices the player types: one, or two distinct
/// ones, each naming a hand slot. It never touches the network; what it
/// hands over goes to the session in order.
pub struct DiscardCollector {
    pair: bool,
    first: Option<u8>,
    done: bool,
}

impl View for DiscardCollector {
    type V = CollectorView;

    closed spec fn view(&self) -> CollectorView {
        CollectorView { pair: self.pair, first: self.first, done: self.done }
    }
}

impl DiscardCollector {
    /// A collector for `count` cards: a pair when `count` is 2, one card
    /// otherwise.
    pub fn new(count: u8) -> (r: DiscardCollector)
        ensures
            r@ == fresh(count == 2),
            r@.wf(),
    {
        DiscardCollector { pair: count == 2, first: None, done: false }
    }

    /// Whether every index wanted has been handed over.
    pub fn is_done(&self) -> (r: bool)
        ensures
            r == self@.done,
    {
        self.done
    }

    /// The prompt to show next, or `None` once done.
    pub fn prompt(&self) -> (r: Option<DiscardPrompt>)
        ensures
            self@.done ==> r is None,
            !self@.done && !self@.pair ==> r == Some(DiscardPrompt::Only),
            !self@.done && self@.pair && self@.first is None ==> r == Some(DiscardPrompt::First),
            !self@.done && self@.pair && self@.first is Some ==> r == Some(
                DiscardPrompt::Second,
            ),
    {
        if self.done {
            None
        } else if !self.pair {
            Some(DiscardPrompt::Only)
        } else if self.first.is_none() {
            Some(DiscardPrompt::First)
        } else {
            Some(DiscardPrompt::Second)
        }
    }

    /// Takes a line the player typed; returns the index to hand over, or
    /// `None` to ask again.
    pub fn offer(&mut self, line: &[u8]) -> (r: Option<u8>)
        ensures
            (final(self)@, r) == offer(old(self)@, line@),
            old(self)@.wf() ==> final(self)@.wf(),
    {
        let i = match parse_index(line) {
            None => return None,
            Some(i) => i,
        };
        if self.done || i >= HAND_SLOTS {
            return None;
        }
        if !self.pair {
            self.done = true;
            return Some(i);
        }
        match self.first {
            None => {
                self.first = Some(i);
                Some(i)
            },
            Some(f) => if i == f {
                None
            } else {
                self.done = true;
                Some(i)
            },
        }
    }
}

proof fn lemma_collect_pair(c: CollectorView, lines: Seq<Seq<u8>>)
    requires
        c.wf(),
        c.pair,
    ensures
        collect(c, lines).1.len() <= if c.done {
            0int
        } else if c.first is Some {
            1int
        } else {
            2int
        },
        forall|k: int|
            0 <= k < collect(c, lines).1.len() ==> #[trigger] collect(c, lines).1[k] < HAND_SLOTS
                && (c.first matches Some(f) ==> collect(c, lines).1[k] != f),
        collect(c, lines).1.len() == 2 ==> collect(c, lines).1[0] != collect(c, lines).1[1],
    decreases lines.len(),
{
    if lines.len() > 0 {
        let (c1, o) = offer(c, lines[0]);
        lemma_collect_pair(c1, lines.drop_first());
        let out = collect(c1, lines.drop_first()).1;
        match o {
            Some(i) => {
                let all = seq![i] + out;
                assert(collect(c, lines).1 == all);
                assert forall|k: int| 0 <= k < all.len() implies #[trigger] all[k] < HAND_SLOTS && (
                c.first matches Some(f) ==> all[k] != f) by {
                    if k > 0 {
                        assert(all[k] == out[k - 1]);
                    }
                }
            },
            None => {},
        }
    }
}

/// A two-card collection hands over at most two indices, each naming a hand
/// slot, and never the same index twice: a repeated second index is refused
/// however often it is typed.
pub proof fn lemma_pair_distinct(lines: Seq<Seq<u8>>)
    ensures
        collect(fresh(true), lines).1.len() <= 2,
        forall|k: int|
            0 <= k < collect(fresh(true), lines).1.len() ==> #[trigger] collect(
                fresh(true),
                lines,
            ).1[k] < HAND_SLOTS,
        collect(fresh(true), lines).1.len() == 2 ==> collect(fresh(true), lines).1[0]
            != collect(fresh(true), lines).1[1],
{
    lemma_collect_pair(fresh(true), lines);
}

/// Once a pair collector holds its first index, a line naming that index
/// again hands nothing over and leaves the collector as it was, so the
/// player is asked for the second card again.
pub proof fn lemma_repeat_refused(c: CollectorView, line: Seq<u8>)
    requires
        c.pair,
        !c.done,
        c.first is Some,
        parsed_index(line) == c.first,
    ensures
        offer(c, line) == (c, None::<u8>),
{
}

} // verus!

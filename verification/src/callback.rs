//! The authorization callback: what a local listener hands on when the
//! platform redirects the user's browser to it, and whether a listener is to
//! be started at all.

use vstd::prelude::*;

verus! {

/// How many characters of a text stand before its first question mark: all
/// of them where it has none.
pub open spec fn before_mark(s: Seq<char>) -> int
    decreases s.len(),
{
    if s.len() == 0 {
        0
    } else if s[0] == '?' {
        0
    } else {
        1 + before_mark(s.drop_first())
    }
}

/// The query of a callback address: what stands between its first question
/// mark and its second, or after the first where there is no second; the
/// empty text where the address has no question mark.
pub open spec fn query_of(url: Seq<char>) -> Seq<char> {
    let first = before_mark(url);
    if first >= url.len() {
        Seq::empty()
    } else {
        let rest = url.skip(first + 1);
        rest.take(before_mark(rest))
    }
}

/// A position with a question mark and none before it is the first.
pub proof fn lemma_first_mark_found(s: Seq<char>, at: int)
    requires
        0 <= at <= s.len(),
        at < s.len() ==> s[at] == '?',
        forall|i: int| 0 <= i < at ==> s[i] != '?',
    ensures
        before_mark(s) == at,
    decreases s.len(),
{
    if s.len() > 0 && at > 0 {
        let rest = s.drop_first();
        assert forall|i: int| 0 <= i < at - 1 implies rest[i] != '?' by {
            assert(rest[i] == s[i + 1]);
        }
        lemma_first_mark_found(rest, at - 1);
    }
}

fn mark_from(text: &str, from: usize, len: usize) -> (at: usize)
    requires
        from <= len,
        len == text@.len(),
    ensures
        from <= at <= len,
        at == from + before_mark(text@.skip(from as int)),
{
    let mut i: usize = from;
    while i < len && text.get_char(i) != '?'
        invariant
            from <= i <= len,
            len == text@.len(),
            forall|k: int| from <= k < i ==> text@[k] != '?',
        decreases len - i,
    {
        i += 1;
    }
    proof {
        let rest = text@.skip(from as int);
        assert forall|k: int| 0 <= k < i - from implies rest[k] != '?' by {
            assert(rest[k] == text@[from + k]);
        }
        lemma_first_mark_found(rest, i - from);
    }
    i
}

/// The query that a callback address carries: what stands between its first
/// question mark and its second, or after the first where there is no
/// second; the empty text where the address has no question mark.
pub fn callback_query(url: &str) -> (r: String)
    ensures
        r@ == query_of(url@),
{
    let len = url.unicode_len();
    let first = mark_from(url, 0, len);
    assert(url@.skip(0) =~= url@);
    if first >= len {
        return String::new();
    }
    let second = mark_from(url, first + 1, len);
    let query = url.substring_char(first + 1, second);
    proof {
        let rest = url@.skip(first + 1);
        assert(query@ =~= rest.take(before_mark(rest)));
    }
    String::from_str(query)
}

/// Whether a callback listener is running.
#[derive(Clone, Copy, Debug, PartialEq, Eq, Structural)]
pub struct ListenerFlag {
    pub running: bool,
}

impl ListenerFlag {
    /// The flag of a process in which no listener runs.
    pub fn new() -> (r: ListenerFlag)
        ensures
            !r.running,
    {
        ListenerFlag { running: false }
    }

    /// Claims the listener. The answer says whether the caller is to start
    /// one: it is where none was running, and one counts as running from
    /// then on.
    pub fn claim(&mut self) -> (start: bool)
        ensures
            start == !old(self).running,
            final(self).running,
    {
        let start = !self.running;
        self.running = true;
        start
    }

    /// Gives the listener up, after it failed to start.
    pub fn release(&mut self)
        ensures
            !final(self).running,
    {
        self.running = false;
    }
}

} // verus!

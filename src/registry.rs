//! The dispatch registry: which handler takes the events of each kind.
use vstd::prelude::*;

use crate::events::Event;

verus! {

/// The key of the fallback handler, which takes the events of every kind
/// that has no handler of its own (and those of kind `Unknown`).
pub const FALLBACK_KIND: &'static str = "Unknown";

/// The handler of the first entry from index `i` on whose key is `k`.
pub open spec fn entry_from<H>(s: Seq<(String, H)>, k: Seq<char>, i: int) -> Option<H>
    decreases s.len() - i,
{
    if i < 0 || i >= s.len() {
        None
    } else if s[i].0@ == k {
        Some(s[i].1)
    } else {
        entry_from(s, k, i + 1)
    }
}

proof fn lemma_entry_set<H>(s: Seq<(String, H)>, j: int, x: (String, H), k: Seq<char>, i: int)
    requires
        0 <= j < s.len(),
        s[j].0@ == x.0@,
        entry_from(s, x.0@, 0) == entry_from(s, x.0@, j),
        0 <= i <= j,
        forall|m: int| 0 <= m < j ==> #[trigger] s[m].0@ != x.0@,
    ensures
        k != x.0@ ==> entry_from(s.update(j, x), k, i) == entry_from(s, k, i),
        k == x.0@ ==> entry_from(s.update(j, x), k, i) == Some(x.1),
    decreases s.len() - i,
{
    if i < j {
        lemma_entry_set(s, j, x, k, i + 1);
    } else {
        lemma_entry_set_tail(s, j, x, k, i);
    }
}

proof fn lemma_entry_set_tail<H>(s: Seq<(String, H)>, j: int, x: (String, H), k: Seq<char>, i: int)
    requires
        0 <= j < s.len(),
        s[j].0@ == x.0@,
        j <= i <= s.len(),
    ensures
        k != x.0@ ==> entry_from(s.update(j, x), k, i) == entry_from(s, k, i),
        i == j && k == x.0@ ==> entry_from(s.update(j, x), k, i) == Some(x.1),
    decreases s.len() - i,
{
    if i < s.len() {
        lemma_entry_set_tail(s, j, x, k, i + 1);
    }
}

proof fn lemma_entry_push<H>(s: Seq<(String, H)>, x: (String, H), k: Seq<char>, i: int)
    requires
        0 <= i <= s.len(),
        entry_from(s, x.0@, i) is None,
    ensures
        k != x.0@ ==> entry_from(s.push(x), k, i) == entry_from(s, k, i),
        k == x.0@ ==> entry_from(s.push(x), k, i) == Some(x.1),
    decreases s.len() - i,
{
    if i < s.len() {
        lemma_entry_push(s, x, k, i + 1);
    } else {
        assert(entry_from(s.push(x), k, i + 1) is None);
    }
}

/// Handlers by event kind; at most one for each kind.
pub struct Registry<H> {
    entries: Vec<(String, H)>,
}

impl<H> Registry<H> {
    /// The handler registered for kind `k`.
    pub closed spec fn handler_of(self, k: Seq<char>) -> Option<H> {
        entry_from(self.entries@, k, 0)
    }

    /// The handler that takes an event of kind `k`: its own, else the
    /// fallback, else none.
    pub open spec fn route_of(self, k: Seq<char>) -> Option<H> {
        match self.handler_of(k) {
            Some(h) => Some(h),
            None => self.handler_of(FALLBACK_KIND@),
        }
    }

    /// A registry with no handler.
    pub fn new() -> (r: Registry<H>)
        ensures
            forall|k: Seq<char>| r.handler_of(k) is None,
    {
        Registry { entries: Vec::new() }
    }

    /// Registers `handler` for events of kind `kind`, in place of any
    /// handler that the kind had.
    pub fn register(&mut self, kind: String, handler: H)
        ensures
            final(self).handler_of(kind@) == Some(handler),
            forall|k: Seq<char>| k != kind@ ==> final(self).handler_of(k) == old(self).handler_of(k),
    {
        let ghost s = self.entries@;
        let ghost key = kind@;
        let ghost before = *self;
        let mut i: usize = 0;
        while i < self.entries.len()
            invariant
                self.entries@ == s,
                before.entries@ == s,
                before == *old(self),
                i <= s.len(),
                forall|m: int| 0 <= m < i ==> #[trigger] s[m].0@ != key,
                entry_from(s, key, 0) == entry_from(s, key, i as int),
                kind@ == key,
            decreases s.len() - i,
        {
            if self.entries[i].0 == kind {
                let ghost x = (kind, handler);
                self.entries.set(i, (kind, handler));
                proof {
                    assert(self.entries@ =~= s.update(i as int, x));
                    lemma_entry_set(s, i as int, x, key, 0);
                    assert forall|k: Seq<char>| k != key implies self.handler_of(k)
                        == before.handler_of(k) by {
                        lemma_entry_set(s, i as int, x, k, 0);
                    }
                }
                return ;
            }
            i = i + 1;
        }
        let ghost x = (kind, handler);
        self.entries.push((kind, handler));
        proof {
            lemma_entry_push(s, x, key, 0);
            assert forall|k: Seq<char>| k != key implies self.handler_of(k) == before.handler_of(
                k,
            ) by {
                lemma_entry_push(s, x, k, 0);
            }
        }
    }

    /// The handler registered for kind `kind`.
    pub fn handler(&self, kind: &str) -> (r: Option<&H>)
        ensures
            r is Some <==> self.handler_of(kind@) is Some,
            r matches Some(h) ==> self.handler_of(kind@) == Some(*h),
    {
        let k = String::from_str(kind);
        let mut i: usize = 0;
        while i < self.entries.len()
            invariant
                i <= self.entries.len(),
                k@ == kind@,
                self.handler_of(kind@) == entry_from(self.entries@, kind@, i as int),
            decreases self.entries.len() - i,
        {
            if self.entries[i].0 == k {
                return Some(&self.entries[i].1);
            }
            i = i + 1;
        }
        None
    }

    /// The handler that takes `event`: the one registered for its kind,
    /// else the fallback, else none (the event is then dropped).
    pub fn route(&self, event: &Event) -> (r: Option<&H>)
        ensures
            r is Some <==> self.route_of(event.kind_name()) is Some,
            r matches Some(h) ==> self.route_of(event.kind_name()) == Some(*h),
    {
        let kind = event.to_string();
        match self.handler(kind.as_str()) {
            Some(h) => Some(h),
            None => self.handler(FALLBACK_KIND),
        }
    }
}

} // verus!

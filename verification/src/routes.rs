//! The route table: an exact-match mapping from (method, path) pairs to
//! handlers, holding at most one handler per pair.

use vstd::prelude::*;
use crate::http::Method;

verus! {

/// Names a handler the server can dispatch to. The server serves exactly
/// one endpoint, so there is exactly one handler.
#[derive(PartialEq, Eq, Structural, Clone, Copy, Debug)]
pub enum HandlerId {
    Index,
}

/// One registered route: a method, a literal path, and the handler that
/// answers requests matching both exactly.
pub struct RouteEntry {
    pub method: Method,
    pub path: String,
    pub handler: HandlerId,
}

/// The handler registered for `(m, p)`, by exact match on both, searching
/// the entries front to back.
pub open spec fn spec_lookup(entries: Seq<RouteEntry>, m: Method, p: Seq<char>) -> Option<
    HandlerId,
>
    decreases entries.len(),
{
    if entries.len() == 0 {
        None
    } else if entries[0].method == m && entries[0].path@ == p {
        Some(entries[0].handler)
    } else {
        spec_lookup(entries.drop_first(), m, p)
    }
}

/// A table mapping (method, path) pairs to handlers.
pub struct RouteTable {
    pub entries: Vec<RouteEntry>,
}

impl RouteTable {
    /// The table's invariant: at most one handler per (method, path) pair.
    pub open spec fn wf(&self) -> bool {
        forall|i: int, j: int|
            0 <= i < j < self.entries@.len() ==> !(self.entries@[i].method
                == self.entries@[j].method && self.entries@[i].path@ == self.entries@[j].path@)
    }

    /// An empty table: no route matches anything.
    pub fn new() -> (t: RouteTable)
        ensures
            t.wf(),
            t.entries@.len() == 0,
    {
        RouteTable { entries: Vec::new() }
    }

    /// How many routes are registered.
    pub fn len(&self) -> (n: usize)
        ensures
            n == self.entries@.len(),
    {
        self.entries.len()
    }

    /// Registers `handler` under `(method, path)`. If the pair is already
    /// taken the table is left unchanged and `false` comes back, keeping
    /// at most one handler per pair; otherwise the route is appended and
    /// `true` comes back.
    pub fn register(&mut self, method: Method, path: String, handler: HandlerId) -> (added: bool)
        requires
            old(self).wf(),
        ensures
            final(self).wf(),
            added == (spec_lookup(old(self).entries@, method, path@) is None),
            added ==> final(self).entries@ == old(self).entries@.push(
                RouteEntry { method, path, handler },
            ),
            !added ==> *final(self) == *old(self),
    {
        let existing = self.lookup(method, &path);
        if existing.is_some() {
            return false;
        }
        proof {
            lemma_lookup_none_no_match(self.entries@, method, path@);
        }
        let ghost prior = self.entries@;
        self.entries.push(RouteEntry { method, path, handler });
        proof {
            assert forall|i: int, j: int|
                0 <= i < j < self.entries@.len() implies !(self.entries@[i].method
                == self.entries@[j].method && self.entries@[i].path@
                == self.entries@[j].path@) by {
                if j < prior.len() {
                    assert(self.entries@[i] == prior[i]);
                    assert(self.entries@[j] == prior[j]);
                } else {
                    lemma_no_match_lookup_none(prior, self.entries@[j].method,
                        self.entries@[j].path@);
                }
            }
        }
        true
    }

    /// Looks the pair up by exact match on method and path.
    pub fn lookup(&self, method: Method, path: &String) -> (r: Option<HandlerId>)
        ensures
            r == spec_lookup(self.entries@, method, path@),
    {
        let n = self.entries.len();
        let mut i: usize = 0;
        proof {
            assert(self.entries@.skip(0) =~= self.entries@);
        }
        while i < n
            invariant
                n == self.entries@.len(),
                i <= n,
                spec_lookup(self.entries@, method, path@) == spec_lookup(
                    self.entries@.skip(i as int),
                    method,
                    path@,
                ),
            decreases n - i,
        {
            let entry = &self.entries[i];
            proof {
                assert(self.entries@.skip(i as int)[0] == self.entries@[i as int]);
            }
            if entry.method == method && entry.path == *path {
                return Some(entry.handler);
            }
            proof {
                assert(self.entries@.skip(i as int).drop_first() =~= self.entries@.skip(
                    i as int + 1,
                ));
            }
            i += 1;
        }
        proof {
            assert(self.entries@.skip(n as int) =~= Seq::<RouteEntry>::empty());
        }
        None
    }
}

/// If no registered pair equals `(m, p)`, the lookup finds nothing.
proof fn lemma_no_match_lookup_none(entries: Seq<RouteEntry>, m: Method, p: Seq<char>)
    requires
        forall|i: int|
            0 <= i < entries.len() ==> !(entries[i].method == m && entries[i].path@ == p),
    ensures
        spec_lookup(entries, m, p) is None,
    decreases entries.len(),
{
    if entries.len() > 0 {
        lemma_no_match_lookup_none(entries.drop_first(), m, p);
    }
}

/// If the lookup finds nothing, no registered pair equals `(m, p)`.
proof fn lemma_lookup_none_no_match(entries: Seq<RouteEntry>, m: Method, p: Seq<char>)
    requires
        spec_lookup(entries, m, p) is None,
    ensures
        forall|i: int|
            0 <= i < entries.len() ==> !(entries[i].method == m && entries[i].path@ == p),
    decreases entries.len(),
{
    if entries.len() > 0 {
        lemma_lookup_none_no_match(entries.drop_first(), m, p);
        assert forall|i: int|
            0 <= i < entries.len() implies !(entries[i].method == m && entries[i].path@ == p) by {
            if i > 0 {
                assert(entries.drop_first()[i - 1] == entries[i]);
            }
        }
    }
}

} // verus!

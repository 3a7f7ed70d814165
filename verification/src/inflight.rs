//! The table of requests in flight: one placeholder per URI, overwritten
//! by the response when it arrives and removed when the caller is done
//! with it.

use crate::error::ChannelError;
use crate::order::reversed;
use crate::response::duplicate_all;
use crate::response::placeholder;
use crate::response::Response;
use crate::response::ResponseView;
use crate::text::str_eq;
use vstd::prelude::*;

verus! {

/// No two entries are for the same URI.
pub open spec fn distinct_uris(table: Seq<ResponseView>) -> bool {
    forall|i: int, j: int|
        0 <= i < j < table.len() ==> (#[trigger] table[i]).uri != (#[trigger] table[j]).uri
}

/// Whether the table has an entry for the URI.
pub open spec fn tracks(table: Seq<ResponseView>, uri: Seq<char>) -> bool {
    exists|i: int| 0 <= i < table.len() && (#[trigger] table[i]).uri == uri
}

/// The position of the entry for a URI that the table tracks.
pub open spec fn position(table: Seq<ResponseView>, uri: Seq<char>) -> int {
    choose|i: int| 0 <= i < table.len() && (#[trigger] table[i]).uri == uri
}

/// What a look at the table shows for a URI: its entry, if it has one.
pub open spec fn peek(table: Seq<ResponseView>, uri: Seq<char>) -> Option<ResponseView> {
    if tracks(table, uri) {
        Some(table[position(table, uri)])
    } else {
        None
    }
}

/// The table after a request for an untracked URI is entered: a
/// placeholder for the URI stands behind the other entries.
pub open spec fn entered(table: Seq<ResponseView>, uri: Seq<char>) -> Seq<ResponseView> {
    table.push(placeholder(uri))
}

/// The table after a response arrives: it stands in the place of the entry
/// for its URI; a response for an untracked URI changes nothing.
pub open spec fn delivered(table: Seq<ResponseView>, res: ResponseView) -> Seq<ResponseView> {
    if tracks(table, res.uri) {
        table.update(position(table, res.uri), res)
    } else {
        table
    }
}

/// The table after a batch of responses arrives, first to last.
pub open spec fn delivered_all(table: Seq<ResponseView>, batch: Seq<ResponseView>) -> Seq<
    ResponseView,
>
    decreases batch.len(),
{
    if batch.len() == 0 {
        table
    } else {
        delivered(delivered_all(table, batch.drop_last()), batch.last())
    }
}

/// The table after the entry for a URI is removed.
pub open spec fn cleaned(table: Seq<ResponseView>, uri: Seq<char>) -> Seq<ResponseView> {
    if tracks(table, uri) {
        table.remove(position(table, uri))
    } else {
        table
    }
}

/// In a table without repeated URIs, an entry's index is the position of
/// its URI.
pub proof fn lemma_position_is_unique(table: Seq<ResponseView>, i: int)
    requires
        distinct_uris(table),
        0 <= i < table.len(),
    ensures
        tracks(table, table[i].uri),
        position(table, table[i].uri) == i,
{
    let p = position(table, table[i].uri);
    assert(0 <= p < table.len() && table[p].uri == table[i].uri);
    if p < i {
        assert(table[p].uri != table[i].uri);
    }
    if i < p {
        assert(table[i].uri != table[p].uri);
    }
}

/// Entering an untracked URI keeps the URIs distinct.
pub proof fn lemma_entered_is_distinct(table: Seq<ResponseView>, uri: Seq<char>)
    requires
        distinct_uris(table),
        !tracks(table, uri),
    ensures
        distinct_uris(entered(table, uri)),
{
    let after = entered(table, uri);
    assert forall|i: int, j: int| 0 <= i < j < after.len() implies (#[trigger] after[i]).uri != (
    #[trigger] after[j]).uri by {
        if j < table.len() {
            assert(table[i].uri != table[j].uri);
        } else {
            assert(after[i] == table[i]);
        }
    }
}

/// A delivery keeps the URIs of the table, entry by entry.
pub proof fn lemma_delivered_keeps_uris(table: Seq<ResponseView>, res: ResponseView)
    ensures
        delivered(table, res).len() == table.len(),
        forall|i: int|
            0 <= i < table.len() ==> (#[trigger] delivered(table, res)[i]).uri == table[i].uri,
        distinct_uris(table) ==> distinct_uris(delivered(table, res)),
        forall|uri: Seq<char>| tracks(delivered(table, res), uri) == tracks(table, uri),
{
    let after = delivered(table, res);
    if tracks(table, res.uri) {
        let p = position(table, res.uri);
        assert(0 <= p < table.len() && table[p].uri == res.uri);
    }
    assert forall|i: int| 0 <= i < table.len() implies (#[trigger] after[i]).uri
        == table[i].uri by {}
    if distinct_uris(table) {
        assert forall|i: int, j: int| 0 <= i < j < after.len() implies (#[trigger] after[i]).uri
            != (#[trigger] after[j]).uri by {
            assert(table[i].uri != table[j].uri);
        }
    }
    assert forall|uri: Seq<char>| tracks(after, uri) == tracks(table, uri) by {
        if tracks(after, uri) {
            let i = choose|i: int| 0 <= i < after.len() && (#[trigger] after[i]).uri == uri;
            assert(table[i].uri == uri);
        }
        if tracks(table, uri) {
            let i = choose|i: int| 0 <= i < table.len() && (#[trigger] table[i]).uri == uri;
            assert(after[i].uri == uri);
        }
    }
}

/// Removing the entry for a URI from a table without repeated URIs leaves
/// no entry for it, and the other URIs as they were.
pub proof fn lemma_cleaned_forgets(table: Seq<ResponseView>, uri: Seq<char>)
    requires
        distinct_uris(table),
    ensures
        distinct_uris(cleaned(table, uri)),
        !tracks(cleaned(table, uri), uri),
        forall|other: Seq<char>|
            other != uri ==> peek(cleaned(table, uri), other) == peek(table, other),
{
    let after = cleaned(table, uri);
    if tracks(table, uri) {
        let p = position(table, uri);
        assert(0 <= p < table.len() && table[p].uri == uri);
        assert forall|i: int| 0 <= i < after.len() implies #[trigger] after[i] == table[if i < p {
            i
        } else {
            i + 1
        }] by {}
        assert forall|i: int, j: int| 0 <= i < j < after.len() implies (#[trigger] after[i]).uri
            != (#[trigger] after[j]).uri by {
            let a = if i < p {
                i
            } else {
                i + 1
            };
            let b = if j < p {
                j
            } else {
                j + 1
            };
            assert(table[a].uri != table[b].uri);
        }
        if tracks(after, uri) {
            let i = choose|i: int| 0 <= i < after.len() && (#[trigger] after[i]).uri == uri;
            let a = if i < p {
                i
            } else {
                i + 1
            };
            assert(table[a].uri == uri);
            if a < p {
                assert(table[a].uri != table[p].uri);
            } else {
                assert(table[p].uri != table[a].uri);
            }
        }
        assert forall|other: Seq<char>| other != uri implies peek(after, other) == peek(
            table,
            other,
        ) by {
            if tracks(table, other) {
                let q = position(table, other);
                assert(0 <= q < table.len() && table[q].uri == other);
                let b = if q < p {
                    q
                } else {
                    q - 1
                };
                assert(after[b] == table[q]);
                lemma_position_is_unique(after, b);
            }
            if tracks(after, other) {
                let i = position(after, other);
                assert(0 <= i < after.len() && after[i].uri == other);
                let a = if i < p {
                    i
                } else {
                    i + 1
                };
                assert(table[a].uri == other);
                lemma_position_is_unique(table, a);
            }
        }
    }
}

/// The requests in flight, at most one per URI.
pub struct InFlight {
    entries: Vec<Response>,
}

impl View for InFlight {
    type V = Seq<ResponseView>;

    closed spec fn view(&self) -> Seq<ResponseView> {
        self.entries@.map_values(|r: Response| r@)
    }
}

impl InFlight {
    #[verifier::type_invariant]
    spec fn well_formed(self) -> bool {
        distinct_uris(self@)
    }

    /// A table without entries.
    pub fn new() -> (t: InFlight)
        ensures
            t@ == Seq::<ResponseView>::empty(),
    {
        let t = InFlight { entries: Vec::new() };
        assert(t@ =~= Seq::<ResponseView>::empty());
        t
    }

    /// A table with copies of the entries, in their order.
    pub fn duplicate(&self) -> (t: InFlight)
        ensures
            t@ == self@,
    {
        proof {
            use_type_invariant(self);
        }
        InFlight { entries: duplicate_all(&self.entries) }
    }

    /// Number of entries.
    pub fn len(&self) -> (n: usize)
        ensures
            n == self@.len(),
    {
        self.entries.len()
    }

    /// Index of the entry for the URI.
    fn find(&self, uri: &str) -> (r: Option<usize>)
        ensures
            distinct_uris(self@),
            r is Some == tracks(self@, uri@),
            r is Some ==> r->0 < self@.len() && position(self@, uri@) == r->0,
    {
        proof {
            use_type_invariant(self);
        }
        let mut i: usize = 0;
        while i < self.entries.len()
            invariant
                distinct_uris(self@),
                i <= self.entries@.len(),
                self@.len() == self.entries@.len(),
                forall|k: int| 0 <= k < i ==> (#[trigger] self@[k]).uri != uri@,
            decreases self.entries@.len() - i,
        {
            if str_eq(self.entries[i].uri_ref().as_str(), uri) {
                proof {
                    assert(self@[i as int] == self.entries@[i as int]@);
                    lemma_position_is_unique(self@, i as int);
                }
                return Some(i);
            }
            i += 1;
        }
        None
    }

    /// Whether a request for the URI is in flight.
    pub fn contains(&self, uri: &str) -> (b: bool)
        ensures
            b == tracks(self@, uri@),
    {
        self.find(uri).is_some()
    }

    /// The entry for the URI, left in place.
    pub fn peek(&self, uri: &str) -> (r: Option<&Response>)
        ensures
            distinct_uris(self@),
            r is Some == peek(self@, uri@) is Some,
            r is Some ==> r->0@ == peek(self@, uri@)->0,
    {
        match self.find(uri) {
            Some(i) => {
                assert(self@[i as int] == self.entries@[i as int]@);
                Some(&self.entries[i])
            },
            None => None,
        }
    }

    /// The entry that was entered last.
    pub fn last(&self) -> (r: Option<&Response>)
        ensures
            r is Some == (self@.len() > 0),
            r is Some ==> r->0@ == self@.last(),
    {
        let n = self.entries.len();
        if n == 0 {
            None
        } else {
            assert(self@[n - 1] == self.entries@[n - 1]@);
            Some(&self.entries[n - 1])
        }
    }

    /// Enters a request for the URI: a URI that is tracked already is
    /// refused with `ReqExistInQueue` and the table stays as it is; any
    /// other gets a placeholder.
    pub fn enter(&mut self, uri: &str) -> (r: Result<(), ChannelError>)
        ensures
            distinct_uris(final(self)@),
            tracks(old(self)@, uri@) ==> r is Err && r->Err_0 == ChannelError::ReqExistInQueue
                && final(self)@ == old(self)@,
            !tracks(old(self)@, uri@) ==> r is Ok && final(self)@ == entered(old(self)@, uri@),
    {
        if self.find(uri).is_some() {
            return Err(ChannelError::ReqExistInQueue);
        }
        let ghost before = self@;
        let mut taken = InFlight::new();
        std::mem::swap(self, &mut taken);
        let mut entries = taken.entries;
        entries.push(Response::new().uri(uri.to_owned()));
        proof {
            lemma_entered_is_distinct(before, uri@);
            assert(entries@.map_values(|r: Response| r@) =~= entered(before, uri@));
        }
        *self = InFlight { entries };
        Ok(())
    }

    /// Takes a response in: it stands in the place of the entry for its
    /// URI. A response for a URI that is not tracked is dropped. Returns
    /// whether an entry was overwritten.
    pub fn deliver(&mut self, res: Response) -> (matched: bool)
        ensures
            distinct_uris(final(self)@),
            matched == tracks(old(self)@, res@.uri),
            final(self)@ == delivered(old(self)@, res@),
    {
        let found = self.find(res.uri_ref().as_str());
        match found {
            Some(i) => {
                let ghost before = self@;
                let mut taken = InFlight::new();
                std::mem::swap(self, &mut taken);
                let mut entries = taken.entries;
                entries.set(i, res);
                proof {
                    lemma_delivered_keeps_uris(before, res@);
                    assert(entries@.map_values(|r: Response| r@) =~= delivered(before, res@));
                }
                *self = InFlight { entries };
                true
            },
            None => false,
        }
    }

    /// Takes a batch of responses in, first to last. Returns whether the
    /// batch held any response.
    pub fn deliver_all(&mut self, batch: Vec<Response>) -> (received: bool)
        ensures
            distinct_uris(final(self)@),
            received == (batch@.len() > 0),
            final(self)@ == delivered_all(old(self)@, batch@.map_values(|r: Response| r@)),
    {
        proof {
            use_type_invariant(&*self);
        }
        let ghost all = batch@.map_values(|r: Response| r@);
        let received = batch.len() > 0;
        let mut rest = reversed(batch);
        let ghost start = self@;
        let ghost mut done: int = 0;
        while rest.len() > 0
            invariant
                distinct_uris(self@),
                done + rest@.len() == all.len(),
                forall|k: int|
                    0 <= k < rest@.len() ==> (#[trigger] rest@[k])@ == all[all.len() - 1 - k],
                0 <= done,
                self@ == delivered_all(start, all.take(done)),
            decreases rest@.len(),
        {
            let r = rest.pop().unwrap();
            proof {
                assert(r@ == all[done]);
                let next = all.take(done + 1);
                assert(next.drop_last() =~= all.take(done));
                assert(next.last() == all[done]);
            }
            self.deliver(r);
            proof {
                done = done + 1;
            }
        }
        proof {
            assert(all.take(done) =~= all);
            assert(all.take(0) =~= Seq::<ResponseView>::empty());
        }
        received
    }

    /// Removes the entry for the URI and hands it out; the URI can then
    /// be requested again.
    pub fn take(&mut self, uri: &str) -> (r: Option<Response>)
        ensures
            distinct_uris(final(self)@),
            !tracks(final(self)@, uri@),
            final(self)@ == cleaned(old(self)@, uri@),
            r is Some == peek(old(self)@, uri@) is Some,
            r is Some ==> r->0@ == peek(old(self)@, uri@)->0,
    {
        let found = self.find(uri);
        proof {
            lemma_cleaned_forgets(self@, uri@);
        }
        match found {
            Some(i) => {
                let ghost before = self@;
                let mut taken = InFlight::new();
                std::mem::swap(self, &mut taken);
                let mut entries = taken.entries;
                let res = entries.remove(i);
                proof {
                    assert(before[i as int] == res@);
                    assert(entries@.map_values(|r: Response| r@) =~= cleaned(before, uri@));
                }
                *self = InFlight { entries };
                Some(res)
            },
            None => None,
        }
    }

    /// Removes the entry for the URI.
    pub fn clean(&mut self, uri: &str)
        ensures
            distinct_uris(final(self)@),
            !tracks(final(self)@, uri@),
            final(self)@ == cleaned(old(self)@, uri@),
    {
        let _ = self.take(uri);
    }
}

impl Clone for InFlight {
    fn clone(&self) -> (t: InFlight)
        ensures
            t@ == self@,
    {
        self.duplicate()
    }
}

} // verus!

//! The process-wide connection registry: for each resource id, the
//! connections currently open on it.
use vstd::prelude::*;
use std::collections::HashMap;
use crate::ConnId;

verus! {

broadcast use vstd::std_specs::hash::group_hash_axioms;

/// `s` with every occurrence of `c` taken out, the rest in order.
pub open spec fn without(s: Seq<ConnId>, c: ConnId) -> Seq<ConnId>
    decreases s.len(),
{
    if s.len() == 0 {
        s
    } else {
        let rest = without(s.drop_last(), c);
        if s.last() == c {
            rest
        } else {
            rest.push(s.last())
        }
    }
}

/// How often `c` occurs in `s`.
pub open spec fn occurrences(s: Seq<ConnId>, c: ConnId) -> nat
    decreases s.len(),
{
    if s.len() == 0 {
        0
    } else {
        occurrences(s.drop_last(), c) + if s.last() == c {
            1nat
        } else {
            0nat
        }
    }
}

/// The connections registered for `rid` in the model `m`, none if the key is absent.
pub open spec fn handles_of(m: Map<i32, Seq<ConnId>>, rid: i32) -> Seq<ConnId> {
    if m.contains_key(rid) {
        m[rid]
    } else {
        seq![]
    }
}

/// A registry model is well formed when no resource id maps to an empty
/// list and no connection appears twice under one resource id.
pub open spec fn registry_wf(m: Map<i32, Seq<ConnId>>) -> bool {
    forall|rid: i32| #[trigger]
        m.contains_key(rid) ==> m[rid].len() > 0 && m[rid].no_duplicates()
}

/// The model after `c` registers for `rid`.
pub open spec fn registered(m: Map<i32, Seq<ConnId>>, rid: i32, c: ConnId) -> Map<
    i32,
    Seq<ConnId>,
> {
    m.insert(rid, handles_of(m, rid).push(c))
}

/// The model after `c` leaves `rid`: every occurrence of `c` goes, and the key
/// goes with its last connection.
pub open spec fn deregistered(m: Map<i32, Seq<ConnId>>, rid: i32, c: ConnId) -> Map<
    i32,
    Seq<ConnId>,
> {
    if !m.contains_key(rid) {
        m
    } else if without(m[rid], c).len() == 0 {
        m.remove(rid)
    } else {
        m.insert(rid, without(m[rid], c))
    }
}

/// A connection is in a list exactly when it occurs in it at least once.
pub proof fn lemma_contains_occurrences(s: Seq<ConnId>, x: ConnId)
    ensures
        s.contains(x) <==> occurrences(s, x) > 0,
    decreases s.len(),
{
    if s.len() > 0 {
        let init = s.drop_last();
        lemma_contains_occurrences(init, x);
        if init.contains(x) {
            let k = choose|k: int| 0 <= k < init.len() && init[k] == x;
            assert(s[k] == x);
        }
        if s.contains(x) {
            let k = choose|k: int| 0 <= k < s.len() && s[k] == x;
            if k < s.len() - 1 {
                assert(init[k] == x);
            }
        }
        if s.last() == x {
            assert(s[s.len() - 1] == x);
        }
    }
}

/// Taking `c` out leaves no `c`, and every other member of `s`.
pub proof fn lemma_without_excludes(s: Seq<ConnId>, c: ConnId)
    ensures
        !without(s, c).contains(c),
        forall|x: ConnId| x != c ==> (#[trigger] without(s, c).contains(x) <==> s.contains(x)),
{
    lemma_without_occurrences(s, c, c);
    lemma_contains_occurrences(without(s, c), c);
    assert forall|x: ConnId| x != c implies (#[trigger] without(s, c).contains(x) <==> s.contains(
        x,
    )) by {
        lemma_without_occurrences(s, c, x);
        lemma_contains_occurrences(without(s, c), x);
        lemma_contains_occurrences(s, x);
    }
}

/// Taking `c` out keeps each other connection as often as it was there.
pub proof fn lemma_without_occurrences(s: Seq<ConnId>, c: ConnId, x: ConnId)
    ensures
        occurrences(without(s, c), x) == if x == c {
            0
        } else {
            occurrences(s, x)
        },
    decreases s.len(),
{
    if s.len() > 0 {
        lemma_without_occurrences(s.drop_last(), c, x);
        if s.last() != c {
            assert(without(s, c).drop_last() == without(s.drop_last(), c));
        }
    }
}

/// A list without repeats holds each of its members once.
pub proof fn lemma_occurrences_no_duplicates(s: Seq<ConnId>, x: ConnId)
    requires
        s.no_duplicates(),
    ensures
        occurrences(s, x) == if s.contains(x) {
            1nat
        } else {
            0nat
        },
    decreases s.len(),
{
    if s.len() > 0 {
        let init = s.drop_last();
        assert(init.no_duplicates());
        lemma_occurrences_no_duplicates(init, x);
        if s.last() == x {
            assert(!init.contains(x));
        } else if s.contains(x) {
            let k = choose|k: int| 0 <= k < s.len() && s[k] == x;
            assert(init[k] == x);
        } else if init.contains(x) {
            let k = choose|k: int| 0 <= k < init.len() && init[k] == x;
            assert(s[k] == x);
        }
    }
}

/// A list in which nothing occurs twice has no repeats.
pub proof fn lemma_no_duplicates_from_occurrences(s: Seq<ConnId>)
    requires
        forall|x: ConnId| #[trigger] occurrences(s, x) <= 1,
    ensures
        s.no_duplicates(),
    decreases s.len(),
{
    if s.len() > 0 {
        let init = s.drop_last();
        let l = s.last();
        assert forall|x: ConnId| #[trigger] occurrences(init, x) <= 1 by {
            assert(occurrences(s, x) <= 1);
        }
        lemma_no_duplicates_from_occurrences(init);
        assert(occurrences(s, l) <= 1);
        lemma_contains_occurrences(init, l);
        assert forall|i: int, j: int| 0 <= i < s.len() && 0 <= j < s.len() && i != j implies s[i]
            != s[j] by {
            if i < s.len() - 1 && j < s.len() - 1 {
                assert(init[i] == s[i] && init[j] == s[j]);
            } else if i < s.len() - 1 {
                assert(init[i] == s[i]);
                assert(init.contains(s[i]) ==> s[i] != l);
            } else {
                assert(init[j] == s[j]);
                assert(init.contains(s[j]) ==> s[j] != l);
            }
        }
    }
}

/// Taking a connection out of a list without repeats leaves none.
pub proof fn lemma_without_no_duplicates(s: Seq<ConnId>, c: ConnId)
    requires
        s.no_duplicates(),
    ensures
        without(s, c).no_duplicates(),
{
    assert forall|x: ConnId| #[trigger] occurrences(without(s, c), x) <= 1 by {
        lemma_without_occurrences(s, c, x);
        lemma_occurrences_no_duplicates(s, x);
    }
    lemma_no_duplicates_from_occurrences(without(s, c));
}

/// Appending a connection that is not in a list without repeats leaves none.
pub proof fn lemma_push_fresh_no_duplicates(s: Seq<ConnId>, c: ConnId)
    requires
        s.no_duplicates(),
        !s.contains(c),
    ensures
        s.push(c).no_duplicates(),
{
    assert forall|i: int, j: int|
        0 <= i < s.len() + 1 && 0 <= j < s.len() + 1 && i != j implies s.push(c)[i] != s.push(
        c,
    )[j] by {
        if i < s.len() && j < s.len() {
        } else if i < s.len() {
            assert(s.contains(s[i]));
        } else {
            assert(s.contains(s[j]));
        }
    }
}

/// Taking `c` out shortens a list by the number of times `c` was in it.
pub proof fn lemma_without_len(s: Seq<ConnId>, c: ConnId)
    ensures
        without(s, c).len() == s.len() - occurrences(s, c),
    decreases s.len(),
{
    if s.len() > 0 {
        lemma_without_len(s.drop_last(), c);
    }
}

/// Taking `c` out twice is taking it out once.
pub proof fn lemma_without_idempotent(s: Seq<ConnId>, c: ConnId)
    ensures
        without(without(s, c), c) == without(s, c),
    decreases s.len(),
{
    if s.len() > 0 {
        let init = s.drop_last();
        lemma_without_idempotent(init, c);
        if s.last() != c {
            let w = without(s, c);
            assert(w.drop_last() =~= without(init, c));
            assert(w.last() == s.last());
        }
    }
}

/// Deregistration is total and idempotent: afterwards no handle of the
/// connection is left under the resource id, the key is gone if the
/// connection held its last handles, the other resource ids are untouched,
/// and deregistering again changes nothing.
pub proof fn lemma_deregister_total_and_idempotent(m: Map<i32, Seq<ConnId>>, rid: i32, c: ConnId)
    requires
        registry_wf(m),
    ensures
        registry_wf(deregistered(m, rid, c)),
        !handles_of(deregistered(m, rid, c), rid).contains(c),
        (forall|x: ConnId| #[trigger] handles_of(m, rid).contains(x) ==> x == c) ==> !deregistered(
            m,
            rid,
            c,
        ).contains_key(rid),
        forall|other: i32|
            other != rid ==> #[trigger] handles_of(deregistered(m, rid, c), other) == handles_of(
                m,
                other,
            ),
        deregistered(deregistered(m, rid, c), rid, c) == deregistered(m, rid, c),
{
    let m1 = deregistered(m, rid, c);
    if m.contains_key(rid) {
        let w = without(m[rid], c);
        lemma_without_no_duplicates(m[rid], c);
        lemma_without_excludes(m[rid], c);
        lemma_without_idempotent(m[rid], c);
        if forall|x: ConnId| #[trigger] handles_of(m, rid).contains(x) ==> x == c {
            if w.len() > 0 {
                let x = w[0];
                assert(w.contains(x));
                assert(x != c);
                assert(handles_of(m, rid).contains(x));
            }
        }
        if w.len() > 0 {
            assert(m1[rid] == w);
            assert(deregistered(m1, rid, c) =~= m1);
        }
    }
}

/// Registry of the connections open on each resource id.
pub struct ConnectionRegistry {
    clients: HashMap<i32, Vec<ConnId>>,
}

impl View for ConnectionRegistry {
    type V = Map<i32, Seq<ConnId>>;

    closed spec fn view(&self) -> Map<i32, Seq<ConnId>> {
        Map::new(|rid: i32| self.clients@.contains_key(rid), |rid: i32| self.clients@[rid]@)
    }
}

impl ConnectionRegistry {
    /// The connections registered for `rid`.
    pub open spec fn handles(&self, rid: i32) -> Seq<ConnId> {
        handles_of(self@, rid)
    }

    /// No resource id is kept with an empty list.
    pub open spec fn wf(&self) -> bool {
        registry_wf(self@)
    }

    /// An empty registry.
    pub fn new() -> (r: Self)
        ensures
            r@ == Map::<i32, Seq<ConnId>>::empty(),
            r.wf(),
    {
        let r = ConnectionRegistry { clients: HashMap::new() };
        assert(r@ =~= Map::<i32, Seq<ConnId>>::empty());
        r
    }

    /// Adds `conn` to the connections of `rid`. Each connection registers
    /// once for its resource id.
    pub fn register(&mut self, rid: i32, conn: ConnId)
        requires
            old(self).wf(),
            !old(self).handles(rid).contains(conn),
        ensures
            final(self)@ == registered(old(self)@, rid, conn),
            final(self).wf(),
    {
        proof {
            lemma_push_fresh_no_duplicates(self.handles(rid), conn);
        }
        let mut list = match self.clients.remove(&rid) {
            Some(v) => v,
            None => Vec::new(),
        };
        list.push(conn);
        self.clients.insert(rid, list);
        assert(self@ =~= registered(old(self)@, rid, conn));
    }

    /// Removes every handle of `conn` from `rid`, and `rid` itself when no
    /// connection is left on it.
    pub fn deregister(&mut self, rid: i32, conn: ConnId)
        requires
            old(self).wf(),
        ensures
            final(self)@ == deregistered(old(self)@, rid, conn),
            final(self).wf(),
    {
        match self.clients.remove(&rid) {
            None => {
                assert(self@ =~= old(self)@);
            },
            Some(list) => {
                proof {
                    assert(old(self)@.contains_key(rid));
                    assert(old(self)@[rid] == list@);
                    lemma_without_no_duplicates(list@, conn);
                }
                let kept = without_conn(&list, conn);
                if kept.len() > 0 {
                    self.clients.insert(rid, kept);
                    assert(self@ =~= deregistered(old(self)@, rid, conn));
                } else {
                    assert(self@ =~= deregistered(old(self)@, rid, conn));
                }
            },
        }
    }

    /// A copy of the connections of `rid`, to deliver to without holding the registry.
    pub fn snapshot(&self, rid: i32) -> (r: Vec<ConnId>)
        ensures
            r@ == self.handles(rid),
    {
        match self.clients.get(&rid) {
            Some(list) => copy_conns(list),
            None => Vec::new(),
        }
    }

    /// The connections of `rid` that a message from `origin` goes to: all but `origin`.
    pub fn broadcast_targets(&self, rid: i32, origin: ConnId) -> (r: Vec<ConnId>)
        ensures
            r@ == without(self.handles(rid), origin),
    {
        match self.clients.get(&rid) {
            Some(list) => without_conn(list, origin),
            None => {
                let r = Vec::new();
                assert(r@ =~= without(self.handles(rid), origin));
                r
            },
        }
    }

    /// How many handles `rid` has.
    pub fn count(&self, rid: i32) -> (r: usize)
        ensures
            r == self.handles(rid).len(),
    {
        match self.clients.get(&rid) {
            Some(list) => list.len(),
            None => 0,
        }
    }

    /// Whether `conn` is registered for `rid`.
    pub fn is_registered(&self, rid: i32, conn: ConnId) -> (r: bool)
        ensures
            r == self.handles(rid).contains(conn),
    {
        match self.clients.get(&rid) {
            Some(list) => {
                let mut i: usize = 0;
                while i < list.len()
                    invariant
                        i <= list@.len(),
                        self.handles(rid) == list@,
                        forall|k: int| 0 <= k < i ==> list@[k] != conn,
                    decreases list@.len() - i,
                {
                    if list[i] == conn {
                        assert(list@[i as int] == conn);
                        return true;
                    }
                    i = i + 1;
                }
                false
            },
            None => false,
        }
    }

    /// Whether any connection is registered for `rid`.
    pub fn contains_resource(&self, rid: i32) -> (r: bool)
        ensures
            r == self@.contains_key(rid),
    {
        self.clients.contains_key(&rid)
    }
}

fn copy_conns(list: &Vec<ConnId>) -> (r: Vec<ConnId>)
    ensures
        r@ == list@,
{
    let mut r: Vec<ConnId> = Vec::new();
    let mut i: usize = 0;
    while i < list.len()
        invariant
            i <= list@.len(),
            r@ == list@.subrange(0, i as int),
        decreases list@.len() - i,
    {
        r.push(list[i]);
        i = i + 1;
        assert(r@ =~= list@.subrange(0, i as int));
    }
    assert(list@.subrange(0, list@.len() as int) =~= list@);
    r
}

fn without_conn(list: &Vec<ConnId>, c: ConnId) -> (r: Vec<ConnId>)
    ensures
        r@ == without(list@, c),
{
    let mut r: Vec<ConnId> = Vec::new();
    let mut i: usize = 0;
    while i < list.len()
        invariant
            i <= list@.len(),
            r@ == without(list@.subrange(0, i as int), c),
        decreases list@.len() - i,
    {
        let x = list[i];
        assert(list@.subrange(0, i as int + 1).drop_last() =~= list@.subrange(0, i as int));
        if x != c {
            r.push(x);
        }
        i = i + 1;
    }
    assert(list@.subrange(0, list@.len() as int) =~= list@);
    r
}

} // verus!

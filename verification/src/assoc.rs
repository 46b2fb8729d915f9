//! The UDP associations of a relay: the socket allocated for each client,
//! found by the client's address.
use vstd::prelude::*;
use crate::endpoint::SockAddr;

verus! {

/// The pairs as a map by client address, given that no address occurs twice.
pub open spec fn pair_map<T>(s: Seq<(SockAddr, T)>) -> Map<SockAddr, T> {
    Map::new(
        |k: SockAddr| exists|i: int| 0 <= i < s.len() && #[trigger] s[i].0 == k,
        |k: SockAddr| s[choose|i: int| 0 <= i < s.len() && #[trigger] s[i].0 == k].1,
    )
}

/// No client address occurs twice.
pub open spec fn keys_unique<T>(s: Seq<(SockAddr, T)>) -> bool {
    forall|i: int, j: int| 0 <= i < s.len() && 0 <= j < s.len() && i != j ==> #[trigger] s[i].0 != #[trigger] s[j].0
}

proof fn lemma_pair_at<T>(s: Seq<(SockAddr, T)>, i: int)
    requires
        keys_unique(s),
        0 <= i < s.len(),
    ensures
        pair_map(s).contains_key(s[i].0),
        pair_map(s)[s[i].0] == s[i].1,
{
    let k = s[i].0;
    assert(exists|j: int| 0 <= j < s.len() && #[trigger] s[j].0 == k);
    let j = choose|j: int| 0 <= j < s.len() && #[trigger] s[j].0 == k;
    assert(j == i);
}

proof fn lemma_pair_push<T>(s: Seq<(SockAddr, T)>, k0: SockAddr, v: T)
    requires
        keys_unique(s),
        !pair_map(s).contains_key(k0),
    ensures
        keys_unique(s.push((k0, v))),
        pair_map(s.push((k0, v))) == pair_map(s).insert(k0, v),
{
    let t = s.push((k0, v));
    assert forall|i: int, j: int| 0 <= i < t.len() && 0 <= j < t.len() && i != j implies #[trigger] t[i].0
        != #[trigger] t[j].0 by {
        if i == s.len() {
            assert(t[j] == s[j]);
        } else if j == s.len() {
            assert(t[i] == s[i]);
        } else {
            assert(t[i] == s[i] && t[j] == s[j]);
        }
    }
    assert forall|k: SockAddr| #[trigger] pair_map(t).contains_key(k) == pair_map(s).insert(k0, v).contains_key(k) by {
        if pair_map(s).contains_key(k) {
            let i = choose|i: int| 0 <= i < s.len() && #[trigger] s[i].0 == k;
            assert(t[i] == s[i]);
            assert(t[i].0 == k);
        }
        if pair_map(t).contains_key(k) && k != k0 {
            let i = choose|i: int| 0 <= i < t.len() && #[trigger] t[i].0 == k;
            assert(i < s.len());
            assert(t[i] == s[i]);
        }
        if k == k0 {
            assert(t[s.len() as int] == (k0, v));
            assert(t[s.len() as int].0 == k0);
        }
    }
    assert forall|k: SockAddr| #[trigger] pair_map(t).contains_key(k) implies pair_map(t)[k] == pair_map(s).insert(
        k0, v)[k] by {
        let i = choose|i: int| 0 <= i < t.len() && #[trigger] t[i].0 == k;
        lemma_pair_at(t, i);
        if i < s.len() {
            assert(t[i] == s[i]);
            lemma_pair_at(s, i);
        }
    }
    assert(pair_map(t) =~= pair_map(s).insert(k0, v));
}

proof fn lemma_pair_update<T>(s: Seq<(SockAddr, T)>, i: int, v: T)
    requires
        keys_unique(s),
        0 <= i < s.len(),
    ensures
        keys_unique(s.update(i, (s[i].0, v))),
        pair_map(s.update(i, (s[i].0, v))) == pair_map(s).insert(s[i].0, v),
{
    let k0 = s[i].0;
    let t = s.update(i, (k0, v));
    assert forall|a: int, b: int| 0 <= a < t.len() && 0 <= b < t.len() && a != b implies #[trigger] t[a].0
        != #[trigger] t[b].0 by {
        assert(t[a].0 == s[a].0);
        assert(t[b].0 == s[b].0);
    }
    assert forall|k: SockAddr| #[trigger] pair_map(t).contains_key(k) == pair_map(s).insert(k0, v).contains_key(k) by {
        if pair_map(s).contains_key(k) {
            let j = choose|j: int| 0 <= j < s.len() && #[trigger] s[j].0 == k;
            assert(t[j].0 == s[j].0);
        }
        if pair_map(t).contains_key(k) {
            let j = choose|j: int| 0 <= j < t.len() && #[trigger] t[j].0 == k;
            assert(t[j].0 == s[j].0);
        }
        if k == k0 {
            assert(t[i] == (k0, v));
        }
    }
    assert forall|k: SockAddr| #[trigger] pair_map(t).contains_key(k) implies pair_map(t)[k] == pair_map(s).insert(
        k0, v)[k] by {
        let j = choose|j: int| 0 <= j < t.len() && #[trigger] t[j].0 == k;
        lemma_pair_at(t, j);
        if j != i {
            assert(t[j] == s[j]);
            lemma_pair_at(s, j);
        }
    }
    assert(pair_map(t) =~= pair_map(s).insert(k0, v));
}

proof fn lemma_pair_remove<T>(s: Seq<(SockAddr, T)>, i: int)
    requires
        keys_unique(s),
        0 <= i < s.len(),
    ensures
        keys_unique(s.remove(i)),
        pair_map(s.remove(i)) == pair_map(s).remove(s[i].0),
{
    let t = s.remove(i);
    let k0 = s[i].0;
    assert forall|a: int, b: int| 0 <= a < t.len() && 0 <= b < t.len() && a != b implies #[trigger] t[a].0
        != #[trigger] t[b].0 by {
        let a2 = if a < i { a } else { a + 1 };
        let b2 = if b < i { b } else { b + 1 };
        assert(t[a] == s[a2]);
        assert(t[b] == s[b2]);
    }
    assert forall|k: SockAddr| #[trigger] pair_map(t).contains_key(k) == pair_map(s).remove(k0).contains_key(k) by {
        if pair_map(s).contains_key(k) && k != k0 {
            let j = choose|j: int| 0 <= j < s.len() && #[trigger] s[j].0 == k;
            assert(j != i);
            let j2 = if j < i { j } else { j - 1 };
            assert(t[j2] == s[j]);
        }
        if pair_map(t).contains_key(k) {
            let j = choose|j: int| 0 <= j < t.len() && #[trigger] t[j].0 == k;
            let j2 = if j < i { j } else { j + 1 };
            assert(t[j] == s[j2]);
            assert(j2 != i);
        }
    }
    assert forall|k: SockAddr| #[trigger] pair_map(t).contains_key(k) implies pair_map(t)[k] == pair_map(s).remove(
        k0)[k] by {
        let j = choose|j: int| 0 <= j < t.len() && #[trigger] t[j].0 == k;
        lemma_pair_at(t, j);
        let j2 = if j < i { j } else { j + 1 };
        assert(t[j] == s[j2]);
        lemma_pair_at(s, j2);
    }
    assert(pair_map(t) =~= pair_map(s).remove(k0));
}

/// The socket allocated for each client of a UDP relay.
pub struct Associations<T> {
    entries: Vec<(SockAddr, T)>,
}

impl<T> View for Associations<T> {
    type V = Map<SockAddr, T>;

    closed spec fn view(&self) -> Map<SockAddr, T> {
        pair_map(self.entries@)
    }
}

impl<T> Associations<T> {
    /// Each client is associated once.
    pub closed spec fn wf(&self) -> bool {
        keys_unique(self.entries@)
    }

    /// No association.
    pub fn new() -> (r: Associations<T>)
        ensures
            r.wf(),
            r@ == Map::<SockAddr, T>::empty(),
    {
        let r = Associations { entries: Vec::new() };
        assert(r@ =~= Map::<SockAddr, T>::empty());
        r
    }

    fn position(&self, client: SockAddr) -> (r: Option<usize>)
        requires
            self.wf(),
        ensures
            match r {
                Some(i) => i < self.entries@.len() && self.entries@[i as int].0 == client,
                None => !self@.contains_key(client),
            },
    {
        let mut i: usize = 0;
        while i < self.entries.len()
            invariant
                i <= self.entries@.len(),
                forall|j: int| 0 <= j < i ==> #[trigger] self.entries@[j].0 != client,
            decreases self.entries@.len() - i,
        {
            if self.entries[i].0 == client {
                return Some(i);
            }
            i = i + 1;
        }
        proof {
            if self@.contains_key(client) {
                let j = choose|j: int| 0 <= j < self.entries@.len() && #[trigger] self.entries@[j].0 == client;
                assert(self.entries@[j].0 != client);
            }
        }
        None
    }

    /// The socket associated with the client, if any.
    pub fn find(&self, client: SockAddr) -> (r: Option<&T>)
        requires
            self.wf(),
        ensures
            match r {
                Some(v) => self@.contains_key(client) && *v == self@[client],
                None => !self@.contains_key(client),
            },
    {
        match self.position(client) {
            Some(i) => {
                proof {
                    lemma_pair_at(self.entries@, i as int);
                }
                Some(&self.entries[i].1)
            },
            None => None,
        }
    }

    /// Associates the socket with the client, replacing any earlier one.
    pub fn insert(&mut self, client: SockAddr, v: T)
        requires
            old(self).wf(),
        ensures
            final(self).wf(),
            final(self)@ == old(self)@.insert(client, v),
    {
        let ghost s = self.entries@;
        match self.position(client) {
            Some(i) => {
                self.entries.set(i, (client, v));
                proof {
                    lemma_pair_update(s, i as int, v);
                }
            },
            None => {
                self.entries.push((client, v));
                proof {
                    lemma_pair_push(s, client, v);
                }
            },
        }
    }

    /// Ends the client's association; returns whether there was one.
    pub fn remove(&mut self, client: SockAddr) -> (r: bool)
        requires
            old(self).wf(),
        ensures
            final(self).wf(),
            final(self)@ == old(self)@.remove(client),
            r == old(self)@.contains_key(client),
    {
        let ghost s = self.entries@;
        match self.position(client) {
            Some(i) => {
                self.entries.remove(i);
                proof {
                    lemma_pair_at(s, i as int);
                    lemma_pair_remove(s, i as int);
                }
                true
            },
            None => {
                assert(old(self)@.remove(client) =~= old(self)@);
                false
            },
        }
    }
}

} // verus!

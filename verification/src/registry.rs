//! A registry mapping string keys to handles: the single source of truth for
//! which jobs and streams currently own a live handle. Its view is a
//! `Map<Seq<char>, H>`, and every operation is specified against that map.
use vstd::prelude::*;

verus! {

/// The map described by an association list, later entries overriding earlier
/// ones (entries are kept unique, so the distinction never matters here).
pub open spec fn map_of<H>(s: Seq<(String, H)>) -> Map<Seq<char>, H>
    decreases s.len(),
{
    if s.len() == 0 {
        Map::empty()
    } else {
        map_of(s.drop_last()).insert(s.last().0@, s.last().1)
    }
}

/// No two entries share a key.
pub open spec fn distinct_keys<H>(s: Seq<(String, H)>) -> bool {
    forall|i: int, j: int| 0 <= i < j < s.len() ==> s[i].0@ != s[j].0@
}

proof fn lemma_map_of_index<H>(s: Seq<(String, H)>, i: int)
    requires
        distinct_keys(s),
        0 <= i < s.len(),
    ensures
        map_of(s).contains_key(s[i].0@),
        map_of(s)[s[i].0@] == s[i].1,
    decreases s.len(),
{
    if i < s.len() - 1 {
        assert(s.drop_last()[i] == s[i]);
        lemma_map_of_index(s.drop_last(), i);
        assert(s[i].0@ != s.last().0@);
    }
}

proof fn lemma_map_of_absent<H>(s: Seq<(String, H)>, k: Seq<char>)
    requires
        forall|i: int| 0 <= i < s.len() ==> s[i].0@ != k,
    ensures
        !map_of(s).contains_key(k),
    decreases s.len(),
{
    if s.len() > 0 {
        lemma_map_of_absent(s.drop_last(), k);
    }
}

proof fn lemma_map_of_remove<H>(s: Seq<(String, H)>, i: int)
    requires
        distinct_keys(s),
        0 <= i < s.len(),
    ensures
        map_of(s.remove(i)) == map_of(s).remove(s[i].0@),
    decreases s.len(),
{
    if i == s.len() - 1 {
        assert(s.remove(i) =~= s.drop_last());
        lemma_map_of_absent(s.drop_last(), s[i].0@);
        assert(map_of(s.drop_last()) =~= map_of(s).remove(s[i].0@));
    } else {
        assert(s.remove(i).drop_last() =~= s.drop_last().remove(i));
        assert(s.remove(i).last() == s.last());
        lemma_map_of_remove(s.drop_last(), i);
        assert(s.drop_last()[i] == s[i]);
        assert(map_of(s.remove(i)) == map_of(s.drop_last()).remove(s[i].0@).insert(
            s.last().0@,
            s.last().1,
        ));
        assert(s[i].0@ != s.last().0@);
        assert(map_of(s.drop_last()).remove(s[i].0@).insert(s.last().0@, s.last().1)
            =~= map_of(s.drop_last()).insert(s.last().0@, s.last().1).remove(s[i].0@));
    }
}

/// A key-to-handle registry. A key is *present* exactly when it was inserted
/// and not removed since; the registry never holds two entries for one key.
pub struct Registry<H> {
    entries: Vec<(String, H)>,
}

impl<H> View for Registry<H> {
    type V = Map<Seq<char>, H>;

    closed spec fn view(&self) -> Map<Seq<char>, H> {
        map_of(self.entries@)
    }
}

impl<H> Registry<H> {
    /// Entries hold pairwise distinct keys; constructors establish this and
    /// every operation preserves it.
    pub closed spec fn wf(&self) -> bool {
        distinct_keys(self.entries@)
    }

    /// An empty registry.
    pub fn new() -> (r: Registry<H>)
        ensures
            r.wf(),
            r@ == Map::<Seq<char>, H>::empty(),
    {
        Registry { entries: Vec::new() }
    }

    /// Index of the entry holding `key`, if one does.
    fn find(&self, key: &String) -> (r: Option<usize>)
        requires
            self.wf(),
        ensures
            match r {
                Some(i) => i < self.entries@.len() && self.entries@[i as int].0@ == key@
                    && self@.contains_key(key@) && self@[key@] == self.entries@[i as int].1,
                None => !self@.contains_key(key@),
            },
    {
        let n = self.entries.len();
        let mut i: usize = 0;
        while i < n
            invariant
                self.wf(),
                n == self.entries@.len(),
                i <= n,
                forall|k: int| 0 <= k < i ==> self.entries@[k].0@ != key@,
            decreases n - i,
        {
            if self.entries[i].0 == *key {
                proof {
                    lemma_map_of_index(self.entries@, i as int);
                }
                return Some(i);
            }
            i = i + 1;
        }
        proof {
            lemma_map_of_absent(self.entries@, key@);
        }
        None
    }

    /// Whether `key` is present.
    pub fn contains(&self, key: &String) -> (r: bool)
        requires
            self.wf(),
        ensures
            r == self@.contains_key(key@),
    {
        self.find(key).is_some()
    }

    /// The handle registered under `key`, if any.
    pub fn get(&self, key: &String) -> (r: Option<&H>)
        requires
            self.wf(),
        ensures
            match r {
                Some(h) => self@.contains_key(key@) && *h == self@[key@],
                None => !self@.contains_key(key@),
            },
    {
        match self.find(key) {
            Some(i) => Some(&self.entries[i].1),
            None => None,
        }
    }

    /// Registers `handle` under `key`, replacing any present entry.
    pub fn insert(&mut self, key: String, handle: H)
        requires
            old(self).wf(),
        ensures
            final(self).wf(),
            final(self)@ == old(self)@.insert(key@, handle),
    {
        match self.find(&key) {
            Some(i) => {
                proof {
                    lemma_map_of_remove(self.entries@, i as int);
                }
                let ghost pre = self.entries@;
                self.entries.remove(i);
                proof {
                    assert forall|a: int, b: int|
                        0 <= a < b < self.entries@.len() implies self.entries@[a].0@
                        != self.entries@[b].0@ by {
                        assert(self.entries@[a] == if a < i { pre[a] } else { pre[a + 1] });
                        assert(self.entries@[b] == if b < i { pre[b] } else { pre[b + 1] });
                    }
                    assert forall|a: int| 0 <= a < self.entries@.len() implies self.entries@[a].0@
                        != key@ by {
                        assert(self.entries@[a] == if a < i { pre[a] } else { pre[a + 1] });
                    }
                }
                let ghost mid = self.entries@;
                let ghost h = handle;
                self.entries.push((key, handle));
                proof {
                    assert(self.entries@.drop_last() =~= mid);
                    assert forall|a: int, b: int|
                        0 <= a < b < self.entries@.len() implies self.entries@[a].0@
                        != self.entries@[b].0@ by {
                        assert(self.entries@[a] == mid[a]);
                        if b < self.entries@.len() - 1 {
                            assert(self.entries@[b] == mid[b]);
                        }
                    }
                    assert(map_of(self.entries@) == map_of(mid).insert(
                        self.entries@.last().0@,
                        self.entries@.last().1,
                    ));
                    assert(map_of(mid) == map_of(pre).remove(self.entries@.last().0@));
                    assert(map_of(pre).remove(self.entries@.last().0@).insert(
                        self.entries@.last().0@,
                        h,
                    ) =~= map_of(pre).insert(self.entries@.last().0@, h));
                }
            },
            None => {
                let ghost mid = self.entries@;
                proof {
                    assert forall|a: int| 0 <= a < mid.len() implies mid[a].0@ != key@ by {
                        if mid[a].0@ == key@ {
                            lemma_map_of_index(mid, a);
                        }
                    }
                }
                self.entries.push((key, handle));
                proof {
                    assert(self.entries@.drop_last() =~= mid);
                    assert forall|a: int, b: int|
                        0 <= a < b < self.entries@.len() implies self.entries@[a].0@
                        != self.entries@[b].0@ by {
                        assert(self.entries@[a] == mid[a]);
                        if b < self.entries@.len() - 1 {
                            assert(self.entries@[b] == mid[b]);
                        }
                    }
                }
            },
        }
    }

    /// Removes the entry under `key`, handing back its handle when one was
    /// present; afterwards the key is absent either way.
    pub fn remove(&mut self, key: &String) -> (r: Option<H>)
        requires
            old(self).wf(),
        ensures
            final(self).wf(),
            final(self)@ == old(self)@.remove(key@),
            r == if old(self)@.contains_key(key@) {
                Some(old(self)@[key@])
            } else {
                Option::<H>::None
            },
            !final(self)@.contains_key(key@),
    {
        match self.find(key) {
            Some(i) => {
                proof {
                    lemma_map_of_remove(self.entries@, i as int);
                }
                let ghost pre = self.entries@;
                let (_k, h) = self.entries.remove(i);
                proof {
                    assert forall|a: int, b: int|
                        0 <= a < b < self.entries@.len() implies self.entries@[a].0@
                        != self.entries@[b].0@ by {
                        assert(self.entries@[a] == if a < i { pre[a] } else { pre[a + 1] });
                        assert(self.entries@[b] == if b < i { pre[b] } else { pre[b + 1] });
                    }
                }
                Some(h)
            },
            None => {
                proof {
                    assert(old(self)@.remove(key@) =~= old(self)@);
                }
                None
            },
        }
    }
}

/// One operation addressed to a fixed key: registering a handle, removing it,
/// or a read (`get` / `contains`), which leaves the registry unchanged.
pub enum KeyOp<H> {
    Insert(H),
    Remove,
    Read,
}

/// The registry map after one operation on key `k`.
pub open spec fn apply_key_op<H>(m: Map<Seq<char>, H>, k: Seq<char>, op: KeyOp<H>) -> Map<
    Seq<char>,
    H,
> {
    match op {
        KeyOp::Insert(h) => m.insert(k, h),
        KeyOp::Remove => m.remove(k),
        KeyOp::Read => m,
    }
}

/// The registry map after a sequence of operations on key `k`, applied in order.
pub open spec fn apply_key_ops<H>(m: Map<Seq<char>, H>, k: Seq<char>, ops: Seq<KeyOp<H>>) -> Map<
    Seq<char>,
    H,
>
    decreases ops.len(),
{
    if ops.len() == 0 {
        m
    } else {
        apply_key_op(apply_key_ops(m, k, ops.drop_last()), k, ops.last())
    }
}

/// After any interleaving of insert / remove / read operations on a key,
/// starting from a registry in which the key is absent, the key is present
/// exactly when some insert occurred with no remove after it — that is, when
/// the most recent insert-or-remove operation was an insert.
pub proof fn lemma_contains_tracks_ops<H>(m: Map<Seq<char>, H>, k: Seq<char>, ops: Seq<KeyOp<H>>)
    requires
        !m.contains_key(k),
    ensures
        apply_key_ops(m, k, ops).contains_key(k) <==> exists|i: int|
            0 <= i < ops.len() && (ops[i] is Insert) && (forall|j: int|
                i < j < ops.len() ==> !(ops[j] is Remove)),
    decreases ops.len(),
{
    if ops.len() > 0 {
        lemma_contains_tracks_ops(m, k, ops.drop_last());
        let prev = ops.drop_last();
        let n = ops.len() - 1;
        match ops.last() {
            KeyOp::Insert(_) => {
                assert(ops[n] is Insert && (forall|j: int| n < j < ops.len() ==> !(ops[j]
                    is Remove)));
            },
            KeyOp::Remove => {
                assert(forall|i: int| 0 <= i < ops.len() ==> !(ops[i] is Insert && forall|j: int|
                    i < j < ops.len() ==> !(ops[j] is Remove)));
            },
            KeyOp::Read => {
                assert(forall|j: int| 0 <= j < n ==> prev[j] == ops[j]);
                assert(ops[n] == ops.last());
                if apply_key_ops(m, k, prev).contains_key(k) {
                    let i = choose|i: int|
                        0 <= i < prev.len() && (prev[i] is Insert) && (forall|j: int|
                            i < j < prev.len() ==> !(prev[j] is Remove));
                    assert(ops[i] is Insert);
                    assert(forall|j: int| i < j < ops.len() ==> !(ops[j] is Remove));
                } else {
                    if exists|i: int|
                        0 <= i < ops.len() && (ops[i] is Insert) && (forall|j: int|
                            i < j < ops.len() ==> !(ops[j] is Remove)) {
                        let i = choose|i: int|
                            0 <= i < ops.len() && (ops[i] is Insert) && (forall|j: int|
                                i < j < ops.len() ==> !(ops[j] is Remove));
                        assert(i < n);
                        assert(prev[i] is Insert);
                        assert(forall|j: int| i < j < prev.len() ==> !(prev[j] is Remove));
                    }
                }
            },
        }
    }
}

} // verus!

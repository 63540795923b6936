//! The slots of an understood intent: a map from slot names to values.

use vstd::prelude::*;

use crate::text::same_text;

verus! {

/// A map from slot names to slot values. Each name occurs once; inserting a
/// name again replaces its value.
pub struct SlotMap {
    entries: Vec<(String, String)>,
    contents: Ghost<Map<Seq<char>, Seq<char>>>,
}

impl View for SlotMap {
    type V = Map<Seq<char>, Seq<char>>;

    closed spec fn view(&self) -> Map<Seq<char>, Seq<char>> {
        self.contents@
    }
}

/// The map that inserting `pairs` one after the other into an empty map
/// gives: a later value for a name replaces an earlier one.
pub open spec fn pairs_map(pairs: Seq<(Seq<char>, Seq<char>)>) -> Map<Seq<char>, Seq<char>>
    decreases pairs.len(),
{
    if pairs.len() == 0 {
        Map::empty()
    } else {
        pairs_map(pairs.drop_last()).insert(pairs.last().0, pairs.last().1)
    }
}

/// The views of a list of string pairs.
pub open spec fn pair_views(v: Seq<(String, String)>) -> Seq<(Seq<char>, Seq<char>)> {
    v.map_values(|p: (String, String)| (p.0@, p.1@))
}

/// No name occurs twice among `pairs`.
pub open spec fn distinct_names(pairs: Seq<(Seq<char>, Seq<char>)>) -> bool {
    forall|i: int, j: int| 0 <= i < pairs.len() && 0 <= j < pairs.len() && i != j ==> pairs[i].0 != pairs[j].0
}

/// Inserting pairs with distinct names one after the other gives a map with
/// one entry per pair, and each name maps to the value it came with.
pub proof fn lemma_distinct_pairs_map(pairs: Seq<(Seq<char>, Seq<char>)>)
    requires
        distinct_names(pairs),
    ensures
        pairs_map(pairs).dom().finite(),
        pairs_map(pairs).len() == pairs.len(),
        forall|i: int| 0 <= i < pairs.len() ==> #[trigger] pairs_map(pairs).contains_key(pairs[i].0)
            && pairs_map(pairs)[pairs[i].0] == pairs[i].1,
        forall|k: Seq<char>| #[trigger] pairs_map(pairs).contains_key(k) ==> exists|i: int|
            0 <= i < pairs.len() && pairs[i].0 == k,
    decreases pairs.len(),
{
    if pairs.len() > 0 {
        let rest = pairs.drop_last();
        assert(distinct_names(rest));
        lemma_distinct_pairs_map(rest);
        let last = pairs.last();
        assert(!pairs_map(rest).contains_key(last.0)) by {
            if pairs_map(rest).contains_key(last.0) {
                let i = choose|i: int| 0 <= i < rest.len() && rest[i].0 == last.0;
                assert(pairs[i].0 == pairs[pairs.len() - 1].0);
            }
        }
        assert forall|i: int| 0 <= i < pairs.len() implies #[trigger] pairs_map(pairs).contains_key(pairs[i].0)
            && pairs_map(pairs)[pairs[i].0] == pairs[i].1 by {
            if i < pairs.len() - 1 {
                assert(rest[i] == pairs[i]);
                assert(pairs_map(rest).contains_key(rest[i].0));
            }
        }
        assert forall|k: Seq<char>| #[trigger] pairs_map(pairs).contains_key(k) implies exists|i: int|
            0 <= i < pairs.len() && pairs[i].0 == k by {
            if k != last.0 {
                assert(pairs_map(rest).contains_key(k));
                let i = choose|i: int| 0 <= i < rest.len() && rest[i].0 == k;
                assert(pairs[i] == rest[i]);
            } else {
                assert(pairs[pairs.len() - 1].0 == k);
            }
        }
    }
}

impl SlotMap {
    /// The invariant that ties the entries to the map they stand for.
    pub closed spec fn wf(&self) -> bool {
        let m = self.contents@;
        let e = self.entries@;
        &&& m.dom().finite()
        &&& m.len() == e.len()
        &&& forall|i: int| 0 <= i < e.len() ==> #[trigger] m.contains_key(e[i].0@) && m[e[i].0@] == e[i].1@
        &&& forall|k: Seq<char>| #[trigger] m.contains_key(k) ==> exists|i: int| 0 <= i < e.len() && e[i].0@ == k
        &&& forall|i: int, j: int| 0 <= i < e.len() && 0 <= j < e.len() && i != j ==> e[i].0@ != e[j].0@
    }

    /// An empty map.
    pub fn new() -> (r: Self)
        ensures
            r.wf(),
            r@ == Map::<Seq<char>, Seq<char>>::empty(),
    {
        SlotMap { entries: Vec::new(), contents: Ghost(Map::empty()) }
    }

    /// Maps `name` to `value`, replacing any value it had.
    pub fn insert(&mut self, name: String, value: String)
        ensures
            old(self).wf() ==> final(self).wf() && final(self)@ == old(self)@.insert(name@, value@),
    {
        let ghost was_wf = self.wf();
        let ghost m = self.contents@;
        let ghost e = self.entries@;
        let ghost (k, v) = (name@, value@);
        let ghost m2 = m.insert(k, v);
        let n = self.entries.len();
        let mut i: usize = 0;
        while i < n
            invariant
                n == self.entries@.len(),
                self.entries@ == e,
                self.contents@ == m,
                was_wf == self.wf(),
                was_wf == old(self).wf(),
                m == old(self)@,
                k == name@,
                v == value@,
                m2 == m.insert(k, v),
                i <= n,
                forall|j: int| 0 <= j < i ==> e[j].0@ != k,
            decreases n - i,
        {
            if same_text(self.entries[i].0.as_str(), name.as_str()) {
                self.entries.set(i, (name, value));
                self.contents = Ghost(m2);
                proof {
                    if was_wf {
                        let e2 = self.entries@;
                        assert(m.contains_key(e[i as int].0@));
                        assert(m2.dom() =~= m.dom());
                        assert forall|a: int| 0 <= a < e2.len() implies #[trigger] m2.contains_key(e2[a].0@)
                            && m2[e2[a].0@] == e2[a].1@ by {
                            if a != i {
                                assert(e2[a] == e[a]);
                                assert(m.contains_key(e[a].0@));
                            }
                        }
                        assert forall|q: Seq<char>| #[trigger] m2.contains_key(q) implies exists|a: int|
                            0 <= a < e2.len() && e2[a].0@ == q by {
                            assert(m.contains_key(q));
                            let a = choose|a: int| 0 <= a < e.len() && e[a].0@ == q;
                            assert(e2[a].0@ == q);
                        }
                        assert forall|a: int, b: int| 0 <= a < e2.len() && 0 <= b < e2.len() && a != b
                            implies e2[a].0@ != e2[b].0@ by {
                            assert(e2[a].0@ == e[a].0@);
                            assert(e2[b].0@ == e[b].0@);
                        }
                        assert(m2.len() == e2.len());
                        assert(m2.dom().finite());
                        assert(self.wf());
                    }
                }
                return;
            }
            i = i + 1;
        }
        self.entries.push((name, value));
        self.contents = Ghost(m2);
        proof {
            if was_wf {
                let e2 = self.entries@;
                assert(!m.contains_key(k)) by {
                    if m.contains_key(k) {
                        let a = choose|a: int| 0 <= a < e.len() && e[a].0@ == k;
                    }
                }
                assert(e2[e.len() as int].0@ == k);
                assert forall|q: Seq<char>| #[trigger] m2.contains_key(q) implies exists|a: int|
                    0 <= a < e2.len() && e2[a].0@ == q by {
                    if q != k {
                        assert(m.contains_key(q));
                        let a = choose|a: int| 0 <= a < e.len() && e[a].0@ == q;
                        assert(e2[a] == e[a]);
                    }
                }
                assert forall|a: int| 0 <= a < e2.len() implies #[trigger] m2.contains_key(e2[a].0@)
                    && m2[e2[a].0@] == e2[a].1@ by {
                    if a < e.len() {
                        assert(e2[a] == e[a]);
                        assert(m.contains_key(e[a].0@));
                    }
                }
                assert forall|a: int, b: int| 0 <= a < e2.len() && 0 <= b < e2.len() && a != b
                    implies e2[a].0@ != e2[b].0@ by {
                    if a < e.len() {
                        assert(e2[a] == e[a]);
                    }
                    if b < e.len() {
                        assert(e2[b] == e[b]);
                    }
                }
            }
        }
    }

    /// The map of the given pairs, inserted in order.
    pub fn from_pairs(pairs: Vec<(String, String)>) -> (r: Self)
        ensures
            r.wf(),
            r@ == pairs_map(pair_views(pairs@)),
    {
        let ghost pv = pair_views(pairs@);
        let mut r = SlotMap::new();
        let n = pairs.len();
        let mut i: usize = 0;
        while i < n
            invariant
                n == pairs@.len(),
                pv == pair_views(pairs@),
                i <= n,
                r.wf(),
                r@ == pairs_map(pv.take(i as int)),
            decreases n - i,
        {
            let (name, value) = (pairs[i].0.clone(), pairs[i].1.clone());
            r.insert(name, value);
            assert(pv.take(i + 1).drop_last() == pv.take(i as int));
            i = i + 1;
        }
        assert(pv.take(n as int) == pv);
        r
    }

    /// The number of slots.
    pub fn len(&self) -> (r: usize)
        ensures
            self.wf() ==> r == self@.len(),
    {
        self.entries.len()
    }

    /// Whether there is no slot.
    pub fn is_empty(&self) -> (r: bool)
        ensures
            self.wf() ==> (r <==> self@.len() == 0),
    {
        self.entries.len() == 0
    }

    /// The value of the slot `name`, if there is one.
    pub fn get(&self, name: &str) -> (r: Option<&String>)
        ensures
            self.wf() ==> match r {
                Some(v) => self@.contains_key(name@) && self@[name@] == v@,
                None => !self@.contains_key(name@),
            },
    {
        let n = self.entries.len();
        let mut i: usize = 0;
        while i < n
            invariant
                n == self.entries@.len(),
                i <= n,
                forall|j: int| 0 <= j < i ==> self.entries@[j].0@ != name@,
            decreases n - i,
        {
            if same_text(self.entries[i].0.as_str(), name) {
                proof {
                    if self.wf() {
                        assert(self@.contains_key(self.entries@[i as int].0@));
                    }
                }
                return Some(&self.entries[i].1);
            }
            i = i + 1;
        }
        proof {
            if self.wf() && self@.contains_key(name@) {
                let a = choose|a: int| 0 <= a < self.entries@.len() && self.entries@[a].0@ == name@;
                assert(self.entries@[a].0@ != name@);
            }
        }
        None
    }

    /// The slots as name and value pairs, each name once.
    pub fn entries(&self) -> (r: &Vec<(String, String)>)
        ensures
            self.wf() ==> {
                &&& r@.len() == self@.len()
                &&& distinct_names(pair_views(r@))
                &&& forall|i: int| 0 <= i < r@.len() ==> #[trigger] self@.contains_key(r@[i].0@)
                    && self@[r@[i].0@] == r@[i].1@
            },
    {
        &self.entries
    }
}

} // verus!

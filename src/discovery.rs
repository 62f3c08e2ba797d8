//! The discovery tracker: the set of entity ids already announced to the
//! automation bus. The first mark of an id gates its announcement; the set
//! is emptied when the bus connection fails, so that every entity is
//! announced again.
use vstd::prelude::*;

verus! {

/// For each id of one message, in order, whether it is announced when the
/// tracker held `s` before the message: it is, unless `s` or an earlier id
/// of the message already holds it.
pub open spec fn announce_flags(s: Set<Seq<char>>, ids: Seq<Seq<char>>) -> Seq<bool> {
    Seq::new(ids.len(), |i: int| !s.union(ids.take(i).to_set()).contains(ids[i]))
}

/// How many positions of one message announce entity `e`.
pub open spec fn count_announced(ids: Seq<Seq<char>>, flags: Seq<bool>, e: Seq<char>) -> nat
    decreases ids.len(),
{
    if ids.len() == 0 || flags.len() == 0 {
        0
    } else {
        count_announced(ids.drop_last(), flags.drop_last(), e) + if ids.last() == e
            && flags.last() {
            1nat
        } else {
            0nat
        }
    }
}

/// The tracker's set after `k` deliveries of the message `ids`, starting from `s`.
pub open spec fn state_after(s: Set<Seq<char>>, ids: Seq<Seq<char>>, k: nat) -> Set<Seq<char>> {
    if k == 0 {
        s
    } else {
        s.union(ids.to_set())
    }
}

/// How many times entity `e` is announced over `n` deliveries of the same
/// message `ids`, starting from the set `s`.
pub open spec fn announcements_over(s: Set<Seq<char>>, ids: Seq<Seq<char>>, e: Seq<char>, n: nat) -> nat
    decreases n,
{
    if n == 0 {
        0
    } else {
        announcements_over(s, ids, e, (n - 1) as nat) + count_announced(
            ids,
            announce_flags(state_after(s, ids, (n - 1) as nat), ids),
            e,
        )
    }
}

/// In one message, entity `e` is announced once if it appears and `s` does
/// not hold it, and otherwise not at all.
pub proof fn lemma_count_announced(s: Set<Seq<char>>, ids: Seq<Seq<char>>, e: Seq<char>)
    ensures
        count_announced(ids, announce_flags(s, ids), e) == if ids.contains(e) && !s.contains(e) {
            1nat
        } else {
            0nat
        },
    decreases ids.len(),
{
    if ids.len() > 0 {
        let front = ids.drop_last();
        lemma_count_announced(s, front, e);
        assert(announce_flags(s, ids).drop_last() =~= announce_flags(s, front)) by {
            assert forall|i: int| 0 <= i < front.len() implies ids.take(i) == front.take(i) by {
                assert(ids.take(i) =~= front.take(i));
            }
        }
        assert(ids.take(front.len() as int) =~= front);
        assert(ids.contains(e) <==> (front.contains(e) || ids.last() == e)) by {
            if ids.contains(e) && ids.last() != e {
                let j = choose|j: int| 0 <= j < ids.len() && ids[j] == e;
                assert(front[j] == e);
            }
            if front.contains(e) {
                let j = choose|j: int| 0 <= j < front.len() && front[j] == e;
                assert(ids[j] == e);
            }
            if ids.last() == e {
                assert(ids[ids.len() - 1] == e);
            }
        }
    }
}

/// Idempotent discovery: over `n >= 1` deliveries of the same message,
/// each entity of the message that was not announced before is announced
/// exactly once, and after the first delivery no entity of it is announced
/// again.
pub proof fn lemma_idempotent_discovery(
    s: Set<Seq<char>>,
    ids: Seq<Seq<char>>,
    e: Seq<char>,
    n: nat,
)
    requires
        n >= 1,
        ids.contains(e),
        !s.contains(e),
    ensures
        announcements_over(s, ids, e, n) == 1,
        forall|i: int|
            0 <= i < ids.len() ==> !#[trigger] announce_flags(s.union(ids.to_set()), ids)[i],
    decreases n,
{
    let after = s.union(ids.to_set());
    assert forall|i: int| 0 <= i < ids.len() implies !#[trigger] announce_flags(after, ids)[i] by {
        assert(ids.to_set().contains(ids[i]));
    }
    if n == 1 {
        assert(state_after(s, ids, 0) == s);
        lemma_count_announced(s, ids, e);
        assert(announcements_over(s, ids, e, 0) == 0);
    } else {
        lemma_idempotent_discovery(s, ids, e, (n - 1) as nat);
        assert(ids.to_set().contains(e));
        assert(after.contains(e));
        assert(state_after(s, ids, (n - 1) as nat) == after);
        lemma_count_announced(after, ids, e);
    }
}

/// Once the tracker has been emptied, every entity of the next message is
/// announced, whatever was announced before.
pub proof fn lemma_reannounce_after_clear(ids: Seq<Seq<char>>, e: Seq<char>)
    requires
        ids.contains(e),
    ensures
        count_announced(ids, announce_flags(Set::<Seq<char>>::empty(), ids), e) == 1,
{
    lemma_count_announced(Set::<Seq<char>>::empty(), ids, e);
}

/// The set of entity ids already announced.
pub struct DiscoveryTracker {
    announced: Vec<String>,
}

impl View for DiscoveryTracker {
    type V = Set<Seq<char>>;

    closed spec fn view(&self) -> Set<Seq<char>> {
        self.announced@.map_values(|s: String| s@).to_set()
    }
}

impl DiscoveryTracker {
    pub fn new() -> (r: Self)
        ensures
            r@ == Set::<Seq<char>>::empty(),
    {
        let r = DiscoveryTracker { announced: Vec::new() };
        assert(r@ =~= Set::<Seq<char>>::empty());
        r
    }

    pub fn contains(&self, id: &String) -> (r: bool)
        ensures
            r == self@.contains(id@),
    {
        let mut i: usize = 0;
        while i < self.announced.len()
            invariant
                i <= self.announced@.len(),
                forall|j: int| 0 <= j < i ==> self.announced@[j]@ != id@,
            decreases self.announced@.len() - i,
        {
            if self.announced[i] == *id {
                assert(self.announced@.map_values(|s: String| s@)[i as int] == id@);
                return true;
            }
            i = i + 1;
        }
        assert(!self@.contains(id@)) by {
            if self@.contains(id@) {
                let v = self.announced@.map_values(|s: String| s@);
                let j = choose|j: int| 0 <= j < v.len() && v[j] == id@;
                assert(self.announced@[j]@ == id@);
            }
        }
        false
    }

    /// Marks `id` as announced; true when it was not before, i.e. when the
    /// caller is to announce it now.
    pub fn insert(&mut self, id: String) -> (r: bool)
        ensures
            r == !old(self)@.contains(id@),
            final(self)@ == old(self)@.insert(id@),
    {
        if self.contains(&id) {
            assert(self@.insert(id@) =~= self@);
            false
        } else {
            let ghost before = self.announced@.map_values(|s: String| s@);
            let ghost idv = id@;
            self.announced.push(id);
            assert(self.announced@.map_values(|s: String| s@) =~= before.push(idv));
            assert(before.push(idv).to_set() =~= before.to_set().insert(idv)) by {
                assert forall|x: Seq<char>| before.push(idv).contains(x) implies before.to_set().insert(idv).contains(x) by {
                    if x != idv {
                        let j = choose|j: int| 0 <= j < before.push(idv).len() && before.push(idv)[j] == x;
                        assert(before[j] == x);
                    }
                }
                assert forall|x: Seq<char>| before.to_set().insert(idv).contains(x) implies before.push(idv).contains(x) by {
                    if x == idv {
                        assert(before.push(idv)[before.len() as int] == x);
                    } else {
                        let j = choose|j: int| 0 <= j < before.len() && before[j] == x;
                        assert(before.push(idv)[j] == x);
                    }
                }
            }
            true
        }
    }

    /// Marks every id of one message, in order, and says for each whether it
    /// is to be announced.
    pub fn mark_all(&mut self, ids: &Vec<String>) -> (r: Vec<bool>)
        ensures
            r@ == announce_flags(old(self)@, ids@.map_values(|s: String| s@)),
            final(self)@ == old(self)@.union(ids@.map_values(|s: String| s@).to_set()),
    {
        let ghost start = self@;
        let ghost v = ids@.map_values(|s: String| s@);
        let mut flags: Vec<bool> = Vec::new();
        let mut i: usize = 0;
        while i < ids.len()
            invariant
                i <= ids@.len(),
                v == ids@.map_values(|s: String| s@),
                self@ == start.union(v.take(i as int).to_set()),
                flags@ == announce_flags(start, v).take(i as int),
            decreases ids@.len() - i,
        {
            let fresh = self.insert(ids[i].clone());
            proof {
                assert(v[i as int] == ids@[i as int]@);
                assert(v.take(i as int + 1) =~= v.take(i as int).push(v[i as int]));
                assert(v.take(i as int).push(v[i as int]).to_set() =~= v.take(i as int).to_set().insert(v[i as int])) by {
                    let t = v.take(i as int);
                    let x0 = v[i as int];
                    assert forall|x: Seq<char>| t.push(x0).contains(x) implies t.to_set().insert(x0).contains(x) by {
                        if x != x0 {
                            let j = choose|j: int| 0 <= j < t.push(x0).len() && t.push(x0)[j] == x;
                            assert(t[j] == x);
                        }
                    }
                    assert forall|x: Seq<char>| t.to_set().insert(x0).contains(x) implies t.push(x0).contains(x) by {
                        if x == x0 {
                            assert(t.push(x0)[t.len() as int] == x);
                        } else {
                            let j = choose|j: int| 0 <= j < t.len() && t[j] == x;
                            assert(t.push(x0)[j] == x);
                        }
                    }
                }
            }
            flags.push(fresh);
            i = i + 1;
            assert(flags@ =~= announce_flags(start, v).take(i as int));
            assert(self@ =~= start.union(v.take(i as int).to_set()));
        }
        assert(v.take(ids@.len() as int) =~= v);
        assert(flags@ =~= announce_flags(start, v));
        flags
    }

    /// Forgets every announcement.
    pub fn clear(&mut self)
        ensures
            final(self)@ == Set::<Seq<char>>::empty(),
    {
        self.announced.clear();
        assert(self@ =~= Set::<Seq<char>>::empty());
    }
}

} // verus!

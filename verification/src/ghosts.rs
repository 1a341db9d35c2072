//! Client side of replication: which ghost entity stands in for each enemy
//! the host has replicated. Each frame the client looks every enemy of the
//! newest snapshot up, raises a ghost for the ones it has not seen, and then
//! drops the ghosts of enemies that are no longer in the snapshot.

use vstd::prelude::*;

verus! {

/// No two entries name the same enemy.
pub open spec fn distinct_ids(s: Seq<(u32, u64)>) -> bool {
    forall|i: int, j: int| 0 <= i < j < s.len() ==> s[i].0 != s[j].0
}

/// The map an entry list spells out: enemy id → ghost entity.
pub open spec fn table_map(s: Seq<(u32, u64)>) -> Map<u32, u64>
    decreases s.len(),
{
    if s.len() == 0 {
        Map::empty()
    } else {
        table_map(s.drop_last()).insert(s.last().0, s.last().1)
    }
}

proof fn lemma_table_map(s: Seq<(u32, u64)>)
    requires
        distinct_ids(s),
    ensures
        forall|id: u32|
            #[trigger] table_map(s).contains_key(id) <==> exists|i: int|
                0 <= i < s.len() && s[i].0 == id,
        forall|i: int| 0 <= i < s.len() ==> #[trigger] table_map(s)[s[i].0] == s[i].1,
        table_map(s).dom().finite(),
        table_map(s).dom().len() == s.len(),
    decreases s.len(),
{
    if s.len() > 0 {
        let d = s.drop_last();
        assert(distinct_ids(d));
        lemma_table_map(d);
        let last = s.last();
        assert(!table_map(d).contains_key(last.0)) by {
            if table_map(d).contains_key(last.0) {
                let i = choose|i: int| 0 <= i < d.len() && d[i].0 == last.0;
                assert(s[i].0 == s[s.len() - 1].0);
            }
        }
        assert forall|id: u32| #[trigger] table_map(s).contains_key(id) <==> exists|i: int|
            0 <= i < s.len() && s[i].0 == id by {
            if table_map(s).contains_key(id) && id != last.0 {
                let i = choose|i: int| 0 <= i < d.len() && d[i].0 == id;
                assert(s[i].0 == id);
            }
            if exists|i: int| 0 <= i < s.len() && s[i].0 == id {
                let i = choose|i: int| 0 <= i < s.len() && s[i].0 == id;
                if i < s.len() - 1 {
                    assert(d[i].0 == id);
                }
            }
        }
        assert forall|i: int| 0 <= i < s.len() implies #[trigger] table_map(s)[s[i].0] == s[i].1 by {
            if i < s.len() - 1 {
                assert(d[i] == s[i]);
                assert(s[i].0 != last.0);
            }
        }
    }
}

proof fn lemma_table_map_update(s: Seq<(u32, u64)>, i: int, e: u64)
    requires
        distinct_ids(s),
        0 <= i < s.len(),
    ensures
        table_map(s.update(i, (s[i].0, e))) =~= table_map(s).insert(s[i].0, e),
    decreases s.len(),
{
    let t = s.update(i, (s[i].0, e));
    if i == s.len() - 1 {
        assert(t.drop_last() =~= s.drop_last());
    } else {
        assert(t.drop_last() =~= s.drop_last().update(i, (s[i].0, e)));
        assert(distinct_ids(s.drop_last()));
        lemma_table_map_update(s.drop_last(), i, e);
        assert(s.last().0 != s[i].0);
    }
}

/// Client side: replicated enemy id → the ghost entity drawn for it.
pub struct EnemyGhosts {
    entries: Vec<(u32, u64)>,
}

impl View for EnemyGhosts {
    type V = Map<u32, u64>;

    closed spec fn view(&self) -> Map<u32, u64> {
        table_map(self.entries@)
    }
}

impl EnemyGhosts {
    #[verifier::type_invariant]
    spec fn distinct(&self) -> bool {
        distinct_ids(self.entries@)
    }

    /// No ghosts yet.
    pub fn new() -> (g: EnemyGhosts)
        ensures
            g@ == Map::<u32, u64>::empty(),
    {
        EnemyGhosts { entries: Vec::new() }
    }

    /// How many ghosts stand.
    pub fn len(&self) -> (n: usize)
        ensures
            self@.dom().finite(),
            n == self@.dom().len(),
    {
        proof {
            use_type_invariant(self);
            lemma_table_map(self.entries@);
        }
        self.entries.len()
    }

    /// A new run: every ghost is forgotten.
    pub fn clear(&mut self)
        ensures
            final(self)@ == Map::<u32, u64>::empty(),
    {
        self.entries = Vec::new();
    }

    fn position(&self, id: u32) -> (r: Option<usize>)
        ensures
            r matches Some(i) ==> i < self.entries@.len() && self.entries@[i as int].0 == id,
            r is None ==> forall|i: int| 0 <= i < self.entries@.len() ==> self.entries@[i].0 != id,
    {
        let mut i: usize = 0;
        while i < self.entries.len()
            invariant
                0 <= i <= self.entries@.len(),
                forall|j: int| 0 <= j < i ==> self.entries@[j].0 != id,
            decreases self.entries@.len() - i,
        {
            if self.entries[i].0 == id {
                return Some(i);
            }
            i = i + 1;
        }
        None
    }

    /// The ghost standing in for enemy `id`, if one has been raised.
    pub fn get(&self, id: u32) -> (r: Option<u64>)
        ensures
            r == if self@.contains_key(id) {
                Some(self@[id])
            } else {
                None::<u64>
            },
    {
        proof {
            use_type_invariant(self);
            lemma_table_map(self.entries@);
        }
        match self.position(id) {
            Some(i) => Some(self.entries[i].1),
            None => None,
        }
    }

    /// Record that `ghost` now stands in for enemy `id`.
    pub fn insert(&mut self, id: u32, ghost: u64)
        ensures
            final(self)@ == old(self)@.insert(id, ghost),
    {
        proof {
            use_type_invariant(&*self);
            lemma_table_map(self.entries@);
        }
        match self.position(id) {
            Some(i) => {
                proof {
                    lemma_table_map_update(self.entries@, i as int, ghost);
                }
                let ghost old_entries = self.entries@;
                let mut entries: Vec<(u32, u64)> = Vec::new();
                std::mem::swap(&mut entries, &mut self.entries);
                entries.set(i, (id, ghost));
                assert(entries@ == old_entries.update(i as int, (old_entries[i as int].0, ghost)));
                assert(distinct_ids(entries@));
                self.entries = entries;
            },
            None => {
                let ghost old_entries = self.entries@;
                let mut entries: Vec<(u32, u64)> = Vec::new();
                std::mem::swap(&mut entries, &mut self.entries);
                entries.push((id, ghost));
                assert(entries@.drop_last() =~= old_entries);
                assert(distinct_ids(entries@));
                self.entries = entries;
            },
        }
    }

    /// Drop the ghost of every enemy that is not in `seen`, returning those
    /// ghost entities (each once) so they can be despawned. The ghosts of
    /// enemies in `seen` stay as they were.
    pub fn retain_seen(&mut self, seen: &Vec<u32>) -> (gone: Vec<u64>)
        ensures
            final(self)@ == old(self)@.restrict(seen@.to_set()),
            forall|id: u32|
                old(self)@.contains_key(id) && !seen@.contains(id) ==> #[trigger] gone@.contains(
                    old(self)@[id],
                ),
            forall|k: int|
                0 <= k < gone@.len() ==> exists|id: u32|
                    old(self)@.contains_key(id) && !seen@.contains(id) && old(self)@[id]
                        == #[trigger] gone@[k],
            old(self)@.dom().finite(),
            final(self)@.dom().finite(),
            gone@.len() + final(self)@.dom().len() == old(self)@.dom().len(),
    {
        proof {
            use_type_invariant(&*self);
        }
        let ghost e = self.entries@;
        let mut kept: Vec<(u32, u64)> = Vec::new();
        let mut gone: Vec<u64> = Vec::new();
        let mut i: usize = 0;
        while i < self.entries.len()
            invariant
                e == self.entries@,
                0 <= i <= e.len(),
                kept@ == kept_prefix(e, seen@, i as int),
                gone@ == gone_prefix(e, seen@, i as int),
            decreases e.len() - i,
        {
            let entry = self.entries[i];
            if contains_id(seen, entry.0) {
                kept.push(entry);
            } else {
                gone.push(entry.1);
            }
            i = i + 1;
        }
        proof {
            lemma_retain(e, seen@, e.len() as int);
            assert(e.take(e.len() as int) =~= e);
            lemma_table_map(e);
            lemma_table_map(kept@);
            let before = table_map(e);
            assert forall|id: u32|
                before.contains_key(id) && !seen@.contains(id) implies #[trigger] gone@.contains(
                before[id],
            ) by {
                let j = choose|j: int| 0 <= j < e.len() && e[j].0 == id;
                assert(before[e[j].0] == e[j].1);
                assert(gone_prefix(e, seen@, e.len() as int).contains(e[j].1));
            }
            assert forall|k: int| 0 <= k < gone@.len() implies exists|id: u32|
                before.contains_key(id) && !seen@.contains(id) && before[id]
                    == #[trigger] gone@[k] by {
                let j = choose|j: int|
                    0 <= j < e.len() && !seen@.contains(e[j].0) && e[j].1
                        == #[trigger] gone_prefix(e, seen@, e.len() as int)[k];
                assert(before[e[j].0] == e[j].1);
                assert(before.contains_key(e[j].0));
            }
        }
        self.entries = kept;
        gone
    }
}

/// The entries among the first `i` whose enemy is in `seen`, in order.
pub open spec fn kept_prefix(e: Seq<(u32, u64)>, seen: Seq<u32>, i: int) -> Seq<(u32, u64)>
    decreases i,
{
    if i <= 0 {
        seq![]
    } else if seen.contains(e[i - 1].0) {
        kept_prefix(e, seen, i - 1).push(e[i - 1])
    } else {
        kept_prefix(e, seen, i - 1)
    }
}

/// The ghosts among the first `i` entries whose enemy is not in `seen`.
pub open spec fn gone_prefix(e: Seq<(u32, u64)>, seen: Seq<u32>, i: int) -> Seq<u64>
    decreases i,
{
    if i <= 0 {
        seq![]
    } else if seen.contains(e[i - 1].0) {
        gone_prefix(e, seen, i - 1)
    } else {
        gone_prefix(e, seen, i - 1).push(e[i - 1].1)
    }
}

proof fn lemma_retain(e: Seq<(u32, u64)>, seen: Seq<u32>, i: int)
    requires
        distinct_ids(e),
        0 <= i <= e.len(),
    ensures
        table_map(kept_prefix(e, seen, i)) =~= table_map(e.take(i)).restrict(seen.to_set()),
        distinct_ids(kept_prefix(e, seen, i)),
        forall|a: int|
            0 <= a < kept_prefix(e, seen, i).len() ==> exists|j: int|
                0 <= j < i && #[trigger] kept_prefix(e, seen, i)[a] == e[j],
        kept_prefix(e, seen, i).len() + gone_prefix(e, seen, i).len() == i,
        forall|j: int|
            0 <= j < i && !seen.contains(e[j].0) ==> #[trigger] gone_prefix(e, seen, i).contains(
                e[j].1,
            ),
        forall|k: int|
            0 <= k < gone_prefix(e, seen, i).len() ==> exists|j: int|
                0 <= j < i && !seen.contains(e[j].0) && e[j].1 == #[trigger] gone_prefix(
                    e,
                    seen,
                    i,
                )[k],
    decreases i,
{
    if i > 0 {
        lemma_retain(e, seen, i - 1);
        let prev = kept_prefix(e, seen, i - 1);
        let prev_gone = gone_prefix(e, seen, i - 1);
        let x = e[i - 1];
        assert(e.take(i).drop_last() =~= e.take(i - 1));
        assert(e.take(i).last() == x);
        if seen.contains(x.0) {
            assert(kept_prefix(e, seen, i).drop_last() =~= prev);
            assert forall|a: int| 0 <= a < prev.len() implies prev[a].0 != x.0 by {
                let j = choose|j: int| 0 <= j < i - 1 && #[trigger] prev[a] == e[j];
                assert(e[j].0 != e[i - 1].0);
            }
            let now = kept_prefix(e, seen, i);
            assert forall|a: int| 0 <= a < now.len() implies exists|j: int|
                0 <= j < i && #[trigger] now[a] == e[j] by {
                if a < prev.len() {
                    let j = choose|j: int| 0 <= j < i - 1 && #[trigger] prev[a] == e[j];
                    assert(now[a] == e[j]);
                } else {
                    assert(now[a] == e[i - 1]);
                }
            }
            assert forall|j: int|
                0 <= j < i && !seen.contains(e[j].0) implies #[trigger] gone_prefix(
                e,
                seen,
                i,
            ).contains(e[j].1) by {
                assert(j != i - 1);
            }
        } else {
            let now_gone = gone_prefix(e, seen, i);
            assert(now_gone.drop_last() =~= prev_gone);
            assert forall|j: int|
                0 <= j < i && !seen.contains(e[j].0) implies #[trigger] now_gone.contains(e[j].1) by {
                if j == i - 1 {
                    assert(now_gone[now_gone.len() - 1] == e[j].1);
                } else {
                    assert(prev_gone.contains(e[j].1));
                    let k = choose|k: int| 0 <= k < prev_gone.len() && prev_gone[k] == e[j].1;
                    assert(now_gone[k] == prev_gone[k]);
                }
            }
            assert forall|k: int| 0 <= k < now_gone.len() implies exists|j: int|
                0 <= j < i && !seen.contains(e[j].0) && e[j].1 == #[trigger] now_gone[k] by {
                if k == now_gone.len() - 1 {
                    assert(e[i - 1].1 == now_gone[k]);
                } else {
                    let j = choose|j: int|
                        0 <= j < i - 1 && !seen.contains(e[j].0) && e[j].1 == #[trigger] prev_gone[k];
                    assert(now_gone[k] == prev_gone[k]);
                }
            }
        }
    } else {
        assert(e.take(0) =~= Seq::<(u32, u64)>::empty());
    }
}

/// The ghost table after looking up each enemy of a snapshot in turn and
/// raising ghost `ents[k]` for the `k`-th one when it has none yet.
pub open spec fn raise_missing(m: Map<u32, u64>, ids: Seq<u32>, ents: Seq<u64>) -> Map<u32, u64>
    decreases ids.len(),
{
    if ids.len() == 0 {
        m
    } else {
        let before = raise_missing(m, ids.drop_last(), ents);
        let id = ids.last();
        if before.contains_key(id) {
            before
        } else {
            before.insert(id, ents[ids.len() - 1])
        }
    }
}

proof fn lemma_raise_missing(m: Map<u32, u64>, ids: Seq<u32>, ents: Seq<u64>)
    ensures
        forall|id: u32|
            #[trigger] raise_missing(m, ids, ents).contains_key(id) <==> (m.contains_key(id)
                || ids.contains(id)),
        forall|id: u32| m.contains_key(id) ==> #[trigger] raise_missing(m, ids, ents)[id] == m[id],
    decreases ids.len(),
{
    if ids.len() > 0 {
        lemma_raise_missing(m, ids.drop_last(), ents);
        let before = raise_missing(m, ids.drop_last(), ents);
        let last = ids.last();
        assert forall|id: u32| #[trigger] raise_missing(m, ids, ents).contains_key(id) <==> (
        m.contains_key(id) || ids.contains(id)) by {
            assert(before.contains_key(id) <==> (m.contains_key(id) || ids.drop_last().contains(id)));
            if ids.contains(id) && id != last {
                let k = choose|k: int| 0 <= k < ids.len() && ids[k] == id;
                assert(k != ids.len() - 1);
                assert(ids.drop_last()[k] == id);
            }
            if ids.drop_last().contains(id) {
                let k = choose|k: int| 0 <= k < ids.len() - 1 && ids.drop_last()[k] == id;
                assert(ids[k] == id);
            }
            if id == last {
                assert(ids[ids.len() - 1] == id);
            }
        }
        assert forall|id: u32| m.contains_key(id) implies #[trigger] raise_missing(m, ids, ents)[id]
            == m[id] by {
            assert(before.contains_key(id));
            assert(before[id] == m[id]);
        }
    }
}

/// The client mirrors the host: after looking up every enemy of a snapshot,
/// raising a ghost for each one it lacked, and dropping the ghosts of enemies
/// not in the snapshot, it holds a ghost for exactly the snapshot's enemies,
/// and every ghost that already stood for one of them is kept.
pub proof fn lemma_ghosts_mirror_snapshot(m: Map<u32, u64>, ids: Seq<u32>, ents: Seq<u64>)
    ensures
        raise_missing(m, ids, ents).restrict(ids.to_set()).dom() =~= ids.to_set(),
        forall|id: u32|
            m.contains_key(id) && ids.contains(id) ==> #[trigger] raise_missing(
                m,
                ids,
                ents,
            ).restrict(ids.to_set())[id] == m[id],
{
    lemma_raise_missing(m, ids, ents);
}

/// Is `id` among `ids`?
fn contains_id(ids: &Vec<u32>, id: u32) -> (r: bool)
    ensures
        r == ids@.contains(id),
{
    let mut i: usize = 0;
    while i < ids.len()
        invariant
            0 <= i <= ids@.len(),
            forall|j: int| 0 <= j < i ==> ids@[j] != id,
        decreases ids@.len() - i,
    {
        if ids[i] == id {
            return true;
        }
        i = i + 1;
    }
    false
}

} // verus!

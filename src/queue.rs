//! Queued intent: the services an operator asked to start or to stop, and
//! the reconciliation that clears that intent once the live container list
//! shows it done.
use crate::name_map::{
    name_entries, name_map_clone, name_map_get, name_map_insert, name_map_new, name_map_remove,
    no_names,
};
use indexmap::IndexMap;
use vstd::prelude::*;

verus! {

/// The direction of a queued action.
#[derive(Clone, Copy, Debug, PartialEq, Eq, Structural)]
pub enum QueueType {
    Stop,
    Start,
}

/// The container names of a list of strings.
pub open spec fn names_of(v: Seq<String>) -> Seq<Seq<char>> {
    v.map_values(|s: String| s@)
}

/// Whether `name` is one of `live`, compared as whole strings.
pub fn contains_name(live: &Vec<String>, name: &String) -> (r: bool)
    ensures
        r == names_of(live@).contains(name@),
{
    let mut j: usize = 0;
    while j < live.len()
        invariant
            j <= live.len(),
            forall|k: int| 0 <= k < j ==> live@[k]@ != name@,
        decreases live.len() - j,
    {
        if live[j] == *name {
            assert(names_of(live@)[j as int] == name@);
            return true;
        }
        j = j + 1;
    }
    assert forall|k: int| 0 <= k < names_of(live@).len() implies names_of(live@)[k] != name@ by {
        assert(names_of(live@)[k] == live@[k]@);
    }
    false
}

/// A queue as seen by the contracts: the indices in the order they were
/// queued, and the container name captured for each when it was queued.
pub type QueueView = (Seq<usize>, Map<usize, Seq<char>>);

/// Each index is queued at most once, and exactly the queued indices carry
/// a captured name.
pub open spec fn queue_wf(q: QueueView) -> bool {
    &&& q.0.no_duplicates()
    &&& forall|k: usize| #[trigger] q.1.contains_key(k) <==> q.0.contains(k)
}

/// The queue after `idx` is queued with container name `name`: a queued
/// index keeps its place and takes the new name.
pub open spec fn spec_queue(q: QueueView, idx: usize, name: Seq<char>) -> QueueView {
    (if q.0.contains(idx) { q.0 } else { q.0.push(idx) }, q.1.insert(idx, name))
}

/// The queue after the entries that `keep` rejects are removed, the others
/// kept in their order.
pub open spec fn spec_retain(q: QueueView, keep: spec_fn(usize) -> bool) -> QueueView {
    let order = q.0.filter(keep);
    (order, Map::new(|k: usize| order.contains(k), |k: usize| q.1[k]))
}

/// Whether a queued index stays after reconciliation against `live`: a
/// start stays while its container is not running, a stop while it still is.
pub open spec fn stays_queued(q: QueueView, live: Seq<Seq<char>>, dir: QueueType) -> spec_fn(usize) -> bool {
    |i: usize| live.contains(q.1[i]) == (dir == QueueType::Stop)
}

/// The queue after reconciliation against the live container names.
pub open spec fn spec_reconcile(q: QueueView, live: Seq<Seq<char>>, dir: QueueType) -> QueueView {
    spec_retain(q, stays_queued(q, live, dir))
}

/// The indices `0..n` in order.
pub open spec fn all_indices(n: nat) -> Seq<usize> {
    Seq::new(n, |i: int| i as usize)
}

/// The services queued in one direction.
pub struct Queued {
    pub state: Vec<usize>,
    pub names: IndexMap<usize, String>,
}

impl View for Queued {
    type V = QueueView;

    open spec fn view(&self) -> QueueView {
        (self.state@, name_entries(self.names))
    }
}

impl Default for Queued {
    fn default() -> (r: Queued)
        ensures
            r@ == (Seq::<usize>::empty(), no_names()),
            r.wf(),
    {
        Queued::new()
    }
}

impl Queued {
    pub open spec fn wf(&self) -> bool {
        queue_wf(self@)
    }

    /// An empty queue.
    pub fn new() -> (r: Queued)
        ensures
            r@ == (Seq::<usize>::empty(), no_names()),
            r.wf(),
    {
        Queued { state: Vec::new(), names: name_map_new() }
    }

    /// Whether `idx` is queued.
    pub fn contains(&self, idx: usize) -> (r: bool)
        ensures
            r == self@.0.contains(idx),
    {
        let mut j: usize = 0;
        while j < self.state.len()
            invariant
                j <= self.state.len(),
                forall|k: int| 0 <= k < j ==> self.state@[k] != idx,
            decreases self.state.len() - j,
        {
            if self.state[j] == idx {
                return true;
            }
            j = j + 1;
        }
        false
    }

    /// Queues `idx` under container name `name`. Queuing an index that is
    /// already queued only refreshes its name.
    pub fn queue(&mut self, idx: usize, name: String)
        requires
            old(self).wf(),
        ensures
            final(self).wf(),
            final(self)@ == spec_queue(old(self)@, idx, name@),
    {
        let present = self.contains(idx);
        name_map_insert(&mut self.names, idx, name);
        if !present {
            self.state.push(idx);
        }
        proof {
            let q = self@;
            let o = old(self)@;
            assert forall|k: usize| #[trigger] q.1.contains_key(k) <==> q.0.contains(k) by {
                assert(q.1.contains_key(k) <==> o.1.contains_key(k) || k == idx);
                if !present {
                    assert(q.0.contains(k) <==> o.0.contains(k) || k == idx) by {
                        if k == idx {
                            assert(q.0[q.0.len() - 1] == idx);
                        }
                        if o.0.contains(k) {
                            let j = choose|j: int| 0 <= j < o.0.len() && o.0[j] == k;
                            assert(q.0[j] == k);
                        }
                        if q.0.contains(k) {
                            let j = choose|j: int| 0 <= j < q.0.len() && q.0[j] == k;
                            if j < o.0.len() {
                                assert(o.0[j] == k);
                            }
                        }
                    }
                }
            }
            assert(q.0.no_duplicates());
        }
    }

    /// Replaces the queue by every index `0..n`, each with its name in
    /// `names`.
    pub fn queue_all(&mut self, names: &IndexMap<usize, String>, n: usize)
        requires
            forall|k: usize| #[trigger] name_entries(*names).contains_key(k) <==> k < n,
        ensures
            final(self).wf(),
            final(self)@ == (all_indices(n as nat), name_entries(*names)),
            forall|i: usize| #[trigger] final(self)@.0.contains(i) <==> i < n,
    {
        let mut state: Vec<usize> = Vec::new();
        let mut i: usize = 0;
        while i < n
            invariant
                i <= n,
                state@ == all_indices(i as nat),
            decreases n - i,
        {
            state.push(i);
            i = i + 1;
            assert(state@ =~= all_indices(i as nat));
        }
        self.state = state;
        self.names = name_map_clone(names);
        proof {
            let s = all_indices(n as nat);
            assert forall|k: usize| #[trigger] s.contains(k) <==> k < n by {
                if k < n {
                    assert(s[k as int] == k);
                }
            }
        }
    }

    /// Empties the queue.
    pub fn clear(&mut self)
        ensures
            final(self).wf(),
            final(self)@ == (Seq::<usize>::empty(), no_names()),
    {
        self.state = Vec::new();
        self.names = name_map_new();
    }

    /// Clears the intent that the live container names show satisfied: a
    /// queued start whose container is running, a queued stop whose
    /// container is not. Names are compared whole.
    pub fn reconcile(&mut self, live: &Vec<String>, dir: QueueType)
        requires
            old(self).wf(),
        ensures
            final(self).wf(),
            final(self)@ == spec_reconcile(old(self)@, names_of(live@), dir),
    {
        let ghost q0 = self@;
        let ghost keep = stays_queued(q0, names_of(live@), dir);
        let keep_running = match dir {
            QueueType::Stop => true,
            QueueType::Start => false,
        };
        let mut kept: Vec<usize> = Vec::new();
        let mut i: usize = 0;
        while i < self.state.len()
            invariant
                queue_wf(q0),
                self.state@ == q0.0,
                i <= q0.0.len(),
                keep == stays_queued(q0, names_of(live@), dir),
                keep_running == (dir == QueueType::Stop),
                kept@ == q0.0.take(i as int).filter(keep),
                kept@.no_duplicates(),
                forall|x: usize| #[trigger] kept@.contains(x) <==> q0.0.take(i as int).contains(x) && keep(x),
                name_entries(self.names) == Map::new(
                    |k: usize| q0.1.contains_key(k) && !(q0.0.take(i as int).contains(k) && !keep(k)),
                    |k: usize| q0.1[k],
                ),
            decreases q0.0.len() - i,
        {
            let idx = self.state[i];
            let ghost before = q0.0.take(i as int);
            let ghost after = q0.0.take(i as int + 1);
            assert(after =~= before.push(idx));
            assert(after.drop_last() =~= before);
            assert(!before.contains(idx)) by {
                if before.contains(idx) {
                    let j = choose|j: int| 0 <= j < before.len() && before[j] == idx;
                    assert(q0.0[j] == q0.0[i as int]);
                }
            }
            assert(q0.0.contains(idx)) by {
                assert(q0.0[i as int] == idx);
            }
            assert(forall|x: usize| #[trigger] after.contains(x) <==> before.contains(x) || x == idx) by {
                assert forall|x: usize| #[trigger] after.contains(x) implies before.contains(x) || x == idx by {
                    let j = choose|j: int| 0 <= j < after.len() && after[j] == x;
                    if j < before.len() {
                        assert(before[j] == x);
                    }
                }
                assert forall|x: usize| before.contains(x) || x == idx implies #[trigger] after.contains(x) by {
                    if x == idx {
                        assert(after[i as int] == idx);
                    } else {
                        let j = choose|j: int| 0 <= j < before.len() && before[j] == x;
                        assert(after[j] == x);
                    }
                }
            }
            let name = name_map_get(&self.names, idx);
            let running = match name {
                Some(n) => contains_name(live, n),
                None => false,
            };
            assert(name.is_some());
            proof {
                reveal(Seq::filter);
            }
            if running == keep_running {
                assert(keep(idx));
                assert(!kept@.contains(idx));
                let ghost k0 = kept@;
                kept.push(idx);
                assert(kept@.drop_last() =~= k0);
                assert(kept@ =~= after.filter(keep));
                assert(forall|x: usize| #[trigger] kept@.contains(x) <==> kept@.drop_last().contains(x) || x == idx) by {
                    assert forall|x: usize| #[trigger] kept@.contains(x) implies kept@.drop_last().contains(x) || x == idx by {
                        let j = choose|j: int| 0 <= j < kept@.len() && kept@[j] == x;
                        if j < kept@.len() - 1 {
                            assert(kept@.drop_last()[j] == x);
                        }
                    }
                    assert forall|x: usize| kept@.drop_last().contains(x) || x == idx implies #[trigger] kept@.contains(x) by {
                        if x == idx {
                            assert(kept@[kept@.len() - 1] == idx);
                        } else {
                            let j = choose|j: int| 0 <= j < kept@.drop_last().len() && kept@.drop_last()[j] == x;
                            assert(kept@[j] == x);
                        }
                    }
                }
            } else {
                assert(!keep(idx));
                name_map_remove(&mut self.names, idx);
                assert(kept@ =~= after.filter(keep));
            }
            assert forall|x: usize| #[trigger] kept@.contains(x) <==> after.contains(x) && keep(x) by {
                assert(after.contains(x) <==> before.contains(x) || x == idx);
            }
            i = i + 1;
            assert(name_entries(self.names) =~= Map::new(
                |k: usize| q0.1.contains_key(k) && !(q0.0.take(i as int).contains(k) && !keep(k)),
                |k: usize| q0.1[k],
            ));
        }
        assert(q0.0.take(i as int) =~= q0.0);
        self.state = kept;
        assert(name_entries(self.names) =~= spec_reconcile(q0, names_of(live@), dir).1);
    }
}

/// A queued start is cleared by a reconciliation that sees its container
/// running.
pub proof fn lemma_started_service_leaves_queue(q: QueueView, idx: usize, name: Seq<char>, live: Seq<Seq<char>>)
    requires
        queue_wf(q),
        live.contains(name),
    ensures
        !spec_reconcile(spec_queue(q, idx, name), live, QueueType::Start).0.contains(idx),
{
    broadcast use vstd::seq_lib::group_filter_ensures;

    let q1 = spec_queue(q, idx, name);
    let keep = stays_queued(q1, live, QueueType::Start);
    let f = q1.0.filter(keep);
    if f.contains(idx) {
        let j = choose|j: int| 0 <= j < f.len() && f[j] == idx;
        assert(keep(f[j]));
    }
}

/// A queued stop is cleared by a reconciliation that sees no container
/// running, and kept by one that still sees its container.
pub proof fn lemma_stopped_service_leaves_queue(q: QueueView, idx: usize, name: Seq<char>)
    requires
        queue_wf(q),
    ensures
        !spec_reconcile(spec_queue(q, idx, name), Seq::empty(), QueueType::Stop).0.contains(idx),
        spec_reconcile(spec_queue(q, idx, name), seq![name], QueueType::Stop).0.contains(idx),
{
    broadcast use vstd::seq_lib::group_filter_ensures;

    let q1 = spec_queue(q, idx, name);
    let none: Seq<Seq<char>> = Seq::empty();
    let keep0 = stays_queued(q1, none, QueueType::Stop);
    let f0 = q1.0.filter(keep0);
    if f0.contains(idx) {
        let j = choose|j: int| 0 <= j < f0.len() && f0[j] == idx;
        assert(keep0(f0[j]));
    }
    let one = seq![name];
    let keep1 = stays_queued(q1, one, QueueType::Stop);
    assert(one[0] == name);
    assert(keep1(idx));
    assert(q1.0.contains(idx)) by {
        if !q.0.contains(idx) {
            assert(q1.0[q1.0.len() - 1] == idx);
        }
    }
    q1.0.lemma_filter_contains_rev(keep1, idx);
}

/// Queuing the same index with the same name twice leaves the queue as
/// queuing it once does.
pub proof fn lemma_queue_idempotent(q: QueueView, idx: usize, name: Seq<char>)
    ensures
        spec_queue(spec_queue(q, idx, name), idx, name) == spec_queue(q, idx, name),
{
    let q1 = spec_queue(q, idx, name);
    assert(q1.0.contains(idx)) by {
        if !q.0.contains(idx) {
            assert(q1.0[q1.0.len() - 1] == idx);
        }
    }
    assert(q1.1.insert(idx, name) =~= q1.1);
}

} // verus!

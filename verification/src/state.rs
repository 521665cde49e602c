//! The bridge's runtime state and its mathematical model.
//!
//! Engine-managed objects (globals, callbacks, promises) are held by the
//! bridge only as non-owning references compared by engine identity; here each
//! is a plain identity value. The host shell keeps the actual engine handles
//! in a side table keyed by the same identities.

use std::collections::VecDeque;
use vstd::prelude::*;

use crate::checkpoint::Phase;
use crate::queue::Task;
use crate::resolvable_promise::InternalPromise;

verus! {

/// Reference to an engine-managed execution context (a "global"), by engine
/// identity.
#[derive(Clone, Copy, PartialEq, Eq, Structural, Debug)]
pub struct ContextRef {
    pub id: u64,
}

/// Reference to an engine-managed deferred callback (a callable object), by
/// engine identity.
#[derive(Clone, Copy, PartialEq, Eq, Structural, Debug)]
pub struct CallbackRef {
    pub id: u64,
}

/// Reference to an engine-managed promise object, by engine identity.
#[derive(Clone, Copy, PartialEq, Eq, Structural, Debug)]
pub struct PromiseRef {
    pub id: u64,
}

/// The bridge's whole state: every structure the engine thread owns.
///
/// These are process-wide singletons with thread affinity — exactly one
/// thread ever touches them — so rather than living as ambient global state
/// they are gathered into one explicitly constructed object that the
/// engine-thread driver owns.
pub struct Runtime {
    /// Incumbent context stack: the top is the context whose code is
    /// logically running right now.
    pub incumbent: Vec<ContextRef>,
    /// FIFO task queue of deferred callbacks, each paired with its owning
    /// context.
    pub tasks: VecDeque<Task>,
    /// Pending async registry: request id to live promise and owning context.
    /// Keys are unique; see [`Runtime::wf`].
    pub pending: Vec<(u64, InternalPromise)>,
    /// Request ids collected by the current poll pass, in discovery order,
    /// not yet settled.
    pub ready: Vec<u64>,
    /// Where the checkpoint driver stands within a pass.
    pub phase: Phase,
    /// Reentrancy flag of the checkpoint driver: set for the whole of a pass.
    pub checkpoint: bool,
    /// The next request id to hand out; ids increase and are never reused.
    pub next_id: u64,
}

/// The abstract value of a [`Runtime`]: sequences and a map in place of the
/// executable containers.
pub struct RuntimeView {
    pub incumbent: Seq<ContextRef>,
    pub tasks: Seq<Task>,
    pub pending: Map<u64, InternalPromise>,
    pub ready: Seq<u64>,
    pub phase: Phase,
    pub checkpoint: bool,
    pub next_id: u64,
}

/// The map held by an association list, later entries shadowing earlier ones.
pub open spec fn pairs_to_map(s: Seq<(u64, InternalPromise)>) -> Map<u64, InternalPromise>
    decreases s.len(),
{
    if s.len() == 0 {
        Map::empty()
    } else {
        pairs_to_map(s.drop_last()).insert(s.last().0, s.last().1)
    }
}

/// No request id occurs twice in the registry's association list.
pub open spec fn unique_keys(s: Seq<(u64, InternalPromise)>) -> bool {
    forall|i: int, j: int| 0 <= i < j < s.len() ==> s[i].0 != s[j].0
}

/// A key is in the map of an association list exactly when some entry
/// carries it.
pub proof fn lemma_pairs_to_map_contains(s: Seq<(u64, InternalPromise)>, k: u64)
    ensures
        pairs_to_map(s).contains_key(k) <==> exists|i: int| 0 <= i < s.len() && s[i].0 == k,
    decreases s.len(),
{
    if s.len() > 0 {
        lemma_pairs_to_map_contains(s.drop_last(), k);
        if s.last().0 == k {
            assert(s[s.len() - 1].0 == k);
        } else {
            assert(forall|i: int| 0 <= i < s.len() - 1 ==> s.drop_last()[i] == s[i]);
            if exists|i: int| 0 <= i < s.len() && s[i].0 == k {
                let i = choose|i: int| 0 <= i < s.len() && s[i].0 == k;
                assert(s.drop_last()[i] == s[i]);
            }
        }
    }
}

/// With unique keys, the entry at index `i` is exactly what the map holds
/// under its key.
pub proof fn lemma_pairs_to_map_index(s: Seq<(u64, InternalPromise)>, i: int)
    requires
        unique_keys(s),
        0 <= i < s.len(),
    ensures
        pairs_to_map(s).contains_key(s[i].0),
        pairs_to_map(s)[s[i].0] == s[i].1,
    decreases s.len(),
{
    if i == s.len() - 1 {
    } else {
        assert(forall|m: int, n: int|
            0 <= m < n < s.drop_last().len() ==> s.drop_last()[m].0 != s.drop_last()[n].0);
        lemma_pairs_to_map_index(s.drop_last(), i);
        assert(s.drop_last()[i] == s[i]);
        assert(s[i].0 != s.last().0);
    }
}

/// Appending an entry whose key is absent inserts it into the map and keeps
/// the keys unique.
pub proof fn lemma_pairs_to_map_push(s: Seq<(u64, InternalPromise)>, k: u64, v: InternalPromise)
    requires
        unique_keys(s),
        forall|i: int| 0 <= i < s.len() ==> s[i].0 != k,
    ensures
        unique_keys(s.push((k, v))),
        pairs_to_map(s.push((k, v))) == pairs_to_map(s).insert(k, v),
{
    assert(s.push((k, v)).drop_last() =~= s);
    assert(s.push((k, v)).last() == (k, v));
    assert(forall|i: int| 0 <= i < s.len() ==> s.push((k, v))[i] == s[i]);
}

/// With unique keys, removing the entry at index `i` removes exactly its key
/// from the map and keeps the remaining keys unique.
pub proof fn lemma_pairs_to_map_remove(s: Seq<(u64, InternalPromise)>, i: int)
    requires
        unique_keys(s),
        0 <= i < s.len(),
    ensures
        unique_keys(s.remove(i)),
        pairs_to_map(s.remove(i)) =~= pairs_to_map(s).remove(s[i].0),
    decreases s.len(),
{
    s.remove_ensures(i);
    assert(unique_keys(s.remove(i)));
    if i == s.len() - 1 {
        assert(s.remove(i) =~= s.drop_last());
        lemma_pairs_to_map_contains(s.drop_last(), s[i].0);
        assert(forall|m: int| 0 <= m < s.len() - 1 ==> s.drop_last()[m] == s[m]);
        assert(!pairs_to_map(s.drop_last()).contains_key(s[i].0));
        assert(pairs_to_map(s.drop_last()).insert(s.last().0, s.last().1).remove(s[i].0)
            =~= pairs_to_map(s.drop_last()));
    } else {
        assert(forall|m: int, n: int|
            0 <= m < n < s.drop_last().len() ==> s.drop_last()[m].0 != s.drop_last()[n].0);
        assert(s.drop_last()[i] == s[i]);
        lemma_pairs_to_map_remove(s.drop_last(), i);
        assert(s.remove(i).drop_last() =~= s.drop_last().remove(i));
        assert(s.remove(i).last() == s.last());
        assert(pairs_to_map(s.remove(i))
            == pairs_to_map(s.drop_last().remove(i)).insert(s.last().0, s.last().1));
        assert(s[i].0 != s.last().0);
        assert(pairs_to_map(s.drop_last()).remove(s[i].0).insert(s.last().0, s.last().1)
            =~= pairs_to_map(s.drop_last()).insert(s.last().0, s.last().1).remove(s[i].0));
    }
}

/// The registry's map is empty exactly when its association list is.
pub proof fn lemma_pairs_to_map_empty(s: Seq<(u64, InternalPromise)>)
    ensures
        s.len() == 0 ==> pairs_to_map(s).dom() =~= Set::empty(),
        s.len() > 0 ==> pairs_to_map(s).contains_key(s.last().0),
{
}

impl View for Runtime {
    type V = RuntimeView;

    open spec fn view(&self) -> RuntimeView {
        RuntimeView {
            incumbent: self.incumbent@,
            tasks: self.tasks@,
            pending: pairs_to_map(self.pending@),
            ready: self.ready@,
            phase: self.phase,
            checkpoint: self.checkpoint,
            next_id: self.next_id,
        }
    }
}

impl RuntimeView {
    /// Nothing is left to do: no queued task and no pending async operation.
    pub open spec fn quiescent(self) -> bool {
        self.tasks.len() == 0 && self.pending.dom() == Set::<u64>::empty()
    }
}

impl Runtime {
    /// Validity of the representation: registry keys are unique, and every
    /// registered request id was handed out by the counter, so none reaches
    /// `next_id`.
    pub open spec fn wf(&self) -> bool {
        &&& unique_keys(self.pending@)
        &&& forall|i: int| 0 <= i < self.pending@.len() ==> #[trigger] self.pending@[i].0
            < self.next_id
    }

    /// A fresh bridge: everything empty, the checkpoint driver idle.
    pub fn new() -> (rt: Runtime)
        ensures
            rt.wf(),
            rt@.incumbent.len() == 0,
            rt@.tasks.len() == 0,
            rt@.pending.dom() =~= Set::empty(),
            rt@.ready.len() == 0,
            rt@.phase == Phase::Idle,
            !rt@.checkpoint,
            rt@.next_id == 0,
    {
        Runtime {
            incumbent: Vec::new(),
            tasks: VecDeque::new(),
            pending: Vec::new(),
            ready: Vec::new(),
            phase: Phase::Idle,
            checkpoint: false,
            next_id: 0,
        }
    }
}

} // verus!

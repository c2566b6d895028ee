//! The pending-call registry: outbound calls parked until their
//! response arrives.

use vstd::prelude::*;

use crate::keyed::U64Map;
use crate::task_describe::TaskDescribe;
use crate::CallId;

verus! {

/// Call id to task descriptor, for every call in flight. A descriptor
/// is parked before its bytes reach the transport, so a response that
/// races the send still finds it.
pub struct PendingCalls {
    pub map: U64Map<TaskDescribe>,
}

impl PendingCalls {
    /// Well-formed: at most one descriptor per call id.
    pub open spec fn wf(&self) -> bool {
        self.map.wf()
    }

    pub fn new() -> (r: PendingCalls)
        ensures
            r.wf(),
            r.map.len() == 0,
            forall|c: CallId| !r.map.spec_has_key(c),
    {
        PendingCalls { map: U64Map::new() }
    }

    /// How many calls are in flight.
    pub fn len(&self) -> (r: usize)
        ensures
            r == self.map.len(),
    {
        self.map.count()
    }

    /// Park `task` under the fresh id `call_id`. While the call is in
    /// flight the registry holds exactly one descriptor keyed by it.
    pub fn register(&mut self, call_id: CallId, task: TaskDescribe)
        requires
            old(self).wf(),
            !old(self).map.spec_has_key(call_id),
        ensures
            final(self).wf(),
            final(self).map.spec_has_key(call_id),
            final(self).map.spec_get(call_id) == task,
            forall|c: CallId|
                c != call_id ==> final(self).map.spec_has_key(c) == old(self).map.spec_has_key(c),
            forall|c: CallId|
                c != call_id && old(self).map.spec_has_key(c) ==> final(self).map.spec_get(c)
                    == old(self).map.spec_get(c),
            final(self).map.len() == old(self).map.len() + 1,
    {
        self.map.insert(call_id, task);
    }

    /// Resolve `call_id`: remove and return its descriptor. On an id
    /// the registry does not know — a response nothing waits for — the
    /// registry is left unchanged and `None` comes back.
    pub fn take(&mut self, call_id: CallId) -> (r: Option<TaskDescribe>)
        requires
            old(self).wf(),
        ensures
            final(self).wf(),
            r is Some <==> old(self).map.spec_has_key(call_id),
            r matches Some(t) ==> t == old(self).map.spec_get(call_id),
            !final(self).map.spec_has_key(call_id),
            forall|c: CallId|
                c != call_id ==> final(self).map.spec_has_key(c) == old(self).map.spec_has_key(c),
            forall|c: CallId|
                c != call_id && old(self).map.spec_has_key(c) ==> final(self).map.spec_get(c)
                    == old(self).map.spec_get(c),
            !old(self).map.spec_has_key(call_id) ==> final(self).map == old(self).map,
            final(self).map.len() == if old(self).map.spec_has_key(call_id) {
                (old(self).map.len() - 1) as nat
            } else {
                old(self).map.len()
            },
    {
        self.map.remove(call_id)
    }

    /// End of the connection: hand out every live descriptor, with its
    /// call id, for fail-out, leaving the registry empty.
    pub fn drain_on_shutdown(&mut self) -> (r: Vec<(CallId, TaskDescribe)>)
        requires
            old(self).wf(),
        ensures
            final(self).wf(),
            r@ == old(self).map.entries@,
            final(self).map.len() == 0,
    {
        let mut drained: Vec<(CallId, TaskDescribe)> = Vec::new();
        core::mem::swap(&mut drained, &mut self.map.entries);
        drained
    }

    /// While a call is in flight, the registry holds exactly one
    /// descriptor keyed by its id: the id is present, and any two
    /// entries carrying it are the same entry.
    pub proof fn lemma_exactly_one_descriptor(&self, call_id: CallId)
        requires
            self.wf(),
            self.map.spec_has_key(call_id),
        ensures
            exists|i: int|
                0 <= i < self.map.entries@.len() && (#[trigger] self.map.entries@[i]).0 == call_id,
            forall|i: int, j: int|
                0 <= i < self.map.entries@.len() && 0 <= j < self.map.entries@.len() && (
                #[trigger] self.map.entries@[i]).0 == call_id && (
                #[trigger] self.map.entries@[j]).0 == call_id ==> i == j,
    {
        self.map.lemma_get_unique(call_id);
    }
}

} // verus!

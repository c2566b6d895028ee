//! The session engine: one `DebugSession` per WebSocket connection.
//!
//! The engine owns the tabs, the call-id source and the pending-call
//! registry. Each inbound item is dispatched through
//! `send_page_message`, which applies it to the owning tab and yields
//! exactly one `PageResponseWrapper`; outbound work is framed and
//! parked through `execute_task`. The driver around the engine polls
//! the wire and a one-second timer in the fair order the engine plans.

use vstd::prelude::*;
use vstd::string::StringSliceAdditionalSpecFns;

use crate::codec::{create_msg_to_send_with_session_id, CallIdGenerator};
use crate::errors::ChromePageError;
use crate::page_message::{PageResponse, PageResponseWrapper};
use crate::pending::PendingCalls;
use crate::protocol_model::Node;
use crate::tab::Tab;
use crate::task_describe::{CommonDescribeFieldsBuilder, TargetCallMethodTask, TaskDescribe};
use crate::{CallId, SessionId, TaskId};

verus! {

/// The browser-context id a tab carries, as a character sequence.
pub open spec fn tab_context_view(t: Tab) -> Option<Seq<char>> {
    match t.target_info.browser_context_id {
        Some(c) => Some(c@),
        None => None,
    }
}

/// `ids` lists browser-context ids of `tabs`: pairwise distinct, each
/// carried by some tab.
pub open spec fn distinct_context_ids(tabs: Seq<Tab>, ids: Seq<String>) -> bool {
    &&& forall|a: int, b: int| 0 <= a < b < ids.len() ==> ids[a]@ != ids[b]@
    &&& forall|a: int|
        #![trigger ids[a]]
        0 <= a < ids.len() ==> exists|i: int|
            0 <= i < tabs.len() && tab_context_view(#[trigger] tabs[i]) == Some(ids[a]@)
}

/// The pull-driven orchestrator of one connection.
pub struct DebugSession {
    pub tabs: Vec<Tab>,
    pub seconds_from_start: u64,
    pub flag: bool,
    pub call_ids: CallIdGenerator,
    /// The source of the fresh unique task ids stamped on tasks whose
    /// caller chose none.
    pub task_ids: CallIdGenerator,
    pub pending: PendingCalls,
}

impl DebugSession {
    /// Well-formed engine: every tab is well-formed, the registry has
    /// unique keys, and every parked call id lies below the counter.
    pub open spec fn wf(&self) -> bool {
        &&& self.pending.wf()
        &&& forall|i: int| 0 <= i < self.tabs@.len() ==> (#[trigger] self.tabs@[i]).wf()
        &&& forall|c: CallId| #[trigger] self.pending.map.spec_has_key(c) ==> c < self.call_ids.next
    }

    /// A fresh engine: no tabs, no pending calls, the clock at zero.
    pub fn new() -> (r: DebugSession)
        ensures
            r.wf(),
            r.tabs@.len() == 0,
            r.seconds_from_start == 0,
            r.flag == false,
            r.call_ids.next == 0,
            r.task_ids.next == 0,
            r.pending.map.len() == 0,
    {
        DebugSession {
            tabs: Vec::new(),
            seconds_from_start: 0,
            flag: false,
            call_ids: CallIdGenerator::new(),
            task_ids: CallIdGenerator::new(),
            pending: PendingCalls::new(),
        }
    }

    /// The position of the tab owning `target_id`, if any.
    pub fn find_tab_index(&self, target_id: Option<&String>) -> (r: Option<usize>)
        ensures
            match r {
                Some(idx) => idx < self.tabs@.len() && match target_id {
                    Some(tid) => self.tabs@[idx as int].target_info.target_id@ == tid@,
                    None => false,
                },
                None => forall|i: int|
                    0 <= i < self.tabs@.len() ==> match target_id {
                        Some(tid) => (#[trigger] self.tabs@[i]).target_info.target_id@ != tid@,
                        None => true,
                    },
            },
    {
        let tid = match target_id {
            Some(t) => t,
            None => {
                return None;
            },
        };
        let n = self.tabs.len();
        let mut i: usize = 0;
        while i < n
            invariant
                n == self.tabs@.len(),
                i <= n,
                target_id == Some(tid),
                forall|j: int|
                    0 <= j < i ==> (#[trigger] self.tabs@[j]).target_info.target_id@ != tid@,
            decreases n - i,
        {
            if crate::str_eq(self.tabs[i].target_info.target_id.as_str(), tid.as_str()) {
                return Some(i);
            }
            i = i + 1;
        }
        None
    }

    /// Borrow the tab owning `target_id`, or fail with `TabNotFound`.
    pub fn get_tab_by_id(&self, target_id: Option<&String>) -> (r: Result<&Tab, ChromePageError>)
        ensures
            r matches Ok(tab) ==> (exists|i: int|
                0 <= i < self.tabs@.len() && *tab == self.tabs@[i]) && (
            target_id matches Some(tid) && tab.target_info.target_id@ == tid@),
            r matches Err(e) ==> e is TabNotFound && forall|i: int|
                0 <= i < self.tabs@.len() ==> match target_id {
                    Some(tid) => (#[trigger] self.tabs@[i]).target_info.target_id@ != tid@,
                    None => true,
                },
    {
        match self.find_tab_index(target_id) {
            Some(i) => Ok(&self.tabs[i]),
            None => Err(ChromePageError::TabNotFound),
        }
    }

    /// The target id of the tab attached under `session_id`, if any:
    /// how an event wrapped for a session is routed to its tab.
    pub fn find_target_by_session(&self, session_id: &str) -> (r: Option<String>)
        ensures
            r matches Some(tid) ==> exists|i: int|
                0 <= i < self.tabs@.len() && ((#[trigger] self.tabs@[i]).session_id matches Some(s)
                    && s.0@ == session_id@) && tid@ == self.tabs@[i].target_info.target_id@,
            r is None ==> forall|i: int|
                0 <= i < self.tabs@.len() ==> match (#[trigger] self.tabs@[i]).session_id {
                    Some(s) => s.0@ != session_id@,
                    None => true,
                },
    {
        let n = self.tabs.len();
        let mut i: usize = 0;
        while i < n
            invariant
                n == self.tabs@.len(),
                i <= n,
                forall|j: int|
                    0 <= j < i ==> match (#[trigger] self.tabs@[j]).session_id {
                        Some(s) => s.0@ != session_id@,
                        None => true,
                    },
            decreases n - i,
        {
            match &self.tabs[i].session_id {
                Some(s) => {
                    if crate::str_eq(s.as_str(), session_id) {
                        return Some(self.tabs[i].target_info.target_id.clone());
                    }
                },
                None => {},
            }
            i = i + 1;
        }
        None
    }

    /// Mutably borrow the tab owning `target_id`, or fail with
    /// `TabNotFound`, leaving the engine as it stands.
    pub fn get_tab_by_id_mut(&mut self, target_id: Option<&String>) -> (r: Result<
        &mut Tab,
        ChromePageError,
    >)
        ensures
            r matches Ok(tab) ==> exists|i: int|
                {
                    &&& 0 <= i < old(self).tabs@.len()
                    &&& *tab == old(self).tabs@[i]
                    &&& final(self).tabs@ == old(self).tabs@.update(i, *final(tab))
                } && (target_id matches Some(tid) && tab.target_info.target_id@ == tid@),
            r is Ok ==> final(self).seconds_from_start == old(self).seconds_from_start && final(self).flag == old(self).flag && final(self).call_ids == old(self).call_ids && final(self).pending == old(self).pending,
            r matches Err(e) ==> e is TabNotFound && *final(self) == *old(self),
    {
        match self.find_tab_index(target_id) {
            Some(i) => Ok(&mut self.tabs[i]),
            None => Err(ChromePageError::TabNotFound),
        }
    }

    /// Borrow the first tab — the main tab, by convention.
    pub fn main_tab(&self) -> (r: Option<&Tab>)
        ensures
            r matches Some(t) ==> self.tabs@.len() > 0 && *t == self.tabs@[0],
            r is None <==> self.tabs@.len() == 0,
    {
        if self.tabs.len() > 0 {
            Some(&self.tabs[0])
        } else {
            None
        }
    }

    /// Mutably borrow the first tab.
    pub fn first_page_mut(&mut self) -> (r: Option<&mut Tab>)
        ensures
            r matches Some(t) ==> old(self).tabs@.len() > 0 && *t == old(self).tabs@[0] && final(self).tabs@ == old(self).tabs@.update(0, *final(t)),
            r is None ==> old(self).tabs@.len() == 0 && *final(self) == *old(self),
            final(self).seconds_from_start == old(self).seconds_from_start,
            final(self).flag == old(self).flag,
            final(self).call_ids == old(self).call_ids,
            final(self).pending == old(self).pending,
    {
        if self.tabs.len() > 0 {
            Some(&mut self.tabs[0])
        } else {
            None
        }
    }

    /// Cache the root node handed back by `DOM.getDocument` on the
    /// owning tab: its `root_node` becomes `root` and everything else
    /// stands. Fails, changing nothing, exactly when no tab owns the
    /// target id.
    pub fn set_root_node(&mut self, target_id: Option<&String>, root: Option<Node>) -> (r: Result<
        (),
        ChromePageError,
    >)
        requires
            old(self).wf(),
        ensures
            final(self).wf(),
            final(self).pending == old(self).pending,
            final(self).call_ids == old(self).call_ids,
            final(self).task_ids == old(self).task_ids,
            final(self).seconds_from_start == old(self).seconds_from_start,
            final(self).flag == old(self).flag,
            final(self).tabs@.len() == old(self).tabs@.len(),
            r is Err <==> no_tab_with_id(old(self).tabs@, opt_str_ref_view(target_id)),
            r matches Err(e) ==> e is TabNotFound && *final(self) == *old(self),
            r is Ok ==> exists|i: int|
                {
                    &&& tabs_updated_at(old(self).tabs@, final(self).tabs@, i)
                    &&& #[trigger] final(self).tabs@[i] == (Tab {
                        root_node: root,
                        ..old(self).tabs@[i]
                    })
                },
    {
        match self.find_tab_index(target_id) {
            Some(i) => {
                let tab = &mut self.tabs[i];
                tab.root_node = root;
                proof {
                    assert(final(self).tabs@[i as int].wf());
                }
                Ok(())
            },
            None => Err(ChromePageError::TabNotFound),
        }
    }

    /// Store a node handed back by `DOM.describeNode` in the owning
    /// tab's cache, under its parent (0 when it reports none). Fails,
    /// changing nothing, exactly when no tab owns the target id.
    pub fn store_returned_node(
        &mut self,
        target_id: Option<&String>,
        node: Option<Node>,
    ) -> (r: Result<(), ChromePageError>)
        requires
            old(self).wf(),
        ensures
            final(self).wf(),
            final(self).pending == old(self).pending,
            final(self).call_ids == old(self).call_ids,
            final(self).task_ids == old(self).task_ids,
            final(self).seconds_from_start == old(self).seconds_from_start,
            final(self).flag == old(self).flag,
            final(self).tabs@.len() == old(self).tabs@.len(),
            r is Err <==> no_tab_with_id(old(self).tabs@, opt_str_ref_view(target_id)),
            r matches Err(e) ==> e is TabNotFound && *final(self) == *old(self),
            r is Ok ==> exists|i: int|
                {
                    &&& tabs_updated_at(old(self).tabs@, final(self).tabs@, i)
                    &&& crate::tab::node_returned_effect(
                        &old(self).tabs@[i],
                        &(#[trigger] final(self).tabs@[i]),
                        node,
                    )
                },
    {
        let ghost node_in = node;
        match self.find_tab_index(target_id) {
            Some(i) => {
                let tab = &mut self.tabs[i];
                tab.node_returned(node);
                proof {
                    assert(tabs_updated_at(old(self).tabs@, self.tabs@, i as int));
                    assert(crate::tab::node_returned_effect(
                        &old(self).tabs@[i as int],
                        &self.tabs@[i as int],
                        node_in,
                    ));
                }
                Ok(())
            },
            None => Err(ChromePageError::TabNotFound),
        }
    }

    /// The distinct browser-context ids across all tabs, each once.
    pub fn get_browser_context_ids(&self) -> (r: Vec<String>)
        ensures
            distinct_context_ids(self.tabs@, r@),
            forall|i: int|
                0 <= i < self.tabs@.len() ==> match tab_context_view(#[trigger] self.tabs@[i]) {
                    Some(c) => exists|a: int| 0 <= a < r@.len() && (#[trigger] r@[a])@ == c,
                    None => true,
                },
    {
        let mut out: Vec<String> = Vec::new();
        let n = self.tabs.len();
        let mut i: usize = 0;
        while i < n
            invariant
                n == self.tabs@.len(),
                i <= n,
                distinct_context_ids(self.tabs@, out@),
                forall|i2: int|
                    0 <= i2 < i ==> match tab_context_view(#[trigger] self.tabs@[i2]) {
                        Some(c) => exists|a: int| 0 <= a < out@.len() && (#[trigger] out@[a])@ == c,
                        None => true,
                    },
            decreases n - i,
        {
            match &self.tabs[i].target_info.browser_context_id {
                Some(cid) => {
                    let mut seen = false;
                    let m = out.len();
                    let mut k: usize = 0;
                    while k < m
                        invariant
                            m == out@.len(),
                            k <= m,
                            seen == exists|a: int| 0 <= a < k && out@[a]@ == cid@,
                        decreases m - k,
                    {
                        if crate::str_eq(out[k].as_str(), cid.as_str()) {
                            seen = true;
                        }
                        k = k + 1;
                    }
                    proof {
                        if seen {
                            assert(exists|a: int|
                                0 <= a < out@.len() && (#[trigger] out@[a])@ == cid@);
                        }
                    }
                    if !seen {
                        let ghost old_out = out@;
                        let item = cid.clone();
                        out.push(item);
                        proof {
                            let a2 = out@.len() - 1;
                            assert(out@[a2]@ == cid@);
                            assert(0 <= i < self.tabs@.len());
                            assert(tab_context_view(self.tabs@[i as int]) == Some(out@[a2]@));
                            assert forall|a: int, b: int|
                                0 <= a < b < out@.len() implies out@[a]@ != out@[b]@ by {
                                if b < a2 {
                                    assert(out@[a] == old_out[a]);
                                    assert(out@[b] == old_out[b]);
                                } else {
                                    assert(b == a2);
                                    assert(out@[a] == old_out[a]);
                                    assert(!(exists|a3: int|
                                        0 <= a3 < old_out.len() && old_out[a3]@ == cid@));
                                }
                            }
                            assert forall|a: int|
                                #![trigger out@[a]]
                                0 <= a < out@.len() implies exists|j: int|
                                0 <= j < self.tabs@.len() && tab_context_view(
                                    #[trigger] self.tabs@[j],
                                ) == Some(out@[a]@) by {
                                if a < a2 {
                                    assert(out@[a] == old_out[a]);
                                } else {
                                    assert(tab_context_view(self.tabs@[i as int]) == Some(
                                        out@[a]@,
                                    ));
                                }
                            }
                            assert(distinct_context_ids(self.tabs@, out@));
                            assert forall|i2: int|
                                0 <= i2 < i + 1 implies match tab_context_view(
                                #[trigger] self.tabs@[i2],
                            ) {
                                Some(c) => exists|a: int|
                                    0 <= a < out@.len() && (#[trigger] out@[a])@ == c,
                                None => true,
                            } by {
                                match tab_context_view(self.tabs@[i2]) {
                                    Some(c) => {
                                        if i2 < i {
                                            let a = choose|a: int|
                                                0 <= a < old_out.len() && (
                                                #[trigger] old_out[a])@ == c;
                                            assert(out@[a] == old_out[a]);
                                            assert((out@[a])@ == c);
                                        } else {
                                            assert((out@[a2])@ == c);
                                        }
                                    },
                                    None => {},
                                }
                            }
                        }
                    }
                },
                None => {},
            }
            i = i + 1;
        }
        out
    }

    /// Frame one method-call task, park it in the registry under its
    /// fresh inner call id, and hand back the bytes for the transport.
    /// Before it is parked, the descriptor is stamped with that call
    /// id, and — when the caller chose no task id — with a fresh
    /// unique task id minted here, so its completion is correlatable.
    /// The descriptor is parked before the bytes leave, so a racing
    /// response finds it. Fails, sending nothing, on a task kind that
    /// has no wire form or a selector query without its node id.
    pub fn execute_one_task(&mut self, task: TaskDescribe) -> (r: Result<
        (Vec<u8>, CallId),
        ChromePageError,
    >)
        requires
            old(self).wf(),
            old(self).call_ids.next < CallId::MAX - 1,
            old(self).task_ids.next < TaskId::MAX,
        ensures
            final(self).wf(),
            final(self).tabs == old(self).tabs,
            final(self).seconds_from_start == old(self).seconds_from_start,
            final(self).flag == old(self).flag,
            r matches Ok((_, call_id)) ==> {
                &&& call_id == old(self).call_ids.next
                &&& final(self).pending.map.spec_has_key(call_id)
                &&& final(self).pending.map.len() == old(self).pending.map.len() + 1
                &&& forall|c: CallId|
                    c != call_id ==> final(self).pending.map.spec_has_key(c) == old(self).pending.map.spec_has_key(c)
                &&& forall|c: CallId|
                    c != call_id && old(self).pending.map.spec_has_key(c) ==> final(self).pending.map.spec_get(c) == old(self).pending.map.spec_get(c)
                &&& old(self).call_ids.next < final(self).call_ids.next <= old(self).call_ids.next
                    + 2
            },
            task matches TaskDescribe::TargetCallMethod(t) ==> r matches Ok((frame, call_id))
                ==> {
                let assigned = if t.spec_common_fields().task_id is Some {
                    t.spec_common_fields().task_id
                } else {
                    Some(old(self).task_ids.next)
                };
                &&& final(self).pending.map.spec_get(call_id) == TaskDescribe::TargetCallMethod(
                    t.spec_with_ids(call_id, assigned),
                )
                &&& (t.spec_common_fields().task_id is None ==> final(self).task_ids.next == old(self).task_ids.next + 1)
                &&& (t.spec_common_fields().task_id is Some ==> final(self).task_ids == old(self).task_ids)
                &&& frame@ == spec_task_frame(&t, call_id as int)
                &&& final(self).call_ids.next == old(self).call_ids.next + spec_ids_spent(&t)
            },
            r is Err ==> final(self).pending == old(self).pending && final(self).call_ids == old(self).call_ids && final(self).task_ids == old(self).task_ids,
            r matches Err(e) ==> e is TaskDescribeConvert,
            final(self).task_ids.next <= old(self).task_ids.next + 1,
            r is Ok <==> spec_renderable(task),
    {
        let mut method_task = match task {
            TaskDescribe::TargetCallMethod(t) => t,
            other => {
                return Err(ChromePageError::TaskDescribeConvert);
            },
        };
        let params = match method_task.render_params() {
            Ok(p) => p,
            Err(_) => {
                return Err(ChromePageError::TaskDescribeConvert);
            },
        };
        let method = method_task.method_name();
        let session_id: Option<SessionId> = match &method_task.common_fields().session_id {
            Some(s) => Some(s.clone()),
            None => None,
        };
        let (frame, call_id) = create_msg_to_send_with_session_id(
            &mut self.call_ids,
            method,
            params.as_slice(),
            &session_id,
        );
        let assigned: Option<crate::TaskId> = match method_task.common_fields().task_id {
            Some(t) => Some(t),
            None => Some(self.task_ids.fresh()),
        };
        method_task.stamp_ids(call_id, assigned);
        self.pending.register(call_id, TaskDescribe::TargetCallMethod(method_task));
        Ok((frame, call_id))
    }

    /// Frame and park a batch of tasks, in order: the result holds,
    /// frame for frame, the wire form of exactly the renderable tasks
    /// of the batch, each parked in the registry under the fresh inner
    /// call id its position determines; what has no wire form is
    /// skipped.
    #[verifier::rlimit(80)]
    pub fn execute_task(&mut self, tasks: Vec<TaskDescribe>) -> (r: Vec<Vec<u8>>)
        requires
            old(self).wf(),
            old(self).call_ids.next + 2 * tasks@.len() <= CallId::MAX,
            old(self).task_ids.next + tasks@.len() <= TaskId::MAX,
        ensures
            final(self).wf(),
            final(self).tabs == old(self).tabs,
            final(self).seconds_from_start == old(self).seconds_from_start,
            final(self).flag == old(self).flag,
            r.deep_view() == spec_batch_frames(tasks@, old(self).call_ids.next as int),
            final(self).call_ids.next == old(self).call_ids.next + spec_batch_ids_total(tasks@),
            final(self).pending.map.len() == old(self).pending.map.len() + r@.len(),
            forall|j: int|
                0 <= j < spec_batch_call_ids(tasks@, old(self).call_ids.next as int).len()
                    ==> final(self).pending.map.spec_has_key(
                    #[trigger] spec_batch_call_ids(tasks@, old(self).call_ids.next as int)[j],
                ),
            forall|c: CallId|
                old(self).pending.map.spec_has_key(c) ==> final(self).pending.map.spec_has_key(c),
            old(self).task_ids.next <= final(self).task_ids.next <= old(self).task_ids.next
                + tasks@.len(),
    {
        proof {
            lemma_batch_ids_bound(tasks@);
        }
        let mut frames: Vec<Vec<u8>> = Vec::new();
        let mut rest = tasks;
        let total = rest.len();
        let mut done: usize = 0;
        let ghost mut done_ids: Seq<CallId> = Seq::empty();
        while done < total
            invariant
                self.wf(),
                total == done + rest@.len(),
                self.tabs == old(self).tabs,
                self.seconds_from_start == old(self).seconds_from_start,
                self.flag == old(self).flag,
                old(self).task_ids.next <= self.task_ids.next <= old(self).task_ids.next + done,
                self.call_ids.next + 2 * rest@.len() <= CallId::MAX,
                self.task_ids.next + rest@.len() <= TaskId::MAX,
                old(self).call_ids.next as int + spec_batch_ids_total(tasks@)
                    == self.call_ids.next as int + spec_batch_ids_total(rest@),
                frames.deep_view() + spec_batch_frames(rest@, self.call_ids.next as int)
                    == spec_batch_frames(tasks@, old(self).call_ids.next as int),
                done_ids + spec_batch_call_ids(rest@, self.call_ids.next as int)
                    == spec_batch_call_ids(tasks@, old(self).call_ids.next as int),
                done_ids.len() == frames@.len(),
                forall|j: int|
                    0 <= j < done_ids.len() ==> self.pending.map.spec_has_key(
                        #[trigger] done_ids[j],
                    ),
                self.pending.map.len() == old(self).pending.map.len() + frames@.len(),
                forall|c: CallId|
                    old(self).pending.map.spec_has_key(c) ==> self.pending.map.spec_has_key(c),
            decreases total - done,
        {
            let ghost rest_pre = rest@;
            let ghost call_pre = self.call_ids.next as int;
            let ghost frames_pre = frames.deep_view();
            let ghost pending_pre = self.pending;
            proof {
                assert forall|j: int|
                    0 <= j < done_ids.len() implies pending_pre.map.spec_has_key(
                    #[trigger] done_ids[j],
                ) by {
                    assert(self.pending.map.spec_has_key(done_ids[j]));
                }
            }
            let task = rest.remove(0);
            proof {
                assert(rest@ =~= rest_pre.drop_first());
                lemma_batch_ids_bound(rest@);
                lemma_batch_ids_bound(rest_pre);
            }
            match self.execute_one_task(task) {
                Ok((frame, call_id)) => {
                    frames.push(frame);
                    proof {
                        let old_done_ids = done_ids;
                        done_ids = done_ids.push(call_pre as CallId);
                        assert(call_id as int == call_pre);
                        assert forall|j: int|
                            0 <= j < done_ids.len() implies self.pending.map.spec_has_key(
                            #[trigger] done_ids[j],
                        ) by {
                            if j < old_done_ids.len() {
                                assert(done_ids[j] == old_done_ids[j]);
                                assert(pending_pre.map.spec_has_key(old_done_ids[j]));
                                if old_done_ids[j] != call_id {
                                    assert(self.pending.map.spec_has_key(old_done_ids[j]));
                                }
                            } else {
                                assert(done_ids[j] == call_pre as CallId);
                                assert(self.pending.map.spec_has_key(call_id));
                            }
                        }
                        if let TaskDescribe::TargetCallMethod(t) = rest_pre[0] {
                            assert(spec_batch_frames(rest_pre, call_pre) == seq![
                                spec_task_frame(&t, call_pre),
                            ] + spec_batch_frames(rest@, call_pre + spec_ids_spent(&t)));
                            assert(spec_batch_call_ids(rest_pre, call_pre) == seq![
                                call_pre as CallId,
                            ] + spec_batch_call_ids(rest@, call_pre + spec_ids_spent(&t)));
                            assert(spec_batch_ids_total(rest_pre) == spec_ids_spent(&t)
                                + spec_batch_ids_total(rest@));
                            assert(frames.deep_view() =~~= frames_pre.push(frame@));
                            assert(frames_pre.push(frame@) + spec_batch_frames(
                                rest@,
                                self.call_ids.next as int,
                            ) =~= frames_pre + (seq![spec_task_frame(&t, call_pre)]
                                + spec_batch_frames(rest@, self.call_ids.next as int)));
                            assert(done_ids.drop_last().push(call_pre as CallId)
                                + spec_batch_call_ids(rest@, self.call_ids.next as int)
                                =~= done_ids.drop_last() + (seq![call_pre as CallId]
                                + spec_batch_call_ids(rest@, self.call_ids.next as int)));
                        }
                    }
                },
                Err(_) => {
                    proof {
                        assert(!spec_renderable(rest_pre[0]));
                        assert(spec_batch_frames(rest_pre, call_pre) == spec_batch_frames(
                            rest@,
                            call_pre,
                        ));
                        assert(spec_batch_call_ids(rest_pre, call_pre) == spec_batch_call_ids(
                            rest@,
                            call_pre,
                        ));
                        assert(spec_batch_ids_total(rest_pre) == spec_batch_ids_total(rest@));
                    }
                },
            }
            done = done + 1;
        }
        proof {
            assert(rest@.len() == 0);
            assert(spec_batch_frames(rest@, self.call_ids.next as int) =~= Seq::<Seq<u8>>::empty());
            assert(frames.deep_view() + Seq::<Seq<u8>>::empty() =~= frames.deep_view());
            assert(done_ids + Seq::<CallId>::empty() =~= done_ids);
            assert(spec_batch_call_ids(rest@, self.call_ids.next as int)
                =~= Seq::<CallId>::empty());
        }
        frames
    }

    /// Issue `Runtime.enable` towards the browser endpoint.
    pub fn runtime_enable(&mut self) -> (r: Result<(Vec<u8>, CallId), ChromePageError>)
        requires
            old(self).wf(),
            old(self).call_ids.next < CallId::MAX - 1,
            old(self).task_ids.next < TaskId::MAX,
        ensures
            final(self).wf(),
            r is Ok,
            old(self).call_ids.next < final(self).call_ids.next <= old(self).call_ids.next + 2,
            old(self).task_ids.next <= final(self).task_ids.next <= old(self).task_ids.next + 1,
            r matches Ok((frame, call_id)) ==> call_id == old(self).call_ids.next && final(self).pending.map.spec_has_key(call_id) && frame@ == crate::codec::spec_render_call(
                call_id as nat,
                vstd::utf8::encode_utf8("Runtime.enable"@),
                seq![123u8, 125u8],
            ),
    {
        let cf = CommonDescribeFieldsBuilder::new().build();
        let task = TaskDescribe::TargetCallMethod(
            TargetCallMethodTask::RuntimeEnable(
                crate::task_describe::RuntimeEnableTask { common_fields: cf },
            ),
        );
        self.execute_one_task(task)
    }

    /// Issue `Target.setDiscoverTargets`: the first call the engine
    /// makes once the connection stands.
    pub fn set_discover_targets(&mut self, enable: bool) -> (r: Result<
        (Vec<u8>, CallId),
        ChromePageError,
    >)
        requires
            old(self).wf(),
            old(self).call_ids.next < CallId::MAX - 1,
            old(self).task_ids.next < TaskId::MAX,
        ensures
            final(self).wf(),
            r is Ok,
            old(self).call_ids.next < final(self).call_ids.next <= old(self).call_ids.next + 2,
            old(self).task_ids.next <= final(self).task_ids.next <= old(self).task_ids.next + 1,
            r matches Ok((frame, call_id)) ==> call_id == old(self).call_ids.next && final(self).pending.map.spec_has_key(call_id) && frame@ == crate::codec::spec_render_call(
                call_id as nat,
                vstd::utf8::encode_utf8("Target.setDiscoverTargets"@),
                seq![123u8] + crate::serialize::spec_key("discover".spec_bytes())
                    + crate::codec::spec_bool_val_bytes(enable) + seq![125u8],
            ),
    {
        let cf = CommonDescribeFieldsBuilder::new().build();
        let task = TaskDescribe::TargetCallMethod(
            TargetCallMethodTask::TargetSetDiscoverTargets(enable, cf),
        );
        self.execute_one_task(task)
    }

    /// Issue `Target.createTarget` for a new page at `url`.
    pub fn create_new_tab(&mut self, url: &str) -> (r: Result<(Vec<u8>, CallId), ChromePageError>)
        requires
            old(self).wf(),
            old(self).call_ids.next < CallId::MAX - 1,
            old(self).task_ids.next < TaskId::MAX,
        ensures
            final(self).wf(),
            r is Ok,
            old(self).call_ids.next < final(self).call_ids.next <= old(self).call_ids.next + 2,
            old(self).task_ids.next <= final(self).task_ids.next <= old(self).task_ids.next + 1,
            r matches Ok((frame, call_id)) ==> call_id == old(self).call_ids.next && final(self).pending.map.spec_has_key(call_id) && frame@ == crate::codec::spec_render_call(
                call_id as nat,
                vstd::utf8::encode_utf8("Target.createTarget"@),
                seq![123u8] + crate::serialize::spec_key("url".spec_bytes())
                    + crate::serialize::spec_json_string(vstd::utf8::encode_utf8(url@)) + seq![
                    125u8,
                ],
            ),
    {
        let cf = CommonDescribeFieldsBuilder::new().build();
        let task = TaskDescribe::TargetCallMethod(
            TargetCallMethodTask::CreateTarget(
                crate::task_describe::CreateTargetTask {
                    common_fields: cf,
                    url: url.to_owned(),
                },
            ),
        );
        self.execute_one_task(task)
    }

    /// Boot the engine once the connection stands: the first stream
    /// item, `ChromeConnected`, together with the framed
    /// `Target.setDiscoverTargets(true)` call that goes straight out.
    pub fn boot(&mut self) -> (r: (PageResponseWrapper, Vec<u8>, CallId))
        requires
            old(self).wf(),
            old(self).call_ids.next < CallId::MAX - 1,
            old(self).task_ids.next < TaskId::MAX,
        ensures
            final(self).wf(),
            r.0.page_response is ChromeConnected,
            r.0.target_id is None,
            r.0.task_id is None,
            r.2 == old(self).call_ids.next,
            old(self).call_ids.next < final(self).call_ids.next <= old(self).call_ids.next + 2,
            old(self).task_ids.next <= final(self).task_ids.next <= old(self).task_ids.next + 1,
            final(self).pending.map.spec_has_key(r.2),
            r.1@ == crate::codec::spec_render_call(
                r.2 as nat,
                vstd::utf8::encode_utf8("Target.setDiscoverTargets"@),
                seq![123u8] + crate::serialize::spec_key("discover".spec_bytes())
                    + crate::codec::spec_bool_val_bytes(true) + seq![125u8],
            ),
    {
        let wrapper = PageResponseWrapper {
            target_id: None,
            task_id: None,
            page_response: PageResponse::ChromeConnected,
        };
        match self.set_discover_targets(true) {
            Ok((frame, call_id)) => (wrapper, frame, call_id),
            Err(_) => {
                proof {
                    assert(false);
                }
                (wrapper, Vec::new(), 0)
            },
        }
    }

    /// Frame the explicit attach request that turns a discovered page
    /// into a driven one. It goes straight to the browser endpoint,
    /// outside the pending-call registry: the session id comes back as
    /// a `Target.attachedToTarget` event, not as a response.
    pub fn submit_attach(&mut self, task: crate::task_describe::AttachToTargetTask) -> (r: (
        Vec<u8>,
        CallId,
    ))
        requires
            old(self).wf(),
            old(self).call_ids.next < CallId::MAX - 1,
        ensures
            final(self).wf(),
            final(self).tabs == old(self).tabs,
            final(self).pending == old(self).pending,
            final(self).task_ids == old(self).task_ids,
            final(self).seconds_from_start == old(self).seconds_from_start,
            final(self).flag == old(self).flag,
            r.1 == old(self).call_ids.next,
            final(self).call_ids.next == old(self).call_ids.next + 1,
            r.0@ == crate::codec::spec_render_call(
                r.1 as nat,
                vstd::utf8::encode_utf8("Target.attachToTarget"@),
                crate::serialize::spec_attach_params(vstd::utf8::encode_utf8(task.target_id@)),
            ),
    {
        let params = crate::serialize::render_attach_params(&task);
        let destination = crate::MethodDestination::Browser;
        let (frame, call_id) = crate::codec::create_msg_to_send(
            &mut self.call_ids,
            "Target.attachToTarget",
            params.as_slice(),
            &destination,
        );
        (frame, call_id)
    }

    /// Resolve an inbound response: take the descriptor parked under
    /// its call id. A response whose id nothing waits for returns
    /// `None` and changes nothing — it is ignored.
    pub fn resolve_response(&mut self, call_id: CallId) -> (r: Option<TaskDescribe>)
        requires
            old(self).wf(),
        ensures
            final(self).wf(),
            r is Some <==> old(self).pending.map.spec_has_key(call_id),
            r matches Some(t) ==> t == old(self).pending.map.spec_get(call_id),
            !final(self).pending.map.spec_has_key(call_id),
            !old(self).pending.map.spec_has_key(call_id) ==> *final(self) == *old(self),
            final(self).tabs == old(self).tabs,
            final(self).call_ids == old(self).call_ids,
            final(self).task_ids == old(self).task_ids,
            final(self).seconds_from_start == old(self).seconds_from_start,
            final(self).flag == old(self).flag,
    {
        self.pending.take(call_id)
    }

    /// Plan one poll round: report which source to poll first (`true`
    /// for the wire) and flip the priority for the next round. This is
    /// the whole effect of an idle poll.
    pub fn poll_order(&mut self) -> (r: bool)
        ensures
            r == old(self).flag,
            final(self).flag == !old(self).flag,
            final(self).tabs == old(self).tabs,
            final(self).seconds_from_start == old(self).seconds_from_start,
            final(self).call_ids == old(self).call_ids,
            final(self).task_ids == old(self).task_ids,
            final(self).pending == old(self).pending,
    {
        let first = self.flag;
        self.flag = !self.flag;
        first
    }

    /// Settle fairness after a round in which only the second source
    /// yielded: when the first source was merely not ready, it goes
    /// first again next round.
    pub fn poll_settle(&mut self, first_source_done: bool, second_yielded: bool)
        ensures
            final(self).flag == if second_yielded && !first_source_done {
                !old(self).flag
            } else {
                old(self).flag
            },
            final(self).tabs == old(self).tabs,
            final(self).seconds_from_start == old(self).seconds_from_start,
            final(self).call_ids == old(self).call_ids,
            final(self).task_ids == old(self).task_ids,
            final(self).pending == old(self).pending,
    {
        if second_yielded && !first_source_done {
            self.flag = !self.flag;
        }
    }
}


/// `post` is `pre` with only the tab at `i` changed.
pub open spec fn tabs_updated_at(pre: Seq<Tab>, post: Seq<Tab>, i: int) -> bool {
    &&& 0 <= i < pre.len()
    &&& post == pre.update(i, post[i])
}

/// No tab in `tabs` owns the target id `tid`.
pub open spec fn no_tab_with_id(tabs: Seq<Tab>, tid: Option<Seq<char>>) -> bool {
    forall|i: int|
        0 <= i < tabs.len() ==> match tid {
            Some(t) => (#[trigger] tabs[i]).target_info.target_id@ != t,
            None => true,
        }
}

/// Whether a task descriptor has a wire form: a method call whose
/// params render.
pub open spec fn spec_renderable(task: TaskDescribe) -> bool {
    match task {
        TaskDescribe::TargetCallMethod(t) => t.spec_params() is Some,
        _ => false,
    }
}

/// How many call ids framing one method task spends: two when a
/// session wraps it, else one.
pub open spec fn spec_ids_spent(t: &TargetCallMethodTask) -> int {
    if t.spec_common_fields().session_id is Some {
        2
    } else {
        1
    }
}

/// The frame a method task goes out as when its inner call id is
/// `call_id`: the call itself towards the browser, or that call
/// wrapped for the task's session under the next id.
pub open spec fn spec_task_frame(t: &TargetCallMethodTask, call_id: int) -> Seq<u8> {
    match t.spec_common_fields().session_id {
        None => crate::codec::spec_render_call(
            call_id as nat,
            vstd::utf8::encode_utf8(t.spec_method_name()),
            t.spec_params()->Some_0,
        ),
        Some(session) => crate::codec::spec_render_call(
            (call_id + 1) as nat,
            crate::codec::spec_send_message_to_target(),
            crate::codec::spec_session_params(
                vstd::utf8::encode_utf8(session.0@),
                crate::codec::spec_render_call(
                    call_id as nat,
                    vstd::utf8::encode_utf8(t.spec_method_name()),
                    t.spec_params()->Some_0,
                ),
            ),
        ),
    }
}

/// The frames a batch of tasks goes out as, in order, when the first
/// call id to be allocated is `call_next`: one frame per renderable
/// task, each under the ids its predecessors left.
pub open spec fn spec_batch_frames(tasks: Seq<TaskDescribe>, call_next: int) -> Seq<Seq<u8>>
    decreases tasks.len(),
{
    if tasks.len() == 0 {
        Seq::empty()
    } else {
        match tasks[0] {
            TaskDescribe::TargetCallMethod(t) => if t.spec_params() is Some {
                seq![spec_task_frame(&t, call_next)] + spec_batch_frames(
                    tasks.drop_first(),
                    call_next + spec_ids_spent(&t),
                )
            } else {
                spec_batch_frames(tasks.drop_first(), call_next)
            },
            _ => spec_batch_frames(tasks.drop_first(), call_next),
        }
    }
}

/// The inner call ids the renderable tasks of a batch are parked
/// under, in order.
pub open spec fn spec_batch_call_ids(tasks: Seq<TaskDescribe>, call_next: int) -> Seq<CallId>
    decreases tasks.len(),
{
    if tasks.len() == 0 {
        Seq::empty()
    } else {
        match tasks[0] {
            TaskDescribe::TargetCallMethod(t) => if t.spec_params() is Some {
                seq![call_next as CallId] + spec_batch_call_ids(
                    tasks.drop_first(),
                    call_next + spec_ids_spent(&t),
                )
            } else {
                spec_batch_call_ids(tasks.drop_first(), call_next)
            },
            _ => spec_batch_call_ids(tasks.drop_first(), call_next),
        }
    }
}

/// How many call ids framing a whole batch spends.
pub open spec fn spec_batch_ids_total(tasks: Seq<TaskDescribe>) -> int
    decreases tasks.len(),
{
    if tasks.len() == 0 {
        0
    } else {
        (match tasks[0] {
            TaskDescribe::TargetCallMethod(t) => if t.spec_params() is Some {
                spec_ids_spent(&t)
            } else {
                0
            },
            _ => 0,
        }) + spec_batch_ids_total(tasks.drop_first())
    }
}

/// Framing a batch spends between zero and two ids per task.
pub proof fn lemma_batch_ids_bound(tasks: Seq<TaskDescribe>)
    ensures
        0 <= spec_batch_ids_total(tasks) <= 2 * tasks.len(),
    decreases tasks.len(),
{
    if tasks.len() > 0 {
        lemma_batch_ids_bound(tasks.drop_first());
    }
}

/// The view of an optional borrowed string.
pub open spec fn opt_str_ref_view(v: Option<&String>) -> Option<Seq<char>> {
    match v {
        Some(t) => Some(t@),
        None => None,
    }
}

/// The view of an optional string.
pub open spec fn opt_str_view(v: Option<String>) -> Option<Seq<char>> {
    match v {
        Some(t) => Some(t@),
        None => None,
    }
}

impl DebugSession {
    /// Dispatch one inbound item and yield exactly one response.
    ///
    /// An `Interval` counts a second, drains every tab's deferred
    /// queue and frames what came out (the second component of the
    /// result carries the frames for the transport). An event is
    /// applied to the tab its correlation fields name; an event whose
    /// target id names no tab yields a `Fail` response and changes
    /// nothing — a race with `targetDestroyed`, not a fatal failure. A
    /// finished method call is handed on with its caller's task id.
    pub fn send_page_message(&mut self, item: TaskDescribe) -> (r: (
        PageResponseWrapper,
        Vec<Vec<u8>>,
    ))
        requires
            old(self).wf(),
            old(self).call_ids.next < CallId::MAX / 2,
            old(self).task_ids.next < TaskId::MAX / 2,
        ensures
            final(self).wf(),
            !(item is Interval) ==> final(self).pending == old(self).pending && final(self).call_ids == old(self).call_ids && final(self).task_ids == old(self).task_ids && final(self).seconds_from_start == old(self).seconds_from_start && final(self).flag == old(self).flag && r.1@.len() == 0,
            item is Interval ==> crate::bumped(
                old(self).seconds_from_start,
                final(self).seconds_from_start,
            ) && (r.0.page_response matches PageResponse::SecondsElapsed(n) && n == final(self).seconds_from_start) && r.0.target_id is None && r.0.task_id is None && (forall|i: int|
                0 <= i < final(self).tabs@.len() ==> (#[trigger] final(self).tabs@[i]).task_queue.len() == 0) && final(self).pending.map.len() == old(self).pending.map.len()
                + r.1@.len() && (forall|c: CallId|
                old(self).pending.map.spec_has_key(c) ==> final(self).pending.map.spec_has_key(
                    c,
                )),
            item is ChromeConnected ==> r.0.page_response is ChromeConnected && *final(self)
                == *old(self),
            item is Fail ==> r.0.page_response is Fail && *final(self) == *old(self),
            item matches TaskDescribe::PageCreated(ti, name) ==> (ti.target_type is Page ==> {
                &&& final(self).tabs@.len() == old(self).tabs@.len() + 1
                &&& final(self).tabs@.last().target_info == ti
                &&& final(self).tabs@.last().session_id is None
                &&& final(self).tabs@.last().page_name == name
                &&& (r.0.page_response matches PageResponse::PageCreated(idx) && idx == old(self).tabs@.len())
                &&& (r.0.target_id matches Some(t) && t@ == ti.target_id@)
            }) && (!(ti.target_type is Page) ==> final(self).tabs == old(self).tabs
                && r.0.page_response is Fail),
            item matches TaskDescribe::PageAttached(ti, sid) ==> (no_tab_with_id(
                old(self).tabs@,
                Some(ti.target_id@),
            ) ==> r.0.page_response is Fail && final(self).tabs == old(self).tabs) && (!no_tab_with_id(
                old(self).tabs@,
                Some(ti.target_id@),
            ) ==> exists|i: int|
                {
                    &&& tabs_updated_at(old(self).tabs@, final(self).tabs@, i)
                    &&& (#[trigger] final(self).tabs@[i]).session_id == Some(sid)
                    &&& old(self).tabs@[i].target_info.target_id@ == ti.target_id@
                    &&& crate::bumped(
                        old(self).tabs@[i].event_statistics.page_attached,
                        final(self).tabs@[i].event_statistics.page_attached,
                    )
                    &&& r.0.page_response is PageAttached
                    &&& (r.0.target_id matches Some(t2) && t2@ == ti.target_id@)
                    &&& r.0.task_id is None
                }),
            item matches TaskDescribe::FrameStartedLoading(fid, cf) ==> (!no_tab_with_id(
                old(self).tabs@,
                opt_str_view(cf.target_id),
            ) ==> exists|i: int|
                {
                    &&& tabs_updated_at(old(self).tabs@, final(self).tabs@, i)
                    &&& crate::tab::record_of(
                        &(#[trigger] final(self).tabs@[i]).changing_frames,
                        fid@,
                    ) == Some(crate::page_message::ChangingFrame::StartedLoading(fid))
                    &&& crate::tab::Tab::identity_unchanged(
                        &old(self).tabs@[i],
                        &final(self).tabs@[i],
                    )
                    &&& (r.0.page_response matches PageResponse::FrameStartedLoading(f2) && f2@
                        == fid@)
                    &&& r.0.target_id == cf.target_id
                    &&& r.0.task_id is None
                }) && (no_tab_with_id(old(self).tabs@, opt_str_view(cf.target_id))
                ==> r.0.page_response is Fail && final(self).tabs == old(self).tabs),
            item matches TaskDescribe::FrameNavigated(frame, cf) ==> (!no_tab_with_id(
                old(self).tabs@,
                opt_str_view(cf.target_id),
            ) ==> exists|i: int|
                {
                    &&& tabs_updated_at(old(self).tabs@, final(self).tabs@, i)
                    &&& crate::tab::record_of(
                        &(#[trigger] final(self).tabs@[i]).changing_frames,
                        frame.id@,
                    ) == Some(crate::page_message::ChangingFrame::Navigated(frame))
                    &&& crate::tab::Tab::identity_unchanged(
                        &old(self).tabs@[i],
                        &final(self).tabs@[i],
                    )
                    &&& (r.0.page_response matches PageResponse::FrameNavigated(f2) && f2@
                        == frame.id@)
                    &&& r.0.target_id == cf.target_id
                    &&& r.0.task_id is None
                }) && (no_tab_with_id(old(self).tabs@, opt_str_view(cf.target_id))
                ==> r.0.page_response is Fail && final(self).tabs == old(self).tabs),
            item matches TaskDescribe::FrameStoppedLoading(fid, cf) ==> (!no_tab_with_id(
                old(self).tabs@,
                opt_str_view(cf.target_id),
            ) ==> exists|i: int|
                {
                    &&& tabs_updated_at(old(self).tabs@, final(self).tabs@, i)
                    &&& crate::tab::record_of(
                        &(#[trigger] final(self).tabs@[i]).changing_frames,
                        fid@,
                    ) == crate::tab::frame_stopped_loading_step(
                        crate::tab::record_of(&old(self).tabs@[i].changing_frames, fid@),
                    )
                    &&& crate::tab::Tab::identity_unchanged(
                        &old(self).tabs@[i],
                        &final(self).tabs@[i],
                    )
                    &&& (r.0.page_response matches PageResponse::FrameStoppedLoading(f2) && f2@
                        == fid@)
                    &&& r.0.target_id == cf.target_id
                    &&& r.0.task_id is None
                }) && (no_tab_with_id(old(self).tabs@, opt_str_view(cf.target_id))
                ==> r.0.page_response is Fail && final(self).tabs == old(self).tabs),
            item matches TaskDescribe::FrameDetached(fid, cf) ==> (!no_tab_with_id(
                old(self).tabs@,
                opt_str_view(cf.target_id),
            ) ==> exists|i: int|
                {
                    &&& tabs_updated_at(old(self).tabs@, final(self).tabs@, i)
                    &&& crate::tab::record_of(
                        &(#[trigger] final(self).tabs@[i]).changing_frames,
                        fid@,
                    ) is None
                    &&& crate::tab::Tab::identity_unchanged(
                        &old(self).tabs@[i],
                        &final(self).tabs@[i],
                    )
                    &&& (r.0.page_response matches PageResponse::FrameDetached(f2) && f2@ == fid@)
                    &&& r.0.target_id == cf.target_id
                    &&& r.0.task_id is None
                }),
            item matches TaskDescribe::RuntimeExecutionContextCreated(ctx, cf) ==> (!no_tab_with_id(
                old(self).tabs@,
                opt_str_view(cf.target_id),
            ) ==> exists|i: int|
                {
                    &&& tabs_updated_at(old(self).tabs@, final(self).tabs@, i)
                    &&& (ctx.aux_frame_id matches Some(fid) ==> (#[trigger] final(self).tabs@[i]).execution_context_descriptions.spec_has_key(fid@) && final(self).tabs@[i].execution_context_descriptions.spec_get(fid@) == ctx)
                    &&& r.0.page_response is RuntimeExecutionContextCreated
                    &&& r.0.target_id == cf.target_id
                    &&& r.0.task_id is None
                }),
            item matches TaskDescribe::RuntimeExecutionContextDestroyed(ctx_id, cf) ==> (
            !no_tab_with_id(old(self).tabs@, opt_str_view(cf.target_id)) ==> exists|i: int|
                {
                    &&& tabs_updated_at(old(self).tabs@, final(self).tabs@, i)
                    &&& crate::tab::contexts_destroyed(
                        &old(self).tabs@[i].execution_context_descriptions,
                        &(#[trigger] final(self).tabs@[i]).execution_context_descriptions,
                        ctx_id,
                    )
                    &&& (r.0.page_response matches PageResponse::RuntimeExecutionContextDestroyed(
                        c2,
                    ) && c2 == ctx_id)
                    &&& r.0.target_id == cf.target_id
                    &&& r.0.task_id is None
                }),
            item matches TaskDescribe::RequestIntercepted(ev, cf) ==> (!no_tab_with_id(
                old(self).tabs@,
                opt_str_view(cf.target_id),
            ) ==> exists|i: int|
                {
                    &&& tabs_updated_at(old(self).tabs@, final(self).tabs@, i)
                    &&& (#[trigger] final(self).tabs@[i]).request_intercepted.spec_has_key(
                        ev.interception_id@,
                    )
                    &&& final(self).tabs@[i].request_intercepted.len() == if old(self).tabs@[i].request_intercepted.spec_has_key(ev.interception_id@) {
                        old(self).tabs@[i].request_intercepted.len()
                    } else {
                        old(self).tabs@[i].request_intercepted.len() + 1
                    }
                    &&& (r.0.page_response matches PageResponse::RequestIntercepted(id2) && id2@
                        == ev.interception_id@)
                    &&& r.0.target_id == cf.target_id
                    &&& r.0.task_id is None
                }),
            item matches TaskDescribe::LoadEventFired(tid, ts) ==> *final(self) == *old(self)
                && (r.0.page_response matches PageResponse::LoadEventFired(t2) && t2 == ts) && (
            r.0.target_id matches Some(t3) && t3@ == tid@),
            item matches TaskDescribe::RuntimeConsoleAPICalled(_, cf) ==> *final(self) == *old(
                self,
            ) && (!no_tab_with_id(old(self).tabs@, opt_str_view(cf.target_id))
                ==> r.0.page_response is ConsoleAPICalled),
            item matches TaskDescribe::RequestWillBeSent(ev, cf) ==> (!no_tab_with_id(
                old(self).tabs@,
                opt_str_view(cf.target_id),
            ) ==> exists|i: int|
                {
                    &&& tabs_updated_at(old(self).tabs@, final(self).tabs@, i)
                    &&& (#[trigger] final(self).tabs@[i]).ongoing_request.spec_has_key(
                        ev.request_id@,
                    )
                    &&& (r.0.page_response matches PageResponse::RequestWillBeSent(id2) && id2@
                        == ev.request_id@)
                    &&& r.0.target_id == cf.target_id
                    &&& r.0.task_id is None
                }),
            item matches TaskDescribe::ResponseReceived(ev, cf) ==> (!no_tab_with_id(
                old(self).tabs@,
                opt_str_view(cf.target_id),
            ) ==> exists|i: int|
                {
                    &&& tabs_updated_at(old(self).tabs@, final(self).tabs@, i)
                    &&& (#[trigger] final(self).tabs@[i]).response_received.spec_has_key(
                        ev.request_id@,
                    )
                }),
            item matches TaskDescribe::FrameAttached(params, cf) ==> (!no_tab_with_id(
                old(self).tabs@,
                opt_str_view(cf.target_id),
            ) ==> exists|i: int|
                {
                    &&& tabs_updated_at(old(self).tabs@, final(self).tabs@, i)
                    &&& crate::tab::record_of(
                        &(#[trigger] final(self).tabs@[i]).changing_frames,
                        params.frame_id@,
                    ) == Some(crate::page_message::ChangingFrame::Attached(params))
                }),
            item matches TaskDescribe::SetChildNodes(tid, pid, nodes) ==> (!no_tab_with_id(
                old(self).tabs@,
                Some(tid@),
            ) ==> exists|i: int|
                {
                    &&& tabs_updated_at(old(self).tabs@, final(self).tabs@, i)
                    &&& (#[trigger] final(self).tabs@[i]).temporary_node_holder.spec_has_key(pid)
                }),
            item matches TaskDescribe::TargetInfoChanged(ti, _cf) ==> (!no_tab_with_id(
                old(self).tabs@,
                Some(ti.target_id@),
            ) ==> exists|i: int|
                {
                    &&& tabs_updated_at(old(self).tabs@, final(self).tabs@, i)
                    &&& (#[trigger] final(self).tabs@[i]).target_info == ti
                }),
            item matches TaskDescribe::TargetCallMethod(t) ==> {
                &&& (crate::target_call_methods::needs_tab(&t) && no_tab_with_id(
                    old(self).tabs@,
                    opt_str_view(t.spec_common_fields().target_id),
                ) ==> r.0.page_response is Fail && final(self).tabs == old(self).tabs)
                &&& (!(crate::target_call_methods::needs_tab(&t) && no_tab_with_id(
                    old(self).tabs@,
                    opt_str_view(t.spec_common_fields().target_id),
                )) ==> crate::target_call_methods::spec_method_done_response(&t, &r.0)
                    && r.0.target_id == t.spec_common_fields().target_id)
            },
    {
        let no_frames: Vec<Vec<u8>> = Vec::new();
        match item {
            TaskDescribe::Interval => {
                if self.seconds_from_start < u64::MAX {
                    self.seconds_from_start = self.seconds_from_start + 1;
                }
                let ghost secs = self.seconds_from_start;
                let mut due: Vec<TaskDescribe> = Vec::new();
                let n = self.tabs.len();
                let mut i: usize = 0;
                while i < n
                    invariant
                        self.wf(),
                        n == self.tabs@.len(),
                        i <= n,
                        forall|j: int|
                            0 <= j < i ==> (#[trigger] self.tabs@[j]).task_queue.len() == 0,
                        self.call_ids == old(self).call_ids,
                        self.task_ids == old(self).task_ids,
                        self.pending == old(self).pending,
                        self.seconds_from_start == secs,
                        self.flag == old(self).flag,
                    decreases n - i,
                {
                    let tab = &mut self.tabs[i];
                    let mut tasks = tab.run_task_queue();
                    due.append(&mut tasks);
                    i = i + 1;
                }
                // Submit the drained batch when the id space can hold
                // it; a batch beyond the remaining id space is dropped
                // with the tick (the id space is practically
                // inexhaustible).
                let call_headroom = (CallId::MAX / 2 - self.call_ids.next) / 2;
                let task_headroom = TaskId::MAX / 2 - self.task_ids.next;
                let due_len = due.len() as u64;
                let frames = if due_len <= call_headroom && due_len <= task_headroom {
                    self.execute_task(due)
                } else {
                    Vec::new()
                };
                let seconds = self.seconds_from_start;
                (
                    PageResponseWrapper {
                        target_id: None,
                        task_id: None,
                        page_response: PageResponse::SecondsElapsed(seconds),
                    },
                    frames,
                )
            },
            TaskDescribe::ChromeConnected => (
                PageResponseWrapper {
                    target_id: None,
                    task_id: None,
                    page_response: PageResponse::ChromeConnected,
                },
                no_frames,
            ),
            TaskDescribe::Fail => (PageResponseWrapper::default(), no_frames),
            TaskDescribe::PageCreated(target_info, page_name) => {
                // Only page targets become tabs; the engine, not its
                // driver, holds the filter.
                if !target_info.target_type.is_page() {
                    return (PageResponseWrapper::default(), no_frames);
                }
                let idx = self.tabs.len();
                let target_id = target_info.target_id.clone();
                let mut tab = Tab::new(target_info);
                match page_name {
                    Some(name) => {
                        tab.name_the_page(name);
                    },
                    None => {},
                }
                self.tabs.push(tab);
                (
                    PageResponseWrapper {
                        target_id: Some(target_id),
                        task_id: None,
                        page_response: PageResponse::PageCreated(idx),
                    },
                    no_frames,
                )
            },
            TaskDescribe::PageAttached(target_info, session_id) => {
                match self.find_tab_index(Some(&target_info.target_id)) {
                    Some(i) => {
                        let tab = &mut self.tabs[i];
                        let sid2 = session_id.clone();
                        tab.page_attached(session_id);
                        let tid2 = target_info.target_id.clone();
                        (
                            PageResponseWrapper {
                                target_id: Some(tid2),
                                task_id: None,
                                page_response: PageResponse::PageAttached(target_info, sid2),
                            },
                            no_frames,
                        )
                    },
                    None => (PageResponseWrapper::default(), no_frames),
                }
            },
            TaskDescribe::TargetInfoChanged(target_info, _cf) => {
                match self.find_tab_index(Some(&target_info.target_id)) {
                    Some(i) => {
                        let tab = &mut self.tabs[i];
                        tab.target_info = target_info;
                        proof {
                            assert(self.tabs@[i as int].wf());
                        }
                        (
                            PageResponseWrapper {
                                target_id: None,
                                task_id: None,
                                page_response: PageResponse::TargetInfoChanged,
                            },
                            no_frames,
                        )
                    },
                    None => (PageResponseWrapper::default(), no_frames),
                }
            },
            TaskDescribe::FrameAttached(params, cf) => {
                match self.find_tab_index(cf.target_id.as_ref()) {
                    Some(i) => {
                        let frame_id = params.frame_id.clone();
                        let tab = &mut self.tabs[i];
                        tab._frame_attached(params);
                        (
                            PageResponseWrapper {
                                target_id: cf.target_id,
                                task_id: None,
                                page_response: PageResponse::FrameAttached(frame_id),
                            },
                            no_frames,
                        )
                    },
                    None => (PageResponseWrapper::default(), no_frames),
                }
            },
            TaskDescribe::FrameStartedLoading(frame_id, cf) => {
                match self.find_tab_index(cf.target_id.as_ref()) {
                    Some(i) => {
                        let fid2 = frame_id.clone();
                        let tab = &mut self.tabs[i];
                        tab._frame_started_loading(frame_id);
                        (
                            PageResponseWrapper {
                                target_id: cf.target_id,
                                task_id: None,
                                page_response: PageResponse::FrameStartedLoading(fid2),
                            },
                            no_frames,
                        )
                    },
                    None => (PageResponseWrapper::default(), no_frames),
                }
            },
            TaskDescribe::FrameNavigated(frame, cf) => {
                match self.find_tab_index(cf.target_id.as_ref()) {
                    Some(i) => {
                        let fid2 = frame.id.clone();
                        let tab = &mut self.tabs[i];
                        tab._frame_navigated(frame);
                        (
                            PageResponseWrapper {
                                target_id: cf.target_id,
                                task_id: None,
                                page_response: PageResponse::FrameNavigated(fid2),
                            },
                            no_frames,
                        )
                    },
                    None => (PageResponseWrapper::default(), no_frames),
                }
            },
            TaskDescribe::FrameStoppedLoading(frame_id, cf) => {
                match self.find_tab_index(cf.target_id.as_ref()) {
                    Some(i) => {
                        let tab = &mut self.tabs[i];
                        tab._frame_stopped_loading(&frame_id);
                        (
                            PageResponseWrapper {
                                target_id: cf.target_id,
                                task_id: None,
                                page_response: PageResponse::FrameStoppedLoading(frame_id),
                            },
                            no_frames,
                        )
                    },
                    None => (PageResponseWrapper::default(), no_frames),
                }
            },
            TaskDescribe::FrameDetached(frame_id, cf) => {
                match self.find_tab_index(cf.target_id.as_ref()) {
                    Some(i) => {
                        let tab = &mut self.tabs[i];
                        tab._frame_detached(&frame_id);
                        (
                            PageResponseWrapper {
                                target_id: cf.target_id,
                                task_id: None,
                                page_response: PageResponse::FrameDetached(frame_id),
                            },
                            no_frames,
                        )
                    },
                    None => (PageResponseWrapper::default(), no_frames),
                }
            },
            TaskDescribe::LoadEventFired(target_id, timestamp) => (
                PageResponseWrapper {
                    target_id: Some(target_id),
                    task_id: None,
                    page_response: PageResponse::LoadEventFired(timestamp),
                },
                no_frames,
            ),
            TaskDescribe::SetChildNodes(target_id, parent_node_id, nodes) => {
                let count = nodes.len();
                match self.find_tab_index(Some(&target_id)) {
                    Some(i) => {
                        let tab = &mut self.tabs[i];
                        tab.node_arrived(parent_node_id, nodes);
                        (
                            PageResponseWrapper {
                                target_id: Some(target_id),
                                task_id: None,
                                page_response: PageResponse::SetChildNodes(parent_node_id, count),
                            },
                            no_frames,
                        )
                    },
                    None => (PageResponseWrapper::default(), no_frames),
                }
            },
            TaskDescribe::RuntimeExecutionContextCreated(ctx, cf) => {
                match self.find_tab_index(cf.target_id.as_ref()) {
                    Some(i) => {
                        let tab = &mut self.tabs[i];
                        let frame_id = tab.runtime_execution_context_created(ctx);
                        (
                            PageResponseWrapper {
                                target_id: cf.target_id,
                                task_id: None,
                                page_response: PageResponse::RuntimeExecutionContextCreated(
                                    frame_id,
                                ),
                            },
                            no_frames,
                        )
                    },
                    None => (PageResponseWrapper::default(), no_frames),
                }
            },
            TaskDescribe::RuntimeExecutionContextDestroyed(ctx_id, cf) => {
                match self.find_tab_index(cf.target_id.as_ref()) {
                    Some(i) => {
                        let tab = &mut self.tabs[i];
                        tab.runtime_execution_context_destroyed(ctx_id);
                        (
                            PageResponseWrapper {
                                target_id: cf.target_id,
                                task_id: None,
                                page_response: PageResponse::RuntimeExecutionContextDestroyed(
                                    ctx_id,
                                ),
                            },
                            no_frames,
                        )
                    },
                    None => (PageResponseWrapper::default(), no_frames),
                }
            },
            TaskDescribe::RuntimeConsoleAPICalled(params, cf) => {
                match self.find_tab_index(cf.target_id.as_ref()) {
                    Some(i) => {
                        let known = self.tabs[i].verify_execution_context_id(&params);
                        (
                            PageResponseWrapper {
                                target_id: cf.target_id,
                                task_id: None,
                                page_response: PageResponse::ConsoleAPICalled(known),
                            },
                            no_frames,
                        )
                    },
                    None => (PageResponseWrapper::default(), no_frames),
                }
            },
            TaskDescribe::RequestWillBeSent(ev, cf) => {
                match self.find_tab_index(cf.target_id.as_ref()) {
                    Some(i) => {
                        let rid = ev.request_id.clone();
                        let tab = &mut self.tabs[i];
                        tab.request_will_be_sent(ev);
                        (
                            PageResponseWrapper {
                                target_id: cf.target_id,
                                task_id: None,
                                page_response: PageResponse::RequestWillBeSent(rid),
                            },
                            no_frames,
                        )
                    },
                    None => (PageResponseWrapper::default(), no_frames),
                }
            },
            TaskDescribe::RequestIntercepted(ev, cf) => {
                match self.find_tab_index(cf.target_id.as_ref()) {
                    Some(i) => {
                        let iid = ev.interception_id.clone();
                        let tab = &mut self.tabs[i];
                        tab.request_intercepted_arrived(ev);
                        (
                            PageResponseWrapper {
                                target_id: cf.target_id,
                                task_id: None,
                                page_response: PageResponse::RequestIntercepted(iid),
                            },
                            no_frames,
                        )
                    },
                    None => (PageResponseWrapper::default(), no_frames),
                }
            },
            TaskDescribe::ResponseReceived(ev, cf) => {
                match self.find_tab_index(cf.target_id.as_ref()) {
                    Some(i) => {
                        let rid = ev.request_id.clone();
                        let tab = &mut self.tabs[i];
                        tab.response_received_arrived(ev);
                        (
                            PageResponseWrapper {
                                target_id: cf.target_id,
                                task_id: None,
                                page_response: PageResponse::ResponseReceived(rid),
                            },
                            no_frames,
                        )
                    },
                    None => (PageResponseWrapper::default(), no_frames),
                }
            },
            TaskDescribe::TargetCallMethod(task) => {
                let target_id: Option<String> = match &task.common_fields().target_id {
                    Some(t) => Some(t.clone()),
                    None => None,
                };
                let session_id: Option<SessionId> = match &task.common_fields().session_id {
                    Some(s) => Some(s.clone()),
                    None => None,
                };
                match crate::target_call_methods::handle_target_method_call(
                    self,
                    task,
                    session_id,
                    target_id,
                ) {
                    Ok(wrapper) => (wrapper, no_frames),
                    Err(_) => (PageResponseWrapper::default(), no_frames),
                }
            },
        }
    }
}

/// A poll in which neither the timer nor the wire yields an item is
/// side-effect free: it flips the fairness bit and touches nothing
/// else — no call id is allocated, no call parked, no tab changed, no
/// second counted.
pub proof fn lemma_idle_poll_side_effect_free(before: &DebugSession, after: &DebugSession)
    requires
        after.tabs == before.tabs,
        after.seconds_from_start == before.seconds_from_start,
        after.call_ids == before.call_ids,
        after.task_ids == before.task_ids,
        after.pending == before.pending,
        after.flag == !before.flag,
    ensures
        after.call_ids.next == before.call_ids.next,
        after.task_ids.next == before.task_ids.next,
        after.pending.map.len() == before.pending.map.len(),
        after.tabs@ == before.tabs@,
        after.seconds_from_start == before.seconds_from_start,
{
}

} // verus!

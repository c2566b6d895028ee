//! The per-target state projection: one `Tab` per CDP page target.
//!
//! A tab owns the frame lifecycle records, the execution-context map,
//! the DOM node cache, the in-flight network ledgers and the deferred
//! task queue of its page, and builds the task descriptors for every
//! method a caller can issue against the page.

use vstd::prelude::*;

use crate::errors::ChromePageError;
use crate::keyed::{StrMap, U64Map};
use crate::page_message::ChangingFrame;
use crate::protocol_model::{
    ExecutionContextDescription, ConsoleAPICalledParams, Frame, FrameAttachedParams, Node,
    RequestIntercepted, RequestWillBeSent, ResponseReceived, ScreenshotFormat, TargetInfo,
};
use crate::task_describe::{
    AttachToTargetTask, CaptureScreenshotTask, CommonDescribeFields, CommonDescribeFieldsBuilder,
    ContinueInterceptedRequestTask, DescribeNodeTask, DescribeNodeTaskBuilder, GetBoxModelTask,
    GetDocumentTask, GetResponseBodyForInterceptionTask, NavigateToTask, NetworkEnableTask,
    PageEnableTask, PageReloadTask, PrintToPdfTask, PrintToPdfTaskBuilder, QuerySelectorTask,
    QuerySelectorTaskBuilder, RequestPattern, RuntimeCallFunctionOnTaskBuilder, RuntimeEnableTask,
    RuntimeEvaluateTaskBuilder, RuntimeGetPropertiesTaskBuilder, SetRequestInterceptionTask,
    TargetCallMethodTask, TaskDescribe,
};
use crate::task_queue::TaskQueue;
use crate::{str_eq, EventName, EventStatistics, SessionId, TaskId, bumped};

verus! {

/// The frame a lifecycle record carries once it reached navigation.
pub open spec fn frame_of(cf: ChangingFrame) -> Option<Frame> {
    match cf {
        ChangingFrame::Navigated(f) => Some(f),
        ChangingFrame::StoppedLoading(f) => Some(f),
        _ => None,
    }
}

/// Whether a lifecycle record is the main frame: navigated or
/// stopped-loading, with no parent.
pub open spec fn is_main_frame_record(cf: ChangingFrame) -> bool {
    match frame_of(cf) {
        Some(f) => f.parent_id is None,
        None => false,
    }
}

/// The lifecycle record kept under `k`, if any.
pub open spec fn record_of(m: &StrMap<ChangingFrame>, k: Seq<char>) -> Option<ChangingFrame> {
    if m.spec_has_key(k) {
        Some(m.spec_get(k))
    } else {
        None
    }
}

/// Effect of a `frameStoppedLoading` event on one frame's record: a
/// navigated record is promoted; anything else is left as it stands.
pub open spec fn frame_stopped_loading_step(prior: Option<ChangingFrame>) -> Option<
    ChangingFrame,
> {
    match prior {
        Some(ChangingFrame::Navigated(f)) => Some(ChangingFrame::StoppedLoading(f)),
        other => other,
    }
}

/// Rank of an optional record on the lifecycle path; absent is below
/// every present state.
pub open spec fn rank_opt(r: Option<ChangingFrame>) -> int {
    match r {
        Some(cf) => cf.rank(),
        None => -1,
    }
}

/// Whether a lifecycle record reached navigation and its frame
/// carries the name.
pub open spec fn named_frame_match(cf: ChangingFrame, name: Seq<char>) -> bool {
    match frame_of(cf) {
        Some(f) => match f.name {
            Some(nm) => nm@ == name,
            None => false,
        },
        None => false,
    }
}

/// The position, at or after `i`, of the first record whose frame
/// reached navigation under the name.
pub open spec fn first_named_frame_from(
    m: &StrMap<ChangingFrame>,
    name: Seq<char>,
    i: int,
) -> Option<int>
    decreases m.entries@.len() - i when 0 <= i
{
    if i >= m.entries@.len() {
        None
    } else if named_frame_match(m.entries@[i].1, name) {
        Some(i)
    } else {
        first_named_frame_from(m, name, i + 1)
    }
}

/// `post` is `pre` after storing a node handed back by
/// `DOM.describeNode`: a present node is appended to the bucket of its
/// parent (0 when it reports none), an absent node changes nothing,
/// and everything else stands.
pub open spec fn node_returned_effect(pre: &Tab, post: &Tab, node: Option<Node>) -> bool {
    &&& Tab::identity_unchanged(pre, post)
    &&& Tab::network_unchanged(pre, post)
    &&& post.changing_frames == pre.changing_frames
    &&& post.execution_context_descriptions == pre.execution_context_descriptions
    &&& Tab::misc_unchanged(pre, post)
    &&& match node {
        None => post.temporary_node_holder == pre.temporary_node_holder,
        Some(nd) => {
            let bucket_key = match nd.parent_id {
                Some(p) => p,
                None => 0u64,
            };
            &&& post.temporary_node_holder.spec_has_key(bucket_key)
            &&& post.temporary_node_holder.spec_get(bucket_key)@
                == if pre.temporary_node_holder.spec_has_key(bucket_key) {
                pre.temporary_node_holder.spec_get(bucket_key)@.push(nd)
            } else {
                seq![nd]
            }
            &&& forall|k: u64|
                k != bucket_key ==> post.temporary_node_holder.spec_has_key(k)
                    == pre.temporary_node_holder.spec_has_key(k)
            &&& forall|k: u64|
                k != bucket_key && pre.temporary_node_holder.spec_has_key(k)
                    ==> post.temporary_node_holder.spec_get(k)
                    == pre.temporary_node_holder.spec_get(k)
        },
    }
}

/// The execution-context map `post` is `pre` with every context whose
/// id is `id` dropped, all else kept.
pub open spec fn contexts_destroyed(
    pre: &StrMap<ExecutionContextDescription>,
    post: &StrMap<ExecutionContextDescription>,
    id: u64,
) -> bool {
    &&& forall|k: Seq<char>|
        #[trigger] post.spec_has_key(k) <==> (pre.spec_has_key(k) && pre.spec_get(k).id != id)
    &&& forall|k: Seq<char>|
        #[trigger] post.spec_has_key(k) ==> post.spec_get(k) == pre.spec_get(k)
}

/// One driven page: the engine's projection of a CDP page target.
pub struct Tab {
    pub target_info: TargetInfo,
    pub session_id: Option<SessionId>,
    pub root_node: Option<Node>,
    pub page_name: Option<String>,
    pub changing_frames: StrMap<ChangingFrame>,
    pub temporary_node_holder: U64Map<Vec<Node>>,
    pub execution_context_descriptions: StrMap<ExecutionContextDescription>,
    pub ongoing_request: StrMap<RequestWillBeSent>,
    pub request_intercepted: StrMap<RequestIntercepted>,
    pub response_received: StrMap<ResponseReceived>,
    pub event_statistics: EventStatistics,
    pub task_queue: TaskQueue,
}

impl Tab {
    /// Well-formed tab: every map has unique keys, and the session id
    /// is set exactly when a page-attached event has been counted.
    pub open spec fn wf(&self) -> bool {
        &&& self.changing_frames.wf()
        &&& self.temporary_node_holder.wf()
        &&& self.execution_context_descriptions.wf()
        &&& self.ongoing_request.wf()
        &&& self.request_intercepted.wf()
        &&& self.response_received.wf()
        &&& (self.session_id is Some <==> self.event_statistics.page_attached > 0)
    }

    /// The identifying fields of `a` and `b` agree.
    pub open spec fn identity_unchanged(a: &Tab, b: &Tab) -> bool {
        &&& a.target_info == b.target_info
        &&& a.session_id == b.session_id
        &&& a.page_name == b.page_name
        &&& a.root_node == b.root_node
    }

    /// The network ledgers of `a` and `b` agree.
    pub open spec fn network_unchanged(a: &Tab, b: &Tab) -> bool {
        &&& a.ongoing_request == b.ongoing_request
        &&& a.request_intercepted == b.request_intercepted
        &&& a.response_received == b.response_received
    }

    /// Frame records, node cache and context map of `a` and `b` agree.
    pub open spec fn caches_unchanged(a: &Tab, b: &Tab) -> bool {
        &&& a.changing_frames == b.changing_frames
        &&& a.temporary_node_holder == b.temporary_node_holder
        &&& a.execution_context_descriptions == b.execution_context_descriptions
    }

    /// Statistics and deferred queue of `a` and `b` agree.
    pub open spec fn misc_unchanged(a: &Tab, b: &Tab) -> bool {
        &&& a.event_statistics == b.event_statistics
        &&& a.task_queue == b.task_queue
    }

    /// A fresh tab for a discovered page target: no session (whatever
    /// `attached` claims — driving the page still takes an explicit
    /// attach call), no caches, no counted events.
    pub fn new(target_info: TargetInfo) -> (r: Tab)
        ensures
            r.wf(),
            r.target_info == target_info,
            r.session_id is None,
            r.root_node is None,
            r.page_name is None,
            r.changing_frames.len() == 0,
            r.temporary_node_holder.len() == 0,
            r.execution_context_descriptions.len() == 0,
            r.ongoing_request.len() == 0,
            r.request_intercepted.len() == 0,
            r.response_received.len() == 0,
            r.event_statistics.page_attached == 0,
            r.event_statistics.execution_context_created == 0,
            r.event_statistics.frame_navigated == 0,
            r.event_statistics.load_event_fired == 0,
            r.event_statistics.request_intercepted == 0,
            r.event_statistics.request_will_be_sent == 0,
            r.task_queue.len() == 0,
    {
        Tab {
            target_info,
            session_id: None,
            root_node: None,
            page_name: None,
            changing_frames: StrMap::new(),
            temporary_node_holder: U64Map::new(),
            execution_context_descriptions: StrMap::new(),
            ongoing_request: StrMap::new(),
            request_intercepted: StrMap::new(),
            response_received: StrMap::new(),
            event_statistics: EventStatistics::new(),
            task_queue: TaskQueue::new(),
        }
    }

    /// Record the session handed out by `Target.attachedToTarget` and
    /// count the attach.
    pub fn page_attached(&mut self, session_id: SessionId)
        requires
            old(self).wf(),
        ensures
            final(self).wf(),
            final(self).session_id == Some(session_id),
            bumped(
                old(self).event_statistics.page_attached,
                final(self).event_statistics.page_attached,
            ),
            final(self).target_info == old(self).target_info,
            final(self).page_name == old(self).page_name,
            final(self).root_node == old(self).root_node,
            Tab::network_unchanged(old(self), final(self)),
            Tab::caches_unchanged(old(self), final(self)),
            final(self).task_queue == old(self).task_queue,
    {
        self.session_id = Some(session_id);
        self.event_statistics.event_happened(EventName::PageAttached);
    }

    /// Drain the deferred queue; the engine submits what comes out.
    pub fn run_task_queue(&mut self) -> (r: Vec<TaskDescribe>)
        requires
            old(self).wf(),
        ensures
            final(self).wf(),
            r@ == old(self).task_queue.items@,
            final(self).task_queue.len() == 0,
            Tab::identity_unchanged(old(self), final(self)),
            Tab::network_unchanged(old(self), final(self)),
            Tab::caches_unchanged(old(self), final(self)),
            final(self).event_statistics == old(self).event_statistics,
    {
        self.task_queue.retrieve_task_to_run()
    }

    /// Park a task until the next interval tick.
    pub fn defer_task(&mut self, task: TaskDescribe)
        requires
            old(self).wf(),
        ensures
            final(self).wf(),
            final(self).task_queue.items@ == old(self).task_queue.items@.push(task),
            Tab::identity_unchanged(old(self), final(self)),
            Tab::network_unchanged(old(self), final(self)),
            Tab::caches_unchanged(old(self), final(self)),
            final(self).event_statistics == old(self).event_statistics,
    {
        self.task_queue.add(task);
    }

    /// Whether the page currently shows `about:blank`.
    pub fn is_blank_url(&self) -> (r: bool)
        requires
            self.wf(),
        ensures
            (forall|i: int|
                0 <= i < self.changing_frames.len() ==> !is_main_frame_record(
                    #[trigger] self.changing_frames.entries@[i].1,
                )) ==> r == (self.target_info.url@ == "about:blank"@),
            (exists|i: int|
                0 <= i < self.changing_frames.len() && is_main_frame_record(
                    #[trigger] self.changing_frames.entries@[i].1,
                )) ==> exists|i: int|
                0 <= i < self.changing_frames.len() && match frame_of(
                    #[trigger] self.changing_frames.entries@[i].1,
                ) {
                    Some(f) => f.parent_id is None && r == (f.url@ == "about:blank"@),
                    None => false,
                },
    {
        self.is_at_url("about:blank")
    }

    /// Whether the page shows Chrome's network-error interstitial.
    pub fn is_chrome_error_chromewebdata(&self) -> (r: bool)
        requires
            self.wf(),
        ensures
            (forall|i: int|
                0 <= i < self.changing_frames.len() ==> !is_main_frame_record(
                    #[trigger] self.changing_frames.entries@[i].1,
                )) ==> r == (self.target_info.url@ == "chrome-error://chromewebdata/"@),
            (exists|i: int|
                0 <= i < self.changing_frames.len() && is_main_frame_record(
                    #[trigger] self.changing_frames.entries@[i].1,
                )) ==> exists|i: int|
                0 <= i < self.changing_frames.len() && match frame_of(
                    #[trigger] self.changing_frames.entries@[i].1,
                ) {
                    Some(f) => f.parent_id is None && r == (f.url@ == "chrome-error://chromewebdata/"@),
                    None => false,
                },
    {
        self.is_at_url("chrome-error://chromewebdata/")
    }

    /// Record an outgoing request in the in-flight ledger and count it.
    pub fn request_will_be_sent(&mut self, event: RequestWillBeSent)
        requires
            old(self).wf(),
        ensures
            final(self).wf(),
            final(self).ongoing_request.spec_has_key(event.request_id@),
            final(self).ongoing_request.spec_get(event.request_id@) == event,
            forall|k: Seq<char>|
                k != event.request_id@ ==> final(self).ongoing_request.spec_has_key(k) == old(self).ongoing_request.spec_has_key(k),
            forall|k: Seq<char>|
                k != event.request_id@ && old(self).ongoing_request.spec_has_key(k) ==> final(self).ongoing_request.spec_get(k) == old(self).ongoing_request.spec_get(k),
            final(self).ongoing_request.len() == if old(self).ongoing_request.spec_has_key(
                event.request_id@,
            ) {
                old(self).ongoing_request.len()
            } else {
                old(self).ongoing_request.len() + 1
            },
            Tab::identity_unchanged(old(self), final(self)),
            Tab::caches_unchanged(old(self), final(self)),
            final(self).request_intercepted == old(self).request_intercepted,
            final(self).response_received == old(self).response_received,
            final(self).task_queue == old(self).task_queue,
            bumped(
                old(self).event_statistics.request_will_be_sent,
                final(self).event_statistics.request_will_be_sent,
            ),
            final(self).event_statistics.page_attached == old(self).event_statistics.page_attached,
    {
        let key = event.request_id.clone();
        self.event_statistics.event_happened(EventName::RequestWillBeSent);
        self.ongoing_request.insert(key, event);
    }

    /// Take a request out of the in-flight ledger. Returns `None`, and
    /// changes nothing, exactly when the id is unknown.
    pub fn take_request(&mut self, request_id: &String) -> (r: Option<RequestWillBeSent>)
        requires
            old(self).wf(),
        ensures
            final(self).wf(),
            r is Some <==> old(self).ongoing_request.spec_has_key(request_id@),
            r matches Some(ev) ==> ev == old(self).ongoing_request.spec_get(request_id@),
            !final(self).ongoing_request.spec_has_key(request_id@),
            forall|k: Seq<char>|
                k != request_id@ ==> final(self).ongoing_request.spec_has_key(k) == old(self).ongoing_request.spec_has_key(k),
            forall|k: Seq<char>|
                k != request_id@ && old(self).ongoing_request.spec_has_key(k) ==> final(self).ongoing_request.spec_get(k) == old(self).ongoing_request.spec_get(k),
            Tab::identity_unchanged(old(self), final(self)),
            Tab::caches_unchanged(old(self), final(self)),
            final(self).request_intercepted == old(self).request_intercepted,
            final(self).response_received == old(self).response_received,
            Tab::misc_unchanged(old(self), final(self)),
    {
        self.ongoing_request.remove(request_id)
    }

    /// The unique navigated or stopped-loading frame without a parent,
    /// when the page has one.
    pub fn main_frame(&self) -> (r: Option<&Frame>)
        ensures
            r matches Some(f) ==> exists|i: int|
                0 <= i < self.changing_frames.len() && frame_of(
                    #[trigger] self.changing_frames.entries@[i].1,
                ) == Some(*f) && f.parent_id is None,
            r is None ==> forall|i: int|
                0 <= i < self.changing_frames.len() ==> !is_main_frame_record(
                    #[trigger] self.changing_frames.entries@[i].1,
                ),
    {
        let n = self.changing_frames.count();
        let mut i: usize = 0;
        while i < n
            invariant
                n == self.changing_frames.len(),
                i <= n,
                forall|j: int|
                    0 <= j < i ==> !is_main_frame_record(
                        #[trigger] self.changing_frames.entries@[j].1,
                    ),
            decreases n - i,
        {
            let entry = self.changing_frames.entry_at(i);
            match &entry.1 {
                ChangingFrame::Navigated(f) => {
                    if f.parent_id.is_none() {
                        return Some(f);
                    }
                },
                ChangingFrame::StoppedLoading(f) => {
                    if f.parent_id.is_none() {
                        return Some(f);
                    }
                },
                _ => {},
            }
            i = i + 1;
        }
        None
    }

    /// Whether the page currently shows `url`: judged by the main
    /// frame when one exists, else by the discovery-time target url.
    pub fn is_at_url(&self, url: &str) -> (r: bool)
        requires
            self.wf(),
        ensures
            (forall|i: int|
                0 <= i < self.changing_frames.len() ==> !is_main_frame_record(
                    #[trigger] self.changing_frames.entries@[i].1,
                )) ==> r == (self.target_info.url@ == url@),
            (exists|i: int|
                0 <= i < self.changing_frames.len() && is_main_frame_record(
                    #[trigger] self.changing_frames.entries@[i].1,
                )) ==> exists|i: int|
                0 <= i < self.changing_frames.len() && match frame_of(
                    #[trigger] self.changing_frames.entries@[i].1,
                ) {
                    Some(f) => f.parent_id is None && r == (f.url@ == url@),
                    None => false,
                },
    {
        match self.main_frame() {
            Some(mf) => str_eq(mf.url.as_str(), url),
            None => str_eq(self.target_info.url.as_str(), url),
        }
    }

    /// The url the page currently shows: the main frame's when one
    /// exists, else the discovery-time target url.
    pub fn get_url(&self) -> (r: &str)
        ensures
            (forall|i: int|
                0 <= i < self.changing_frames.len() ==> !is_main_frame_record(
                    #[trigger] self.changing_frames.entries@[i].1,
                )) ==> r@ == self.target_info.url@,
            (exists|i: int|
                0 <= i < self.changing_frames.len() && is_main_frame_record(
                    #[trigger] self.changing_frames.entries@[i].1,
                )) ==> exists|i: int|
                0 <= i < self.changing_frames.len() && match frame_of(
                    #[trigger] self.changing_frames.entries@[i].1,
                ) {
                    Some(f) => f.parent_id is None && r@ == f.url@,
                    None => false,
                },
    {
        match self.main_frame() {
            Some(mf) => mf.url.as_str(),
            None => self.target_info.url.as_str(),
        }
    }

    /// The common correlation fields for a task issued on this tab.
    pub open spec fn spec_common_ok(
        &self,
        cf: CommonDescribeFields,
        manual_task_id: Option<TaskId>,
    ) -> bool {
        &&& match cf.target_id {
            Some(t) => t@ == self.target_info.target_id@,
            None => false,
        }
        &&& cf.session_id == self.session_id
        &&& cf.task_id == manual_task_id
        &&& cf.call_id == 0
    }

    /// Build the correlation fields every task issued on this tab
    /// carries: its target id, its session (when attached) and the
    /// caller's task id.
    pub fn get_common_field(&self, manual_task_id: Option<TaskId>) -> (r: CommonDescribeFields)
        ensures
            self.spec_common_ok(r, manual_task_id),
    {
        CommonDescribeFieldsBuilder::new().target_id(self.target_info.target_id.clone()).session_id(
            match &self.session_id {
                Some(s) => Some(s.clone()),
                None => None,
            },
        ).task_id(manual_task_id).build()
    }

    /// The explicit attach request for this tab's target.
    pub fn attach_to_page(&self) -> (r: AttachToTargetTask)
        ensures
            r.target_id@ == self.target_info.target_id@,
    {
        AttachToTargetTask { target_id: self.target_info.target_id.clone() }
    }

    /// Set the label consumers use to find this page.
    pub fn name_the_page(&mut self, page_name: String)
        requires
            old(self).wf(),
        ensures
            final(self).wf(),
            final(self).page_name == Some(page_name),
            final(self).target_info == old(self).target_info,
            final(self).session_id == old(self).session_id,
            final(self).root_node == old(self).root_node,
            Tab::network_unchanged(old(self), final(self)),
            Tab::caches_unchanged(old(self), final(self)),
            Tab::misc_unchanged(old(self), final(self)),
    {
        self.page_name = Some(page_name);
    }
}


impl Tab {
    /// Apply `Page.frameAttached`: the frame's record becomes
    /// `Attached`, whatever stood there.
    pub fn _frame_attached(&mut self, frame_attached_params: FrameAttachedParams)
        requires
            old(self).wf(),
        ensures
            final(self).wf(),
            record_of(&final(self).changing_frames, frame_attached_params.frame_id@) == Some(
                ChangingFrame::Attached(frame_attached_params),
            ),
            forall|k: Seq<char>|
                k != frame_attached_params.frame_id@ ==> record_of(
                    &final(self).changing_frames,
                    k,
                ) == record_of(&old(self).changing_frames, k),
            Tab::identity_unchanged(old(self), final(self)),
            Tab::network_unchanged(old(self), final(self)),
            final(self).temporary_node_holder == old(self).temporary_node_holder,
            final(self).execution_context_descriptions == old(self).execution_context_descriptions,
            Tab::misc_unchanged(old(self), final(self)),
    {
        let frame_id = frame_attached_params.frame_id.clone();
        self.changing_frames.insert(frame_id, ChangingFrame::Attached(frame_attached_params));
    }

    /// Apply `Page.frameStartedLoading`: the frame's record becomes
    /// `StartedLoading`, synthesised if the frame was unknown.
    pub fn _frame_started_loading(&mut self, frame_id: String)
        requires
            old(self).wf(),
        ensures
            final(self).wf(),
            record_of(&final(self).changing_frames, frame_id@) == Some(
                ChangingFrame::StartedLoading(frame_id),
            ),
            forall|k: Seq<char>|
                k != frame_id@ ==> record_of(&final(self).changing_frames, k) == record_of(
                    &old(self).changing_frames,
                    k,
                ),
            Tab::identity_unchanged(old(self), final(self)),
            Tab::network_unchanged(old(self), final(self)),
            final(self).temporary_node_holder == old(self).temporary_node_holder,
            final(self).execution_context_descriptions == old(self).execution_context_descriptions,
            Tab::misc_unchanged(old(self), final(self)),
    {
        let key = frame_id.clone();
        self.changing_frames.insert(key, ChangingFrame::StartedLoading(frame_id));
    }

    /// Apply `Page.frameNavigated`: the frame's record becomes
    /// `Navigated`, synthesised if Chrome omitted the earlier events.
    /// The navigation is counted.
    pub fn _frame_navigated(&mut self, frame: Frame)
        requires
            old(self).wf(),
        ensures
            final(self).wf(),
            record_of(&final(self).changing_frames, frame.id@) == Some(
                ChangingFrame::Navigated(frame),
            ),
            forall|k: Seq<char>|
                k != frame.id@ ==> record_of(&final(self).changing_frames, k) == record_of(
                    &old(self).changing_frames,
                    k,
                ),
            Tab::identity_unchanged(old(self), final(self)),
            Tab::network_unchanged(old(self), final(self)),
            final(self).temporary_node_holder == old(self).temporary_node_holder,
            final(self).execution_context_descriptions == old(self).execution_context_descriptions,
            bumped(
                old(self).event_statistics.frame_navigated,
                final(self).event_statistics.frame_navigated,
            ),
            final(self).event_statistics.page_attached == old(self).event_statistics.page_attached,
            final(self).task_queue == old(self).task_queue,
    {
        self.event_statistics.event_happened(EventName::FrameNavigated);
        let frame_id = frame.id.clone();
        self.changing_frames.insert(frame_id, ChangingFrame::Navigated(frame));
    }

    /// Apply `Page.frameStoppedLoading`: promote a navigated record;
    /// any other record — or none — is left untouched (the frame never
    /// reached navigation, e.g. a network error).
    pub fn _frame_stopped_loading(&mut self, frame_id: &String)
        requires
            old(self).wf(),
        ensures
            final(self).wf(),
            record_of(&final(self).changing_frames, frame_id@) == frame_stopped_loading_step(
                record_of(&old(self).changing_frames, frame_id@),
            ),
            rank_opt(record_of(&final(self).changing_frames, frame_id@)) >= rank_opt(
                record_of(&old(self).changing_frames, frame_id@),
            ),
            forall|k: Seq<char>|
                k != frame_id@ ==> record_of(&final(self).changing_frames, k) == record_of(
                    &old(self).changing_frames,
                    k,
                ),
            Tab::identity_unchanged(old(self), final(self)),
            Tab::network_unchanged(old(self), final(self)),
            final(self).temporary_node_holder == old(self).temporary_node_holder,
            final(self).execution_context_descriptions == old(self).execution_context_descriptions,
            Tab::misc_unchanged(old(self), final(self)),
    {
        let promoted: Option<ChangingFrame> = match self.changing_frames.get(frame_id) {
            Some(cf) => match cf {
                ChangingFrame::Navigated(f) => Some(ChangingFrame::StoppedLoading(f.clone())),
                _ => None,
            },
            None => None,
        };
        match promoted {
            Some(record) => {
                self.changing_frames.insert(frame_id.clone(), record);
            },
            None => {},
        }
    }

    /// Apply `Page.frameDetached`: drop the frame's record.
    pub fn _frame_detached(&mut self, frame_id: &String)
        requires
            old(self).wf(),
        ensures
            final(self).wf(),
            record_of(&final(self).changing_frames, frame_id@) is None,
            forall|k: Seq<char>|
                k != frame_id@ ==> record_of(&final(self).changing_frames, k) == record_of(
                    &old(self).changing_frames,
                    k,
                ),
            Tab::identity_unchanged(old(self), final(self)),
            Tab::network_unchanged(old(self), final(self)),
            final(self).temporary_node_holder == old(self).temporary_node_holder,
            final(self).execution_context_descriptions == old(self).execution_context_descriptions,
            Tab::misc_unchanged(old(self), final(self)),
    {
        self.changing_frames.remove(frame_id);
    }

    /// Apply `Runtime.executionContextCreated`: store the context under
    /// the frame id of its auxiliary data and count the event. A
    /// context without a frame id changes nothing; a second context for
    /// the same frame replaces the first.
    pub fn runtime_execution_context_created(
        &mut self,
        execution_context: ExecutionContextDescription,
    ) -> (r: Option<String>)
        requires
            old(self).wf(),
        ensures
            final(self).wf(),
            execution_context.aux_frame_id matches Some(fid) ==> {
                &&& r matches Some(rid) && rid@ == fid@
                &&& final(self).execution_context_descriptions.spec_has_key(fid@)
                &&& final(self).execution_context_descriptions.spec_get(fid@)
                    == execution_context
                &&& forall|k: Seq<char>|
                    k != fid@ ==> final(self).execution_context_descriptions.spec_has_key(k) == old(self).execution_context_descriptions.spec_has_key(k)
                &&& forall|k: Seq<char>|
                    k != fid@ && old(self).execution_context_descriptions.spec_has_key(k) ==> final(self).execution_context_descriptions.spec_get(k) == old(self).execution_context_descriptions.spec_get(k)
            },
            execution_context.aux_frame_id is None ==> r is None && final(self).execution_context_descriptions == old(self).execution_context_descriptions,
            Tab::identity_unchanged(old(self), final(self)),
            Tab::network_unchanged(old(self), final(self)),
            final(self).changing_frames == old(self).changing_frames,
            final(self).temporary_node_holder == old(self).temporary_node_holder,
            bumped(
                old(self).event_statistics.execution_context_created,
                final(self).event_statistics.execution_context_created,
            ),
            final(self).event_statistics.page_attached == old(self).event_statistics.page_attached,
            final(self).task_queue == old(self).task_queue,
    {
        self.event_statistics.event_happened(EventName::ExecutionContextCreated);
        let frame_id: Option<String> = match &execution_context.aux_frame_id {
            Some(fid) => Some(fid.clone()),
            None => None,
        };
        match frame_id {
            Some(fid) => {
                let returned = fid.clone();
                self.execution_context_descriptions.insert(fid, execution_context);
                Some(returned)
            },
            None => None,
        }
    }

    /// Apply `Runtime.executionContextDestroyed`: drop every context
    /// whose id is `execution_context_id`.
    pub fn runtime_execution_context_destroyed(&mut self, execution_context_id: u64)
        requires
            old(self).wf(),
        ensures
            final(self).wf(),
            contexts_destroyed(
                &old(self).execution_context_descriptions,
                &final(self).execution_context_descriptions,
                execution_context_id,
            ),
            Tab::identity_unchanged(old(self), final(self)),
            Tab::network_unchanged(old(self), final(self)),
            final(self).changing_frames == old(self).changing_frames,
            final(self).temporary_node_holder == old(self).temporary_node_holder,
            Tab::misc_unchanged(old(self), final(self)),
    {
        let n = self.execution_context_descriptions.count();
        let mut kept: StrMap<ExecutionContextDescription> = StrMap::new();
        let mut i: usize = 0;
        while i < n
            invariant
                n == self.execution_context_descriptions.len(),
                i <= n,
                self.execution_context_descriptions.wf(),
                kept.wf(),
                forall|k: Seq<char>| #[trigger]
                    kept.spec_has_key(k) ==> self.execution_context_descriptions.spec_has_key(k)
                        && self.execution_context_descriptions.spec_get(k).id
                        != execution_context_id && kept.spec_get(k)
                        == self.execution_context_descriptions.spec_get(k),
                forall|j: int|
                    0 <= j < i ==> (#[trigger] self.execution_context_descriptions.entries@[j].1.id
                        != execution_context_id ==> kept.spec_has_key(
                        self.execution_context_descriptions.entries@[j].0@,
                    )),
            decreases n - i,
        {
            let entry = self.execution_context_descriptions.entry_at(i);
            if entry.1.id != execution_context_id {
                let key = entry.0.clone();
                let value = entry.1.clone();
                proof {
                    self.execution_context_descriptions.lemma_get_unique(entry.0@);
                }
                kept.insert(key, value);
            }
            i = i + 1;
        }
        proof {
            assert forall|k: Seq<char>|
                self.execution_context_descriptions.spec_has_key(k)
                    && #[trigger] self.execution_context_descriptions.spec_get(k).id
                    != execution_context_id implies kept.spec_has_key(k) by {
                self.execution_context_descriptions.lemma_get_unique(k);
            }
        }
        self.execution_context_descriptions = kept;
    }

    /// Whether a console-API event names an execution context this tab
    /// knows.
    pub fn verify_execution_context_id(&self, console_api_called: &ConsoleAPICalledParams) -> (r:
        bool)
        ensures
            r == exists|i: int|
                0 <= i < self.execution_context_descriptions.len()
                    && #[trigger] self.execution_context_descriptions.entries@[i].1.id
                    == console_api_called.execution_context_id,
    {
        let n = self.execution_context_descriptions.count();
        let mut i: usize = 0;
        while i < n
            invariant
                n == self.execution_context_descriptions.len(),
                i <= n,
                forall|j: int|
                    0 <= j < i ==> #[trigger] self.execution_context_descriptions.entries@[j].1.id
                        != console_api_called.execution_context_id,
            decreases n - i,
        {
            let entry = self.execution_context_descriptions.entry_at(i);
            if entry.1.id == console_api_called.execution_context_id {
                return true;
            }
            i = i + 1;
        }
        false
    }

    /// Store the children delivered by `DOM.setChildNodes`, appended to
    /// the bucket of their parent.
    pub fn node_arrived(&mut self, parent_node_id: u64, nodes: Vec<Node>)
        requires
            old(self).wf(),
        ensures
            final(self).wf(),
            final(self).temporary_node_holder.spec_has_key(parent_node_id),
            final(self).temporary_node_holder.spec_get(parent_node_id)@ == if old(self).temporary_node_holder.spec_has_key(parent_node_id) {
                old(self).temporary_node_holder.spec_get(parent_node_id)@ + nodes@
            } else {
                nodes@
            },
            forall|k: u64|
                k != parent_node_id ==> final(self).temporary_node_holder.spec_has_key(k) == old(self).temporary_node_holder.spec_has_key(k),
            forall|k: u64|
                k != parent_node_id && old(self).temporary_node_holder.spec_has_key(k) ==> final(self).temporary_node_holder.spec_get(k) == old(self).temporary_node_holder.spec_get(k),
            Tab::identity_unchanged(old(self), final(self)),
            Tab::network_unchanged(old(self), final(self)),
            final(self).changing_frames == old(self).changing_frames,
            final(self).execution_context_descriptions == old(self).execution_context_descriptions,
            Tab::misc_unchanged(old(self), final(self)),
    {
        let mut incoming = nodes;
        match self.temporary_node_holder.remove(parent_node_id) {
            Some(mut bucket) => {
                bucket.append(&mut incoming);
                self.temporary_node_holder.insert(parent_node_id, bucket);
            },
            None => {
                self.temporary_node_holder.insert(parent_node_id, incoming);
            },
        }
    }

    /// Store a node returned by `DOM.describeNode` under its parent, or
    /// under 0 when it reports none. A missing node changes nothing.
    pub fn node_returned(&mut self, node: Option<Node>)
        requires
            old(self).wf(),
        ensures
            final(self).wf(),
            node_returned_effect(old(self), final(self), node),
    {
        match node {
            Some(nd) => {
                let bucket_key: u64 = match nd.parent_id {
                    Some(p) => p,
                    None => 0,
                };
                match self.temporary_node_holder.remove(bucket_key) {
                    Some(mut bucket) => {
                        bucket.push(nd);
                        self.temporary_node_holder.insert(bucket_key, bucket);
                    },
                    None => {
                        let mut bucket: Vec<Node> = Vec::new();
                        bucket.push(nd);
                        self.temporary_node_holder.insert(bucket_key, bucket);
                    },
                }
            },
            None => {},
        }
    }

    /// Find a cached node by id, across every bucket.
    pub fn find_node_by_id(&self, node_id: Option<u64>) -> (r: Option<&Node>)
        ensures
            r matches Some(n) ==> node_id == Some(n.node_id) && exists|i: int, j: int|
                0 <= i < self.temporary_node_holder.len() && 0 <= j
                    < self.temporary_node_holder.entries@[i].1@.len()
                    && #[trigger] self.temporary_node_holder.entries@[i].1@[j] == *n,
            r is None ==> forall|i: int, j: int|
                0 <= i < self.temporary_node_holder.len() && 0 <= j
                    < self.temporary_node_holder.entries@[i].1@.len() ==> node_id != Some(
                    (#[trigger] self.temporary_node_holder.entries@[i].1@[j]).node_id,
                ),
    {
        let target: u64 = match node_id {
            Some(x) => x,
            None => {
                return None;
            },
        };
        let n = self.temporary_node_holder.count();
        let mut i: usize = 0;
        while i < n
            invariant
                n == self.temporary_node_holder.len(),
                i <= n,
                node_id == Some(target),
                forall|i2: int, j2: int|
                    0 <= i2 < i && 0 <= j2 < self.temporary_node_holder.entries@[i2].1@.len()
                        ==> (#[trigger] self.temporary_node_holder.entries@[i2].1@[j2]).node_id
                        != target,
            decreases n - i,
        {
            let bucket = &self.temporary_node_holder.entry_at(i).1;
            let m = bucket.len();
            let mut j: usize = 0;
            while j < m
                invariant
                    n == self.temporary_node_holder.len(),
                    i < n,
                    m == bucket@.len(),
                    j <= m,
                    node_id == Some(target),
                    bucket == &self.temporary_node_holder.entries@[i as int].1,
                    forall|j2: int| 0 <= j2 < j ==> bucket@[j2].node_id != target,
                decreases m - j,
            {
                if bucket[j].node_id == target {
                    return Some(&bucket[j]);
                }
                j = j + 1;
            }
            i = i + 1;
        }
        None
    }

    /// Find a frame that reached navigation by its id.
    pub fn find_frame_by_id(&self, frame_id: &String) -> (r: Option<&Frame>)
        requires
            self.wf(),
        ensures
            match r {
                Some(f) => record_of(&self.changing_frames, frame_id@) matches Some(cf) && frame_of(
                    cf,
                ) == Some(*f),
                None => match record_of(&self.changing_frames, frame_id@) {
                    Some(cf) => frame_of(cf) is None,
                    None => true,
                },
            },
    {
        match self.changing_frames.get(frame_id) {
            Some(cf) => match cf {
                ChangingFrame::Navigated(f) => Some(f),
                ChangingFrame::StoppedLoading(f) => Some(f),
                _ => None,
            },
            None => None,
        }
    }

    /// Find the first frame, in record order, that reached navigation
    /// and satisfies `filter`. The filter is applied only to navigated
    /// or stopped-loading frames — so only those need to meet its
    /// precondition — and it refused every such frame before the one
    /// that comes back; when none comes back, it refused them all.
    pub fn find_navigated_frame<F: Fn(&Frame) -> bool>(&self, filter: F) -> (r: Option<&Frame>)
        requires
            forall|fr: &Frame|
                (exists|i: int|
                    0 <= i < self.changing_frames.len() && frame_of(
                        #[trigger] self.changing_frames.entries@[i].1,
                    ) == Some(*fr)) ==> #[trigger] filter.requires((fr,)),
        ensures
            r matches Some(f) ==> exists|i: int|
                {
                    &&& 0 <= i < self.changing_frames.len()
                    &&& frame_of(#[trigger] self.changing_frames.entries@[i].1) == Some(*f)
                    &&& filter.ensures((f,), true)
                    &&& forall|j: int|
                        0 <= j < i ==> match frame_of(
                            #[trigger] self.changing_frames.entries@[j].1,
                        ) {
                            Some(f2) => filter.ensures((&f2,), false),
                            None => true,
                        }
                },
            r is None ==> forall|i: int|
                0 <= i < self.changing_frames.len() ==> match frame_of(
                    #[trigger] self.changing_frames.entries@[i].1,
                ) {
                    Some(f) => filter.ensures((&f,), false),
                    None => true,
                },
    {
        let n = self.changing_frames.count();
        let mut i: usize = 0;
        while i < n
            invariant
                n == self.changing_frames.len(),
                i <= n,
                forall|fr: &Frame|
                    (exists|i2: int|
                        0 <= i2 < self.changing_frames.len() && frame_of(
                            #[trigger] self.changing_frames.entries@[i2].1,
                        ) == Some(*fr)) ==> #[trigger] filter.requires((fr,)),
                forall|j: int|
                    0 <= j < i ==> match frame_of(#[trigger] self.changing_frames.entries@[j].1) {
                        Some(f) => filter.ensures((&f,), false),
                        None => true,
                    },
            decreases n - i,
        {
            let entry = self.changing_frames.entry_at(i);
            let candidate: Option<&Frame> = match &entry.1 {
                ChangingFrame::Navigated(f) => Some(f),
                ChangingFrame::StoppedLoading(f) => Some(f),
                _ => None,
            };
            match candidate {
                Some(f) => {
                    proof {
                        assert(frame_of(self.changing_frames.entries@[i as int].1) == Some(*f));
                        assert(filter.requires((f,)));
                    }
                    if filter(f) {
                        return Some(f);
                    }
                },
                None => {},
            }
            i = i + 1;
        }
        None
    }

    /// Find the first frame, in record order, that reached navigation
    /// under the `name` attribute.
    pub fn find_navigated_frame_by_name(&self, frame_name: &str) -> (r: Option<&Frame>)
        ensures
            match first_named_frame_from(&self.changing_frames, frame_name@, 0) {
                Some(i) => match r {
                    Some(f) => frame_of(self.changing_frames.entries@[i].1) == Some(*f),
                    None => false,
                },
                None => r is None,
            },
    {
        let n = self.changing_frames.count();
        let mut i: usize = 0;
        while i < n
            invariant
                n == self.changing_frames.len(),
                i <= n,
                first_named_frame_from(&self.changing_frames, frame_name@, 0)
                    == first_named_frame_from(&self.changing_frames, frame_name@, i as int),
            decreases n - i,
        {
            let entry = self.changing_frames.entry_at(i);
            let candidate: Option<&Frame> = match &entry.1 {
                ChangingFrame::Navigated(f) => Some(f),
                ChangingFrame::StoppedLoading(f) => Some(f),
                _ => None,
            };
            match candidate {
                Some(f) => match &f.name {
                    Some(nm) => {
                        if str_eq(nm.as_str(), frame_name) {
                            proof {
                                assert(named_frame_match(
                                    self.changing_frames.entries@[i as int].1,
                                    frame_name@,
                                ));
                                assert(first_named_frame_from(
                                    &self.changing_frames,
                                    frame_name@,
                                    i as int,
                                ) == Some(i as int));
                            }
                            return Some(f);
                        }
                    },
                    None => {},
                },
                None => {},
            }
            proof {
                assert(!named_frame_match(self.changing_frames.entries@[i as int].1, frame_name@));
            }
            i = i + 1;
        }
        None
    }

    /// The execution context of the frame named `frame_name`: the
    /// first frame that reached navigation under the name is found,
    /// then its context is looked up by frame id. The result is `Some`
    /// of exactly that context when the frame exists and its context
    /// is stored, and `None` otherwise.
    pub fn find_execution_context_id_by_frame_name(&self, frame_name: &str) -> (r: Option<
        &ExecutionContextDescription,
    >)
        requires
            self.wf(),
        ensures
            match first_named_frame_from(&self.changing_frames, frame_name@, 0) {
                None => r is None,
                Some(i) => match frame_of(self.changing_frames.entries@[i].1) {
                    Some(f) => match r {
                        Some(ctx) => self.execution_context_descriptions.spec_has_key(f.id@)
                            && *ctx == self.execution_context_descriptions.spec_get(f.id@),
                        None => !self.execution_context_descriptions.spec_has_key(f.id@),
                    },
                    None => false,
                },
            },
    {
        match self.find_navigated_frame_by_name(frame_name) {
            Some(frame) => self.execution_context_descriptions.get(&frame.id),
            None => None,
        }
    }
}


impl Tab {
    /// Record a paused request delivered by `Network.requestIntercepted`
    /// and count it. Every record added here must later be matched by
    /// exactly one continuation, or Chrome stalls the request.
    pub fn request_intercepted_arrived(&mut self, event: RequestIntercepted)
        requires
            old(self).wf(),
        ensures
            final(self).wf(),
            final(self).request_intercepted.spec_has_key(event.interception_id@),
            final(self).request_intercepted.spec_get(event.interception_id@) == event,
            forall|k: Seq<char>|
                k != event.interception_id@ ==> final(self).request_intercepted.spec_has_key(k)
                    == old(self).request_intercepted.spec_has_key(k),
            forall|k: Seq<char>|
                k != event.interception_id@ && old(self).request_intercepted.spec_has_key(k)
                    ==> final(self).request_intercepted.spec_get(k) == old(
                    self,
                ).request_intercepted.spec_get(k),
            final(self).request_intercepted.len() == if old(self).request_intercepted.spec_has_key(
                event.interception_id@,
            ) {
                old(self).request_intercepted.len()
            } else {
                old(self).request_intercepted.len() + 1
            },
            Tab::identity_unchanged(old(self), final(self)),
            Tab::caches_unchanged(old(self), final(self)),
            final(self).ongoing_request == old(self).ongoing_request,
            final(self).response_received == old(self).response_received,
            final(self).task_queue == old(self).task_queue,
            bumped(
                old(self).event_statistics.request_intercepted,
                final(self).event_statistics.request_intercepted,
            ),
            final(self).event_statistics.page_attached == old(self).event_statistics.page_attached,
    {
        let key = event.interception_id.clone();
        self.event_statistics.event_happened(EventName::RequestIntercepted);
        self.request_intercepted.insert(key, event);
    }

    /// Record a finished response delivered by `Network.responseReceived`.
    pub fn response_received_arrived(&mut self, event: ResponseReceived)
        requires
            old(self).wf(),
        ensures
            final(self).wf(),
            final(self).response_received.spec_has_key(event.request_id@),
            final(self).response_received.spec_get(event.request_id@) == event,
            forall|k: Seq<char>|
                k != event.request_id@ ==> final(self).response_received.spec_has_key(k) == old(
                    self,
                ).response_received.spec_has_key(k),
            Tab::identity_unchanged(old(self), final(self)),
            Tab::caches_unchanged(old(self), final(self)),
            final(self).ongoing_request == old(self).ongoing_request,
            final(self).request_intercepted == old(self).request_intercepted,
            Tab::misc_unchanged(old(self), final(self)),
    {
        let key = event.request_id.clone();
        self.response_received.insert(key, event);
    }

    /// Build the continuation for a paused request and settle its
    /// ledger entry. With a raw response the request is answered from
    /// it; without one the request is continued plainly, unmodified —
    /// so replaying every intercepted request lets the page finish
    /// loading. Fails, and changes nothing, exactly when no intercept
    /// with this id is outstanding: a continuation must match a prior
    /// intercept.
    pub fn continue_intercepted_request_with_raw_response(
        &mut self,
        interception_id: String,
        raw_response: Option<String>,
    ) -> (r: Result<TaskDescribe, ChromePageError>)
        requires
            old(self).wf(),
        ensures
            final(self).wf(),
            r is Ok <==> old(self).request_intercepted.spec_has_key(interception_id@),
            r matches Ok(task) ==> {
                &&& task matches TaskDescribe::TargetCallMethod(
                    TargetCallMethodTask::ContinueInterceptedRequest(t),
                ) && t.interception_id@ == interception_id@ && t.raw_response == raw_response
                    && t.error_reason is None && old(self).spec_common_ok(t.common_fields, None)
                &&& !final(self).request_intercepted.spec_has_key(interception_id@)
                &&& final(self).request_intercepted.len() == old(self).request_intercepted.len()
                    - 1
                &&& forall|k: Seq<char>|
                    k != interception_id@ ==> final(self).request_intercepted.spec_has_key(k)
                        == old(self).request_intercepted.spec_has_key(k)
                &&& forall|k: Seq<char>|
                    k != interception_id@ && old(self).request_intercepted.spec_has_key(k)
                        ==> final(self).request_intercepted.spec_get(k) == old(
                        self,
                    ).request_intercepted.spec_get(k)
            },
            r is Err ==> final(self).request_intercepted == old(self).request_intercepted,
            r matches Err(e) ==> e is StateTransition,
            Tab::identity_unchanged(old(self), final(self)),
            Tab::caches_unchanged(old(self), final(self)),
            final(self).ongoing_request == old(self).ongoing_request,
            final(self).response_received == old(self).response_received,
            Tab::misc_unchanged(old(self), final(self)),
    {
        if !self.request_intercepted.contains_key(&interception_id) {
            return Err(ChromePageError::StateTransition);
        }
        self.request_intercepted.remove(&interception_id);
        let common_fields = self.get_common_field(None);
        let task = ContinueInterceptedRequestTask {
            common_fields,
            interception_id,
            raw_response,
            error_reason: None,
        };
        Ok(
            TaskDescribe::TargetCallMethod(
                TargetCallMethodTask::ContinueInterceptedRequest(task),
            ),
        )
    }

    /// Build the abort of a paused request and settle its ledger
    /// entry: the request is refused with `error_reason`. Fails, and
    /// changes nothing, exactly when no intercept with this id is
    /// outstanding.
    pub fn abort_intercepted_request(
        &mut self,
        interception_id: String,
        error_reason: String,
    ) -> (r: Result<TaskDescribe, ChromePageError>)
        requires
            old(self).wf(),
        ensures
            final(self).wf(),
            r is Ok <==> old(self).request_intercepted.spec_has_key(interception_id@),
            r matches Ok(task) ==> {
                &&& task matches TaskDescribe::TargetCallMethod(
                    TargetCallMethodTask::ContinueInterceptedRequest(t),
                ) && t.interception_id@ == interception_id@ && t.raw_response is None
                    && t.error_reason == Some(error_reason) && old(self).spec_common_ok(
                    t.common_fields,
                    None,
                )
                &&& !final(self).request_intercepted.spec_has_key(interception_id@)
                &&& final(self).request_intercepted.len() == old(self).request_intercepted.len()
                    - 1
                &&& forall|k: Seq<char>|
                    k != interception_id@ ==> final(self).request_intercepted.spec_has_key(k)
                        == old(self).request_intercepted.spec_has_key(k)
                &&& forall|k: Seq<char>|
                    k != interception_id@ && old(self).request_intercepted.spec_has_key(k)
                        ==> final(self).request_intercepted.spec_get(k) == old(self).request_intercepted.spec_get(k)
            },
            r is Err ==> final(self).request_intercepted == old(self).request_intercepted,
            r matches Err(e) ==> e is StateTransition,
            Tab::identity_unchanged(old(self), final(self)),
            Tab::caches_unchanged(old(self), final(self)),
            final(self).ongoing_request == old(self).ongoing_request,
            final(self).response_received == old(self).response_received,
            Tab::misc_unchanged(old(self), final(self)),
    {
        if !self.request_intercepted.contains_key(&interception_id) {
            return Err(ChromePageError::StateTransition);
        }
        self.request_intercepted.remove(&interception_id);
        let common_fields = self.get_common_field(None);
        let task = ContinueInterceptedRequestTask {
            common_fields,
            interception_id,
            raw_response: None,
            error_reason: Some(error_reason),
        };
        Ok(
            TaskDescribe::TargetCallMethod(
                TargetCallMethodTask::ContinueInterceptedRequest(task),
            ),
        )
    }

    /// Build the request for the body of a paused response.
    pub fn get_response_body_for_interception(
        &self,
        interception_id: String,
        request_id: Option<String>,
    ) -> (r: TaskDescribe)
        ensures
            r matches TaskDescribe::TargetCallMethod(
                TargetCallMethodTask::GetResponseBodyForInterception(t),
            ) && t.interception_id@ == interception_id@ && t.request_id == request_id
                && t.task_result is None && self.spec_common_ok(t.common_fields, None),
    {
        let common_fields = self.get_common_field(None);
        TaskDescribe::TargetCallMethod(
            TargetCallMethodTask::GetResponseBodyForInterception(
                GetResponseBodyForInterceptionTask {
                    common_fields,
                    interception_id,
                    request_id,
                    task_result: None,
                },
            ),
        )
    }

    /// Build `Network.setRequestInterception` with the given patterns.
    pub fn set_request_interception_task_named(
        &self,
        patterns: Vec<RequestPattern>,
        name: TaskId,
    ) -> (r: SetRequestInterceptionTask)
        ensures
            r.patterns == patterns,
            self.spec_common_ok(r.common_fields, Some(name)),
    {
        SetRequestInterceptionTask {
            common_fields: self.get_common_field(Some(name)),
            patterns,
        }
    }

    /// Build `Page.navigate` towards `url`.
    pub fn navigate_to_task(&self, url: &str, manual_task_id: Option<TaskId>) -> (r: TaskDescribe)
        ensures
            r matches TaskDescribe::TargetCallMethod(TargetCallMethodTask::NavigateTo(t)) && t.url@
                == url@ && t.task_result is None && self.spec_common_ok(
                t.common_fields,
                manual_task_id,
            ),
    {
        let common_fields = self.get_common_field(manual_task_id);
        TaskDescribe::TargetCallMethod(
            TargetCallMethodTask::NavigateTo(
                NavigateToTask { common_fields, url: String::from_str(url), task_result: None },
            ),
        )
    }

    /// Build `Page.navigate` without a caller task id.
    pub fn navigate_to(&self, url: &str) -> (r: TaskDescribe)
        ensures
            r matches TaskDescribe::TargetCallMethod(TargetCallMethodTask::NavigateTo(t)) && t.url@
                == url@ && t.task_result is None && self.spec_common_ok(t.common_fields, None),
    {
        self.navigate_to_task(url, None)
    }

    /// Build `Page.navigate` labelled with the caller's task id.
    pub fn navigate_to_named(&self, url: &str, name: TaskId) -> (r: TaskDescribe)
        ensures
            r matches TaskDescribe::TargetCallMethod(TargetCallMethodTask::NavigateTo(t)) && t.url@
                == url@ && t.task_result is None && self.spec_common_ok(
                t.common_fields,
                Some(name),
            ),
    {
        self.navigate_to_task(url, Some(name))
    }

    /// Build `Page.reload`.
    pub fn reload_task(&self, ignore_cache: bool, manual_task_id: Option<TaskId>) -> (r:
        TaskDescribe)
        ensures
            r matches TaskDescribe::TargetCallMethod(TargetCallMethodTask::PageReload(t))
                && t.ignore_cache == ignore_cache && self.spec_common_ok(
                t.common_fields,
                manual_task_id,
            ),
    {
        let common_fields = self.get_common_field(manual_task_id);
        TaskDescribe::TargetCallMethod(
            TargetCallMethodTask::PageReload(PageReloadTask { common_fields, ignore_cache }),
        )
    }

    /// Build `Page.reload` without a caller task id.
    pub fn reload(&self, ignore_cache: bool) -> (r: TaskDescribe)
        ensures
            r matches TaskDescribe::TargetCallMethod(TargetCallMethodTask::PageReload(t))
                && t.ignore_cache == ignore_cache && self.spec_common_ok(t.common_fields, None),
    {
        self.reload_task(ignore_cache, None)
    }

    /// Build `Page.enable`.
    pub fn page_enable_task(&self) -> (r: TaskDescribe)
        ensures
            r matches TaskDescribe::TargetCallMethod(TargetCallMethodTask::PageEnable(t))
                && self.spec_common_ok(t.common_fields, None),
    {
        let common_fields = self.get_common_field(None);
        TaskDescribe::TargetCallMethod(
            TargetCallMethodTask::PageEnable(PageEnableTask { common_fields }),
        )
    }

    /// Build `Page.enable` without a caller task id.
    pub fn page_enable(&self) -> (r: TaskDescribe)
        ensures
            r matches TaskDescribe::TargetCallMethod(TargetCallMethodTask::PageEnable(t))
                && self.spec_common_ok(t.common_fields, None),
    {
        self.page_enable_task()
    }

    fn runtime_enable_impl(&self, manual_task_id: Option<TaskId>) -> (r: TaskDescribe)
        ensures
            r matches TaskDescribe::TargetCallMethod(TargetCallMethodTask::RuntimeEnable(t))
                && self.spec_common_ok(t.common_fields, manual_task_id),
    {
        let common_fields = self.get_common_field(manual_task_id);
        TaskDescribe::TargetCallMethod(
            TargetCallMethodTask::RuntimeEnable(RuntimeEnableTask { common_fields }),
        )
    }

    /// Build `Runtime.enable`.
    pub fn runtime_enable(&self) -> (r: TaskDescribe)
        ensures
            r matches TaskDescribe::TargetCallMethod(TargetCallMethodTask::RuntimeEnable(t))
                && self.spec_common_ok(t.common_fields, None),
    {
        self.runtime_enable_impl(None)
    }

    /// Build `Runtime.enable` labelled with the caller's task id.
    pub fn runtime_enable_named(&self, name: TaskId) -> (r: TaskDescribe)
        ensures
            r matches TaskDescribe::TargetCallMethod(TargetCallMethodTask::RuntimeEnable(t))
                && self.spec_common_ok(t.common_fields, Some(name)),
    {
        self.runtime_enable_impl(Some(name))
    }

    /// Build `Network.enable`.
    pub fn network_enable_task(&self, manual_task_id: Option<TaskId>) -> (r: TaskDescribe)
        ensures
            r matches TaskDescribe::TargetCallMethod(TargetCallMethodTask::NetworkEnable(t))
                && self.spec_common_ok(t.common_fields, manual_task_id),
    {
        let common_fields = self.get_common_field(manual_task_id);
        TaskDescribe::TargetCallMethod(
            TargetCallMethodTask::NetworkEnable(NetworkEnableTask { common_fields }),
        )
    }

    /// Build `Network.enable`.
    pub fn network_enable(&self, manual_task_id: Option<TaskId>) -> (r: TaskDescribe)
        ensures
            r matches TaskDescribe::TargetCallMethod(TargetCallMethodTask::NetworkEnable(t))
                && self.spec_common_ok(t.common_fields, manual_task_id),
    {
        self.network_enable_task(manual_task_id)
    }

    fn get_document_impl(&self, depth: Option<u8>, manual_task_id: Option<TaskId>) -> (r:
        TaskDescribe)
        ensures
            r matches TaskDescribe::TargetCallMethod(TargetCallMethodTask::GetDocument(t))
                && t.depth == depth && t.pierce == false && t.task_result is None
                && self.spec_common_ok(t.common_fields, manual_task_id),
    {
        let common_fields = self.get_common_field(manual_task_id);
        TaskDescribe::TargetCallMethod(
            TargetCallMethodTask::GetDocument(
                GetDocumentTask { common_fields, depth, pierce: false, task_result: None },
            ),
        )
    }

    /// Build `DOM.getDocument`.
    pub fn get_document(&self, depth: Option<u8>) -> (r: TaskDescribe)
        ensures
            r matches TaskDescribe::TargetCallMethod(TargetCallMethodTask::GetDocument(t))
                && t.depth == depth && t.pierce == false && t.task_result is None
                && self.spec_common_ok(t.common_fields, None),
    {
        self.get_document_impl(depth, None)
    }

    /// Build `DOM.getDocument` labelled with the caller's task id.
    pub fn get_document_named(&self, depth: Option<u8>, name: TaskId) -> (r: TaskDescribe)
        ensures
            r matches TaskDescribe::TargetCallMethod(TargetCallMethodTask::GetDocument(t))
                && t.depth == depth && t.pierce == false && t.task_result is None
                && self.spec_common_ok(t.common_fields, Some(name)),
    {
        self.get_document_impl(depth, Some(name))
    }

    /// Whether `tasks` is a get-document step followed by a selector
    /// query for `selector` labelled `manual_task_id`.
    pub open spec fn spec_query_selector_chain(
        &self,
        tasks: Seq<TaskDescribe>,
        selector: Seq<char>,
        manual_task_id: Option<TaskId>,
    ) -> bool {
        &&& tasks.len() == 2
        &&& tasks[0] matches TaskDescribe::TargetCallMethod(TargetCallMethodTask::GetDocument(g))
            && g.task_result is None && self.spec_common_ok(g.common_fields, None)
        &&& tasks[1] matches TaskDescribe::TargetCallMethod(TargetCallMethodTask::QuerySelector(q))
            && q.selector@ == selector && q.task_result is None && self.spec_common_ok(
            q.common_fields,
            manual_task_id,
        )
    }

    fn get_query_selector(&self, selector: &str, manual_task_id: Option<TaskId>) -> (r: Vec<
        TaskDescribe,
    >)
        ensures
            self.spec_query_selector_chain(r@, selector@, manual_task_id),
    {
        let get_document = self.get_document_impl(None, None);
        let common_fields = self.get_common_field(manual_task_id);
        let query = TaskDescribe::TargetCallMethod(
            TargetCallMethodTask::QuerySelector(
                QuerySelectorTask {
                    common_fields,
                    node_id: None,
                    selector: String::from_str(selector),
                    task_result: None,
                },
            ),
        );
        let mut out: Vec<TaskDescribe> = Vec::new();
        out.push(get_document);
        out.push(query);
        out
    }

    /// Build the task pair that caches the document and queries
    /// `selector` on it.
    pub fn query_selector_by_selector(&self, selector: &str) -> (r: Vec<TaskDescribe>)
        ensures
            self.spec_query_selector_chain(r@, selector@, None),
    {
        self.get_query_selector(selector, None)
    }

    /// As `query_selector_by_selector`, labelled with the caller's
    /// task id.
    pub fn query_selector_by_selector_named(&self, selector: &str, name: TaskId) -> (r: Vec<
        TaskDescribe,
    >)
        ensures
            self.spec_query_selector_chain(r@, selector@, Some(name)),
    {
        self.get_query_selector(selector, Some(name))
    }

    /// Build the chain that caches the document, queries `selector`
    /// and describes the found node.
    pub fn describe_node_by_selector(
        &self,
        selector: &str,
        depth: Option<i8>,
        manual_task_id: Option<TaskId>,
    ) -> (r: Vec<TaskDescribe>)
        ensures
            r@.len() == 3,
            self.spec_query_selector_chain(r@.subrange(0, 2), selector@, None),
            r@[2] matches TaskDescribe::TargetCallMethod(TargetCallMethodTask::DescribeNode(t)) && (
            t.selector matches Some(s) && s@ == selector@) && t.depth == depth
                && t.task_result is None && self.spec_common_ok(t.common_fields, manual_task_id),
    {
        let mut pre_tasks = self.get_query_selector(selector, None);
        let common_fields = self.get_common_field(manual_task_id);
        let describe = TaskDescribe::TargetCallMethod(
            TargetCallMethodTask::DescribeNode(
                DescribeNodeTask {
                    common_fields,
                    node_id: None,
                    backend_node_id: None,
                    selector: Some(String::from_str(selector)),
                    depth,
                    pierce: false,
                    task_result: None,
                },
            ),
        );
        let ghost chain_prefix = pre_tasks@;
        pre_tasks.push(describe);
        proof {
            assert(pre_tasks@.subrange(0, 2) =~= chain_prefix);
        }
        pre_tasks
    }

    fn describe_node_impl(
        &self,
        describe_node_task_builder: DescribeNodeTaskBuilder,
        manual_task_id: Option<TaskId>,
    ) -> (r: TaskDescribe)
        ensures
            r matches TaskDescribe::TargetCallMethod(TargetCallMethodTask::DescribeNode(t))
                && t.node_id == describe_node_task_builder.node_id && t.backend_node_id
                == describe_node_task_builder.backend_node_id && t.selector
                == describe_node_task_builder.selector && t.depth
                == describe_node_task_builder.depth && t.task_result is None
                && self.spec_common_ok(t.common_fields, manual_task_id),
    {
        let common_fields = self.get_common_field(manual_task_id);
        TaskDescribe::TargetCallMethod(
            TargetCallMethodTask::DescribeNode(describe_node_task_builder.build(common_fields)),
        )
    }

    /// Build `DOM.describeNode` from the caller's builder.
    pub fn describe_node(&self, describe_node_task_builder: DescribeNodeTaskBuilder) -> (r:
        TaskDescribe)
        ensures
            r matches TaskDescribe::TargetCallMethod(TargetCallMethodTask::DescribeNode(t))
                && t.node_id == describe_node_task_builder.node_id && t.selector
                == describe_node_task_builder.selector && t.task_result is None
                && self.spec_common_ok(t.common_fields, None),
    {
        self.describe_node_impl(describe_node_task_builder, None)
    }

    /// As `describe_node`, labelled with the caller's task id.
    pub fn describe_node_named(
        &self,
        describe_node_task_builder: DescribeNodeTaskBuilder,
        name: TaskId,
    ) -> (r: TaskDescribe)
        ensures
            r matches TaskDescribe::TargetCallMethod(TargetCallMethodTask::DescribeNode(t))
                && t.node_id == describe_node_task_builder.node_id && t.selector
                == describe_node_task_builder.selector && t.task_result is None
                && self.spec_common_ok(t.common_fields, Some(name)),
    {
        self.describe_node_impl(describe_node_task_builder, Some(name))
    }

    /// Build `DOM.querySelector` from the caller's builder. Fails
    /// exactly when the builder holds no selector.
    pub fn query_selector(
        &self,
        query_selector_task_builder: QuerySelectorTaskBuilder,
        manual_task_id: Option<TaskId>,
    ) -> (r: Result<TaskDescribe, ChromePageError>)
        ensures
            r is Ok <==> query_selector_task_builder.selector is Some,
            r matches Ok(task) ==> task matches TaskDescribe::TargetCallMethod(
                TargetCallMethodTask::QuerySelector(t),
            ) && Some(t.selector) == query_selector_task_builder.selector && t.node_id
                == query_selector_task_builder.node_id && t.task_result is None
                && self.spec_common_ok(t.common_fields, manual_task_id),
            r matches Err(e) ==> e is Builder,
    {
        let common_fields = self.get_common_field(manual_task_id);
        match query_selector_task_builder.build(common_fields) {
            Ok(task) => Ok(
                TaskDescribe::TargetCallMethod(TargetCallMethodTask::QuerySelector(task)),
            ),
            Err(e) => Err(e),
        }
    }

    fn get_box_model(&self, selector: &str, manual_task_id: Option<TaskId>) -> (r: Vec<
        TaskDescribe,
    >)
        ensures
            r@.len() == 3,
            self.spec_query_selector_chain(r@.subrange(0, 2), selector@, None),
            r@[2] matches TaskDescribe::TargetCallMethod(TargetCallMethodTask::GetBoxModel(t)) && (
            t.selector matches Some(s) && s@ == selector@) && t.task_result is None
                && self.spec_common_ok(t.common_fields, manual_task_id),
    {
        let mut pre_tasks = self.get_query_selector(selector, None);
        let common_fields = self.get_common_field(manual_task_id);
        let get_box = TaskDescribe::TargetCallMethod(
            TargetCallMethodTask::GetBoxModel(
                GetBoxModelTask {
                    common_fields,
                    node_id: None,
                    backend_node_id: None,
                    object_id: None,
                    selector: Some(String::from_str(selector)),
                    task_result: None,
                },
            ),
        );
        let ghost chain_prefix = pre_tasks@;
        pre_tasks.push(get_box);
        proof {
            assert(pre_tasks@.subrange(0, 2) =~= chain_prefix);
        }
        pre_tasks
    }

    /// Build the chain that finds `selector` and measures its box.
    pub fn get_box_model_by_selector(&self, selector: &str, manual_task_id: Option<TaskId>) -> (r:
        Vec<TaskDescribe>)
        ensures
            r@.len() == 3,
            self.spec_query_selector_chain(r@.subrange(0, 2), selector@, None),
            r@[2] matches TaskDescribe::TargetCallMethod(TargetCallMethodTask::GetBoxModel(t)) && (
            t.selector matches Some(s) && s@ == selector@) && t.task_result is None
                && self.spec_common_ok(t.common_fields, manual_task_id),
    {
        self.get_box_model(selector, manual_task_id)
    }

    /// Build the chain that finds `selector`, measures its box and
    /// captures a screenshot of it.
    pub fn capture_screenshot_by_selector(
        &self,
        selector: &str,
        format: ScreenshotFormat,
        from_surface: bool,
        manual_task_id: Option<TaskId>,
    ) -> (r: Vec<TaskDescribe>)
        ensures
            r@.len() == 4,
            self.spec_query_selector_chain(r@.subrange(0, 2), selector@, None),
            r@[2] matches TaskDescribe::TargetCallMethod(TargetCallMethodTask::GetBoxModel(t)) && (
            t.selector matches Some(s) && s@ == selector@) && self.spec_common_ok(
                t.common_fields,
                None,
            ),
            r@[3] matches TaskDescribe::TargetCallMethod(
                TargetCallMethodTask::CaptureScreenshot(t),
            ) && (t.selector matches Some(s) && s@ == selector@) && t.format == format
                && t.from_surface == from_surface && t.clip is None && t.task_result is None
                && self.spec_common_ok(t.common_fields, manual_task_id),
    {
        let mut pre_tasks = self.get_box_model(selector, None);
        let common_fields = self.get_common_field(manual_task_id);
        let screenshot = TaskDescribe::TargetCallMethod(
            TargetCallMethodTask::CaptureScreenshot(
                CaptureScreenshotTask {
                    common_fields,
                    selector: Some(String::from_str(selector)),
                    format,
                    clip: None,
                    from_surface,
                    task_result: None,
                },
            ),
        );
        let ghost chain_prefix = pre_tasks@;
        pre_tasks.push(screenshot);
        proof {
            assert(pre_tasks@.subrange(0, 2) =~= chain_prefix.subrange(0, 2));
        }
        pre_tasks
    }

    /// Build `Page.printToPDF` from the caller's builder, or from a
    /// default one.
    pub fn print_to_pdf(
        &self,
        manual_task_id: Option<TaskId>,
        task_builder: Option<PrintToPdfTaskBuilder>,
    ) -> (r: TaskDescribe)
        ensures
            r matches TaskDescribe::TargetCallMethod(TargetCallMethodTask::PrintToPDF(t))
                && t.task_result is None && self.spec_common_ok(t.common_fields, manual_task_id) && (
            task_builder matches Some(tb) ==> t.landscape == tb.landscape && t.print_background
                == tb.print_background && t.paper_width_thousandths == tb.paper_width_thousandths
                && t.paper_height_thousandths == tb.paper_height_thousandths && t.page_ranges
                == tb.page_ranges) && (task_builder is None ==> t.landscape is None
                && t.print_background is None && t.paper_width_thousandths is None
                && t.paper_height_thousandths is None && t.page_ranges is None),
    {
        let builder = match task_builder {
            Some(tb) => tb,
            None => PrintToPdfTaskBuilder::new(),
        };
        let common_fields = self.get_common_field(manual_task_id);
        TaskDescribe::TargetCallMethod(
            TargetCallMethodTask::PrintToPDF(builder.build(common_fields)),
        )
    }

    fn evaluate_expression_task_impl(&self, expression: &str, manual_task_id: Option<TaskId>) -> (r:
        TaskDescribe)
        ensures
            r matches TaskDescribe::TargetCallMethod(TargetCallMethodTask::RuntimeEvaluate(t))
                && t.expression@ == expression@ && t.context_id is None && t.silent is None
                && t.return_by_value is None && t.task_result is None
                && t.exception_details is None && self.spec_common_ok(
                t.common_fields,
                manual_task_id,
            ),
    {
        let common_fields = self.get_common_field(manual_task_id);
        let built = RuntimeEvaluateTaskBuilder::new().expression(String::from_str(expression)).build(
            common_fields,
        );
        match built {
            Ok(task) => TaskDescribe::TargetCallMethod(
                TargetCallMethodTask::RuntimeEvaluate(task),
            ),
            Err(_) => TaskDescribe::Fail,
        }
    }

    /// Build `Runtime.evaluate` for `expression`; the optional
    /// evaluate parameters stay unset.
    pub fn evaluate_expression(&self, expression: &str) -> (r: TaskDescribe)
        ensures
            r matches TaskDescribe::TargetCallMethod(TargetCallMethodTask::RuntimeEvaluate(t))
                && t.expression@ == expression@ && t.context_id is None && t.silent is None
                && t.return_by_value is None && t.task_result is None
                && t.exception_details is None && self.spec_common_ok(t.common_fields, None),
    {
        self.evaluate_expression_task_impl(expression, None)
    }

    /// Build `Runtime.evaluate` labelled with the caller's task id;
    /// the optional evaluate parameters stay unset.
    pub fn evaluate_expression_named(&self, expression: &str, name: TaskId) -> (r: TaskDescribe)
        ensures
            r matches TaskDescribe::TargetCallMethod(TargetCallMethodTask::RuntimeEvaluate(t))
                && t.expression@ == expression@ && t.context_id is None && t.silent is None
                && t.return_by_value is None && t.task_result is None
                && t.exception_details is None && self.spec_common_ok(t.common_fields, Some(name)),
    {
        self.evaluate_expression_task_impl(expression, Some(name))
    }

    fn evaluate_impl(
        &self,
        evaluate_task_builder: RuntimeEvaluateTaskBuilder,
        manual_task_id: Option<TaskId>,
    ) -> (r: Result<TaskDescribe, ChromePageError>)
        ensures
            r is Ok <==> evaluate_task_builder.expression is Some,
            r matches Ok(task) ==> task matches TaskDescribe::TargetCallMethod(
                TargetCallMethodTask::RuntimeEvaluate(t),
            ) && Some(t.expression) == evaluate_task_builder.expression && t.context_id
                == evaluate_task_builder.context_id && t.task_result is None
                && t.exception_details is None && self.spec_common_ok(
                t.common_fields,
                manual_task_id,
            ),
            r matches Err(e) ==> e is Builder,
    {
        let common_fields = self.get_common_field(manual_task_id);
        match evaluate_task_builder.build(common_fields) {
            Ok(task) => Ok(
                TaskDescribe::TargetCallMethod(TargetCallMethodTask::RuntimeEvaluate(task)),
            ),
            Err(e) => Err(e),
        }
    }

    /// Build `Runtime.evaluate` from the caller's builder. Fails
    /// exactly when the builder holds no expression.
    pub fn evaluate(&self, evaluate_task_builder: RuntimeEvaluateTaskBuilder) -> (r: Result<
        TaskDescribe,
        ChromePageError,
    >)
        ensures
            r is Ok <==> evaluate_task_builder.expression is Some,
            r matches Ok(task) ==> task matches TaskDescribe::TargetCallMethod(
                TargetCallMethodTask::RuntimeEvaluate(t),
            ) && Some(t.expression) == evaluate_task_builder.expression && t.context_id
                == evaluate_task_builder.context_id && t.task_result is None
                && self.spec_common_ok(t.common_fields, None),
            r matches Err(e) ==> e is Builder,
    {
        self.evaluate_impl(evaluate_task_builder, None)
    }

    /// As `evaluate`, labelled with the caller's task id.
    pub fn evaluate_named(
        &self,
        evaluate_task_builder: RuntimeEvaluateTaskBuilder,
        name: TaskId,
    ) -> (r: Result<TaskDescribe, ChromePageError>)
        ensures
            r is Ok <==> evaluate_task_builder.expression is Some,
            r matches Ok(task) ==> task matches TaskDescribe::TargetCallMethod(
                TargetCallMethodTask::RuntimeEvaluate(t),
            ) && Some(t.expression) == evaluate_task_builder.expression && t.context_id
                == evaluate_task_builder.context_id && t.task_result is None
                && self.spec_common_ok(t.common_fields, Some(name)),
            r matches Err(e) ==> e is Builder,
    {
        self.evaluate_impl(evaluate_task_builder, Some(name))
    }

    fn call_function_on_impl(
        &self,
        call_function_on_task_builder: RuntimeCallFunctionOnTaskBuilder,
        manual_task_id: Option<TaskId>,
    ) -> (r: Result<TaskDescribe, ChromePageError>)
        ensures
            r is Ok <==> call_function_on_task_builder.function_declaration is Some,
            r matches Ok(task) ==> task matches TaskDescribe::TargetCallMethod(
                TargetCallMethodTask::RuntimeCallFunctionOn(t),
            ) && Some(t.function_declaration)
                == call_function_on_task_builder.function_declaration && t.object_id
                == call_function_on_task_builder.object_id && t.task_result is None
                && self.spec_common_ok(t.common_fields, manual_task_id),
            r matches Err(e) ==> e is Builder,
    {
        let common_fields = self.get_common_field(manual_task_id);
        match call_function_on_task_builder.build(common_fields) {
            Ok(task) => Ok(
                TaskDescribe::TargetCallMethod(TargetCallMethodTask::RuntimeCallFunctionOn(task)),
            ),
            Err(e) => Err(e),
        }
    }

    /// Build `Runtime.callFunctionOn` from the caller's builder. Fails
    /// exactly when the builder holds no function declaration.
    pub fn call_function_on(
        &self,
        call_function_on_task_builder: RuntimeCallFunctionOnTaskBuilder,
    ) -> (r: Result<TaskDescribe, ChromePageError>)
        ensures
            r is Ok <==> call_function_on_task_builder.function_declaration is Some,
            r matches Ok(task) ==> task matches TaskDescribe::TargetCallMethod(
                TargetCallMethodTask::RuntimeCallFunctionOn(t),
            ) && Some(t.function_declaration)
                == call_function_on_task_builder.function_declaration && t.task_result is None
                && self.spec_common_ok(t.common_fields, None),
            r matches Err(e) ==> e is Builder,
    {
        self.call_function_on_impl(call_function_on_task_builder, None)
    }

    /// As `call_function_on`, labelled with the caller's task id.
    pub fn call_function_on_named(
        &self,
        call_function_on_task_builder: RuntimeCallFunctionOnTaskBuilder,
        name: TaskId,
    ) -> (r: Result<TaskDescribe, ChromePageError>)
        ensures
            r is Ok <==> call_function_on_task_builder.function_declaration is Some,
            r matches Ok(task) ==> task matches TaskDescribe::TargetCallMethod(
                TargetCallMethodTask::RuntimeCallFunctionOn(t),
            ) && Some(t.function_declaration)
                == call_function_on_task_builder.function_declaration && t.task_result is None
                && self.spec_common_ok(t.common_fields, Some(name)),
            r matches Err(e) ==> e is Builder,
    {
        self.call_function_on_impl(call_function_on_task_builder, Some(name))
    }

    /// Build `Runtime.getProperties` for one remote object.
    pub fn runtime_get_properties_by_object_id(
        &self,
        object_id: String,
        manual_task_id: Option<TaskId>,
    ) -> (r: TaskDescribe)
        ensures
            r matches TaskDescribe::TargetCallMethod(
                TargetCallMethodTask::RuntimeGetProperties(t),
            ) && t.object_id@ == object_id@ && t.task_result is None && self.spec_common_ok(
                t.common_fields,
                manual_task_id,
            ),
    {
        let common_fields = self.get_common_field(manual_task_id);
        match RuntimeGetPropertiesTaskBuilder::new().object_id(object_id).build(common_fields) {
            Ok(task) => TaskDescribe::TargetCallMethod(
                TargetCallMethodTask::RuntimeGetProperties(task),
            ),
            Err(_) => TaskDescribe::Fail,
        }
    }

    /// Build `Runtime.getProperties` from the caller's builder. Fails
    /// exactly when the builder holds no object id.
    pub fn runtime_get_properties(
        &self,
        get_properties_task_builder: RuntimeGetPropertiesTaskBuilder,
        manual_task_id: Option<TaskId>,
    ) -> (r: Result<TaskDescribe, ChromePageError>)
        ensures
            r is Ok <==> get_properties_task_builder.object_id is Some,
            r matches Ok(task) ==> task matches TaskDescribe::TargetCallMethod(
                TargetCallMethodTask::RuntimeGetProperties(t),
            ) && Some(t.object_id) == get_properties_task_builder.object_id
                && t.task_result is None && self.spec_common_ok(t.common_fields, manual_task_id),
            r matches Err(e) ==> e is Builder,
    {
        let common_fields = self.get_common_field(manual_task_id);
        match get_properties_task_builder.build(common_fields) {
            Ok(task) => Ok(
                TaskDescribe::TargetCallMethod(TargetCallMethodTask::RuntimeGetProperties(task)),
            ),
            Err(e) => Err(e),
        }
    }
}


/// A tab's session id is set exactly when a page-attached event has
/// been processed for it: well-formedness carries the equivalence at
/// every state.
pub proof fn lemma_session_iff_attached(t: &Tab)
    requires
        t.wf(),
    ensures
        t.session_id is Some <==> t.event_statistics.page_attached > 0,
{
}

/// Within one load cycle — its events arriving in the legal order
/// attached, started-loading, navigated, stopped-loading, with any
/// prefix possibly missing — a frame record's rank never decreases,
/// and a stopped-loading record is never downgraded by a
/// stopped-loading event. A navigated record is reset only by the
/// events of a later cycle (a fresh attach, start or navigation),
/// which this statement leaves out.
pub proof fn lemma_frame_rank_monotone(
    prior: Option<ChangingFrame>,
    params: FrameAttachedParams,
    started_id: String,
    navigated: Frame,
)
    ensures
        rank_opt(prior) <= 0 ==> rank_opt(Some(ChangingFrame::Attached(params))) >= rank_opt(
            prior,
        ),
        rank_opt(prior) <= 1 ==> rank_opt(Some(ChangingFrame::StartedLoading(started_id)))
            >= rank_opt(prior),
        rank_opt(prior) <= 2 ==> rank_opt(Some(ChangingFrame::Navigated(navigated))) >= rank_opt(
            prior,
        ),
        rank_opt(frame_stopped_loading_step(prior)) >= rank_opt(prior),
        prior matches Some(p) && p is StoppedLoading ==> frame_stopped_loading_step(prior)
            == prior,
{
}

/// Dropping the contexts of one id is idempotent: a second destroyed
/// event for the same id leaves the context map as the first left it.
pub proof fn lemma_context_destroyed_idempotent(
    m1: &StrMap<ExecutionContextDescription>,
    m2: &StrMap<ExecutionContextDescription>,
    m3: &StrMap<ExecutionContextDescription>,
    id: u64,
)
    requires
        contexts_destroyed(m1, m2, id),
        contexts_destroyed(m2, m3, id),
    ensures
        forall|k: Seq<char>| m3.spec_has_key(k) == m2.spec_has_key(k),
        forall|k: Seq<char>| #[trigger] m3.spec_has_key(k) ==> m3.spec_get(k) == m2.spec_get(k),
{
    assert forall|k: Seq<char>| m3.spec_has_key(k) == m2.spec_has_key(k) by {
        if m2.spec_has_key(k) {
            assert(m1.spec_has_key(k) && m1.spec_get(k).id != id);
            assert(m2.spec_get(k) == m1.spec_get(k));
            assert(m2.spec_get(k).id != id);
            assert(m3.spec_has_key(k));
        } else {
            if m3.spec_has_key(k) {
                assert(m2.spec_has_key(k));
            }
        }
    }
}

/// How many entries of `kinds` are intercept events.
pub open spec fn count_intercepts(kinds: Seq<bool>) -> int
    decreases kinds.len(),
{
    if kinds.len() == 0 {
        0
    } else {
        count_intercepts(kinds.drop_last()) + if kinds.last() {
            1int
        } else {
            0int
        }
    }
}

/// The interception ledger balances: starting from an empty ledger, a
/// run of events in which each intercept grows the ledger by one and
/// each continuation, matching a live record, shrinks it by one leaves
/// exactly `intercepts - continuations` records. `lens` are the ledger
/// sizes observed along the run; `kinds[i]` is true for an intercept.
pub proof fn lemma_interception_balance(lens: Seq<int>, kinds: Seq<bool>)
    requires
        lens.len() == kinds.len() + 1,
        lens[0] == 0,
        forall|i: int|
            0 <= i < kinds.len() ==> lens[i + 1] == lens[i] + (if kinds[i] {
                1int
            } else {
                -1int
            }),
    ensures
        lens.last() == count_intercepts(kinds) - (kinds.len() - count_intercepts(kinds)),
    decreases kinds.len(),
{
    if kinds.len() == 0 {
    } else {
        let shorter_lens = lens.drop_last();
        let shorter_kinds = kinds.drop_last();
        assert(shorter_lens.len() == shorter_kinds.len() + 1);
        assert forall|i: int|
            0 <= i < shorter_kinds.len() implies shorter_lens[i + 1] == shorter_lens[i] + (
        if shorter_kinds[i] {
            1int
        } else {
            -1int
        }) by {
            assert(lens[i + 1] == lens[i] + (if kinds[i] {
                1int
            } else {
                -1int
            }));
        }
        lemma_interception_balance(shorter_lens, shorter_kinds);
        assert(lens.last() == lens[kinds.len() - 1] + (if kinds.last() {
            1int
        } else {
            -1int
        }));
    }
}

} // verus!

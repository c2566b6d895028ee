//! What the consumer sees: one `PageResponseWrapper` per poll, and the
//! per-frame lifecycle record kept inside each tab.

use vstd::prelude::*;

use crate::protocol_model::{Frame, FrameAttachedParams, TargetInfo};
use crate::task_describe::{
    BringToFrontTask, CaptureScreenshotTask, ContinueInterceptedRequestTask, CreateTargetTask,
    DescribeNodeTask,
    GetBoxModelTask, GetDocumentTask, GetLayoutMetricsTask, GetResponseBodyForInterceptionTask,
    NavigateToTask, NetworkEnableTask, PageCloseTask, PageEnableTask, PageReloadTask,
    PrintToPdfTask, QuerySelectorTask, RuntimeCallFunctionOnTask, RuntimeEnableTask,
    RuntimeEvaluateTask, RuntimeGetPropertiesTask, SetRequestInterceptionTask,
};
use crate::{SessionId, TaskId};

verus! {

/// Lifecycle record of one frame inside a tab.
///
/// A frame legally progresses `Attached -> StartedLoading -> Navigated
/// -> StoppedLoading`; Chrome may omit leading events, in which case
/// the record is synthesised from whichever event arrives first.
pub enum ChangingFrame {
    Attached(FrameAttachedParams),
    StartedLoading(String),
    Navigated(Frame),
    StoppedLoading(Frame),
}

impl ChangingFrame {
    /// Position of the record on the lifecycle path.
    pub open spec fn rank(&self) -> int {
        match self {
            ChangingFrame::Attached(_) => 0,
            ChangingFrame::StartedLoading(_) => 1,
            ChangingFrame::Navigated(_) => 2,
            ChangingFrame::StoppedLoading(_) => 3,
        }
    }

    /// Promote a navigated frame to stopped-loading; any other state is
    /// left unchanged (the frame never reached navigation, e.g. a
    /// network error page).
    pub fn to_stopped_loading(&mut self)
        ensures
            *old(self) matches ChangingFrame::Navigated(f) ==> *final(self)
                == ChangingFrame::StoppedLoading(f),
            !(*old(self) is Navigated) ==> *final(self) == *old(self),
            final(self).rank() >= old(self).rank(),
    {
        match self {
            ChangingFrame::Navigated(fm) => {
                let frame = fm.clone();
                *self = ChangingFrame::StoppedLoading(frame);
            },
            _ => {},
        }
    }

    /// Replace the record by a navigated state carrying `frame`.
    pub fn to_navigated(&mut self, frame: Frame)
        ensures
            *final(self) == ChangingFrame::Navigated(frame),
    {
        *self = ChangingFrame::Navigated(frame);
    }
}

impl Clone for ChangingFrame {
    fn clone(&self) -> (r: Self)
        ensures
            r == self,
    {
        match self {
            ChangingFrame::Attached(p) => ChangingFrame::Attached(p.clone()),
            ChangingFrame::StartedLoading(s) => ChangingFrame::StartedLoading(s.clone()),
            ChangingFrame::Navigated(f) => ChangingFrame::Navigated(f.clone()),
            ChangingFrame::StoppedLoading(f) => ChangingFrame::StoppedLoading(f.clone()),
        }
    }
}

/// Names of the page-domain events a consumer can wait for.
#[derive(Clone, Copy, PartialEq, Eq, Structural, Debug)]
pub enum PageEventName {
    DomContentEventFired,
    FrameAttached,
    FrameDetached,
    FrameNavigated,
    InterstitialHidden,
    InterstitialShown,
    JavascriptDialogClosed,
    JavascriptDialogOpening,
    LifecycleEvent,
    LoadEventFired,
    WindowOpen,
}

/// A completed screenshot, as handed to the consumer.
pub struct CaptureScreenshot {
    pub selector: Option<String>,
    pub base64: Option<String>,
}

/// A finished method call, carrying its task descriptor with the
/// decoded result inside.
pub enum MethodCallDone {
    Navigate(NavigateToTask),
    GetDocument(GetDocumentTask),
    QuerySelector(QuerySelectorTask),
    DescribeNode(DescribeNodeTask),
    GetBoxModel(GetBoxModelTask),
    PrintToPdf(PrintToPdfTask),
    PageEnabled(PageEnableTask),
    PageReloaded(PageReloadTask),
    PageClosed(PageCloseTask),
    BringToFront(BringToFrontTask),
    GetLayoutMetrics(GetLayoutMetricsTask),
    RuntimeEnabled(RuntimeEnableTask),
    NetworkEnabled(NetworkEnableTask),
    CaptureScreenshot(CaptureScreenshot),
    Evaluate(RuntimeEvaluateTask),
    GetProperties(RuntimeGetPropertiesTask),
    CallFunctionOn(RuntimeCallFunctionOnTask),
    SetRequestInterception(SetRequestInterceptionTask),
    ContinueInterceptedRequest(ContinueInterceptedRequestTask),
    GetResponseBodyForInterception(GetResponseBodyForInterceptionTask),
    CreateTarget(CreateTargetTask),
}

/// One item of the consumer stream: either a browser-originated event
/// applied to tab state, or the completion of an issued method call.
pub enum PageResponse {
    ChromeConnected,
    SecondsElapsed(u64),
    PageCreated(usize),
    PageAttached(TargetInfo, SessionId),
    TargetInfoChanged,
    FrameAttached(String),
    FrameStartedLoading(String),
    FrameNavigated(String),
    FrameStoppedLoading(String),
    FrameDetached(String),
    LoadEventFired(u64),
    SetChildNodes(u64, usize),
    RuntimeExecutionContextCreated(Option<String>),
    RuntimeExecutionContextDestroyed(u64),
    ConsoleAPICalled(bool),
    RequestWillBeSent(String),
    RequestIntercepted(String),
    ResponseReceived(String),
    TargetSetDiscoverTargetsDone(bool),
    MethodCallDone(MethodCallDone),
    Fail,
}

/// A `PageResponse` together with the target it concerns and the
/// caller-assigned id of the task it completes, where either applies.
pub struct PageResponseWrapper {
    pub target_id: Option<String>,
    pub task_id: Option<TaskId>,
    pub page_response: PageResponse,
}

impl Default for PageResponseWrapper {
    fn default() -> (r: Self)
        ensures
            r.target_id is None,
            r.task_id is None,
            r.page_response is Fail,
    {
        PageResponseWrapper { target_id: None, task_id: None, page_response: PageResponse::Fail }
    }
}

} // verus!

//! Dispatch of finished method calls: each resolved task descriptor is
//! turned into the `PageResponseWrapper` the consumer sees, after any
//! tab state it carries has been applied.

use vstd::prelude::*;

use crate::debug_session::{no_tab_with_id, tabs_updated_at, DebugSession};
use crate::errors::ChromePageError;
use crate::page_message::{CaptureScreenshot, MethodCallDone, PageResponse, PageResponseWrapper};
use crate::tab::node_returned_effect;
use crate::task_describe::TargetCallMethodTask;
use crate::SessionId;

verus! {

/// The view of an optional string reference.
pub open spec fn opt_ref_view(v: Option<String>) -> Option<Seq<char>> {
    match v {
        Some(t) => Some(t@),
        None => None,
    }
}

/// Whether a finished `task` demands a tab to store its result on:
/// `DOM.getDocument` caches the root node and `DOM.describeNode` the
/// described node; every other completion only answers the consumer.
pub open spec fn needs_tab(task: &TargetCallMethodTask) -> bool {
    task is GetDocument || task is DescribeNode
}

/// The response a finished `task` yields: it carries the descriptor's
/// task id, and the completion kind matches the task kind with the
/// resolved descriptor inside.
pub open spec fn spec_method_done_response(
    task: &TargetCallMethodTask,
    w: &PageResponseWrapper,
) -> bool {
    &&& w.task_id == task.spec_common_fields().task_id
    &&& match task {
        TargetCallMethodTask::NavigateTo(t) => match &w.page_response {
            PageResponse::MethodCallDone(MethodCallDone::Navigate(t2)) => t2 == t,
            _ => false,
        },
        TargetCallMethodTask::QuerySelector(t) => match &w.page_response {
            PageResponse::MethodCallDone(MethodCallDone::QuerySelector(t2)) => t2 == t,
            _ => false,
        },
        TargetCallMethodTask::DescribeNode(t) => match &w.page_response {
            PageResponse::MethodCallDone(MethodCallDone::DescribeNode(t2)) => t2 == t,
            _ => false,
        },
        TargetCallMethodTask::PrintToPDF(t) => match &w.page_response {
            PageResponse::MethodCallDone(MethodCallDone::PrintToPdf(t2)) => t2 == t,
            _ => false,
        },
        TargetCallMethodTask::GetBoxModel(t) => match &w.page_response {
            PageResponse::MethodCallDone(MethodCallDone::GetBoxModel(t2)) => t2 == t,
            _ => false,
        },
        TargetCallMethodTask::GetDocument(t) => match &w.page_response {
            PageResponse::MethodCallDone(MethodCallDone::GetDocument(t2)) => t2 == t,
            _ => false,
        },
        TargetCallMethodTask::PageEnable(t) => match &w.page_response {
            PageResponse::MethodCallDone(MethodCallDone::PageEnabled(t2)) => t2 == t,
            _ => false,
        },
        TargetCallMethodTask::PageClose(t) => match &w.page_response {
            PageResponse::MethodCallDone(MethodCallDone::PageClosed(t2)) => t2 == t,
            _ => false,
        },
        TargetCallMethodTask::GetLayoutMetrics(t) => match &w.page_response {
            PageResponse::MethodCallDone(MethodCallDone::GetLayoutMetrics(t2)) => t2 == t,
            _ => false,
        },
        TargetCallMethodTask::BringToFront(t) => match &w.page_response {
            PageResponse::MethodCallDone(MethodCallDone::BringToFront(t2)) => t2 == t,
            _ => false,
        },
        TargetCallMethodTask::RuntimeEnable(t) => match &w.page_response {
            PageResponse::MethodCallDone(MethodCallDone::RuntimeEnabled(t2)) => t2 == t,
            _ => false,
        },
        TargetCallMethodTask::CaptureScreenshot(t) => match &w.page_response {
            PageResponse::MethodCallDone(MethodCallDone::CaptureScreenshot(ro)) => ro.selector
                == t.selector && ro.base64 == t.task_result,
            _ => false,
        },
        TargetCallMethodTask::RuntimeEvaluate(t) => match &w.page_response {
            PageResponse::MethodCallDone(MethodCallDone::Evaluate(t2)) => t2 == t,
            _ => false,
        },
        TargetCallMethodTask::RuntimeGetProperties(t) => match &w.page_response {
            PageResponse::MethodCallDone(MethodCallDone::GetProperties(t2)) => t2 == t,
            _ => false,
        },
        TargetCallMethodTask::RuntimeCallFunctionOn(t) => match &w.page_response {
            PageResponse::MethodCallDone(MethodCallDone::CallFunctionOn(t2)) => t2 == t,
            _ => false,
        },
        TargetCallMethodTask::NetworkEnable(t) => match &w.page_response {
            PageResponse::MethodCallDone(MethodCallDone::NetworkEnabled(t2)) => t2 == t,
            _ => false,
        },
        TargetCallMethodTask::SetRequestInterception(t) => match &w.page_response {
            PageResponse::MethodCallDone(MethodCallDone::SetRequestInterception(t2)) => t2 == t,
            _ => false,
        },
        TargetCallMethodTask::ContinueInterceptedRequest(t) => match &w.page_response {
            PageResponse::MethodCallDone(MethodCallDone::ContinueInterceptedRequest(t2)) => t2
                == t,
            _ => false,
        },
        TargetCallMethodTask::GetResponseBodyForInterception(t) => match &w.page_response {
            PageResponse::MethodCallDone(MethodCallDone::GetResponseBodyForInterception(t2)) => t2
                == t,
            _ => false,
        },
        TargetCallMethodTask::PageReload(t) => match &w.page_response {
            PageResponse::MethodCallDone(MethodCallDone::PageReloaded(t2)) => t2 == t,
            _ => false,
        },
        TargetCallMethodTask::CreateTarget(t) => match &w.page_response {
            PageResponse::MethodCallDone(MethodCallDone::CreateTarget(t2)) => t2 == t,
            _ => false,
        },
        TargetCallMethodTask::TargetSetDiscoverTargets(enable, _) => match &w.page_response {
            PageResponse::TargetSetDiscoverTargetsDone(e2) => e2 == enable,
            _ => false,
        },
    }
}

/// Turn one finished method call into the response the consumer sees.
///
/// A completed `DOM.getDocument` caches its root node on the owning
/// tab, and a completed `DOM.describeNode` stores the described node;
/// only those two kinds fail — with `TabNotFound`, changing nothing —
/// and they do so exactly when no tab owns the target id. Every other
/// kind succeeds, and every success carries the handed-in target id
/// and the descriptor's task id.
pub fn handle_target_method_call(
    debug_session: &mut DebugSession,
    target_call_method_task: TargetCallMethodTask,
    _maybe_session_id: Option<SessionId>,
    maybe_target_id: Option<String>,
) -> (r: Result<PageResponseWrapper, ChromePageError>)
    requires
        old(debug_session).wf(),
    ensures
        final(debug_session).wf(),
        final(debug_session).pending == old(debug_session).pending,
        final(debug_session).call_ids == old(debug_session).call_ids,
        final(debug_session).task_ids == old(debug_session).task_ids,
        final(debug_session).seconds_from_start == old(debug_session).seconds_from_start,
        final(debug_session).flag == old(debug_session).flag,
        final(debug_session).tabs@.len() == old(debug_session).tabs@.len(),
        r is Err <==> needs_tab(&target_call_method_task) && no_tab_with_id(
            old(debug_session).tabs@,
            opt_ref_view(maybe_target_id),
        ),
        r matches Err(e) ==> e is TabNotFound && *final(debug_session) == *old(debug_session),
        r matches Ok(w) ==> w.target_id == maybe_target_id && spec_method_done_response(
            &target_call_method_task,
            &w,
        ),
        !needs_tab(&target_call_method_task) ==> final(debug_session).tabs == old(
            debug_session,
        ).tabs,
        target_call_method_task matches TargetCallMethodTask::GetDocument(t) ==> r is Ok
            ==> exists|i: int|
            {
                &&& tabs_updated_at(old(debug_session).tabs@, final(debug_session).tabs@, i)
                &&& #[trigger] final(debug_session).tabs@[i] == (crate::tab::Tab {
                    root_node: t.task_result,
                    ..old(debug_session).tabs@[i]
                })
            },
        target_call_method_task matches TargetCallMethodTask::DescribeNode(t) ==> r is Ok
            ==> exists|i: int|
            {
                &&& tabs_updated_at(old(debug_session).tabs@, final(debug_session).tabs@, i)
                &&& node_returned_effect(
                    &old(debug_session).tabs@[i],
                    &(#[trigger] final(debug_session).tabs@[i]),
                    t.task_result,
                )
            },
{
    match target_call_method_task {
        TargetCallMethodTask::GetDocument(task) => {
            let root = match &task.task_result {
                Some(n) => Some(n.clone()),
                None => None,
            };
            match debug_session.set_root_node(maybe_target_id.as_ref(), root) {
                Ok(_) => {},
                Err(e) => {
                    return Err(e);
                },
            }
            Ok(
                PageResponseWrapper {
                    target_id: maybe_target_id,
                    task_id: task.common_fields.task_id,
                    page_response: PageResponse::MethodCallDone(MethodCallDone::GetDocument(task)),
                },
            )
        },
        TargetCallMethodTask::DescribeNode(task) => {
            let node = match &task.task_result {
                Some(n) => Some(n.clone()),
                None => None,
            };
            match debug_session.store_returned_node(maybe_target_id.as_ref(), node) {
                Ok(_) => {},
                Err(e) => {
                    return Err(e);
                },
            }
            Ok(
                PageResponseWrapper {
                    target_id: maybe_target_id,
                    task_id: task.common_fields.task_id,
                    page_response: PageResponse::MethodCallDone(MethodCallDone::DescribeNode(task)),
                },
            )
        },
        TargetCallMethodTask::NavigateTo(task) => Ok(
            PageResponseWrapper {
                target_id: maybe_target_id,
                task_id: task.common_fields.task_id,
                page_response: PageResponse::MethodCallDone(MethodCallDone::Navigate(task)),
            },
        ),
        TargetCallMethodTask::QuerySelector(task) => Ok(
            PageResponseWrapper {
                target_id: maybe_target_id,
                task_id: task.common_fields.task_id,
                page_response: PageResponse::MethodCallDone(MethodCallDone::QuerySelector(task)),
            },
        ),
        TargetCallMethodTask::PrintToPDF(task) => Ok(
            PageResponseWrapper {
                target_id: maybe_target_id,
                task_id: task.common_fields.task_id,
                page_response: PageResponse::MethodCallDone(MethodCallDone::PrintToPdf(task)),
            },
        ),
        TargetCallMethodTask::GetBoxModel(task) => Ok(
            PageResponseWrapper {
                target_id: maybe_target_id,
                task_id: task.common_fields.task_id,
                page_response: PageResponse::MethodCallDone(MethodCallDone::GetBoxModel(task)),
            },
        ),
        TargetCallMethodTask::PageEnable(task) => Ok(
            PageResponseWrapper {
                target_id: maybe_target_id,
                task_id: task.common_fields.task_id,
                page_response: PageResponse::MethodCallDone(MethodCallDone::PageEnabled(task)),
            },
        ),
        TargetCallMethodTask::PageClose(task) => Ok(
            PageResponseWrapper {
                target_id: maybe_target_id,
                task_id: task.common_fields.task_id,
                page_response: PageResponse::MethodCallDone(MethodCallDone::PageClosed(task)),
            },
        ),
        TargetCallMethodTask::GetLayoutMetrics(task) => Ok(
            PageResponseWrapper {
                target_id: maybe_target_id,
                task_id: task.common_fields.task_id,
                page_response: PageResponse::MethodCallDone(MethodCallDone::GetLayoutMetrics(task)),
            },
        ),
        TargetCallMethodTask::BringToFront(task) => Ok(
            PageResponseWrapper {
                target_id: maybe_target_id,
                task_id: task.common_fields.task_id,
                page_response: PageResponse::MethodCallDone(MethodCallDone::BringToFront(task)),
            },
        ),
        TargetCallMethodTask::RuntimeEnable(task) => Ok(
            PageResponseWrapper {
                target_id: maybe_target_id,
                task_id: task.common_fields.task_id,
                page_response: PageResponse::MethodCallDone(MethodCallDone::RuntimeEnabled(task)),
            },
        ),
        TargetCallMethodTask::CaptureScreenshot(task) => {
            let ro = CaptureScreenshot { selector: task.selector, base64: task.task_result };
            Ok(
                PageResponseWrapper {
                    target_id: maybe_target_id,
                    task_id: task.common_fields.task_id,
                    page_response: PageResponse::MethodCallDone(
                        MethodCallDone::CaptureScreenshot(ro),
                    ),
                },
            )
        },
        TargetCallMethodTask::RuntimeEvaluate(task) => Ok(
            PageResponseWrapper {
                target_id: maybe_target_id,
                task_id: task.common_fields.task_id,
                page_response: PageResponse::MethodCallDone(MethodCallDone::Evaluate(task)),
            },
        ),
        TargetCallMethodTask::RuntimeGetProperties(task) => Ok(
            PageResponseWrapper {
                target_id: maybe_target_id,
                task_id: task.common_fields.task_id,
                page_response: PageResponse::MethodCallDone(MethodCallDone::GetProperties(task)),
            },
        ),
        TargetCallMethodTask::RuntimeCallFunctionOn(task) => Ok(
            PageResponseWrapper {
                target_id: maybe_target_id,
                task_id: task.common_fields.task_id,
                page_response: PageResponse::MethodCallDone(MethodCallDone::CallFunctionOn(task)),
            },
        ),
        TargetCallMethodTask::NetworkEnable(task) => Ok(
            PageResponseWrapper {
                target_id: maybe_target_id,
                task_id: task.common_fields.task_id,
                page_response: PageResponse::MethodCallDone(MethodCallDone::NetworkEnabled(task)),
            },
        ),
        TargetCallMethodTask::SetRequestInterception(task) => Ok(
            PageResponseWrapper {
                target_id: maybe_target_id,
                task_id: task.common_fields.task_id,
                page_response: PageResponse::MethodCallDone(
                    MethodCallDone::SetRequestInterception(task),
                ),
            },
        ),
        TargetCallMethodTask::ContinueInterceptedRequest(task) => Ok(
            PageResponseWrapper {
                target_id: maybe_target_id,
                task_id: task.common_fields.task_id,
                page_response: PageResponse::MethodCallDone(
                    MethodCallDone::ContinueInterceptedRequest(task),
                ),
            },
        ),
        TargetCallMethodTask::GetResponseBodyForInterception(task) => Ok(
            PageResponseWrapper {
                target_id: maybe_target_id,
                task_id: task.common_fields.task_id,
                page_response: PageResponse::MethodCallDone(
                    MethodCallDone::GetResponseBodyForInterception(task),
                ),
            },
        ),
        TargetCallMethodTask::PageReload(task) => Ok(
            PageResponseWrapper {
                target_id: maybe_target_id,
                task_id: task.common_fields.task_id,
                page_response: PageResponse::MethodCallDone(MethodCallDone::PageReloaded(task)),
            },
        ),
        TargetCallMethodTask::CreateTarget(task) => Ok(
            PageResponseWrapper {
                target_id: maybe_target_id,
                task_id: task.common_fields.task_id,
                page_response: PageResponse::MethodCallDone(MethodCallDone::CreateTarget(task)),
            },
        ),
        TargetCallMethodTask::TargetSetDiscoverTargets(enable, cf) => Ok(
            PageResponseWrapper {
                target_id: maybe_target_id,
                task_id: cf.task_id,
                page_response: PageResponse::TargetSetDiscoverTargetsDone(enable),
            },
        ),
    }
}

/// The response for a method call whose CDP reply carried an error:
/// a `Fail` bearing the handed-in target id and the descriptor's task
/// id, so the caller that waits on the id learns of the failure. The
/// failure stays per-task; the stream goes on.
pub fn fail_response_for(task: &TargetCallMethodTask, maybe_target_id: Option<String>) -> (r:
    PageResponseWrapper)
    ensures
        r.page_response is Fail,
        r.task_id == task.spec_common_fields().task_id,
        r.target_id == maybe_target_id,
{
    PageResponseWrapper {
        target_id: maybe_target_id,
        task_id: task.get_task_id(),
        page_response: PageResponse::Fail,
    }
}

} // verus!

//! The task-descriptor taxonomy: every logical operation the engine
//! can issue or receive, with the common correlation fields each one
//! carries.

use vstd::prelude::*;

use crate::errors::ChromePageError;
use crate::protocol_model::{
    BoxModel, ConsoleAPICalledParams, ExceptionDetails, ExecutionContextDescription, Frame,
    FrameAttachedParams, Node, PropertyDescriptor, RemoteObject, RequestIntercepted,
    RequestWillBeSent, ResponseReceived, ScreenshotFormat, TargetInfo, Viewport,
};
use crate::{CallId, SessionId, TaskId};

verus! {

/// Correlation fields shared by every task descriptor: which target
/// and session the task concerns, the task id the completion is
/// correlated by, and the call id of the wire call. The caller may
/// choose the task id; when it does not, the engine mints a fresh
/// unique one at submission, and it stamps the allocated call id at
/// the same moment.
pub struct CommonDescribeFields {
    pub target_id: Option<String>,
    pub session_id: Option<SessionId>,
    pub task_id: Option<TaskId>,
    pub call_id: CallId,
}

impl Clone for CommonDescribeFields {
    fn clone(&self) -> (r: Self)
        ensures
            r == self,
    {
        CommonDescribeFields {
            target_id: match &self.target_id {
                Some(s) => Some(s.clone()),
                None => None,
            },
            session_id: match &self.session_id {
                Some(s) => Some(s.clone()),
                None => None,
            },
            task_id: self.task_id,
            call_id: self.call_id,
        }
    }
}

/// Builder for `CommonDescribeFields`. A task id the caller does not
/// choose is left unset here — the engine mints a fresh unique one at
/// submission — and the call id is always stamped at submission.
pub struct CommonDescribeFieldsBuilder {
    pub target_id: Option<String>,
    pub session_id: Option<SessionId>,
    pub task_id: Option<TaskId>,
}

impl CommonDescribeFieldsBuilder {
    pub fn new() -> (r: Self)
        ensures
            r.target_id is None,
            r.session_id is None,
            r.task_id is None,
    {
        CommonDescribeFieldsBuilder { target_id: None, session_id: None, task_id: None }
    }

    pub fn target_id(self, target_id: String) -> (r: Self)
        ensures
            r.target_id == Some(target_id),
            r.session_id == self.session_id,
            r.task_id == self.task_id,
    {
        CommonDescribeFieldsBuilder { target_id: Some(target_id), ..self }
    }

    pub fn session_id(self, session_id: Option<SessionId>) -> (r: Self)
        ensures
            r.session_id == session_id,
            r.target_id == self.target_id,
            r.task_id == self.task_id,
    {
        CommonDescribeFieldsBuilder { session_id, ..self }
    }

    /// Record a task id; handing `None` leaves any earlier choice in
    /// place.
    pub fn task_id(self, task_id: Option<TaskId>) -> (r: Self)
        ensures
            task_id is Some ==> r.task_id == task_id,
            task_id is None ==> r.task_id == self.task_id,
            r.target_id == self.target_id,
            r.session_id == self.session_id,
    {
        match task_id {
            Some(t) => CommonDescribeFieldsBuilder { task_id: Some(t), ..self },
            None => self,
        }
    }

    pub fn build(self) -> (r: CommonDescribeFields)
        ensures
            r.target_id == self.target_id,
            r.session_id == self.session_id,
            r.task_id == self.task_id,
            r.call_id == 0,
    {
        CommonDescribeFields {
            target_id: self.target_id,
            session_id: self.session_id,
            task_id: self.task_id,
            call_id: 0,
        }
    }
}

/// `Page.navigate`.
pub struct NavigateToTask {
    pub common_fields: CommonDescribeFields,
    pub url: String,
    pub task_result: Option<String>,
}

/// `Page.reload`.
pub struct PageReloadTask {
    pub common_fields: CommonDescribeFields,
    pub ignore_cache: bool,
}

/// `Page.enable`.
pub struct PageEnableTask {
    pub common_fields: CommonDescribeFields,
}

/// `Page.close`.
pub struct PageCloseTask {
    pub common_fields: CommonDescribeFields,
}

/// `Page.bringToFront`.
pub struct BringToFrontTask {
    pub common_fields: CommonDescribeFields,
}

/// `Page.getLayoutMetrics`.
pub struct GetLayoutMetricsTask {
    pub common_fields: CommonDescribeFields,
}

/// `Runtime.enable`.
pub struct RuntimeEnableTask {
    pub common_fields: CommonDescribeFields,
}

/// `Network.enable`.
pub struct NetworkEnableTask {
    pub common_fields: CommonDescribeFields,
}

/// `Runtime.evaluate`.
pub struct RuntimeEvaluateTask {
    pub common_fields: CommonDescribeFields,
    pub expression: String,
    pub context_id: Option<u64>,
    pub silent: Option<bool>,
    pub return_by_value: Option<bool>,
    pub task_result: Option<RemoteObject>,
    pub exception_details: Option<ExceptionDetails>,
}

/// `Runtime.getProperties`.
pub struct RuntimeGetPropertiesTask {
    pub common_fields: CommonDescribeFields,
    pub object_id: String,
    pub task_result: Option<Vec<PropertyDescriptor>>,
}

/// `Runtime.callFunctionOn`.
pub struct RuntimeCallFunctionOnTask {
    pub common_fields: CommonDescribeFields,
    pub function_declaration: String,
    pub object_id: Option<String>,
    pub task_result: Option<RemoteObject>,
}

/// `DOM.getDocument`.
pub struct GetDocumentTask {
    pub common_fields: CommonDescribeFields,
    pub depth: Option<u8>,
    pub pierce: bool,
    pub task_result: Option<Node>,
}

/// `DOM.querySelector`.
pub struct QuerySelectorTask {
    pub common_fields: CommonDescribeFields,
    pub node_id: Option<u64>,
    pub selector: String,
    pub task_result: Option<u64>,
}

/// `DOM.describeNode`.
pub struct DescribeNodeTask {
    pub common_fields: CommonDescribeFields,
    pub node_id: Option<u64>,
    pub backend_node_id: Option<u64>,
    pub selector: Option<String>,
    pub depth: Option<i8>,
    pub pierce: bool,
    pub task_result: Option<Node>,
}

/// `DOM.getBoxModel`.
pub struct GetBoxModelTask {
    pub common_fields: CommonDescribeFields,
    pub node_id: Option<u64>,
    pub backend_node_id: Option<u64>,
    pub object_id: Option<String>,
    pub selector: Option<String>,
    pub task_result: Option<BoxModel>,
}

/// `Page.captureScreenshot`.
pub struct CaptureScreenshotTask {
    pub common_fields: CommonDescribeFields,
    pub selector: Option<String>,
    pub format: ScreenshotFormat,
    pub clip: Option<Viewport>,
    pub from_surface: bool,
    pub task_result: Option<String>,
}

/// `Page.printToPDF`. Dimensions and scale are carried in thousandths
/// of their CDP unit, so that the descriptor holds plain integers.
pub struct PrintToPdfTask {
    pub common_fields: CommonDescribeFields,
    pub landscape: Option<bool>,
    pub display_header_footer: Option<bool>,
    pub print_background: Option<bool>,
    pub scale_thousandths: Option<u64>,
    pub paper_width_thousandths: Option<u64>,
    pub paper_height_thousandths: Option<u64>,
    pub margin_top_thousandths: Option<u64>,
    pub margin_bottom_thousandths: Option<u64>,
    pub margin_left_thousandths: Option<u64>,
    pub margin_right_thousandths: Option<u64>,
    pub page_ranges: Option<String>,
    pub ignore_invalid_page_ranges: Option<bool>,
    pub header_template: Option<String>,
    pub footer_template: Option<String>,
    pub prefer_css_page_size: Option<bool>,
    pub task_result: Option<String>,
}

/// One pattern of `Network.setRequestInterception`.
pub struct RequestPattern {
    pub url_pattern: Option<String>,
}

/// `Network.setRequestInterception`.
pub struct SetRequestInterceptionTask {
    pub common_fields: CommonDescribeFields,
    pub patterns: Vec<RequestPattern>,
}

/// `Network.continueInterceptedRequest`.
pub struct ContinueInterceptedRequestTask {
    pub common_fields: CommonDescribeFields,
    pub interception_id: String,
    pub raw_response: Option<String>,
    pub error_reason: Option<String>,
}

/// `Network.getResponseBodyForInterception`.
pub struct GetResponseBodyForInterceptionTask {
    pub common_fields: CommonDescribeFields,
    pub interception_id: String,
    pub request_id: Option<String>,
    pub task_result: Option<String>,
}

/// `DOM.resolveNode`: kept for callers that resolve a node into a
/// remote object handle.
pub struct ResolveNode {
    pub common_fields: CommonDescribeFields,
    pub selector: Option<String>,
    pub node_id: Option<u64>,
    pub backend_node_id: Option<u64>,
    pub object_group: Option<String>,
    pub execution_context_id: Option<String>,
}

/// `Target.createTarget`.
pub struct CreateTargetTask {
    pub common_fields: CommonDescribeFields,
    pub url: String,
}

/// `Target.attachToTarget`: the explicit attach request that turns a
/// discovered page into a driven one. Sent straight to the browser
/// endpoint, outside the pending-call registry; the session id comes
/// back as a `Target.attachedToTarget` event.
pub struct AttachToTargetTask {
    pub target_id: String,
}

/// Builder for `RuntimeEvaluateTask`; the expression is required.
pub struct RuntimeEvaluateTaskBuilder {
    pub expression: Option<String>,
    pub context_id: Option<u64>,
    pub silent: Option<bool>,
    pub return_by_value: Option<bool>,
}

impl RuntimeEvaluateTaskBuilder {
    pub fn new() -> (r: Self)
        ensures
            r.expression is None,
            r.context_id is None,
            r.silent is None,
            r.return_by_value is None,
    {
        RuntimeEvaluateTaskBuilder {
            expression: None,
            context_id: None,
            silent: None,
            return_by_value: None,
        }
    }

    pub fn expression(self, expression: String) -> (r: Self)
        ensures
            r.expression == Some(expression),
            r.context_id == self.context_id,
            r.silent == self.silent,
            r.return_by_value == self.return_by_value,
    {
        RuntimeEvaluateTaskBuilder { expression: Some(expression), ..self }
    }

    pub fn context_id(self, context_id: u64) -> (r: Self)
        ensures
            r.context_id == Some(context_id),
            r.expression == self.expression,
            r.silent == self.silent,
            r.return_by_value == self.return_by_value,
    {
        RuntimeEvaluateTaskBuilder { context_id: Some(context_id), ..self }
    }

    /// Finish the builder. Fails exactly when no expression was given.
    pub fn build(self, common_fields: CommonDescribeFields) -> (r: Result<
        RuntimeEvaluateTask,
        ChromePageError,
    >)
        ensures
            r is Ok <==> self.expression is Some,
            r matches Ok(t) ==> t.common_fields == common_fields && Some(t.expression)
                == self.expression && t.context_id == self.context_id && t.silent == self.silent
                && t.return_by_value == self.return_by_value && t.task_result is None
                && t.exception_details is None,
            r matches Err(e) ==> e is Builder,
    {
        match self.expression {
            Some(expression) => Ok(
                RuntimeEvaluateTask {
                    common_fields,
                    expression,
                    context_id: self.context_id,
                    silent: self.silent,
                    return_by_value: self.return_by_value,
                    task_result: None,
                    exception_details: None,
                },
            ),
            None => Err(ChromePageError::Builder),
        }
    }
}

/// Builder for `DescribeNodeTask`; every field is optional.
pub struct DescribeNodeTaskBuilder {
    pub node_id: Option<u64>,
    pub backend_node_id: Option<u64>,
    pub selector: Option<String>,
    pub depth: Option<i8>,
    pub pierce: bool,
}

impl DescribeNodeTaskBuilder {
    pub fn new() -> (r: Self)
        ensures
            r.node_id is None,
            r.backend_node_id is None,
            r.selector is None,
            r.depth is None,
            r.pierce == false,
    {
        DescribeNodeTaskBuilder {
            node_id: None,
            backend_node_id: None,
            selector: None,
            depth: None,
            pierce: false,
        }
    }

    pub fn node_id(self, node_id: u64) -> (r: Self)
        ensures
            r == (DescribeNodeTaskBuilder { node_id: Some(node_id), ..self }),
    {
        DescribeNodeTaskBuilder { node_id: Some(node_id), ..self }
    }

    pub fn selector(self, selector: String) -> (r: Self)
        ensures
            r == (DescribeNodeTaskBuilder { selector: Some(selector), ..self }),
    {
        DescribeNodeTaskBuilder { selector: Some(selector), ..self }
    }

    pub fn depth(self, depth: Option<i8>) -> (r: Self)
        ensures
            r == (DescribeNodeTaskBuilder { depth, ..self }),
    {
        DescribeNodeTaskBuilder { depth, ..self }
    }

    pub fn build(self, common_fields: CommonDescribeFields) -> (r: DescribeNodeTask)
        ensures
            r.common_fields == common_fields,
            r.node_id == self.node_id,
            r.backend_node_id == self.backend_node_id,
            r.selector == self.selector,
            r.depth == self.depth,
            r.pierce == self.pierce,
            r.task_result is None,
    {
        DescribeNodeTask {
            common_fields,
            node_id: self.node_id,
            backend_node_id: self.backend_node_id,
            selector: self.selector,
            depth: self.depth,
            pierce: self.pierce,
            task_result: None,
        }
    }
}

/// Builder for `QuerySelectorTask`; the selector is required.
pub struct QuerySelectorTaskBuilder {
    pub node_id: Option<u64>,
    pub selector: Option<String>,
}

impl QuerySelectorTaskBuilder {
    pub fn new() -> (r: Self)
        ensures
            r.node_id is None,
            r.selector is None,
    {
        QuerySelectorTaskBuilder { node_id: None, selector: None }
    }

    pub fn selector(self, selector: String) -> (r: Self)
        ensures
            r == (QuerySelectorTaskBuilder { selector: Some(selector), ..self }),
    {
        QuerySelectorTaskBuilder { selector: Some(selector), ..self }
    }

    pub fn node_id(self, node_id: u64) -> (r: Self)
        ensures
            r == (QuerySelectorTaskBuilder { node_id: Some(node_id), ..self }),
    {
        QuerySelectorTaskBuilder { node_id: Some(node_id), ..self }
    }

    /// Finish the builder. Fails exactly when no selector was given.
    pub fn build(self, common_fields: CommonDescribeFields) -> (r: Result<
        QuerySelectorTask,
        ChromePageError,
    >)
        ensures
            r is Ok <==> self.selector is Some,
            r matches Ok(t) ==> t.common_fields == common_fields && Some(t.selector)
                == self.selector && t.node_id == self.node_id && t.task_result is None,
            r matches Err(e) ==> e is Builder,
    {
        match self.selector {
            Some(selector) => Ok(
                QuerySelectorTask { common_fields, node_id: self.node_id, selector, task_result: None },
            ),
            None => Err(ChromePageError::Builder),
        }
    }
}

/// Builder for `RuntimeGetPropertiesTask`; the object id is required.
pub struct RuntimeGetPropertiesTaskBuilder {
    pub object_id: Option<String>,
}

impl RuntimeGetPropertiesTaskBuilder {
    pub fn new() -> (r: Self)
        ensures
            r.object_id is None,
    {
        RuntimeGetPropertiesTaskBuilder { object_id: None }
    }

    pub fn object_id(self, object_id: String) -> (r: Self)
        ensures
            r.object_id == Some(object_id),
    {
        RuntimeGetPropertiesTaskBuilder { object_id: Some(object_id) }
    }

    /// Finish the builder. Fails exactly when no object id was given.
    pub fn build(self, common_fields: CommonDescribeFields) -> (r: Result<
        RuntimeGetPropertiesTask,
        ChromePageError,
    >)
        ensures
            r is Ok <==> self.object_id is Some,
            r matches Ok(t) ==> t.common_fields == common_fields && Some(t.object_id)
                == self.object_id && t.task_result is None,
            r matches Err(e) ==> e is Builder,
    {
        match self.object_id {
            Some(object_id) => Ok(RuntimeGetPropertiesTask { common_fields, object_id, task_result: None }),
            None => Err(ChromePageError::Builder),
        }
    }
}

/// Builder for `RuntimeCallFunctionOnTask`; the function declaration is
/// required.
pub struct RuntimeCallFunctionOnTaskBuilder {
    pub function_declaration: Option<String>,
    pub object_id: Option<String>,
}

impl RuntimeCallFunctionOnTaskBuilder {
    pub fn new() -> (r: Self)
        ensures
            r.function_declaration is None,
            r.object_id is None,
    {
        RuntimeCallFunctionOnTaskBuilder { function_declaration: None, object_id: None }
    }

    pub fn function_declaration(self, function_declaration: String) -> (r: Self)
        ensures
            r.function_declaration == Some(function_declaration),
            r.object_id == self.object_id,
    {
        RuntimeCallFunctionOnTaskBuilder {
            function_declaration: Some(function_declaration),
            ..self
        }
    }

    pub fn object_id(self, object_id: String) -> (r: Self)
        ensures
            r.object_id == Some(object_id),
            r.function_declaration == self.function_declaration,
    {
        RuntimeCallFunctionOnTaskBuilder { object_id: Some(object_id), ..self }
    }

    /// Finish the builder. Fails exactly when no function declaration
    /// was given.
    pub fn build(self, common_fields: CommonDescribeFields) -> (r: Result<
        RuntimeCallFunctionOnTask,
        ChromePageError,
    >)
        ensures
            r is Ok <==> self.function_declaration is Some,
            r matches Ok(t) ==> t.common_fields == common_fields && Some(t.function_declaration)
                == self.function_declaration && t.object_id == self.object_id
                && t.task_result is None,
            r matches Err(e) ==> e is Builder,
    {
        match self.function_declaration {
            Some(function_declaration) => Ok(
                RuntimeCallFunctionOnTask {
                    common_fields,
                    function_declaration,
                    object_id: self.object_id,
                    task_result: None,
                },
            ),
            None => Err(ChromePageError::Builder),
        }
    }
}

/// Builder for `PrintToPdfTask`; every field is optional.
pub struct PrintToPdfTaskBuilder {
    pub landscape: Option<bool>,
    pub print_background: Option<bool>,
    pub paper_width_thousandths: Option<u64>,
    pub paper_height_thousandths: Option<u64>,
    pub page_ranges: Option<String>,
}

impl PrintToPdfTaskBuilder {
    pub fn new() -> (r: Self)
        ensures
            r.landscape is None,
            r.print_background is None,
            r.paper_width_thousandths is None,
            r.paper_height_thousandths is None,
            r.page_ranges is None,
    {
        PrintToPdfTaskBuilder {
            landscape: None,
            print_background: None,
            paper_width_thousandths: None,
            paper_height_thousandths: None,
            page_ranges: None,
        }
    }

    pub fn landscape(self, landscape: bool) -> (r: Self)
        ensures
            r == (PrintToPdfTaskBuilder { landscape: Some(landscape), ..self }),
    {
        PrintToPdfTaskBuilder { landscape: Some(landscape), ..self }
    }

    pub fn paper_size_thousandths(self, width: u64, height: u64) -> (r: Self)
        ensures
            r == (PrintToPdfTaskBuilder {
                paper_width_thousandths: Some(width),
                paper_height_thousandths: Some(height),
                ..self
            }),
    {
        PrintToPdfTaskBuilder {
            paper_width_thousandths: Some(width),
            paper_height_thousandths: Some(height),
            ..self
        }
    }

    pub fn build(self, common_fields: CommonDescribeFields) -> (r: PrintToPdfTask)
        ensures
            r.common_fields == common_fields,
            r.landscape == self.landscape,
            r.print_background == self.print_background,
            r.paper_width_thousandths == self.paper_width_thousandths,
            r.paper_height_thousandths == self.paper_height_thousandths,
            r.page_ranges == self.page_ranges,
            r.task_result is None,
    {
        PrintToPdfTask {
            common_fields,
            landscape: self.landscape,
            display_header_footer: None,
            print_background: self.print_background,
            scale_thousandths: None,
            paper_width_thousandths: self.paper_width_thousandths,
            paper_height_thousandths: self.paper_height_thousandths,
            margin_top_thousandths: None,
            margin_bottom_thousandths: None,
            margin_left_thousandths: None,
            margin_right_thousandths: None,
            page_ranges: self.page_ranges,
            ignore_invalid_page_ranges: None,
            header_template: None,
            footer_template: None,
            prefer_css_page_size: None,
            task_result: None,
        }
    }
}

/// The method calls the engine can issue towards one target or the
/// browser; each expects a correlated response.
pub enum TargetCallMethodTask {
    NavigateTo(NavigateToTask),
    QuerySelector(QuerySelectorTask),
    DescribeNode(DescribeNodeTask),
    PrintToPDF(PrintToPdfTask),
    GetBoxModel(GetBoxModelTask),
    GetDocument(GetDocumentTask),
    PageEnable(PageEnableTask),
    PageClose(PageCloseTask),
    GetLayoutMetrics(GetLayoutMetricsTask),
    BringToFront(BringToFrontTask),
    RuntimeEnable(RuntimeEnableTask),
    CaptureScreenshot(CaptureScreenshotTask),
    RuntimeEvaluate(RuntimeEvaluateTask),
    RuntimeGetProperties(RuntimeGetPropertiesTask),
    RuntimeCallFunctionOn(RuntimeCallFunctionOnTask),
    NetworkEnable(NetworkEnableTask),
    SetRequestInterception(SetRequestInterceptionTask),
    ContinueInterceptedRequest(ContinueInterceptedRequestTask),
    GetResponseBodyForInterception(GetResponseBodyForInterceptionTask),
    PageReload(PageReloadTask),
    CreateTarget(CreateTargetTask),
    TargetSetDiscoverTargets(bool, CommonDescribeFields),
}

impl TargetCallMethodTask {
    /// The common correlation fields of the wrapped task.
    pub open spec fn spec_common_fields(&self) -> &CommonDescribeFields {
        match self {
            TargetCallMethodTask::NavigateTo(t) => &t.common_fields,
            TargetCallMethodTask::QuerySelector(t) => &t.common_fields,
            TargetCallMethodTask::DescribeNode(t) => &t.common_fields,
            TargetCallMethodTask::PrintToPDF(t) => &t.common_fields,
            TargetCallMethodTask::GetBoxModel(t) => &t.common_fields,
            TargetCallMethodTask::GetDocument(t) => &t.common_fields,
            TargetCallMethodTask::PageEnable(t) => &t.common_fields,
            TargetCallMethodTask::PageClose(t) => &t.common_fields,
            TargetCallMethodTask::GetLayoutMetrics(t) => &t.common_fields,
            TargetCallMethodTask::BringToFront(t) => &t.common_fields,
            TargetCallMethodTask::RuntimeEnable(t) => &t.common_fields,
            TargetCallMethodTask::CaptureScreenshot(t) => &t.common_fields,
            TargetCallMethodTask::RuntimeEvaluate(t) => &t.common_fields,
            TargetCallMethodTask::RuntimeGetProperties(t) => &t.common_fields,
            TargetCallMethodTask::RuntimeCallFunctionOn(t) => &t.common_fields,
            TargetCallMethodTask::NetworkEnable(t) => &t.common_fields,
            TargetCallMethodTask::SetRequestInterception(t) => &t.common_fields,
            TargetCallMethodTask::ContinueInterceptedRequest(t) => &t.common_fields,
            TargetCallMethodTask::GetResponseBodyForInterception(t) => &t.common_fields,
            TargetCallMethodTask::PageReload(t) => &t.common_fields,
            TargetCallMethodTask::CreateTarget(t) => &t.common_fields,
            TargetCallMethodTask::TargetSetDiscoverTargets(_, cf) => cf,
        }
    }

    /// Borrow the common correlation fields.
    pub fn common_fields(&self) -> (r: &CommonDescribeFields)
        ensures
            r == self.spec_common_fields(),
    {
        match self {
            TargetCallMethodTask::NavigateTo(t) => &t.common_fields,
            TargetCallMethodTask::QuerySelector(t) => &t.common_fields,
            TargetCallMethodTask::DescribeNode(t) => &t.common_fields,
            TargetCallMethodTask::PrintToPDF(t) => &t.common_fields,
            TargetCallMethodTask::GetBoxModel(t) => &t.common_fields,
            TargetCallMethodTask::GetDocument(t) => &t.common_fields,
            TargetCallMethodTask::PageEnable(t) => &t.common_fields,
            TargetCallMethodTask::PageClose(t) => &t.common_fields,
            TargetCallMethodTask::GetLayoutMetrics(t) => &t.common_fields,
            TargetCallMethodTask::BringToFront(t) => &t.common_fields,
            TargetCallMethodTask::RuntimeEnable(t) => &t.common_fields,
            TargetCallMethodTask::CaptureScreenshot(t) => &t.common_fields,
            TargetCallMethodTask::RuntimeEvaluate(t) => &t.common_fields,
            TargetCallMethodTask::RuntimeGetProperties(t) => &t.common_fields,
            TargetCallMethodTask::RuntimeCallFunctionOn(t) => &t.common_fields,
            TargetCallMethodTask::NetworkEnable(t) => &t.common_fields,
            TargetCallMethodTask::SetRequestInterception(t) => &t.common_fields,
            TargetCallMethodTask::ContinueInterceptedRequest(t) => &t.common_fields,
            TargetCallMethodTask::GetResponseBodyForInterception(t) => &t.common_fields,
            TargetCallMethodTask::PageReload(t) => &t.common_fields,
            TargetCallMethodTask::CreateTarget(t) => &t.common_fields,
            TargetCallMethodTask::TargetSetDiscoverTargets(_, cf) => cf,
        }
    }

    /// The call id stamped on the wrapped task.
    pub fn get_call_id(&self) -> (r: CallId)
        ensures
            r == self.spec_common_fields().call_id,
    {
        self.common_fields().call_id
    }


    /// The same task with the submission-time ids written in: the call
    /// id of its wire call and the task id its completion carries.
    pub open spec fn spec_with_ids(
        self,
        call_id: CallId,
        task_id: Option<TaskId>,
    ) -> TargetCallMethodTask {
        match self {
            TargetCallMethodTask::NavigateTo(t) => TargetCallMethodTask::NavigateTo(
                NavigateToTask {
                    common_fields: CommonDescribeFields { task_id, call_id, ..t.common_fields },
                    ..t
                },
            ),
            TargetCallMethodTask::QuerySelector(t) => TargetCallMethodTask::QuerySelector(
                QuerySelectorTask {
                    common_fields: CommonDescribeFields { task_id, call_id, ..t.common_fields },
                    ..t
                },
            ),
            TargetCallMethodTask::DescribeNode(t) => TargetCallMethodTask::DescribeNode(
                DescribeNodeTask {
                    common_fields: CommonDescribeFields { task_id, call_id, ..t.common_fields },
                    ..t
                },
            ),
            TargetCallMethodTask::PrintToPDF(t) => TargetCallMethodTask::PrintToPDF(
                PrintToPdfTask {
                    common_fields: CommonDescribeFields { task_id, call_id, ..t.common_fields },
                    ..t
                },
            ),
            TargetCallMethodTask::GetBoxModel(t) => TargetCallMethodTask::GetBoxModel(
                GetBoxModelTask {
                    common_fields: CommonDescribeFields { task_id, call_id, ..t.common_fields },
                    ..t
                },
            ),
            TargetCallMethodTask::GetDocument(t) => TargetCallMethodTask::GetDocument(
                GetDocumentTask {
                    common_fields: CommonDescribeFields { task_id, call_id, ..t.common_fields },
                    ..t
                },
            ),
            TargetCallMethodTask::PageEnable(t) => TargetCallMethodTask::PageEnable(
                PageEnableTask {
                    common_fields: CommonDescribeFields { task_id, call_id, ..t.common_fields },
                    ..t
                },
            ),
            TargetCallMethodTask::PageClose(t) => TargetCallMethodTask::PageClose(
                PageCloseTask {
                    common_fields: CommonDescribeFields { task_id, call_id, ..t.common_fields },
                    ..t
                },
            ),
            TargetCallMethodTask::GetLayoutMetrics(t) => TargetCallMethodTask::GetLayoutMetrics(
                GetLayoutMetricsTask {
                    common_fields: CommonDescribeFields { task_id, call_id, ..t.common_fields },
                    ..t
                },
            ),
            TargetCallMethodTask::BringToFront(t) => TargetCallMethodTask::BringToFront(
                BringToFrontTask {
                    common_fields: CommonDescribeFields { task_id, call_id, ..t.common_fields },
                    ..t
                },
            ),
            TargetCallMethodTask::RuntimeEnable(t) => TargetCallMethodTask::RuntimeEnable(
                RuntimeEnableTask {
                    common_fields: CommonDescribeFields { task_id, call_id, ..t.common_fields },
                    ..t
                },
            ),
            TargetCallMethodTask::CaptureScreenshot(t) => TargetCallMethodTask::CaptureScreenshot(
                CaptureScreenshotTask {
                    common_fields: CommonDescribeFields { task_id, call_id, ..t.common_fields },
                    ..t
                },
            ),
            TargetCallMethodTask::RuntimeEvaluate(t) => TargetCallMethodTask::RuntimeEvaluate(
                RuntimeEvaluateTask {
                    common_fields: CommonDescribeFields { task_id, call_id, ..t.common_fields },
                    ..t
                },
            ),
            TargetCallMethodTask::RuntimeGetProperties(t) => TargetCallMethodTask::RuntimeGetProperties(
                RuntimeGetPropertiesTask {
                    common_fields: CommonDescribeFields { task_id, call_id, ..t.common_fields },
                    ..t
                },
            ),
            TargetCallMethodTask::RuntimeCallFunctionOn(t) => TargetCallMethodTask::RuntimeCallFunctionOn(
                RuntimeCallFunctionOnTask {
                    common_fields: CommonDescribeFields { task_id, call_id, ..t.common_fields },
                    ..t
                },
            ),
            TargetCallMethodTask::NetworkEnable(t) => TargetCallMethodTask::NetworkEnable(
                NetworkEnableTask {
                    common_fields: CommonDescribeFields { task_id, call_id, ..t.common_fields },
                    ..t
                },
            ),
            TargetCallMethodTask::SetRequestInterception(t) => TargetCallMethodTask::SetRequestInterception(
                SetRequestInterceptionTask {
                    common_fields: CommonDescribeFields { task_id, call_id, ..t.common_fields },
                    ..t
                },
            ),
            TargetCallMethodTask::ContinueInterceptedRequest(t) => TargetCallMethodTask::ContinueInterceptedRequest(
                ContinueInterceptedRequestTask {
                    common_fields: CommonDescribeFields { task_id, call_id, ..t.common_fields },
                    ..t
                },
            ),
            TargetCallMethodTask::GetResponseBodyForInterception(t) => TargetCallMethodTask::GetResponseBodyForInterception(
                GetResponseBodyForInterceptionTask {
                    common_fields: CommonDescribeFields { task_id, call_id, ..t.common_fields },
                    ..t
                },
            ),
            TargetCallMethodTask::PageReload(t) => TargetCallMethodTask::PageReload(
                PageReloadTask {
                    common_fields: CommonDescribeFields { task_id, call_id, ..t.common_fields },
                    ..t
                },
            ),
            TargetCallMethodTask::CreateTarget(t) => TargetCallMethodTask::CreateTarget(
                CreateTargetTask {
                    common_fields: CommonDescribeFields { task_id, call_id, ..t.common_fields },
                    ..t
                },
            ),
            TargetCallMethodTask::TargetSetDiscoverTargets(enable, cf) => TargetCallMethodTask::TargetSetDiscoverTargets(
                enable,
                CommonDescribeFields { task_id, call_id, ..cf },
            ),
        }
    }

    /// Write the submission-time ids into the descriptor, leaving all
    /// other fields as they stand.
    pub fn stamp_ids(&mut self, call_id: CallId, task_id: Option<TaskId>)
        ensures
            *final(self) == old(self).spec_with_ids(call_id, task_id),
    {
        match self {
            TargetCallMethodTask::NavigateTo(t) => {
                t.common_fields.call_id = call_id;
                t.common_fields.task_id = task_id;
            },
            TargetCallMethodTask::QuerySelector(t) => {
                t.common_fields.call_id = call_id;
                t.common_fields.task_id = task_id;
            },
            TargetCallMethodTask::DescribeNode(t) => {
                t.common_fields.call_id = call_id;
                t.common_fields.task_id = task_id;
            },
            TargetCallMethodTask::PrintToPDF(t) => {
                t.common_fields.call_id = call_id;
                t.common_fields.task_id = task_id;
            },
            TargetCallMethodTask::GetBoxModel(t) => {
                t.common_fields.call_id = call_id;
                t.common_fields.task_id = task_id;
            },
            TargetCallMethodTask::GetDocument(t) => {
                t.common_fields.call_id = call_id;
                t.common_fields.task_id = task_id;
            },
            TargetCallMethodTask::PageEnable(t) => {
                t.common_fields.call_id = call_id;
                t.common_fields.task_id = task_id;
            },
            TargetCallMethodTask::PageClose(t) => {
                t.common_fields.call_id = call_id;
                t.common_fields.task_id = task_id;
            },
            TargetCallMethodTask::GetLayoutMetrics(t) => {
                t.common_fields.call_id = call_id;
                t.common_fields.task_id = task_id;
            },
            TargetCallMethodTask::BringToFront(t) => {
                t.common_fields.call_id = call_id;
                t.common_fields.task_id = task_id;
            },
            TargetCallMethodTask::RuntimeEnable(t) => {
                t.common_fields.call_id = call_id;
                t.common_fields.task_id = task_id;
            },
            TargetCallMethodTask::CaptureScreenshot(t) => {
                t.common_fields.call_id = call_id;
                t.common_fields.task_id = task_id;
            },
            TargetCallMethodTask::RuntimeEvaluate(t) => {
                t.common_fields.call_id = call_id;
                t.common_fields.task_id = task_id;
            },
            TargetCallMethodTask::RuntimeGetProperties(t) => {
                t.common_fields.call_id = call_id;
                t.common_fields.task_id = task_id;
            },
            TargetCallMethodTask::RuntimeCallFunctionOn(t) => {
                t.common_fields.call_id = call_id;
                t.common_fields.task_id = task_id;
            },
            TargetCallMethodTask::NetworkEnable(t) => {
                t.common_fields.call_id = call_id;
                t.common_fields.task_id = task_id;
            },
            TargetCallMethodTask::SetRequestInterception(t) => {
                t.common_fields.call_id = call_id;
                t.common_fields.task_id = task_id;
            },
            TargetCallMethodTask::ContinueInterceptedRequest(t) => {
                t.common_fields.call_id = call_id;
                t.common_fields.task_id = task_id;
            },
            TargetCallMethodTask::GetResponseBodyForInterception(t) => {
                t.common_fields.call_id = call_id;
                t.common_fields.task_id = task_id;
            },
            TargetCallMethodTask::PageReload(t) => {
                t.common_fields.call_id = call_id;
                t.common_fields.task_id = task_id;
            },
            TargetCallMethodTask::CreateTarget(t) => {
                t.common_fields.call_id = call_id;
                t.common_fields.task_id = task_id;
            },
            TargetCallMethodTask::TargetSetDiscoverTargets(_, cf) => {
                cf.call_id = call_id;
                cf.task_id = task_id;
            },
        }
    }

    /// The task id the wrapped task's completion is correlated by.
    pub fn get_task_id(&self) -> (r: Option<TaskId>)
        ensures
            r == self.spec_common_fields().task_id,
    {
        self.common_fields().task_id
    }
}

/// Every logical operation the engine issues or receives: method calls
/// (outbound, expecting a response), events (inbound, no correlation)
/// and internal items.
pub enum TaskDescribe {
    TargetCallMethod(TargetCallMethodTask),
    PageCreated(TargetInfo, Option<String>),
    PageAttached(TargetInfo, SessionId),
    TargetInfoChanged(TargetInfo, CommonDescribeFields),
    FrameAttached(FrameAttachedParams, CommonDescribeFields),
    FrameStartedLoading(String, CommonDescribeFields),
    FrameNavigated(Frame, CommonDescribeFields),
    FrameStoppedLoading(String, CommonDescribeFields),
    FrameDetached(String, CommonDescribeFields),
    LoadEventFired(String, u64),
    SetChildNodes(String, u64, Vec<Node>),
    RuntimeExecutionContextCreated(ExecutionContextDescription, CommonDescribeFields),
    RuntimeExecutionContextDestroyed(u64, CommonDescribeFields),
    RuntimeConsoleAPICalled(ConsoleAPICalledParams, CommonDescribeFields),
    RequestWillBeSent(RequestWillBeSent, CommonDescribeFields),
    RequestIntercepted(RequestIntercepted, CommonDescribeFields),
    ResponseReceived(ResponseReceived, CommonDescribeFields),
    Interval,
    ChromeConnected,
    Fail,
}

impl TaskDescribe {
    /// The common correlation fields, for the kinds that carry them.
    pub fn get_common_fields(&self) -> (r: Option<&CommonDescribeFields>)
        ensures
            self matches TaskDescribe::TargetCallMethod(t) ==> r == Some(t.spec_common_fields()),
            self matches TaskDescribe::FrameNavigated(_, cf) ==> r == Some(cf),
            self matches TaskDescribe::FrameStartedLoading(_, cf) ==> r == Some(cf),
            self matches TaskDescribe::FrameStoppedLoading(_, cf) ==> r == Some(cf),
            self matches TaskDescribe::FrameAttached(_, cf) ==> r == Some(cf),
            self matches TaskDescribe::FrameDetached(_, cf) ==> r == Some(cf),
            self matches TaskDescribe::RuntimeExecutionContextCreated(_, cf) ==> r == Some(cf),
            self matches TaskDescribe::RuntimeExecutionContextDestroyed(_, cf) ==> r == Some(cf),
            self matches TaskDescribe::RuntimeConsoleAPICalled(_, cf) ==> r == Some(cf),
            self matches TaskDescribe::RequestWillBeSent(_, cf) ==> r == Some(cf),
            self matches TaskDescribe::RequestIntercepted(_, cf) ==> r == Some(cf),
            self matches TaskDescribe::ResponseReceived(_, cf) ==> r == Some(cf),
            self matches TaskDescribe::TargetInfoChanged(_, cf) ==> r == Some(cf),
            (self is PageCreated || self is PageAttached || self is LoadEventFired
                || self is SetChildNodes || self is Interval || self is ChromeConnected
                || self is Fail) ==> r is None,
    {
        match self {
            TaskDescribe::TargetCallMethod(t) => Some(t.common_fields()),
            TaskDescribe::TargetInfoChanged(_, cf) => Some(cf),
            TaskDescribe::FrameAttached(_, cf) => Some(cf),
            TaskDescribe::FrameStartedLoading(_, cf) => Some(cf),
            TaskDescribe::FrameNavigated(_, cf) => Some(cf),
            TaskDescribe::FrameStoppedLoading(_, cf) => Some(cf),
            TaskDescribe::FrameDetached(_, cf) => Some(cf),
            TaskDescribe::RuntimeExecutionContextCreated(_, cf) => Some(cf),
            TaskDescribe::RuntimeExecutionContextDestroyed(_, cf) => Some(cf),
            TaskDescribe::RuntimeConsoleAPICalled(_, cf) => Some(cf),
            TaskDescribe::RequestWillBeSent(_, cf) => Some(cf),
            TaskDescribe::RequestIntercepted(_, cf) => Some(cf),
            TaskDescribe::ResponseReceived(_, cf) => Some(cf),
            _ => None,
        }
    }
}

} // verus!

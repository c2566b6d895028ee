use headless_chrome::codec::parse_call;
use headless_chrome::debug_session::DebugSession;
use headless_chrome::errors::ChromePageError;
use headless_chrome::page_message::{MethodCallDone, PageResponse};
use headless_chrome::protocol_model::{
    ExceptionDetails, ExecutionContextDescription, Frame, RemoteObject, RequestIntercepted,
    TargetInfo, TargetType,
};
use headless_chrome::task_describe::{
    CommonDescribeFieldsBuilder, RequestPattern, RuntimeEvaluateTaskBuilder, TargetCallMethodTask,
    TaskDescribe,
};
use headless_chrome::SessionId;

fn page_target(target_id: &str, url: &str, attached: bool) -> TargetInfo {
    TargetInfo {
        target_id: target_id.to_string(),
        target_type: TargetType::Page,
        title: String::new(),
        url: url.to_string(),
        attached,
        opener_id: None,
        browser_context_id: Some("CTX1".to_string()),
    }
}

fn root_frame(id: &str, url: &str) -> Frame {
    Frame {
        id: id.to_string(),
        parent_id: None,
        name: None,
        url: url.to_string(),
        unreachable_url: None,
    }
}

fn fields_for(session: &DebugSession, target_id: &str) -> headless_chrome::task_describe::CommonDescribeFields {
    let tab = session
        .get_tab_by_id(Some(&target_id.to_string()))
        .expect("tab should exist");
    tab.get_common_field(None)
}

#[test]
fn t_connect_and_discover() {
    let mut session = DebugSession::new();

    // Boot: the engine emits the connection event and frames target
    // discovery itself.
    let (w, frame, call_id) = session.boot();
    assert!(matches!(w.page_response, PageResponse::ChromeConnected));
    let parts = parse_call(frame.as_slice()).expect("frame should parse");
    assert_eq!(parts.method, b"Target.setDiscoverTargets".to_vec());
    assert_eq!(parts.params, b"{\"discover\":true}".to_vec());
    assert_eq!(parts.call_id, call_id);

    // A discovered page target becomes the first tab.
    let (w, _) = session.send_page_message(TaskDescribe::PageCreated(
        page_target("P1", "about:blank", false),
        None,
    ));
    match w.page_response {
        PageResponse::PageCreated(idx) => assert_eq!(idx, 0),
        _ => panic!("a created page yields PageCreated"),
    }
    assert_eq!(w.target_id.as_deref(), Some("P1"));
    let tab = session.main_tab().expect("main tab exists");
    assert!(tab.is_blank_url());
}

#[test]
fn t_attached_discovery_still_needs_explicit_attach() {
    let mut session = DebugSession::new();
    // Chrome claims the target is already attached at discovery time.
    let (_, _) = session.send_page_message(TaskDescribe::PageCreated(
        page_target("P1", "about:blank", true),
        None,
    ));
    let tab = session.main_tab().expect("tab exists");
    assert!(tab.session_id.is_none(), "no session before the explicit attach");
    let fields = tab.get_common_field(None);
    assert!(fields.session_id.is_none(), "page methods go out without a session");

    // Only the explicit attach event establishes the session.
    let (w, _) = session.send_page_message(TaskDescribe::PageAttached(
        page_target("P1", "about:blank", true),
        SessionId::new("SESS1".to_string()),
    ));
    assert!(matches!(w.page_response, PageResponse::PageAttached(_, _)));
    let tab = session.main_tab().expect("tab exists");
    assert_eq!(tab.session_id.as_ref().map(|s| s.as_str()), Some("SESS1"));
    assert_eq!(tab.event_statistics.page_attached, 1);
}

#[test]
fn t_navigate_and_enable_flow() {
    let mut session = DebugSession::new();
    session.send_page_message(TaskDescribe::PageCreated(page_target("P1", "about:blank", false), None));
    session.send_page_message(TaskDescribe::PageAttached(
        page_target("P1", "about:blank", false),
        SessionId::new("S1".to_string()),
    ));

    // page_enable: the task is framed, parked, and resolved by its id.
    let enable = {
        let tab = session.get_tab_by_id(Some(&"P1".to_string())).expect("tab");
        tab.page_enable()
    };
    let (frame, call_id) = session.execute_one_task(enable).expect("page enable frames");
    // The call is double-wrapped because the tab has a session.
    let outer = parse_call(frame.as_slice()).expect("outer parses");
    assert_eq!(outer.method, b"Target.sendMessageToTarget".to_vec());
    assert_ne!(outer.call_id, call_id);

    let parked = session.resolve_response(call_id).expect("the descriptor is parked");
    let (w, _) = session.send_page_message(parked);
    match w.page_response {
        PageResponse::MethodCallDone(MethodCallDone::PageEnabled(_)) => {}
        _ => panic!("page enable completes as PageEnabled"),
    }

    // navigate_to, then the frame lifecycle events in wire order.
    let nav = {
        let tab = session.get_tab_by_id(Some(&"P1".to_string())).expect("tab");
        tab.navigate_to("https://example.com")
    };
    let (_, nav_id) = session.execute_one_task(nav).expect("navigate frames");
    assert!(session.resolve_response(nav_id).is_some());

    let cf = fields_for(&session, "P1");
    let (w, _) = session.send_page_message(TaskDescribe::FrameStartedLoading(
        "F0".to_string(),
        cf,
    ));
    assert!(matches!(w.page_response, PageResponse::FrameStartedLoading(_)));

    let cf = fields_for(&session, "P1");
    let (w, _) = session.send_page_message(TaskDescribe::FrameNavigated(
        root_frame("F0", "https://example.com"),
        cf,
    ));
    assert!(matches!(w.page_response, PageResponse::FrameNavigated(_)));

    let (w, _) = session.send_page_message(TaskDescribe::LoadEventFired("P1".to_string(), 125));
    assert!(matches!(w.page_response, PageResponse::LoadEventFired(125)));

    let cf = fields_for(&session, "P1");
    let (w, _) = session.send_page_message(TaskDescribe::FrameStoppedLoading(
        "F0".to_string(),
        cf,
    ));
    assert!(matches!(w.page_response, PageResponse::FrameStoppedLoading(_)));

    let tab = session.get_tab_by_id(Some(&"P1".to_string())).expect("tab");
    let frame = tab.find_frame_by_id(&"F0".to_string()).expect("root frame is known");
    assert_eq!(frame.url, "https://example.com");
    assert!(tab.is_at_url("https://example.com"));
}

#[test]
fn t_evaluate_and_error() {
    let mut session = DebugSession::new();
    session.send_page_message(TaskDescribe::PageCreated(page_target("P1", "about:blank", false), None));
    session.send_page_message(TaskDescribe::PageAttached(
        page_target("P1", "about:blank", false),
        SessionId::new("S1".to_string()),
    ));

    // Issue the two evaluations, task ids 100 and 101.
    let (t100, t101) = {
        let tab = session.get_tab_by_id(Some(&"P1".to_string())).expect("tab");
        (
            tab.evaluate_expression_named("3+3", 100),
            tab.evaluate_expression_named("3::0", 101),
        )
    };
    let (_, id100) = session.execute_one_task(t100).expect("frames");
    let (_, id101) = session.execute_one_task(t101).expect("frames");
    assert!(id100 < id101);

    // The first response: a number, value 6.
    let parked = session.resolve_response(id100).expect("parked");
    let mut task = match parked {
        TaskDescribe::TargetCallMethod(TargetCallMethodTask::RuntimeEvaluate(t)) => t,
        _ => panic!("the parked descriptor is the evaluation"),
    };
    task.task_result = Some(RemoteObject {
        object_type: "number".to_string(),
        subtype: None,
        class_name: None,
        value_json: Some("6".to_string()),
        description: Some("6".to_string()),
        object_id: None,
    });
    let (w, _) = session.send_page_message(TaskDescribe::TargetCallMethod(
        TargetCallMethodTask::RuntimeEvaluate(task),
    ));
    assert_eq!(w.task_id, Some(100));
    match w.page_response {
        PageResponse::MethodCallDone(MethodCallDone::Evaluate(t)) => {
            let ro = t.task_result.expect("result object");
            assert_eq!(ro.object_type, "number");
            assert_eq!(ro.value_json.as_deref(), Some("6"));
            assert_eq!(ro.description.as_deref(), Some("6"));
            assert!(t.exception_details.is_none());
        }
        _ => panic!("evaluation completes as Evaluate"),
    }

    // The second response: a syntax error with exception details.
    let parked = session.resolve_response(id101).expect("parked");
    let mut task = match parked {
        TaskDescribe::TargetCallMethod(TargetCallMethodTask::RuntimeEvaluate(t)) => t,
        _ => panic!("the parked descriptor is the evaluation"),
    };
    task.task_result = Some(RemoteObject {
        object_type: "object".to_string(),
        subtype: Some("error".to_string()),
        class_name: Some("SyntaxError".to_string()),
        value_json: None,
        description: Some("SyntaxError: Unexpected token :".to_string()),
        object_id: None,
    });
    task.exception_details = Some(ExceptionDetails {
        text: "Uncaught".to_string(),
        line_number: 0,
        column_number: 1,
    });
    let (w, _) = session.send_page_message(TaskDescribe::TargetCallMethod(
        TargetCallMethodTask::RuntimeEvaluate(task),
    ));
    assert_eq!(w.task_id, Some(101));
    match w.page_response {
        PageResponse::MethodCallDone(MethodCallDone::Evaluate(t)) => {
            let ro = t.task_result.expect("result object");
            assert_eq!(ro.subtype.as_deref(), Some("error"));
            assert_eq!(ro.class_name.as_deref(), Some("SyntaxError"));
            assert!(t.exception_details.is_some());
        }
        _ => panic!("evaluation completes as Evaluate"),
    }
}

#[test]
fn t_intercept_and_replay() {
    let mut session = DebugSession::new();
    session.send_page_message(TaskDescribe::PageCreated(page_target("P1", "about:blank", false), None));
    session.send_page_message(TaskDescribe::PageAttached(
        page_target("P1", "about:blank", false),
        SessionId::new("S1".to_string()),
    ));

    // Enable the network domain and intercept everything.
    let (net, sri) = {
        let tab = session.get_tab_by_id(Some(&"P1".to_string())).expect("tab");
        let patterns = vec![RequestPattern { url_pattern: Some("*".to_string()) }];
        (
            tab.network_enable(None),
            tab.set_request_interception_task_named(patterns, 7),
        )
    };
    session.execute_one_task(net).expect("network enable frames");
    session
        .execute_one_task(TaskDescribe::TargetCallMethod(
            TargetCallMethodTask::SetRequestInterception(sri),
        ))
        .expect("interception frames");

    // Three intercepts arrive; each is continued.
    for k in 0..3u32 {
        let cf = fields_for(&session, "P1");
        let ev = RequestIntercepted {
            interception_id: format!("I{}", k),
            url: "https://example.com/a".to_string(),
        };
        let (w, _) = session.send_page_message(TaskDescribe::RequestIntercepted(ev, cf));
        assert!(matches!(w.page_response, PageResponse::RequestIntercepted(_)));

        let continuation = {
            let tab = session.get_tab_by_id_mut(Some(&"P1".to_string())).expect("tab");
            tab.continue_intercepted_request_with_raw_response(format!("I{}", k), None)
                .expect("a live intercept can be continued")
        };
        session.execute_one_task(continuation).expect("continuation frames");
    }

    let tab = session.get_tab_by_id(Some(&"P1".to_string())).expect("tab");
    assert_eq!(
        tab.request_intercepted.count(),
        0,
        "every intercept was matched by exactly one continuation"
    );

    // A continuation with no matching intercept is refused.
    let tab = session.get_tab_by_id_mut(Some(&"P1".to_string())).expect("tab");
    match tab.continue_intercepted_request_with_raw_response("I99".to_string(), None) {
        Err(e) => assert_eq!(e, ChromePageError::StateTransition),
        Ok(_) => panic!("no continuation without a prior intercept"),
    }
}

#[test]
fn t_context_destroyed_twice_is_idempotent() {
    let mut session = DebugSession::new();
    session.send_page_message(TaskDescribe::PageCreated(page_target("P1", "about:blank", false), None));

    let ctx = ExecutionContextDescription {
        id: 4,
        origin: "https://example.com".to_string(),
        name: String::new(),
        aux_frame_id: Some("F0".to_string()),
    };
    let cf = fields_for(&session, "P1");
    session.send_page_message(TaskDescribe::RuntimeExecutionContextCreated(ctx, cf));
    let tab = session.get_tab_by_id(Some(&"P1".to_string())).expect("tab");
    assert_eq!(tab.execution_context_descriptions.count(), 1);

    let cf = fields_for(&session, "P1");
    session.send_page_message(TaskDescribe::RuntimeExecutionContextDestroyed(4, cf));
    let tab = session.get_tab_by_id(Some(&"P1".to_string())).expect("tab");
    assert_eq!(tab.execution_context_descriptions.count(), 0);

    // The second destroyed for the same id changes nothing.
    let cf = fields_for(&session, "P1");
    session.send_page_message(TaskDescribe::RuntimeExecutionContextDestroyed(4, cf));
    let tab = session.get_tab_by_id(Some(&"P1".to_string())).expect("tab");
    assert_eq!(tab.execution_context_descriptions.count(), 0);
}

#[test]
fn t_unknown_response_id_is_ignored() {
    let mut session = DebugSession::new();
    assert!(session.resolve_response(999).is_none());

    let enable = {
        session.send_page_message(TaskDescribe::PageCreated(page_target("P1", "about:blank", false), None));
        let tab = session.get_tab_by_id(Some(&"P1".to_string())).expect("tab");
        tab.page_enable()
    };
    let (_, call_id) = session.execute_one_task(enable).expect("frames");
    assert_eq!(session.pending.len(), 1);

    // A response with an unknown id leaves the registry untouched.
    assert!(session.resolve_response(call_id + 1000).is_none());
    assert_eq!(session.pending.len(), 1);

    // The matching response empties it.
    assert!(session.resolve_response(call_id).is_some());
    assert_eq!(session.pending.len(), 0);
    assert!(session.resolve_response(call_id).is_none(), "a second take finds nothing");
}

#[test]
fn t_idle_poll_is_side_effect_free() {
    let mut session = DebugSession::new();
    session.send_page_message(TaskDescribe::PageCreated(page_target("P1", "about:blank", false), None));
    let ids_before = session.call_ids.next;
    let pending_before = session.pending.len();
    let seconds_before = session.seconds_from_start;
    let flag_before = session.flag;

    // Two idle rounds: only the fairness bit moves, and it returns.
    session.poll_order();
    session.poll_order();
    assert_eq!(session.call_ids.next, ids_before, "no call id was allocated");
    assert_eq!(session.pending.len(), pending_before);
    assert_eq!(session.seconds_from_start, seconds_before);
    assert_eq!(session.flag, flag_before);
}

#[test]
fn t_poll_fairness_flag() {
    let mut session = DebugSession::new();
    assert!(!session.flag);
    let first = session.poll_order();
    assert!(!first, "the timer goes first on the first round");
    assert!(session.flag);
    // Only the second source yielded while the first was merely not
    // ready: the first keeps its priority.
    session.poll_settle(false, true);
    assert!(!session.flag);
}

#[test]
fn t_interval_counts_seconds_and_drains_queues() {
    let mut session = DebugSession::new();
    let (w, _) = session.send_page_message(TaskDescribe::Interval);
    match w.page_response {
        PageResponse::SecondsElapsed(n) => assert_eq!(n, 1),
        _ => panic!("a tick yields SecondsElapsed"),
    }
    let (w, _) = session.send_page_message(TaskDescribe::Interval);
    assert!(matches!(w.page_response, PageResponse::SecondsElapsed(2)));

    // A deferred task is submitted by the next tick.
    session.send_page_message(TaskDescribe::PageCreated(page_target("P1", "about:blank", false), None));
    let deferred = {
        let tab = session.get_tab_by_id(Some(&"P1".to_string())).expect("tab");
        tab.page_enable()
    };
    let tab = session.get_tab_by_id_mut(Some(&"P1".to_string())).expect("tab");
    tab.defer_task(deferred);
    let (_, frames) = session.send_page_message(TaskDescribe::Interval);
    assert_eq!(frames.len(), 1, "the parked task went out with the tick");
    assert_eq!(session.pending.len(), 1);
}

#[test]
fn t_frame_by_name_finds_context() {
    let mut session = DebugSession::new();
    session.send_page_message(TaskDescribe::PageCreated(page_target("P1", "about:blank", false), None));

    // The sub-frame navigates, then its execution context is created.
    let cf = fields_for(&session, "P1");
    let sub = Frame {
        id: "F7".to_string(),
        parent_id: Some("F0".to_string()),
        name: Some("ddlogin-iframe".to_string()),
        url: "https://login.example.com".to_string(),
        unreachable_url: None,
    };
    session.send_page_message(TaskDescribe::FrameNavigated(sub, cf));

    let cf = fields_for(&session, "P1");
    let ctx = ExecutionContextDescription {
        id: 7,
        origin: "https://login.example.com".to_string(),
        name: String::new(),
        aux_frame_id: Some("F7".to_string()),
    };
    let (w, _) = session.send_page_message(TaskDescribe::RuntimeExecutionContextCreated(ctx, cf));
    assert!(matches!(w.page_response, PageResponse::RuntimeExecutionContextCreated(Some(_))));

    let tab = session.get_tab_by_id(Some(&"P1".to_string())).expect("tab");
    let found = tab
        .find_execution_context_id_by_frame_name("ddlogin-iframe")
        .expect("the frame's context is known");
    assert_eq!(found.id, 7);
}

#[test]
fn t_event_for_unknown_tab_fails_softly() {
    let mut session = DebugSession::new();
    let cf = CommonDescribeFieldsBuilder::new()
        .target_id("NOPE".to_string())
        .build();
    let (w, _) = session.send_page_message(TaskDescribe::FrameStartedLoading("F1".to_string(), cf));
    assert!(matches!(w.page_response, PageResponse::Fail));
}

#[test]
fn t_builder_failures() {
    let builder = RuntimeEvaluateTaskBuilder::new();
    let fields = CommonDescribeFieldsBuilder::new().build();
    match builder.build(fields) {
        Err(e) => assert_eq!(e, ChromePageError::Builder),
        Ok(_) => panic!("an evaluation without an expression cannot be built"),
    }
}

#[test]
fn t_query_selector_without_node_id_cannot_be_sent() {
    let mut session = DebugSession::new();
    session.send_page_message(TaskDescribe::PageCreated(page_target("P1", "about:blank", false), None));
    let tasks = {
        let tab = session.get_tab_by_id(Some(&"P1".to_string())).expect("tab");
        tab.query_selector_by_selector("#login")
    };
    // The chain is get-document then query-selector; the query cannot
    // go out before its node id is known.
    assert_eq!(tasks.len(), 2);
    let query = tasks.into_iter().nth(1).expect("second task");
    match session.execute_one_task(query) {
        Err(e) => assert_eq!(e, ChromePageError::TaskDescribeConvert),
        Ok(_) => panic!("a selector query without a node id has no wire form"),
    }
}

#[test]
fn t_browser_context_ids_deduplicated() {
    let mut session = DebugSession::new();
    session.send_page_message(TaskDescribe::PageCreated(page_target("P1", "about:blank", false), None));
    session.send_page_message(TaskDescribe::PageCreated(page_target("P2", "about:blank", false), None));
    let ids = session.get_browser_context_ids();
    assert_eq!(ids.len(), 1);
    assert_eq!(ids[0], "CTX1");
}

#[test]
fn t_browser_target_does_not_become_a_tab() {
    let mut session = DebugSession::new();
    let browser = TargetInfo {
        target_id: "B1".to_string(),
        target_type: TargetType::Browser,
        title: String::new(),
        url: String::new(),
        attached: true,
        opener_id: None,
        browser_context_id: None,
    };
    let (w, _) = session.send_page_message(TaskDescribe::PageCreated(browser, None));
    assert!(matches!(w.page_response, PageResponse::Fail));
    assert!(session.main_tab().is_none(), "only page targets become tabs");

    // The page target that follows does become the first tab.
    let (w, _) = session.send_page_message(TaskDescribe::PageCreated(
        page_target("P1", "about:blank", false),
        None,
    ));
    assert!(matches!(w.page_response, PageResponse::PageCreated(0)));
}

#[test]
fn t_unnamed_tasks_get_fresh_unique_ids() {
    let mut session = DebugSession::new();
    session.send_page_message(TaskDescribe::PageCreated(page_target("P1", "about:blank", false), None));

    let (first, second) = {
        let tab = session.get_tab_by_id(Some(&"P1".to_string())).expect("tab");
        (tab.page_enable(), tab.runtime_enable())
    };
    let (_, id1) = session.execute_one_task(first).expect("frames");
    let (_, id2) = session.execute_one_task(second).expect("frames");
    assert!(id1 < id2, "call ids are strictly increasing");

    let t1 = match session.resolve_response(id1).expect("parked") {
        TaskDescribe::TargetCallMethod(t) => t,
        _ => panic!("a method descriptor was parked"),
    };
    let t2 = match session.resolve_response(id2).expect("parked") {
        TaskDescribe::TargetCallMethod(t) => t,
        _ => panic!("a method descriptor was parked"),
    };
    // The descriptors carry the stamped call ids and fresh, distinct
    // task ids although the caller named none.
    assert_eq!(t1.get_call_id(), id1);
    assert_eq!(t2.get_call_id(), id2);
    let l1 = t1.get_task_id().expect("an unnamed task was given an id");
    let l2 = t2.get_task_id().expect("an unnamed task was given an id");
    assert_ne!(l1, l2, "two unnamed tasks are distinguishable");
}

#[test]
fn t_attach_request_has_a_wire_form() {
    let mut session = DebugSession::new();
    session.send_page_message(TaskDescribe::PageCreated(page_target("P1", "about:blank", false), None));
    let attach = {
        let tab = session.get_tab_by_id(Some(&"P1".to_string())).expect("tab");
        tab.attach_to_page()
    };
    let pending_before = session.pending.len();
    let (frame, call_id) = session.submit_attach(attach);
    let parts = parse_call(frame.as_slice()).expect("attach frame parses");
    assert_eq!(parts.call_id, call_id);
    assert_eq!(parts.method, b"Target.attachToTarget".to_vec());
    assert_eq!(parts.params, b"{\"targetId\":\"P1\"}".to_vec());
    // The attach goes out directly; its answer is an event, so nothing
    // is parked.
    assert_eq!(session.pending.len(), pending_before);
}

#[test]
fn t_plain_continue_and_abort() {
    let mut session = DebugSession::new();
    session.send_page_message(TaskDescribe::PageCreated(page_target("P1", "about:blank", false), None));
    for _ in 0..2 {
        let cf = fields_for(&session, "P1");
        let ev = RequestIntercepted {
            interception_id: "I1".to_string(),
            url: "https://example.com/a".to_string(),
        };
        session.send_page_message(TaskDescribe::RequestIntercepted(ev, cf));

        let continuation = {
            let tab = session.get_tab_by_id_mut(Some(&"P1".to_string())).expect("tab");
            tab.continue_intercepted_request_with_raw_response("I1".to_string(), None)
                .expect("live intercept")
        };
        let t = match continuation {
            TaskDescribe::TargetCallMethod(TargetCallMethodTask::ContinueInterceptedRequest(t)) => t,
            _ => panic!("a continuation descriptor"),
        };
        // A continuation without a raw response continues the request
        // plainly: it does not abort it.
        assert!(t.error_reason.is_none());
        assert!(t.raw_response.is_none());
        let params = TargetCallMethodTask::ContinueInterceptedRequest(t)
            .render_params()
            .expect("params render");
        assert_eq!(params, b"{\"interceptionId\":\"I1\"}".to_vec());
        break;
    }

    // An abort carries its reason explicitly.
    let cf = fields_for(&session, "P1");
    let ev = RequestIntercepted {
        interception_id: "I2".to_string(),
        url: "https://example.com/b".to_string(),
    };
    session.send_page_message(TaskDescribe::RequestIntercepted(ev, cf));
    let abort = {
        let tab = session.get_tab_by_id_mut(Some(&"P1".to_string())).expect("tab");
        tab.abort_intercepted_request("I2".to_string(), "Aborted".to_string())
            .expect("live intercept")
    };
    let t = match abort {
        TaskDescribe::TargetCallMethod(TargetCallMethodTask::ContinueInterceptedRequest(t)) => t,
        _ => panic!("an abort descriptor"),
    };
    assert_eq!(t.error_reason.as_deref(), Some("Aborted"));
    let tab = session.get_tab_by_id(Some(&"P1".to_string())).expect("tab");
    assert_eq!(tab.request_intercepted.count(), 0);
}

#[test]
fn t_execute_task_frames_the_whole_batch() {
    let mut session = DebugSession::new();
    session.send_page_message(TaskDescribe::PageCreated(page_target("P1", "about:blank", false), None));
    let tasks = {
        let tab = session.get_tab_by_id(Some(&"P1".to_string())).expect("tab");
        tab.query_selector_by_selector("#login")
    };
    // The chain is get-document then the selector query; the query has
    // no node id yet, so only the first task has a wire form.
    let frames = session.execute_task(tasks);
    assert_eq!(frames.len(), 1, "exactly the renderable tasks are framed");
    let parts = parse_call(frames[0].as_slice()).expect("the frame parses");
    assert_eq!(parts.method, b"DOM.getDocument".to_vec());
    assert_eq!(session.pending.len(), 1, "each framed task is parked");
    assert!(session.resolve_response(parts.call_id).is_some(), "under its own call id");

    // A batch of two renderable tasks goes out in order under
    // consecutive fresh ids.
    let (a, b) = {
        let tab = session.get_tab_by_id(Some(&"P1".to_string())).expect("tab");
        (tab.page_enable(), tab.runtime_enable())
    };
    let frames = session.execute_task(vec![a, b]);
    assert_eq!(frames.len(), 2);
    let p0 = parse_call(frames[0].as_slice()).expect("first frame parses");
    let p1 = parse_call(frames[1].as_slice()).expect("second frame parses");
    assert_eq!(p0.method, b"Page.enable".to_vec());
    assert_eq!(p1.method, b"Runtime.enable".to_vec());
    assert!(p0.call_id < p1.call_id);
    assert_eq!(session.pending.len(), 2);
}

#[test]
fn t_find_target_by_session() {
    let mut session = DebugSession::new();
    session.send_page_message(TaskDescribe::PageCreated(page_target("P1", "about:blank", false), None));
    assert!(session.find_target_by_session("S1").is_none(), "no tab is attached yet");
    session.send_page_message(TaskDescribe::PageAttached(
        page_target("P1", "about:blank", false),
        SessionId::new("S1".to_string()),
    ));
    assert_eq!(session.find_target_by_session("S1").as_deref(), Some("P1"));
    assert!(session.find_target_by_session("S2").is_none());
}

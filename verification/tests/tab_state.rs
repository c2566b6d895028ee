use headless_chrome::page_message::ChangingFrame;
use headless_chrome::protocol_model::{
    Frame, FrameAttachedParams, Node, RequestWillBeSent, ScreenshotFormat, TargetInfo, TargetType,
};
use headless_chrome::tab::Tab;
use headless_chrome::task_describe::{PrintToPdfTaskBuilder, TargetCallMethodTask, TaskDescribe};
use headless_chrome::SessionId;

fn page_info(url: &str) -> TargetInfo {
    TargetInfo {
        target_id: "P1".to_string(),
        target_type: TargetType::Page,
        title: String::new(),
        url: url.to_string(),
        attached: false,
        opener_id: None,
        browser_context_id: None,
    }
}

fn frame(id: &str, parent: Option<&str>, url: &str) -> Frame {
    Frame {
        id: id.to_string(),
        parent_id: parent.map(|p| p.to_string()),
        name: None,
        url: url.to_string(),
        unreachable_url: None,
    }
}

#[test]
fn t_frame_lifecycle_progresses() {
    let mut tab = Tab::new(page_info("about:blank"));
    let fid = "F0".to_string();

    tab._frame_attached(FrameAttachedParams {
        frame_id: fid.clone(),
        parent_frame_id: String::new(),
    });
    assert!(matches!(
        tab.changing_frames.get(&fid),
        Some(ChangingFrame::Attached(_))
    ));

    tab._frame_started_loading(fid.clone());
    assert!(matches!(
        tab.changing_frames.get(&fid),
        Some(ChangingFrame::StartedLoading(_))
    ));

    tab._frame_navigated(frame("F0", None, "https://example.com"));
    assert!(matches!(
        tab.changing_frames.get(&fid),
        Some(ChangingFrame::Navigated(_))
    ));

    tab._frame_stopped_loading(&fid);
    match tab.changing_frames.get(&fid) {
        Some(ChangingFrame::StoppedLoading(f)) => assert_eq!(f.url, "https://example.com"),
        _ => panic!("a navigated frame is promoted on stopped-loading"),
    }

    tab._frame_detached(&fid);
    assert!(tab.changing_frames.get(&fid).is_none());
}

#[test]
fn t_stopped_loading_without_navigation_changes_nothing() {
    let mut tab = Tab::new(page_info("about:blank"));
    let fid = "F0".to_string();

    // No record at all: the event leaves the map empty.
    tab._frame_stopped_loading(&fid);
    assert!(tab.changing_frames.get(&fid).is_none());

    // A started-loading record is not promoted: the frame never
    // reached navigation (for instance a network error).
    tab._frame_started_loading(fid.clone());
    tab._frame_stopped_loading(&fid);
    assert!(matches!(
        tab.changing_frames.get(&fid),
        Some(ChangingFrame::StartedLoading(_))
    ));
}

#[test]
fn t_stopped_loading_is_never_downgraded() {
    let mut tab = Tab::new(page_info("about:blank"));
    let fid = "F0".to_string();
    tab._frame_navigated(frame("F0", None, "https://example.com"));
    tab._frame_stopped_loading(&fid);
    tab._frame_stopped_loading(&fid);
    assert!(matches!(
        tab.changing_frames.get(&fid),
        Some(ChangingFrame::StoppedLoading(_))
    ));
}

#[test]
fn t_main_frame_is_the_parentless_navigated_frame() {
    let mut tab = Tab::new(page_info("about:blank"));
    assert!(tab.main_frame().is_none());
    tab._frame_navigated(frame("F9", Some("F0"), "https://inner.example.com"));
    assert!(tab.main_frame().is_none(), "a child frame is not the main frame");
    tab._frame_navigated(frame("F0", None, "https://example.com"));
    let mf = tab.main_frame().expect("main frame");
    assert_eq!(mf.id, "F0");
    assert_eq!(tab.get_url(), "https://example.com");
    assert!(tab.is_at_url("https://example.com"));
    assert!(!tab.is_blank_url());
}

#[test]
fn t_url_before_navigation_is_the_target_url() {
    let tab = Tab::new(page_info("about:blank"));
    assert_eq!(tab.get_url(), "about:blank");
    assert!(tab.is_blank_url());
    assert!(!tab.is_chrome_error_chromewebdata());
}

#[test]
fn t_node_cache() {
    let mut tab = Tab::new(page_info("about:blank"));
    let child = Node {
        node_id: 12,
        parent_id: Some(3),
        backend_node_id: 100,
        node_name: "DIV".to_string(),
    };
    tab.node_arrived(3, vec![child]);
    let found = tab.find_node_by_id(Some(12)).expect("cached node");
    assert_eq!(found.backend_node_id, 100);
    assert!(tab.find_node_by_id(Some(13)).is_none());
    assert!(tab.find_node_by_id(None).is_none());

    // A returned node without a parent lands in the bucket of node 0.
    tab.node_returned(Some(Node {
        node_id: 44,
        parent_id: None,
        backend_node_id: 200,
        node_name: "HTML".to_string(),
    }));
    assert!(tab.find_node_by_id(Some(44)).is_some());
    assert!(tab.temporary_node_holder.get(0).is_some());

    // A missing node changes nothing.
    tab.node_returned(None);
    assert_eq!(tab.temporary_node_holder.count(), 2);
}

#[test]
fn t_take_request() {
    let mut tab = Tab::new(page_info("about:blank"));
    tab.request_will_be_sent(RequestWillBeSent {
        request_id: "R1".to_string(),
        frame_id: None,
        url: "https://example.com/x".to_string(),
    });
    assert_eq!(tab.event_statistics.request_will_be_sent, 1);
    let taken = tab.take_request(&"R1".to_string()).expect("live request");
    assert_eq!(taken.url, "https://example.com/x");
    assert!(tab.take_request(&"R1".to_string()).is_none(), "taking twice finds nothing");
}

#[test]
fn t_page_attached_sets_session_and_counter() {
    let mut tab = Tab::new(page_info("about:blank"));
    assert_eq!(tab.event_statistics.page_attached, 0);
    assert!(tab.session_id.is_none());
    tab.page_attached(SessionId::new("S1".to_string()));
    assert_eq!(tab.event_statistics.page_attached, 1);
    assert_eq!(tab.session_id.as_ref().map(|s| s.as_str()), Some("S1"));
}

#[test]
fn t_attach_to_page_names_the_target() {
    let tab = Tab::new(page_info("about:blank"));
    let attach = tab.attach_to_page();
    assert_eq!(attach.target_id, "P1");
}

#[test]
fn t_find_navigated_frame_with_filter() {
    let mut tab = Tab::new(page_info("about:blank"));
    tab._frame_navigated(frame("F0", None, "https://example.com"));
    tab._frame_navigated(frame("F1", Some("F0"), "https://inner.example.com"));
    let hit = tab
        .find_navigated_frame(|f: &Frame| f.url.contains("inner"))
        .expect("the filter matches the child frame");
    assert_eq!(hit.id, "F1");
    assert!(tab.find_navigated_frame(|f: &Frame| f.url.contains("nowhere")).is_none());
}

#[test]
fn t_print_to_pdf_dimensions() {
    let tab = Tab::new(page_info("about:blank"));
    let builder = PrintToPdfTaskBuilder::new()
        .landscape(true)
        .paper_size_thousandths(8500, 11000);
    let task = tab.print_to_pdf(Some(42), Some(builder));
    let t = match task {
        TaskDescribe::TargetCallMethod(TargetCallMethodTask::PrintToPDF(t)) => t,
        _ => panic!("print_to_pdf builds a PrintToPDF task"),
    };
    assert_eq!(t.common_fields.task_id, Some(42));
    let params = TargetCallMethodTask::PrintToPDF(t).render_params().expect("params render");
    let v: serde_json::Value = serde_json::from_slice(&params).expect("params are JSON");
    assert_eq!(v["landscape"], serde_json::Value::from(true));
    assert_eq!(v["paperWidth"].as_str(), None);
    // Thousandths render as a decimal fraction.
    assert_eq!(v["paperWidth"].as_f64(), Some(8.5));
    assert_eq!(v["paperHeight"].as_f64(), Some(11.0));
    assert!(v.get("marginTop").is_none(), "unset options are not written");
}

#[test]
fn t_capture_screenshot_chain_shape() {
    let tab = Tab::new(page_info("about:blank"));
    let tasks = tab.capture_screenshot_by_selector("#hero", ScreenshotFormat::Png, true, Some(9));
    assert_eq!(tasks.len(), 4);
    assert!(matches!(
        tasks[0],
        TaskDescribe::TargetCallMethod(TargetCallMethodTask::GetDocument(_))
    ));
    assert!(matches!(
        tasks[1],
        TaskDescribe::TargetCallMethod(TargetCallMethodTask::QuerySelector(_))
    ));
    assert!(matches!(
        tasks[2],
        TaskDescribe::TargetCallMethod(TargetCallMethodTask::GetBoxModel(_))
    ));
    match &tasks[3] {
        TaskDescribe::TargetCallMethod(TargetCallMethodTask::CaptureScreenshot(t)) => {
            assert_eq!(t.selector.as_deref(), Some("#hero"));
            assert_eq!(t.common_fields.task_id, Some(9));
            assert!(t.from_surface);
        }
        _ => panic!("the chain ends with the screenshot"),
    }
}

#[test]
fn t_evaluate_params_render() {
    let tab = Tab::new(page_info("about:blank"));
    let task = tab.evaluate_expression_named("3+3", 100);
    let t = match task {
        TaskDescribe::TargetCallMethod(t) => t,
        _ => panic!("evaluation is a method call"),
    };
    assert_eq!(t.method_name(), "Runtime.evaluate");
    let params = t.render_params().expect("params render");
    let v: serde_json::Value = serde_json::from_slice(&params).expect("params are JSON");
    assert_eq!(v["expression"].as_str(), Some("3+3"));
}

#[test]
fn t_intercept_same_id_twice_replaces() {
    let mut tab = Tab::new(page_info("about:blank"));
    tab.request_intercepted_arrived(headless_chrome::protocol_model::RequestIntercepted {
        interception_id: "I1".to_string(),
        url: "https://example.com/a".to_string(),
    });
    tab.request_intercepted_arrived(headless_chrome::protocol_model::RequestIntercepted {
        interception_id: "I1".to_string(),
        url: "https://example.com/b".to_string(),
    });
    assert_eq!(tab.request_intercepted.count(), 1, "one record per interception id");
    let record = tab.request_intercepted.get(&"I1".to_string()).expect("record");
    assert_eq!(record.url, "https://example.com/b", "the later event replaced the earlier");
}

#[test]
fn t_method_error_fails_per_task() {
    let tab = Tab::new(page_info("about:blank"));
    let task = tab.navigate_to_named("https://example.com", 55);
    let method_task = match task {
        TaskDescribe::TargetCallMethod(t) => t,
        _ => panic!("navigation is a method call"),
    };
    let w = headless_chrome::target_call_methods::fail_response_for(&method_task, None);
    assert_eq!(w.task_id, Some(55));
    assert!(matches!(
        w.page_response,
        headless_chrome::page_message::PageResponse::Fail
    ));
}

#[test]
fn t_tab_not_found_error() {
    let session = headless_chrome::debug_session::DebugSession::new();
    match session.get_tab_by_id(Some(&"missing".to_string())) {
        Err(e) => assert_eq!(e, headless_chrome::errors::ChromePageError::TabNotFound),
        Ok(_) => panic!("an empty engine has no tabs"),
    }
}

#[test]
fn t_error_kind_descriptions() {
    assert_eq!(
        headless_chrome::errors::ChromePageError::Connection.describe(),
        "connection error"
    );
    assert_eq!(
        headless_chrome::errors::ChromePageError::ProtocolParse.describe(),
        "protocol parse error"
    );
    assert_eq!(
        headless_chrome::errors::ChromePageError::TabNotFound.describe(),
        "tab not found"
    );
}

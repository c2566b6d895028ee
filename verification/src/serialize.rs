//! Serialisation glue: each method-call task knows its CDP method name
//! and renders its params object, byte for byte.

use vstd::prelude::*;
use vstd::string::StringSliceAdditionalSpecFns;
use vstd::utf8::encode_utf8;

use crate::codec::{push_dec, push_escaped_str, spec_bool_val_bytes, spec_dec_digits, spec_escape};
use crate::protocol_model::{ScreenshotFormat, Viewport};
use crate::task_describe::{RequestPattern, TargetCallMethodTask};

verus! {

/// The separator written before a field: nothing for the first, a
/// comma afterwards.
pub open spec fn spec_sep(started: bool) -> Seq<u8> {
    if started {
        seq![44u8]
    } else {
        Seq::empty()
    }
}

/// `"key":` as written before a field's value.
pub open spec fn spec_key(k: Seq<u8>) -> Seq<u8> {
    seq![34u8] + k + seq![34u8, 58u8]
}

/// A JSON string value holding exactly the bytes `v`.
pub open spec fn spec_json_string(v: Seq<u8>) -> Seq<u8> {
    seq![34u8] + spec_escape(v) + seq![34u8]
}

/// The digits of `n` with a leading minus when negative.
pub open spec fn spec_i64_digits(n: int) -> Seq<u8> {
    if n < 0 {
        seq![45u8] + spec_dec_digits((-n) as nat)
    } else {
        spec_dec_digits(n as nat)
    }
}

/// A value in thousandths, written as a decimal fraction.
pub open spec fn spec_fixed3(n: u64) -> Seq<u8> {
    spec_dec_digits((n / 1000) as nat) + seq![
        46u8,
        (48 + ((n / 100) % 10)) as u8,
        (48 + ((n / 10) % 10)) as u8,
        (48 + (n % 10)) as u8,
    ]
}

/// What one optional field appends: nothing when absent, else the
/// separator, the key and the rendered value.
pub open spec fn spec_opt_field(started: bool, key: Seq<u8>, rendered: Option<Seq<u8>>) -> Seq<
    u8,
> {
    match rendered {
        Some(v) => spec_sep(started) + spec_key(key) + v,
        None => Seq::empty(),
    }
}

/// Whether any field has been written after this one.
pub open spec fn spec_opt_started(started: bool, rendered: Option<Seq<u8>>) -> bool {
    started || rendered is Some
}

/// The view of an optionally rendered value.
pub open spec fn view_opt(v: &Option<Vec<u8>>) -> Option<Seq<u8>> {
    match v {
        Some(b) => Some(b@),
        None => None,
    }
}

/// Append one optional field.
fn append_opt_field(out: &mut Vec<u8>, started: &mut bool, key: &str, rendered: &Option<Vec<u8>>)
    ensures
        final(out)@ == old(out)@ + spec_opt_field(
            *old(started),
            key.spec_bytes(),
            view_opt(rendered),
        ),
        *final(started) == spec_opt_started(*old(started), view_opt(rendered)),
{
    match rendered {
        Some(v) => {
            if *started {
                out.push(44);
            }
            out.push(34);
            crate::codec::push_str_bytes(out, key);
            out.push(34);
            out.push(58);
            crate::codec::push_bytes(out, v.as_slice());
            *started = true;
            proof {
                assert(out@ =~= old(out)@ + spec_opt_field(
                    *old(started),
                    key.spec_bytes(),
                    view_opt(rendered),
                ));
            }
        },
        None => {},
    }
}

/// Render a boolean value.
fn bool_vec(b: bool) -> (r: Vec<u8>)
    ensures
        r@ == spec_bool_val_bytes(b),
{
    let mut v: Vec<u8> = Vec::new();
    if b {
        v.push(116);
        v.push(114);
        v.push(117);
        v.push(101);
    } else {
        v.push(102);
        v.push(97);
        v.push(108);
        v.push(115);
        v.push(101);
    }
    proof {
        assert(v@ =~= spec_bool_val_bytes(b));
    }
    v
}

/// Render an unsigned number.
fn dec_vec(n: u64) -> (r: Vec<u8>)
    ensures
        r@ == spec_dec_digits(n as nat),
{
    let mut v: Vec<u8> = Vec::new();
    push_dec(&mut v, n);
    proof {
        assert(v@ =~= spec_dec_digits(n as nat));
    }
    v
}

/// Render a signed number.
fn i64_vec(n: i64) -> (r: Vec<u8>)
    ensures
        r@ == spec_i64_digits(n as int),
{
    let mut v: Vec<u8> = Vec::new();
    if n < 0 {
        v.push(45);
        let m: u64 = if n == i64::MIN {
            9223372036854775808u64
        } else {
            (-n) as u64
        };
        push_dec(&mut v, m);
        proof {
            assert(v@ =~= spec_i64_digits(n as int));
        }
    } else {
        push_dec(&mut v, n as u64);
    }
    v
}

/// Render a value in thousandths as a decimal fraction.
fn fixed3_vec(n: u64) -> (r: Vec<u8>)
    ensures
        r@ == spec_fixed3(n),
{
    let mut v: Vec<u8> = Vec::new();
    push_dec(&mut v, n / 1000);
    v.push(46);
    v.push(48 + (((n / 100) % 10) as u8));
    v.push(48 + (((n / 10) % 10) as u8));
    v.push(48 + ((n % 10) as u8));
    proof {
        assert(v@ =~= spec_fixed3(n));
    }
    v
}

/// Render a JSON string value.
fn json_string_vec(s: &str) -> (r: Vec<u8>)
    ensures
        r@ == spec_json_string(encode_utf8(s@)),
{
    let mut v: Vec<u8> = Vec::new();
    v.push(34);
    push_escaped_str(&mut v, s);
    v.push(34);
    proof {
        assert(v@ =~= spec_json_string(encode_utf8(s@)));
    }
    v
}

/// The rendered clip rectangle of a screenshot.
pub open spec fn spec_viewport(v: Viewport) -> Seq<u8> {
    seq![123u8] + spec_key("x".spec_bytes()) + spec_i64_digits(v.x as int) + seq![44u8] + spec_key(
        "y".spec_bytes(),
    ) + spec_i64_digits(v.y as int) + seq![44u8] + spec_key("width".spec_bytes()) + spec_i64_digits(
        v.width as int,
    ) + seq![44u8] + spec_key("height".spec_bytes()) + spec_i64_digits(v.height as int) + seq![44u8]
        + spec_key("scale".spec_bytes()) + spec_fixed3(v.scale_thousandths) + seq![125u8]
}

fn viewport_vec(v: &Viewport) -> (r: Vec<u8>)
    ensures
        r@ == spec_viewport(*v),
{
    let mut out: Vec<u8> = Vec::new();
    let mut started = false;
    out.push(123);
    append_opt_field(&mut out, &mut started, "x", &Some(i64_vec(v.x)));
    append_opt_field(&mut out, &mut started, "y", &Some(i64_vec(v.y)));
    append_opt_field(&mut out, &mut started, "width", &Some(i64_vec(v.width)));
    append_opt_field(&mut out, &mut started, "height", &Some(i64_vec(v.height)));
    append_opt_field(&mut out, &mut started, "scale", &Some(fixed3_vec(v.scale_thousandths)));
    out.push(125);
    proof {
        assert(out@ =~= spec_viewport(*v));
    }
    out
}

/// The rendered array of interception patterns.
pub open spec fn spec_patterns(ps: Seq<RequestPattern>) -> Seq<u8>
    decreases ps.len(),
{
    if ps.len() == 0 {
        Seq::empty()
    } else {
        spec_patterns(ps.drop_last()) + (if ps.len() > 1 {
            seq![44u8]
        } else {
            Seq::empty()
        }) + spec_pattern(ps.last())
    }
}

/// One rendered interception pattern.
pub open spec fn spec_pattern(p: RequestPattern) -> Seq<u8> {
    match p.url_pattern {
        Some(u) => seq![123u8] + spec_key("urlPattern".spec_bytes()) + spec_json_string(
            encode_utf8(u@),
        ) + seq![125u8],
        None => seq![123u8, 125u8],
    }
}

fn pattern_vec(p: &RequestPattern) -> (r: Vec<u8>)
    ensures
        r@ == spec_pattern(*p),
{
    let mut out: Vec<u8> = Vec::new();
    let mut started = false;
    out.push(123);
    match &p.url_pattern {
        Some(u) => {
            append_opt_field(&mut out, &mut started, "urlPattern", &Some(json_string_vec(u.as_str())));
        },
        None => {},
    }
    out.push(125);
    proof {
        assert(out@ =~= spec_pattern(*p));
    }
    out
}

fn patterns_vec(ps: &Vec<RequestPattern>) -> (r: Vec<u8>)
    ensures
        r@ == spec_patterns(ps@),
{
    let mut out: Vec<u8> = Vec::new();
    let n = ps.len();
    let mut i: usize = 0;
    while i < n
        invariant
            n == ps@.len(),
            i <= n,
            out@ == spec_patterns(ps@.subrange(0, i as int)),
        decreases n - i,
    {
        if i > 0 {
            out.push(44);
        }
        let piece = pattern_vec(&ps[i]);
        crate::codec::push_bytes(&mut out, piece.as_slice());
        proof {
            let pre = ps@.subrange(0, i as int);
            let cur = ps@.subrange(0, i + 1);
            assert(cur.drop_last() =~= pre);
            assert(cur.last() == ps@[i as int]);
            assert(out@ =~= spec_patterns(cur));
        }
        i = i + 1;
    }
    proof {
        assert(ps@.subrange(0, ps@.len() as int) =~= ps@);
    }
    out
}


/// A field written after another one: a comma, the key, the value.
pub open spec fn spec_tail_field(key: Seq<u8>, rendered: Option<Seq<u8>>) -> Seq<u8> {
    spec_opt_field(true, key, rendered)
}

/// Optionally rendered values, at spec level.
pub open spec fn opt_bool_r(v: Option<bool>) -> Option<Seq<u8>> {
    match v {
        Some(b) => Some(spec_bool_val_bytes(b)),
        None => None,
    }
}

/// An optional unsigned number, rendered.
pub open spec fn opt_u64_r(v: Option<u64>) -> Option<Seq<u8>> {
    match v {
        Some(n) => Some(spec_dec_digits(n as nat)),
        None => None,
    }
}

/// An optional value in thousandths, rendered.
pub open spec fn opt_fixed3_r(v: Option<u64>) -> Option<Seq<u8>> {
    match v {
        Some(n) => Some(spec_fixed3(n)),
        None => None,
    }
}

/// An optional string, rendered.
pub open spec fn opt_string_r(v: Option<Seq<char>>) -> Option<Seq<u8>> {
    match v {
        Some(t) => Some(spec_json_string(encode_utf8(t))),
        None => None,
    }
}

/// The view of an optional string field.
pub open spec fn view_opt_string(v: Option<String>) -> Option<Seq<char>> {
    match v {
        Some(t) => Some(t@),
        None => None,
    }
}

fn opt_bool_vec(v: &Option<bool>) -> (r: Option<Vec<u8>>)
    ensures
        view_opt(&r) == opt_bool_r(*v),
{
    match v {
        Some(b) => Some(bool_vec(*b)),
        None => None,
    }
}

fn opt_u64_vec(v: &Option<u64>) -> (r: Option<Vec<u8>>)
    ensures
        view_opt(&r) == opt_u64_r(*v),
{
    match v {
        Some(n) => Some(dec_vec(*n)),
        None => None,
    }
}

fn opt_fixed3_vec(v: &Option<u64>) -> (r: Option<Vec<u8>>)
    ensures
        view_opt(&r) == opt_fixed3_r(*v),
{
    match v {
        Some(n) => Some(fixed3_vec(*n)),
        None => None,
    }
}

fn opt_string_vec(v: &Option<String>) -> (r: Option<Vec<u8>>)
    ensures
        view_opt(&r) == opt_string_r(view_opt_string(*v)),
{
    match v {
        Some(t) => Some(json_string_vec(t.as_str())),
        None => None,
    }
}

impl TargetCallMethodTask {
    /// The CDP method name the call goes out under.
    pub open spec fn spec_method_name(&self) -> Seq<char> {
        match self {
            TargetCallMethodTask::NavigateTo(_) => "Page.navigate"@,
            TargetCallMethodTask::QuerySelector(_) => "DOM.querySelector"@,
            TargetCallMethodTask::DescribeNode(_) => "DOM.describeNode"@,
            TargetCallMethodTask::PrintToPDF(_) => "Page.printToPDF"@,
            TargetCallMethodTask::GetBoxModel(_) => "DOM.getBoxModel"@,
            TargetCallMethodTask::GetDocument(_) => "DOM.getDocument"@,
            TargetCallMethodTask::PageEnable(_) => "Page.enable"@,
            TargetCallMethodTask::PageClose(_) => "Page.close"@,
            TargetCallMethodTask::GetLayoutMetrics(_) => "Page.getLayoutMetrics"@,
            TargetCallMethodTask::BringToFront(_) => "Page.bringToFront"@,
            TargetCallMethodTask::RuntimeEnable(_) => "Runtime.enable"@,
            TargetCallMethodTask::CaptureScreenshot(_) => "Page.captureScreenshot"@,
            TargetCallMethodTask::RuntimeEvaluate(_) => "Runtime.evaluate"@,
            TargetCallMethodTask::RuntimeGetProperties(_) => "Runtime.getProperties"@,
            TargetCallMethodTask::RuntimeCallFunctionOn(_) => "Runtime.callFunctionOn"@,
            TargetCallMethodTask::NetworkEnable(_) => "Network.enable"@,
            TargetCallMethodTask::SetRequestInterception(_) => "Network.setRequestInterception"@,
            TargetCallMethodTask::ContinueInterceptedRequest(_) => "Network.continueInterceptedRequest"@,
            TargetCallMethodTask::GetResponseBodyForInterception(_) => "Network.getResponseBodyForInterception"@,
            TargetCallMethodTask::PageReload(_) => "Page.reload"@,
            TargetCallMethodTask::CreateTarget(_) => "Target.createTarget"@,
            TargetCallMethodTask::TargetSetDiscoverTargets(_, _) => "Target.setDiscoverTargets"@,
        }
    }

    /// The CDP method name the call goes out under.
    pub fn method_name(&self) -> (r: &'static str)
        ensures
            r@ == self.spec_method_name(),
    {
        match self {
            TargetCallMethodTask::NavigateTo(_) => "Page.navigate",
            TargetCallMethodTask::QuerySelector(_) => "DOM.querySelector",
            TargetCallMethodTask::DescribeNode(_) => "DOM.describeNode",
            TargetCallMethodTask::PrintToPDF(_) => "Page.printToPDF",
            TargetCallMethodTask::GetBoxModel(_) => "DOM.getBoxModel",
            TargetCallMethodTask::GetDocument(_) => "DOM.getDocument",
            TargetCallMethodTask::PageEnable(_) => "Page.enable",
            TargetCallMethodTask::PageClose(_) => "Page.close",
            TargetCallMethodTask::GetLayoutMetrics(_) => "Page.getLayoutMetrics",
            TargetCallMethodTask::BringToFront(_) => "Page.bringToFront",
            TargetCallMethodTask::RuntimeEnable(_) => "Runtime.enable",
            TargetCallMethodTask::CaptureScreenshot(_) => "Page.captureScreenshot",
            TargetCallMethodTask::RuntimeEvaluate(_) => "Runtime.evaluate",
            TargetCallMethodTask::RuntimeGetProperties(_) => "Runtime.getProperties",
            TargetCallMethodTask::RuntimeCallFunctionOn(_) => "Runtime.callFunctionOn",
            TargetCallMethodTask::NetworkEnable(_) => "Network.enable",
            TargetCallMethodTask::SetRequestInterception(_) => "Network.setRequestInterception",
            TargetCallMethodTask::ContinueInterceptedRequest(_) => "Network.continueInterceptedRequest",
            TargetCallMethodTask::GetResponseBodyForInterception(_) => "Network.getResponseBodyForInterception",
            TargetCallMethodTask::PageReload(_) => "Page.reload",
            TargetCallMethodTask::CreateTarget(_) => "Target.createTarget",
            TargetCallMethodTask::TargetSetDiscoverTargets(_, _) => "Target.setDiscoverTargets",
        }
    }

    /// The rendered params object of the call. Fails exactly for a
    /// selector query that has not been given its ancestor node id.
    pub open spec fn spec_params(&self) -> Option<Seq<u8>> {
        match self {
            TargetCallMethodTask::NavigateTo(t) => Some(
                seq![123u8] + spec_key("url".spec_bytes()) + spec_json_string(encode_utf8(t.url@))
                    + seq![125u8],
            ),
            TargetCallMethodTask::QuerySelector(t) => match t.node_id {
                Some(n) => Some(
                    seq![123u8] + spec_key("nodeId".spec_bytes()) + spec_dec_digits(n as nat)
                        + spec_tail_field(
                        "selector".spec_bytes(),
                        Some(spec_json_string(encode_utf8(t.selector@))),
                    ) + seq![125u8],
                ),
                None => None,
            },
            TargetCallMethodTask::DescribeNode(t) => Some(
                seq![123u8] + spec_key("pierce".spec_bytes()) + spec_bool_val_bytes(t.pierce)
                    + spec_tail_field("nodeId".spec_bytes(), opt_u64_r(t.node_id))
                    + spec_tail_field("backendNodeId".spec_bytes(), opt_u64_r(t.backend_node_id))
                    + spec_tail_field(
                    "depth".spec_bytes(),
                    match t.depth {
                        Some(d) => Some(spec_i64_digits(d as int)),
                        None => None,
                    },
                ) + seq![125u8],
            ),
            TargetCallMethodTask::PrintToPDF(t) => Some(spec_print_to_pdf_params(t)),
            TargetCallMethodTask::GetBoxModel(t) => Some(spec_get_box_model_params(t)),
            TargetCallMethodTask::GetDocument(t) => Some(
                seq![123u8] + spec_key("pierce".spec_bytes()) + spec_bool_val_bytes(t.pierce)
                    + spec_tail_field(
                    "depth".spec_bytes(),
                    match t.depth {
                        Some(d) => Some(spec_dec_digits(d as nat)),
                        None => None,
                    },
                ) + seq![125u8],
            ),
            TargetCallMethodTask::PageEnable(_) => Some(seq![123u8, 125u8]),
            TargetCallMethodTask::PageClose(_) => Some(seq![123u8, 125u8]),
            TargetCallMethodTask::GetLayoutMetrics(_) => Some(seq![123u8, 125u8]),
            TargetCallMethodTask::BringToFront(_) => Some(seq![123u8, 125u8]),
            TargetCallMethodTask::RuntimeEnable(_) => Some(seq![123u8, 125u8]),
            TargetCallMethodTask::CaptureScreenshot(t) => Some(spec_capture_screenshot_params(t)),
            TargetCallMethodTask::RuntimeEvaluate(t) => Some(
                seq![123u8] + spec_key("expression".spec_bytes()) + spec_json_string(
                    encode_utf8(t.expression@),
                ) + spec_tail_field("contextId".spec_bytes(), opt_u64_r(t.context_id))
                    + spec_tail_field("silent".spec_bytes(), opt_bool_r(t.silent))
                    + spec_tail_field("returnByValue".spec_bytes(), opt_bool_r(t.return_by_value))
                    + seq![125u8],
            ),
            TargetCallMethodTask::RuntimeGetProperties(t) => Some(
                seq![123u8] + spec_key("objectId".spec_bytes()) + spec_json_string(
                    encode_utf8(t.object_id@),
                ) + seq![125u8],
            ),
            TargetCallMethodTask::RuntimeCallFunctionOn(t) => Some(
                seq![123u8] + spec_key("functionDeclaration".spec_bytes()) + spec_json_string(
                    encode_utf8(t.function_declaration@),
                ) + spec_tail_field(
                    "objectId".spec_bytes(),
                    opt_string_r(view_opt_string(t.object_id)),
                ) + seq![125u8],
            ),
            TargetCallMethodTask::NetworkEnable(_) => Some(seq![123u8, 125u8]),
            TargetCallMethodTask::SetRequestInterception(t) => Some(
                seq![123u8] + spec_key("patterns".spec_bytes()) + seq![91u8] + spec_patterns(
                    t.patterns@,
                ) + seq![93u8, 125u8],
            ),
            TargetCallMethodTask::ContinueInterceptedRequest(t) => Some(
                seq![123u8] + spec_key("interceptionId".spec_bytes()) + spec_json_string(
                    encode_utf8(t.interception_id@),
                ) + spec_tail_field(
                    "rawResponse".spec_bytes(),
                    opt_string_r(view_opt_string(t.raw_response)),
                ) + spec_tail_field(
                    "errorReason".spec_bytes(),
                    opt_string_r(view_opt_string(t.error_reason)),
                ) + seq![125u8],
            ),
            TargetCallMethodTask::GetResponseBodyForInterception(t) => Some(
                seq![123u8] + spec_key("interceptionId".spec_bytes()) + spec_json_string(
                    encode_utf8(t.interception_id@),
                ) + spec_tail_field(
                    "requestId".spec_bytes(),
                    opt_string_r(view_opt_string(t.request_id)),
                ) + seq![125u8],
            ),
            TargetCallMethodTask::CreateTarget(t) => Some(
                seq![123u8] + spec_key("url".spec_bytes()) + spec_json_string(encode_utf8(t.url@))
                    + seq![125u8],
            ),
            TargetCallMethodTask::PageReload(t) => Some(
                seq![123u8] + spec_key("ignoreCache".spec_bytes()) + spec_bool_val_bytes(
                    t.ignore_cache,
                ) + seq![125u8],
            ),
            TargetCallMethodTask::TargetSetDiscoverTargets(enable, _) => Some(
                seq![123u8] + spec_key("discover".spec_bytes()) + spec_bool_val_bytes(*enable)
                    + seq![125u8],
            ),
        }
    }

    /// Render the params object of the call. Fails exactly for a
    /// selector query that has not been given its ancestor node id.
    pub fn render_params(&self) -> (r: Result<Vec<u8>, crate::errors::ChromePageError>)
        ensures
            r is Ok <==> self.spec_params() is Some,
            r matches Ok(v) ==> Some(v@) == self.spec_params(),
            r matches Err(e) ==> e is TaskDescribeConvert,
    {
        match self {
            TargetCallMethodTask::NavigateTo(t) => Ok(render_navigate_params(t)),
            TargetCallMethodTask::QuerySelector(t) => render_query_selector_params(t),
            TargetCallMethodTask::DescribeNode(t) => Ok(render_describe_node_params(t)),
            TargetCallMethodTask::PrintToPDF(t) => Ok(render_print_to_pdf_params(t)),
            TargetCallMethodTask::GetBoxModel(t) => Ok(render_get_box_model_params(t)),
            TargetCallMethodTask::GetDocument(t) => Ok(render_get_document_params(t)),
            TargetCallMethodTask::PageEnable(_) => Ok(empty_params()),
            TargetCallMethodTask::PageClose(_) => Ok(empty_params()),
            TargetCallMethodTask::GetLayoutMetrics(_) => Ok(empty_params()),
            TargetCallMethodTask::BringToFront(_) => Ok(empty_params()),
            TargetCallMethodTask::RuntimeEnable(_) => Ok(empty_params()),
            TargetCallMethodTask::CaptureScreenshot(t) => Ok(render_capture_screenshot_params(t)),
            TargetCallMethodTask::RuntimeEvaluate(t) => Ok(render_evaluate_params(t)),
            TargetCallMethodTask::RuntimeGetProperties(t) => Ok(render_get_properties_params(t)),
            TargetCallMethodTask::RuntimeCallFunctionOn(t) => Ok(render_call_function_on_params(t)),
            TargetCallMethodTask::NetworkEnable(_) => Ok(empty_params()),
            TargetCallMethodTask::SetRequestInterception(t) => Ok(
                render_set_request_interception_params(t),
            ),
            TargetCallMethodTask::ContinueInterceptedRequest(t) => Ok(
                render_continue_intercepted_params(t),
            ),
            TargetCallMethodTask::GetResponseBodyForInterception(t) => Ok(
                render_get_response_body_params(t),
            ),
            TargetCallMethodTask::PageReload(t) => Ok(render_page_reload_params(t)),
            TargetCallMethodTask::CreateTarget(t) => Ok(render_create_target_params(t)),
            TargetCallMethodTask::TargetSetDiscoverTargets(enable, _) => Ok(
                render_set_discover_params(*enable),
            ),
        }
    }
}

fn render_navigate_params(t: &crate::task_describe::NavigateToTask) -> (r: Vec<u8>)
    ensures
        r@ == seq![123u8] + spec_key("url".spec_bytes()) + spec_json_string(encode_utf8(t.url@))
            + seq![125u8],
{
    let mut out: Vec<u8> = Vec::new();
    let mut started = false;
    out.push(123);
    append_opt_field(&mut out, &mut started, "url", &Some(json_string_vec(t.url.as_str())));
    out.push(125);
    proof {
        assert(out@ =~= seq![123u8] + spec_key("url".spec_bytes()) + spec_json_string(
            encode_utf8(t.url@),
        ) + seq![125u8]);
    }
    out
}

fn render_query_selector_params(t: &crate::task_describe::QuerySelectorTask) -> (r: Result<
    Vec<u8>,
    crate::errors::ChromePageError,
>)
    ensures
        r is Ok <==> t.node_id is Some,
        r matches Ok(v) ==> t.node_id matches Some(n) && v@ == seq![123u8] + spec_key(
            "nodeId".spec_bytes(),
        ) + spec_dec_digits(n as nat) + spec_tail_field(
            "selector".spec_bytes(),
            Some(spec_json_string(encode_utf8(t.selector@))),
        ) + seq![125u8],
        r matches Err(e) ==> e is TaskDescribeConvert,
{
    match t.node_id {
        Some(n) => {
            let mut out: Vec<u8> = Vec::new();
            let mut started = false;
            out.push(123);
            append_opt_field(&mut out, &mut started, "nodeId", &Some(dec_vec(n)));
            append_opt_field(
                &mut out,
                &mut started,
                "selector",
                &Some(json_string_vec(t.selector.as_str())),
            );
            out.push(125);
            proof {
                assert(out@ =~= seq![123u8] + spec_key("nodeId".spec_bytes()) + spec_dec_digits(
                    n as nat,
                ) + spec_tail_field(
                    "selector".spec_bytes(),
                    Some(spec_json_string(encode_utf8(t.selector@))),
                ) + seq![125u8]);
            }
            Ok(out)
        },
        None => Err(crate::errors::ChromePageError::TaskDescribeConvert),
    }
}

fn render_describe_node_params(t: &crate::task_describe::DescribeNodeTask) -> (r: Vec<u8>)
    ensures
        r@ == seq![123u8] + spec_key("pierce".spec_bytes()) + spec_bool_val_bytes(t.pierce)
            + spec_tail_field("nodeId".spec_bytes(), opt_u64_r(t.node_id)) + spec_tail_field(
            "backendNodeId".spec_bytes(),
            opt_u64_r(t.backend_node_id),
        ) + spec_tail_field(
            "depth".spec_bytes(),
            match t.depth {
                Some(d) => Some(spec_i64_digits(d as int)),
                None => None,
            },
        ) + seq![125u8],
{
    let mut out: Vec<u8> = Vec::new();
    let mut started = false;
    out.push(123);
    append_opt_field(&mut out, &mut started, "pierce", &Some(bool_vec(t.pierce)));
    append_opt_field(&mut out, &mut started, "nodeId", &opt_u64_vec(&t.node_id));
    append_opt_field(&mut out, &mut started, "backendNodeId", &opt_u64_vec(&t.backend_node_id));
    let depth_r: Option<Vec<u8>> = match t.depth {
        Some(d) => Some(i64_vec(d as i64)),
        None => None,
    };
    append_opt_field(&mut out, &mut started, "depth", &depth_r);
    out.push(125);
    proof {
        assert(out@ =~= seq![123u8] + spec_key("pierce".spec_bytes()) + spec_bool_val_bytes(
            t.pierce,
        ) + spec_tail_field("nodeId".spec_bytes(), opt_u64_r(t.node_id)) + spec_tail_field(
            "backendNodeId".spec_bytes(),
            opt_u64_r(t.backend_node_id),
        ) + spec_tail_field(
            "depth".spec_bytes(),
            match t.depth {
                Some(d) => Some(spec_i64_digits(d as int)),
                None => None,
            },
        ) + seq![125u8]);
    }
    out
}

fn render_get_document_params(t: &crate::task_describe::GetDocumentTask) -> (r: Vec<u8>)
    ensures
        r@ == seq![123u8] + spec_key("pierce".spec_bytes()) + spec_bool_val_bytes(t.pierce)
            + spec_tail_field(
            "depth".spec_bytes(),
            match t.depth {
                Some(d) => Some(spec_dec_digits(d as nat)),
                None => None,
            },
        ) + seq![125u8],
{
    let mut out: Vec<u8> = Vec::new();
    let mut started = false;
    out.push(123);
    append_opt_field(&mut out, &mut started, "pierce", &Some(bool_vec(t.pierce)));
    let depth_r: Option<Vec<u8>> = match t.depth {
        Some(d) => Some(dec_vec(d as u64)),
        None => None,
    };
    append_opt_field(&mut out, &mut started, "depth", &depth_r);
    out.push(125);
    proof {
        assert(out@ =~= seq![123u8] + spec_key("pierce".spec_bytes()) + spec_bool_val_bytes(
            t.pierce,
        ) + spec_tail_field(
            "depth".spec_bytes(),
            match t.depth {
                Some(d) => Some(spec_dec_digits(d as nat)),
                None => None,
            },
        ) + seq![125u8]);
    }
    out
}

fn render_evaluate_params(t: &crate::task_describe::RuntimeEvaluateTask) -> (r: Vec<u8>)
    ensures
        r@ == seq![123u8] + spec_key("expression".spec_bytes()) + spec_json_string(
            encode_utf8(t.expression@),
        ) + spec_tail_field("contextId".spec_bytes(), opt_u64_r(t.context_id)) + spec_tail_field(
            "silent".spec_bytes(),
            opt_bool_r(t.silent),
        ) + spec_tail_field("returnByValue".spec_bytes(), opt_bool_r(t.return_by_value)) + seq![
            125u8,
        ],
{
    let mut out: Vec<u8> = Vec::new();
    let mut started = false;
    out.push(123);
    append_opt_field(
        &mut out,
        &mut started,
        "expression",
        &Some(json_string_vec(t.expression.as_str())),
    );
    append_opt_field(&mut out, &mut started, "contextId", &opt_u64_vec(&t.context_id));
    append_opt_field(&mut out, &mut started, "silent", &opt_bool_vec(&t.silent));
    append_opt_field(&mut out, &mut started, "returnByValue", &opt_bool_vec(&t.return_by_value));
    out.push(125);
    proof {
        assert(out@ =~= seq![123u8] + spec_key("expression".spec_bytes()) + spec_json_string(
            encode_utf8(t.expression@),
        ) + spec_tail_field("contextId".spec_bytes(), opt_u64_r(t.context_id)) + spec_tail_field(
            "silent".spec_bytes(),
            opt_bool_r(t.silent),
        ) + spec_tail_field("returnByValue".spec_bytes(), opt_bool_r(t.return_by_value)) + seq![
            125u8,
        ]);
    }
    out
}

fn render_get_properties_params(t: &crate::task_describe::RuntimeGetPropertiesTask) -> (r: Vec<
    u8,
>)
    ensures
        r@ == seq![123u8] + spec_key("objectId".spec_bytes()) + spec_json_string(
            encode_utf8(t.object_id@),
        ) + seq![125u8],
{
    let mut out: Vec<u8> = Vec::new();
    let mut started = false;
    out.push(123);
    append_opt_field(&mut out, &mut started, "objectId", &Some(json_string_vec(t.object_id.as_str())));
    out.push(125);
    proof {
        assert(out@ =~= seq![123u8] + spec_key("objectId".spec_bytes()) + spec_json_string(
            encode_utf8(t.object_id@),
        ) + seq![125u8]);
    }
    out
}

fn render_call_function_on_params(t: &crate::task_describe::RuntimeCallFunctionOnTask) -> (r: Vec<
    u8,
>)
    ensures
        r@ == seq![123u8] + spec_key("functionDeclaration".spec_bytes()) + spec_json_string(
            encode_utf8(t.function_declaration@),
        ) + spec_tail_field("objectId".spec_bytes(), opt_string_r(view_opt_string(t.object_id)))
            + seq![125u8],
{
    let mut out: Vec<u8> = Vec::new();
    let mut started = false;
    out.push(123);
    append_opt_field(
        &mut out,
        &mut started,
        "functionDeclaration",
        &Some(json_string_vec(t.function_declaration.as_str())),
    );
    append_opt_field(&mut out, &mut started, "objectId", &opt_string_vec(&t.object_id));
    out.push(125);
    proof {
        assert(out@ =~= seq![123u8] + spec_key("functionDeclaration".spec_bytes())
            + spec_json_string(encode_utf8(t.function_declaration@)) + spec_tail_field(
            "objectId".spec_bytes(),
            opt_string_r(view_opt_string(t.object_id)),
        ) + seq![125u8]);
    }
    out
}

fn render_set_request_interception_params(
    t: &crate::task_describe::SetRequestInterceptionTask,
) -> (r: Vec<u8>)
    ensures
        r@ == seq![123u8] + spec_key("patterns".spec_bytes()) + seq![91u8] + spec_patterns(
            t.patterns@,
        ) + seq![93u8, 125u8],
{
    let mut out: Vec<u8> = Vec::new();
    out.push(123);
    out.push(34);
    crate::codec::push_str_bytes(&mut out, "patterns");
    out.push(34);
    out.push(58);
    out.push(91);
    let body = patterns_vec(&t.patterns);
    crate::codec::push_bytes(&mut out, body.as_slice());
    out.push(93);
    out.push(125);
    proof {
        assert(out@ =~= seq![123u8] + spec_key("patterns".spec_bytes()) + seq![91u8]
            + spec_patterns(t.patterns@) + seq![93u8, 125u8]);
    }
    out
}

fn render_continue_intercepted_params(
    t: &crate::task_describe::ContinueInterceptedRequestTask,
) -> (r: Vec<u8>)
    ensures
        r@ == seq![123u8] + spec_key("interceptionId".spec_bytes()) + spec_json_string(
            encode_utf8(t.interception_id@),
        ) + spec_tail_field(
            "rawResponse".spec_bytes(),
            opt_string_r(view_opt_string(t.raw_response)),
        ) + spec_tail_field(
            "errorReason".spec_bytes(),
            opt_string_r(view_opt_string(t.error_reason)),
        ) + seq![125u8],
{
    let mut out: Vec<u8> = Vec::new();
    let mut started = false;
    out.push(123);
    append_opt_field(
        &mut out,
        &mut started,
        "interceptionId",
        &Some(json_string_vec(t.interception_id.as_str())),
    );
    append_opt_field(&mut out, &mut started, "rawResponse", &opt_string_vec(&t.raw_response));
    append_opt_field(&mut out, &mut started, "errorReason", &opt_string_vec(&t.error_reason));
    out.push(125);
    proof {
        assert(out@ =~= seq![123u8] + spec_key("interceptionId".spec_bytes()) + spec_json_string(
            encode_utf8(t.interception_id@),
        ) + spec_tail_field(
            "rawResponse".spec_bytes(),
            opt_string_r(view_opt_string(t.raw_response)),
        ) + spec_tail_field(
            "errorReason".spec_bytes(),
            opt_string_r(view_opt_string(t.error_reason)),
        ) + seq![125u8]);
    }
    out
}

fn render_get_response_body_params(
    t: &crate::task_describe::GetResponseBodyForInterceptionTask,
) -> (r: Vec<u8>)
    ensures
        r@ == seq![123u8] + spec_key("interceptionId".spec_bytes()) + spec_json_string(
            encode_utf8(t.interception_id@),
        ) + spec_tail_field(
            "requestId".spec_bytes(),
            opt_string_r(view_opt_string(t.request_id)),
        ) + seq![125u8],
{
    let mut out: Vec<u8> = Vec::new();
    let mut started = false;
    out.push(123);
    append_opt_field(
        &mut out,
        &mut started,
        "interceptionId",
        &Some(json_string_vec(t.interception_id.as_str())),
    );
    append_opt_field(&mut out, &mut started, "requestId", &opt_string_vec(&t.request_id));
    out.push(125);
    proof {
        assert(out@ =~= seq![123u8] + spec_key("interceptionId".spec_bytes()) + spec_json_string(
            encode_utf8(t.interception_id@),
        ) + spec_tail_field(
            "requestId".spec_bytes(),
            opt_string_r(view_opt_string(t.request_id)),
        ) + seq![125u8]);
    }
    out
}

fn render_page_reload_params(t: &crate::task_describe::PageReloadTask) -> (r: Vec<u8>)
    ensures
        r@ == seq![123u8] + spec_key("ignoreCache".spec_bytes()) + spec_bool_val_bytes(
            t.ignore_cache,
        ) + seq![125u8],
{
    let mut out: Vec<u8> = Vec::new();
    let mut started = false;
    out.push(123);
    append_opt_field(&mut out, &mut started, "ignoreCache", &Some(bool_vec(t.ignore_cache)));
    out.push(125);
    proof {
        assert(out@ =~= seq![123u8] + spec_key("ignoreCache".spec_bytes()) + spec_bool_val_bytes(
            t.ignore_cache,
        ) + seq![125u8]);
    }
    out
}

fn render_create_target_params(t: &crate::task_describe::CreateTargetTask) -> (r: Vec<u8>)
    ensures
        r@ == seq![123u8] + spec_key("url".spec_bytes()) + spec_json_string(encode_utf8(t.url@))
            + seq![125u8],
{
    let mut out: Vec<u8> = Vec::new();
    let mut started = false;
    out.push(123);
    append_opt_field(&mut out, &mut started, "url", &Some(json_string_vec(t.url.as_str())));
    out.push(125);
    proof {
        assert(out@ =~= seq![123u8] + spec_key("url".spec_bytes()) + spec_json_string(
            encode_utf8(t.url@),
        ) + seq![125u8]);
    }
    out
}

fn render_set_discover_params(enable: bool) -> (r: Vec<u8>)
    ensures
        r@ == seq![123u8] + spec_key("discover".spec_bytes()) + spec_bool_val_bytes(enable) + seq![
            125u8,
        ],
{
    let mut out: Vec<u8> = Vec::new();
    let mut started = false;
    out.push(123);
    append_opt_field(&mut out, &mut started, "discover", &Some(bool_vec(enable)));
    out.push(125);
    proof {
        assert(out@ =~= seq![123u8] + spec_key("discover".spec_bytes()) + spec_bool_val_bytes(
            enable,
        ) + seq![125u8]);
    }
    out
}

fn empty_params() -> (r: Vec<u8>)
    ensures
        r@ =~= seq![123u8, 125u8],
{
    let mut v: Vec<u8> = Vec::new();
    v.push(123);
    v.push(125);
    v
}

/// The rendered params of `Page.printToPDF`: every option that is set,
/// in a fixed order.
pub open spec fn spec_print_to_pdf_params(t: &crate::task_describe::PrintToPdfTask) -> Seq<u8> {
    let s0 = false;
    let f1 = spec_opt_field(s0, "landscape".spec_bytes(), opt_bool_r(t.landscape));
    let s1 = spec_opt_started(s0, opt_bool_r(t.landscape));
    let f2 = spec_opt_field(
        s1,
        "displayHeaderFooter".spec_bytes(),
        opt_bool_r(t.display_header_footer),
    );
    let s2 = spec_opt_started(s1, opt_bool_r(t.display_header_footer));
    let f3 = spec_opt_field(s2, "printBackground".spec_bytes(), opt_bool_r(t.print_background));
    let s3 = spec_opt_started(s2, opt_bool_r(t.print_background));
    let f4 = spec_opt_field(s3, "scale".spec_bytes(), opt_fixed3_r(t.scale_thousandths));
    let s4 = spec_opt_started(s3, opt_fixed3_r(t.scale_thousandths));
    let f5 = spec_opt_field(s4, "paperWidth".spec_bytes(), opt_fixed3_r(t.paper_width_thousandths));
    let s5 = spec_opt_started(s4, opt_fixed3_r(t.paper_width_thousandths));
    let f6 = spec_opt_field(
        s5,
        "paperHeight".spec_bytes(),
        opt_fixed3_r(t.paper_height_thousandths),
    );
    let s6 = spec_opt_started(s5, opt_fixed3_r(t.paper_height_thousandths));
    let f7 = spec_opt_field(s6, "marginTop".spec_bytes(), opt_fixed3_r(t.margin_top_thousandths));
    let s7 = spec_opt_started(s6, opt_fixed3_r(t.margin_top_thousandths));
    let f8 = spec_opt_field(
        s7,
        "marginBottom".spec_bytes(),
        opt_fixed3_r(t.margin_bottom_thousandths),
    );
    let s8 = spec_opt_started(s7, opt_fixed3_r(t.margin_bottom_thousandths));
    let f9 = spec_opt_field(s8, "marginLeft".spec_bytes(), opt_fixed3_r(t.margin_left_thousandths));
    let s9 = spec_opt_started(s8, opt_fixed3_r(t.margin_left_thousandths));
    let f10 = spec_opt_field(
        s9,
        "marginRight".spec_bytes(),
        opt_fixed3_r(t.margin_right_thousandths),
    );
    let s10 = spec_opt_started(s9, opt_fixed3_r(t.margin_right_thousandths));
    let f11 = spec_opt_field(
        s10,
        "pageRanges".spec_bytes(),
        opt_string_r(view_opt_string(t.page_ranges)),
    );
    let s11 = spec_opt_started(s10, opt_string_r(view_opt_string(t.page_ranges)));
    let f12 = spec_opt_field(
        s11,
        "ignoreInvalidPageRanges".spec_bytes(),
        opt_bool_r(t.ignore_invalid_page_ranges),
    );
    let s12 = spec_opt_started(s11, opt_bool_r(t.ignore_invalid_page_ranges));
    let f13 = spec_opt_field(
        s12,
        "headerTemplate".spec_bytes(),
        opt_string_r(view_opt_string(t.header_template)),
    );
    let s13 = spec_opt_started(s12, opt_string_r(view_opt_string(t.header_template)));
    let f14 = spec_opt_field(
        s13,
        "footerTemplate".spec_bytes(),
        opt_string_r(view_opt_string(t.footer_template)),
    );
    let s14 = spec_opt_started(s13, opt_string_r(view_opt_string(t.footer_template)));
    let f15 = spec_opt_field(
        s14,
        "preferCSSPageSize".spec_bytes(),
        opt_bool_r(t.prefer_css_page_size),
    );
    seq![123u8] + f1 + f2 + f3 + f4 + f5 + f6 + f7 + f8 + f9 + f10 + f11 + f12 + f13 + f14 + f15
        + seq![125u8]
}

fn render_print_to_pdf_params(t: &crate::task_describe::PrintToPdfTask) -> (r: Vec<u8>)
    ensures
        r@ == spec_print_to_pdf_params(t),
{
    let mut out: Vec<u8> = Vec::new();
    let mut started = false;
    out.push(123);
    append_opt_field(&mut out, &mut started, "landscape", &opt_bool_vec(&t.landscape));
    append_opt_field(
        &mut out,
        &mut started,
        "displayHeaderFooter",
        &opt_bool_vec(&t.display_header_footer),
    );
    append_opt_field(&mut out, &mut started, "printBackground", &opt_bool_vec(&t.print_background));
    append_opt_field(&mut out, &mut started, "scale", &opt_fixed3_vec(&t.scale_thousandths));
    append_opt_field(
        &mut out,
        &mut started,
        "paperWidth",
        &opt_fixed3_vec(&t.paper_width_thousandths),
    );
    append_opt_field(
        &mut out,
        &mut started,
        "paperHeight",
        &opt_fixed3_vec(&t.paper_height_thousandths),
    );
    append_opt_field(
        &mut out,
        &mut started,
        "marginTop",
        &opt_fixed3_vec(&t.margin_top_thousandths),
    );
    append_opt_field(
        &mut out,
        &mut started,
        "marginBottom",
        &opt_fixed3_vec(&t.margin_bottom_thousandths),
    );
    append_opt_field(
        &mut out,
        &mut started,
        "marginLeft",
        &opt_fixed3_vec(&t.margin_left_thousandths),
    );
    append_opt_field(
        &mut out,
        &mut started,
        "marginRight",
        &opt_fixed3_vec(&t.margin_right_thousandths),
    );
    append_opt_field(&mut out, &mut started, "pageRanges", &opt_string_vec(&t.page_ranges));
    append_opt_field(
        &mut out,
        &mut started,
        "ignoreInvalidPageRanges",
        &opt_bool_vec(&t.ignore_invalid_page_ranges),
    );
    append_opt_field(&mut out, &mut started, "headerTemplate", &opt_string_vec(&t.header_template));
    append_opt_field(&mut out, &mut started, "footerTemplate", &opt_string_vec(&t.footer_template));
    append_opt_field(
        &mut out,
        &mut started,
        "preferCSSPageSize",
        &opt_bool_vec(&t.prefer_css_page_size),
    );
    out.push(125);
    proof {
        assert(out@ =~= spec_print_to_pdf_params(t));
    }
    out
}

/// The rendered params of `DOM.getBoxModel`: whichever of the node
/// handles is set.
pub open spec fn spec_get_box_model_params(t: &crate::task_describe::GetBoxModelTask) -> Seq<u8> {
    let s0 = false;
    let f1 = spec_opt_field(s0, "nodeId".spec_bytes(), opt_u64_r(t.node_id));
    let s1 = spec_opt_started(s0, opt_u64_r(t.node_id));
    let f2 = spec_opt_field(s1, "backendNodeId".spec_bytes(), opt_u64_r(t.backend_node_id));
    let s2 = spec_opt_started(s1, opt_u64_r(t.backend_node_id));
    let f3 = spec_opt_field(s2, "objectId".spec_bytes(), opt_string_r(view_opt_string(t.object_id)));
    seq![123u8] + f1 + f2 + f3 + seq![125u8]
}

fn render_get_box_model_params(t: &crate::task_describe::GetBoxModelTask) -> (r: Vec<u8>)
    ensures
        r@ == spec_get_box_model_params(t),
{
    let mut out: Vec<u8> = Vec::new();
    let mut started = false;
    out.push(123);
    append_opt_field(&mut out, &mut started, "nodeId", &opt_u64_vec(&t.node_id));
    append_opt_field(&mut out, &mut started, "backendNodeId", &opt_u64_vec(&t.backend_node_id));
    append_opt_field(&mut out, &mut started, "objectId", &opt_string_vec(&t.object_id));
    out.push(125);
    proof {
        assert(out@ =~= spec_get_box_model_params(t));
    }
    out
}

/// The rendered params of `Page.captureScreenshot`: the format, the
/// JPEG quality when given, the clip when given, and the surface flag.
pub open spec fn spec_capture_screenshot_params(
    t: &crate::task_describe::CaptureScreenshotTask,
) -> Seq<u8> {
    let fmt = match t.format {
        ScreenshotFormat::Jpeg(_) => spec_json_string("jpeg".spec_bytes()),
        ScreenshotFormat::Png => spec_json_string("png".spec_bytes()),
    };
    let quality = match t.format {
        ScreenshotFormat::Jpeg(q) => match q {
            Some(v) => Some(spec_dec_digits(v as nat)),
            None => None,
        },
        ScreenshotFormat::Png => None,
    };
    let clip = match t.clip {
        Some(v) => Some(spec_viewport(v)),
        None => None,
    };
    seq![123u8] + spec_key("format".spec_bytes()) + fmt + spec_tail_field(
        "quality".spec_bytes(),
        quality,
    ) + spec_tail_field("clip".spec_bytes(), clip) + spec_tail_field(
        "fromSurface".spec_bytes(),
        Some(spec_bool_val_bytes(t.from_surface)),
    ) + seq![125u8]
}

fn render_capture_screenshot_params(t: &crate::task_describe::CaptureScreenshotTask) -> (r: Vec<
    u8,
>)
    ensures
        r@ == spec_capture_screenshot_params(t),
{
    let mut out: Vec<u8> = Vec::new();
    let mut started = false;
    out.push(123);
    let fmt: Vec<u8> = match &t.format {
        ScreenshotFormat::Jpeg(_) => json_string_vec("jpeg"),
        ScreenshotFormat::Png => json_string_vec("png"),
    };
    append_opt_field(&mut out, &mut started, "format", &Some(fmt));
    let quality: Option<Vec<u8>> = match &t.format {
        ScreenshotFormat::Jpeg(q) => match q {
            Some(v) => Some(dec_vec(*v as u64)),
            None => None,
        },
        ScreenshotFormat::Png => None,
    };
    append_opt_field(&mut out, &mut started, "quality", &quality);
    let clip: Option<Vec<u8>> = match &t.clip {
        Some(v) => Some(viewport_vec(v)),
        None => None,
    };
    append_opt_field(&mut out, &mut started, "clip", &clip);
    append_opt_field(&mut out, &mut started, "fromSurface", &Some(bool_vec(t.from_surface)));
    out.push(125);
    proof {
        assert(out@ =~= spec_capture_screenshot_params(t));
    }
    out
}



/// The params of `Target.attachToTarget`: the target to attach.
pub open spec fn spec_attach_params(target_id: Seq<u8>) -> Seq<u8> {
    seq![123u8] + spec_key("targetId".spec_bytes()) + spec_json_string(target_id) + seq![125u8]
}

/// Render the params of the explicit attach request.
pub fn render_attach_params(task: &crate::task_describe::AttachToTargetTask) -> (r: Vec<u8>)
    ensures
        r@ == spec_attach_params(encode_utf8(task.target_id@)),
{
    let mut out: Vec<u8> = Vec::new();
    let mut started = false;
    out.push(123);
    append_opt_field(&mut out, &mut started, "targetId", &Some(json_string_vec(task.target_id.as_str())));
    out.push(125);
    proof {
        assert(out@ =~= spec_attach_params(encode_utf8(task.target_id@)));
    }
    out
}


/// The params of one `Input.dispatchKeyEvent` call.
pub open spec fn spec_key_event_params(
    event_type: Seq<u8>,
    key: Seq<u8>,
    code: Seq<u8>,
    key_code: u64,
    text: Option<Seq<u8>>,
) -> Seq<u8> {
    seq![123u8] + spec_key("type".spec_bytes()) + spec_json_string(event_type) + spec_tail_field(
        "key".spec_bytes(),
        Some(spec_json_string(key)),
    ) + spec_tail_field("code".spec_bytes(), Some(spec_json_string(code))) + spec_tail_field(
        "windowsVirtualKeyCode".spec_bytes(),
        Some(spec_dec_digits(key_code as nat)),
    ) + spec_tail_field("nativeVirtualKeyCode".spec_bytes(), Some(spec_dec_digits(key_code as nat)))
        + spec_tail_field(
        "text".spec_bytes(),
        match text {
            Some(t) => Some(spec_json_string(t)),
            None => None,
        },
    ) + seq![125u8]
}

fn render_key_event_params(
    event_type: &str,
    key: &str,
    code: &str,
    key_code: u64,
    text: &Option<Vec<u8>>,
) -> (r: Vec<u8>)
    ensures
        r@ == spec_key_event_params(
            encode_utf8(event_type@),
            encode_utf8(key@),
            encode_utf8(code@),
            key_code,
            match text {
                Some(t) => Some(t@),
                None => None,
            },
        ),
{
    let mut out: Vec<u8> = Vec::new();
    let mut started = false;
    out.push(123);
    append_opt_field(&mut out, &mut started, "type", &Some(json_string_vec(event_type)));
    append_opt_field(&mut out, &mut started, "key", &Some(json_string_vec(key)));
    append_opt_field(&mut out, &mut started, "code", &Some(json_string_vec(code)));
    append_opt_field(&mut out, &mut started, "windowsVirtualKeyCode", &Some(dec_vec(key_code)));
    append_opt_field(&mut out, &mut started, "nativeVirtualKeyCode", &Some(dec_vec(key_code)));
    let text_rendered: Option<Vec<u8>> = match text {
        Some(t) => Some(json_string_bytes_vec(t.as_slice())),
        None => None,
    };
    append_opt_field(&mut out, &mut started, "text", &text_rendered);
    out.push(125);
    proof {
        assert(out@ =~= spec_key_event_params(
            encode_utf8(event_type@),
            encode_utf8(key@),
            encode_utf8(code@),
            key_code,
            match text {
                Some(t) => Some(t@),
                None => None,
            },
        ));
    }
    out
}

/// Copy a byte slice into an owned vector.
fn bytes_vec(s: &[u8]) -> (r: Vec<u8>)
    ensures
        r@ == s@,
{
    let mut v: Vec<u8> = Vec::new();
    crate::codec::push_bytes(&mut v, s);
    v
}

/// Render a JSON string value from raw bytes.
fn json_string_bytes_vec(s: &[u8]) -> (r: Vec<u8>)
    ensures
        r@ == spec_json_string(s@),
{
    let mut v: Vec<u8> = Vec::new();
    v.push(34);
    crate::codec::push_escaped(&mut v, s);
    v.push(34);
    proof {
        assert(v@ =~= spec_json_string(s@));
    }
    v
}

/// The text a key press carries: the given text, or the key itself
/// when it is a single byte.
pub open spec fn spec_effective_text(key: Seq<u8>, text: Option<Seq<u8>>) -> Option<Seq<u8>> {
    match text {
        Some(t) => Some(t),
        None => if key.len() == 1 {
            Some(key)
        } else {
            None
        },
    }
}

/// The event type of the down half of a key press: `keyDown` when the
/// press carries text, `rawKeyDown` otherwise.
pub open spec fn spec_key_down_type(effective_text: Option<Seq<u8>>) -> Seq<u8> {
    if effective_text is Some {
        encode_utf8("keyDown"@)
    } else {
        encode_utf8("rawKeyDown"@)
    }
}

/// The frame one `Input.dispatchKeyEvent` call goes out as under the
/// inner call id `call_id`: direct, or wrapped for the session.
pub open spec fn spec_key_event_frame(
    session_id: Option<crate::SessionId>,
    call_id: int,
    params: Seq<u8>,
) -> Seq<u8> {
    match session_id {
        None => crate::codec::spec_render_call(
            call_id as nat,
            encode_utf8("Input.dispatchKeyEvent"@),
            params,
        ),
        Some(session) => crate::codec::spec_render_call(
            (call_id + 1) as nat,
            crate::codec::spec_send_message_to_target(),
            crate::codec::spec_session_params(
                encode_utf8(session.0@),
                crate::codec::spec_render_call(
                    call_id as nat,
                    encode_utf8("Input.dispatchKeyEvent"@),
                    params,
                ),
            ),
        ),
    }
}

/// Frame the key-down/key-up pair of one key press: the first frame is
/// the down event — `keyDown` when the press carries text, the given
/// text or the key itself when it is a single character, `rawKeyDown`
/// otherwise — and the second is `keyUp`; both carry the key, the
/// code and the key code. One wire call's worth of ids is spent per
/// frame (two when a session wraps them).
pub fn press_key_frames(
    gen: &mut crate::codec::CallIdGenerator,
    session_id: &Option<crate::SessionId>,
    key: &str,
    code: &str,
    key_code: u64,
    text: Option<&str>,
) -> (r: Vec<Vec<u8>>)
    requires
        old(gen).next < crate::CallId::MAX - 4,
    ensures
        r@.len() == 2,
        ({
            let eff = spec_effective_text(
                encode_utf8(key@),
                match text {
                    Some(t) => Some(encode_utf8(t@)),
                    None => None,
                },
            );
            let step = if session_id is Some {
                2int
            } else {
                1int
            };
            &&& final(gen).next == old(gen).next + 2 * step
            &&& r@[0]@ == spec_key_event_frame(
                *session_id,
                old(gen).next as int,
                spec_key_event_params(
                    spec_key_down_type(eff),
                    encode_utf8(key@),
                    encode_utf8(code@),
                    key_code,
                    eff,
                ),
            )
            &&& r@[1]@ == spec_key_event_frame(
                *session_id,
                old(gen).next as int + step,
                spec_key_event_params(
                    encode_utf8("keyUp"@),
                    encode_utf8(key@),
                    encode_utf8(code@),
                    key_code,
                    eff,
                ),
            )
        }),
{
    let effective_text: Option<Vec<u8>> = match text {
        Some(t) => Some(bytes_vec(t.as_bytes())),
        None => {
            if key.as_bytes().len() == 1 {
                Some(bytes_vec(key.as_bytes()))
            } else {
                None
            }
        },
    };
    let down_type: &str = if effective_text.is_some() {
        "keyDown"
    } else {
        "rawKeyDown"
    };
    let down = render_key_event_params(down_type, key, code, key_code, &effective_text);
    let up = render_key_event_params("keyUp", key, code, key_code, &effective_text);
    let (f1, _) = crate::codec::create_msg_to_send_with_session_id(
        gen,
        "Input.dispatchKeyEvent",
        down.as_slice(),
        session_id,
    );
    let (f2, _) = crate::codec::create_msg_to_send_with_session_id(
        gen,
        "Input.dispatchKeyEvent",
        up.as_slice(),
        session_id,
    );
    let mut out: Vec<Vec<u8>> = Vec::new();
    out.push(f1);
    out.push(f2);
    out
}

/// In an ASCII character sequence free of quotes, the encoded bytes
/// are free of quote bytes.
pub proof fn lemma_ascii_no_quote_bytes(m: Seq<char>)
    requires
        vstd::utf8::is_ascii_chars(m),
        forall|i: int| 0 <= i < m.len() ==> m[i] != '"',
    ensures
        forall|i: int| 0 <= i < encode_utf8(m).len() ==> #[trigger] encode_utf8(m)[i] != 34,
{
    vstd::utf8::is_ascii_chars_encode_utf8(m);
    assert forall|i: int| 0 <= i < encode_utf8(m).len() implies #[trigger] encode_utf8(m)[i]
        != 34 by {
        assert(encode_utf8(m)[i] == m[i] as u8);
        if m[i] as u8 == 34 {
            assert(m[i] <= '\u{7f}');
            assert(m[i] == '"');
        }
    }
}

/// Every CDP method name is plain ASCII without quotes, so it passes
/// through the frame untouched.
pub proof fn lemma_method_name_plain(task: &TargetCallMethodTask)
    ensures
        vstd::utf8::is_ascii_chars(task.spec_method_name()),
        forall|i: int|
            0 <= i < task.spec_method_name().len() ==> #[trigger] task.spec_method_name()[i]
                != '"',
{
    match task {
        TargetCallMethodTask::NavigateTo(_) => {
            reveal_strlit("Page.navigate");
            assert forall|i: int| 0 <= i < "Page.navigate"@.len() implies "Page.navigate"@[i] != '"' by {
            }
            assert(vstd::utf8::is_ascii_chars("Page.navigate"@));
        },
        TargetCallMethodTask::QuerySelector(_) => {
            reveal_strlit("DOM.querySelector");
            assert forall|i: int| 0 <= i < "DOM.querySelector"@.len() implies "DOM.querySelector"@[i] != '"' by {
            }
            assert(vstd::utf8::is_ascii_chars("DOM.querySelector"@));
        },
        TargetCallMethodTask::DescribeNode(_) => {
            reveal_strlit("DOM.describeNode");
            assert forall|i: int| 0 <= i < "DOM.describeNode"@.len() implies "DOM.describeNode"@[i] != '"' by {
            }
            assert(vstd::utf8::is_ascii_chars("DOM.describeNode"@));
        },
        TargetCallMethodTask::PrintToPDF(_) => {
            reveal_strlit("Page.printToPDF");
            assert forall|i: int| 0 <= i < "Page.printToPDF"@.len() implies "Page.printToPDF"@[i] != '"' by {
            }
            assert(vstd::utf8::is_ascii_chars("Page.printToPDF"@));
        },
        TargetCallMethodTask::GetBoxModel(_) => {
            reveal_strlit("DOM.getBoxModel");
            assert forall|i: int| 0 <= i < "DOM.getBoxModel"@.len() implies "DOM.getBoxModel"@[i] != '"' by {
            }
            assert(vstd::utf8::is_ascii_chars("DOM.getBoxModel"@));
        },
        TargetCallMethodTask::GetDocument(_) => {
            reveal_strlit("DOM.getDocument");
            assert forall|i: int| 0 <= i < "DOM.getDocument"@.len() implies "DOM.getDocument"@[i] != '"' by {
            }
            assert(vstd::utf8::is_ascii_chars("DOM.getDocument"@));
        },
        TargetCallMethodTask::PageEnable(_) => {
            reveal_strlit("Page.enable");
            assert forall|i: int| 0 <= i < "Page.enable"@.len() implies "Page.enable"@[i] != '"' by {
            }
            assert(vstd::utf8::is_ascii_chars("Page.enable"@));
        },
        TargetCallMethodTask::PageClose(_) => {
            reveal_strlit("Page.close");
            assert forall|i: int| 0 <= i < "Page.close"@.len() implies "Page.close"@[i] != '"' by {
            }
            assert(vstd::utf8::is_ascii_chars("Page.close"@));
        },
        TargetCallMethodTask::GetLayoutMetrics(_) => {
            reveal_strlit("Page.getLayoutMetrics");
            assert forall|i: int| 0 <= i < "Page.getLayoutMetrics"@.len() implies "Page.getLayoutMetrics"@[i] != '"' by {
            }
            assert(vstd::utf8::is_ascii_chars("Page.getLayoutMetrics"@));
        },
        TargetCallMethodTask::BringToFront(_) => {
            reveal_strlit("Page.bringToFront");
            assert forall|i: int| 0 <= i < "Page.bringToFront"@.len() implies "Page.bringToFront"@[i] != '"' by {
            }
            assert(vstd::utf8::is_ascii_chars("Page.bringToFront"@));
        },
        TargetCallMethodTask::RuntimeEnable(_) => {
            reveal_strlit("Runtime.enable");
            assert forall|i: int| 0 <= i < "Runtime.enable"@.len() implies "Runtime.enable"@[i] != '"' by {
            }
            assert(vstd::utf8::is_ascii_chars("Runtime.enable"@));
        },
        TargetCallMethodTask::CaptureScreenshot(_) => {
            reveal_strlit("Page.captureScreenshot");
            assert forall|i: int| 0 <= i < "Page.captureScreenshot"@.len() implies "Page.captureScreenshot"@[i] != '"' by {
            }
            assert(vstd::utf8::is_ascii_chars("Page.captureScreenshot"@));
        },
        TargetCallMethodTask::RuntimeEvaluate(_) => {
            reveal_strlit("Runtime.evaluate");
            assert forall|i: int| 0 <= i < "Runtime.evaluate"@.len() implies "Runtime.evaluate"@[i] != '"' by {
            }
            assert(vstd::utf8::is_ascii_chars("Runtime.evaluate"@));
        },
        TargetCallMethodTask::RuntimeGetProperties(_) => {
            reveal_strlit("Runtime.getProperties");
            assert forall|i: int| 0 <= i < "Runtime.getProperties"@.len() implies "Runtime.getProperties"@[i] != '"' by {
            }
            assert(vstd::utf8::is_ascii_chars("Runtime.getProperties"@));
        },
        TargetCallMethodTask::RuntimeCallFunctionOn(_) => {
            reveal_strlit("Runtime.callFunctionOn");
            assert forall|i: int| 0 <= i < "Runtime.callFunctionOn"@.len() implies "Runtime.callFunctionOn"@[i] != '"' by {
            }
            assert(vstd::utf8::is_ascii_chars("Runtime.callFunctionOn"@));
        },
        TargetCallMethodTask::NetworkEnable(_) => {
            reveal_strlit("Network.enable");
            assert forall|i: int| 0 <= i < "Network.enable"@.len() implies "Network.enable"@[i] != '"' by {
            }
            assert(vstd::utf8::is_ascii_chars("Network.enable"@));
        },
        TargetCallMethodTask::SetRequestInterception(_) => {
            reveal_strlit("Network.setRequestInterception");
            assert forall|i: int| 0 <= i < "Network.setRequestInterception"@.len() implies "Network.setRequestInterception"@[i] != '"' by {
            }
            assert(vstd::utf8::is_ascii_chars("Network.setRequestInterception"@));
        },
        TargetCallMethodTask::ContinueInterceptedRequest(_) => {
            reveal_strlit("Network.continueInterceptedRequest");
            assert forall|i: int| 0 <= i < "Network.continueInterceptedRequest"@.len() implies "Network.continueInterceptedRequest"@[i] != '"' by {
            }
            assert(vstd::utf8::is_ascii_chars("Network.continueInterceptedRequest"@));
        },
        TargetCallMethodTask::GetResponseBodyForInterception(_) => {
            reveal_strlit("Network.getResponseBodyForInterception");
            assert forall|i: int| 0 <= i < "Network.getResponseBodyForInterception"@.len() implies "Network.getResponseBodyForInterception"@[i] != '"' by {
            }
            assert(vstd::utf8::is_ascii_chars("Network.getResponseBodyForInterception"@));
        },
        TargetCallMethodTask::PageReload(_) => {
            reveal_strlit("Page.reload");
            assert forall|i: int| 0 <= i < "Page.reload"@.len() implies "Page.reload"@[i] != '"' by {
            }
            assert(vstd::utf8::is_ascii_chars("Page.reload"@));
        },
        TargetCallMethodTask::CreateTarget(_) => {
            reveal_strlit("Target.createTarget");
            assert forall|i: int| 0 <= i < "Target.createTarget"@.len() implies "Target.createTarget"@[i] != '"' by {
            }
            assert(vstd::utf8::is_ascii_chars("Target.createTarget"@));
        },
        TargetCallMethodTask::TargetSetDiscoverTargets(_, _) => {
            reveal_strlit("Target.setDiscoverTargets");
            assert forall|i: int| 0 <= i < "Target.setDiscoverTargets"@.len() implies "Target.setDiscoverTargets"@[i] != '"' by {
            }
            assert(vstd::utf8::is_ascii_chars("Target.setDiscoverTargets"@));
        },
    }
}

/// Framing any renderable method-call task under a call id and reading
/// the frame back reproduces the id, the method name and the rendered
/// params — the descriptor's wire-visible fields survive the round
/// trip.
pub proof fn lemma_task_round_trip(id: nat, task: &TargetCallMethodTask, params: Seq<u8>)
    requires
        task.spec_params() == Some(params),
    ensures
        crate::codec::spec_parse_call(
            crate::codec::spec_render_call(id, encode_utf8(task.spec_method_name()), params),
        ) == Some((id, encode_utf8(task.spec_method_name()), params)),
{
    lemma_method_name_plain(task);
    lemma_ascii_no_quote_bytes(task.spec_method_name());
    crate::codec::lemma_call_round_trip(id, encode_utf8(task.spec_method_name()), params);
}

} // verus!

//! Plain-value projections of the CDP schema types the engine reads.
//!
//! The schema layer proper (full payload typing) is a collaborator of
//! the engine; these structs hold exactly the fields the session logic
//! inspects, as plain strings, integers and booleans.

use vstd::prelude::*;

verus! {

/// Kind of a CDP target. The engine treats `Page` specially: only page
/// targets become tabs.
#[derive(Clone, Copy, PartialEq, Eq, Structural, Debug)]
pub enum TargetType {
    Page,
    Browser,
    Iframe,
    ServiceWorker,
    Other,
}

impl TargetType {
    pub fn is_page(&self) -> (r: bool)
        ensures
            r == (*self is Page),
    {
        match self {
            TargetType::Page => true,
            _ => false,
        }
    }
}

/// Description of one attachable target, as delivered by
/// `Target.targetCreated` and `Target.targetInfoChanged`.
#[derive(Debug)]
pub struct TargetInfo {
    pub target_id: String,
    pub target_type: TargetType,
    pub title: String,
    pub url: String,
    pub attached: bool,
    pub opener_id: Option<String>,
    pub browser_context_id: Option<String>,
}

/// One browsing context inside a page.
#[derive(Debug)]
pub struct Frame {
    pub id: String,
    pub parent_id: Option<String>,
    pub name: Option<String>,
    pub url: String,
    pub unreachable_url: Option<String>,
}

/// Parameters of `Page.frameAttached`.
#[derive(Debug)]
pub struct FrameAttachedParams {
    pub frame_id: String,
    pub parent_frame_id: String,
}

/// A JavaScript execution realm. `aux_frame_id` carries the `frameId`
/// entry of the context's auxiliary data, when present.
#[derive(Debug)]
pub struct ExecutionContextDescription {
    pub id: u64,
    pub origin: String,
    pub name: String,
    pub aux_frame_id: Option<String>,
}

/// A DOM node, reduced to the identities the cache works with.
#[derive(Debug)]
pub struct Node {
    pub node_id: u64,
    pub parent_id: Option<u64>,
    pub backend_node_id: u64,
    pub node_name: String,
}

/// Result of `Runtime.evaluate` and friends: a remote object handle.
/// `value_json` holds the raw JSON of the `value` field when the result
/// was returned by value.
#[derive(Debug)]
pub struct RemoteObject {
    pub object_type: String,
    pub subtype: Option<String>,
    pub class_name: Option<String>,
    pub value_json: Option<String>,
    pub description: Option<String>,
    pub object_id: Option<String>,
}

/// Detail of a thrown exception reported beside an evaluation result.
#[derive(Debug)]
pub struct ExceptionDetails {
    pub text: String,
    pub line_number: u64,
    pub column_number: u64,
}

/// Box model of an element. The engine never computes on the geometry;
/// coordinates are carried in device pixels.
#[derive(Debug)]
pub struct BoxModel {
    pub width: u64,
    pub height: u64,
}

/// Image format of a captured screenshot; JPEG carries its quality.
#[derive(Clone, Copy, PartialEq, Eq, Structural, Debug)]
pub enum ScreenshotFormat {
    Jpeg(Option<u8>),
    Png,
}

/// Clip rectangle of a screenshot, in device pixels; the scale is
/// carried in thousandths.
#[derive(Clone, Copy, PartialEq, Eq, Structural, Debug)]
pub struct Viewport {
    pub x: i64,
    pub y: i64,
    pub width: i64,
    pub height: i64,
    pub scale_thousandths: u64,
}

/// One property of a remote object, from `Runtime.getProperties`.
#[derive(Debug)]
pub struct PropertyDescriptor {
    pub name: String,
    pub value: Option<RemoteObject>,
}

impl Clone for PropertyDescriptor {
    fn clone(&self) -> (r: Self)
        ensures
            r == self,
    {
        PropertyDescriptor {
            name: self.name.clone(),
            value: match &self.value {
                Some(v) => Some(v.clone()),
                None => None,
            },
        }
    }
}

/// Parameters of `Network.requestWillBeSent` the engine keeps.
#[derive(Debug)]
pub struct RequestWillBeSent {
    pub request_id: String,
    pub frame_id: Option<String>,
    pub url: String,
}

impl RequestWillBeSent {
    pub fn get_request_id(&self) -> (r: &String)
        ensures
            r@ == self.request_id@,
    {
        &self.request_id
    }
}

/// Parameters of `Network.requestIntercepted` the engine keeps.
#[derive(Debug)]
pub struct RequestIntercepted {
    pub interception_id: String,
    pub url: String,
}

/// Parameters of `Network.responseReceived` the engine keeps.
#[derive(Debug)]
pub struct ResponseReceived {
    pub request_id: String,
    pub url: String,
}

/// Parameters of `Runtime.consoleAPICalled` the engine inspects.
#[derive(Debug)]
pub struct ConsoleAPICalledParams {
    pub execution_context_id: u64,
    pub call_type: String,
}

fn clone_opt_string(o: &Option<String>) -> (r: Option<String>)
    ensures
        r == o,
{
    match o {
        Some(s) => Some(s.clone()),
        None => None,
    }
}

impl Clone for TargetInfo {
    fn clone(&self) -> (r: Self)
        ensures
            r == self,
    {
        TargetInfo {
            target_id: self.target_id.clone(),
            target_type: self.target_type,
            title: self.title.clone(),
            url: self.url.clone(),
            attached: self.attached,
            opener_id: clone_opt_string(&self.opener_id),
            browser_context_id: clone_opt_string(&self.browser_context_id),
        }
    }
}

impl Clone for Frame {
    fn clone(&self) -> (r: Self)
        ensures
            r == self,
    {
        Frame {
            id: self.id.clone(),
            parent_id: clone_opt_string(&self.parent_id),
            name: clone_opt_string(&self.name),
            url: self.url.clone(),
            unreachable_url: clone_opt_string(&self.unreachable_url),
        }
    }
}

impl Clone for FrameAttachedParams {
    fn clone(&self) -> (r: Self)
        ensures
            r == self,
    {
        FrameAttachedParams {
            frame_id: self.frame_id.clone(),
            parent_frame_id: self.parent_frame_id.clone(),
        }
    }
}

impl Clone for ExecutionContextDescription {
    fn clone(&self) -> (r: Self)
        ensures
            r == self,
    {
        ExecutionContextDescription {
            id: self.id,
            origin: self.origin.clone(),
            name: self.name.clone(),
            aux_frame_id: clone_opt_string(&self.aux_frame_id),
        }
    }
}

impl Clone for Node {
    fn clone(&self) -> (r: Self)
        ensures
            r == self,
    {
        Node {
            node_id: self.node_id,
            parent_id: self.parent_id,
            backend_node_id: self.backend_node_id,
            node_name: self.node_name.clone(),
        }
    }
}

impl Clone for RemoteObject {
    fn clone(&self) -> (r: Self)
        ensures
            r == self,
    {
        RemoteObject {
            object_type: self.object_type.clone(),
            subtype: clone_opt_string(&self.subtype),
            class_name: clone_opt_string(&self.class_name),
            value_json: clone_opt_string(&self.value_json),
            description: clone_opt_string(&self.description),
            object_id: clone_opt_string(&self.object_id),
        }
    }
}

impl Clone for RequestWillBeSent {
    fn clone(&self) -> (r: Self)
        ensures
            r == self,
    {
        RequestWillBeSent {
            request_id: self.request_id.clone(),
            frame_id: clone_opt_string(&self.frame_id),
            url: self.url.clone(),
        }
    }
}

impl Clone for RequestIntercepted {
    fn clone(&self) -> (r: Self)
        ensures
            r == self,
    {
        RequestIntercepted {
            interception_id: self.interception_id.clone(),
            url: self.url.clone(),
        }
    }
}

impl Clone for ResponseReceived {
    fn clone(&self) -> (r: Self)
        ensures
            r == self,
    {
        ResponseReceived {
            request_id: self.request_id.clone(),
            url: self.url.clone(),
        }
    }
}

} // verus!

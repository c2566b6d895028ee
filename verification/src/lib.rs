//! A pull-driven session engine for the Chrome DevTools Protocol (CDP).
//!
//! The engine multiplexes logical operations over a single WebSocket
//! connection to Chrome: it allocates call IDs, frames outbound method
//! calls (directly to the browser or double-wrapped for a target
//! session), correlates inbound responses with pending calls, tracks
//! per-tab state (frames, execution contexts, DOM nodes, network
//! requests and interceptions), and hands the consumer one
//! `PageResponseWrapper` per poll.
//!
//! The socket itself, the timer and all other I/O live outside this
//! crate; the engine is driven by plain values handed to it.

use vstd::prelude::*;
use vstd::string::StringSliceAdditionalSpecFns;

pub mod codec;
pub mod debug_session;
pub mod errors;
pub mod keyed;
pub mod log_tasks;
pub mod page_message;
pub mod pending;
pub mod protocol_model;
pub mod serialize;
pub mod tab;
pub mod target_call_methods;
pub mod task_describe;
pub mod task_queue;

verus! {

/// Identifier of a CDP session: the attachment of this engine to one target.
/// Opaque string handed out by Chrome in `Target.attachedToTarget`.
pub struct SessionId(pub String);

impl SessionId {
    pub fn as_str(&self) -> (r: &str)
        ensures
            r@ == self.0@,
    {
        self.0.as_str()
    }

    pub fn new(raw: String) -> (r: SessionId)
        ensures
            r.0@ == raw@,
    {
        SessionId(raw)
    }
}

impl Clone for SessionId {
    fn clone(&self) -> (r: Self)
        ensures
            r == self,
    {
        SessionId(self.0.clone())
    }
}

/// Where an outbound method call is addressed: straight to the browser
/// endpoint, or wrapped in `Target.sendMessageToTarget` for one session.
pub enum MethodDestination {
    Target(SessionId),
    Browser,
}

/// Caller-assigned label correlating an issued task with its completion
/// event; opaque to the engine.
pub type TaskId = u64;

/// Monotonically increasing identifier correlating an outbound method
/// call with its inbound response.
pub type CallId = u64;

/// Whether two string slices read the same characters.
pub fn str_eq(a: &str, b: &str) -> (r: bool)
    ensures
        r == (a@ == b@),
{
    let ab = a.as_bytes();
    let bb = b.as_bytes();
    proof {
        vstd::utf8::encode_utf8_decode_utf8(a@);
        vstd::utf8::encode_utf8_decode_utf8(b@);
    }
    if ab.len() != bb.len() {
        return false;
    }
    let n = ab.len();
    let mut i: usize = 0;
    while i < n
        invariant
            n == ab@.len() == bb@.len(),
            i <= n,
            ab@ == a.spec_bytes(),
            bb@ == b.spec_bytes(),
            forall|j: int| 0 <= j < i ==> ab@[j] == bb@[j],
        decreases n - i,
    {
        if ab[i] != bb[i] {
            return false;
        }
        i = i + 1;
    }
    proof {
        assert(a.spec_bytes() =~= b.spec_bytes());
        assert(vstd::utf8::decode_utf8(a.spec_bytes()) == vstd::utf8::decode_utf8(b.spec_bytes()));
    }
    true
}

/// The inbound events a tab counts.
#[derive(Clone, Copy, PartialEq, Eq, Structural, Debug)]
pub enum EventName {
    PageAttached,
    ExecutionContextCreated,
    FrameNavigated,
    LoadEventFired,
    RequestIntercepted,
    RequestWillBeSent,
}

/// Per-tab counters, one per counted event name. Counters saturate at
/// the top of their range instead of overflowing.
pub struct EventStatistics {
    pub page_attached: u64,
    pub execution_context_created: u64,
    pub frame_navigated: u64,
    pub load_event_fired: u64,
    pub request_intercepted: u64,
    pub request_will_be_sent: u64,
}

/// `b` is `a` counted one further, saturating at the top of the range.
pub open spec fn bumped(a: u64, b: u64) -> bool {
    b == if a < u64::MAX {
        (a + 1) as u64
    } else {
        a
    }
}

fn bump(c: &mut u64)
    ensures
        bumped(*old(c), *final(c)),
{
    if *c < u64::MAX {
        *c = *c + 1;
    }
}

impl EventStatistics {
    pub fn new() -> (r: EventStatistics)
        ensures
            r.page_attached == 0,
            r.execution_context_created == 0,
            r.frame_navigated == 0,
            r.load_event_fired == 0,
            r.request_intercepted == 0,
            r.request_will_be_sent == 0,
    {
        EventStatistics {
            page_attached: 0,
            execution_context_created: 0,
            frame_navigated: 0,
            load_event_fired: 0,
            request_intercepted: 0,
            request_will_be_sent: 0,
        }
    }

    /// Count one occurrence of `name`, leaving the other counters
    /// unchanged.
    pub fn event_happened(&mut self, name: EventName)
        ensures
            name is PageAttached ==> bumped(old(self).page_attached, final(self).page_attached)
                && final(self).execution_context_created == old(self).execution_context_created
                && final(self).frame_navigated == old(self).frame_navigated
                && final(self).load_event_fired == old(self).load_event_fired
                && final(self).request_intercepted == old(self).request_intercepted
                && final(self).request_will_be_sent == old(self).request_will_be_sent,
            name is ExecutionContextCreated ==> bumped(
                old(self).execution_context_created,
                final(self).execution_context_created,
            ) && final(self).page_attached == old(self).page_attached && final(self).frame_navigated == old(self).frame_navigated && final(self).load_event_fired == old(self).load_event_fired && final(self).request_intercepted == old(self).request_intercepted
                && final(self).request_will_be_sent == old(self).request_will_be_sent,
            name is FrameNavigated ==> bumped(old(self).frame_navigated, final(self).frame_navigated)
                && final(self).page_attached == old(self).page_attached && final(self).execution_context_created == old(self).execution_context_created && final(self).load_event_fired == old(self).load_event_fired && final(self).request_intercepted
                == old(self).request_intercepted && final(self).request_will_be_sent == old(self).request_will_be_sent,
            name is LoadEventFired ==> bumped(old(self).load_event_fired, final(self).load_event_fired)
                && final(self).page_attached == old(self).page_attached && final(self).execution_context_created == old(self).execution_context_created && final(self).frame_navigated == old(self).frame_navigated && final(self).request_intercepted
                == old(self).request_intercepted && final(self).request_will_be_sent == old(self).request_will_be_sent,
            name is RequestIntercepted ==> bumped(
                old(self).request_intercepted,
                final(self).request_intercepted,
            ) && final(self).page_attached == old(self).page_attached && final(self).execution_context_created == old(self).execution_context_created && final(self).frame_navigated == old(self).frame_navigated && final(self).load_event_fired == old(self).load_event_fired && final(self).request_will_be_sent == old(self).request_will_be_sent,
            name is RequestWillBeSent ==> bumped(
                old(self).request_will_be_sent,
                final(self).request_will_be_sent,
            ) && final(self).page_attached == old(self).page_attached && final(self).execution_context_created == old(self).execution_context_created && final(self).frame_navigated == old(self).frame_navigated && final(self).load_event_fired == old(self).load_event_fired && final(self).request_intercepted == old(self).request_intercepted,
    {
        match name {
            EventName::PageAttached => bump(&mut self.page_attached),
            EventName::ExecutionContextCreated => bump(&mut self.execution_context_created),
            EventName::FrameNavigated => bump(&mut self.frame_navigated),
            EventName::LoadEventFired => bump(&mut self.load_event_fired),
            EventName::RequestIntercepted => bump(&mut self.request_intercepted),
            EventName::RequestWillBeSent => bump(&mut self.request_will_be_sent),
        }
    }
}

} // verus!

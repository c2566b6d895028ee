//! Failure taxonomy of the session engine.

use vstd::prelude::*;

verus! {

/// What went wrong while driving a page.
///
/// Connection- and parse-level failures are fatal to the stream; the
/// rest surface per task or are absorbed after local repair.
#[derive(Clone, Copy, PartialEq, Eq, Structural, Debug)]
pub enum ChromePageError {
    /// The socket failed or closed unexpectedly; fatal.
    Connection,
    /// An envelope on the wire (outer or nested) was malformed; fatal.
    ProtocolParse,
    /// A response carried a CDP `error` field; surfaced per task.
    Method,
    /// An event referenced a target id with no corresponding tab.
    TabNotFound,
    /// A frame lifecycle event arrived without its legal predecessor.
    StateTransition,
    /// A task builder was finished while a required field was missing.
    Builder,
    /// A task kind that has no wire representation was serialised.
    TaskDescribeConvert,
}

impl ChromePageError {
    /// A short human-readable name of the failure kind.
    pub fn describe(&self) -> (r: &'static str)
        ensures
            self is Connection ==> r@ == "connection error"@,
            self is ProtocolParse ==> r@ == "protocol parse error"@,
            self is Method ==> r@ == "method error"@,
            self is TabNotFound ==> r@ == "tab not found"@,
            self is StateTransition ==> r@ == "state transition error"@,
            self is Builder ==> r@ == "builder error"@,
            self is TaskDescribeConvert ==> r@ == "task cannot be serialised"@,
    {
        match self {
            ChromePageError::Connection => "connection error",
            ChromePageError::ProtocolParse => "protocol parse error",
            ChromePageError::Method => "method error",
            ChromePageError::TabNotFound => "tab not found",
            ChromePageError::StateTransition => "state transition error",
            ChromePageError::Builder => "builder error",
            ChromePageError::TaskDescribeConvert => "task cannot be serialised",
        }
    }
}

} // verus!

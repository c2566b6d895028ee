//! Log-domain events. The engine tracks no state for them; an entry
//! is acknowledged and dropped.

use vstd::prelude::*;

use crate::page_message::PageResponseWrapper;

verus! {

/// One entry added to the browser's log.
pub struct LogEntryAdded {
    pub source: String,
    pub level: String,
    pub text: String,
}

/// The log-domain events the engine recognises.
pub enum LogEvent {
    EntryAdded(LogEntryAdded),
}

/// Dispatch one log-domain event. No tab state changes; the consumer
/// sees nothing for it.
pub fn handle_log_event(
    log_event: LogEvent,
    maybe_target_id: Option<String>,
) -> (r: PageResponseWrapper)
    ensures
        r.page_response is Fail,
        r.task_id is None,
{
    match log_event {
        LogEvent::EntryAdded(_entry) => PageResponseWrapper {
            target_id: maybe_target_id,
            task_id: None,
            page_response: crate::page_message::PageResponse::Fail,
        },
    }
}

} // verus!

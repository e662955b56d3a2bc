//! Why an answer ended.
use crate::shared::text::same_text;
use vstd::prelude::*;

verus! {

/// The stop reason that a finish reason stands for. One that is not listed stands for itself: an
/// answer that was cut off by a filter is not one that ended by itself.
pub open spec fn stop_reason(finish_reason: Seq<char>) -> Seq<char> {
    if finish_reason == "stop"@ {
        "end_turn"@
    } else if finish_reason == "tool_calls"@ {
        "tool_use"@
    } else if finish_reason == "length"@ {
        "max_tokens"@
    } else {
        finish_reason
    }
}

/// The stop reason that a finish reason stands for.
pub fn map_finish_reason(finish_reason: &str) -> (reason: String)
    ensures
        reason@ == stop_reason(finish_reason@),
{
    if same_text(finish_reason, "stop") {
        "end_turn".to_string()
    } else if same_text(finish_reason, "tool_calls") {
        "tool_use".to_string()
    } else if same_text(finish_reason, "length") {
        "max_tokens".to_string()
    } else {
        finish_reason.to_string()
    }
}

} // verus!

//! The first session interface: how the runtime's answers about one session
//! are read.

use vstd::prelude::*;
use crate::error::AgentOSError;
use crate::json::{JsonValue, member};
use crate::text::owned;

verus! {

/// Reads a context value from an answer's data: the `value`, which must be
/// there.
pub fn read_context_value(data: &JsonValue) -> (r: Result<JsonValue, AgentOSError>)
    ensures
        match member(data.model(), "value"@) {
            Some(v) => r matches Ok(x) && x.model() == v,
            None => r matches Err(AgentOSError::InvalidResponse(m)) && m@ == "Missing value"@,
        },
{
    match data.get("value") {
        Some(v) => Ok(v.deep_clone()),
        None => Err(AgentOSError::InvalidResponse(owned("Missing value"))),
    }
}

} // verus!

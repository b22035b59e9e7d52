//! The first memory interface: a memory record read from the runtime.

use vstd::prelude::*;
use crate::error::AgentOSError;
use crate::json::{Json, JsonMap, lookup};
use crate::text::owned;

verus! {

broadcast use vstd::string::group_string_axioms;

/// A memory record.
#[derive(Debug)]
pub struct Memory {
    pub id: String,
    pub content: String,
    pub created_at: String,
    pub metadata: JsonMap,
}

/// The string at `key` of an object, if it is a string.
pub open spec fn string_at(m: Seq<(Seq<char>, Json)>, key: Seq<char>) -> Option<Seq<char>> {
    match lookup(m, key) {
        Some(Json::Str(s)) => Some(s),
        _ => None,
    }
}

fn required_string(data: &JsonMap, key: &str, message: &str) -> (r: Result<String, AgentOSError>)
    ensures
        match string_at(data.model(), key@) {
            Some(s) => r matches Ok(x) && x@ == s,
            None => r matches Err(AgentOSError::InvalidResponse(m)) && m@ == message@,
        },
{
    match data.get(key) {
        Some(v) => match v.as_str() {
            Some(s) => Ok(owned(s)),
            None => Err(AgentOSError::InvalidResponse(owned(message))),
        },
        None => Err(AgentOSError::InvalidResponse(owned(message))),
    }
}

impl Memory {
    /// A memory record of these parts.
    pub fn new(id: String, content: String, created_at: String, metadata: JsonMap) -> (r: Memory)
        ensures
            r == (Memory { id, content, created_at, metadata }),
    {
        Memory { id, content, created_at, metadata }
    }

    /// Reads a memory record from an object: its `memory_id`, `content` and
    /// `created_at` must be strings; its metadata is the object at
    /// `metadata`, or none.
    pub fn from_json(json: &JsonMap) -> (r: Result<Memory, AgentOSError>)
        ensures
            string_at(json.model(), "memory_id"@) is None ==> (r matches Err(AgentOSError::InvalidResponse(m))
                && m@ == "Missing memory_id"@),
            string_at(json.model(), "memory_id"@) is Some && string_at(json.model(), "content"@) is None ==> (r matches Err(
                AgentOSError::InvalidResponse(m),
            ) && m@ == "Missing content"@),
            string_at(json.model(), "memory_id"@) is Some && string_at(json.model(), "content"@) is Some && string_at(
                json.model(),
                "created_at"@,
            ) is None ==> (r matches Err(AgentOSError::InvalidResponse(m)) && m@ == "Missing created_at"@),
            r matches Ok(x) ==> Some(x.id@) == string_at(json.model(), "memory_id"@) && Some(x.content@) == string_at(
                json.model(),
                "content"@,
            ) && Some(x.created_at@) == string_at(json.model(), "created_at"@) && x.metadata.model()
                == crate::utils::object_field(json.model(), "metadata"@),
            (string_at(json.model(), "memory_id"@) is Some && string_at(json.model(), "content"@) is Some && string_at(
                json.model(),
                "created_at"@,
            ) is Some) ==> r is Ok,
    {
        let id = match required_string(json, "memory_id", "Missing memory_id") {
            Ok(s) => s,
            Err(e) => {
                return Err(e);
            },
        };
        let content = match required_string(json, "content", "Missing content") {
            Ok(s) => s,
            Err(e) => {
                return Err(e);
            },
        };
        let created_at = match required_string(json, "created_at", "Missing created_at") {
            Ok(s) => s,
            Err(e) => {
                return Err(e);
            },
        };
        Ok(Memory { id, content, created_at, metadata: crate::utils::get_map(json, "metadata") })
    }
}

} // verus!

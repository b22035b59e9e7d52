//! The first skill interface: what running a skill gave and what is known
//! of it, read from the runtime's answers.

use vstd::prelude::*;
use crate::error::AgentOSError;
use crate::json::{Json, JsonMap, JsonValue, member};
use crate::text::owned;

verus! {

broadcast use vstd::string::group_string_axioms;

/// What running a skill gave.
#[derive(Debug)]
pub struct SkillResult {
    pub success: bool,
    pub output: Option<JsonValue>,
    pub error: Option<String>,
}

/// What is known of a skill.
#[derive(Debug)]
pub struct SkillInfo {
    pub name: String,
    pub description: String,
    pub version: String,
    pub parameters: JsonMap,
}

/// Reads what running a skill gave: `success` must be a boolean; the output
/// is kept as it is; the error when it is a string.
pub fn read_skill_result(data: &JsonValue) -> (r: Result<SkillResult, AgentOSError>)
    ensures
        match member(data.model(), "success"@) {
            Some(Json::Bool(b)) => r matches Ok(x) && x.success == b && match member(data.model(), "output"@) {
                Some(v) => x.output matches Some(o) && o.model() == v,
                None => x.output is None,
            } && match member(data.model(), "error"@) {
                Some(Json::Str(s)) => x.error matches Some(e) && e@ == s,
                _ => x.error is None,
            },
            _ => r matches Err(AgentOSError::InvalidResponse(m)) && m@ == "Missing success"@,
        },
{
    let success = match crate::task::read_success(data) {
        Ok(b) => b,
        Err(e) => {
            return Err(e);
        },
    };
    let output = match data.get("output") {
        Some(v) => Some(v.deep_clone()),
        None => None,
    };
    let error = match data.get("error") {
        Some(v) => match v.as_str() {
            Some(s) => Some(owned(s)),
            None => None,
        },
        None => None,
    };
    Ok(SkillResult { success, output, error })
}

/// The string member of a value, or the empty string.
pub open spec fn string_or_empty(v: Json, key: Seq<char>) -> Seq<char> {
    match member(v, key) {
        Some(Json::Str(s)) => s,
        _ => Seq::empty(),
    }
}

/// The object member of a value, or no members.
pub open spec fn object_or_empty(v: Json, key: Seq<char>) -> Seq<(Seq<char>, Json)> {
    match member(v, key) {
        Some(Json::Object(o)) => o,
        _ => Seq::empty(),
    }
}

/// Reads what is known of the named skill from an answer's data.
pub fn read_skill_info(name: &str, data: &JsonValue) -> (r: SkillInfo)
    ensures
        r.name@ == name@,
        r.description@ == string_or_empty(data.model(), "description"@),
        r.version@ == string_or_empty(data.model(), "version"@),
        r.parameters.model() == object_or_empty(data.model(), "parameters"@),
{
    let description = match data.get("description") {
        Some(v) => match v.as_str() {
            Some(s) => owned(s),
            None => String::new(),
        },
        None => String::new(),
    };
    let version = match data.get("version") {
        Some(v) => match v.as_str() {
            Some(s) => owned(s),
            None => String::new(),
        },
        None => String::new(),
    };
    let parameters = match data.get("parameters") {
        Some(v) => match v.as_object() {
            Some(o) => o.deep_clone(),
            None => JsonMap::new(),
        },
        None => JsonMap::new(),
    };
    SkillInfo { name: owned(name), description, version, parameters }
}

} // verus!

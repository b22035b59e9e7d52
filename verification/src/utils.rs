//! Helpers for reading fields out of JSON response objects, building URLs
//! with query strings, generating identifiers and checking endpoints.

use vstd::prelude::*;
use crate::json::{
    Json, JsonMap, JsonNumber, JsonValue, NumberModel, StringMap, json_as_i64, lookup,
};
use crate::text::{concat2, has_prefix, owned, str_starts_with, string_push};
use crate::types::APIResponse;
use vstd::string::StringSliceAdditionalSpecFns;

verus! {

broadcast use {vstd::std_specs::vec::group_vec_axioms, vstd::string::group_string_axioms};

/// The string at `key`, or the empty string when there is no string there.
pub open spec fn string_field(m: Seq<(Seq<char>, Json)>, key: Seq<char>) -> Seq<char> {
    match lookup(m, key) {
        Some(Json::Str(s)) => s,
        _ => Seq::empty(),
    }
}

/// The string at `key`, or `None` when there is no non-empty string there.
pub open spec fn nonempty_string_field(m: Seq<(Seq<char>, Json)>, key: Seq<char>) -> Option<Seq<char>> {
    if string_field(m, key).len() == 0 {
        None
    } else {
        Some(string_field(m, key))
    }
}

/// The integer at `key` read as `i64`, or zero.
pub open spec fn i64_field(m: Seq<(Seq<char>, Json)>, key: Seq<char>) -> i64 {
    match lookup(m, key) {
        Some(v) => match json_as_i64(v) {
            Some(i) => i,
            None => 0,
        },
        None => 0,
    }
}

/// The boolean at `key`, or `false`.
pub open spec fn bool_field(m: Seq<(Seq<char>, Json)>, key: Seq<char>) -> bool {
    match lookup(m, key) {
        Some(Json::Bool(b)) => b,
        _ => false,
    }
}

/// The number at `key`, or zero.
pub open spec fn number_field(m: Seq<(Seq<char>, Json)>, key: Seq<char>) -> NumberModel {
    match lookup(m, key) {
        Some(Json::Number(n)) => n,
        _ => NumberModel::PosInt(0),
    }
}

/// The members of the object at `key`, or no members.
pub open spec fn object_field(m: Seq<(Seq<char>, Json)>, key: Seq<char>) -> Seq<(Seq<char>, Json)> {
    match lookup(m, key) {
        Some(Json::Object(o)) => o,
        _ => Seq::empty(),
    }
}

/// The elements of the array at `key`, or no elements.
pub open spec fn array_field(m: Seq<(Seq<char>, Json)>, key: Seq<char>) -> Seq<Json> {
    match lookup(m, key) {
        Some(Json::Array(a)) => a,
        _ => Seq::empty(),
    }
}

/// The members of an object whose values are strings, in order.
pub open spec fn string_members(m: Seq<(Seq<char>, Json)>) -> Seq<(Seq<char>, Seq<char>)>
    decreases m.len(),
{
    if m.len() == 0 {
        Seq::empty()
    } else {
        let rest = string_members(m.drop_last());
        match m.last().1 {
            Json::Str(s) => rest.push((m.last().0, s)),
            _ => rest,
        }
    }
}

/// The members of an object whose values are integers that fit in `i64`,
/// in order.
pub open spec fn int_members(m: Seq<(Seq<char>, Json)>) -> Seq<(Seq<char>, i64)>
    decreases m.len(),
{
    if m.len() == 0 {
        Seq::empty()
    } else {
        let rest = int_members(m.drop_last());
        match json_as_i64(m.last().1) {
            Some(i) => rest.push((m.last().0, i)),
            None => rest,
        }
    }
}

/// The data of a response, when it is an object.
pub fn extract_data_map(response: &APIResponse) -> (r: Option<JsonMap>)
    ensures
        match response.data.model() {
            Json::Object(m) => r matches Some(x) && x.model() == m,
            _ => r is None,
        },
{
    match response.data.as_object() {
        Some(m) => Some(m.deep_clone()),
        None => None,
    }
}

/// The string at `key`, or the empty string.
pub fn get_string(data: &JsonMap, key: &str) -> (r: String)
    ensures
        r@ == string_field(data.model(), key@),
{
    match data.get(key) {
        Some(v) => match v.as_str() {
            Some(s) => owned(s),
            None => String::new(),
        },
        None => String::new(),
    }
}

/// The string at `key`, or `None` when there is no non-empty string there.
pub fn get_nonempty_string(data: &JsonMap, key: &str) -> (r: Option<String>)
    ensures
        match nonempty_string_field(data.model(), key@) {
            Some(s) => r matches Some(x) && x@ == s,
            None => r is None,
        },
{
    let s = get_string(data, key);
    if s.as_str().is_empty() {
        None
    } else {
        Some(s)
    }
}

/// The integer at `key`, or zero.
pub fn get_i64(data: &JsonMap, key: &str) -> (r: i64)
    ensures
        r == i64_field(data.model(), key@),
{
    match data.get(key) {
        Some(v) => match v.as_i64() {
            Some(i) => i,
            None => 0,
        },
        None => 0,
    }
}

/// The boolean at `key`, or `false`.
pub fn get_bool(data: &JsonMap, key: &str) -> (r: bool)
    ensures
        r == bool_field(data.model(), key@),
{
    match data.get(key) {
        Some(v) => match v.as_bool() {
            Some(b) => b,
            None => false,
        },
        None => false,
    }
}

/// The number at `key`, or zero. Numbers with a fraction keep their
/// decimal text.
pub fn get_f64(data: &JsonMap, key: &str) -> (r: JsonNumber)
    ensures
        r.model() == number_field(data.model(), key@),
{
    match data.get(key) {
        Some(v) => match v.as_number() {
            Some(n) => n.copy(),
            None => JsonNumber::PosInt(0),
        },
        None => JsonNumber::PosInt(0),
    }
}

/// A copy of the object at `key`, or an empty object.
pub fn get_map(data: &JsonMap, key: &str) -> (r: JsonMap)
    ensures
        r.model() == object_field(data.model(), key@),
{
    match data.get(key) {
        Some(v) => match v.as_object() {
            Some(m) => m.deep_clone(),
            None => JsonMap::new(),
        },
        None => JsonMap::new(),
    }
}

/// The string-valued members of the object at `key`.
pub fn get_string_map(data: &JsonMap, key: &str) -> (r: StringMap)
    ensures
        r.model() == string_members(object_field(data.model(), key@)),
{
    let inner = get_map(data, key);
    let ghost m = inner.model();
    let mut out = StringMap::new();
    let mut i: usize = 0;
    while i < inner.entries.len()
        invariant
            i <= inner.entries.len(),
            m == inner.model(),
            out.model() == string_members(m.take(i as int)),
        decreases inner.entries.len() - i,
    {
        assert(m.take(i + 1).drop_last() =~= m.take(i as int));
        let entry = &inner.entries[i];
        match entry.1.as_str() {
            Some(s) => {
                let ghost before = out.model();
                out.entries.push((entry.0.clone(), owned(s)));
                assert(out.model() =~= before.push((entry.0@, s@)));
            },
            None => {},
        }
        i = i + 1;
    }
    assert(m.take(m.len() as int) =~= m);
    out
}

/// Copies of the elements of the array at `key`, or no elements.
pub fn get_array(data: &JsonMap, key: &str) -> (r: Vec<JsonValue>)
    ensures
        r@.len() == array_field(data.model(), key@).len(),
        forall|i: int|
            0 <= i < r@.len() ==> #[trigger] r@[i].model() == array_field(data.model(), key@)[i],
{
    match data.get(key) {
        Some(v) => match v.as_array() {
            Some(a) => crate::json::clone_values(a),
            None => Vec::new(),
        },
        None => Vec::new(),
    }
}

/// The same as `get_array`.
pub fn get_interface_slice(data: &JsonMap, key: &str) -> (r: Vec<JsonValue>)
    ensures
        r@.len() == array_field(data.model(), key@).len(),
        forall|i: int|
            0 <= i < r@.len() ==> #[trigger] r@[i].model() == array_field(data.model(), key@)[i],
{
    get_array(data, key)
}

/// The members whose values are integers that fit in `i64`.
pub fn extract_int64_stats(data: &JsonMap) -> (r: Vec<(String, i64)>)
    ensures
        r@.map_values(|e: (String, i64)| (e.0@, e.1)) == int_members(data.model()),
{
    let ghost m = data.model();
    let mut out: Vec<(String, i64)> = Vec::new();
    let mut i: usize = 0;
    while i < data.entries.len()
        invariant
            i <= data.entries.len(),
            m == data.model(),
            out@.map_values(|e: (String, i64)| (e.0@, e.1)) == int_members(m.take(i as int)),
        decreases data.entries.len() - i,
    {
        assert(m.take(i + 1).drop_last() =~= m.take(i as int));
        let entry = &data.entries[i];
        match entry.1.as_i64() {
            Some(n) => {
                let ghost before = out@;
                out.push((entry.0.clone(), n));
                assert(out@.map_values(|e: (String, i64)| (e.0@, e.1)) =~= before.map_values(
                    |e: (String, i64)| (e.0@, e.1),
                ).push((entry.0@, n)));
            },
            None => {},
        }
        i = i + 1;
    }
    assert(m.take(m.len() as int) =~= m);
    out
}

/// A copy of a JSON value.
pub fn deep_clone_value(value: &JsonValue) -> (r: JsonValue)
    ensures
        r.model() == value.model(),
{
    value.deep_clone()
}

/// `base` with every member of `override_map` set on it, in order.
pub open spec fn merged(base: Seq<(Seq<char>, Json)>, over: Seq<(Seq<char>, Json)>) -> Seq<
    (Seq<char>, Json),
>
    decreases over.len(),
{
    if over.len() == 0 {
        base
    } else {
        crate::json::insert_entry(merged(base, over.drop_last()), over.last().0, over.last().1)
    }
}

/// Merges two objects: the members of `override_map` replace or extend those
/// of `base`.
pub fn merge_maps(base: &JsonMap, override_map: &JsonMap) -> (r: JsonMap)
    ensures
        r.model() == merged(base.model(), override_map.model()),
{
    let mut result = base.deep_clone();
    let ghost o = override_map.model();
    let mut i: usize = 0;
    while i < override_map.entries.len()
        invariant
            i <= override_map.entries.len(),
            o == override_map.model(),
            result.model() == merged(base.model(), o.take(i as int)),
        decreases override_map.entries.len() - i,
    {
        assert(o.take(i + 1).drop_last() =~= o.take(i as int));
        let entry = &override_map.entries[i];
        result.insert(entry.0.clone(), entry.1.deep_clone());
        i = i + 1;
    }
    assert(o.take(o.len() as int) =~= o);
    result
}

/// A byte left as it is by percent-encoding: an ASCII letter or digit, or
/// one of `-`, `.`, `_`, `~`.
pub open spec fn url_safe_byte(b: u8) -> bool {
    (48 <= b <= 57) || (65 <= b <= 90) || (97 <= b <= 122) || b == 45 || b == 46 || b == 95
        || b == 126
}

/// The upper-case hexadecimal digit for a value below sixteen.
pub open spec fn hex_digit(d: u8) -> char {
    if d < 10 {
        ((48 + d) as u32) as char
    } else {
        ((55 + d) as u32) as char
    }
}

/// Percent-encoding of a byte string: safe bytes stay, every other byte
/// becomes `%` and two upper-case hexadecimal digits.
pub open spec fn percent_encode(bytes: Seq<u8>) -> Seq<char>
    decreases bytes.len(),
{
    if bytes.len() == 0 {
        Seq::empty()
    } else {
        let b = bytes.last();
        let head = percent_encode(bytes.drop_last());
        if url_safe_byte(b) {
            head.push((b as u32) as char)
        } else {
            head + seq!['%', hex_digit(b / 16), hex_digit(b % 16)]
        }
    }
}

/// Percent-encodes a string.
///
/// Trusted: `urlencoding::encode`, whose source encodes the UTF-8 bytes of
/// its input, keeping ASCII letters, digits and `-._~`, and writing every
/// other byte as `%` and two upper-case hexadecimal digits.
#[verifier::external_body]
pub(crate) fn url_encode(s: &str) -> (r: String)
    ensures
        r@ == percent_encode(s.spec_bytes()),
{
    urlencoding::encode(s).into_owned()
}

/// `key=value` with both parts percent-encoded.
pub open spec fn query_pair(p: (Seq<char>, Seq<char>)) -> Seq<char> {
    percent_encode(vstd::utf8::encode_utf8(p.0)) + "="@ + percent_encode(vstd::utf8::encode_utf8(p.1))
}

/// The query string of a list of parameters: the encoded pairs joined by `&`.
pub open spec fn query_string(params: Seq<(Seq<char>, Seq<char>)>) -> Seq<char>
    decreases params.len(),
{
    if params.len() == 0 {
        Seq::empty()
    } else if params.len() == 1 {
        query_pair(params[0])
    } else {
        query_string(params.drop_last()) + "&"@ + query_pair(params.last())
    }
}

/// A path with its query parameters appended, or the path alone when there
/// are none.
pub open spec fn url_with_query(path: Seq<char>, params: Seq<(Seq<char>, Seq<char>)>) -> Seq<char> {
    if params.len() == 0 {
        path
    } else {
        path + "?"@ + query_string(params)
    }
}

/// Builds a URL from a path and query parameters.
pub fn build_url(path: &str, params: StringMap) -> (r: String)
    ensures
        r@ == url_with_query(path@, params.model()),
{
    if params.is_empty() {
        return owned(path);
    }
    let ghost m = params.model();
    let mut query = String::new();
    let mut i: usize = 0;
    while i < params.entries.len()
        invariant
            i <= params.entries.len(),
            m == params.model(),
            query@ == query_string(m.take(i as int)),
        decreases params.entries.len() - i,
    {
        assert(m.take(i + 1).drop_last() =~= m.take(i as int));
        let entry = &params.entries[i];
        if i > 0 {
            query.append("&");
        }
        let k = url_encode(entry.0.as_str());
        let v = url_encode(entry.1.as_str());
        query.append(k.as_str());
        query.append("=");
        query.append(v.as_str());
        proof {
            if i == 0 {
                assert(m.take(1) =~= seq![m[0]]);
            }
        }
        i = i + 1;
    }
    assert(m.take(m.len() as int) =~= m);
    let mut url = concat2(path, "?");
    url.append(query.as_str());
    url
}

/// An endpoint is an `http://` or `https://` URL.
pub open spec fn valid_endpoint(s: Seq<char>) -> bool {
    has_prefix(s, "http://"@) || has_prefix(s, "https://"@)
}

/// Whether an endpoint starts with `http://` or `https://`.
pub fn validate_endpoint(endpoint: &str) -> (r: bool)
    ensures
        r == valid_endpoint(endpoint@),
{
    str_starts_with(endpoint, "http://") || str_starts_with(endpoint, "https://")
}

/// A lower-case hexadecimal digit.
pub open spec fn is_lower_hex(c: char) -> bool {
    ('0' <= c && c <= '9') || ('a' <= c && c <= 'f')
}

/// The hyphenated text of a version-4 UUID: 36 characters, hyphens at
/// positions 8, 13, 18 and 23, lower-case hexadecimal digits elsewhere, the
/// version digit `4` at position 14 and a variant digit from `8`, `9`, `a`,
/// `b` at position 19.
pub open spec fn is_uuid_v4_text(s: Seq<char>) -> bool {
    &&& s.len() == 36
    &&& forall|i: int|
        0 <= i < 36 ==> if i == 8 || i == 13 || i == 18 || i == 23 {
            s[i] == '-'
        } else {
            is_lower_hex(#[trigger] s[i])
        }
    &&& s[14] == '4'
    &&& (s[19] == '8' || s[19] == '9' || s[19] == 'a' || s[19] == 'b')
}

/// A fresh random identifier.
///
/// Trusted: `uuid::Uuid::new_v4` followed by its `to_string`. The value is
/// random; what is stated is the format every outcome has, as the `uuid`
/// crate documents it for a version-4 UUID in hyphenated form.
#[verifier::external_body]
pub fn generate_id() -> (r: String)
    ensures
        is_uuid_v4_text(r@),
{
    uuid::Uuid::new_v4().to_string()
}

/// `prefix` followed by a fresh identifier.
pub open spec fn is_prefixed_id(s: Seq<char>, prefix: Seq<char>) -> bool {
    &&& prefix.len() <= s.len()
    &&& s.subrange(0, prefix.len() as int) == prefix
    &&& is_uuid_v4_text(s.subrange(prefix.len() as int, s.len() as int))
}

fn prefixed_id(prefix: &str) -> (r: String)
    ensures
        is_prefixed_id(r@, prefix@),
{
    let id = generate_id();
    let r = concat2(prefix, id.as_str());
    assert(r@.subrange(0, prefix@.len() as int) =~= prefix@);
    assert(r@.subrange(prefix@.len() as int, r@.len() as int) =~= id@);
    r
}

/// A fresh task identifier: `task-` and a UUID.
pub fn generate_task_id() -> (r: String)
    ensures
        is_prefixed_id(r@, "task-"@),
{
    prefixed_id("task-")
}

/// A fresh memory identifier: `mem-` and a UUID.
pub fn generate_memory_id() -> (r: String)
    ensures
        is_prefixed_id(r@, "mem-"@),
{
    prefixed_id("mem-")
}

/// A fresh session identifier: `session-` and a UUID.
pub fn generate_session_id() -> (r: String)
    ensures
        is_prefixed_id(r@, "session-"@),
{
    prefixed_id("session-")
}


/// An instant in UTC: whole seconds since the Unix epoch and the
/// nanoseconds past them.
#[derive(Debug, Clone, Copy, PartialEq, Eq, Structural)]
pub struct UtcTime {
    pub secs: i64,
    pub nanos: u32,
}

#[verifier::external_type_specification]
#[verifier::external_body]
pub struct ExChronoParseError(chrono::ParseError);

/// The instant RFC 3339 text denotes, as chrono reads it, or `None` when
/// chrono does not accept the text.
pub uninterp spec fn rfc3339_instant(text: Seq<char>) -> Option<(i64, u32)>;

/// The RFC 3339 text chrono writes for an instant in UTC.
pub uninterp spec fn rfc3339_text(secs: i64, nanos: u32) -> Seq<char>;

/// Reads RFC 3339 text as an instant in UTC: chrono's
/// `DateTime::parse_from_rfc3339`, the instant given by its `timestamp` and
/// `timestamp_subsec_nanos`. Its result is named `rfc3339_instant`; chrono's
/// parse error is passed on.
#[verifier::external_body]
pub fn parse_time(time_str: &str) -> (r: Result<UtcTime, chrono::ParseError>)
    ensures
        match rfc3339_instant(time_str@) {
            Some((secs, nanos)) => r == Ok::<UtcTime, chrono::ParseError>(UtcTime { secs, nanos }),
            None => r is Err,
        },
{
    chrono::DateTime::parse_from_rfc3339(time_str).map(|dt| UtcTime { secs: dt.timestamp(), nanos: dt.timestamp_subsec_nanos() })
}

/// Writes an instant as RFC 3339 text: chrono's
/// `DateTime::<Utc>::from_timestamp` and `to_rfc3339`, with empty text for an
/// instant chrono cannot represent. Its result is named `rfc3339_text`.
#[verifier::external_body]
pub fn format_time(datetime: &UtcTime) -> (r: String)
    ensures
        r@ == rfc3339_text(datetime.secs, datetime.nanos),
{
    match chrono::DateTime::from_timestamp(datetime.secs, datetime.nanos) {
        Some(d) => d.to_rfc3339(),
        None => String::new(),
    }
}

/// The current instant by chrono's `Utc::now`. Nothing is stated of it: it
/// depends on the clock.
#[verifier::external_body]
pub(crate) fn utc_now() -> (r: UtcTime) {
    let now = chrono::Utc::now();
    UtcTime { secs: now.timestamp(), nanos: now.timestamp_subsec_nanos() }
}

/// The current time in UTC as RFC 3339 text.
pub(crate) fn utc_now_rfc3339() -> (r: String)
    ensures
        exists|t: UtcTime| r@ == #[trigger] rfc3339_text(t.secs, t.nanos),
{
    let now = utc_now();
    let r = format_time(&now);
    assert(r@ == rfc3339_text(now.secs, now.nanos));
    r
}

/// The instant written at `key`, or the current instant when there is none
/// that reads as RFC 3339.
pub fn parse_time_from_map(data: &JsonMap, key: &str) -> (r: UtcTime)
    ensures
        rfc3339_instant(string_field(data.model(), key@)) matches Some((secs, nanos)) ==> r == (UtcTime { secs, nanos }),
{
    let text = get_string(data, key);
    match parse_time(text.as_str()) {
        Ok(t) => t,
        Err(_) => utc_now(),
    }
}

} // verus!

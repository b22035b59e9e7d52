//! A JSON document model the library's logic reads and builds, with its
//! mathematical view, and the conversion to and from JSON text.
//!
//! Numbers keep the three forms JSON text is read into: a non-negative
//! integer, a negative integer, or a number with a fraction or exponent,
//! which is kept as its shortest decimal text.

use vstd::prelude::*;
use crate::text::{owned, str_eq};

verus! {

broadcast use {vstd::std_specs::vec::group_vec_axioms, vstd::string::group_string_axioms};

/// A JSON number.
#[derive(Debug, Clone, PartialEq)]
pub enum JsonNumber {
    PosInt(u64),
    NegInt(i64),
    Float(String),
}

/// The mathematical view of a JSON number.
pub enum NumberModel {
    PosInt(u64),
    NegInt(i64),
    Float(Seq<char>),
}

/// The mathematical view of a JSON value. Object members keep their order;
/// a key is looked up at its first occurrence.
pub enum Json {
    Null,
    Bool(bool),
    Number(NumberModel),
    Str(Seq<char>),
    Array(Seq<Json>),
    Object(Seq<(Seq<char>, Json)>),
}

/// A JSON value.
#[derive(Debug, PartialEq)]
pub enum JsonValue {
    Null,
    Bool(bool),
    Number(JsonNumber),
    String(String),
    Array(Vec<JsonValue>),
    Object(JsonMap),
}

/// A JSON object: its members in order.
#[derive(Debug, PartialEq)]
pub struct JsonMap {
    pub entries: Vec<(String, JsonValue)>,
}

impl JsonNumber {
    pub open spec fn model(&self) -> NumberModel {
        match self {
            JsonNumber::PosInt(u) => NumberModel::PosInt(*u),
            JsonNumber::NegInt(i) => NumberModel::NegInt(*i),
            JsonNumber::Float(t) => NumberModel::Float(t@),
        }
    }

    /// A copy of this number.
    pub fn copy(&self) -> (r: JsonNumber)
        ensures
            r.model() == self.model(),
    {
        match self {
            JsonNumber::PosInt(u) => JsonNumber::PosInt(*u),
            JsonNumber::NegInt(i) => JsonNumber::NegInt(*i),
            JsonNumber::Float(t) => JsonNumber::Float(t.clone()),
        }
    }
}

impl JsonValue {
    pub open spec fn model(&self) -> Json
        decreases self,
    {
        match self {
            JsonValue::Null => Json::Null,
            JsonValue::Bool(b) => Json::Bool(*b),
            JsonValue::Number(n) => Json::Number(n.model()),
            JsonValue::String(s) => Json::Str(s@),
            JsonValue::Array(v) => Json::Array(
                Seq::new(
                    v@.len(),
                    |i: int|
                        if 0 <= i < v@.len() {
                            v@[i].model()
                        } else {
                            Json::Null
                        },
                ),
            ),
            JsonValue::Object(m) => Json::Object(m.model()),
        }
    }
}

impl JsonMap {
    pub open spec fn model(&self) -> Seq<(Seq<char>, Json)>
        decreases self,
    {
        Seq::new(
            self.entries@.len(),
            |i: int|
                if 0 <= i < self.entries@.len() {
                    (self.entries@[i].0@, self.entries@[i].1.model())
                } else {
                    (Seq::empty(), Json::Null)
                },
        )
    }
}

/// The value a key has in an object: the value of its first occurrence.
pub open spec fn lookup<V>(entries: Seq<(Seq<char>, V)>, key: Seq<char>) -> Option<V>
    decreases entries.len(),
{
    if entries.len() == 0 {
        None
    } else if entries[0].0 == key {
        Some(entries[0].1)
    } else {
        lookup(entries.drop_first(), key)
    }
}

/// An object with `key` set to `value`: the first occurrence of `key` takes
/// the new value, or the member is appended when the key is absent.
pub open spec fn insert_entry<V>(entries: Seq<(Seq<char>, V)>, key: Seq<char>, value: V) -> Seq<
    (Seq<char>, V),
>
    decreases entries.len(),
{
    if entries.len() == 0 {
        seq![(key, value)]
    } else if entries[0].0 == key {
        entries.update(0, (key, value))
    } else {
        seq![entries[0]] + insert_entry(entries.drop_first(), key, value)
    }
}

/// No key occurs twice among the members.
pub open spec fn distinct_keys<V>(entries: Seq<(Seq<char>, V)>) -> bool {
    forall|i: int, j: int|
        0 <= i < entries.len() && 0 <= j < entries.len() && i != j ==> entries[i].0 != entries[j].0
}

/// After setting `key`, looking it up gives the new value, and every other
/// key keeps the value it had; a member list without repeated keys keeps
/// that property.
pub proof fn law_insert_lookup<V>(entries: Seq<(Seq<char>, V)>, key: Seq<char>, value: V, other: Seq<char>)
    ensures
        lookup(insert_entry(entries, key, value), key) == Some(value),
        other != key ==> lookup(insert_entry(entries, key, value), other) == lookup(entries, other),
        distinct_keys(entries) ==> distinct_keys(insert_entry(entries, key, value)),
{
    lemma_insert_lookup_same(entries, key, value);
    if other != key {
        lemma_insert_lookup_other(entries, key, value, other);
    }
    if distinct_keys(entries) {
        lemma_insert_distinct(entries, key, value);
    }
}

proof fn lemma_insert_lookup_same<V>(entries: Seq<(Seq<char>, V)>, key: Seq<char>, value: V)
    ensures
        lookup(insert_entry(entries, key, value), key) == Some(value),
    decreases entries.len(),
{
    if entries.len() > 0 && entries[0].0 != key {
        lemma_insert_lookup_same(entries.drop_first(), key, value);
        let rest = insert_entry(entries.drop_first(), key, value);
        assert((seq![entries[0]] + rest).drop_first() =~= rest);
    }
}

proof fn lemma_insert_lookup_other<V>(entries: Seq<(Seq<char>, V)>, key: Seq<char>, value: V, other: Seq<char>)
    requires
        other != key,
    ensures
        lookup(insert_entry(entries, key, value), other) == lookup(entries, other),
    decreases entries.len(),
{
    if entries.len() == 0 {
        assert(seq![(key, value)].drop_first() =~= Seq::<(Seq<char>, V)>::empty());
        assert(lookup(seq![(key, value)], other) == lookup(seq![(key, value)].drop_first(), other));
    } else if entries[0].0 != key {
        lemma_insert_lookup_other(entries.drop_first(), key, value, other);
        let rest = insert_entry(entries.drop_first(), key, value);
        assert((seq![entries[0]] + rest).drop_first() =~= rest);
        assert((seq![entries[0]] + rest)[0] == entries[0]);
    } else {
        assert(entries.update(0, (key, value)).drop_first() =~= entries.drop_first());
    }
}

proof fn lemma_insert_distinct<V>(entries: Seq<(Seq<char>, V)>, key: Seq<char>, value: V)
    requires
        distinct_keys(entries),
    ensures
        distinct_keys(insert_entry(entries, key, value)),
    decreases entries.len(),
{
    if entries.len() > 0 && entries[0].0 != key {
        assert(distinct_keys(entries.drop_first()));
        lemma_insert_distinct(entries.drop_first(), key, value);
        lemma_insert_keys(entries.drop_first(), key, value);
        let rest = insert_entry(entries.drop_first(), key, value);
        let all = seq![entries[0]] + rest;
        assert forall|i: int, j: int|
            0 <= i < all.len() && 0 <= j < all.len() && i != j implies all[i].0 != all[j].0 by {
            if i == 0 && j > 0 {
                if rest[j - 1].0 != key {
                    let k = choose|k: int|
                        0 <= k < entries.drop_first().len() && entries.drop_first()[k].0 == rest[j
                            - 1].0;
                    assert(entries[k + 1].0 == rest[j - 1].0);
                }
            } else if j == 0 && i > 0 {
                if rest[i - 1].0 != key {
                    let k = choose|k: int|
                        0 <= k < entries.drop_first().len() && entries.drop_first()[k].0 == rest[i
                            - 1].0;
                    assert(entries[k + 1].0 == rest[i - 1].0);
                }
            }
        }
    } else if entries.len() > 0 {
        assert forall|i: int, j: int|
            0 <= i < entries.len() && 0 <= j < entries.len() && i != j implies entries.update(
            0,
            (key, value),
        )[i].0 != entries.update(0, (key, value))[j].0 by {}
    }
}

/// Every key of a member list with `key` set is `key` or a key the object had.
proof fn lemma_insert_keys<V>(entries: Seq<(Seq<char>, V)>, key: Seq<char>, value: V)
    ensures
        forall|i: int|
            0 <= i < insert_entry(entries, key, value).len() ==> #[trigger] insert_entry(
                entries,
                key,
                value,
            )[i].0 == key || exists|k: int|
                0 <= k < entries.len() && entries[k].0 == insert_entry(entries, key, value)[i].0,
        insert_entry(entries, key, value).len() >= 1,
    decreases entries.len(),
{
    if entries.len() > 0 && entries[0].0 != key {
        lemma_insert_keys(entries.drop_first(), key, value);
        let rest = insert_entry(entries.drop_first(), key, value);
        assert forall|i: int|
            0 <= i < insert_entry(entries, key, value).len() implies #[trigger] insert_entry(
                entries,
                key,
                value,
            )[i].0 == key || exists|k: int|
                0 <= k < entries.len() && entries[k].0 == insert_entry(entries, key, value)[i].0 by {
            if i == 0 {
                assert(entries[0].0 == insert_entry(entries, key, value)[0].0);
            } else {
                if rest[i - 1].0 != key {
                    let k = choose|k: int| 0 <= k < entries.drop_first().len() && entries.drop_first()[k].0 == rest[i - 1].0;
                    assert(entries[k + 1].0 == insert_entry(entries, key, value)[i].0);
                }
            }
        }
    } else if entries.len() > 0 {
        assert forall|i: int|
            0 <= i < insert_entry(entries, key, value).len() implies #[trigger] insert_entry(
                entries,
                key,
                value,
            )[i].0 == key || exists|k: int|
                0 <= k < entries.len() && entries[k].0 == insert_entry(entries, key, value)[i].0 by {
            if i > 0 {
                assert(entries[i].0 == insert_entry(entries, key, value)[i].0);
            }
        }
    }
}

/// The member `key` of a value, when the value is an object that has it.
pub open spec fn member(v: Json, key: Seq<char>) -> Option<Json> {
    match v {
        Json::Object(m) => lookup(m, key),
        _ => None,
    }
}

/// A number as a signed 64-bit integer, when it is an integer that fits.
pub open spec fn number_as_i64(n: NumberModel) -> Option<i64> {
    match n {
        NumberModel::PosInt(u) => if u <= i64::MAX {
            Some(u as i64)
        } else {
            None
        },
        NumberModel::NegInt(i) => Some(i),
        NumberModel::Float(_) => None,
    }
}

/// A number as an unsigned 64-bit integer, when it is a non-negative
/// integer.
pub open spec fn number_as_u64(n: NumberModel) -> Option<u64> {
    match n {
        NumberModel::PosInt(u) => Some(u),
        _ => None,
    }
}

/// The integer a JSON value holds, read as a signed 64-bit integer.
pub open spec fn json_as_i64(v: Json) -> Option<i64> {
    match v {
        Json::Number(n) => number_as_i64(n),
        _ => None,
    }
}

/// The number a JSON value for a signed 64-bit integer: the non-negative
/// form for zero and above, the negative form below zero.
pub open spec fn i64_number(i: i64) -> NumberModel {
    if i < 0 {
        NumberModel::NegInt(i)
    } else {
        NumberModel::PosInt(i as u64)
    }
}

impl JsonValue {
    /// A copy of this value, member by member.
    pub fn deep_clone(&self) -> (r: JsonValue)
        ensures
            r.model() == self.model(),
        decreases self,
    {
        match self {
            JsonValue::Null => JsonValue::Null,
            JsonValue::Bool(b) => JsonValue::Bool(*b),
            JsonValue::Number(n) => JsonValue::Number(n.copy()),
            JsonValue::String(s) => JsonValue::String(s.clone()),
            JsonValue::Array(v) => {
                let out = clone_values(v);
                let r = JsonValue::Array(out);
                proof {
                    lemma_array_model(r, *self);
                }
                r
            },
            JsonValue::Object(m) => JsonValue::Object(m.deep_clone()),
        }
    }
}

/// Copies of the values of a vector, element by element.
pub fn clone_values(v: &Vec<JsonValue>) -> (out: Vec<JsonValue>)
    ensures
        out@.len() == v@.len(),
        forall|j: int| 0 <= j < v@.len() ==> #[trigger] out@[j].model() == v@[j].model(),
    decreases v,
{
                let mut out: Vec<JsonValue> = Vec::new();
                let mut i: usize = 0;
                while i < v.len()
                    invariant
                        i <= v.len(),
                        out@.len() == i,
                        forall|j: int| 0 <= j < i ==> #[trigger] out@[j].model() == v@[j].model(),
                    decreases v.len() - i,
                {
                    proof {
                        assert(decreases_to!(*v => v[i as int]));
                    }
                    let c = v[i].deep_clone();
                    out.push(c);
                    i = i + 1;
                }
                out
}

impl JsonValue {

    /// A string value.
    pub fn from_str(s: &str) -> (r: JsonValue)
        ensures
            r.model() == Json::Str(s@),
    {
        JsonValue::String(owned(s))
    }

    /// A number value for a signed integer.
    pub fn from_i64(i: i64) -> (r: JsonValue)
        ensures
            r.model() == Json::Number(i64_number(i)),
    {
        if i < 0 {
            JsonValue::Number(JsonNumber::NegInt(i))
        } else {
            JsonValue::Number(JsonNumber::PosInt(i as u64))
        }
    }

    /// A number value for an unsigned integer.
    pub fn from_u64(u: u64) -> (r: JsonValue)
        ensures
            r.model() == Json::Number(NumberModel::PosInt(u)),
    {
        JsonValue::Number(JsonNumber::PosInt(u))
    }

    /// The string this value holds, if it is a string.
    pub fn as_str(&self) -> (r: Option<&str>)
        ensures
            match self.model() {
                Json::Str(s) => r matches Some(t) && t@ == s,
                _ => r is None,
            },
    {
        match self {
            JsonValue::String(s) => Some(s.as_str()),
            _ => None,
        }
    }

    /// The boolean this value holds, if it is a boolean.
    pub fn as_bool(&self) -> (r: Option<bool>)
        ensures
            match self.model() {
                Json::Bool(b) => r == Some(b),
                _ => r is None,
            },
    {
        match self {
            JsonValue::Bool(b) => Some(*b),
            _ => None,
        }
    }

    /// The value as a signed 64-bit integer, if it is an integer that fits.
    pub fn as_i64(&self) -> (r: Option<i64>)
        ensures
            r == json_as_i64(self.model()),
    {
        match self {
            JsonValue::Number(JsonNumber::PosInt(u)) => if *u <= 9223372036854775807u64 {
                Some(*u as i64)
            } else {
                None
            },
            JsonValue::Number(JsonNumber::NegInt(i)) => Some(*i),
            _ => None,
        }
    }

    /// The value as an unsigned 64-bit integer, if it is a non-negative
    /// integer.
    pub fn as_u64(&self) -> (r: Option<u64>)
        ensures
            r == (match self.model() {
                Json::Number(n) => number_as_u64(n),
                _ => None,
            }),
    {
        match self {
            JsonValue::Number(JsonNumber::PosInt(u)) => Some(*u),
            _ => None,
        }
    }

    /// The member `key` of this value, when it is an object that has it.
    pub fn get(&self, key: &str) -> (r: Option<&JsonValue>)
        ensures
            match member(self.model(), key@) {
                Some(v) => r matches Some(x) && x.model() == v,
                None => r is None,
            },
    {
        match self {
            JsonValue::Object(m) => m.get(key),
            _ => None,
        }
    }

    /// The number this value holds, if it is a number.
    pub fn as_number(&self) -> (r: Option<&JsonNumber>)
        ensures
            match self.model() {
                Json::Number(n) => r matches Some(x) && x.model() == n,
                _ => r is None,
            },
    {
        match self {
            JsonValue::Number(n) => Some(n),
            _ => None,
        }
    }

    /// The object this value is, if it is an object.
    pub fn as_object(&self) -> (r: Option<&JsonMap>)
        ensures
            match self.model() {
                Json::Object(m) => r matches Some(o) && o.model() == m,
                _ => r is None,
            },
    {
        match self {
            JsonValue::Object(m) => Some(m),
            _ => None,
        }
    }

    /// The elements of this value, if it is an array.
    pub fn as_array(&self) -> (r: Option<&Vec<JsonValue>>)
        ensures
            match self.model() {
                Json::Array(a) => r matches Some(v) && v@.len() == a.len() && forall|i: int|
                    0 <= i < a.len() ==> #[trigger] v@[i].model() == a[i],
                _ => r is None,
            },
    {
        match self {
            JsonValue::Array(v) => Some(v),
            _ => None,
        }
    }
}

impl JsonMap {
    /// An empty object.
    pub fn new() -> (r: JsonMap)
        ensures
            r.model() == Seq::<(Seq<char>, Json)>::empty(),
    {
        JsonMap { entries: Vec::new() }
    }

    /// The number of members.
    pub fn len(&self) -> (r: usize)
        ensures
            r == self.model().len(),
    {
        self.entries.len()
    }

    /// A copy of this object, member by member.
    pub fn deep_clone(&self) -> (r: JsonMap)
        ensures
            r.model() == self.model(),
        decreases self,
    {
        let mut out: Vec<(String, JsonValue)> = Vec::new();
        let mut i: usize = 0;
        while i < self.entries.len()
            invariant
                i <= self.entries.len(),
                out@.len() == i,
                forall|j: int|
                    0 <= j < i ==> #[trigger] out@[j].0@ == self.entries@[j].0@ && out@[j].1.model()
                        == self.entries@[j].1.model(),
            decreases self.entries.len() - i,
        {
            let entry = &self.entries[i];
            assert(decreases_to!(self => self.entries@[i as int].1));
            let v = entry.1.deep_clone();
            out.push((entry.0.clone(), v));
            i = i + 1;
        }
        let r = JsonMap { entries: out };
        assert(r.model() =~= self.model());
        r
    }

    /// The value of `key`, at its first occurrence.
    pub fn get(&self, key: &str) -> (r: Option<&JsonValue>)
        ensures
            match lookup(self.model(), key@) {
                Some(v) => r matches Some(x) && x.model() == v,
                None => r is None,
            },
    {
        let mut i: usize = 0;
        assert(self.model().subrange(0, self.model().len() as int) =~= self.model());
        while i < self.entries.len()
            invariant
                i <= self.entries.len(),
                lookup(self.model(), key@) == lookup(self.model().subrange(i as int, self.model().len() as int), key@),
            decreases self.entries.len() - i,
        {
            let ghost rest = self.model().subrange(i as int, self.model().len() as int);
            if str_eq(self.entries[i].0.as_str(), key) {
                return Some(&self.entries[i].1);
            }
            assert(rest.drop_first() =~= self.model().subrange(i + 1, self.model().len() as int));
            i = i + 1;
        }
        None
    }

    /// Sets `key` to `value`: the first occurrence of `key` takes the value,
    /// or the member is appended.
    pub fn insert(&mut self, key: String, value: JsonValue)
        ensures
            final(self).model() == insert_entry(old(self).model(), key@, value.model()),
    {
        let mut i: usize = 0;
        let ghost m = self.model();
        while i < self.entries.len()
            invariant
                i <= self.entries.len(),
                self.model() == m,
                m == old(self).model(),
                forall|j: int| 0 <= j < i ==> #[trigger] m[j].0 != key@,
            decreases self.entries.len() - i,
        {
            if str_eq(self.entries[i].0.as_str(), key.as_str()) {
                let ghost kv = key@;
                let ghost vm = value.model();
                assert(m[i as int].0 == kv);
                self.entries.set(i, (key, value));
                proof {
                    lemma_insert_at(m, i as int, kv, vm);
                }
                assert(self.model() =~= m.update(i as int, (kv, vm)));
                return;
            }
            i = i + 1;
        }
        let ghost kv = key@;
        let ghost vm = value.model();
        self.entries.push((key, value));
        proof {
            lemma_insert_absent(m, kv, vm);
        }
        assert(self.model() =~= m.push((kv, vm)));
    }
}

/// Two arrays whose elements have equal views have equal views.
proof fn lemma_array_model(a: JsonValue, b: JsonValue)
    requires
        a is Array,
        b is Array,
        a->Array_0@.len() == b->Array_0@.len(),
        forall|j: int|
            0 <= j < a->Array_0@.len() ==> #[trigger] a->Array_0@[j].model()
                == b->Array_0@[j].model(),
    ensures
        a.model() == b.model(),
{
    let x = a->Array_0;
    let y = b->Array_0;
    let sa = a.model()->Array_0;
    let sb = b.model()->Array_0;
    assert forall|i: int| 0 <= i < sa.len() implies sa[i] == sb[i] by {
        assert(sa[i] == x@[i].model());
        assert(sb[i] == y@[i].model());
    }
    assert(sa =~= sb);
}

/// Setting a key whose first occurrence is at `i` replaces that member.
pub proof fn lemma_insert_at<V>(m: Seq<(Seq<char>, V)>, i: int, key: Seq<char>, value: V)
    requires
        0 <= i < m.len(),
        m[i].0 == key,
        forall|j: int| 0 <= j < i ==> #[trigger] m[j].0 != key,
    ensures
        insert_entry(m, key, value) == m.update(i, (key, value)),
    decreases i,
{
    if i > 0 {
        lemma_insert_at(m.drop_first(), i - 1, key, value);
        assert(seq![m[0]] + m.drop_first().update(i - 1, (key, value)) =~= m.update(i, (key, value)));
    }
}

/// Setting a key that does not occur appends the member.
pub proof fn lemma_insert_absent<V>(m: Seq<(Seq<char>, V)>, key: Seq<char>, value: V)
    requires
        forall|j: int| 0 <= j < m.len() ==> #[trigger] m[j].0 != key,
    ensures
        insert_entry(m, key, value) == m.push((key, value)),
    decreases m.len(),
{
    if m.len() > 0 {
        lemma_insert_absent(m.drop_first(), key, value);
        assert(seq![m[0]] + m.drop_first().push((key, value)) =~= m.push((key, value)));
    }
}

/// A map from strings to strings: its members in order.
#[derive(Debug, Clone, PartialEq)]
pub struct StringMap {
    pub entries: Vec<(String, String)>,
}

impl StringMap {
    pub open spec fn model(&self) -> Seq<(Seq<char>, Seq<char>)> {
        self.entries@.map_values(|e: (String, String)| (e.0@, e.1@))
    }

    /// An empty map.
    pub fn new() -> (r: StringMap)
        ensures
            r.model() == Seq::<(Seq<char>, Seq<char>)>::empty(),
    {
        StringMap { entries: Vec::new() }
    }

    /// The number of members.
    pub fn len(&self) -> (r: usize)
        ensures
            r == self.model().len(),
    {
        self.entries.len()
    }

    /// Whether the map has no members.
    pub fn is_empty(&self) -> (r: bool)
        ensures
            r == (self.model().len() == 0),
    {
        self.entries.len() == 0
    }

    /// The value of `key`, at its first occurrence.
    pub fn get(&self, key: &str) -> (r: Option<&String>)
        ensures
            match lookup(self.model(), key@) {
                Some(v) => r matches Some(x) && x@ == v,
                None => r is None,
            },
    {
        let mut i: usize = 0;
        assert(self.model().subrange(0, self.model().len() as int) =~= self.model());
        while i < self.entries.len()
            invariant
                i <= self.entries.len(),
                lookup(self.model(), key@) == lookup(self.model().subrange(i as int, self.model().len() as int), key@),
            decreases self.entries.len() - i,
        {
            let ghost rest = self.model().subrange(i as int, self.model().len() as int);
            if str_eq(self.entries[i].0.as_str(), key) {
                return Some(&self.entries[i].1);
            }
            assert(rest.drop_first() =~= self.model().subrange(i + 1, self.model().len() as int));
            i = i + 1;
        }
        None
    }

    /// Sets `key` to `value`: the first occurrence of `key` takes the value,
    /// or the member is appended.
    pub fn insert(&mut self, key: String, value: String)
        ensures
            final(self).model() == insert_entry(old(self).model(), key@, value@),
    {
        let mut i: usize = 0;
        let ghost m = self.model();
        while i < self.entries.len()
            invariant
                i <= self.entries.len(),
                self.model() == m,
                m == old(self).model(),
                forall|j: int| 0 <= j < i ==> #[trigger] m[j].0 != key@,
            decreases self.entries.len() - i,
        {
            if str_eq(self.entries[i].0.as_str(), key.as_str()) {
                let ghost kv = key@;
                let ghost vv = value@;
                assert(m[i as int].0 == kv);
                self.entries.set(i, (key, value));
                proof {
                    lemma_insert_at(m, i as int, kv, vv);
                }
                assert(self.model() =~= m.update(i as int, (kv, vv)));
                return;
            }
            i = i + 1;
        }
        let ghost kv = key@;
        let ghost vv = value@;
        self.entries.push((key, value));
        proof {
            lemma_insert_absent(m, kv, vv);
        }
        assert(self.model() =~= m.push((kv, vv)));
    }

    /// A copy of this map.
    pub fn copy(&self) -> (r: StringMap)
        ensures
            r.model() == self.model(),
    {
        let mut out: Vec<(String, String)> = Vec::new();
        let mut i: usize = 0;
        while i < self.entries.len()
            invariant
                i <= self.entries.len(),
                out@.len() == i,
                forall|j: int|
                    0 <= j < i ==> #[trigger] out@[j].0@ == self.entries@[j].0@ && out@[j].1@
                        == self.entries@[j].1@,
            decreases self.entries.len() - i,
        {
            out.push((self.entries[i].0.clone(), self.entries[i].1.clone()));
            i = i + 1;
        }
        let r = StringMap { entries: out };
        assert(r.model() =~= self.model());
        r
    }
}

#[verifier::external_type_specification]
#[verifier::external_body]
pub struct ExSerdeJsonValue(serde_json::Value);

#[verifier::external_type_specification]
#[verifier::external_body]
pub struct ExSerdeJsonNumber(serde_json::Number);

/// The document that JSON text denotes, or `None` when the text is not JSON,
/// as `serde_json::from_str` reads it.
pub uninterp spec fn json_text_parse(text: Seq<char>) -> Option<Json>;

/// The compact JSON text of a document, as `serde_json` renders a value.
pub uninterp spec fn json_text_render(v: Json) -> Seq<char>;

/// Converts a `serde_json` number into the library's number: the integer
/// form `serde_json` holds it in, else the text `serde_json` writes for it.
#[verifier::external_body]
fn import_serde_number(n: &serde_json::Number) -> JsonNumber {
    match (n.as_u64(), n.as_i64()) {
        (Some(u), _) => JsonNumber::PosInt(u),
        (None, Some(i)) => JsonNumber::NegInt(i),
        _ => JsonNumber::Float(n.to_string()),
    }
}

/// Converts a `serde_json` value into the library's model, variant by
/// variant.
#[verifier::external_body]
fn import_serde_value(v: &serde_json::Value) -> JsonValue {
    match v {
        serde_json::Value::Null => JsonValue::Null,
        serde_json::Value::Bool(b) => JsonValue::Bool(*b),
        serde_json::Value::Number(n) => JsonValue::Number(import_serde_number(n)),
        serde_json::Value::String(s) => JsonValue::String(s.clone()),
        serde_json::Value::Array(a) => JsonValue::Array(a.iter().map(import_serde_value).collect()),
        serde_json::Value::Object(m) => JsonValue::Object(JsonMap {
            entries: m.iter().map(|(k, x)| (k.clone(), import_serde_value(x))).collect(),
        }),
    }
}

/// Converts the library's number into a `serde_json` value; a number kept
/// as text is read back by `serde_json`.
#[verifier::external_body]
fn export_serde_number(n: &JsonNumber) -> serde_json::Value {
    match n {
        JsonNumber::PosInt(u) => serde_json::Value::from(*u),
        JsonNumber::NegInt(i) => serde_json::Value::from(*i),
        JsonNumber::Float(t) => serde_json::from_str(t).unwrap_or(serde_json::Value::Null),
    }
}

/// Converts the library's model into a `serde_json` value, variant by
/// variant.
#[verifier::external_body]
fn export_serde_value(v: &JsonValue) -> serde_json::Value {
    match v {
        JsonValue::Null => serde_json::Value::Null,
        JsonValue::Bool(b) => serde_json::Value::Bool(*b),
        JsonValue::Number(n) => export_serde_number(n),
        JsonValue::String(s) => serde_json::Value::String(s.clone()),
        JsonValue::Array(a) => serde_json::Value::Array(a.iter().map(export_serde_value).collect()),
        JsonValue::Object(m) => serde_json::Value::Object(
            m.entries.iter().map(|(k, x)| (k.clone(), export_serde_value(x))).collect(),
        ),
    }
}

/// Reads JSON text.
///
/// Trusted: `serde_json::from_str::<serde_json::Value>`, converted into the
/// library's model. Its result is named `json_text_parse`; nothing more is
/// stated of it.
#[verifier::external_body]
pub(crate) fn parse_json(text: &str) -> (r: Option<JsonValue>)
    ensures
        match json_text_parse(text@) {
            Some(j) => r matches Some(v) && v.model() == j,
            None => r is None,
        },
{
    match serde_json::from_str::<serde_json::Value>(text) {
        Ok(v) => Some(import_serde_value(&v)),
        Err(_) => None,
    }
}

/// Writes a value as compact JSON text.
///
/// Trusted: `serde_json::Value`'s `to_string`, applied to the value converted
/// from the library's model. Its result is named `json_text_render`.
#[verifier::external_body]
pub(crate) fn to_json_text(v: &JsonValue) -> (r: String)
    ensures
        r@ == json_text_render(v.model()),
{
    export_serde_value(v).to_string()
}

} // verus!

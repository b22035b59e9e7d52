//! Telemetry: a meter that keeps the latest metric points and a tracer that
//! keeps the latest spans, each up to a limit, dropping the oldest first.

use vstd::prelude::*;
use crate::client::unix_nanos;
use crate::json::{JsonNumber, StringMap};
use crate::text::{owned, string_views};
use vstd::string::StrSliceExecFns;

verus! {

broadcast use {vstd::std_specs::vec::group_vec_axioms, vstd::string::group_string_axioms};

/// The number of points a meter keeps unless told otherwise.
pub const DEFAULT_MAX_DATA_POINTS: usize = 1000;

/// The number of spans a tracer keeps unless told otherwise.
pub const DEFAULT_MAX_SPANS: usize = 500;

/// The status of a span.
#[derive(Debug, Clone, Copy, PartialEq, Eq, Structural)]
pub enum SpanStatus {
    OK,
    Error,
    Unset,
}

impl SpanStatus {
    /// The status's name.
    pub open spec fn name(self) -> Seq<char> {
        match self {
            SpanStatus::OK => "ok"@,
            SpanStatus::Error => "error"@,
            SpanStatus::Unset => "unset"@,
        }
    }

    /// The status's name, owned.
    pub fn to_string(&self) -> (r: String)
        ensures
            r@ == self.name(),
    {
        match self {
            SpanStatus::OK => owned("ok"),
            SpanStatus::Error => owned("error"),
            SpanStatus::Unset => owned("unset"),
        }
    }
}

/// One metric point: a name, a value (a JSON number), the time it was
/// taken in milliseconds since the Unix epoch, and tags.
#[derive(Debug)]
pub struct MetricPoint {
    pub name: String,
    pub value: JsonNumber,
    pub timestamp: u128,
    pub tags: StringMap,
}

/// A traced span. Times are nanoseconds since the Unix epoch; the duration
/// of a finished span is kept in nanoseconds.
#[derive(Debug)]
pub struct Span {
    pub name: String,
    pub status: SpanStatus,
    pub start_time: u128,
    pub end_time: Option<u128>,
    pub duration_nanos: Option<u128>,
    pub tags: StringMap,
}

impl Span {
    /// A span with this name started at `start`: OK, not finished, no tags.
    pub fn new_at(name: &str, start: u128) -> (r: Span)
        ensures
            r.name@ == name@,
            r.status == SpanStatus::OK,
            r.start_time == start,
            r.end_time is None,
            r.duration_nanos is None,
            r.tags.model().len() == 0,
    {
        Span {
            name: owned(name),
            status: SpanStatus::OK,
            start_time: start,
            end_time: None,
            duration_nanos: None,
            tags: StringMap::new(),
        }
    }

    /// A span with this name started now.
    pub fn new(name: &str) -> (r: Span)
        ensures
            r.name@ == name@,
            r.status == SpanStatus::OK,
            r.end_time is None,
            r.duration_nanos is None,
            r.tags.model().len() == 0,
    {
        Span::new_at(name, unix_nanos())
    }

    /// Finishes the span at `end`: its end time and its duration from its
    /// start.
    pub fn finish_at(&mut self, end: u128)
        requires
            end >= old(self).start_time,
        ensures
            final(self).end_time == Some(end),
            final(self).duration_nanos == Some((end - old(self).start_time) as u128),
            final(self).name == old(self).name,
            final(self).status == old(self).status,
            final(self).start_time == old(self).start_time,
            final(self).tags == old(self).tags,
    {
        self.end_time = Some(end);
        self.duration_nanos = Some(end - self.start_time);
    }

    /// Finishes the span now. A clock reading earlier than the start counts
    /// as the start itself.
    pub fn finish(&mut self)
        ensures
            final(self).end_time matches Some(e) && e >= old(self).start_time && final(self).duration_nanos == Some(
                (e - old(self).start_time) as u128,
            ),
            final(self).name == old(self).name,
            final(self).status == old(self).status,
            final(self).start_time == old(self).start_time,
            final(self).tags == old(self).tags,
    {
        let now = unix_nanos();
        let end = if now >= self.start_time { now } else { self.start_time };
        self.finish_at(end);
    }

    /// A copy of this span.
    pub fn copy(&self) -> (r: Span)
        ensures
            r.name@ == self.name@,
            r.status == self.status,
            r.start_time == self.start_time,
            r.end_time == self.end_time,
            r.duration_nanos == self.duration_nanos,
            r.tags.model() == self.tags.model(),
    {
        Span {
            name: owned(self.name.as_str()),
            status: self.status,
            start_time: self.start_time,
            end_time: self.end_time,
            duration_nanos: self.duration_nanos,
            tags: self.tags.copy(),
        }
    }
}

/// What a bounded buffer holding `old` keeps after `x` arrives: `x` appended,
/// with the oldest item dropped first when the buffer is full.
pub open spec fn bounded_push<T>(old: Seq<T>, x: T, max: nat) -> Seq<T> {
    if old.len() >= max {
        old.drop_first().push(x)
    } else {
        old.push(x)
    }
}

/// The last `n` items of a sequence, or all of them when there are fewer.
pub open spec fn latest<T>(s: Seq<T>, n: nat) -> Seq<T> {
    if s.len() <= n {
        s
    } else {
        s.subrange(s.len() - n, s.len() as int)
    }
}

/// A buffer within its limit that takes one more item keeps the latest
/// items of everything it held and the new one, up to the limit, and stays
/// within the limit.
pub proof fn law_bounded_push_keeps_latest<T>(old: Seq<T>, x: T, max: nat)
    requires
        max > 0,
        old.len() <= max,
    ensures
        bounded_push(old, x, max) == latest(old.push(x), max),
        bounded_push(old, x, max).len() <= max,
        bounded_push(old, x, max).last() == x,
{
    if old.len() >= max {
        assert(old.drop_first().push(x) =~= old.push(x).subrange(old.push(x).len() - max, old.push(x).len() as int));
    }
}

/// The tags of a point: the given ones, or none.
pub open spec fn opt_tags_model(tags: Option<StringMap>) -> Seq<(Seq<char>, Seq<char>)> {
    match tags {
        Some(t) => t.model(),
        None => Seq::empty(),
    }
}

/// Collects metric points, keeping the latest up to a limit.
#[derive(Debug)]
pub struct Meter {
    data_points: Vec<MetricPoint>,
    max_data_points: usize,
}

/// Lexicographic order of texts by character.
pub open spec fn text_lt(a: Seq<char>, b: Seq<char>) -> bool
    decreases a.len(),
{
    if a.len() == 0 {
        b.len() > 0
    } else if b.len() == 0 {
        false
    } else if a[0] != b[0] {
        (a[0] as int) < (b[0] as int)
    } else {
        text_lt(a.drop_first(), b.drop_first())
    }
}

/// Of two different texts one comes first, and never both.
pub proof fn lemma_text_lt_total(a: Seq<char>, b: Seq<char>)
    ensures
        a != b ==> (text_lt(a, b) || text_lt(b, a)),
        !(text_lt(a, b) && text_lt(b, a)),
        !text_lt(a, a),
    decreases a.len(),
{
    if a.len() > 0 && b.len() > 0 && a[0] == b[0] {
        lemma_text_lt_total(a.drop_first(), b.drop_first());
        if a != b {
            assert(a =~= seq![a[0]] + a.drop_first());
            assert(b =~= seq![b[0]] + b.drop_first());
        }
    }
    if a.len() > 0 {
        lemma_text_lt_total(a.drop_first(), a.drop_first());
    }
    if a.len() == 0 && b.len() == 0 {
        assert(a =~= b);
    }
    if a.len() > 0 && b.len() > 0 && a[0] != b[0] {
        assert((a[0] as int) != (b[0] as int));
    }
}

/// The order is transitive.
pub proof fn lemma_text_lt_transitive(a: Seq<char>, b: Seq<char>, c: Seq<char>)
    requires
        text_lt(a, b),
        text_lt(b, c),
    ensures
        text_lt(a, c),
    decreases a.len(),
{
    if a.len() > 0 && b.len() > 0 && c.len() > 0 && a[0] == b[0] && b[0] == c[0] {
        lemma_text_lt_transitive(a.drop_first(), b.drop_first(), c.drop_first());
    }
}

fn str_lt(a: &str, b: &str) -> (r: bool)
    ensures
        r == text_lt(a@, b@),
{
    let n: usize = a.unicode_len();
    let m: usize = b.unicode_len();
    let mut i: usize = 0;
    assert(a@.subrange(0, n as int) =~= a@);
    assert(b@.subrange(0, m as int) =~= b@);
    while i < n && i < m
        invariant
            i <= n,
            i <= m,
            n == a@.len(),
            m == b@.len(),
            text_lt(a@, b@) == text_lt(a@.subrange(i as int, n as int), b@.subrange(i as int, m as int)),
        decreases n - i,
    {
        let x = a.get_char(i);
        let y = b.get_char(i);
        let ghost sa = a@.subrange(i as int, n as int);
        let ghost sb = b@.subrange(i as int, m as int);
        assert(sa[0] == x && sb[0] == y);
        if x != y {
            return (x as u32) < (y as u32);
        }
        assert(sa.drop_first() =~= a@.subrange(i + 1, n as int));
        assert(sb.drop_first() =~= b@.subrange(i + 1, m as int));
        i = i + 1;
    }
    i == n && i < m
}

/// Sorted by the text order, each text once.
pub open spec fn strictly_sorted(s: Seq<Seq<char>>) -> bool {
    forall|i: int, j: int| 0 <= i < j < s.len() ==> text_lt(#[trigger] s[i], #[trigger] s[j])
}

/// The names of a list of points.
pub open spec fn point_names(points: Seq<MetricPoint>) -> Seq<Seq<char>> {
    points.map_values(|p: MetricPoint| p.name@)
}

/// The points with this name, in order.
pub open spec fn points_named(points: Seq<MetricPoint>, name: Seq<char>) -> Seq<MetricPoint>
    decreases points.len(),
{
    if points.len() == 0 {
        Seq::empty()
    } else {
        let rest = points_named(points.drop_last(), name);
        if points.last().name@ == name {
            rest.push(points.last())
        } else {
            rest
        }
    }
}

impl Meter {
    /// The points kept, oldest first.
    pub closed spec fn points(&self) -> Seq<MetricPoint> {
        self.data_points@
    }

    /// The number of points kept at most.
    pub closed spec fn limit(&self) -> nat {
        self.max_data_points as nat
    }

    /// The meter holds no more points than its limit.
    pub open spec fn wf(&self) -> bool {
        self.points().len() <= self.limit()
    }

    /// An empty meter keeping up to a thousand points.
    pub fn new() -> (r: Meter)
        ensures
            r.wf(),
            r.points().len() == 0,
            r.limit() == DEFAULT_MAX_DATA_POINTS,
    {
        Meter { data_points: Vec::new(), max_data_points: DEFAULT_MAX_DATA_POINTS }
    }

    /// An empty meter keeping up to this many points.
    pub fn with_max(max_data_points: usize) -> (r: Meter)
        ensures
            r.wf(),
            r.points().len() == 0,
            r.limit() == max_data_points,
    {
        Meter { data_points: Vec::new(), max_data_points }
    }

    /// Records a point taken at `timestamp` (milliseconds), dropping the
    /// oldest point when the meter is full.
    pub fn record_at(&mut self, name: &str, value: JsonNumber, tags: Option<StringMap>, timestamp: u128)
        requires
            old(self).wf(),
            old(self).limit() > 0,
        ensures
            final(self).wf(),
            final(self).limit() == old(self).limit(),
            final(self).points().len() == bounded_push(old(self).points(), final(self).points().last(), old(self).limit()).len(),
            final(self).points() == bounded_push(old(self).points(), final(self).points().last(), old(self).limit()),
            final(self).points().last().name@ == name@,
            final(self).points().last().value == value,
            final(self).points().last().timestamp == timestamp,
            final(self).points().last().tags.model() == opt_tags_model(tags),
    {
        let point = MetricPoint {
            name: owned(name),
            value,
            timestamp,
            tags: match tags {
                Some(t) => t,
                None => StringMap::new(),
            },
        };
        assert(point.tags.model() =~= opt_tags_model(tags));
        let ghost p = point;
        let ghost pre = self.data_points@;
        if self.data_points.len() >= self.max_data_points {
            self.data_points.remove(0);
            assert(self.data_points@ =~= pre.drop_first());
        }
        self.data_points.push(point);
        assert(self.data_points@.last() == p);
        assert(self.data_points@ =~= bounded_push(pre, p, self.max_data_points as nat));
    }

    /// Records a point taken now.
    pub fn record(&mut self, name: &str, value: JsonNumber, tags: Option<StringMap>)
        requires
            old(self).wf(),
            old(self).limit() > 0,
        ensures
            final(self).wf(),
            final(self).limit() == old(self).limit(),
            final(self).points() == bounded_push(old(self).points(), final(self).points().last(), old(self).limit()),
            final(self).points().last().name@ == name@,
            final(self).points().last().value == value,
            final(self).points().last().tags.model() == opt_tags_model(tags),
    {
        let millis = unix_nanos() / 1_000_000;
        self.record_at(name, value, tags, millis);
    }

    /// The points with this name, oldest first.
    pub fn get(&self, name: &str) -> (r: Vec<&MetricPoint>)
        ensures
            r@.map_values(|p: &MetricPoint| *p) == points_named(self.points(), name@),
    {
        let mut out: Vec<&MetricPoint> = Vec::new();
        let mut i: usize = 0;
        while i < self.data_points.len()
            invariant
                i <= self.data_points.len(),
                out@.map_values(|p: &MetricPoint| *p) == points_named(self.data_points@.take(i as int), name@),
            decreases self.data_points.len() - i,
        {
            assert(self.data_points@.take(i + 1).drop_last() =~= self.data_points@.take(i as int));
            if crate::text::str_eq(self.data_points[i].name.as_str(), name) {
                let ghost before = out@;
                out.push(&self.data_points[i]);
                assert(out@.map_values(|p: &MetricPoint| *p) =~= before.map_values(|p: &MetricPoint| *p).push(
                    self.data_points@[i as int]));
            }
            i = i + 1;
        }
        assert(self.data_points@.take(self.data_points@.len() as int) =~= self.data_points@);
        out
    }

    /// The names of the points, sorted, each once.
    pub fn get_all_names(&self) -> (r: Vec<String>)
        ensures
            strictly_sorted(string_views(r@)),
            forall|x: Seq<char>| string_views(r@).contains(x) <==> point_names(self.points()).contains(x),
    {
        let mut names: Vec<String> = Vec::new();
        let mut i: usize = 0;
        while i < self.data_points.len()
            invariant
                i <= self.data_points.len(),
                strictly_sorted(string_views(names@)),
                forall|x: Seq<char>| string_views(names@).contains(x) <==> point_names(self.data_points@.take(i as int)).contains(x),
            decreases self.data_points.len() - i,
        {
            let name = self.data_points[i].name.as_str();
            let ghost prev = point_names(self.data_points@.take(i as int));
            let ghost next = point_names(self.data_points@.take(i + 1));
            assert(next =~= prev.push(name@));
            insert_sorted(&mut names, name);
            assert forall|x: Seq<char>| string_views(names@).contains(x) <==> next.contains(x) by {
                if next.contains(x) && x != name@ {
                    let k = choose|k: int| 0 <= k < next.len() && next[k] == x;
                    assert(prev[k] == x);
                }
                if prev.contains(x) {
                    let k = choose|k: int| 0 <= k < prev.len() && prev[k] == x;
                    assert(next[k] == x);
                }
                assert(next[prev.len() as int] == name@);
            }
            i = i + 1;
        }
        assert(self.data_points@.take(self.data_points@.len() as int) =~= self.data_points@);
        names
    }

    /// All points, oldest first.
    pub fn get_all(&self) -> (r: &[MetricPoint])
        ensures
            r@ == self.points(),
    {
        self.data_points.as_slice()
    }

    /// Drops every point.
    pub fn reset(&mut self)
        ensures
            final(self).wf(),
            final(self).points().len() == 0,
            final(self).limit() == old(self).limit(),
    {
        self.data_points.clear();
    }
}

/// Inserts a text into a strictly sorted list of texts, unless it is there.
fn insert_sorted(names: &mut Vec<String>, name: &str)
    requires
        strictly_sorted(string_views(old(names)@)),
    ensures
        strictly_sorted(string_views(final(names)@)),
        forall|x: Seq<char>| string_views(final(names)@).contains(x) <==> (string_views(old(names)@).contains(x)
            || x == name@),
{
    let ghost s = string_views(names@);
    let mut j: usize = 0;
    while j < names.len() && str_lt(names[j].as_str(), name)
        invariant
            j <= names.len(),
            s == string_views(names@),
            names@ == old(names)@,
            forall|k: int| 0 <= k < j ==> text_lt(#[trigger] s[k], name@),
        decreases names.len() - j,
    {
        assert(s[j as int] == names@[j as int]@);
        j = j + 1;
    }
    if j < names.len() && crate::text::str_eq(names[j].as_str(), name) {
        assert(s[j as int] == name@);
        assert(s.contains(name@));
        return;
    }
    proof {
        if j < s.len() {
            assert(!text_lt(s[j as int], name@));
            assert(s[j as int] != name@);
            lemma_text_lt_total(s[j as int], name@);
            assert(text_lt(name@, s[j as int]));
        }
    }
    names.insert(j, owned(name));
    let ghost t = string_views(names@);
    assert(t =~= s.insert(j as int, name@));
    assert forall|a: int, b: int| 0 <= a < b < t.len() implies text_lt(#[trigger] t[a], #[trigger] t[b]) by {
        if b < j {
        } else if a < j && b == j {
        } else if a < j && b > j {
            assert(t[b] == s[b - 1]);
            assert(text_lt(s[a], name@));
            assert(text_lt(name@, s[j as int]));
            if b - 1 > j {
                assert(text_lt(s[j as int], s[b - 1]));
                lemma_text_lt_transitive(name@, s[j as int], s[b - 1]);
            }
            lemma_text_lt_transitive(s[a], name@, s[b - 1]);
        } else if a == j {
            assert(t[b] == s[b - 1]);
            if b - 1 > j {
                assert(text_lt(s[j as int], s[b - 1]));
                lemma_text_lt_transitive(name@, s[j as int], s[b - 1]);
            }
        } else {
            assert(t[a] == s[a - 1]);
            assert(t[b] == s[b - 1]);
        }
    }
    assert forall|x: Seq<char>| t.contains(x) <==> (s.contains(x) || x == name@) by {
        if t.contains(x) {
            let k = choose|k: int| 0 <= k < t.len() && t[k] == x;
            if k < j {
                assert(s[k] == x);
            } else if k > j {
                assert(s[k - 1] == x);
            }
        }
        if s.contains(x) {
            let k = choose|k: int| 0 <= k < s.len() && s[k] == x;
            if k < j {
                assert(t[k] == x);
            } else {
                assert(t[k + 1] == x);
            }
        }
        if x == name@ {
            assert(t[j as int] == x);
        }
    }
}

/// Traces spans, keeping the latest up to a limit.
#[derive(Debug)]
pub struct Tracer {
    spans: Vec<Span>,
    max_spans: usize,
}

impl Tracer {
    /// The spans kept, oldest first.
    pub closed spec fn spans(&self) -> Seq<Span> {
        self.spans@
    }

    /// The number of spans kept at most.
    pub closed spec fn limit(&self) -> nat {
        self.max_spans as nat
    }

    /// The tracer holds no more spans than its limit.
    pub open spec fn wf(&self) -> bool {
        self.spans().len() <= self.limit()
    }

    /// An empty tracer keeping up to five hundred spans.
    pub fn new() -> (r: Tracer)
        ensures
            r.wf(),
            r.spans().len() == 0,
            r.limit() == DEFAULT_MAX_SPANS,
    {
        Tracer { spans: Vec::new(), max_spans: DEFAULT_MAX_SPANS }
    }

    /// An empty tracer keeping up to this many spans.
    pub fn with_max(max_spans: usize) -> (r: Tracer)
        ensures
            r.wf(),
            r.spans().len() == 0,
            r.limit() == max_spans,
    {
        Tracer { spans: Vec::new(), max_spans }
    }

    /// Starts a span now: a copy is kept, dropping the oldest span when the
    /// tracer is full, and the span is returned.
    pub fn start_span(&mut self, name: &str) -> (r: Span)
        requires
            old(self).wf(),
            old(self).limit() > 0,
        ensures
            final(self).wf(),
            final(self).limit() == old(self).limit(),
            final(self).spans() == bounded_push(old(self).spans(), final(self).spans().last(), old(self).limit()),
            r.name@ == name@,
            r.status == SpanStatus::OK,
            r.end_time is None,
            final(self).spans().last().name@ == name@,
            final(self).spans().last().start_time == r.start_time,
    {
        let ghost pre = self.spans@;
        if self.spans.len() >= self.max_spans {
            self.spans.remove(0);
            assert(self.spans@ =~= pre.drop_first());
        }
        let span = Span::new(name);
        let kept = span.copy();
        let ghost k = kept;
        self.spans.push(kept);
        assert(self.spans@.last() == k);
        assert(self.spans@ =~= bounded_push(pre, k, self.max_spans as nat));
        span
    }

    /// Finishes a span now. The tracer's own copy is left as it was.
    pub fn finish_span(&mut self, span: &mut Span)
        ensures
            final(self).spans() == old(self).spans(),
            final(self).limit() == old(self).limit(),
            final(span).end_time matches Some(e) && e >= old(span).start_time && final(span).duration_nanos == Some(
                (e - old(span).start_time) as u128,
            ),
            final(span).name == old(span).name,
            final(span).start_time == old(span).start_time,
    {
        span.finish();
    }

    /// All spans, oldest first.
    pub fn get_spans(&self) -> (r: &[Span])
        ensures
            r@ == self.spans(),
    {
        self.spans.as_slice()
    }

    /// Drops every span.
    pub fn reset(&mut self)
        ensures
            final(self).wf(),
            final(self).spans().len() == 0,
            final(self).limit() == old(self).limit(),
    {
        self.spans.clear();
    }
}

} // verus!

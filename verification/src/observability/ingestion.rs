//! Native telemetry ingestion: which events, spans and metric labels reach
//! storage, and the per-metric cardinality budget.

use vstd::prelude::*;

use super::tracing::{is_forbidden_attribute_key, is_forbidden_key};
use crate::text::{chars_of, push_char, str_eq, string_of_range};

verus! {

/// Max unique label combinations stored per metric per export cycle.
pub const MAX_CARDINALITY_PER_METRIC: usize = 100;

/// Max items accumulated before a batch INSERT is flushed.
pub const BATCH_CAPACITY: usize = 64;

/// Capacity of each ingestion channel.
pub const CHANNEL_CAPACITY: usize = 4096;

/// A `::` separator starts at position `k`.
pub open spec fn is_sep_at(s: Seq<char>, k: int) -> bool {
    0 <= k && k + 1 < s.len() && s[k] == ':' && s[k + 1] == ':'
}

/// No `::` separator anywhere.
pub open spec fn no_sep(s: Seq<char>) -> bool {
    forall|m: int| !#[trigger] is_sep_at(s, m)
}

/// The first `::` separator starts at `k`.
pub open spec fn first_sep_at(s: Seq<char>, k: int) -> bool {
    is_sep_at(s, k) && forall|m: int| 0 <= m < k ==> !#[trigger] is_sep_at(s, m)
}

/// The first separator at or after `from`, if any.
fn find_sep(cs: &Vec<char>, from: usize) -> (r: Option<usize>)
    requires
        from <= cs@.len(),
    ensures
        match r {
            Some(k) => from <= k && is_sep_at(cs@, k as int) && forall|m: int|
                from <= m < k ==> !#[trigger] is_sep_at(cs@, m),
            None => forall|m: int| from <= m ==> !#[trigger] is_sep_at(cs@, m),
        },
{
    let n = cs.len();
    if n < 2 {
        return None;
    }
    let mut k = from;
    while k < n - 1
        invariant
            n == cs@.len(),
            n >= 2,
            from <= k <= n,
            forall|m: int| from <= m < k ==> !#[trigger] is_sep_at(cs@, m),
        decreases n - k,
    {
        if cs[k] == ':' && cs[k + 1] == ':' {
            return Some(k);
        }
        k += 1;
    }
    None
}

/// Extract the domain from a Rust module path target: the second `::`
/// segment (`vc_server::auth::handlers` gives `auth`), or `unknown` when the
/// path has a single segment.
pub fn extract_domain(target: &str) -> (r: String)
    ensures
        no_sep(target@) ==> r@ == "unknown"@,
        forall|k: int|
            #[trigger] first_sep_at(target@, k) ==> ({
                let rest = target@.subrange(k + 2, target@.len() as int);
                &&& no_sep(rest) ==> r@ == rest
                &&& forall|j: int| #[trigger] first_sep_at(rest, j) ==> r@ == rest.subrange(0, j)
            }),
{
    let cs = chars_of(target);
    match find_sep(&cs, 0) {
        None => {
            assert(no_sep(target@));
            "unknown".to_owned()
        },
        Some(k) => {
            assert(k + 2 <= cs.len());
            let start = k + 2;
            let ghost rest = target@.subrange(start as int, target@.len() as int);
            assert forall|m: int| #[trigger] first_sep_at(target@, m) implies m == k by {
                if m < k {
                    assert(!is_sep_at(cs@, m));
                } else if m > k {
                    assert(!is_sep_at(target@, k as int));
                }
            }
            assert(!no_sep(target@)) by {
                assert(is_sep_at(target@, k as int));
            }
            match find_sep(&cs, start) {
                None => {
                    assert forall|m: int| !#[trigger] is_sep_at(rest, m) by {
                        if is_sep_at(rest, m) {
                            assert(is_sep_at(cs@, m + start));
                        }
                    }
                    let r = string_of_range(&cs, start, cs.len());
                    r
                },
                Some(e) => {
                    let ghost j = (e - start) as int;
                    assert(is_sep_at(rest, j));
                    assert forall|m: int| #[trigger] first_sep_at(rest, m) implies m == j by {
                        if m < j {
                            assert(!is_sep_at(cs@, m + start));
                        } else if m > j {
                            assert(!is_sep_at(rest, j));
                        }
                    }
                    assert(!no_sep(rest)) by {
                        assert(is_sep_at(rest, j));
                    }
                    let r = string_of_range(&cs, start, e);
                    assert(r@ =~= rest.subrange(0, j));
                    r
                },
            }
        },
    }
}

/// The domain of a span: the part of its name before the first `.`, or the
/// whole name when it has none (`auth.login` gives `auth`).
pub fn span_domain(span_name: &str) -> (r: String)
    ensures
        (forall|i: int| 0 <= i < span_name@.len() ==> #[trigger] span_name@[i] != '.') ==> r@
            == span_name@,
        forall|k: int|
            0 <= k < span_name@.len() && #[trigger] span_name@[k] == '.' && (forall|m: int|
                0 <= m < k ==> span_name@[m] != '.') ==> r@ == span_name@.subrange(0, k),
{
    let cs = chars_of(span_name);
    let mut k: usize = 0;
    while k < cs.len()
        invariant
            k <= cs@.len(),
            cs@ == span_name@,
            forall|m: int| 0 <= m < k ==> cs@[m] != '.',
        decreases cs@.len() - k,
    {
        if cs[k] == '.' {
            let r = string_of_range(&cs, 0, k);
            assert forall|j: int|
                0 <= j < span_name@.len() && #[trigger] span_name@[j] == '.' && (forall|m: int|
                    0 <= m < j ==> span_name@[m] != '.') implies j == k by {
                if j < k {
                } else if j > k {
                    assert(span_name@[k as int] == '.');
                }
            }
            return r;
        }
        k += 1;
    }
    assert(cs@.subrange(0, cs@.len() as int) =~= cs@);
    string_of_range(&cs, 0, cs.len())
}

/// Duration of a span in whole milliseconds, capped at `i32::MAX`.
pub fn span_duration_ms(millis: u128) -> (r: i32)
    ensures
        r == (if millis > i32::MAX as u128 {
            i32::MAX as int
        } else {
            millis as int
        }),
{
    if millis > i32::MAX as u128 {
        i32::MAX
    } else {
        millis as i32
    }
}

/// Severity of a log event.
#[derive(Debug, Clone, Copy, PartialEq, Eq, Structural)]
pub enum LogLevel {
    Trace,
    Debug,
    Info,
    Warn,
    Error,
}

/// The stored level name of an event: only WARN and ERROR events are captured.
pub fn captured_level_name(level: LogLevel) -> (r: Option<&'static str>)
    ensures
        level == LogLevel::Error ==> (r matches Some(s) && s@ == "ERROR"@),
        level == LogLevel::Warn ==> (r matches Some(s) && s@ == "WARN"@),
        level != LogLevel::Error && level != LogLevel::Warn ==> r is None,
{
    match level {
        LogLevel::Error => Some("ERROR"),
        LogLevel::Warn => Some("WARN"),
        _ => None,
    }
}

/// The `message` and `event` fields of a log event, as recorded.
#[derive(Debug, Clone, Default)]
pub struct LogFields {
    pub message: Option<String>,
    pub event_name: Option<String>,
}

impl LogFields {
    /// Records one field: sensitive fields are skipped; `message` and
    /// `event` are kept (the last value wins); other fields are ignored.
    pub fn record(&mut self, name: &str, value: String)
        ensures
            is_forbidden_key(name@) ==> *final(self) == *old(self),
            !is_forbidden_key(name@) && name@ == "message"@ ==> final(self).message == Some(value)
                && final(self).event_name == old(self).event_name,
            !is_forbidden_key(name@) && name@ == "event"@ ==> final(self).event_name == Some(
                value,
            ) && final(self).message == old(self).message,
            !is_forbidden_key(name@) && name@ != "message"@ && name@ != "event"@ ==> *final(self)
                == *old(self),
    {
        proof {
            reveal_strlit("message");
            reveal_strlit("event");
            assert("message"@.len() == 7);
            assert("event"@.len() == 5);
        }
        if is_forbidden_attribute_key(name) {
            return;
        }
        if str_eq(name, "message") {
            self.message = Some(value);
        } else if str_eq(name, "event") {
            self.event_name = Some(value);
        }
    }
}

/// Allowed metric label keys.
pub open spec fn allowed_labels() -> Seq<Seq<char>> {
    seq![
        "deployment.environment"@,
        "service.name"@,
        "http.request.method"@,
        "http.route"@,
        "http.response.status_code"@,
        "outcome"@,
        "error.type"@,
        "voice.session_outcome"@,
        "ws.event_type"@,
        "db.operation"@,
        "db.sql.table"@,
        "tauri.command"@,
        "os.type"@,
    ]
}

/// The allowed metric label keys, each once.
pub fn allowed_label_keys() -> (r: &'static [&'static str])
    ensures
        r@.len() == allowed_labels().len(),
        forall|i: int| 0 <= i < r@.len() ==> #[trigger] r@[i]@ == allowed_labels()[i],
{
    &[
        "deployment.environment",
        "service.name",
        "http.request.method",
        "http.route",
        "http.response.status_code",
        "outcome",
        "error.type",
        "voice.session_outcome",
        "ws.event_type",
        "db.operation",
        "db.sql.table",
        "tauri.command",
        "os.type",
    ]
}

/// Whether a label key is on the allowlist.
pub fn is_allowed_label_key(key: &str) -> (r: bool)
    ensures
        r == allowed_labels().contains(key@),
{
    let keys = allowed_label_keys();
    let mut i: usize = 0;
    while i < keys.len()
        invariant
            i <= keys@.len(),
            keys@.len() == allowed_labels().len(),
            forall|k: int| 0 <= k < keys@.len() ==> #[trigger] keys@[k]@ == allowed_labels()[k],
            forall|k: int| 0 <= k < i ==> allowed_labels()[k] != key@,
        decreases keys@.len() - i,
    {
        if str_eq(keys[i], key) {
            assert(allowed_labels()[i as int] == key@);
            return true;
        }
        i += 1;
    }
    false
}

/// Keeps the labels whose key is on the allowlist, in order.
pub fn filter_label_entries<V>(labels: Vec<(String, V)>) -> (r: Vec<(String, V)>)
    ensures
        r@ == labels@.filter(|kv: (String, V)| allowed_labels().contains(kv.0@)),
{
    let mut out: Vec<(String, V)> = Vec::new();
    let ghost pred = |kv: (String, V)| allowed_labels().contains(kv.0@);
    let ghost all = labels@;
    let n = labels.len();
    let mut source = labels;
    let mut rest: Vec<(String, V)> = Vec::new();
    while source.len() > 0
        invariant
            source@.len() + rest@.len() == all.len(),
            forall|k: int| 0 <= k < source@.len() ==> #[trigger] source@[k] == all[k],
            forall|k: int| 0 <= k < rest@.len() ==> #[trigger] rest@[k] == all[all.len() - 1 - k],
        decreases source@.len(),
    {
        let x = source.pop().unwrap();
        rest.push(x);
    }
    let mut i: usize = 0;
    assert(all.take(0) =~= Seq::<(String, V)>::empty());
    while rest.len() > 0
        invariant
            i + rest@.len() == all.len(),
            all.len() == n,
            forall|k: int| 0 <= k < rest@.len() ==> #[trigger] rest@[k] == all[all.len() - 1 - k],
            out@ == all.take(i as int).filter(pred),
            pred == (|kv: (String, V)| allowed_labels().contains(kv.0@)),
        decreases rest@.len(),
    {
        reveal_with_fuel(Seq::<_>::filter, 1);
        let ghost idx = i as int;
        let kv = rest.pop().unwrap();
        assert(kv == all[idx]);
        assert(all.take(idx + 1).drop_last() =~= all.take(idx));
        if is_allowed_label_key(kv.0.as_str()) {
            out.push(kv);
        }
        i += 1;
    }
    assert(all.take(all.len() as int) =~= all);
    out
}

/// Items received by an ingestion worker and written to storage together:
/// never empty, and never more than [`BATCH_CAPACITY`] items.
#[derive(Debug)]
pub struct IngestBatch<T> {
    items: Vec<T>,
}

impl<T> IngestBatch<T> {
    /// A batch holds between 1 and [`BATCH_CAPACITY`] items.
    pub closed spec fn wf(&self) -> bool {
        1 <= self.items@.len() <= BATCH_CAPACITY
    }

    /// The items of the batch, in the order they were received.
    pub closed spec fn items(&self) -> Seq<T> {
        self.items@
    }

    /// A batch holding the first item received after the worker waited.
    pub fn start(first: T) -> (r: Self)
        ensures
            r.wf(),
            r.items() == seq![first],
    {
        let mut items: Vec<T> = Vec::new();
        items.push(first);
        assert(items@ =~= seq![first]);
        IngestBatch { items }
    }

    /// Whether the batch takes more of the items that are already waiting.
    pub fn wants_more(&self) -> (r: bool)
        ensures
            r == (self.items().len() < BATCH_CAPACITY),
    {
        self.items.len() < BATCH_CAPACITY
    }

    /// Adds a waiting item when the batch has room; a full batch hands the
    /// item back.
    pub fn try_push(&mut self, item: T) -> (r: Option<T>)
        requires
            old(self).wf(),
        ensures
            final(self).wf(),
            old(self).items().len() < BATCH_CAPACITY ==> r is None && final(self).items()
                == old(self).items().push(item),
            old(self).items().len() >= BATCH_CAPACITY ==> r == Some(item) && final(self).items()
                == old(self).items(),
    {
        if self.items.len() < BATCH_CAPACITY {
            self.items.push(item);
            None
        } else {
            Some(item)
        }
    }

    /// The items to write, between 1 and [`BATCH_CAPACITY`] of them.
    pub fn into_items(self) -> (r: Vec<T>)
        requires
            self.wf(),
        ensures
            r@ == self.items(),
            1 <= r@.len() <= BATCH_CAPACITY,
    {
        self.items
    }
}

/// Per-metric count of the label combinations stored in one export cycle.
#[derive(Debug, Clone)]
pub struct CardinalityBudget {
    counts: Vec<(String, usize)>,
}

/// The count recorded for `metric` in `entries` (0 when absent).
pub open spec fn count_in(entries: Seq<(String, usize)>, metric: Seq<char>) -> nat
    decreases entries.len(),
{
    if entries.len() == 0 {
        0
    } else if entries.last().0@ == metric {
        entries.last().1 as nat
    } else {
        count_in(entries.drop_last(), metric)
    }
}

/// No metric name appears twice.
pub open spec fn distinct_names(entries: Seq<(String, usize)>) -> bool {
    forall|i: int, j: int|
        0 <= i < j < entries.len() ==> #[trigger] entries[i].0@ != #[trigger] entries[j].0@
}

impl CardinalityBudget {
    /// The count of samples counted so far for a metric.
    pub closed spec fn count(&self, metric: Seq<char>) -> nat {
        count_in(self.counts@, metric)
    }

    /// The budget holds each metric once and never exceeds the cap.
    pub closed spec fn wf(&self) -> bool {
        &&& distinct_names(self.counts@)
        &&& forall|i: int| 0 <= i < self.counts@.len() ==> #[trigger] self.counts@[i].1
            <= MAX_CARDINALITY_PER_METRIC
    }

    /// An empty budget: nothing counted yet.
    pub fn new() -> (r: Self)
        ensures
            r.wf(),
            forall|m: Seq<char>| r.count(m) == 0,
    {
        CardinalityBudget { counts: Vec::new() }
    }

    /// Counts one sample of `metric` when fewer than the cap were counted in this
    /// cycle; refuses it otherwise.
    pub fn try_count(&mut self, metric: &str) -> (r: bool)
        requires
            old(self).wf(),
        ensures
            final(self).wf(),
            r == (old(self).count(metric@) < MAX_CARDINALITY_PER_METRIC),
            final(self).count(metric@) == old(self).count(metric@) + (if r {
                1nat
            } else {
                0nat
            }),
            forall|m: Seq<char>| m != metric@ ==> final(self).count(m) == old(self).count(m),
            final(self).count(metric@) <= MAX_CARDINALITY_PER_METRIC,
    {
        let ghost old_counts = self.counts@;
        let mut i: usize = 0;
        while i < self.counts.len()
            invariant
                i <= self.counts@.len(),
                self.counts@ == old_counts,
                old(self).counts@ == old_counts,
                self.wf(),
                forall|k: int| 0 <= k < i ==> #[trigger] self.counts@[k].0@ != metric@,
            decreases self.counts@.len() - i,
        {
            if str_eq(self.counts[i].0.as_str(), metric) {
                let c = self.counts[i].1;
                proof {
                    lemma_count_at(old_counts, i as int);
                    assert(old_counts[i as int].0@ == metric@);
                    assert(old(self).count(metric@) == c);
                }
                if c >= MAX_CARDINALITY_PER_METRIC {
                    return false;
                }
                let name = self.counts[i].0.clone();
                assert(name@ == metric@);
                self.counts.set(i, (name, c + 1));
                proof {
                    lemma_count_update(old_counts, i as int, self.counts@);
                }
                return true;
            }
            i += 1;
        }
        proof {
            lemma_count_absent(old_counts, metric@);
        }
        self.counts.push((metric.to_owned(), 1));
        proof {
            let s = self.counts@;
            assert(s.drop_last() =~= old_counts);
            assert forall|m: Seq<char>| m != metric@ implies count_in(s, m) == count_in(
                old_counts,
                m,
            ) by {}
        }
        true
    }
}

/// The count of a name at position `i` of a list of distinct names.
proof fn lemma_count_at(s: Seq<(String, usize)>, i: int)
    requires
        distinct_names(s),
        0 <= i < s.len(),
    ensures
        count_in(s, s[i].0@) == s[i].1,
    decreases s.len(),
{
    if i < s.len() - 1 {
        assert(s.last().0@ != s[i].0@);
        assert(distinct_names(s.drop_last()));
        assert(s.drop_last()[i] == s[i]);
        lemma_count_at(s.drop_last(), i);
    }
}

/// A name that is not in the list counts 0.
proof fn lemma_count_absent(s: Seq<(String, usize)>, m: Seq<char>)
    requires
        forall|k: int| 0 <= k < s.len() ==> #[trigger] s[k].0@ != m,
    ensures
        count_in(s, m) == 0,
    decreases s.len(),
{
    if s.len() > 0 {
        assert(s.last().0@ != m);
        lemma_count_absent(s.drop_last(), m);
    }
}

/// Updating the count at position `i` changes that name's count alone.
proof fn lemma_count_update(s: Seq<(String, usize)>, i: int, t: Seq<(String, usize)>)
    requires
        distinct_names(s),
        0 <= i < s.len(),
        t.len() == s.len(),
        t[i].0@ == s[i].0@,
        forall|k: int| 0 <= k < s.len() && k != i ==> #[trigger] t[k] == s[k],
    ensures
        distinct_names(t),
        count_in(t, s[i].0@) == t[i].1,
        forall|m: Seq<char>| m != s[i].0@ ==> count_in(t, m) == count_in(s, m),
    decreases s.len(),
{
    assert forall|a: int, b: int| 0 <= a < b < t.len() implies #[trigger] t[a].0@ != #[trigger] t[b].0@ by {
        if a == i {
            assert(s[a].0@ != s[b].0@);
        } else if b == i {
            assert(s[a].0@ != s[b].0@);
        } else {
            assert(s[a].0@ != s[b].0@);
        }
    }
    lemma_count_at(t, i);
    if i < s.len() - 1 {
        assert(s.drop_last()[i] == s[i]);
        assert(t.drop_last()[i] == t[i]);
        assert(distinct_names(s.drop_last()));
        assert forall|k: int| 0 <= k < s.drop_last().len() && k != i implies #[trigger] t.drop_last()[k]
            == s.drop_last()[k] by {
            assert(t[k] == s[k]);
        }
        lemma_count_update(s.drop_last(), i, t.drop_last());
        assert(t[t.len() - 1] == s[s.len() - 1]);
        assert forall|m: Seq<char>| m != s[i].0@ implies count_in(t, m) == count_in(s, m) by {
            assert(t.last() == s.last());
            if t.last().0@ != m {
                assert(count_in(t.drop_last(), m) == count_in(s.drop_last(), m));
            }
        }
    } else {
        assert(t.drop_last() =~= s.drop_last()) by {
            assert forall|k: int| 0 <= k < s.drop_last().len() implies #[trigger] t.drop_last()[k]
                == s.drop_last()[k] by {
                assert(t[k] == s[k]);
            }
        }
    }
}

} // verus!

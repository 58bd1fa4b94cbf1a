//! Redaction of sensitive telemetry attributes.

use vstd::prelude::*;

use crate::text::{ascii_lowercase, chars_of, contains_chars, contains_seq, to_ascii_lower};

verus! {

/// Substrings that mark an attribute key as sensitive.
pub open spec fn forbidden_patterns() -> Seq<Seq<char>> {
    seq![
        "password"@,
        "token"@,
        "key"@,
        "secret"@,
        "credential"@,
        "authorization"@,
        "content"@,
        "body"@,
        "email"@,
        "ip"@,
    ]
}

/// A key is forbidden when its ASCII lowercase form contains one of the
/// forbidden patterns.
pub open spec fn is_forbidden_key(key: Seq<char>) -> bool {
    exists|j: int|
        0 <= j < forbidden_patterns().len() && contains_seq(
            ascii_lowercase(key),
            #[trigger] forbidden_patterns()[j],
        )
}

/// A key is forbidden exactly when its ASCII lowercase form contains one of
/// the words `password`, `token`, `key`, `secret`, `credential`,
/// `authorization`, `content`, `body`, `email` or `ip`.
pub proof fn lemma_forbidden_key_words(key: Seq<char>)
    ensures
        is_forbidden_key(key) <==> {
            let l = ascii_lowercase(key);
            ||| contains_seq(l, "password"@)
            ||| contains_seq(l, "token"@)
            ||| contains_seq(l, "key"@)
            ||| contains_seq(l, "secret"@)
            ||| contains_seq(l, "credential"@)
            ||| contains_seq(l, "authorization"@)
            ||| contains_seq(l, "content"@)
            ||| contains_seq(l, "body"@)
            ||| contains_seq(l, "email"@)
            ||| contains_seq(l, "ip"@)
        },
{
    let f = forbidden_patterns();
    assert(f[0] == "password"@ && f[1] == "token"@ && f[2] == "key"@ && f[3] == "secret"@ && f[4]
        == "credential"@ && f[5] == "authorization"@ && f[6] == "content"@ && f[7] == "body"@
        && f[8] == "email"@ && f[9] == "ip"@);
    assert(f.len() == 10);
}

fn forbidden_pattern_list() -> (r: &'static [&'static str])
    ensures
        r@.len() == forbidden_patterns().len(),
        forall|i: int| 0 <= i < r@.len() ==> #[trigger] r@[i]@ == forbidden_patterns()[i],
{
    &[
        "password",
        "token",
        "key",
        "secret",
        "credential",
        "authorization",
        "content",
        "body",
        "email",
        "ip",
    ]
}

/// Whether an attribute key names sensitive data (case-insensitively contains
/// `password`, `token`, `key`, `secret`, `credential`, `authorization`,
/// `content`, `body`, `email` or `ip`).
pub fn is_forbidden_attribute_key(key: &str) -> (r: bool)
    ensures
        r == is_forbidden_key(key@),
{
    let cs = chars_of(key);
    let mut lowered: Vec<char> = Vec::new();
    let mut i: usize = 0;
    while i < cs.len()
        invariant
            i <= cs@.len(),
            cs@ == key@,
            lowered@ == ascii_lowercase(cs@.take(i as int)),
        decreases cs@.len() - i,
    {
        lowered.push(to_ascii_lower(cs[i]));
        i += 1;
        assert(lowered@ =~= ascii_lowercase(cs@.take(i as int)));
    }
    assert(cs@.take(cs@.len() as int) =~= cs@);
    let patterns = forbidden_pattern_list();
    let mut j: usize = 0;
    while j < patterns.len()
        invariant
            j <= patterns@.len(),
            patterns@.len() == forbidden_patterns().len(),
            forall|k: int| 0 <= k < patterns@.len() ==> #[trigger] patterns@[k]@ == forbidden_patterns()[k],
            lowered@ == ascii_lowercase(key@),
            forall|k: int| 0 <= k < j ==> !contains_seq(lowered@, #[trigger] forbidden_patterns()[k]),
        decreases patterns@.len() - j,
    {
        let p = chars_of(patterns[j]);
        if contains_chars(&lowered, &p) {
            assert(contains_seq(lowered@, forbidden_patterns()[j as int]));
            return true;
        }
        j += 1;
    }
    false
}

/// Tracing layer that records, per span, which fields carry sensitive keys.
#[derive(Clone, Copy, Debug, Default)]
pub struct RedactionLayer;

impl RedactionLayer {
    /// The names among `fields` that are forbidden, in order.
    pub fn forbidden_fields(&self, fields: &[&str]) -> (r: Vec<String>)
        ensures
            r@.map_values(|s: String| s@) == fields@.map_values(|f: &str| f@).filter(
                |k: Seq<char>| is_forbidden_key(k),
            ),
    {
        let mut out: Vec<String> = Vec::new();
        let mut i: usize = 0;
        let ghost keys = fields@.map_values(|f: &str| f@);
        let ghost pred = |k: Seq<char>| is_forbidden_key(k);
        assert(keys.take(0) =~= Seq::<Seq<char>>::empty());
        while i < fields.len()
            invariant
                i <= fields@.len(),
                keys == fields@.map_values(|f: &str| f@),
                pred == (|k: Seq<char>| is_forbidden_key(k)),
                out@.map_values(|s: String| s@) == keys.take(i as int).filter(pred),
            decreases fields@.len() - i,
        {
            reveal_with_fuel(Seq::<_>::filter, 1);
            assert(keys.take(i + 1).drop_last() =~= keys.take(i as int));
            let ghost before = out@;
            if is_forbidden_attribute_key(fields[i]) {
                out.push(fields[i].to_owned());
                assert(out@.map_values(|s: String| s@) =~= before.map_values(|s: String| s@).push(
                    fields@[i as int]@,
                ));
            }
            i += 1;
        }
        assert(keys.take(fields@.len() as int) =~= keys);
        out
    }
}

/// Keeps the attributes whose key is not forbidden, in order (what the
/// redacting span exporter does to span, event and link attributes).
pub fn retain_allowed_attributes<V>(attrs: Vec<(String, V)>) -> (r: Vec<(String, V)>)
    ensures
        r@ == attrs@.filter(|kv: (String, V)| !is_forbidden_key(kv.0@)),
{
    let mut out: Vec<(String, V)> = Vec::new();
    let ghost pred = |kv: (String, V)| !is_forbidden_key(kv.0@);
    let ghost all = attrs@;
    let n = attrs.len();
    let mut source = attrs;
    let mut rest: Vec<(String, V)> = Vec::new();
    while source.len() > 0
        invariant
            source@.len() + rest@.len() == all.len(),
            forall|k: int| 0 <= k < source@.len() ==> #[trigger] source@[k] == all[k],
            forall|k: int| 0 <= k < rest@.len() ==> #[trigger] rest@[k] == all[all.len() - 1 - k],
        decreases source@.len(),
    {
        let x = source.pop().unwrap();
        rest.push(x);
    }
    let mut i: usize = 0;
    assert(all.take(0) =~= Seq::<(String, V)>::empty());
    while rest.len() > 0
        invariant
            i + rest@.len() == all.len(),
            all.len() == n,
            forall|k: int| 0 <= k < rest@.len() ==> #[trigger] rest@[k] == all[all.len() - 1 - k],
            out@ == all.take(i as int).filter(pred),
            pred == (|kv: (String, V)| !is_forbidden_key(kv.0@)),
        decreases rest@.len(),
    {
        reveal_with_fuel(Seq::<_>::filter, 1);
        let ghost idx = i as int;
        let kv = rest.pop().unwrap();
        assert(kv == all[idx]);
        assert(all.take(idx + 1).drop_last() =~= all.take(idx));
        if !is_forbidden_attribute_key(kv.0.as_str()) {
            out.push(kv);
        }
        i += 1;
    }
    assert(all.take(all.len() as int) =~= all);
    out
}

} // verus!

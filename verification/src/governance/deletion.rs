//! Account deletion: which stored objects go with an account.

use vstd::prelude::*;

use crate::text::{chars_of, string_of_range};

verus! {

/// Whether `needle` occurs in `hay` at position `k`.
pub open spec fn occurs_at(hay: Seq<char>, needle: Seq<char>, k: int) -> bool {
    0 <= k && k + needle.len() <= hay.len() && hay.subrange(k, k + needle.len()) == needle
}

/// The first position at which `needle` occurs in `hay`, if any.
pub open spec fn first_occurrence(hay: Seq<char>, needle: Seq<char>) -> Option<int> {
    if exists|k: int| #[trigger] occurs_at(hay, needle, k) {
        Some(
            choose|k: int|
                #[trigger] occurs_at(hay, needle, k) && forall|m: int|
                    0 <= m < k ==> !#[trigger] occurs_at(hay, needle, m),
        )
    } else {
        None
    }
}

proof fn lemma_first_occurrence(hay: Seq<char>, needle: Seq<char>, k: int)
    requires
        occurs_at(hay, needle, k),
        forall|m: int| 0 <= m < k ==> !#[trigger] occurs_at(hay, needle, m),
    ensures
        first_occurrence(hay, needle) == Some(k),
{
    let j = choose|j: int|
        #[trigger] occurs_at(hay, needle, j) && forall|m: int|
            0 <= m < j ==> !#[trigger] occurs_at(hay, needle, m);
    assert(occurs_at(hay, needle, j) && forall|m: int|
        0 <= m < j ==> !#[trigger] occurs_at(hay, needle, m));
    if j < k {
        assert(!occurs_at(hay, needle, j));
    } else if j > k {
        assert(!occurs_at(hay, needle, k));
    }
}

fn find_first(hay: &Vec<char>, needle: &Vec<char>) -> (r: Option<usize>)
    ensures
        match r {
            Some(k) => first_occurrence(hay@, needle@) == Some(k as int) && occurs_at(
                hay@,
                needle@,
                k as int,
            ),
            None => first_occurrence(hay@, needle@) is None,
        },
{
    if needle.len() > hay.len() {
        assert forall|k: int| !#[trigger] occurs_at(hay@, needle@, k) by {}
        return None;
    }
    let hay_len = hay.len();
    let last = hay_len - needle.len();
    let mut i: usize = 0;
    loop
        invariant
            hay_len == hay@.len(),
            last == hay@.len() - needle@.len(),
            needle@.len() <= hay@.len(),
            i <= last,
            forall|m: int| 0 <= m < i ==> !#[trigger] occurs_at(hay@, needle@, m),
        decreases last - i,
    {
        let mut j: usize = 0;
        let mut same = true;
        while j < needle.len()
            invariant
                i <= last,
                hay_len == hay@.len(),
                last == hay@.len() - needle@.len(),
                needle@.len() <= hay@.len(),
                j <= needle@.len(),
                same == forall|t: int| 0 <= t < j ==> hay@[i + t] == needle@[t],
            decreases needle@.len() - j,
        {
            if hay[i + j] != needle[j] {
                same = false;
            }
            j += 1;
        }
        if same {
            assert(hay@.subrange(i as int, i + needle@.len()) =~= needle@);
            proof {
                lemma_first_occurrence(hay@, needle@, i as int);
            }
            return Some(i);
        }
        assert(!occurs_at(hay@, needle@, i as int)) by {
            let t = choose|t: int| 0 <= t < needle@.len() && hay@[i + t] != needle@[t];
            assert(hay@.subrange(i as int, i + needle@.len())[t] == hay@[i + t]);
        }
        if i == last {
            assert forall|k: int| !#[trigger] occurs_at(hay@, needle@, k) by {
                if 0 <= k && k < i {
                }
            }
            return None;
        }
        i += 1;
    }
}

/// The storage key of an avatar, read from its URL: the URL from the first
/// `avatars/` on, `None` when the URL holds none.
pub open spec fn avatar_key_text(url: Seq<char>) -> Option<Seq<char>> {
    match first_occurrence(url, "avatars/"@) {
        Some(k) => Some(url.subrange(k, url.len() as int)),
        None => None,
    }
}

/// The storage key of an avatar, from its URL.
pub fn avatar_key_from_url(url: &str) -> (r: Option<String>)
    ensures
        match r {
            Some(k) => avatar_key_text(url@) == Some(k@),
            None => avatar_key_text(url@) is None,
        },
{
    let cs = chars_of(url);
    let needle = chars_of("avatars/");
    match find_first(&cs, &needle) {
        None => None,
        Some(k) => Some(string_of_range(&cs, k, cs.len())),
    }
}

/// The storage objects deleted with an account, in order: the avatar (when
/// known), the message attachments, then the data exports.
pub fn deletion_object_keys(
    avatar_key: Option<String>,
    attachment_keys: Vec<String>,
    export_keys: Vec<String>,
) -> (r: Vec<String>)
    ensures
        r@ == (match avatar_key {
            Some(a) => seq![a],
            None => Seq::<String>::empty(),
        }) + attachment_keys@ + export_keys@,
{
    let mut out: Vec<String> = Vec::new();
    if let Some(a) = avatar_key {
        out.push(a);
    }
    let ghost head = out@;
    let mut att = attachment_keys;
    out.append(&mut att);
    let mut exp = export_keys;
    out.append(&mut exp);
    out
}

} // verus!

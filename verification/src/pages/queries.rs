//! Page slugs, content hashes and the checks that page queries make before
//! touching the database.

use vstd::prelude::*;

use super::constants::{reserved_slug_list, reserved_slugs, MAX_SLUG_LENGTH};
use crate::text::{ascii_lowercase, chars_of, push_char, str_eq};

verus! {

/// ASCII letters and digits.
pub open spec fn is_ascii_alnum(c: char) -> bool {
    ('a' <= c && c <= 'z') || ('A' <= c && c <= 'Z') || ('0' <= c && c <= '9')
}

/// The words of a text, made of ASCII letters and digits, joined by single
/// dashes: every other character separates words, and leading, trailing and
/// repeated separators vanish.
pub open spec fn dash_words(s: Seq<char>) -> Seq<char>
    decreases s.len(),
{
    if s.len() == 0 {
        Seq::empty()
    } else {
        let prev = dash_words(s.drop_last());
        let c = s.last();
        if !is_ascii_alnum(c) {
            prev
        } else if prev.len() > 0 && !is_ascii_alnum(s[s.len() - 2]) {
            prev.push('-').push(c)
        } else {
            prev.push(c)
        }
    }
}

/// The slug of an already lowercased title: its words joined by dashes, cut to
/// at most [`MAX_SLUG_LENGTH`] characters.
pub open spec fn slug_of_lowered(s: Seq<char>) -> Seq<char> {
    let w = dash_words(s);
    if w.len() <= MAX_SLUG_LENGTH {
        w
    } else {
        w.take(MAX_SLUG_LENGTH as int)
    }
}

/// The Unicode lowercase mapping of a text, as computed by `str::to_lowercase`.
pub uninterp spec fn unicode_lowercase(s: Seq<char>) -> Seq<char>;

/// An ASCII uppercase letter.
pub open spec fn is_ascii_upper(c: char) -> bool {
    'A' <= c && c <= 'Z'
}

/// Every character of the text is ASCII.
pub open spec fn is_ascii_text(s: Seq<char>) -> bool {
    forall|i: int| 0 <= i < s.len() ==> (#[trigger] s[i] as u32) < 128
}

/// Lowercases a text.
///
/// Calls `str::to_lowercase`; its result, defined by the Unicode lowercase
/// mapping, is named by [`unicode_lowercase`]. Two facts of that mapping are
/// stated: no character lowercases to an ASCII uppercase letter, and on
/// ASCII characters the mapping is the ASCII one (`A`-`Z` to `a`-`z`, all
/// else unchanged).
#[verifier::external_body]
fn to_lowercase(s: &str) -> (r: String)
    ensures
        r@ == unicode_lowercase(s@),
        forall|i: int| 0 <= i < r@.len() ==> !is_ascii_upper(#[trigger] r@[i]),
        is_ascii_text(s@) ==> r@ == ascii_lowercase(s@),
{
    s.to_lowercase()
}

/// Whether a character is an ASCII letter or digit.
fn ascii_alnum(c: char) -> (r: bool)
    ensures
        r == is_ascii_alnum(c),
{
    ('a' <= c && c <= 'z') || ('A' <= c && c <= 'Z') || ('0' <= c && c <= '9')
}

/// The slug of an already lowercased title.
///
/// Characters other than ASCII letters and digits separate words; the words
/// are joined by single dashes and the result is cut to 100 characters.
pub fn slug_from_lowered(lowered: &str) -> (r: String)
    ensures
        r@ == slug_of_lowered(lowered@),
        r@.len() <= MAX_SLUG_LENGTH,
        forall|i: int| 0 <= i < r@.len() ==> is_ascii_alnum(#[trigger] r@[i]) || r@[i] == '-',
        r@.len() > 0 ==> is_ascii_alnum(r@[0]),
        forall|i: int| 0 <= i < r@.len() - 1 ==> !(#[trigger] r@[i] == '-' && r@[i + 1] == '-'),
{
    let cs = chars_of(lowered);
    let mut out = String::new();
    let mut prev_alnum = false;
    let mut i: usize = 0;
    assert(cs@.take(0) =~= Seq::<char>::empty());
    while i < cs.len()
        invariant
            i <= cs@.len(),
            cs@ == lowered@,
            out@ == dash_words(cs@.take(i as int)),
            prev_alnum == (i > 0 && is_ascii_alnum(cs@[i - 1])),
        decreases cs@.len() - i,
    {
        let c = cs[i];
        let ghost pre = cs@.take(i as int);
        assert(cs@.take(i + 1).drop_last() =~= pre);
        if ascii_alnum(c) {
            if out.as_str().is_empty() || prev_alnum {
                push_char(&mut out, c);
            } else {
                push_char(&mut out, '-');
                push_char(&mut out, c);
            }
            prev_alnum = true;
        } else {
            prev_alnum = false;
        }
        i += 1;
    }
    assert(cs@.take(cs@.len() as int) =~= cs@);
    proof {
        lemma_dash_words_shape(lowered@);
    }
    let n = out.as_str().unicode_len();
    if n <= MAX_SLUG_LENGTH {
        out
    } else {
        let cut = out.as_str().substring_char(0, MAX_SLUG_LENGTH);
        cut.to_owned()
    }
}

/// The shape of a dash-joined word list: ASCII letters, digits and single
/// dashes, starting and ending with a letter or digit.
pub proof fn lemma_dash_words_shape(s: Seq<char>)
    ensures
        ({
            let w = dash_words(s);
            &&& forall|i: int| 0 <= i < w.len() ==> is_ascii_alnum(#[trigger] w[i]) || w[i] == '-'
            &&& w.len() > 0 ==> is_ascii_alnum(w[0]) && is_ascii_alnum(w.last())
            &&& forall|i: int| 0 <= i < w.len() - 1 ==> !(#[trigger] w[i] == '-' && w[i + 1] == '-')
        }),
    decreases s.len(),
{
    if s.len() > 0 {
        lemma_dash_words_shape(s.drop_last());
        let prev = dash_words(s.drop_last());
        let w = dash_words(s);
        if is_ascii_alnum(s.last()) {
            if prev.len() > 0 && !is_ascii_alnum(s[s.len() - 2]) {
                assert(w == prev.push('-').push(s.last()));
                assert forall|i: int| 0 <= i < w.len() - 1 implies !(#[trigger] w[i] == '-' && w[i
                    + 1] == '-') by {
                    if i < prev.len() - 1 {
                        assert(w[i] == prev[i] && w[i + 1] == prev[i + 1]);
                    }
                }
            } else {
                assert(w == prev.push(s.last()));
                assert forall|i: int| 0 <= i < w.len() - 1 implies !(#[trigger] w[i] == '-' && w[i
                    + 1] == '-') by {
                    if i < prev.len() - 1 {
                        assert(w[i] == prev[i] && w[i + 1] == prev[i + 1]);
                    }
                }
            }
        }
    }
}

/// A character a slug is made of: a lowercase ASCII letter, a digit or `-`.
pub open spec fn is_slug_char(c: char) -> bool {
    ('a' <= c && c <= 'z') || ('0' <= c && c <= '9') || c == '-'
}

/// What [`slugify`] gives for `title`: the slug of its Unicode lowercase
/// (for an ASCII title, of its ASCII lowercase), made of lowercase letters,
/// digits and dashes.
pub open spec fn slugify_result(title: Seq<char>, r: Seq<char>) -> bool {
    &&& r == slug_of_lowered(unicode_lowercase(title))
    &&& is_ascii_text(title) ==> r == slug_of_lowered(ascii_lowercase(title))
    &&& forall|i: int| 0 <= i < r.len() ==> is_slug_char(#[trigger] r[i])
}

/// A text without ASCII uppercase letters keeps none in its word list.
proof fn lemma_dash_words_no_upper(s: Seq<char>)
    requires
        forall|i: int| 0 <= i < s.len() ==> !is_ascii_upper(#[trigger] s[i]),
    ensures
        forall|i: int| 0 <= i < dash_words(s).len() ==> !is_ascii_upper(#[trigger] dash_words(s)[i]),
    decreases s.len(),
{
    if s.len() > 0 {
        assert forall|i: int| 0 <= i < s.drop_last().len() implies !is_ascii_upper(
            #[trigger] s.drop_last()[i],
        ) by {
            assert(s.drop_last()[i] == s[i]);
        }
        lemma_dash_words_no_upper(s.drop_last());
        let prev = dash_words(s.drop_last());
        let w = dash_words(s);
        let c = s.last();
        assert(!is_ascii_upper(c));
        if is_ascii_alnum(c) {
            if prev.len() > 0 && !is_ascii_alnum(s[s.len() - 2]) {
                assert(w == prev.push('-').push(c));
            } else {
                assert(w == prev.push(c));
            }
            assert forall|i: int| 0 <= i < w.len() implies !is_ascii_upper(#[trigger] w[i]) by {
                if i < prev.len() {
                    assert(w[i] == prev[i]);
                }
            }
        }
    }
}

/// A text already shaped as a word list (letters, digits and single dashes,
/// not starting with a dash) is its own word list, but for a trailing dash,
/// which is dropped.
proof fn lemma_dash_words_fixed(s: Seq<char>)
    requires
        forall|i: int| 0 <= i < s.len() ==> is_ascii_alnum(#[trigger] s[i]) || s[i] == '-',
        s.len() > 0 ==> is_ascii_alnum(s[0]),
        forall|i: int| 0 <= i < s.len() - 1 ==> !(#[trigger] s[i] == '-' && s[i + 1] == '-'),
    ensures
        dash_words(s) == (if s.len() > 0 && s.last() == '-' {
            s.drop_last()
        } else {
            s
        }),
    decreases s.len(),
{
    if s.len() > 0 {
        let p = s.drop_last();
        assert forall|i: int| 0 <= i < p.len() implies is_ascii_alnum(#[trigger] p[i]) || p[i] == '-' by {
            assert(p[i] == s[i]);
        }
        assert forall|i: int| 0 <= i < p.len() - 1 implies !(#[trigger] p[i] == '-' && p[i + 1] == '-') by {
            assert(p[i] == s[i] && p[i + 1] == s[i + 1]);
        }
        lemma_dash_words_fixed(p);
        if s.len() == 1 {
            assert(p.len() == 0);
            assert(dash_words(s) =~= Seq::<char>::empty().push(s.last()));
            assert(s =~= Seq::<char>::empty().push(s.last()));
        } else if s.last() == '-' {
            assert(p.last() == s[s.len() - 2]);
            assert(!(s[s.len() - 2] == '-' && s[s.len() - 1] == '-'));
        } else if s[s.len() - 2] == '-' {
            assert(p.last() == '-');
            assert(p.drop_last().len() > 0);
            assert(s =~= p.drop_last().push('-').push(s.last()));
        } else {
            assert(p.last() == s[s.len() - 2]);
            assert(s =~= p.push(s.last()));
        }
    }
}

/// The shape of a slug of a lowered text: letters, digits and single dashes,
/// starting with a letter or digit, at most 100 characters, and no uppercase
/// letter when the lowered text has none.
proof fn lemma_slug_of_lowered_shape(l: Seq<char>)
    requires
        forall|i: int| 0 <= i < l.len() ==> !is_ascii_upper(#[trigger] l[i]),
    ensures
        ({
            let r = slug_of_lowered(l);
            &&& r.len() <= MAX_SLUG_LENGTH
            &&& forall|i: int| 0 <= i < r.len() ==> is_slug_char(#[trigger] r[i])
            &&& r.len() > 0 ==> is_ascii_alnum(r[0])
            &&& forall|i: int| 0 <= i < r.len() - 1 ==> !(#[trigger] r[i] == '-' && r[i + 1] == '-')
        }),
{
    lemma_dash_words_shape(l);
    lemma_dash_words_no_upper(l);
    let w = dash_words(l);
    let r = slug_of_lowered(l);
    assert forall|i: int| 0 <= i < r.len() implies is_slug_char(#[trigger] r[i]) by {
        assert(r[i] == w[i]);
        assert(is_ascii_alnum(w[i]) || w[i] == '-');
        assert(!is_ascii_upper(w[i]));
    }
    assert forall|i: int| 0 <= i < r.len() - 1 implies !(#[trigger] r[i] == '-' && r[i + 1] == '-') by {
        assert(r[i] == w[i] && r[i + 1] == w[i + 1]);
    }
    if r.len() > 0 {
        assert(r[0] == w[0]);
    }
}

/// Generate a URL-friendly slug from a title: lowercase it, keep ASCII letters
/// and digits, join the words with single dashes and cut the result to 100
/// characters.
pub fn slugify(title: &str) -> (r: String)
    ensures
        slugify_result(title@, r@),
        r@.len() <= MAX_SLUG_LENGTH,
        r@.len() > 0 ==> is_ascii_alnum(r@[0]),
        forall|i: int| 0 <= i < r@.len() - 1 ==> !(#[trigger] r@[i] == '-' && r@[i + 1] == '-'),
{
    let lowered = to_lowercase(title);
    let r = slug_from_lowered(lowered.as_str());
    proof {
        lemma_slug_of_lowered_shape(lowered@);
    }
    r
}

/// Slugifying a slug gives it back: when `slug` is the slug of `title` and
/// `reslug` the slug of `slug`, they are equal, unless the 100-character cut
/// left `slug` ending in a dash (the second pass then drops that dash).
pub proof fn lemma_slugify_idempotent(title: Seq<char>, slug: Seq<char>, reslug: Seq<char>)
    requires
        slugify_result(title, slug),
        slugify_result(slug, reslug),
        slug.len() == 0 || slug.last() != '-',
    ensures
        reslug == slug,
{
    let l = unicode_lowercase(title);
    assert(slug == slug_of_lowered(l));
    lemma_dash_words_shape(l);
    let w = dash_words(l);
    assert forall|i: int| 0 <= i < slug.len() implies is_ascii_alnum(#[trigger] slug[i]) || slug[i]
        == '-' by {
        assert(slug[i] == w[i]);
    }
    assert forall|i: int| 0 <= i < slug.len() - 1 implies !(#[trigger] slug[i] == '-' && slug[i + 1]
        == '-') by {
        assert(slug[i] == w[i] && slug[i + 1] == w[i + 1]);
    }
    if slug.len() > 0 {
        assert(slug[0] == w[0]);
    }
    assert(slug.len() <= MAX_SLUG_LENGTH);
    assert(is_ascii_text(slug)) by {
        assert forall|i: int| 0 <= i < slug.len() implies (#[trigger] slug[i] as u32) < 128 by {
            assert(is_slug_char(slug[i]));
        }
    }
    assert(ascii_lowercase(slug) =~= slug) by {
        assert forall|i: int| 0 <= i < slug.len() implies ascii_lowercase(slug)[i] == slug[i] by {
            assert(is_slug_char(slug[i]));
        }
    }
    lemma_dash_words_fixed(slug);
}

/// The SHA-256 digest of a byte sequence, as computed by the `sha2` crate.
pub uninterp spec fn sha256_digest(data: Seq<u8>) -> Seq<u8>;

/// SHA-256 of a byte slice.
///
/// Calls `sha2::Sha256::digest`; the digest is named by [`sha256_digest`]. The
/// crate's output type for SHA-256 is a 32-byte array, so the length is stated.
#[verifier::external_body]
fn sha256(data: &[u8]) -> (r: Vec<u8>)
    ensures
        r@ == sha256_digest(data@),
        r@.len() == 32,
{
    <sha2::Sha256 as sha2::Digest>::digest(data).to_vec()
}

/// Lowercase hexadecimal digit of a value below 16.
pub open spec fn hex_digit(v: int) -> char {
    if v < 10 {
        ((v + 48) as u32) as char
    } else {
        ((v + 87) as u32) as char
    }
}

/// Lowercase hexadecimal text of a byte sequence, two digits per byte.
pub open spec fn hex_lower(bytes: Seq<u8>) -> Seq<char>
    decreases bytes.len(),
{
    if bytes.len() == 0 {
        Seq::empty()
    } else {
        hex_lower(bytes.drop_last()).push(hex_digit((bytes.last() / 16) as int)).push(
            hex_digit((bytes.last() % 16) as int),
        )
    }
}

fn hex_digit_char(v: u8) -> (c: char)
    requires
        v < 16,
    ensures
        c == hex_digit(v as int),
{
    match v {
        0 => '0',
        1 => '1',
        2 => '2',
        3 => '3',
        4 => '4',
        5 => '5',
        6 => '6',
        7 => '7',
        8 => '8',
        9 => '9',
        10 => 'a',
        11 => 'b',
        12 => 'c',
        13 => 'd',
        14 => 'e',
        _ => 'f',
    }
}

/// Lowercase hexadecimal encoding of bytes (what `hex::encode` produces).
pub fn hex_encode(bytes: &[u8]) -> (r: String)
    ensures
        r@ == hex_lower(bytes@),
        r@.len() == 2 * bytes@.len(),
{
    let mut out = String::new();
    let mut i: usize = 0;
    assert(bytes@.take(0) =~= Seq::<u8>::empty());
    while i < bytes.len()
        invariant
            i <= bytes@.len(),
            out@ == hex_lower(bytes@.take(i as int)),
            out@.len() == 2 * i,
        decreases bytes@.len() - i,
    {
        assert(bytes@.take(i + 1).drop_last() =~= bytes@.take(i as int));
        let b = bytes[i];
        push_char(&mut out, hex_digit_char(b / 16));
        push_char(&mut out, hex_digit_char(b % 16));
        i += 1;
    }
    assert(bytes@.take(bytes@.len() as int) =~= bytes@);
    out
}

/// Generate the SHA-256 hash of content, as 64 lowercase hex digits, for
/// version tracking.
pub fn hash_content(content: &str) -> (r: String)
    ensures
        r@ == hex_lower(sha256_digest(vstd::utf8::encode_utf8(content@))),
        r@.len() == 64,
{
    let digest = sha256(content.as_bytes());
    hex_encode(digest.as_slice())
}

/// Check if slug is a reserved system path.
pub fn is_reserved_slug(slug: &str) -> (r: bool)
    ensures
        r == reserved_slugs().contains(slug@),
{
    let list = reserved_slug_list();
    let mut i: usize = 0;
    while i < list.len()
        invariant
            i <= list@.len(),
            list@.len() == reserved_slugs().len(),
            forall|k: int| 0 <= k < list@.len() ==> #[trigger] list@[k]@ == reserved_slugs()[k],
            forall|k: int| 0 <= k < i ==> reserved_slugs()[k] != slug@,
        decreases list@.len() - i,
    {
        if str_eq(list[i], slug) {
            assert(reserved_slugs()[i as int] == slug@);
            return true;
        }
        i += 1;
    }
    false
}

} // verus!

//! Discovery request and response types, and the parsing of tag filters.

use vstd::prelude::*;

use crate::text::{chars_of, push_char, trim_str, trimmed};

verus! {

/// Sort order of the discovery listing.
#[derive(Debug, Clone, Copy, PartialEq, Eq, Structural)]
pub enum DiscoverSort {
    /// Most members first.
    Members,
    /// Newest first.
    Newest,
}

impl Default for DiscoverSort {
    fn default() -> (r: Self)
        ensures
            r == DiscoverSort::Newest,
    {
        DiscoverSort::Newest
    }
}

/// Query of the discovery listing.
#[derive(Debug, Clone)]
pub struct DiscoverQuery {
    /// Full-text search over guild names and descriptions.
    pub q: Option<String>,
    /// Tags to filter by (a guild matches when it has any of them).
    pub tags: Option<Vec<String>>,
    pub sort: DiscoverSort,
    /// Results per page (1 to 50, 20 by default).
    pub limit: Option<i64>,
    /// Offset into the listing (0 by default).
    pub offset: Option<i64>,
}

/// The parts of a text between separators, as `str::split` gives them (a text
/// with `k` separators has `k + 1` parts, some possibly empty).
pub open spec fn split_on(s: Seq<char>, sep: char) -> Seq<Seq<char>>
    decreases s.len(),
{
    if s.len() == 0 {
        seq![Seq::<char>::empty()]
    } else if s.last() == sep {
        split_on(s.drop_last(), sep).push(Seq::<char>::empty())
    } else {
        let p = split_on(s.drop_last(), sep);
        p.update(p.len() - 1, p.last().push(s.last()))
    }
}

/// The tags named by comma-separated parts: each part without surrounding
/// whitespace, empty parts dropped.
pub open spec fn tags_of(parts: Seq<Seq<char>>) -> Seq<Seq<char>>
    decreases parts.len(),
{
    if parts.len() == 0 {
        Seq::empty()
    } else {
        let rest = tags_of(parts.drop_last());
        let t = trimmed(parts.last());
        if t.len() > 0 {
            rest.push(t)
        } else {
            rest
        }
    }
}

/// The tags of a comma-separated filter.
pub open spec fn parsed_tags(s: Seq<char>) -> Seq<Seq<char>> {
    tags_of(split_on(s, ','))
}

proof fn lemma_split_nonempty(s: Seq<char>, sep: char)
    ensures
        split_on(s, sep).len() >= 1,
    decreases s.len(),
{
    if s.len() > 0 {
        lemma_split_nonempty(s.drop_last(), sep);
    }
}

fn keep_tag(out: &mut Vec<String>, part: &String)
    ensures
        final(out)@.map_values(|t: String| t@) == ({
            let t = trimmed(part@);
            if t.len() > 0 {
                old(out)@.map_values(|t: String| t@).push(t)
            } else {
                old(out)@.map_values(|t: String| t@)
            }
        }),
{
    let t = trim_str(part.as_str());
    if !t.is_empty() {
        let ghost before = out@;
        out.push(t.to_owned());
        assert(out@.map_values(|t: String| t@) =~= before.map_values(|t: String| t@).push(
            trimmed(part@),
        ));
    }
}

/// Parses a comma-separated tag filter: the parts, trimmed, empty ones
/// dropped, in order.
pub fn parse_tags(s: &str) -> (r: Vec<String>)
    ensures
        r@.map_values(|t: String| t@) == parsed_tags(s@),
{
    let cs = chars_of(s);
    let mut out: Vec<String> = Vec::new();
    let mut cur = String::new();
    let mut i: usize = 0;
    assert(cs@.take(0) =~= Seq::<char>::empty());
    while i < cs.len()
        invariant
            i <= cs@.len(),
            cs@ == s@,
            split_on(cs@.take(i as int), ',').len() >= 1,
            cur@ == split_on(cs@.take(i as int), ',').last(),
            out@.map_values(|t: String| t@) == tags_of(
                split_on(cs@.take(i as int), ',').drop_last(),
            ),
        decreases cs@.len() - i,
    {
        let ghost pre = cs@.take(i as int);
        let ghost next = cs@.take(i + 1);
        assert(next.drop_last() =~= pre);
        assert(next.last() == cs@[i as int]);
        let c = cs[i];
        if c == ',' {
            keep_tag(&mut out, &cur);
            proof {
                assert(split_on(next, ',') == split_on(pre, ',').push(Seq::<char>::empty()));
                assert(split_on(next, ',').drop_last() =~= split_on(pre, ','));
                let ps = split_on(pre, ',');
                assert(ps.drop_last().push(ps.last()) =~= ps);
            }
            cur = String::new();
        } else {
            push_char(&mut cur, c);
            proof {
                let ps = split_on(pre, ',');
                assert(split_on(next, ',') == ps.update(ps.len() - 1, ps.last().push(c)));
                assert(split_on(next, ',').drop_last() =~= ps.drop_last());
            }
        }
        i += 1;
    }
    keep_tag(&mut out, &cur);
    proof {
        assert(cs@.take(cs@.len() as int) =~= s@);
        let ps = split_on(s@, ',');
        assert(ps.drop_last().push(ps.last()) =~= ps);
    }
    out
}

/// Every tag a filter names is non-empty.
pub proof fn lemma_parsed_tags_nonempty(s: Seq<char>)
    ensures
        forall|i: int| 0 <= i < parsed_tags(s).len() ==> #[trigger] parsed_tags(s)[i].len() > 0,
{
    lemma_tags_of_nonempty(split_on(s, ','));
}

proof fn lemma_tags_of_nonempty(parts: Seq<Seq<char>>)
    ensures
        forall|i: int| 0 <= i < tags_of(parts).len() ==> #[trigger] tags_of(parts)[i].len() > 0,
    decreases parts.len(),
{
    if parts.len() > 0 {
        lemma_tags_of_nonempty(parts.drop_last());
        let rest = tags_of(parts.drop_last());
        let t = trimmed(parts.last());
        if t.len() > 0 {
            assert forall|i: int| 0 <= i < rest.push(t).len() implies #[trigger] rest.push(t)[i].len()
                > 0 by {
                if i < rest.len() {
                    assert(rest.push(t)[i] == rest[i]);
                }
            }
        }
    }
}

/// A guild in the discovery listing; times are milliseconds since the epoch.
#[derive(Debug, Clone)]
pub struct DiscoverableGuild {
    pub id: u128,
    pub name: String,
    pub icon_url: Option<String>,
    pub banner_url: Option<String>,
    pub description: Option<String>,
    pub tags: Vec<String>,
    pub member_count: i64,
    pub created_at: i64,
}

/// A page of the discovery listing.
#[derive(Debug, Clone)]
pub struct DiscoverResponse {
    pub guilds: Vec<DiscoverableGuild>,
    pub total: i64,
    pub limit: i64,
    pub offset: i64,
}

/// The answer to joining a discoverable guild.
#[derive(Debug, Clone)]
pub struct JoinDiscoverableResponse {
    pub guild_id: u128,
    pub guild_name: String,
    pub already_member: bool,
}

} // verus!

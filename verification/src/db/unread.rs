//! The unread summary of a user: unread messages per guild channel, grouped
//! by guild and ordered by guild name, and per direct message channel.

use vstd::prelude::*;

use crate::text::chars_of;

verus! {

broadcast use vstd::seq_lib::group_to_multiset_ensures;

/// Unread messages in one channel.
#[derive(Debug, Clone)]
pub struct ChannelUnread {
    pub channel_id: u128,
    pub channel_name: String,
    pub unread_count: i64,
}

/// Unread messages in one guild.
#[derive(Debug, Clone)]
pub struct GuildUnreadSummary {
    pub guild_id: u128,
    pub guild_name: String,
    /// The guild's channels with unread messages, in the order listed.
    pub channels: Vec<ChannelUnread>,
    /// Unread messages over those channels.
    pub total_unread: i64,
}

/// Everything a user has not read.
#[derive(Debug, Clone)]
pub struct UnreadAggregate {
    pub guilds: Vec<GuildUnreadSummary>,
    pub dms: Vec<ChannelUnread>,
    pub total: i64,
}

/// A guild channel with unread messages, as the database lists it.
#[derive(Debug, Clone)]
pub struct GuildChannelUnreadRow {
    pub guild_id: u128,
    pub guild_name: String,
    pub channel_id: u128,
    pub channel_name: String,
    pub unread_count: i64,
}

/// A channel's unread count, as plain values.
pub open spec fn channel_view(c: ChannelUnread) -> (u128, Seq<char>, i64) {
    (c.channel_id, c.channel_name@, c.unread_count)
}

/// A row's channel, as plain values.
pub open spec fn row_channel(r: GuildChannelUnreadRow) -> (u128, Seq<char>, i64) {
    (r.channel_id, r.channel_name@, r.unread_count)
}

/// A guild summary, as plain values: ID, name, channels and total.
pub open spec fn summary_view(g: GuildUnreadSummary) -> (u128, Seq<char>, Seq<(u128, Seq<char>, i64)>, int) {
    (g.guild_id, g.guild_name@, g.channels@.map_values(|c: ChannelUnread| channel_view(c)), g.total_unread as int)
}

/// Whether any row belongs to the guild.
pub open spec fn has_guild(rows: Seq<GuildChannelUnreadRow>, gid: u128) -> bool
    decreases rows.len(),
{
    rows.len() > 0 && (rows.last().guild_id == gid || has_guild(rows.drop_last(), gid))
}

/// The guilds of the rows, each once, in the order they first appear.
pub open spec fn guild_order(rows: Seq<GuildChannelUnreadRow>) -> Seq<u128>
    decreases rows.len(),
{
    if rows.len() == 0 {
        Seq::empty()
    } else if has_guild(rows.drop_last(), rows.last().guild_id) {
        guild_order(rows.drop_last())
    } else {
        guild_order(rows.drop_last()).push(rows.last().guild_id)
    }
}

/// The name of a guild: the one on its first row.
pub open spec fn guild_name_of(rows: Seq<GuildChannelUnreadRow>, gid: u128) -> Seq<char>
    decreases rows.len(),
{
    if rows.len() == 0 {
        Seq::empty()
    } else if has_guild(rows.drop_last(), gid) {
        guild_name_of(rows.drop_last(), gid)
    } else if rows.last().guild_id == gid {
        rows.last().guild_name@
    } else {
        Seq::empty()
    }
}

/// The channels of a guild, in row order.
pub open spec fn channels_of(rows: Seq<GuildChannelUnreadRow>, gid: u128) -> Seq<
    (u128, Seq<char>, i64),
>
    decreases rows.len(),
{
    if rows.len() == 0 {
        Seq::empty()
    } else if rows.last().guild_id == gid {
        channels_of(rows.drop_last(), gid).push(row_channel(rows.last()))
    } else {
        channels_of(rows.drop_last(), gid)
    }
}

/// The unread messages of a guild.
pub open spec fn total_of(rows: Seq<GuildChannelUnreadRow>, gid: u128) -> int
    decreases rows.len(),
{
    if rows.len() == 0 {
        0
    } else if rows.last().guild_id == gid {
        total_of(rows.drop_last(), gid) + rows.last().unread_count
    } else {
        total_of(rows.drop_last(), gid)
    }
}

/// The unread messages of all rows.
pub open spec fn row_total(rows: Seq<GuildChannelUnreadRow>) -> int
    decreases rows.len(),
{
    if rows.len() == 0 {
        0
    } else {
        row_total(rows.drop_last()) + rows.last().unread_count
    }
}

/// The unread messages of all direct message channels.
pub open spec fn dm_total(dms: Seq<ChannelUnread>) -> int
    decreases dms.len(),
{
    if dms.len() == 0 {
        0
    } else {
        dm_total(dms.drop_last()) + dms.last().unread_count
    }
}

/// The summary of one guild, as plain values.
pub open spec fn guild_summary(rows: Seq<GuildChannelUnreadRow>, gid: u128) -> (
    u128,
    Seq<char>,
    Seq<(u128, Seq<char>, i64)>,
    int,
) {
    (gid, guild_name_of(rows, gid), channels_of(rows, gid), total_of(rows, gid))
}

/// Whether `a` sorts before or with `b`, comparing characters one by one
/// (the order of `str` comparison).
pub open spec fn name_le(a: Seq<char>, b: Seq<char>) -> bool
    decreases a.len(),
{
    if a.len() == 0 {
        true
    } else if b.len() == 0 {
        false
    } else if (a[0] as u32) < (b[0] as u32) {
        true
    } else if (a[0] as u32) > (b[0] as u32) {
        false
    } else {
        name_le(a.drop_first(), b.drop_first())
    }
}

proof fn lemma_name_le_total(a: Seq<char>, b: Seq<char>)
    ensures
        name_le(a, b) || name_le(b, a),
    decreases a.len(),
{
    if a.len() > 0 && b.len() > 0 && (a[0] as u32) == (b[0] as u32) {
        lemma_name_le_total(a.drop_first(), b.drop_first());
    }
}

proof fn lemma_name_le_trans(a: Seq<char>, b: Seq<char>, c: Seq<char>)
    requires
        name_le(a, b),
        name_le(b, c),
    ensures
        name_le(a, c),
    decreases a.len(),
{
    if a.len() > 0 && b.len() > 0 && c.len() > 0 && (a[0] as u32) == (b[0] as u32) && (b[0] as u32)
        == (c[0] as u32) {
        lemma_name_le_trans(a.drop_first(), b.drop_first(), c.drop_first());
    }
}

fn name_le_exec(a: &str, b: &str) -> (r: bool)
    ensures
        r == name_le(a@, b@),
{
    let ca = chars_of(a);
    let cb = chars_of(b);
    let mut i: usize = 0;
    assert(ca@.skip(0) =~= ca@);
    assert(cb@.skip(0) =~= cb@);
    while i < ca.len() && i < cb.len()
        invariant
            i <= ca@.len(),
            i <= cb@.len(),
            name_le(a@, b@) == name_le(ca@.skip(i as int), cb@.skip(i as int)),
        decreases ca@.len() - i,
    {
        let x = ca[i];
        let y = cb[i];
        proof {
            let sa = ca@.skip(i as int);
            let sb = cb@.skip(i as int);
            assert(sa[0] == x && sb[0] == y);
            assert(sa.drop_first() =~= ca@.skip(i + 1));
            assert(sb.drop_first() =~= cb@.skip(i + 1));
        }
        if (x as u32) < (y as u32) {
            return true;
        }
        if (x as u32) > (y as u32) {
            return false;
        }
        i += 1;
    }
    assert(ca@.skip(i as int).len() == 0 || cb@.skip(i as int).len() == 0);
    i == ca.len()
}

/// The total unread of the rows, bounded by the total of the rows around it.
proof fn lemma_totals_bounded(rows: Seq<GuildChannelUnreadRow>, gid: u128)
    requires
        forall|k: int| 0 <= k < rows.len() ==> #[trigger] rows[k].unread_count >= 0,
    ensures
        0 <= total_of(rows, gid) <= row_total(rows),
        row_total(rows) >= 0,
    decreases rows.len(),
{
    if rows.len() > 0 {
        assert(rows.last().unread_count >= 0);
        assert forall|k: int| 0 <= k < rows.drop_last().len() implies #[trigger] rows.drop_last()[k].unread_count >= 0 by {
            assert(rows.drop_last()[k] == rows[k]);
        }
        lemma_totals_bounded(rows.drop_last(), gid);
    }
}

proof fn lemma_order_has(rows: Seq<GuildChannelUnreadRow>, gid: u128)
    ensures
        has_guild(rows, gid) <==> guild_order(rows).contains(gid),
    decreases rows.len(),
{
    if rows.len() > 0 {
        lemma_order_has(rows.drop_last(), gid);
        lemma_order_has(rows.drop_last(), rows.last().guild_id);
        let p = guild_order(rows.drop_last());
        if !has_guild(rows.drop_last(), rows.last().guild_id) {
            assert(p.push(rows.last().guild_id)[p.len() as int] == rows.last().guild_id);
            if p.contains(gid) {
                let k = choose|k: int| 0 <= k < p.len() && p[k] == gid;
                assert(p.push(rows.last().guild_id)[k] == gid);
            }
        }
    }
}

proof fn lemma_order_distinct(rows: Seq<GuildChannelUnreadRow>)
    ensures
        forall|a: int, b: int|
            0 <= a < b < guild_order(rows).len() ==> #[trigger] guild_order(rows)[a]
                != #[trigger] guild_order(rows)[b],
    decreases rows.len(),
{
    if rows.len() > 0 {
        lemma_order_distinct(rows.drop_last());
        lemma_order_has(rows.drop_last(), rows.last().guild_id);
    }
}

/// Summaries of the guilds in the order their guilds first appear.
fn group_rows(rows: &Vec<GuildChannelUnreadRow>) -> (r: Vec<GuildUnreadSummary>)
    requires
        forall|k: int| 0 <= k < rows@.len() ==> #[trigger] rows@[k].unread_count >= 0,
        row_total(rows@) <= i64::MAX,
    ensures
        r@.len() == guild_order(rows@).len(),
        forall|k: int|
            0 <= k < r@.len() ==> #[trigger] summary_view(r@[k]) == guild_summary(
                rows@,
                guild_order(rows@)[k],
            ),
{
    let mut groups: Vec<GuildUnreadSummary> = Vec::new();
    let mut i: usize = 0;
    assert(rows@.take(0) =~= Seq::<GuildChannelUnreadRow>::empty());
    while i < rows.len()
        invariant
            i <= rows@.len(),
            forall|k: int| 0 <= k < rows@.len() ==> #[trigger] rows@[k].unread_count >= 0,
            row_total(rows@) <= i64::MAX,
            groups@.len() == guild_order(rows@.take(i as int)).len(),
            forall|k: int|
                0 <= k < groups@.len() ==> #[trigger] summary_view(groups@[k]) == guild_summary(
                    rows@.take(i as int),
                    guild_order(rows@.take(i as int))[k],
                ),
        decreases rows@.len() - i,
    {
        let ghost pre = rows@.take(i as int);
        let ghost next = rows@.take(i + 1);
        let row = &rows[i];
        proof {
            assert(next.drop_last() =~= pre);
            assert(next.last() == rows@[i as int]);
            lemma_order_distinct(pre);
            lemma_order_has(pre, row.guild_id);
            assert forall|k: int| 0 <= k < next.len() implies #[trigger] next[k].unread_count >= 0 by {
                assert(next[k] == rows@[k]);
            }
            lemma_totals_bounded(next, row.guild_id);
            lemma_prefix_total(rows@, i + 1);
        }
        let mut j: usize = 0;
        while j < groups.len() && groups[j].guild_id != row.guild_id
            invariant
                j <= groups@.len(),
                forall|k: int| 0 <= k < j ==> #[trigger] groups@[k].guild_id != row.guild_id,
            decreases groups@.len() - j,
        {
            j += 1;
        }
        let ghost order = guild_order(pre);
        if j < groups.len() {
            let ghost gid = row.guild_id;
            assert(order[j as int] == gid) by {
                assert(summary_view(groups@[j as int]).0 == order[j as int]);
            }
            assert(has_guild(pre, gid));
            let ghost old_groups = groups@;
            let ghost gj = groups@[j as int];
            assert(summary_view(groups@[j as int]) == guild_summary(pre, order[j as int]));
            let mut g = groups.remove(j);
            assert(g == gj);
            let ghost old_channels = g.channels@;
            assert(old_channels.map_values(|c: ChannelUnread| channel_view(c)) == channels_of(pre, gid));
            assert(g.total_unread == total_of(pre, gid));
            assert(total_of(next, gid) == total_of(pre, gid) + rows@[i as int].unread_count);
            g.channels.push(
                ChannelUnread {
                    channel_id: row.channel_id,
                    channel_name: row.channel_name.clone(),
                    unread_count: row.unread_count,
                },
            );
            g.total_unread = g.total_unread + row.unread_count;
            let ghost new_channels = g.channels@;
            assert(new_channels.map_values(|c: ChannelUnread| channel_view(c))
                =~= channels_of(pre, gid).push(row_channel(rows@[i as int])));
            groups.insert(j, g);
            proof {
                assert(groups@ =~= old_groups.remove(j as int).insert(j as int, g));
                assert(guild_order(next) == order);
                assert forall|k: int| 0 <= k < groups@.len() implies #[trigger] summary_view(
                    groups@[k],
                ) == guild_summary(next, guild_order(next)[k]) by {
                    if k == j {
                        assert(groups@[k] == g);
                    } else {
                        assert(groups@[k] == old_groups[k]);
                        assert(order[k] != gid);
                        lemma_order_has(pre, order[k]);
                        assert(order.contains(order[k]));
                    }
                }
            }
        } else {
            proof {
                assert forall|k: int| 0 <= k < order.len() implies order[k] != row.guild_id by {
                    assert(summary_view(groups@[k]).0 == order[k]);
                }
                assert(!order.contains(row.guild_id));
            }
            let mut channels: Vec<ChannelUnread> = Vec::new();
            channels.push(
                ChannelUnread {
                    channel_id: row.channel_id,
                    channel_name: row.channel_name.clone(),
                    unread_count: row.unread_count,
                },
            );
            groups.push(
                GuildUnreadSummary {
                    guild_id: row.guild_id,
                    guild_name: row.guild_name.clone(),
                    channels,
                    total_unread: row.unread_count,
                },
            );
            proof {
                let gid = row.guild_id;
                assert(guild_order(next) == order.push(gid));
                lemma_absent_guild(pre, gid);
                assert forall|k: int| 0 <= k < groups@.len() implies #[trigger] summary_view(
                    groups@[k],
                ) == guild_summary(next, guild_order(next)[k]) by {
                    if k < order.len() {
                        assert(order[k] != gid);
                        lemma_order_has(pre, order[k]);
                        assert(order.contains(order[k]));
                    } else {
                        assert(groups@[k].channels@.map_values(|c: ChannelUnread| channel_view(c))
                            =~= seq![row_channel(rows@[i as int])]);
                        assert(channels_of(pre, gid) =~= Seq::<(u128, Seq<char>, i64)>::empty());
                    }
                }
            }
        }
        i += 1;
    }
    assert(rows@.take(rows@.len() as int) =~= rows@);
    groups
}

proof fn lemma_absent_guild(rows: Seq<GuildChannelUnreadRow>, gid: u128)
    requires
        !has_guild(rows, gid),
    ensures
        channels_of(rows, gid) == Seq::<(u128, Seq<char>, i64)>::empty(),
        total_of(rows, gid) == 0,
    decreases rows.len(),
{
    if rows.len() > 0 {
        lemma_absent_guild(rows.drop_last(), gid);
    }
}

proof fn lemma_prefix_total(rows: Seq<GuildChannelUnreadRow>, n: int)
    requires
        0 <= n <= rows.len(),
        forall|k: int| 0 <= k < rows.len() ==> #[trigger] rows[k].unread_count >= 0,
    ensures
        row_total(rows.take(n)) <= row_total(rows),
    decreases rows.len() - n,
{
    if n < rows.len() {
        lemma_prefix_total(rows, n + 1);
        assert(rows.take(n + 1).drop_last() =~= rows.take(n));
        assert(rows.take(n + 1).last() == rows[n]);
        assert(row_total(rows.take(n + 1)) == row_total(rows.take(n)) + rows[n].unread_count);
        assert(rows[n].unread_count >= 0);
    } else {
        assert(rows.take(n) =~= rows);
    }
}

/// Whether the summaries are ordered by guild name.
pub open spec fn sorted_by_name(s: Seq<GuildUnreadSummary>) -> bool {
    forall|a: int, b: int|
        0 <= a < b < s.len() ==> name_le(#[trigger] s[a].guild_name@, #[trigger] s[b].guild_name@)
}

/// The summaries, as plain values.
pub open spec fn summaries_view(s: Seq<GuildUnreadSummary>) -> Seq<
    (u128, Seq<char>, Seq<(u128, Seq<char>, i64)>, int),
> {
    s.map_values(|g: GuildUnreadSummary| summary_view(g))
}

/// The summaries ordered by guild name; the order of guilds that share a
/// name is left open.
fn sort_by_name(groups: Vec<GuildUnreadSummary>) -> (r: Vec<GuildUnreadSummary>)
    ensures
        sorted_by_name(r@),
        summaries_view(r@).to_multiset() == summaries_view(groups@).to_multiset(),
{
    let ghost all = summaries_view(groups@);
    let mut rest = groups;
    let mut sorted: Vec<GuildUnreadSummary> = Vec::new();
    while rest.len() > 0
        invariant
            sorted_by_name(sorted@),
            summaries_view(sorted@).to_multiset().add(summaries_view(rest@).to_multiset()) == all.to_multiset(),
        decreases rest@.len(),
    {
        let ghost before_rest = rest@;
        let g = rest.pop().unwrap();
        proof {
            assert(before_rest =~= rest@.push(g));
            assert(summaries_view(before_rest) =~= summaries_view(rest@).push(summary_view(g)));
        }
        let mut k: usize = 0;
        while k < sorted.len() && name_le_exec(sorted[k].guild_name.as_str(), g.guild_name.as_str())
            invariant
                k <= sorted@.len(),
                forall|a: int| 0 <= a < k ==> name_le(#[trigger] sorted@[a].guild_name@, g.guild_name@),
            decreases sorted@.len() - k,
        {
            k += 1;
        }
        let ghost before_sorted = sorted@;
        let ghost gname = g.guild_name@;
        sorted.insert(k, g);
        proof {
            assert(sorted@ =~= before_sorted.insert(k as int, g));
            assert(summaries_view(sorted@) =~= summaries_view(before_sorted).insert(k as int, summary_view(g)));
            if k < before_sorted.len() {
                lemma_name_le_total(before_sorted[k as int].guild_name@, gname);
            }
            assert forall|a: int, b: int| 0 <= a < b < sorted@.len() implies name_le(
                #[trigger] sorted@[a].guild_name@,
                #[trigger] sorted@[b].guild_name@,
            ) by {
                if b < k {
                    assert(sorted@[a] == before_sorted[a]);
                    assert(sorted@[b] == before_sorted[b]);
                } else if b == k {
                    assert(sorted@[a] == before_sorted[a]);
                } else if a == k {
                    assert(sorted@[b] == before_sorted[b - 1]);
                    if b - 1 > k {
                        assert(name_le(before_sorted[k as int].guild_name@, before_sorted[b - 1].guild_name@));
                        lemma_name_le_trans(gname, before_sorted[k as int].guild_name@, before_sorted[b - 1].guild_name@);
                    }
                } else if a < k {
                    assert(sorted@[a] == before_sorted[a]);
                    assert(sorted@[b] == before_sorted[b - 1]);
                } else {
                    assert(sorted@[a] == before_sorted[a - 1]);
                    assert(sorted@[b] == before_sorted[b - 1]);
                }
            }
        }
    }
    proof {
        assert(summaries_view(rest@) =~= Seq::<(u128, Seq<char>, Seq<(u128, Seq<char>, i64)>, int)>::empty());
        assert(summaries_view(sorted@).to_multiset().add(vstd::multiset::Multiset::empty()) =~= summaries_view(sorted@).to_multiset());
    }
    sorted
}

/// The unread summary of a user from the guild channel rows and the direct
/// message channels that have unread messages: one summary per guild (its
/// channels in row order, named as on its first row), ordered by guild name,
/// and the total over everything.
pub fn aggregate_unreads(
    guild_rows: Vec<GuildChannelUnreadRow>,
    dms: Vec<ChannelUnread>,
) -> (r: UnreadAggregate)
    requires
        forall|k: int| 0 <= k < guild_rows@.len() ==> #[trigger] guild_rows@[k].unread_count >= 0,
        forall|k: int| 0 <= k < dms@.len() ==> #[trigger] dms@[k].unread_count >= 0,
        row_total(guild_rows@) + dm_total(dms@) <= i64::MAX,
    ensures
        sorted_by_name(r.guilds@),
        summaries_view(r.guilds@).to_multiset() == guild_order(guild_rows@).map_values(
            |gid: u128| guild_summary(guild_rows@, gid),
        ).to_multiset(),
        r.dms@ == dms@,
        r.total == row_total(guild_rows@) + dm_total(dms@),
{
    proof {
        lemma_dm_total_nonneg(dms@);
        lemma_totals_bounded(guild_rows@, 0);
    }
    let groups = group_rows(&guild_rows);
    proof {
        assert(summaries_view(groups@) =~= guild_order(guild_rows@).map_values(
            |gid: u128| guild_summary(guild_rows@, gid),
        ));
    }
    let guilds = sort_by_name(groups);
    let mut total: i64 = 0;
    let mut i: usize = 0;
    while i < guild_rows.len()
        invariant
            i <= guild_rows@.len(),
            forall|k: int| 0 <= k < guild_rows@.len() ==> #[trigger] guild_rows@[k].unread_count >= 0,
            row_total(guild_rows@) + dm_total(dms@) <= i64::MAX,
            dm_total(dms@) >= 0,
            total == row_total(guild_rows@.take(i as int)),
        decreases guild_rows@.len() - i,
    {
        proof {
            assert(guild_rows@.take(i + 1).drop_last() =~= guild_rows@.take(i as int));
            lemma_prefix_total(guild_rows@, i + 1);
        }
        total = total + guild_rows[i].unread_count;
        i += 1;
    }
    assert(guild_rows@.take(guild_rows@.len() as int) =~= guild_rows@);
    let mut j: usize = 0;
    while j < dms.len()
        invariant
            j <= dms@.len(),
            forall|k: int| 0 <= k < dms@.len() ==> #[trigger] dms@[k].unread_count >= 0,
            row_total(guild_rows@) + dm_total(dms@) <= i64::MAX,
            row_total(guild_rows@) >= 0,
            total == row_total(guild_rows@) + dm_total(dms@.take(j as int)),
        decreases dms@.len() - j,
    {
        proof {
            assert(dms@.take(j + 1).drop_last() =~= dms@.take(j as int));
            lemma_dm_prefix_total(dms@, j + 1);
        }
        total = total + dms[j].unread_count;
        j += 1;
    }
    assert(dms@.take(dms@.len() as int) =~= dms@);
    UnreadAggregate { guilds, dms, total }
}

proof fn lemma_dm_total_nonneg(dms: Seq<ChannelUnread>)
    requires
        forall|k: int| 0 <= k < dms.len() ==> #[trigger] dms[k].unread_count >= 0,
    ensures
        dm_total(dms) >= 0,
    decreases dms.len(),
{
    if dms.len() > 0 {
        assert forall|k: int| 0 <= k < dms.drop_last().len() implies #[trigger] dms.drop_last()[k].unread_count >= 0 by {
            assert(dms.drop_last()[k] == dms[k]);
        }
        lemma_dm_total_nonneg(dms.drop_last());
        assert(dms.last().unread_count >= 0);
    }
}

proof fn lemma_dm_prefix_total(dms: Seq<ChannelUnread>, n: int)
    requires
        0 <= n <= dms.len(),
        forall|k: int| 0 <= k < dms.len() ==> #[trigger] dms[k].unread_count >= 0,
    ensures
        dm_total(dms.take(n)) <= dm_total(dms),
    decreases dms.len() - n,
{
    if n < dms.len() {
        lemma_dm_prefix_total(dms, n + 1);
        assert(dms.take(n + 1).drop_last() =~= dms.take(n));
        assert(dms.take(n + 1).last() == dms[n]);
        assert(dm_total(dms.take(n + 1)) == dm_total(dms.take(n)) + dms[n].unread_count);
        assert(dms[n].unread_count >= 0);
    } else {
        assert(dms.take(n) =~= dms);
    }
}

/// The sum of the totals of the given guilds.
pub open spec fn sum_totals(order: Seq<u128>, rows: Seq<GuildChannelUnreadRow>) -> int
    decreases order.len(),
{
    if order.len() == 0 {
        0
    } else {
        sum_totals(order.drop_last(), rows) + total_of(rows, order.last())
    }
}

proof fn lemma_sum_other_guilds(order: Seq<u128>, pre: Seq<GuildChannelUnreadRow>, r: GuildChannelUnreadRow)
    requires
        !order.contains(r.guild_id),
    ensures
        sum_totals(order, pre.push(r)) == sum_totals(order, pre),
    decreases order.len(),
{
    if order.len() > 0 {
        assert(pre.push(r).drop_last() =~= pre);
        assert(order.last() != r.guild_id) by {
            assert(order[order.len() - 1] == order.last());
        }
        assert forall|k: int| 0 <= k < order.drop_last().len() implies order.drop_last()[k] != r.guild_id by {
            assert(order.drop_last()[k] == order[k]);
        }
        lemma_sum_other_guilds(order.drop_last(), pre, r);
    }
}

proof fn lemma_sum_own_guild(order: Seq<u128>, pre: Seq<GuildChannelUnreadRow>, r: GuildChannelUnreadRow)
    requires
        order.contains(r.guild_id),
        forall|a: int, b: int| 0 <= a < b < order.len() ==> #[trigger] order[a] != #[trigger] order[b],
    ensures
        sum_totals(order, pre.push(r)) == sum_totals(order, pre) + r.unread_count,
    decreases order.len(),
{
    assert(pre.push(r).drop_last() =~= pre);
    let rest = order.drop_last();
    assert forall|a: int, b: int| 0 <= a < b < rest.len() implies #[trigger] rest[a] != #[trigger] rest[b] by {
        assert(rest[a] == order[a] && rest[b] == order[b]);
    }
    if order.last() == r.guild_id {
        assert forall|k: int| 0 <= k < rest.len() implies rest[k] != r.guild_id by {
            assert(rest[k] == order[k]);
            assert(order[k] != order[order.len() - 1]);
        }
        lemma_sum_other_guilds(rest, pre, r);
    } else {
        let k = choose|k: int| 0 <= k < order.len() && order[k] == r.guild_id;
        assert(k < order.len() - 1);
        assert(rest[k] == r.guild_id);
        lemma_sum_own_guild(rest, pre, r);
    }
}

/// The total unread of a user is the sum of the totals of their guilds plus
/// the unread direct messages: grouping loses and duplicates nothing.
pub proof fn lemma_guild_totals_add_up(rows: Seq<GuildChannelUnreadRow>)
    ensures
        sum_totals(guild_order(rows), rows) == row_total(rows),
    decreases rows.len(),
{
    if rows.len() > 0 {
        let pre = rows.drop_last();
        let r = rows.last();
        assert(pre.push(r) =~= rows);
        lemma_guild_totals_add_up(pre);
        lemma_order_has(pre, r.guild_id);
        lemma_order_distinct(pre);
        if has_guild(pre, r.guild_id) {
            lemma_sum_own_guild(guild_order(pre), pre, r);
        } else {
            lemma_sum_other_guilds(guild_order(pre), pre, r);
            lemma_absent_guild(pre, r.guild_id);
            let o = guild_order(pre).push(r.guild_id);
            assert(o.drop_last() =~= guild_order(pre));
        }
    }
}

} // verus!

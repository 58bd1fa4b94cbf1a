use vc_server::db::unread::{aggregate_unreads, ChannelUnread, GuildChannelUnreadRow};

fn row(guild_id: u128, guild: &str, channel_id: u128, channel: &str, n: i64) -> GuildChannelUnreadRow {
    GuildChannelUnreadRow {
        guild_id,
        guild_name: guild.to_string(),
        channel_id,
        channel_name: channel.to_string(),
        unread_count: n,
    }
}

#[test]
fn unreads_are_grouped_by_guild_and_sorted_by_name() {
    let rows = vec![
        row(2, "Zeta", 20, "general", 3),
        row(1, "Alpha", 10, "news", 1),
        row(2, "Zeta", 21, "random", 4),
        row(1, "Alpha", 11, "chat", 2),
    ];
    let dms = vec![ChannelUnread { channel_id: 99, channel_name: "dm".to_string(), unread_count: 5 }];
    let agg = aggregate_unreads(rows, dms);
    assert_eq!(agg.guilds.len(), 2);
    assert_eq!(agg.guilds[0].guild_name, "Alpha");
    assert_eq!(agg.guilds[0].total_unread, 3);
    let alpha: Vec<u128> = agg.guilds[0].channels.iter().map(|c| c.channel_id).collect();
    assert_eq!(alpha, vec![10, 11]);
    assert_eq!(agg.guilds[1].guild_name, "Zeta");
    assert_eq!(agg.guilds[1].total_unread, 7);
    assert_eq!(agg.dms.len(), 1);
    assert_eq!(agg.total, 15);
}

#[test]
fn nothing_unread() {
    let agg = aggregate_unreads(vec![], vec![]);
    assert!(agg.guilds.is_empty());
    assert!(agg.dms.is_empty());
    assert_eq!(agg.total, 0);
}

#[test]
fn guild_names_compare_by_character() {
    let rows = vec![row(1, "b", 1, "x", 1), row(2, "B", 2, "x", 1), row(3, "ab", 3, "x", 1)];
    let agg = aggregate_unreads(rows, vec![]);
    let names: Vec<&str> = agg.guilds.iter().map(|g| g.guild_name.as_str()).collect();
    assert_eq!(names, vec!["B", "ab", "b"]);
}

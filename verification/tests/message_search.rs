use vc_server::db::search::{count_query, search_query, SearchFilters, SearchParam, SearchSort};

fn no_filters() -> SearchFilters {
    SearchFilters {
        date_from: None,
        date_to: None,
        author_id: None,
        has_link: false,
        has_file: false,
        sort: SearchSort::default(),
    }
}

#[test]
fn unfiltered_search_numbers_its_parameters() {
    let q = search_query(&no_filters());
    assert!(q.sql.starts_with("SELECT m.id, m.channel_id, m.user_id, m.content, m.created_at, ts_rank(m.content_search, websearch_to_tsquery('english', $1)) AS rank"));
    assert!(q.sql.contains("websearch_to_tsquery('english', $2), 'StartSel=<mark>"));
    assert!(q.sql.contains(" FROM messages m WHERE m.channel_id = ANY($3) AND m.deleted_at IS NULL"));
    assert!(q.sql.ends_with(
        "websearch_to_tsquery('english', $4) ORDER BY rank DESC, m.created_at DESC LIMIT $5 OFFSET $6"
    ));
    assert_eq!(
        q.params,
        vec![
            SearchParam::Query,
            SearchParam::Query,
            SearchParam::ChannelIds,
            SearchParam::Query,
            SearchParam::Limit,
            SearchParam::Offset,
        ]
    );
}

#[test]
fn every_filter_adds_its_condition() {
    let f = SearchFilters {
        date_from: Some(1),
        date_to: Some(2),
        author_id: Some(3),
        has_link: true,
        has_file: true,
        sort: SearchSort::Date,
    };
    let q = search_query(&f);
    assert!(q.sql.contains(" FROM messages m INNER JOIN file_attachments fa ON fa.message_id = m.id WHERE"));
    assert!(q.sql.ends_with(
        "$4) AND m.created_at >= $5 AND m.created_at <= $6 AND m.user_id = $7 AND m.content ~* 'https?://' ORDER BY m.created_at DESC LIMIT $8 OFFSET $9"
    ));
    assert_eq!(q.params.len(), 9);
    assert_eq!(q.params[6], SearchParam::AuthorId);
}

#[test]
fn count_shares_the_filters() {
    let q = count_query(&no_filters());
    assert_eq!(
        q.sql,
        "SELECT COUNT(*) FROM messages m WHERE m.channel_id = ANY($1) AND m.deleted_at IS NULL AND m.encrypted = false AND m.content_search @@ websearch_to_tsquery('english', $2)"
    );
    let f = SearchFilters { author_id: Some(9), has_file: true, ..no_filters() };
    let q = count_query(&f);
    assert!(q.sql.starts_with("SELECT COUNT(*) FROM messages m INNER JOIN file_attachments fa"));
    assert!(q.sql.ends_with(" AND m.user_id = $3"));
    assert_eq!(q.params, vec![SearchParam::ChannelIds, SearchParam::Query, SearchParam::AuthorId]);
}

//! Advanced message search: the filters a search may carry, and the SQL that
//! selects and counts the matching messages, with its numbered parameters.

use vstd::prelude::*;

use crate::text::{decimal, push_str, push_unsigned};

verus! {

/// Order of search results.
#[derive(Debug, Clone, Copy, PartialEq, Eq, Structural)]
pub enum SearchSort {
    /// By relevance, then newest first.
    Relevance,
    /// Newest first.
    Date,
}

impl Default for SearchSort {
    fn default() -> (r: Self)
        ensures
            r == SearchSort::Relevance,
    {
        SearchSort::Relevance
    }
}

/// Filters of an advanced search; times are milliseconds since the epoch.
#[derive(Debug, Clone, Copy, PartialEq, Eq)]
pub struct SearchFilters {
    /// Only messages created at or after this time.
    pub date_from: Option<i64>,
    /// Only messages created at or before this time.
    pub date_to: Option<i64>,
    /// Only messages by this author.
    pub author_id: Option<u128>,
    /// Only messages containing a URL.
    pub has_link: bool,
    /// Only messages with file attachments.
    pub has_file: bool,
    pub sort: SearchSort,
}

/// A value bound to a numbered parameter of the query.
#[derive(Debug, Clone, Copy, PartialEq, Eq, Structural)]
pub enum SearchParam {
    /// The search text.
    Query,
    /// The channels searched.
    ChannelIds,
    DateFrom,
    DateTo,
    AuthorId,
    Limit,
    Offset,
}

/// A piece of a query: literal SQL, or the next numbered parameter.
#[derive(Debug, Clone, Copy, PartialEq, Eq)]
pub enum QueryPiece {
    Sql(&'static str),
    Param(SearchParam),
}

/// A query's pieces, with literal SQL as character sequences.
pub open spec fn piece_view(p: QueryPiece) -> Result<Seq<char>, SearchParam> {
    match p {
        QueryPiece::Sql(s) => Ok(s@),
        QueryPiece::Param(b) => Err(b),
    }
}

/// The SQL text of pieces whose first parameter is numbered `first`: each
/// parameter is written `$n`, numbered in order.
pub open spec fn render(pieces: Seq<Result<Seq<char>, SearchParam>>, first: nat) -> Seq<char>
    decreases pieces.len(),
{
    if pieces.len() == 0 {
        Seq::empty()
    } else {
        match pieces[0] {
            Ok(s) => s + render(pieces.drop_first(), first),
            Err(_) => "$"@ + decimal(first as int) + render(pieces.drop_first(), first + 1),
        }
    }
}

/// The parameters of pieces, in order.
pub open spec fn params_of(pieces: Seq<Result<Seq<char>, SearchParam>>) -> Seq<SearchParam>
    decreases pieces.len(),
{
    if pieces.len() == 0 {
        Seq::empty()
    } else {
        match pieces[0] {
            Ok(_) => params_of(pieces.drop_first()),
            Err(b) => seq![b] + params_of(pieces.drop_first()),
        }
    }
}

/// A query ready to run: its SQL text and the values of its parameters in
/// the order they are numbered.
#[derive(Debug, Clone)]
pub struct SqlQuery {
    pub sql: String,
    pub params: Vec<SearchParam>,
}

proof fn lemma_render_split(pieces: Seq<Result<Seq<char>, SearchParam>>, i: int, first: nat)
    requires
        0 <= i < pieces.len(),
    ensures
        render(pieces.skip(i), first + params_of(pieces.take(i)).len()) == (match pieces[i] {
            Ok(s) => s + render(pieces.skip(i + 1), first + params_of(pieces.take(i)).len()),
            Err(_) => "$"@ + decimal((first + params_of(pieces.take(i)).len()) as int) + render(
                pieces.skip(i + 1),
                first + params_of(pieces.take(i)).len() + 1,
            ),
        }),
{
    assert(pieces.skip(i).drop_first() =~= pieces.skip(i + 1));
    assert(pieces.skip(i)[0] == pieces[i]);
}

proof fn lemma_params_take(pieces: Seq<Result<Seq<char>, SearchParam>>, i: int)
    requires
        0 <= i < pieces.len(),
    ensures
        params_of(pieces.take(i + 1)) == params_of(pieces.take(i)) + (match pieces[i] {
            Ok(_) => Seq::<SearchParam>::empty(),
            Err(b) => seq![b],
        }),
    decreases i,
{
    if i == 0 {
        assert(pieces.take(1).drop_first() =~= Seq::<Result<Seq<char>, SearchParam>>::empty());
        assert(pieces.take(0) =~= Seq::<Result<Seq<char>, SearchParam>>::empty());
    } else {
        let t = pieces.drop_first();
        lemma_params_take(t, i - 1);
        assert(pieces.take(i + 1).drop_first() =~= t.take(i));
        assert(pieces.take(i).drop_first() =~= t.take(i - 1));
        assert(pieces.take(i + 1)[0] == pieces[0]);
        assert(pieces.take(i)[0] == pieces[0]);
        assert(t[i - 1] == pieces[i]);
        match pieces[0] {
            Ok(_) => {},
            Err(b) => {
                assert(seq![b] + (params_of(t.take(i - 1)) + (match pieces[i] {
                    Ok(_) => Seq::<SearchParam>::empty(),
                    Err(c) => seq![c],
                })) =~= (seq![b] + params_of(t.take(i - 1))) + (match pieces[i] {
                    Ok(_) => Seq::<SearchParam>::empty(),
                    Err(c) => seq![c],
                }));
            },
        }
    }
}

/// Writes the pieces of a query, numbering its parameters from `$1`.
pub fn render_query(pieces: &Vec<QueryPiece>) -> (r: SqlQuery)
    ensures
        r.sql@ == render(pieces@.map_values(|p: QueryPiece| piece_view(p)), 1),
        r.params@ == params_of(pieces@.map_values(|p: QueryPiece| piece_view(p))),
{
    let ghost views = pieces@.map_values(|p: QueryPiece| piece_view(p));
    let mut sql = String::new();
    let mut params: Vec<SearchParam> = Vec::new();
    let mut i: usize = 0;
    assert(views.take(0) =~= Seq::<Result<Seq<char>, SearchParam>>::empty());
    assert(views.skip(0) =~= views);
    while i < pieces.len()
        invariant
            i <= pieces@.len(),
            views == pieces@.map_values(|p: QueryPiece| piece_view(p)),
            params@ == params_of(views.take(i as int)),
            params@.len() <= i,
            sql@ + render(views.skip(i as int), (1 + params@.len()) as nat) == render(views, 1),
        decreases pieces@.len() - i,
    {
        proof {
            lemma_render_split(views, i as int, 1);
            lemma_params_take(views, i as int);
            assert(views[i as int] == piece_view(pieces@[i as int]));
        }
        match pieces[i] {
            QueryPiece::Sql(s) => {
                let ghost before = sql@;
                let ghost next = 1 + params@.len();
                push_str(&mut sql, s);
                assert(sql@ + render(views.skip(i + 1), next as nat) =~= before + (s@ + render(
                    views.skip(i + 1),
                    next as nat,
                )));
                assert(params_of(views.take(i + 1)) =~= params_of(views.take(i as int)));
            },
            QueryPiece::Param(b) => {
                let ghost before = sql@;
                let ghost next = 1 + params@.len();
                params.push(b);
                let number = params.len() as u64;
                push_str(&mut sql, "$");
                push_unsigned(&mut sql, number);
                assert(sql@ + render(views.skip(i + 1), (next + 1) as nat) =~= before + ("$"@
                    + decimal(next as int) + render(views.skip(i + 1), (next + 1) as nat)));
                assert(params@ =~= params_of(views.take(i + 1)));
            },
        }
        i += 1;
    }
    assert(views.skip(pieces@.len() as int) =~= Seq::<Result<Seq<char>, SearchParam>>::empty());
    assert(views.take(pieces@.len() as int) =~= views);
    assert(sql@ + Seq::<char>::empty() =~= sql@);
    SqlQuery { sql, params }
}

/// The conditions shared by the search and its count: the date range, the
/// author and the presence of a link.
pub open spec fn filter_pieces(f: SearchFilters) -> Seq<QueryPiece> {
    let a: Seq<QueryPiece> = if f.date_from is Some {
        seq![
            QueryPiece::Sql(" AND m.created_at >= "),
            QueryPiece::Param(SearchParam::DateFrom),
        ]
    } else {
        seq![]
    };
    let b: Seq<QueryPiece> = if f.date_to is Some {
        seq![QueryPiece::Sql(" AND m.created_at <= "), QueryPiece::Param(SearchParam::DateTo)]
    } else {
        seq![]
    };
    let c: Seq<QueryPiece> = if f.author_id is Some {
        seq![QueryPiece::Sql(" AND m.user_id = "), QueryPiece::Param(SearchParam::AuthorId)]
    } else {
        seq![]
    };
    let d: Seq<QueryPiece> = if f.has_link {
        seq![QueryPiece::Sql(" AND m.content ~* 'https?://'")]
    } else {
        seq![]
    };
    a + b + c + d
}

fn push_filter_pieces(out: &mut Vec<QueryPiece>, f: &SearchFilters)
    ensures
        final(out)@ == old(out)@ + filter_pieces(*f),
{
    let ghost start = out@;
    if f.date_from.is_some() {
        out.push(QueryPiece::Sql(" AND m.created_at >= "));
        out.push(QueryPiece::Param(SearchParam::DateFrom));
    }
    let ghost after_a = out@;
    if f.date_to.is_some() {
        out.push(QueryPiece::Sql(" AND m.created_at <= "));
        out.push(QueryPiece::Param(SearchParam::DateTo));
    }
    let ghost after_b = out@;
    if f.author_id.is_some() {
        out.push(QueryPiece::Sql(" AND m.user_id = "));
        out.push(QueryPiece::Param(SearchParam::AuthorId));
    }
    let ghost after_c = out@;
    if f.has_link {
        out.push(QueryPiece::Sql(" AND m.content ~* 'https?://'"));
    }
    assert(out@ =~= start + filter_pieces(*f));
}

/// The pieces of the filtered search: matches ranked and highlighted, only
/// undeleted and unencrypted messages of the searched channels, with the
/// filters, ordered and paged.
pub open spec fn search_pieces(f: SearchFilters) -> Seq<QueryPiece> {
    let head: Seq<QueryPiece> = seq![
        QueryPiece::Sql(
            "SELECT m.id, m.channel_id, m.user_id, m.content, m.created_at, ts_rank(m.content_search, websearch_to_tsquery('english', ",
        ),
        QueryPiece::Param(SearchParam::Query),
        QueryPiece::Sql(
            ")) AS rank, ts_headline('english', m.content, websearch_to_tsquery('english', ",
        ),
        QueryPiece::Param(SearchParam::Query),
        QueryPiece::Sql(
            "), 'StartSel=<mark>, StopSel=</mark>, MaxWords=50, MinWords=20, MaxFragments=2') AS headline FROM messages m",
        ),
    ];
    let join: Seq<QueryPiece> = if f.has_file {
        seq![QueryPiece::Sql(" INNER JOIN file_attachments fa ON fa.message_id = m.id")]
    } else {
        seq![]
    };
    let scope: Seq<QueryPiece> = seq![
        QueryPiece::Sql(" WHERE m.channel_id = ANY("),
        QueryPiece::Param(SearchParam::ChannelIds),
        QueryPiece::Sql(
            ") AND m.deleted_at IS NULL AND m.encrypted = false AND m.content_search @@ websearch_to_tsquery('english', ",
        ),
        QueryPiece::Param(SearchParam::Query),
        QueryPiece::Sql(")"),
    ];
    let order: Seq<QueryPiece> = match f.sort {
        SearchSort::Relevance => seq![QueryPiece::Sql(" ORDER BY rank DESC, m.created_at DESC")],
        SearchSort::Date => seq![QueryPiece::Sql(" ORDER BY m.created_at DESC")],
    };
    let page: Seq<QueryPiece> = seq![
        QueryPiece::Sql(" LIMIT "),
        QueryPiece::Param(SearchParam::Limit),
        QueryPiece::Sql(" OFFSET "),
        QueryPiece::Param(SearchParam::Offset),
    ];
    head + join + scope + filter_pieces(f) + order + page
}

/// The filtered search query.
pub fn search_query(f: &SearchFilters) -> (r: SqlQuery)
    ensures
        r.sql@ == render(search_pieces(*f).map_values(|p: QueryPiece| piece_view(p)), 1),
        r.params@ == params_of(search_pieces(*f).map_values(|p: QueryPiece| piece_view(p))),
{
    let mut pieces: Vec<QueryPiece> = Vec::new();
    pieces.push(
        QueryPiece::Sql(
            "SELECT m.id, m.channel_id, m.user_id, m.content, m.created_at, ts_rank(m.content_search, websearch_to_tsquery('english', ",
        ),
    );
    pieces.push(QueryPiece::Param(SearchParam::Query));
    pieces.push(
        QueryPiece::Sql(
            ")) AS rank, ts_headline('english', m.content, websearch_to_tsquery('english', ",
        ),
    );
    pieces.push(QueryPiece::Param(SearchParam::Query));
    pieces.push(
        QueryPiece::Sql(
            "), 'StartSel=<mark>, StopSel=</mark>, MaxWords=50, MinWords=20, MaxFragments=2') AS headline FROM messages m",
        ),
    );
    if f.has_file {
        pieces.push(QueryPiece::Sql(" INNER JOIN file_attachments fa ON fa.message_id = m.id"));
    }
    pieces.push(QueryPiece::Sql(" WHERE m.channel_id = ANY("));
    pieces.push(QueryPiece::Param(SearchParam::ChannelIds));
    pieces.push(
        QueryPiece::Sql(
            ") AND m.deleted_at IS NULL AND m.encrypted = false AND m.content_search @@ websearch_to_tsquery('english', ",
        ),
    );
    pieces.push(QueryPiece::Param(SearchParam::Query));
    pieces.push(QueryPiece::Sql(")"));
    push_filter_pieces(&mut pieces, f);
    match f.sort {
        SearchSort::Relevance => pieces.push(QueryPiece::Sql(" ORDER BY rank DESC, m.created_at DESC")),
        SearchSort::Date => pieces.push(QueryPiece::Sql(" ORDER BY m.created_at DESC")),
    }
    pieces.push(QueryPiece::Sql(" LIMIT "));
    pieces.push(QueryPiece::Param(SearchParam::Limit));
    pieces.push(QueryPiece::Sql(" OFFSET "));
    pieces.push(QueryPiece::Param(SearchParam::Offset));
    assert(pieces@ =~= search_pieces(*f));
    render_query(&pieces)
}

/// The pieces of the count of a filtered search.
pub open spec fn count_pieces(f: SearchFilters) -> Seq<QueryPiece> {
    let from: Seq<QueryPiece> = if f.has_file {
        seq![
            QueryPiece::Sql("SELECT COUNT(*)"),
            QueryPiece::Sql(" FROM messages m INNER JOIN file_attachments fa ON fa.message_id = m.id"),
        ]
    } else {
        seq![QueryPiece::Sql("SELECT COUNT(*)"), QueryPiece::Sql(" FROM messages m")]
    };
    let scope: Seq<QueryPiece> = seq![
        QueryPiece::Sql(" WHERE m.channel_id = ANY("),
        QueryPiece::Param(SearchParam::ChannelIds),
        QueryPiece::Sql(
            ") AND m.deleted_at IS NULL AND m.encrypted = false AND m.content_search @@ websearch_to_tsquery('english', ",
        ),
        QueryPiece::Param(SearchParam::Query),
        QueryPiece::Sql(")"),
    ];
    from + scope + filter_pieces(f)
}

/// The count of a filtered search.
pub fn count_query(f: &SearchFilters) -> (r: SqlQuery)
    ensures
        r.sql@ == render(count_pieces(*f).map_values(|p: QueryPiece| piece_view(p)), 1),
        r.params@ == params_of(count_pieces(*f).map_values(|p: QueryPiece| piece_view(p))),
{
    let mut pieces: Vec<QueryPiece> = Vec::new();
    pieces.push(QueryPiece::Sql("SELECT COUNT(*)"));
    if f.has_file {
        pieces.push(
            QueryPiece::Sql(" FROM messages m INNER JOIN file_attachments fa ON fa.message_id = m.id"),
        );
    } else {
        pieces.push(QueryPiece::Sql(" FROM messages m"));
    }
    pieces.push(QueryPiece::Sql(" WHERE m.channel_id = ANY("));
    pieces.push(QueryPiece::Param(SearchParam::ChannelIds));
    pieces.push(
        QueryPiece::Sql(
            ") AND m.deleted_at IS NULL AND m.encrypted = false AND m.content_search @@ websearch_to_tsquery('english', ",
        ),
    );
    pieces.push(QueryPiece::Param(SearchParam::Query));
    pieces.push(QueryPiece::Sql(")"));
    push_filter_pieces(&mut pieces, f);
    assert(pieces@ =~= count_pieces(*f));
    render_query(&pieces)
}

/// The pieces of a query with literal SQL as character sequences.
pub open spec fn pieces_view(pieces: Seq<QueryPiece>) -> Seq<Result<Seq<char>, SearchParam>> {
    pieces.map_values(|p: QueryPiece| piece_view(p))
}

/// The parameters of a run of pieces, read off the pieces themselves.
spec fn piece_params(p: Seq<QueryPiece>) -> Seq<SearchParam>
    decreases p.len(),
{
    if p.len() == 0 {
        Seq::empty()
    } else {
        match p[0] {
            QueryPiece::Sql(_) => piece_params(p.drop_first()),
            QueryPiece::Param(b) => seq![b] + piece_params(p.drop_first()),
        }
    }
}

proof fn lemma_params_of_view(p: Seq<QueryPiece>)
    ensures
        params_of(pieces_view(p)) == piece_params(p),
    decreases p.len(),
{
    if p.len() > 0 {
        assert(pieces_view(p).drop_first() =~= pieces_view(p.drop_first()));
        lemma_params_of_view(p.drop_first());
    }
}

proof fn lemma_piece_params_concat(a: Seq<QueryPiece>, b: Seq<QueryPiece>)
    ensures
        piece_params(a + b) == piece_params(a) + piece_params(b),
    decreases a.len(),
{
    if a.len() == 0 {
        assert(a + b =~= b);
    } else {
        assert((a + b).drop_first() =~= a.drop_first() + b);
        assert((a + b)[0] == a[0]);
        lemma_piece_params_concat(a.drop_first(), b);
        match a[0] {
            QueryPiece::Sql(_) => {},
            QueryPiece::Param(x) => {
                assert(seq![x] + (piece_params(a.drop_first()) + piece_params(b)) =~= (seq![x]
                    + piece_params(a.drop_first())) + piece_params(b));
            },
        }
    }
}

/// The parameters that the filters bind, in order: the start date, the end
/// date and the author, each only when given.
proof fn lemma_filter_params(f: SearchFilters)
    ensures
        piece_params(filter_pieces(f)) == (if f.date_from is Some {
            seq![SearchParam::DateFrom]
        } else {
            Seq::<SearchParam>::empty()
        }) + (if f.date_to is Some {
            seq![SearchParam::DateTo]
        } else {
            Seq::<SearchParam>::empty()
        }) + (if f.author_id is Some {
            seq![SearchParam::AuthorId]
        } else {
            Seq::<SearchParam>::empty()
        }),
{
    reveal_with_fuel(piece_params, 3);
    let a: Seq<QueryPiece> = if f.date_from is Some {
        seq![QueryPiece::Sql(" AND m.created_at >= "), QueryPiece::Param(SearchParam::DateFrom)]
    } else {
        seq![]
    };
    let b: Seq<QueryPiece> = if f.date_to is Some {
        seq![QueryPiece::Sql(" AND m.created_at <= "), QueryPiece::Param(SearchParam::DateTo)]
    } else {
        seq![]
    };
    let c: Seq<QueryPiece> = if f.author_id is Some {
        seq![QueryPiece::Sql(" AND m.user_id = "), QueryPiece::Param(SearchParam::AuthorId)]
    } else {
        seq![]
    };
    let d: Seq<QueryPiece> = if f.has_link {
        seq![QueryPiece::Sql(" AND m.content ~* 'https?://'")]
    } else {
        seq![]
    };
    assert(filter_pieces(f) == a + b + c + d);
    lemma_piece_params_concat(a + b + c, d);
    lemma_piece_params_concat(a + b, c);
    lemma_piece_params_concat(a, b);
    if f.date_from is Some {
        assert(a.drop_first().drop_first() =~= Seq::<QueryPiece>::empty());
    }
    if f.date_to is Some {
        assert(b.drop_first().drop_first() =~= Seq::<QueryPiece>::empty());
    }
    if f.author_id is Some {
        assert(c.drop_first().drop_first() =~= Seq::<QueryPiece>::empty());
    }
    if f.has_link {
        assert(d.drop_first() =~= Seq::<QueryPiece>::empty());
    }
    assert(piece_params(a + b + c + d) =~= piece_params(a) + piece_params(b) + piece_params(c)
        + piece_params(d));
}

/// Each filter binds its own value: the parameters of a filtered search are
/// the text twice for ranking and highlighting, the channels, the text for
/// matching, then the start date, the end date and the author each exactly
/// when given, then the page size and offset. Its count binds the channels,
/// the text and the same filter values.
#[verifier::rlimit(50)]
pub proof fn lemma_search_params(f: SearchFilters)
    ensures
        params_of(search_pieces(f).map_values(|p: QueryPiece| piece_view(p))) == seq![
            SearchParam::Query,
            SearchParam::Query,
            SearchParam::ChannelIds,
            SearchParam::Query,
        ] + (if f.date_from is Some {
            seq![SearchParam::DateFrom]
        } else {
            Seq::<SearchParam>::empty()
        }) + (if f.date_to is Some {
            seq![SearchParam::DateTo]
        } else {
            Seq::<SearchParam>::empty()
        }) + (if f.author_id is Some {
            seq![SearchParam::AuthorId]
        } else {
            Seq::<SearchParam>::empty()
        }) + seq![SearchParam::Limit, SearchParam::Offset],
        params_of(count_pieces(f).map_values(|p: QueryPiece| piece_view(p))) == seq![
            SearchParam::ChannelIds,
            SearchParam::Query,
        ] + (if f.date_from is Some {
            seq![SearchParam::DateFrom]
        } else {
            Seq::<SearchParam>::empty()
        }) + (if f.date_to is Some {
            seq![SearchParam::DateTo]
        } else {
            Seq::<SearchParam>::empty()
        }) + (if f.author_id is Some {
            seq![SearchParam::AuthorId]
        } else {
            Seq::<SearchParam>::empty()
        }),
{
    lemma_filter_params(f);
    let fp = filter_pieces(f);
    let head: Seq<QueryPiece> = seq![
        QueryPiece::Sql(
            "SELECT m.id, m.channel_id, m.user_id, m.content, m.created_at, ts_rank(m.content_search, websearch_to_tsquery('english', ",
        ),
        QueryPiece::Param(SearchParam::Query),
        QueryPiece::Sql(
            ")) AS rank, ts_headline('english', m.content, websearch_to_tsquery('english', ",
        ),
        QueryPiece::Param(SearchParam::Query),
        QueryPiece::Sql(
            "), 'StartSel=<mark>, StopSel=</mark>, MaxWords=50, MinWords=20, MaxFragments=2') AS headline FROM messages m",
        ),
    ];
    let join: Seq<QueryPiece> = if f.has_file {
        seq![QueryPiece::Sql(" INNER JOIN file_attachments fa ON fa.message_id = m.id")]
    } else {
        seq![]
    };
    let scope: Seq<QueryPiece> = seq![
        QueryPiece::Sql(" WHERE m.channel_id = ANY("),
        QueryPiece::Param(SearchParam::ChannelIds),
        QueryPiece::Sql(
            ") AND m.deleted_at IS NULL AND m.encrypted = false AND m.content_search @@ websearch_to_tsquery('english', ",
        ),
        QueryPiece::Param(SearchParam::Query),
        QueryPiece::Sql(")"),
    ];
    let order: Seq<QueryPiece> = match f.sort {
        SearchSort::Relevance => seq![QueryPiece::Sql(" ORDER BY rank DESC, m.created_at DESC")],
        SearchSort::Date => seq![QueryPiece::Sql(" ORDER BY m.created_at DESC")],
    };
    let page: Seq<QueryPiece> = seq![
        QueryPiece::Sql(" LIMIT "),
        QueryPiece::Param(SearchParam::Limit),
        QueryPiece::Sql(" OFFSET "),
        QueryPiece::Param(SearchParam::Offset),
    ];
    let from: Seq<QueryPiece> = if f.has_file {
        seq![
            QueryPiece::Sql("SELECT COUNT(*)"),
            QueryPiece::Sql(" FROM messages m INNER JOIN file_attachments fa ON fa.message_id = m.id"),
        ]
    } else {
        seq![QueryPiece::Sql("SELECT COUNT(*)"), QueryPiece::Sql(" FROM messages m")]
    };
    assert(search_pieces(f) == head + join + scope + fp + order + page);
    assert(count_pieces(f) == from + scope + fp);
    lemma_params_of_view(search_pieces(f));
    lemma_params_of_view(count_pieces(f));
    lemma_piece_params_concat(head + join + scope + fp + order, page);
    lemma_piece_params_concat(head + join + scope + fp, order);
    lemma_piece_params_concat(head + join + scope, fp);
    lemma_piece_params_concat(head + join, scope);
    lemma_piece_params_concat(head, join);
    lemma_piece_params_concat(from + scope, fp);
    lemma_piece_params_concat(from, scope);
    assert(piece_params(head) =~= seq![SearchParam::Query, SearchParam::Query]) by {
        reveal_with_fuel(piece_params, 6);
    }
    assert(piece_params(join) =~= Seq::<SearchParam>::empty()) by {
        reveal_with_fuel(piece_params, 6);
    }
    assert(piece_params(scope) =~= seq![SearchParam::ChannelIds, SearchParam::Query]) by {
        reveal_with_fuel(piece_params, 6);
    }
    assert(piece_params(order) =~= Seq::<SearchParam>::empty()) by {
        reveal_with_fuel(piece_params, 6);
    }
    assert(piece_params(page) =~= seq![SearchParam::Limit, SearchParam::Offset]) by {
        reveal_with_fuel(piece_params, 6);
    }
    assert(piece_params(from) =~= Seq::<SearchParam>::empty()) by {
        reveal_with_fuel(piece_params, 6);
    }
    assert(pieces_view(search_pieces(f)) =~= search_pieces(f).map_values(|p: QueryPiece| piece_view(p)));
    assert(pieces_view(count_pieces(f)) =~= count_pieces(f).map_values(|p: QueryPiece| piece_view(p)));
}

/// In a run of pieces, each filter value comes right after its own
/// condition: the start date after ` AND m.created_at >= `, the end date after
/// ` AND m.created_at <= ` and the author after ` AND m.user_id = `.
pub open spec fn filter_values_follow_conditions(s: Seq<QueryPiece>) -> bool {
    forall|i: int|
        0 <= i < s.len() ==> {
            &&& #[trigger] s[i] == QueryPiece::Param(SearchParam::DateFrom) ==> i > 0 && s[i - 1]
                == QueryPiece::Sql(" AND m.created_at >= ")
            &&& s[i] == QueryPiece::Param(SearchParam::DateTo) ==> i > 0 && s[i - 1]
                == QueryPiece::Sql(" AND m.created_at <= ")
            &&& s[i] == QueryPiece::Param(SearchParam::AuthorId) ==> i > 0 && s[i - 1]
                == QueryPiece::Sql(" AND m.user_id = ")
        }
}

/// No piece binds a filter value.
spec fn no_filter_values(s: Seq<QueryPiece>) -> bool {
    forall|i: int|
        0 <= i < s.len() ==> #[trigger] s[i] != QueryPiece::Param(SearchParam::DateFrom) && s[i]
            != QueryPiece::Param(SearchParam::DateTo) && s[i] != QueryPiece::Param(
            SearchParam::AuthorId,
        )
}

proof fn lemma_follow_in_context(pre: Seq<QueryPiece>, mid: Seq<QueryPiece>, post: Seq<QueryPiece>)
    requires
        no_filter_values(pre),
        no_filter_values(post),
        filter_values_follow_conditions(mid),
    ensures
        filter_values_follow_conditions(pre + mid + post),
{
    let s = pre + mid + post;
    assert forall|i: int| 0 <= i < s.len() implies {
        &&& #[trigger] s[i] == QueryPiece::Param(SearchParam::DateFrom) ==> i > 0 && s[i - 1]
            == QueryPiece::Sql(" AND m.created_at >= ")
        &&& s[i] == QueryPiece::Param(SearchParam::DateTo) ==> i > 0 && s[i - 1]
            == QueryPiece::Sql(" AND m.created_at <= ")
        &&& s[i] == QueryPiece::Param(SearchParam::AuthorId) ==> i > 0 && s[i - 1]
            == QueryPiece::Sql(" AND m.user_id = ")
    } by {
        if i < pre.len() {
            assert(s[i] == pre[i]);
        } else if i < pre.len() + mid.len() {
            let k = i - pre.len();
            assert(s[i] == mid[k]);
            if k > 0 {
                assert(s[i - 1] == mid[k - 1]);
            }
        } else {
            assert(s[i] == post[i - pre.len() - mid.len()]);
        }
    }
}

proof fn lemma_filter_pieces_follow(f: SearchFilters)
    ensures
        filter_values_follow_conditions(filter_pieces(f)),
{
    let fp = filter_pieces(f);
    assert forall|i: int| 0 <= i < fp.len() implies {
        &&& #[trigger] fp[i] == QueryPiece::Param(SearchParam::DateFrom) ==> i > 0 && fp[i - 1]
            == QueryPiece::Sql(" AND m.created_at >= ")
        &&& fp[i] == QueryPiece::Param(SearchParam::DateTo) ==> i > 0 && fp[i - 1]
            == QueryPiece::Sql(" AND m.created_at <= ")
        &&& fp[i] == QueryPiece::Param(SearchParam::AuthorId) ==> i > 0 && fp[i - 1]
            == QueryPiece::Sql(" AND m.user_id = ")
    } by {
    }
}

/// In the filtered search and in its count, each filter value is bound right
/// after its own condition, so the start date, the end date and the author
/// are compared where they belong.
pub proof fn lemma_filter_values_follow_conditions(f: SearchFilters)
    ensures
        filter_values_follow_conditions(search_pieces(f)),
        filter_values_follow_conditions(count_pieces(f)),
{
    lemma_filter_pieces_follow(f);
    let fp = filter_pieces(f);
    let head: Seq<QueryPiece> = seq![
        QueryPiece::Sql(
            "SELECT m.id, m.channel_id, m.user_id, m.content, m.created_at, ts_rank(m.content_search, websearch_to_tsquery('english', ",
        ),
        QueryPiece::Param(SearchParam::Query),
        QueryPiece::Sql(
            ")) AS rank, ts_headline('english', m.content, websearch_to_tsquery('english', ",
        ),
        QueryPiece::Param(SearchParam::Query),
        QueryPiece::Sql(
            "), 'StartSel=<mark>, StopSel=</mark>, MaxWords=50, MinWords=20, MaxFragments=2') AS headline FROM messages m",
        ),
    ];
    let join: Seq<QueryPiece> = if f.has_file {
        seq![QueryPiece::Sql(" INNER JOIN file_attachments fa ON fa.message_id = m.id")]
    } else {
        seq![]
    };
    let scope: Seq<QueryPiece> = seq![
        QueryPiece::Sql(" WHERE m.channel_id = ANY("),
        QueryPiece::Param(SearchParam::ChannelIds),
        QueryPiece::Sql(
            ") AND m.deleted_at IS NULL AND m.encrypted = false AND m.content_search @@ websearch_to_tsquery('english', ",
        ),
        QueryPiece::Param(SearchParam::Query),
        QueryPiece::Sql(")"),
    ];
    let order: Seq<QueryPiece> = match f.sort {
        SearchSort::Relevance => seq![QueryPiece::Sql(" ORDER BY rank DESC, m.created_at DESC")],
        SearchSort::Date => seq![QueryPiece::Sql(" ORDER BY m.created_at DESC")],
    };
    let page: Seq<QueryPiece> = seq![
        QueryPiece::Sql(" LIMIT "),
        QueryPiece::Param(SearchParam::Limit),
        QueryPiece::Sql(" OFFSET "),
        QueryPiece::Param(SearchParam::Offset),
    ];
    let from: Seq<QueryPiece> = if f.has_file {
        seq![
            QueryPiece::Sql("SELECT COUNT(*)"),
            QueryPiece::Sql(" FROM messages m INNER JOIN file_attachments fa ON fa.message_id = m.id"),
        ]
    } else {
        seq![QueryPiece::Sql("SELECT COUNT(*)"), QueryPiece::Sql(" FROM messages m")]
    };
    let pre = head + join + scope;
    let post = order + page;
    assert(no_filter_values(pre));
    assert(no_filter_values(post));
    assert(no_filter_values(from + scope));
    assert(no_filter_values(Seq::<QueryPiece>::empty()));
    assert(search_pieces(f) == pre + fp + post);
    assert(count_pieces(f) =~= (from + scope) + fp + Seq::<QueryPiece>::empty());
    lemma_follow_in_context(pre, fp, post);
    lemma_follow_in_context(from + scope, fp, Seq::<QueryPiece>::empty());
}

} // verus!

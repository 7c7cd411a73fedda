//! The SQL of recording searches: which searches run for a query, the
//! filter clauses with their numbered parameters, and merging the results
//! of several searches without repeating a recording.
use vstd::prelude::*;
use crate::models::SearchFilters;
use crate::text::{decimal, push_char, push_decimal, push_str, chars_of, str_eq, to_owned_string, views};

verus! {

broadcast use vstd::string::group_string_axioms;

/// The searches over recordings.
#[derive(Clone, Copy, Debug, PartialEq, Eq, Structural)]
pub enum SearchKind {
    /// Titles matching the query.
    Title,
    /// Transcript text matching the query (full-text search).
    Transcript,
    /// Recordings in a category whose name matches the query.
    CategoryName,
    /// Recordings with a tag whose name matches the query.
    TagName,
    /// No text query: the filters alone.
    FilterOnly,
}

/// An SQL statement with its positional parameters (`?1` is `params[0]`).
#[derive(Clone, Debug)]
pub struct SqlQuery {
    pub sql: String,
    pub params: Vec<String>,
}

/// The statement text before the filters.
pub open spec fn query_head(k: SearchKind) -> Seq<char> {
    match k {
        SearchKind::Title => "\n        SELECT DISTINCT r.id, r.title, r.created_at, r.completed_at, r.duration_seconds,\n               r.status, r.audio_file_path, r.meeting_folder_path, r.microphone_device,\n               r.system_audio_device, r.sample_rate, r.transcription_model, r.language, r.diarization_provider\n        FROM recordings r\n        WHERE r.title LIKE ?1\n        "@,
        SearchKind::Transcript => "\n        SELECT DISTINCT r.id, r.title, r.created_at, r.completed_at, r.duration_seconds,\n               r.status, r.audio_file_path, r.meeting_folder_path, r.microphone_device,\n               r.system_audio_device, r.sample_rate, r.transcription_model, r.language, r.diarization_provider,\n               snippet(transcript_fts, 1, '<mark>', '</mark>', '...', 32) as matched_text\n        FROM recordings r\n        INNER JOIN transcript_fts fts ON r.id = fts.recording_id\n        WHERE transcript_fts MATCH ?1\n        "@,
        SearchKind::CategoryName => "\n        SELECT DISTINCT r.id, r.title, r.created_at, r.completed_at, r.duration_seconds,\n               r.status, r.audio_file_path, r.meeting_folder_path, r.microphone_device,\n               r.system_audio_device, r.sample_rate, r.transcription_model, r.language, r.diarization_provider,\n               c.name as category_name\n        FROM recordings r\n        INNER JOIN recording_categories rc ON r.id = rc.recording_id\n        INNER JOIN categories c ON rc.category_id = c.id\n        WHERE c.name LIKE ?1\n        "@,
        SearchKind::TagName => "\n        SELECT DISTINCT r.id, r.title, r.created_at, r.completed_at, r.duration_seconds,\n               r.status, r.audio_file_path, r.meeting_folder_path, r.microphone_device,\n               r.system_audio_device, r.sample_rate, r.transcription_model, r.language, r.diarization_provider,\n               t.name as tag_name\n        FROM recordings r\n        INNER JOIN recording_tags rt ON r.id = rt.recording_id\n        INNER JOIN tags t ON rt.tag_id = t.id\n        WHERE t.name LIKE ?1\n        "@,
        SearchKind::FilterOnly => "\n        SELECT r.id, r.title, r.created_at, r.completed_at, r.duration_seconds,\n               r.status, r.audio_file_path, r.meeting_folder_path, r.microphone_device,\n               r.system_audio_device, r.sample_rate, r.transcription_model, r.language, r.diarization_provider\n        FROM recordings r\n        WHERE 1=1\n        "@,
    }
}

fn query_head_text(k: SearchKind) -> (r: &'static str)
    ensures
        r@ == query_head(k),
{
    match k {
        SearchKind::Title => "\n        SELECT DISTINCT r.id, r.title, r.created_at, r.completed_at, r.duration_seconds,\n               r.status, r.audio_file_path, r.meeting_folder_path, r.microphone_device,\n               r.system_audio_device, r.sample_rate, r.transcription_model, r.language, r.diarization_provider\n        FROM recordings r\n        WHERE r.title LIKE ?1\n        ",
        SearchKind::Transcript => "\n        SELECT DISTINCT r.id, r.title, r.created_at, r.completed_at, r.duration_seconds,\n               r.status, r.audio_file_path, r.meeting_folder_path, r.microphone_device,\n               r.system_audio_device, r.sample_rate, r.transcription_model, r.language, r.diarization_provider,\n               snippet(transcript_fts, 1, '<mark>', '</mark>', '...', 32) as matched_text\n        FROM recordings r\n        INNER JOIN transcript_fts fts ON r.id = fts.recording_id\n        WHERE transcript_fts MATCH ?1\n        ",
        SearchKind::CategoryName => "\n        SELECT DISTINCT r.id, r.title, r.created_at, r.completed_at, r.duration_seconds,\n               r.status, r.audio_file_path, r.meeting_folder_path, r.microphone_device,\n               r.system_audio_device, r.sample_rate, r.transcription_model, r.language, r.diarization_provider,\n               c.name as category_name\n        FROM recordings r\n        INNER JOIN recording_categories rc ON r.id = rc.recording_id\n        INNER JOIN categories c ON rc.category_id = c.id\n        WHERE c.name LIKE ?1\n        ",
        SearchKind::TagName => "\n        SELECT DISTINCT r.id, r.title, r.created_at, r.completed_at, r.duration_seconds,\n               r.status, r.audio_file_path, r.meeting_folder_path, r.microphone_device,\n               r.system_audio_device, r.sample_rate, r.transcription_model, r.language, r.diarization_provider,\n               t.name as tag_name\n        FROM recordings r\n        INNER JOIN recording_tags rt ON r.id = rt.recording_id\n        INNER JOIN tags t ON rt.tag_id = t.id\n        WHERE t.name LIKE ?1\n        ",
        SearchKind::FilterOnly => "\n        SELECT r.id, r.title, r.created_at, r.completed_at, r.duration_seconds,\n               r.status, r.audio_file_path, r.meeting_folder_path, r.microphone_device,\n               r.system_audio_device, r.sample_rate, r.transcription_model, r.language, r.diarization_provider\n        FROM recordings r\n        WHERE 1=1\n        ",
    }
}

/// The statement text after the filters.
pub open spec fn query_tail(k: SearchKind) -> Seq<char> {
    match k {
        SearchKind::Transcript => " ORDER BY r.created_at DESC LIMIT 50"@,
        _ => " ORDER BY r.created_at DESC"@,
    }
}

/// A query string quoted for full-text search: `"` doubled, then the whole
/// put in double quotes.
pub open spec fn fts_escape(q: Seq<char>) -> Seq<char>
    decreases q.len(),
{
    if q.len() == 0 {
        Seq::empty()
    } else {
        fts_escape(q.drop_last()) + (if q.last() == '"' {
            seq!['"', '"']
        } else {
            seq![q.last()]
        })
    }
}

/// The first parameter of a search for `q`, if it has one.
pub open spec fn search_param(k: SearchKind, q: Seq<char>) -> Seq<Seq<char>> {
    match k {
        SearchKind::Transcript => seq![seq!['"'] + fts_escape(q) + seq!['"']],
        SearchKind::FilterOnly => Seq::empty(),
        _ => seq![seq!['%'] + q + seq!['%']],
    }
}

/// `?from, ?from+1, ...` for `n` placeholders.
pub open spec fn placeholders(from: nat, n: nat) -> Seq<char>
    decreases n,
{
    if n == 0 {
        Seq::empty()
    } else if n == 1 {
        seq!['?'] + decimal(from)
    } else {
        placeholders(from, (n - 1) as nat) + ", "@ + seq!['?'] + decimal((from + n - 1) as nat)
    }
}

/// The ids of an optional id filter (none when absent).
pub open spec fn id_filter(ids: Option<Vec<String>>) -> Seq<Seq<char>> {
    match ids {
        Some(v) => views(v@),
        None => Seq::empty(),
    }
}

/// The date parameters of the filters: from, then to.
pub open spec fn date_params(f: SearchFilters) -> Seq<Seq<char>> {
    (match f.date_from {
        Some(d) => seq![d@],
        None => Seq::empty(),
    }) + (match f.date_to {
        Some(d) => seq![d@],
        None => Seq::empty(),
    })
}

/// The parameters the filters add, in order: dates, categories, tags.
pub open spec fn filter_params(f: SearchFilters) -> Seq<Seq<char>> {
    date_params(f) + id_filter(f.category_ids) + id_filter(f.tag_ids)
}

/// The SQL of the filters, when `p` parameters come before them.
pub open spec fn filter_sql(f: SearchFilters, p: nat) -> Seq<char> {
    let from_sql = match f.date_from {
        Some(_) => " AND r.created_at >= ?"@ + decimal(p + 1),
        None => Seq::empty(),
    };
    let p1 = p + (if f.date_from is Some { 1nat } else { 0nat });
    let to_sql = match f.date_to {
        Some(_) => " AND r.created_at <= ?"@ + decimal(p1 + 1),
        None => Seq::empty(),
    };
    let p2 = p1 + (if f.date_to is Some { 1nat } else { 0nat });
    let cats = id_filter(f.category_ids);
    let cat_sql = if cats.len() > 0 {
        " AND r.id IN (SELECT recording_id FROM recording_categories WHERE category_id IN ("@
            + placeholders(p2 + 1, cats.len()) + "))"@
    } else {
        Seq::empty()
    };
    let p3 = p2 + cats.len();
    let tags = id_filter(f.tag_ids);
    let tag_sql = if tags.len() > 0 {
        " AND r.id IN (SELECT recording_id FROM recording_tags WHERE tag_id IN ("@ + placeholders(
            p3 + 1,
            tags.len(),
        ) + "))"@
    } else {
        Seq::empty()
    };
    from_sql + to_sql + cat_sql + tag_sql
}

/// The query quoted for full-text search.
pub fn fts_query(q: &str) -> (r: String)
    ensures
        r@ == seq!['"'] + fts_escape(q@) + seq!['"'],
{
    let cs = chars_of(q);
    let mut r = String::new();
    push_char(&mut r, '"');
    let mut i: usize = 0;
    while i < cs.len()
        invariant
            i <= cs.len(),
            cs@ == q@,
            r@ == seq!['"'] + fts_escape(q@.take(i as int)),
        decreases cs.len() - i,
    {
        if cs[i] == '"' {
            push_char(&mut r, '"');
            push_char(&mut r, '"');
        } else {
            push_char(&mut r, cs[i]);
        }
        assert(q@.take(i + 1).drop_last() == q@.take(i as int));
        i = i + 1;
    }
    assert(q@.take(cs.len() as int) == q@);
    push_char(&mut r, '"');
    r
}

/// Appends `?from, ?from+1, ...` for `n` placeholders.
fn push_placeholders(sql: &mut String, from: usize, n: usize)
    requires
        n > 0,
        from + n <= usize::MAX,
    ensures
        final(sql)@ == old(sql)@ + placeholders(from as nat, n as nat),
{
    push_char(sql, '?');
    push_decimal(sql, from as u64);
    let mut k: usize = 1;
    while k < n
        invariant
            1 <= k <= n,
            from + n <= usize::MAX,
            sql@ == old(sql)@ + placeholders(from as nat, k as nat),
        decreases n - k,
    {
        push_str(sql, ", ");
        push_char(sql, '?');
        push_decimal(sql, (from + k) as u64);
        k = k + 1;
    }
}

/// Appends one id filter: the subquery over `table`/`column` and its ids.
fn push_id_filter(
    sql: &mut String,
    params: &mut Vec<String>,
    ids: &Option<Vec<String>>,
    prefix: &str,
)
    requires
        old(params).len() + id_filter(*ids).len() < usize::MAX,
    ensures
        views(final(params)@) == views(old(params)@) + id_filter(*ids),
        final(sql)@ == old(sql)@ + (if id_filter(*ids).len() > 0 {
            prefix@ + placeholders((old(params).len() + 1) as nat, id_filter(*ids).len()) + "))"@
        } else {
            Seq::empty()
        }),
{
    match ids {
        Some(v) => {
            if v.len() > 0 {
                push_str(sql, prefix);
                push_placeholders(sql, params.len() + 1, v.len());
                push_str(sql, "))");
                let mut i: usize = 0;
                while i < v.len()
                    invariant
                        i <= v.len(),
                        views(params@) == views(old(params)@) + views(v@).take(i as int),
                    decreases v.len() - i,
                {
                    let ghost before = params@;
                    params.push(v[i].clone());
                    assert(views(params@) =~= views(before).push(v@[i as int]@));
                    assert(views(v@).take(i + 1) =~= views(v@).take(i as int).push(v@[i as int]@));
                    i = i + 1;
                }
                assert(views(v@).take(v.len() as int) =~= views(v@));
            } else {
                assert(views(params@) =~= views(old(params)@) + id_filter(*ids));
            }
        },
        None => {
            assert(views(params@) =~= views(old(params)@) + id_filter(*ids));
        },
    }
}

/// Appends the date bounds of the filters.
fn push_date_filters(sql: &mut String, params: &mut Vec<String>, filters: &SearchFilters)
    requires
        old(params).len() + 2 < usize::MAX,
    ensures
        views(final(params)@) == views(old(params)@) + date_params(*filters),
        final(sql)@ == old(sql)@ + (match filters.date_from {
            Some(_) => " AND r.created_at >= ?"@ + decimal((old(params).len() + 1) as nat),
            None => Seq::empty(),
        }) + (match filters.date_to {
            Some(_) => " AND r.created_at <= ?"@ + decimal(
                (old(params).len() + 1 + (if filters.date_from is Some {
                    1nat
                } else {
                    0nat
                })) as nat,
            ),
            None => Seq::empty(),
        }),
{
    let ghost ps0 = views(params@);
    let ghost s0 = sql@;
    if let Some(d) = &filters.date_from {
        push_str(sql, " AND r.created_at >= ?");
        push_decimal(sql, (params.len() + 1) as u64);
        params.push(d.clone());
    }
    let ghost s1 = sql@;
    assert(views(params@) =~= ps0 + match filters.date_from {
        Some(d) => seq![d@],
        None => Seq::<Seq<char>>::empty(),
    });
    if let Some(d) = &filters.date_to {
        push_str(sql, " AND r.created_at <= ?");
        push_decimal(sql, (params.len() + 1) as u64);
        params.push(d.clone());
    }
    assert(views(params@) =~= ps0 + date_params(*filters));
}

/// Appends the filters to a statement: date bounds, then categories, then
/// tags, each value as the next numbered parameter.
pub fn append_filters(sql: &mut String, params: &mut Vec<String>, filters: &SearchFilters)
    requires
        old(params).len() + filter_params(*filters).len() + 2 < usize::MAX,
    ensures
        final(sql)@ == old(sql)@ + filter_sql(*filters, old(params).len() as nat),
        views(final(params)@) == views(old(params)@) + filter_params(*filters),
{
    let ghost ps0 = views(params@);
    let ghost s0 = sql@;
    push_date_filters(sql, params, filters);
    let ghost s1 = sql@;
    assert(views(params@).len() == params@.len());
    assert(params.len() == ps0.len() + date_params(*filters).len());
    push_id_filter(
        sql,
        params,
        &filters.category_ids,
        " AND r.id IN (SELECT recording_id FROM recording_categories WHERE category_id IN (",
    );
    let ghost s2 = sql@;
    assert(views(params@).len() == params@.len());
    assert(params.len() == ps0.len() + date_params(*filters).len() + id_filter(
        filters.category_ids,
    ).len());
    push_id_filter(
        sql,
        params,
        &filters.tag_ids,
        " AND r.id IN (SELECT recording_id FROM recording_tags WHERE tag_id IN (",
    );
    assert(views(params@) =~= ps0 + filter_params(*filters));
    assert(sql@ =~= s0 + filter_sql(*filters, ps0.len() as nat));
}

/// The statement and parameters of a search.
pub fn build_search_query(kind: SearchKind, query: &str, filters: &SearchFilters) -> (r: SqlQuery)
    requires
        filter_params(*filters).len() + 3 < usize::MAX,
    ensures
        views(r.params@) == search_param(kind, query@) + filter_params(*filters),
        r.sql@ == query_head(kind) + filter_sql(*filters, search_param(kind, query@).len())
            + query_tail(kind),
{
    let mut sql = to_owned_string(query_head_text(kind));
    let mut params: Vec<String> = Vec::new();
    match kind {
        SearchKind::Transcript => {
            let q = fts_query(query);
            let ghost qv = q@;
            params.push(q);
            assert(views(params@) =~= seq![qv]);
        },
        SearchKind::FilterOnly => {
            assert(views(params@) =~= Seq::<Seq<char>>::empty());
        },
        _ => {
            let mut pattern = String::new();
            push_char(&mut pattern, '%');
            push_str(&mut pattern, query);
            push_char(&mut pattern, '%');
            let ghost pv = pattern@;
            assert(pv =~= seq!['%'] + query@ + seq!['%']);
            params.push(pattern);
            assert(views(params@) =~= seq![pv]);
        },
    }
    assert(views(params@) =~= search_param(kind, query@));
    append_filters(&mut sql, &mut params, filters);
    match kind {
        SearchKind::Transcript => push_str(&mut sql, " ORDER BY r.created_at DESC LIMIT 50"),
        _ => push_str(&mut sql, " ORDER BY r.created_at DESC"),
    }
    SqlQuery { sql, params }
}

/// The searches run for a query: with text, titles, transcripts (when
/// asked for), category names and tag names, in that order; without text,
/// the filters alone.
pub open spec fn search_plan_spec(q: Seq<char>, f: SearchFilters) -> Seq<SearchKind> {
    if q.len() == 0 {
        seq![SearchKind::FilterOnly]
    } else if f.search_transcripts {
        seq![SearchKind::Title, SearchKind::Transcript, SearchKind::CategoryName, SearchKind::TagName]
    } else {
        seq![SearchKind::Title, SearchKind::CategoryName, SearchKind::TagName]
    }
}

/// The searches to run for a query.
pub fn search_plan(query: &str, filters: &SearchFilters) -> (r: Vec<SearchKind>)
    ensures
        r@ == search_plan_spec(query@, *filters),
{
    let mut plan: Vec<SearchKind> = Vec::new();
    if query.is_empty() {
        plan.push(SearchKind::FilterOnly);
    } else {
        plan.push(SearchKind::Title);
        if filters.search_transcripts {
            plan.push(SearchKind::Transcript);
        }
        plan.push(SearchKind::CategoryName);
        plan.push(SearchKind::TagName);
    }
    assert(plan@ =~= search_plan_spec(query@, *filters));
    plan
}

/// What a query searches: with text, the titles first, then the category
/// and tag names, and the transcripts exactly when the filters ask for
/// them; each search once, and never the filters alone.  Without text, the
/// filters alone and nothing else.
pub proof fn lemma_search_plan_covers(q: Seq<char>, f: SearchFilters)
    ensures
        q.len() == 0 ==> search_plan_spec(q, f) == seq![SearchKind::FilterOnly],
        q.len() > 0 ==> {
            let p = search_plan_spec(q, f);
            &&& p.len() > 0 && p[0] == SearchKind::Title
            &&& p.contains(SearchKind::CategoryName)
            &&& p.contains(SearchKind::TagName)
            &&& (p.contains(SearchKind::Transcript) <==> f.search_transcripts)
            &&& !p.contains(SearchKind::FilterOnly)
            &&& forall|i: int, j: int| 0 <= i < j < p.len() ==> p[i] != p[j]
        },
{
    let p = search_plan_spec(q, f);
    if q.len() > 0 {
        if f.search_transcripts {
            assert(p[2] == SearchKind::CategoryName);
            assert(p[3] == SearchKind::TagName);
            assert(p[1] == SearchKind::Transcript);
        } else {
            assert(p[1] == SearchKind::CategoryName);
            assert(p[2] == SearchKind::TagName);
        }
    }
}

/// Position `i` of `incoming` joins the results: its id is neither among
/// the `existing` results nor earlier in `incoming`.
pub open spec fn joins(existing: Seq<Seq<char>>, incoming: Seq<Seq<char>>, i: int) -> bool {
    &&& forall|w: int| 0 <= w < existing.len() ==> existing[w] != incoming[i]
    &&& forall|w: int| 0 <= w < i ==> incoming[w] != incoming[i]
}

/// `id` occurs in `ids`.
fn contains_id(ids: &Vec<String>, upto: usize, id: &str) -> (r: bool)
    requires
        upto <= ids.len(),
    ensures
        r == exists|w: int| 0 <= w < upto && (#[trigger] ids@[w])@ == id@,
{
    let mut k: usize = 0;
    while k < upto
        invariant
            k <= upto <= ids.len(),
            forall|w: int| 0 <= w < k ==> (#[trigger] ids@[w])@ != id@,
        decreases upto - k,
    {
        if str_eq(ids[k].as_str(), id) {
            return true;
        }
        k = k + 1;
    }
    false
}

/// The ids of keyed results.
pub open spec fn result_ids<T>(v: Seq<(String, T)>) -> Seq<Seq<char>> {
    v.map_values(|e: (String, T)| e.0@)
}

/// The positions among the first `n` of `incoming` that join results
/// holding the `existing` ids, in increasing order.
pub open spec fn kept_positions(existing: Seq<Seq<char>>, incoming: Seq<Seq<char>>, n: int) -> Seq<int>
    decreases n,
{
    if n <= 0 {
        Seq::empty()
    } else {
        let prev = kept_positions(existing, incoming, n - 1);
        if joins(existing, incoming, n - 1) {
            prev.push(n - 1)
        } else {
            prev
        }
    }
}

/// No id occurs twice.
pub open spec fn distinct_ids(s: Seq<Seq<char>>) -> bool {
    forall|i: int, j: int| 0 <= i < j < s.len() ==> s[i] != s[j]
}

/// The ids after a batch of `incoming` ids is merged into `existing`.
pub open spec fn merged_ids(existing: Seq<Seq<char>>, incoming: Seq<Seq<char>>) -> Seq<Seq<char>> {
    existing + kept_positions(existing, incoming, incoming.len() as int).map_values(|p: int| incoming[p])
}

/// The ids of keyed results, in order.
fn ids_of<T>(v: &Vec<(String, T)>) -> (r: Vec<String>)
    ensures
        views(r@) == result_ids(v@),
{
    let mut r: Vec<String> = Vec::new();
    let mut k: usize = 0;
    while k < v.len()
        invariant
            k <= v.len(),
            r.len() == k,
            views(r@) == result_ids(v@).take(k as int),
        decreases v.len() - k,
    {
        let id = v[k].0.clone();
        assert(id@ == v@[k as int].0@);
        let ghost before = r@;
        r.push(id);
        assert forall|j: int| 0 <= j < k + 1 implies #[trigger] views(r@)[j] == result_ids(v@).take(
            k + 1,
        )[j] by {
            if j < k {
                assert(r@[j] == before[j]);
                assert(views(before)[j] == result_ids(v@).take(k as int)[j]);
            }
        }
        assert(views(r@) =~= result_ids(v@).take(k + 1));
        k = k + 1;
    }
    assert(result_ids(v@).take(v.len() as int) =~= result_ids(v@));
    r
}

/// Adds a batch of search results, each keyed by its recording id, to the
/// results so far: a result joins only when its recording is neither among
/// the results so far nor earlier in the batch; the others are dropped, and
/// the order is kept.
pub fn merge_results<T>(results: &mut Vec<(String, T)>, found: Vec<(String, T)>)
    ensures
        final(results)@ == old(results)@ + kept_positions(
            result_ids(old(results)@),
            result_ids(found@),
            found@.len() as int,
        ).map_values(|p: int| found@[p]),
        result_ids(final(results)@) == merged_ids(result_ids(old(results)@), result_ids(found@)),
{
    let existing = ids_of(results);
    let incoming = ids_of(&found);
    let ghost ex = result_ids(results@);
    let ghost inc = result_ids(found@);
    let ghost start = results@;
    let ghost all = found@;
    let ghost n = found@.len() as int;
    assert(views(incoming@).len() == incoming@.len());
    assert(views(existing@).len() == existing@.len());
    let mut i: usize = 0;
    for item in it: found
        invariant
            it.seq() == all,
            i == it.index(),
            n == all.len(),
            ex == result_ids(start),
            inc == result_ids(all),
            views(existing@) == ex,
            views(incoming@) == inc,
            existing@.len() == ex.len(),
            incoming@.len() == n,
            results@ == start + kept_positions(ex, inc, i as int).map_values(|p: int| all[p]),
    {
        let id = incoming[i].as_str();
        let in_existing = contains_id(&existing, existing.len(), id);
        let in_earlier = contains_id(&incoming, i, id);
        proof {
            assert(inc[i as int] == id@);
            if in_existing {
                let w = choose|w: int| 0 <= w < existing.len() && (#[trigger] existing@[w])@ == id@;
                assert(views(existing@)[w] == ex[w]);
            } else {
                assert forall|w: int| 0 <= w < ex.len() implies ex[w] != inc[i as int] by {
                    assert(views(existing@)[w] == existing@[w]@);
                }
            }
            if in_earlier {
                let w = choose|w: int| 0 <= w < i && (#[trigger] incoming@[w])@ == id@;
                assert(views(incoming@)[w] == inc[w]);
            } else {
                assert forall|w: int| 0 <= w < i implies inc[w] != inc[i as int] by {
                    assert(views(incoming@)[w] == incoming@[w]@);
                }
            }
        }
        let ghost before = results@;
        if !in_existing && !in_earlier {
            assert(item == all[i as int]);
            results.push(item);
            proof {
                assert(kept_positions(ex, inc, i + 1) == kept_positions(ex, inc, i as int).push(i as int));
                assert(results@ =~= start + kept_positions(ex, inc, i + 1).map_values(|p: int| all[p]));
            }
        } else {
            proof {
                assert(kept_positions(ex, inc, i + 1) == kept_positions(ex, inc, i as int));
            }
        }
        i = i + 1;
    }
    proof {
        let kept = kept_positions(ex, inc, n);
        lemma_kept_positions(ex, inc, n);
        assert(result_ids(results@) =~= merged_ids(ex, inc)) by {
            assert forall|k: int| 0 <= k < results@.len() implies #[trigger] result_ids(results@)[k]
                == merged_ids(ex, inc)[k] by {
                if k >= start.len() {
                    assert(results@[k] == all[kept[k - start.len()]]);
                } else {
                    assert(results@[k] == start[k]);
                }
            }
        }
    }
}

/// Kept positions lie in the batch, in increasing order, and each joins.
proof fn lemma_kept_positions(existing: Seq<Seq<char>>, incoming: Seq<Seq<char>>, n: int)
    requires
        0 <= n <= incoming.len(),
    ensures
        forall|k: int|
            0 <= k < kept_positions(existing, incoming, n).len() ==> 0 <= #[trigger] kept_positions(
                existing,
                incoming,
                n,
            )[k] < n && joins(existing, incoming, kept_positions(existing, incoming, n)[k]),
        forall|i: int| 0 <= i < n && joins(existing, incoming, i) ==> kept_positions(existing, incoming, n).contains(i),
    decreases n,
{
    if n > 0 {
        lemma_kept_positions(existing, incoming, n - 1);
        let prev = kept_positions(existing, incoming, n - 1);
        if joins(existing, incoming, n - 1) {
            assert(kept_positions(existing, incoming, n)[prev.len() as int] == n - 1);
            assert forall|i: int| 0 <= i < n && joins(existing, incoming, i) implies kept_positions(
                existing,
                incoming,
                n,
            ).contains(i) by {
                if i < n - 1 {
                    let k = choose|k: int| 0 <= k < prev.len() && prev[k] == i;
                    assert(kept_positions(existing, incoming, n)[k] == i);
                }
            }
        }
    }
}

/// Merging a batch keeps every recording once: where the results so far
/// hold distinct ids, so do the merged results, and every id of the batch
/// is among them.
pub proof fn lemma_merge_keeps_ids_distinct(existing: Seq<Seq<char>>, incoming: Seq<Seq<char>>)
    requires
        distinct_ids(existing),
    ensures
        distinct_ids(merged_ids(existing, incoming)),
        forall|i: int| 0 <= i < incoming.len() ==> merged_ids(existing, incoming).contains(#[trigger] incoming[i]),
{
    let n = incoming.len() as int;
    lemma_kept_positions(existing, incoming, n);
    let kept = kept_positions(existing, incoming, n);
    let m = merged_ids(existing, incoming);
    let e = existing.len() as int;
    assert forall|a: int, b: int| 0 <= a < b < m.len() implies m[a] != m[b] by {
        if b >= e {
            let pb = kept[b - e];
            assert(joins(existing, incoming, pb));
            if a < e {
                assert(m[a] == existing[a]);
            } else {
                let pa = kept[a - e];
                assert(joins(existing, incoming, pa));
                lemma_kept_increasing(existing, incoming, n, a - e, b - e);
                assert(pa < pb);
            }
        }
    }
    assert forall|i: int| 0 <= i < incoming.len() implies m.contains(#[trigger] incoming[i]) by {
        lemma_first_occurrence_kept(existing, incoming, i);
    }
}

/// Kept positions increase.
proof fn lemma_kept_increasing(existing: Seq<Seq<char>>, incoming: Seq<Seq<char>>, n: int, a: int, b: int)
    requires
        0 <= a < b < kept_positions(existing, incoming, n).len(),
    ensures
        kept_positions(existing, incoming, n)[a] < kept_positions(existing, incoming, n)[b],
    decreases n,
{
    if n > 0 {
        let prev = kept_positions(existing, incoming, n - 1);
        if joins(existing, incoming, n - 1) && b == prev.len() {
            lemma_kept_below(existing, incoming, n - 1, a);
        } else {
            lemma_kept_increasing(existing, incoming, n - 1, a, b);
        }
    }
}

/// Kept positions among the first `n` are below `n`.
proof fn lemma_kept_below(existing: Seq<Seq<char>>, incoming: Seq<Seq<char>>, n: int, a: int)
    requires
        0 <= a < kept_positions(existing, incoming, n).len(),
    ensures
        kept_positions(existing, incoming, n)[a] < n,
    decreases n,
{
    if n > 0 {
        let prev = kept_positions(existing, incoming, n - 1);
        if a < prev.len() {
            lemma_kept_below(existing, incoming, n - 1, a);
        }
    }
}

/// The id at position `i` of the batch is among the merged ids: its first
/// occurrence is kept, unless the id was there already.
proof fn lemma_first_occurrence_kept(existing: Seq<Seq<char>>, incoming: Seq<Seq<char>>, i: int)
    requires
        0 <= i < incoming.len(),
    ensures
        merged_ids(existing, incoming).contains(incoming[i]),
    decreases i,
{
    let n = incoming.len() as int;
    lemma_kept_positions(existing, incoming, n);
    let kept = kept_positions(existing, incoming, n);
    let m = merged_ids(existing, incoming);
    let e = existing.len() as int;
    if exists|w: int| 0 <= w < existing.len() && existing[w] == incoming[i] {
        let w = choose|w: int| 0 <= w < existing.len() && existing[w] == incoming[i];
        assert(m[w] == existing[w]);
    } else if exists|w: int| 0 <= w < i && incoming[w] == incoming[i] {
        let w = choose|w: int| 0 <= w < i && incoming[w] == incoming[i];
        lemma_first_occurrence_kept(existing, incoming, w);
    } else {
        assert(joins(existing, incoming, i));
        let k = choose|k: int| 0 <= k < kept.len() && kept[k] == i;
        assert(m[e + k] == incoming[i]);
    }
}

/// The text shown with a result: the title for a title match, the snippet
/// for a transcript match, the category or tag name for those matches, and
/// nothing for a filter-only search.  `extra` is the snippet, category name
/// or tag name that the query returned.
pub open spec fn matched_text_spec(kind: SearchKind, title: Seq<char>, extra: Seq<char>) -> Seq<char> {
    match kind {
        SearchKind::Title => "Title: "@ + title,
        SearchKind::Transcript => extra,
        SearchKind::CategoryName => "Category: "@ + extra,
        SearchKind::TagName => "Tag: "@ + extra,
        SearchKind::FilterOnly => Seq::empty(),
    }
}

/// The text shown with a search result.
pub fn matched_text(kind: SearchKind, title: &str, extra: &str) -> (r: String)
    ensures
        r@ == matched_text_spec(kind, title@, extra@),
{
    match kind {
        SearchKind::Title => {
            let mut r = to_owned_string("Title: ");
            push_str(&mut r, title);
            r
        },
        SearchKind::Transcript => to_owned_string(extra),
        SearchKind::CategoryName => {
            let mut r = to_owned_string("Category: ");
            push_str(&mut r, extra);
            r
        },
        SearchKind::TagName => {
            let mut r = to_owned_string("Tag: ");
            push_str(&mut r, extra);
            r
        },
        SearchKind::FilterOnly => String::new(),
    }
}

} // verus!

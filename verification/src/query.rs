//! The list-query builder: turns the optional filter/sort/page parameters
//! into a COUNT statement and a SELECT statement whose filter predicates are
//! identical, with every caller-supplied value carried as a bind parameter —
//! never spliced into the statement text.

use vstd::prelude::*;

use crate::ids::{spec_uuid_parse, spec_uuid_text, uuid_format, uuid_parse};
use crate::pagination::{spec_page, spec_page_size, spec_sort_field, spec_sort_order,
    ListQueryParams};

verus! {

/// A value bound to one `?` placeholder, in placeholder order.
#[derive(Debug, Clone, PartialEq, Eq)]
pub enum BindValue {
    /// A text parameter: a LIKE pattern or canonical id text
    Text(String),
    /// A rating bound in hundredths; the store compares it on the 0.0 ..= 5.0
    /// scale, so it is bound as the value divided by 100
    Rating(u16),
    /// An unsigned integer parameter: LIMIT or OFFSET
    Uint(u32),
}

/// The mathematical shape of a bind value.
pub enum BindModel {
    Text(Seq<char>),
    Rating(u16),
    Uint(u32),
}

impl View for BindValue {
    type V = BindModel;

    open spec fn view(&self) -> BindModel {
        match self {
            BindValue::Text(s) => BindModel::Text(s@),
            BindValue::Rating(r) => BindModel::Rating(*r),
            BindValue::Uint(u) => BindModel::Uint(*u),
        }
    }
}

/// The views of a bind list, in order.
pub open spec fn binds_view(s: Seq<BindValue>) -> Seq<BindModel> {
    s.map_values(|b: BindValue| b@)
}

/// A substring-match pattern: the text wrapped in `%`.
pub open spec fn spec_like(s: Seq<char>) -> Seq<char> {
    "%"@ + s + "%"@
}

/// The search predicate: a case-insensitive substring match against name or
/// description.
pub open spec fn spec_search_sql(p: &ListQueryParams) -> Seq<char> {
    match p.search {
        Some(_) => " AND (p.name LIKE ? OR p.description LIKE ?)"@,
        None => Seq::empty(),
    }
}

pub open spec fn spec_search_binds(p: &ListQueryParams) -> Seq<BindModel> {
    match p.search {
        Some(s) => seq![BindModel::Text(spec_like(s@)), BindModel::Text(spec_like(s@))],
        None => Seq::empty(),
    }
}

/// The technology filter: the project must have at least one associated
/// technology whose name contains the text.
pub open spec fn spec_technology_sql(p: &ListQueryParams) -> Seq<char> {
    match p.technology {
        Some(
            _,
        ) => " AND EXISTS (SELECT 1 FROM project_technologies pt JOIN technologies t ON pt.technology_id = t.id WHERE pt.project_id = p.id AND t.name LIKE ?)"@,
        None => Seq::empty(),
    }
}

pub open spec fn spec_technology_binds(p: &ListQueryParams) -> Seq<BindModel> {
    match p.technology {
        Some(t) => seq![BindModel::Text(spec_like(t@))],
        None => Seq::empty(),
    }
}

/// The user filter: an association row with the given user must exist. Text
/// that is not a well-formed id matches no row at all, rather than erroring.
pub open spec fn spec_user_sql(p: &ListQueryParams) -> Seq<char> {
    match p.user_id {
        Some(u) => match spec_uuid_parse(u@) {
            Some(
                _,
            ) => " AND EXISTS (SELECT 1 FROM project_users pu WHERE pu.project_id = p.id AND pu.user_id = ?)"@,
            None => " AND 1=0"@,
        },
        None => Seq::empty(),
    }
}

pub open spec fn spec_user_binds(p: &ListQueryParams) -> Seq<BindModel> {
    match p.user_id {
        Some(u) => match spec_uuid_parse(u@) {
            Some(id) => seq![BindModel::Text(spec_uuid_text(id))],
            None => Seq::empty(),
        },
        None => Seq::empty(),
    }
}

/// The inclusive rating bounds; a stored null rating satisfies neither.
pub open spec fn spec_min_rating_sql(p: &ListQueryParams) -> Seq<char> {
    match p.min_rating {
        Some(_) => " AND p.rating >= ?"@,
        None => Seq::empty(),
    }
}

pub open spec fn spec_min_rating_binds(p: &ListQueryParams) -> Seq<BindModel> {
    match p.min_rating {
        Some(r) => seq![BindModel::Rating(r)],
        None => Seq::empty(),
    }
}

pub open spec fn spec_max_rating_sql(p: &ListQueryParams) -> Seq<char> {
    match p.max_rating {
        Some(_) => " AND p.rating <= ?"@,
        None => Seq::empty(),
    }
}

pub open spec fn spec_max_rating_binds(p: &ListQueryParams) -> Seq<BindModel> {
    match p.max_rating {
        Some(r) => seq![BindModel::Rating(r)],
        None => Seq::empty(),
    }
}

/// The language filter: a case-insensitive substring match.
pub open spec fn spec_language_sql(p: &ListQueryParams) -> Seq<char> {
    match p.language {
        Some(_) => " AND p.language LIKE ?"@,
        None => Seq::empty(),
    }
}

pub open spec fn spec_language_binds(p: &ListQueryParams) -> Seq<BindModel> {
    match p.language {
        Some(l) => seq![BindModel::Text(spec_like(l@))],
        None => Seq::empty(),
    }
}

/// Every filter predicate, in a fixed order, identical for COUNT and SELECT.
pub open spec fn spec_filter_sql(p: &ListQueryParams) -> Seq<char> {
    spec_search_sql(p) + spec_technology_sql(p) + spec_user_sql(p) + spec_min_rating_sql(p)
        + spec_max_rating_sql(p) + spec_language_sql(p)
}

/// The bind values of the filter predicates, in placeholder order.
pub open spec fn spec_filter_binds(p: &ListQueryParams) -> Seq<BindModel> {
    spec_search_binds(p) + spec_technology_binds(p) + spec_user_binds(p) + spec_min_rating_binds(p)
        + spec_max_rating_binds(p) + spec_language_binds(p)
}

/// The COUNT statement's full text.
pub open spec fn spec_count_sql(p: &ListQueryParams) -> Seq<char> {
    "SELECT COUNT(*) as count FROM projects p WHERE 1=1"@ + spec_filter_sql(p)
}

/// The SELECT statement's full text: the same filters, then the allow-listed
/// sort column and direction, then bound LIMIT and OFFSET.
pub open spec fn spec_select_sql(p: &ListQueryParams) -> Seq<char> {
    "SELECT p.* FROM projects p WHERE 1=1"@ + spec_filter_sql(p) + " ORDER BY p."@
        + spec_sort_field(p) + " "@ + spec_sort_order(p) + " LIMIT ? OFFSET ?"@
}

/// The SELECT statement's bind values: the filters', then LIMIT and OFFSET.
pub open spec fn spec_select_binds(p: &ListQueryParams) -> Seq<BindModel> {
    spec_filter_binds(p) + seq![
        BindModel::Uint(spec_page_size(p)),
        BindModel::Uint(((spec_page(p) - 1) * spec_page_size(p)) as u32),
    ]
}

/// Wraps text in `%` for a substring match.
fn like_pattern(s: &str) -> (r: String)
    ensures
        r@ == spec_like(s@),
{
    let mut r = String::from_str("%");
    r.append(s);
    r.append("%");
    r
}

/// Appends the search predicate, if requested.
fn push_search(sql: &mut String, binds: &mut Vec<BindValue>, p: &ListQueryParams)
    ensures
        final(sql)@ == old(sql)@ + spec_search_sql(p),
        binds_view(final(binds)@) == binds_view(old(binds)@) + spec_search_binds(p),
{
    let ghost sql0 = sql@;
    let ghost binds0 = binds@;
    if let Some(s) = &p.search {
        sql.append(" AND (p.name LIKE ? OR p.description LIKE ?)");
        let pattern = like_pattern(s.as_str());
        binds.push(BindValue::Text(pattern.clone()));
        binds.push(BindValue::Text(pattern));
    }
    proof {
        assert(sql@ =~= sql0 + spec_search_sql(p));
        assert(binds_view(binds@) =~= binds_view(binds0) + spec_search_binds(p));
    }
}

/// Appends the technology existence filter, if requested.
fn push_technology(sql: &mut String, binds: &mut Vec<BindValue>, p: &ListQueryParams)
    ensures
        final(sql)@ == old(sql)@ + spec_technology_sql(p),
        binds_view(final(binds)@) == binds_view(old(binds)@) + spec_technology_binds(p),
{
    let ghost sql0 = sql@;
    let ghost binds0 = binds@;
    if let Some(t) = &p.technology {
        sql.append(
            " AND EXISTS (SELECT 1 FROM project_technologies pt JOIN technologies t ON pt.technology_id = t.id WHERE pt.project_id = p.id AND t.name LIKE ?)",
        );
        binds.push(BindValue::Text(like_pattern(t.as_str())));
    }
    proof {
        assert(sql@ =~= sql0 + spec_technology_sql(p));
        assert(binds_view(binds@) =~= binds_view(binds0) + spec_technology_binds(p));
    }
}

/// Appends the user existence filter, if requested; text that is not a
/// well-formed id becomes a predicate no row satisfies.
fn push_user(sql: &mut String, binds: &mut Vec<BindValue>, p: &ListQueryParams)
    ensures
        final(sql)@ == old(sql)@ + spec_user_sql(p),
        binds_view(final(binds)@) == binds_view(old(binds)@) + spec_user_binds(p),
{
    let ghost sql0 = sql@;
    let ghost binds0 = binds@;
    if let Some(u) = &p.user_id {
        match uuid_parse(u.as_str()) {
            Some(id) => {
                sql.append(
                    " AND EXISTS (SELECT 1 FROM project_users pu WHERE pu.project_id = p.id AND pu.user_id = ?)",
                );
                binds.push(BindValue::Text(uuid_format(id)));
            },
            None => {
                sql.append(" AND 1=0");
            },
        }
    }
    proof {
        assert(sql@ =~= sql0 + spec_user_sql(p));
        assert(binds_view(binds@) =~= binds_view(binds0) + spec_user_binds(p));
    }
}

/// Appends the rating bounds, if requested.
fn push_rating(sql: &mut String, binds: &mut Vec<BindValue>, p: &ListQueryParams)
    ensures
        final(sql)@ == old(sql)@ + spec_min_rating_sql(p) + spec_max_rating_sql(p),
        binds_view(final(binds)@) == binds_view(old(binds)@) + spec_min_rating_binds(p)
            + spec_max_rating_binds(p),
{
    let ghost sql0 = sql@;
    let ghost binds0 = binds@;
    if let Some(r) = p.min_rating {
        sql.append(" AND p.rating >= ?");
        binds.push(BindValue::Rating(r));
    }
    if let Some(r) = p.max_rating {
        sql.append(" AND p.rating <= ?");
        binds.push(BindValue::Rating(r));
    }
    proof {
        assert(sql@ =~= sql0 + spec_min_rating_sql(p) + spec_max_rating_sql(p));
        assert(binds_view(binds@) =~= binds_view(binds0) + spec_min_rating_binds(p)
            + spec_max_rating_binds(p));
    }
}

/// Appends the language filter, if requested.
fn push_language(sql: &mut String, binds: &mut Vec<BindValue>, p: &ListQueryParams)
    ensures
        final(sql)@ == old(sql)@ + spec_language_sql(p),
        binds_view(final(binds)@) == binds_view(old(binds)@) + spec_language_binds(p),
{
    let ghost sql0 = sql@;
    let ghost binds0 = binds@;
    if let Some(l) = &p.language {
        sql.append(" AND p.language LIKE ?");
        binds.push(BindValue::Text(like_pattern(l.as_str())));
    }
    proof {
        assert(sql@ =~= sql0 + spec_language_sql(p));
        assert(binds_view(binds@) =~= binds_view(binds0) + spec_language_binds(p));
    }
}

/// Appends every filter predicate to a statement and its bind values to the
/// bind list, in the fixed order shared by COUNT and SELECT.
fn push_filters(sql: &mut String, binds: &mut Vec<BindValue>, p: &ListQueryParams)
    ensures
        final(sql)@ == old(sql)@ + spec_filter_sql(p),
        binds_view(final(binds)@) == binds_view(old(binds)@) + spec_filter_binds(p),
{
    let ghost sql0 = sql@;
    let ghost binds0 = binds@;
    push_search(sql, binds, p);
    push_technology(sql, binds, p);
    push_user(sql, binds, p);
    push_rating(sql, binds, p);
    push_language(sql, binds, p);
    proof {
        assert(sql@ =~= sql0 + spec_filter_sql(p));
        assert(binds_view(binds@) =~= binds_view(binds0) + spec_filter_binds(p));
    }
}

/// Builds the COUNT statement and its bind values for a listing request.
pub fn build_count_query(p: &ListQueryParams) -> (r: (String, Vec<BindValue>))
    ensures
        r.0@ == spec_count_sql(p),
        binds_view(r.1@) == spec_filter_binds(p),
{
    let mut sql = String::from_str("SELECT COUNT(*) as count FROM projects p WHERE 1=1");
    let mut binds: Vec<BindValue> = Vec::new();
    push_filters(&mut sql, &mut binds, p);
    proof {
        assert(binds_view(Seq::<BindValue>::empty()) =~= Seq::<BindModel>::empty());
        assert(binds_view(binds@) =~= spec_filter_binds(p));
    }
    (sql, binds)
}

/// Builds the SELECT statement and its bind values for a listing request:
/// the same filters as the COUNT, then ordering and pagination.
pub fn build_select_query(p: &ListQueryParams) -> (r: (String, Vec<BindValue>))
    requires
        (spec_page(p) - 1) * spec_page_size(p) <= u32::MAX,
    ensures
        r.0@ == spec_select_sql(p),
        binds_view(r.1@) == spec_select_binds(p),
{
    let mut sql = String::from_str("SELECT p.* FROM projects p WHERE 1=1");
    let mut binds: Vec<BindValue> = Vec::new();
    push_filters(&mut sql, &mut binds, p);
    sql.append(" ORDER BY p.");
    sql.append(p.sort_field());
    sql.append(" ");
    sql.append(p.sort_order());
    sql.append(" LIMIT ? OFFSET ?");
    binds.push(BindValue::Uint(p.page_size()));
    binds.push(BindValue::Uint(p.offset()));
    proof {
        assert(binds_view(Seq::<BindValue>::empty()) =~= Seq::<BindModel>::empty());
        assert(sql@ =~= spec_select_sql(p));
        assert(binds_view(binds@) =~= spec_select_binds(p));
    }
    (sql, binds)
}

} // verus!

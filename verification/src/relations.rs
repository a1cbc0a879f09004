//! The relational-join collapser: a flat LEFT-JOIN row set for one project is
//! reduced to the project's scalar fields plus deduplicated relation lists,
//! each sorted by name ascending with ties kept in first-appearance order.

use vstd::prelude::*;
use vstd::multiset::Multiset;

use crate::error::AppError;
use crate::ids::{spec_uuid_parse, spec_uuid_text, uuid_format, uuid_parse};
use crate::project::{Project, ProjectModel, ProjectWithRelations};
use crate::technology::{TechModel, Technology};
use crate::text::{lemma_lex_le_total, lemma_lex_le_trans, lex_le, str_le};
use crate::user::{spec_role_of, UserRole, UserWithRole, UserWithRoleModel, User};

verus! {

/// One row of the joined result set: the project's scalar columns, repeated
/// on every row, and the technology, user and role columns, null when the
/// LEFT JOIN found no association.
#[derive(Debug)]
pub struct JoinedRow {
    /// Project id as stored (UUID text)
    pub project_id: String,
    pub project_name: String,
    pub project_description: String,
    pub repository_url: String,
    /// Programming language of the project
    pub language: String,
    /// Rating in hundredths (0 ..= 500), null when unrated
    pub rating: Option<u16>,
    pub project_created_at: i64,
    pub project_updated_at: i64,
    /// Technology id as stored (UUID text), when the row carries one
    pub tech_id: Option<String>,
    pub tech_name: Option<String>,
    pub tech_description: Option<String>,
    pub tech_created_at: Option<i64>,
    /// User id as stored (UUID text), when the row carries one
    pub user_id: Option<String>,
    pub user_name: Option<String>,
    pub user_email: Option<String>,
    pub user_created_at: Option<i64>,
    /// Role text of the user's association, when the row carries one
    pub role: Option<String>,
}

/// The views of a technology list, in order.
pub open spec fn techs_view(s: Seq<Technology>) -> Seq<TechModel> {
    s.map_values(|t: Technology| t@)
}

/// The views of a user-with-role list, in order.
pub open spec fn users_view(s: Seq<UserWithRole>) -> Seq<UserWithRoleModel> {
    s.map_values(|u: UserWithRole| u@)
}

/// The technology a row carries, if its id parses and its required columns
/// are non-null.
pub open spec fn spec_row_tech(r: JoinedRow) -> Option<TechModel> {
    match r.tech_id {
        Some(id_str) => match spec_uuid_parse(id_str@) {
            Some(id) => match r.tech_name {
                Some(n) => match r.tech_created_at {
                    Some(c) => Some(
                        TechModel {
                            id,
                            name: n@,
                            description: match r.tech_description {
                                Some(d) => Some(d@),
                                None => None,
                            },
                            created_at: c,
                        },
                    ),
                    None => None,
                },
                None => None,
            },
            None => None,
        },
        None => None,
    }
}

/// The user a row carries, if its id parses, its required columns are
/// non-null, and its role text is a known role; anything else is dropped.
pub open spec fn spec_row_user(r: JoinedRow) -> Option<UserWithRoleModel> {
    match r.user_id {
        Some(id_str) => match spec_uuid_parse(id_str@) {
            Some(id) => match r.user_name {
                Some(n) => match r.user_email {
                    Some(e) => match r.user_created_at {
                        Some(c) => match r.role {
                            Some(role_str) => match spec_role_of(role_str@) {
                                Some(role) => Some(
                                    UserWithRoleModel {
                                        user: crate::user::UserModel {
                                            id,
                                            name: n@,
                                            email: e@,
                                            created_at: c,
                                        },
                                        role,
                                    },
                                ),
                                None => None,
                            },
                            None => None,
                        },
                        None => None,
                    },
                    None => None,
                },
                None => None,
            },
            None => None,
        },
        None => None,
    }
}

/// Whether a technology with this id was already collected.
pub open spec fn spec_has_tech(s: Seq<TechModel>, id: u128) -> bool {
    exists|i: int| 0 <= i < s.len() && s[i].id == id
}

/// Whether a user with this id was already collected.
pub open spec fn spec_has_user(s: Seq<UserWithRoleModel>, id: u128) -> bool {
    exists|i: int| 0 <= i < s.len() && s[i].user.id == id
}

/// The technologies of a row set, deduplicated by id, first occurrence wins,
/// in row order.
pub open spec fn spec_collect_techs(rows: Seq<JoinedRow>) -> Seq<TechModel>
    decreases rows.len(),
{
    if rows.len() == 0 {
        Seq::empty()
    } else {
        let prior = spec_collect_techs(rows.drop_last());
        match spec_row_tech(rows.last()) {
            Some(t) => if spec_has_tech(prior, t.id) {
                prior
            } else {
                prior.push(t)
            },
            None => prior,
        }
    }
}

/// The users of a row set, deduplicated by id, first occurrence wins, in row
/// order.
pub open spec fn spec_collect_users(rows: Seq<JoinedRow>) -> Seq<UserWithRoleModel>
    decreases rows.len(),
{
    if rows.len() == 0 {
        Seq::empty()
    } else {
        let prior = spec_collect_users(rows.drop_last());
        match spec_row_user(rows.last()) {
            Some(u) => if spec_has_user(prior, u.user.id) {
                prior
            } else {
                prior.push(u)
            },
            None => prior,
        }
    }
}

/// Stable insertion by technology name: the new element goes after every
/// element whose name is less than or equal to its own.
pub open spec fn spec_insert_tech(s: Seq<TechModel>, t: TechModel) -> Seq<TechModel>
    decreases s.len(),
{
    if s.len() == 0 {
        seq![t]
    } else if lex_le(s[0].name, t.name) {
        seq![s[0]] + spec_insert_tech(s.skip(1), t)
    } else {
        seq![t] + s
    }
}

/// Stable insertion sort of technologies by name ascending.
pub open spec fn spec_sort_techs(s: Seq<TechModel>) -> Seq<TechModel>
    decreases s.len(),
{
    if s.len() == 0 {
        Seq::empty()
    } else {
        spec_insert_tech(spec_sort_techs(s.drop_last()), s.last())
    }
}

/// Stable insertion by user name.
pub open spec fn spec_insert_user(s: Seq<UserWithRoleModel>, u: UserWithRoleModel) -> Seq<
    UserWithRoleModel,
>
    decreases s.len(),
{
    if s.len() == 0 {
        seq![u]
    } else if lex_le(s[0].user.name, u.user.name) {
        seq![s[0]] + spec_insert_user(s.skip(1), u)
    } else {
        seq![u] + s
    }
}

/// Stable insertion sort of users by name ascending.
pub open spec fn spec_sort_users(s: Seq<UserWithRoleModel>) -> Seq<UserWithRoleModel>
    decreases s.len(),
{
    if s.len() == 0 {
        Seq::empty()
    } else {
        spec_insert_user(spec_sort_users(s.drop_last()), s.last())
    }
}

/// Non-decreasing technology names.
pub open spec fn techs_sorted(s: Seq<TechModel>) -> bool {
    forall|i: int, j: int| 0 <= i < j < s.len() ==> lex_le(s[i].name, s[j].name)
}

/// Non-decreasing user names.
pub open spec fn users_sorted(s: Seq<UserWithRoleModel>) -> bool {
    forall|i: int, j: int| 0 <= i < j < s.len() ==> lex_le(s[i].user.name, s[j].user.name)
}

/// Stable insertion into a sorted technology list keeps it sorted and adds
/// exactly the new element.
proof fn lemma_insert_tech_keeps(s: Seq<TechModel>, t: TechModel)
    requires
        techs_sorted(s),
    ensures
        techs_sorted(spec_insert_tech(s, t)),
        spec_insert_tech(s, t).to_multiset() == s.to_multiset().insert(t),
        spec_insert_tech(s, t).len() == s.len() + 1,
    decreases s.len(),
{
    broadcast use vstd::seq_lib::group_to_multiset_ensures;
    broadcast use vstd::multiset::group_multiset_axioms;

    let r = spec_insert_tech(s, t);
    if s.len() == 0 {
        assert(seq![t] =~= Seq::<TechModel>::empty().push(t));
        assert(s.to_multiset() =~= Multiset::<TechModel>::empty());
        assert(r.to_multiset() =~= s.to_multiset().insert(t));
    } else if lex_le(s[0].name, t.name) {
        let tail = s.skip(1);
        assert(techs_sorted(tail)) by {
            assert(forall|i: int, j: int|
                0 <= i < j < tail.len() ==> lex_le(
                    s[i + 1].name,
                    s[j + 1].name,
                ) && tail[i] == s[i + 1] && tail[j] == s[j + 1]);
        }
        lemma_insert_tech_keeps(tail, t);
        let rt = spec_insert_tech(tail, t);
        assert(r =~= seq![s[0]] + rt);
        assert forall|j: int| 1 <= j < r.len() implies lex_le(r[0].name, r[j].name) by {
            assert(rt.contains(rt[j - 1]));
            assert(rt.to_multiset().count(rt[j - 1]) > 0);
            if rt[j - 1] == t {
                assert(lex_le(s[0].name, t.name));
            } else {
                assert(tail.to_multiset().count(rt[j - 1]) > 0);
                assert(tail.contains(rt[j - 1]));
                let k = choose|k: int| 0 <= k < tail.len() && tail[k] == rt[j - 1];
                assert(lex_le(s[0].name, s[k + 1].name));
            }
        }
        assert(techs_sorted(r)) by {
            assert(forall|i: int, j: int|
                1 <= i < j < r.len() ==> r[i] == rt[i - 1] && r[j] == rt[j - 1] && lex_le(
                    rt[i - 1].name,
                    rt[j - 1].name,
                ));
        }
        vstd::seq_lib::lemma_multiset_commutative(seq![s[0]], rt);
        assert(s =~= seq![s[0]] + tail);
        vstd::seq_lib::lemma_multiset_commutative(seq![s[0]], tail);
        assert(r.to_multiset() =~= s.to_multiset().insert(t));
    } else {
        lemma_lex_le_total(s[0].name, t.name);
        assert(lex_le(t.name, s[0].name));
        assert(r =~= seq![t] + s);
        assert forall|j: int| 1 <= j < r.len() implies lex_le(r[0].name, r[j].name) by {
            if j > 1 {
                lemma_lex_le_trans(t.name, s[0].name, s[j - 1].name);
            }
        }
        vstd::seq_lib::lemma_multiset_commutative(seq![t], s);
        assert(r.to_multiset() =~= s.to_multiset().insert(t));
    }
}

/// Stable insertion into a sorted user list keeps it sorted and adds exactly
/// the new element.
proof fn lemma_insert_user_keeps(s: Seq<UserWithRoleModel>, u: UserWithRoleModel)
    requires
        users_sorted(s),
    ensures
        users_sorted(spec_insert_user(s, u)),
        spec_insert_user(s, u).to_multiset() == s.to_multiset().insert(u),
        spec_insert_user(s, u).len() == s.len() + 1,
    decreases s.len(),
{
    broadcast use vstd::seq_lib::group_to_multiset_ensures;
    broadcast use vstd::multiset::group_multiset_axioms;

    let r = spec_insert_user(s, u);
    if s.len() == 0 {
        assert(seq![u] =~= Seq::<UserWithRoleModel>::empty().push(u));
        assert(s.to_multiset() =~= Multiset::<UserWithRoleModel>::empty());
        assert(r.to_multiset() =~= s.to_multiset().insert(u));
    } else if lex_le(s[0].user.name, u.user.name) {
        let tail = s.skip(1);
        assert(users_sorted(tail)) by {
            assert(forall|i: int, j: int|
                0 <= i < j < tail.len() ==> lex_le(
                    s[i + 1].user.name,
                    s[j + 1].user.name,
                ) && tail[i] == s[i + 1] && tail[j] == s[j + 1]);
        }
        lemma_insert_user_keeps(tail, u);
        let rt = spec_insert_user(tail, u);
        assert(r =~= seq![s[0]] + rt);
        assert forall|j: int| 1 <= j < r.len() implies lex_le(r[0].user.name, r[j].user.name) by {
            assert(rt.contains(rt[j - 1]));
            assert(rt.to_multiset().count(rt[j - 1]) > 0);
            if rt[j - 1] == u {
                assert(lex_le(s[0].user.name, u.user.name));
            } else {
                assert(tail.to_multiset().count(rt[j - 1]) > 0);
                assert(tail.contains(rt[j - 1]));
                let k = choose|k: int| 0 <= k < tail.len() && tail[k] == rt[j - 1];
                assert(lex_le(s[0].user.name, s[k + 1].user.name));
            }
        }
        assert(users_sorted(r)) by {
            assert(forall|i: int, j: int|
                1 <= i < j < r.len() ==> r[i] == rt[i - 1] && r[j] == rt[j - 1] && lex_le(
                    rt[i - 1].user.name,
                    rt[j - 1].user.name,
                ));
        }
        vstd::seq_lib::lemma_multiset_commutative(seq![s[0]], rt);
        assert(s =~= seq![s[0]] + tail);
        vstd::seq_lib::lemma_multiset_commutative(seq![s[0]], tail);
        assert(r.to_multiset() =~= s.to_multiset().insert(u));
    } else {
        lemma_lex_le_total(s[0].user.name, u.user.name);
        assert(lex_le(u.user.name, s[0].user.name));
        assert(r =~= seq![u] + s);
        assert forall|j: int| 1 <= j < r.len() implies lex_le(r[0].user.name, r[j].user.name) by {
            if j > 1 {
                lemma_lex_le_trans(u.user.name, s[0].user.name, s[j - 1].user.name);
            }
        }
        vstd::seq_lib::lemma_multiset_commutative(seq![u], s);
        assert(r.to_multiset() =~= s.to_multiset().insert(u));
    }
}

/// The sorted technology list is sorted by name ascending and holds exactly
/// the collected technologies: whatever order the rows arrived in, the same
/// set leaves in name order.
pub proof fn lemma_sort_techs_properties(s: Seq<TechModel>)
    ensures
        techs_sorted(spec_sort_techs(s)),
        spec_sort_techs(s).to_multiset() == s.to_multiset(),
        spec_sort_techs(s).len() == s.len(),
    decreases s.len(),
{
    broadcast use vstd::seq_lib::group_to_multiset_ensures;

    if s.len() == 0 {
    } else {
        lemma_sort_techs_properties(s.drop_last());
        lemma_insert_tech_keeps(spec_sort_techs(s.drop_last()), s.last());
        assert(s =~= s.drop_last().push(s.last()));
        assert(spec_sort_techs(s).to_multiset() =~= s.to_multiset());
    }
}

/// The sorted user list is sorted by user name ascending and holds exactly
/// the collected users.
pub proof fn lemma_sort_users_properties(s: Seq<UserWithRoleModel>)
    ensures
        users_sorted(spec_sort_users(s)),
        spec_sort_users(s).to_multiset() == s.to_multiset(),
        spec_sort_users(s).len() == s.len(),
    decreases s.len(),
{
    broadcast use vstd::seq_lib::group_to_multiset_ensures;

    if s.len() == 0 {
    } else {
        lemma_sort_users_properties(s.drop_last());
        lemma_insert_user_keeps(spec_sort_users(s.drop_last()), s.last());
        assert(s =~= s.drop_last().push(s.last()));
        assert(spec_sort_users(s).to_multiset() =~= s.to_multiset());
    }
}

/// Reads a row's technology columns into an owned value, exactly when the
/// row carries one.
fn extract_row_tech(row: &JoinedRow) -> (r: Option<Technology>)
    ensures
        match spec_row_tech(*row) {
            Some(m) => r matches Some(t) && t@ == m,
            None => r is None,
        },
{
    match &row.tech_id {
        Some(id_str) => match uuid_parse(id_str.as_str()) {
            Some(id) => match (&row.tech_name, &row.tech_created_at) {
                (Some(n), Some(c)) => Some(
                    Technology {
                        id,
                        name: n.clone(),
                        description: match &row.tech_description {
                            Some(d) => Some(d.clone()),
                            None => None,
                        },
                        created_at: *c,
                    },
                ),
                _ => None,
            },
            None => None,
        },
        None => None,
    }
}

/// Reads a row's user and role columns into an owned value, exactly when the
/// row carries a user whose role text is known.
fn extract_row_user(row: &JoinedRow) -> (r: Option<UserWithRole>)
    ensures
        match spec_row_user(*row) {
            Some(m) => r matches Some(u) && u@ == m,
            None => r is None,
        },
{
    match &row.user_id {
        Some(id_str) => match uuid_parse(id_str.as_str()) {
            Some(id) => match (&row.user_name, &row.user_email, &row.user_created_at, &row.role) {
                (Some(n), Some(e), Some(c), Some(role_str)) => match UserRole::from_str(
                    role_str.as_str(),
                ) {
                    Ok(role) => Some(
                        UserWithRole {
                            user: User {
                                id,
                                name: n.clone(),
                                email: e.clone(),
                                created_at: *c,
                            },
                            role,
                        },
                    ),
                    Err(_) => None,
                },
                _ => None,
            },
            None => None,
        },
        None => None,
    }
}

/// Whether a technology with this id is already in the list.
fn has_tech_id(techs: &Vec<Technology>, id: u128) -> (r: bool)
    ensures
        r == spec_has_tech(techs_view(techs@), id),
{
    let mut i: usize = 0;
    while i < techs.len()
        invariant
            i <= techs@.len(),
            forall|j: int| 0 <= j < i ==> techs@[j].id != id,
        decreases techs@.len() - i,
    {
        if techs[i].id == id {
            assert(techs_view(techs@)[i as int].id == id);
            return true;
        }
        i = i + 1;
    }
    false
}

/// Whether a user with this id is already in the list.
fn has_user_id(users: &Vec<UserWithRole>, id: u128) -> (r: bool)
    ensures
        r == spec_has_user(users_view(users@), id),
{
    let mut i: usize = 0;
    while i < users.len()
        invariant
            i <= users@.len(),
            forall|j: int| 0 <= j < i ==> users@[j].user.id != id,
        decreases users@.len() - i,
    {
        if users[i].user.id == id {
            assert(users_view(users@)[i as int].user.id == id);
            return true;
        }
        i = i + 1;
    }
    false
}

/// A front-to-back scan finds the stable insertion point.
proof fn lemma_insert_tech_shape(s: Seq<TechModel>, t: TechModel, idx: int)
    requires
        0 <= idx <= s.len(),
        forall|j: int| 0 <= j < idx ==> lex_le(s[j].name, t.name),
        idx < s.len() ==> !lex_le(s[idx].name, t.name),
    ensures
        spec_insert_tech(s, t) == s.take(idx).push(t) + s.skip(idx),
    decreases s.len(),
{
    if s.len() == 0 {
        assert(spec_insert_tech(s, t) =~= s.take(idx).push(t) + s.skip(idx));
    } else if idx == 0 {
        assert(spec_insert_tech(s, t) =~= s.take(idx).push(t) + s.skip(idx));
    } else {
        lemma_insert_tech_shape(s.skip(1), t, idx - 1);
        assert(spec_insert_tech(s, t) =~= s.take(idx).push(t) + s.skip(idx));
    }
}

proof fn lemma_insert_user_shape(s: Seq<UserWithRoleModel>, u: UserWithRoleModel, idx: int)
    requires
        0 <= idx <= s.len(),
        forall|j: int| 0 <= j < idx ==> lex_le(s[j].user.name, u.user.name),
        idx < s.len() ==> !lex_le(s[idx].user.name, u.user.name),
    ensures
        spec_insert_user(s, u) == s.take(idx).push(u) + s.skip(idx),
    decreases s.len(),
{
    if s.len() == 0 {
        assert(spec_insert_user(s, u) =~= s.take(idx).push(u) + s.skip(idx));
    } else if idx == 0 {
        assert(spec_insert_user(s, u) =~= s.take(idx).push(u) + s.skip(idx));
    } else {
        lemma_insert_user_shape(s.skip(1), u, idx - 1);
        assert(spec_insert_user(s, u) =~= s.take(idx).push(u) + s.skip(idx));
    }
}

/// Inserts a technology at its stable sorted position by name.
fn insert_tech_sorted(techs: &mut Vec<Technology>, t: Technology)
    ensures
        techs_view(final(techs)@) == spec_insert_tech(techs_view(old(techs)@), t@),
{
    let mut idx: usize = 0;
    while idx < techs.len() && str_le(techs[idx].name.as_str(), t.name.as_str())
        invariant
            idx <= techs@.len(),
            forall|j: int| 0 <= j < idx ==> lex_le(techs_view(techs@)[j].name, t@.name),
        decreases techs@.len() - idx,
    {
        idx = idx + 1;
    }
    proof {
        lemma_insert_tech_shape(techs_view(techs@), t@, idx as int);
    }
    let ghost before = techs@;
    techs.insert(idx, t);
    proof {
        assert(techs_view(techs@) =~= techs_view(before).take(idx as int).push(t@) + techs_view(
            before,
        ).skip(idx as int));
    }
}

/// Inserts a user at its stable sorted position by user name.
fn insert_user_sorted(users: &mut Vec<UserWithRole>, u: UserWithRole)
    ensures
        users_view(final(users)@) == spec_insert_user(users_view(old(users)@), u@),
{
    let mut idx: usize = 0;
    while idx < users.len() && str_le(users[idx].user.name.as_str(), u.user.name.as_str())
        invariant
            idx <= users@.len(),
            forall|j: int| 0 <= j < idx ==> lex_le(users_view(users@)[j].user.name, u@.user.name),
        decreases users@.len() - idx,
    {
        idx = idx + 1;
    }
    proof {
        lemma_insert_user_shape(users_view(users@), u@, idx as int);
    }
    let ghost before = users@;
    users.insert(idx, u);
    proof {
        assert(users_view(users@) =~= users_view(before).take(idx as int).push(u@) + users_view(
            before,
        ).skip(idx as int));
    }
}

/// Sorts technologies by name ascending, stably.
fn sort_techs(techs: Vec<Technology>) -> (r: Vec<Technology>)
    ensures
        techs_view(r@) == spec_sort_techs(techs_view(techs@)),
{
    let mut out: Vec<Technology> = Vec::new();
    let mut i: usize = 0;
    while i < techs.len()
        invariant
            i <= techs@.len(),
            techs_view(out@) == spec_sort_techs(techs_view(techs@).take(i as int)),
        decreases techs@.len() - i,
    {
        let t = techs[i].clone();
        insert_tech_sorted(&mut out, t);
        proof {
            assert(techs_view(techs@).take(i + 1).drop_last() =~= techs_view(techs@).take(i as int));
            assert(techs_view(techs@).take(i + 1).last() == techs_view(techs@)[i as int]);
        }
        i = i + 1;
    }
    proof {
        assert(techs_view(techs@).take(techs@.len() as int) =~= techs_view(techs@));
    }
    out
}

/// Sorts users by user name ascending, stably.
fn sort_users(users: Vec<UserWithRole>) -> (r: Vec<UserWithRole>)
    ensures
        users_view(r@) == spec_sort_users(users_view(users@)),
{
    let mut out: Vec<UserWithRole> = Vec::new();
    let mut i: usize = 0;
    while i < users.len()
        invariant
            i <= users@.len(),
            users_view(out@) == spec_sort_users(users_view(users@).take(i as int)),
        decreases users@.len() - i,
    {
        let u = users[i].clone();
        insert_user_sorted(&mut out, u);
        proof {
            assert(users_view(users@).take(i + 1).drop_last() =~= users_view(users@).take(i as int));
            assert(users_view(users@).take(i + 1).last() == users_view(users@)[i as int]);
        }
        i = i + 1;
    }
    proof {
        assert(users_view(users@).take(users@.len() as int) =~= users_view(users@));
    }
    out
}

/// Collapses the joined rows of one project: no rows means the project does
/// not exist; otherwise the scalar fields come from the first row, and the
/// relation lists are deduplicated by id (first occurrence wins) and sorted
/// by name ascending, ties in first-appearance order. A row whose role text
/// is unknown contributes no user.
pub fn collapse_project_rows(id: u128, rows: Vec<JoinedRow>) -> (r: Result<
    ProjectWithRelations,
    AppError,
>)
    ensures
        rows@.len() == 0 ==> (r matches Err(e) && e matches AppError::ProjectNotFound(m) && m@
            == spec_uuid_text(id)),
        rows@.len() > 0 ==> (match spec_uuid_parse(rows@[0].project_id@) {
            Some(pid) => r matches Ok(pwr) && pwr.project@ == (ProjectModel {
                id: pid,
                name: rows@[0].project_name@,
                description: rows@[0].project_description@,
                repository_url: rows@[0].repository_url@,
                language: rows@[0].language@,
                rating: rows@[0].rating,
                created_at: rows@[0].project_created_at,
                updated_at: rows@[0].project_updated_at,
            }) && techs_view(pwr.technologies@) == spec_sort_techs(spec_collect_techs(rows@))
                && users_view(pwr.users@) == spec_sort_users(spec_collect_users(rows@))
                && techs_sorted(techs_view(pwr.technologies@)) && users_sorted(
                users_view(pwr.users@),
            ) && techs_view(pwr.technologies@).to_multiset() == spec_collect_techs(
                rows@,
            ).to_multiset() && users_view(pwr.users@).to_multiset() == spec_collect_users(
                rows@,
            ).to_multiset(),
            None => r matches Err(e) && e matches AppError::InternalError(_),
        }),
{
    if rows.len() == 0 {
        return Err(AppError::ProjectNotFound(uuid_format(id)));
    }
    let first = &rows[0];
    let pid = match uuid_parse(first.project_id.as_str()) {
        Some(p) => p,
        None => {
            let mut m = String::from_str("Invalid project UUID: ");
            m.append(first.project_id.as_str());
            return Err(AppError::InternalError(m));
        },
    };
    let project = Project {
        id: pid,
        name: first.project_name.clone(),
        description: first.project_description.clone(),
        repository_url: first.repository_url.clone(),
        language: first.language.clone(),
        rating: first.rating,
        created_at: first.project_created_at,
        updated_at: first.project_updated_at,
    };
    let mut techs: Vec<Technology> = Vec::new();
    let mut users: Vec<UserWithRole> = Vec::new();
    let mut i: usize = 0;
    while i < rows.len()
        invariant
            i <= rows@.len(),
            techs_view(techs@) == spec_collect_techs(rows@.take(i as int)),
            users_view(users@) == spec_collect_users(rows@.take(i as int)),
        decreases rows@.len() - i,
    {
        proof {
            assert(rows@.take(i + 1).drop_last() =~= rows@.take(i as int));
            assert(rows@.take(i + 1).last() == rows@[i as int]);
        }
        match extract_row_tech(&rows[i]) {
            Some(t) => {
                if !has_tech_id(&techs, t.id) {
                    let ghost prior = techs_view(techs@);
                    techs.push(t);
                    proof {
                        assert(techs_view(techs@) =~= prior.push(t@));
                    }
                }
            },
            None => {},
        }
        match extract_row_user(&rows[i]) {
            Some(u) => {
                if !has_user_id(&users, u.user.id) {
                    let ghost prior = users_view(users@);
                    users.push(u);
                    proof {
                        assert(users_view(users@) =~= prior.push(u@));
                    }
                }
            },
            None => {},
        }
        i = i + 1;
    }
    proof {
        assert(rows@.take(rows@.len() as int) =~= rows@);
        lemma_sort_techs_properties(spec_collect_techs(rows@));
        lemma_sort_users_properties(spec_collect_users(rows@));
    }
    let technologies = sort_techs(techs);
    let users = sort_users(users);
    Ok(ProjectWithRelations { project, technologies, users })
}

} // verus!

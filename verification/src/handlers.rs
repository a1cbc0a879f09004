//! The decision cores of the request handlers: everything each endpoint
//! decides between its store round-trips, as functions from plain values to
//! plain values. The store answers (existence probes, row counts, row sets)
//! come in as arguments; the store calls themselves live with the I/O layer.

use vstd::prelude::*;

use crate::error::AppError;
use crate::ids::{spec_uuid_text, uuid_format};
use crate::technology::CreateTechnologyRequest;
use crate::user::{CreateUserRequest, UserRole};

verus! {

/// Health check response body.
#[derive(Debug, Clone)]
pub struct HealthResponse {
    /// Status message
    pub status: String,
}

/// The liveness answer: always OK.
pub fn health_check() -> (r: HealthResponse)
    ensures
        r.status@ == "OK"@,
{
    HealthResponse { status: String::from_str("OK") }
}

/// The first id whose existence probe came back negative, scanning in input
/// order.
pub open spec fn spec_first_missing(ids: Seq<u128>, exists: Seq<bool>) -> Option<u128>
    decreases ids.len(),
{
    if ids.len() == 0 {
        None
    } else if !exists[0] {
        Some(ids[0])
    } else {
        spec_first_missing(ids.skip(1), exists.skip(1))
    }
}

/// Scans paired ids and existence answers for the first missing id.
pub fn first_missing_id(ids: &Vec<u128>, exists: &Vec<bool>) -> (r: Option<u128>)
    requires
        ids@.len() == exists@.len(),
    ensures
        r == spec_first_missing(ids@, exists@),
{
    let mut i: usize = 0;
    proof {
        assert(ids@.skip(0) =~= ids@);
        assert(exists@.skip(0) =~= exists@);
    }
    while i < ids.len()
        invariant
            i <= ids@.len(),
            ids@.len() == exists@.len(),
            spec_first_missing(ids@, exists@) == spec_first_missing(
                ids@.skip(i as int),
                exists@.skip(i as int),
            ),
        decreases ids@.len() - i,
    {
        if !exists[i] {
            return Some(ids[i]);
        }
        proof {
            assert(ids@.skip(i as int).skip(1) =~= ids@.skip(i as int + 1));
            assert(exists@.skip(i as int).skip(1) =~= exists@.skip(i as int + 1));
        }
        i = i + 1;
    }
    None
}

/// The referenced technology id that fails its existence check, if any:
/// technologies are checked before users.
pub open spec fn spec_missing_tech(
    tech_ids: Option<Vec<u128>>,
    tech_exists: Seq<bool>,
) -> Option<u128> {
    match tech_ids {
        Some(ids) => spec_first_missing(ids@, tech_exists),
        None => None,
    }
}

/// The referenced user id that fails its existence check, if any.
pub open spec fn spec_missing_user(
    user_ids: Option<Vec<u128>>,
    user_exists: Seq<bool>,
) -> Option<u128> {
    match user_ids {
        Some(ids) => spec_first_missing(ids@, user_exists),
        None => None,
    }
}

/// Confirms every referenced id before any write: the first missing
/// technology id aborts naming it, then the first missing user id.
pub fn check_project_references(
    tech_ids: &Option<Vec<u128>>,
    tech_exists: &Vec<bool>,
    user_ids: &Option<Vec<u128>>,
    user_exists: &Vec<bool>,
) -> (r: Result<(), AppError>)
    requires
        (match tech_ids {
            Some(ids) => ids@.len() == tech_exists@.len(),
            None => true,
        }),
        (match user_ids {
            Some(ids) => ids@.len() == user_exists@.len(),
            None => true,
        }),
    ensures
        match spec_missing_tech(*tech_ids, tech_exists@) {
            Some(missing) => r matches Err(e) && e matches AppError::TechnologyNotFound(m) && m@
                == spec_uuid_text(missing),
            None => match spec_missing_user(*user_ids, user_exists@) {
                Some(missing) => r matches Err(e) && e matches AppError::UserNotFound(m) && m@
                    == spec_uuid_text(missing),
                None => r is Ok,
            },
        },
{
    if let Some(ids) = tech_ids {
        match first_missing_id(ids, tech_exists) {
            Some(missing) => {
                return Err(AppError::TechnologyNotFound(uuid_format(missing)));
            },
            None => {},
        }
    }
    if let Some(ids) = user_ids {
        match first_missing_id(ids, user_exists) {
            Some(missing) => {
                return Err(AppError::UserNotFound(uuid_format(missing)));
            },
            None => {},
        }
    }
    Ok(())
}

/// Pairs each supplied user id with its role: the first listed user becomes
/// owner, all others contributors.
pub fn assign_roles(user_ids: &Vec<u128>) -> (r: Vec<(u128, UserRole)>)
    ensures
        r@.len() == user_ids@.len(),
        forall|i: int| 0 <= i < r@.len() ==> r@[i].0 == user_ids@[i],
        forall|i: int|
            0 <= i < r@.len() ==> r@[i].1 == (if i == 0 {
                UserRole::Owner
            } else {
                UserRole::Contributor
            }),
{
    let mut r: Vec<(u128, UserRole)> = Vec::new();
    let mut i: usize = 0;
    while i < user_ids.len()
        invariant
            i <= user_ids@.len(),
            r@.len() == i,
            forall|j: int| 0 <= j < i ==> r@[j].0 == user_ids@[j],
            forall|j: int|
                0 <= j < i ==> r@[j].1 == (if j == 0 {
                    UserRole::Owner
                } else {
                    UserRole::Contributor
                }),
        decreases user_ids@.len() - i,
    {
        let role = if i == 0 {
            UserRole::Owner
        } else {
            UserRole::Contributor
        };
        r.push((user_ids[i], role));
        i = i + 1;
    }
    r
}

/// The association list after an update: a supplied list, even an empty one,
/// replaces the current associations wholesale; an absent field leaves them
/// untouched.
pub fn replace_associations(current: Vec<u128>, supplied: Option<Vec<u128>>) -> (r: Vec<u128>)
    ensures
        match supplied {
            Some(l) => r == l,
            None => r == current,
        },
{
    match supplied {
        Some(l) => l,
        None => current,
    }
}

/// The outcome of a delete: zero rows affected means the project was never
/// there.
pub fn delete_project_outcome(id: u128, rows_affected: u64) -> (r: Result<(), AppError>)
    ensures
        rows_affected == 0 ==> (r matches Err(e) && e matches AppError::ProjectNotFound(m) && m@
            == spec_uuid_text(id)),
        rows_affected > 0 ==> r is Ok,
{
    if rows_affected == 0 {
        Err(AppError::ProjectNotFound(uuid_format(id)))
    } else {
        Ok(())
    }
}

/// Decides a technology creation: the payload must pass validation and the
/// name must not already be taken (the store's uniqueness constraint remains
/// the backstop for races).
pub fn plan_create_technology(request: &CreateTechnologyRequest, name_taken: bool) -> (r: Result<
    (),
    AppError,
>)
    ensures
        !request.spec_valid() ==> (r matches Err(e) && e matches AppError::ValidationError(_)),
        request.spec_valid() && name_taken ==> (r matches Err(e) && e
            matches AppError::DuplicateResource(m) && m@ == "Technology with name '"@
            + request.name@ + "' already exists"@),
        request.spec_valid() && !name_taken ==> r is Ok,
{
    match request.validate() {
        Err(e) => {
            return Err(e);
        },
        Ok(()) => {},
    }
    if name_taken {
        let mut m = String::from_str("Technology with name '");
        m.append(request.name.as_str());
        m.append("' already exists");
        return Err(AppError::DuplicateResource(m));
    }
    Ok(())
}

/// Decides a user creation: the payload must pass validation and the e-mail
/// must not already be taken (the store's uniqueness constraint remains the
/// backstop for races).
pub fn plan_create_user(request: &CreateUserRequest, email_taken: bool) -> (r: Result<
    (),
    AppError,
>)
    ensures
        !request.spec_valid() ==> (r matches Err(e) && e matches AppError::ValidationError(_)),
        request.spec_valid() && email_taken ==> (r matches Err(e) && e
            matches AppError::DuplicateResource(m) && m@ == "User with email '"@ + request.email@
            + "' already exists"@),
        request.spec_valid() && !email_taken ==> r is Ok,
{
    match request.validate() {
        Err(e) => {
            return Err(e);
        },
        Ok(()) => {},
    }
    if email_taken {
        let mut m = String::from_str("User with email '");
        m.append(request.email.as_str());
        m.append("' already exists");
        return Err(AppError::DuplicateResource(m));
    }
    Ok(())
}

} // verus!

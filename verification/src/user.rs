//! Users and the roles they hold on a project.

use vstd::prelude::*;

use crate::error::AppError;
use crate::ids::uuid_new_v4;
use crate::text::str_eq;
use crate::time::now_nanos;
use crate::validate::{email_ok, spec_email_ok};

verus! {

/// A user of the system.
#[derive(Debug)]
pub struct User {
    /// Unique identifier for the user
    pub id: u128,
    /// Name of the user
    pub name: String,
    /// Email address (unique)
    pub email: String,
    /// Creation time, nanoseconds since the Unix epoch
    pub created_at: i64,
}

/// The mathematical shape of a user.
pub struct UserModel {
    pub id: u128,
    pub name: Seq<char>,
    pub email: Seq<char>,
    pub created_at: i64,
}

impl View for User {
    type V = UserModel;

    open spec fn view(&self) -> UserModel {
        UserModel { id: self.id, name: self.name@, email: self.email@, created_at: self.created_at }
    }
}

impl Clone for User {
    fn clone(&self) -> (res: Self)
        ensures
            res@ == self@,
    {
        User {
            id: self.id,
            name: self.name.clone(),
            email: self.email.clone(),
            created_at: self.created_at,
        }
    }
}

impl User {
    /// Creates a new User from a CreateUserRequest, drawing a fresh id and
    /// stamping the current time.
    pub fn new(request: CreateUserRequest) -> (user: Self)
        ensures
            user.name == request.name,
            user.email == request.email,
    {
        Self { id: uuid_new_v4(), name: request.name, email: request.email, created_at: now_nanos() }
    }
}

/// Request payload for creating a new user.
#[derive(Debug, Clone)]
pub struct CreateUserRequest {
    /// Name of the user
    pub name: String,
    /// Email address (must be unique)
    pub email: String,
}

impl CreateUserRequest {
    /// The payload rules: name between 1 and 255 characters, e-mail
    /// well-formed.
    pub open spec fn spec_valid(&self) -> bool {
        &&& 1 <= self.name@.len() <= 255
        &&& spec_email_ok(self.email@)
    }

    /// Checks the payload rules; an error exactly when one fails.
    pub fn validate(&self) -> (r: Result<(), AppError>)
        ensures
            r is Ok <==> self.spec_valid(),
            r matches Err(e) ==> e matches AppError::ValidationError(_),
    {
        let name_len = self.name.as_str().unicode_len();
        if name_len < 1 || name_len > 255 {
            return Err(
                AppError::ValidationError(
                    String::from_str("Name must be between 1 and 255 characters"),
                ),
            );
        }
        if !email_ok(self.email.as_str()) {
            return Err(
                AppError::ValidationError(String::from_str("Email must be a valid email address")),
            );
        }
        Ok(())
    }
}

/// A user's role on a project.
#[derive(Debug, Clone, Copy, PartialEq, Eq, Structural)]
pub enum UserRole {
    Owner,
    Contributor,
    Viewer,
}

/// The stored text of each role.
pub open spec fn spec_role_text(role: UserRole) -> Seq<char> {
    match role {
        UserRole::Owner => "owner"@,
        UserRole::Contributor => "contributor"@,
        UserRole::Viewer => "viewer"@,
    }
}

/// The role a stored string denotes, if any.
pub open spec fn spec_role_of(s: Seq<char>) -> Option<UserRole> {
    if s == "owner"@ {
        Some(UserRole::Owner)
    } else if s == "contributor"@ {
        Some(UserRole::Contributor)
    } else if s == "viewer"@ {
        Some(UserRole::Viewer)
    } else {
        None
    }
}

impl UserRole {
    /// The text this role is stored under.
    pub fn as_str(&self) -> (r: &'static str)
        ensures
            r@ == spec_role_text(*self),
    {
        match self {
            UserRole::Owner => "owner",
            UserRole::Contributor => "contributor",
            UserRole::Viewer => "viewer",
        }
    }

    /// Parses a stored role string; unknown text is an error carrying it.
    pub fn from_str(s: &str) -> (r: Result<UserRole, String>)
        ensures
            match spec_role_of(s@) {
                Some(role) => r matches Ok(got) && got == role,
                None => r matches Err(m) && m@ == "Invalid user role: "@ + s@,
            },
    {
        if str_eq(s, "owner") {
            Ok(UserRole::Owner)
        } else if str_eq(s, "contributor") {
            Ok(UserRole::Contributor)
        } else if str_eq(s, "viewer") {
            Ok(UserRole::Viewer)
        } else {
            let mut m = String::from_str("Invalid user role: ");
            m.append(s);
            Err(m)
        }
    }
}

/// A user together with the role they hold on one project.
#[derive(Debug)]
pub struct UserWithRole {
    /// User information
    pub user: User,
    /// Role in the project
    pub role: UserRole,
}

/// The mathematical shape of a user with a role.
pub struct UserWithRoleModel {
    pub user: UserModel,
    pub role: UserRole,
}

impl View for UserWithRole {
    type V = UserWithRoleModel;

    open spec fn view(&self) -> UserWithRoleModel {
        UserWithRoleModel { user: self.user@, role: self.role }
    }
}

impl Clone for UserWithRole {
    fn clone(&self) -> (res: Self)
        ensures
            res@ == self@,
    {
        UserWithRole { user: self.user.clone(), role: self.role }
    }
}

} // verus!

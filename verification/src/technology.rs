//! Technologies: globally unique by name, optionally described.

use vstd::prelude::*;

use crate::error::AppError;
use crate::ids::uuid_new_v4;
use crate::time::now_nanos;

verus! {

/// A technology that projects can be associated with.
#[derive(Debug)]
pub struct Technology {
    /// Unique identifier for the technology
    pub id: u128,
    /// Name of the technology (unique)
    pub name: String,
    /// Optional description of the technology
    pub description: Option<String>,
    /// Creation time, nanoseconds since the Unix epoch
    pub created_at: i64,
}

/// The mathematical shape of a technology.
pub struct TechModel {
    pub id: u128,
    pub name: Seq<char>,
    pub description: Option<Seq<char>>,
    pub created_at: i64,
}

impl View for Technology {
    type V = TechModel;

    open spec fn view(&self) -> TechModel {
        TechModel {
            id: self.id,
            name: self.name@,
            description: match self.description {
                Some(d) => Some(d@),
                None => None,
            },
            created_at: self.created_at,
        }
    }
}

impl Clone for Technology {
    fn clone(&self) -> (res: Self)
        ensures
            res@ == self@,
    {
        Technology {
            id: self.id,
            name: self.name.clone(),
            description: match &self.description {
                Some(d) => Some(d.clone()),
                None => None,
            },
            created_at: self.created_at,
        }
    }
}

impl Technology {
    /// Creates a new Technology from a CreateTechnologyRequest, drawing a
    /// fresh id and stamping the current time.
    pub fn new(request: CreateTechnologyRequest) -> (tech: Self)
        ensures
            tech.name == request.name,
            tech.description == request.description,
    {
        Self {
            id: uuid_new_v4(),
            name: request.name,
            description: request.description,
            created_at: now_nanos(),
        }
    }
}

/// Request payload for creating a new technology.
#[derive(Debug, Clone)]
pub struct CreateTechnologyRequest {
    /// Name of the technology (must be unique)
    pub name: String,
    /// Optional description
    pub description: Option<String>,
}

impl CreateTechnologyRequest {
    /// The payload rules: name between 1 and 100 characters, description at
    /// most 500.
    pub open spec fn spec_valid(&self) -> bool {
        &&& 1 <= self.name@.len() <= 100
        &&& match self.description {
            Some(d) => d@.len() <= 500,
            None => true,
        }
    }

    /// Checks the payload rules; an error exactly when one fails.
    pub fn validate(&self) -> (r: Result<(), AppError>)
        ensures
            r is Ok <==> self.spec_valid(),
            r matches Err(e) ==> e matches AppError::ValidationError(_),
    {
        let name_len = self.name.as_str().unicode_len();
        if name_len < 1 || name_len > 100 {
            return Err(
                AppError::ValidationError(
                    String::from_str("Name must be between 1 and 100 characters"),
                ),
            );
        }
        match &self.description {
            Some(d) => {
                if d.as_str().unicode_len() > 500 {
                    return Err(
                        AppError::ValidationError(
                            String::from_str("Description must be at most 500 characters"),
                        ),
                    );
                }
            },
            None => {},
        }
        Ok(())
    }
}

} // verus!

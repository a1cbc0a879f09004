//! Projects: the central entity, its request payloads, and partial updates.

use vstd::prelude::*;

use crate::error::AppError;
use crate::ids::uuid_new_v4;
use crate::technology::Technology;
use crate::time::now_nanos;
use crate::user::UserWithRole;
use crate::validate::{spec_url_ok, url_ok};

verus! {

/// A code project.
#[derive(Debug)]
pub struct Project {
    /// Unique identifier for the project
    pub id: u128,
    /// Name of the project
    pub name: String,
    /// Detailed description of the project
    pub description: String,
    /// URL to the source code repository
    pub repository_url: String,
    /// Programming language used in the project
    pub language: String,
    /// Project rating in hundredths: 0 ..= 500 stands for the 0.0 ..= 5.0 scale
    pub rating: Option<u16>,
    /// Creation time, nanoseconds since the Unix epoch
    pub created_at: i64,
    /// Last mutation time, nanoseconds since the Unix epoch
    pub updated_at: i64,
}

/// The mathematical shape of a project.
pub struct ProjectModel {
    pub id: u128,
    pub name: Seq<char>,
    pub description: Seq<char>,
    pub repository_url: Seq<char>,
    pub language: Seq<char>,
    pub rating: Option<u16>,
    pub created_at: i64,
    pub updated_at: i64,
}

impl View for Project {
    type V = ProjectModel;

    open spec fn view(&self) -> ProjectModel {
        ProjectModel {
            id: self.id,
            name: self.name@,
            description: self.description@,
            repository_url: self.repository_url@,
            language: self.language@,
            rating: self.rating,
            created_at: self.created_at,
            updated_at: self.updated_at,
        }
    }
}

impl Clone for Project {
    fn clone(&self) -> (res: Self)
        ensures
            res@ == self@,
    {
        Project {
            id: self.id,
            name: self.name.clone(),
            description: self.description.clone(),
            repository_url: self.repository_url.clone(),
            language: self.language.clone(),
            rating: self.rating,
            created_at: self.created_at,
            updated_at: self.updated_at,
        }
    }
}

impl Project {
    /// Creates a new Project from a CreateProjectRequest, drawing a fresh id
    /// and stamping the current time on both timestamps.
    pub fn new(request: CreateProjectRequest) -> (project: Self)
        ensures
            project.name == request.name,
            project.description == request.description,
            project.repository_url == request.repository_url,
            project.language == request.language,
            project.rating == request.rating,
            project.created_at == project.updated_at,
    {
        let now = now_nanos();
        Self {
            id: uuid_new_v4(),
            name: request.name,
            description: request.description,
            repository_url: request.repository_url,
            language: request.language,
            rating: request.rating,
            created_at: now,
            updated_at: now,
        }
    }

    /// Applies a partial update: fields present in the payload overwrite,
    /// absent fields keep their prior value, and `updated_at` becomes `now`.
    /// A present rating always overwrites.
    pub fn apply_update(&mut self, update: UpdateProjectRequest, now: i64)
        ensures
            final(self).name == (match update.name {
                Some(n) => n,
                None => old(self).name,
            }),
            final(self).description == (match update.description {
                Some(d) => d,
                None => old(self).description,
            }),
            final(self).repository_url == (match update.repository_url {
                Some(u) => u,
                None => old(self).repository_url,
            }),
            final(self).language == (match update.language {
                Some(l) => l,
                None => old(self).language,
            }),
            final(self).rating == (if update.rating is Some {
                update.rating
            } else {
                old(self).rating
            }),
            final(self).id == old(self).id,
            final(self).created_at == old(self).created_at,
            final(self).updated_at == now,
    {
        if let Some(name) = update.name {
            self.name = name;
        }
        if let Some(description) = update.description {
            self.description = description;
        }
        if let Some(repository_url) = update.repository_url {
            self.repository_url = repository_url;
        }
        if let Some(language) = update.language {
            self.language = language;
        }
        if update.rating.is_some() {
            self.rating = update.rating;
        }
        self.updated_at = now;
    }

    /// Updates the project with new data, stamping `updated_at` with the
    /// current time.
    pub fn update(&mut self, update: UpdateProjectRequest)
        ensures
            final(self).name == (match update.name {
                Some(n) => n,
                None => old(self).name,
            }),
            final(self).description == (match update.description {
                Some(d) => d,
                None => old(self).description,
            }),
            final(self).repository_url == (match update.repository_url {
                Some(u) => u,
                None => old(self).repository_url,
            }),
            final(self).language == (match update.language {
                Some(l) => l,
                None => old(self).language,
            }),
            final(self).rating == (if update.rating is Some {
                update.rating
            } else {
                old(self).rating
            }),
            final(self).id == old(self).id,
            final(self).created_at == old(self).created_at,
    {
        let now = now_nanos();
        self.apply_update(update, now);
    }
}

/// Request payload for creating a new project.
#[derive(Debug, Clone)]
pub struct CreateProjectRequest {
    /// Name of the project
    pub name: String,
    /// Description of the project
    pub description: String,
    /// Repository URL
    pub repository_url: String,
    /// Programming language
    pub language: String,
    /// Optional rating in hundredths (0 ..= 500)
    pub rating: Option<u16>,
    /// Optional technology ids to associate with the project
    pub technology_ids: Option<Vec<u128>>,
    /// Optional user ids to associate with the project
    pub user_ids: Option<Vec<u128>>,
}

impl CreateProjectRequest {
    /// The payload rules: name 1-255 characters, description 1-2000,
    /// repository URL well-formed, language 1-100, rating at most 5.0.
    pub open spec fn spec_valid(&self) -> bool {
        &&& 1 <= self.name@.len() <= 255
        &&& 1 <= self.description@.len() <= 2000
        &&& spec_url_ok(self.repository_url@)
        &&& 1 <= self.language@.len() <= 100
        &&& match self.rating {
            Some(r) => r <= 500,
            None => true,
        }
    }

    /// Checks the payload rules; an error exactly when one fails.
    pub fn validate(&self) -> (r: Result<(), AppError>)
        ensures
            r is Ok <==> self.spec_valid(),
            r matches Err(e) ==> e matches AppError::ValidationError(_),
    {
        let name_len = self.name.as_str().unicode_len();
        if name_len < 1 || name_len > 255 {
            return Err(
                AppError::ValidationError(
                    String::from_str("Name must be between 1 and 255 characters"),
                ),
            );
        }
        let description_len = self.description.as_str().unicode_len();
        if description_len < 1 || description_len > 2000 {
            return Err(
                AppError::ValidationError(
                    String::from_str("Description must be between 1 and 2000 characters"),
                ),
            );
        }
        if !url_ok(self.repository_url.as_str()) {
            return Err(
                AppError::ValidationError(String::from_str("Repository URL must be a valid URL")),
            );
        }
        let language_len = self.language.as_str().unicode_len();
        if language_len < 1 || language_len > 100 {
            return Err(
                AppError::ValidationError(
                    String::from_str("Language must be between 1 and 100 characters"),
                ),
            );
        }
        match self.rating {
            Some(r) => {
                if r > 500 {
                    return Err(
                        AppError::ValidationError(
                            String::from_str("Rating must be between 0.0 and 5.0"),
                        ),
                    );
                }
            },
            None => {},
        }
        Ok(())
    }
}

/// Request payload for updating an existing project; every field optional.
#[derive(Debug, Clone)]
pub struct UpdateProjectRequest {
    /// Optional new name for the project
    pub name: Option<String>,
    /// Optional new description
    pub description: Option<String>,
    /// Optional new repository URL
    pub repository_url: Option<String>,
    /// Optional new language
    pub language: Option<String>,
    /// Optional new rating in hundredths (0 ..= 500)
    pub rating: Option<u16>,
    /// Optional technology ids replacing every existing association
    pub technology_ids: Option<Vec<u128>>,
    /// Optional user ids replacing every existing association
    pub user_ids: Option<Vec<u128>>,
}

impl UpdateProjectRequest {
    /// The payload rules, applied to each field that is present.
    pub open spec fn spec_valid(&self) -> bool {
        &&& match self.name {
            Some(n) => 1 <= n@.len() <= 255,
            None => true,
        }
        &&& match self.description {
            Some(d) => 1 <= d@.len() <= 2000,
            None => true,
        }
        &&& match self.repository_url {
            Some(u) => spec_url_ok(u@),
            None => true,
        }
        &&& match self.language {
            Some(l) => 1 <= l@.len() <= 100,
            None => true,
        }
        &&& match self.rating {
            Some(r) => r <= 500,
            None => true,
        }
    }

    /// Checks the payload rules; an error exactly when one fails.
    pub fn validate(&self) -> (r: Result<(), AppError>)
        ensures
            r is Ok <==> self.spec_valid(),
            r matches Err(e) ==> e matches AppError::ValidationError(_),
    {
        if let Some(n) = &self.name {
            let len = n.as_str().unicode_len();
            if len < 1 || len > 255 {
                return Err(
                    AppError::ValidationError(
                        String::from_str("Name must be between 1 and 255 characters"),
                    ),
                );
            }
        }
        if let Some(d) = &self.description {
            let len = d.as_str().unicode_len();
            if len < 1 || len > 2000 {
                return Err(
                    AppError::ValidationError(
                        String::from_str("Description must be between 1 and 2000 characters"),
                    ),
                );
            }
        }
        if let Some(u) = &self.repository_url {
            if !url_ok(u.as_str()) {
                return Err(
                    AppError::ValidationError(
                        String::from_str("Repository URL must be a valid URL"),
                    ),
                );
            }
        }
        if let Some(l) = &self.language {
            let len = l.as_str().unicode_len();
            if len < 1 || len > 100 {
                return Err(
                    AppError::ValidationError(
                        String::from_str("Language must be between 1 and 100 characters"),
                    ),
                );
            }
        }
        if let Some(r) = self.rating {
            if r > 500 {
                return Err(
                    AppError::ValidationError(
                        String::from_str("Rating must be between 0.0 and 5.0"),
                    ),
                );
            }
        }
        Ok(())
    }
}

/// A project composed with its resolved relation lists: a read-model, never
/// persisted.
#[derive(Debug, Clone)]
pub struct ProjectWithRelations {
    /// Project base information
    pub project: Project,
    /// Associated technologies, sorted by name ascending
    pub technologies: Vec<Technology>,
    /// Associated users with their roles, sorted by user name ascending
    pub users: Vec<UserWithRole>,
}

} // verus!

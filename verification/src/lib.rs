//! A verified core for a project-tracking service: entities for projects,
//! technologies and users, request validation, a filter/sort/paginate query
//! builder, a relational join collapser, and a sliding-window rate limiter.

pub mod error;
pub mod handlers;
pub mod ids;
pub mod pagination;
pub mod project;
pub mod query;
pub mod rate_limit;
pub mod relations;
pub mod technology;
pub mod text;
mod time;
pub mod user;
pub mod validate;

pub use error::{AppError, ErrorResponse};
pub use handlers::{assign_roles, check_project_references, delete_project_outcome,
    first_missing_id, health_check, plan_create_technology, plan_create_user,
    replace_associations, HealthResponse};
pub use ids::ValidatedUuid;
pub use pagination::{ListQueryParams, PaginatedResponse, PaginationMetadata};
pub use project::{CreateProjectRequest, Project, ProjectWithRelations, UpdateProjectRequest};
pub use query::{build_count_query, build_select_query, BindValue};
pub use rate_limit::RateLimiter;
pub use relations::{collapse_project_rows, JoinedRow};
pub use technology::{CreateTechnologyRequest, Technology};
pub use text::{str_eq, str_le};
pub use user::{CreateUserRequest, User, UserRole, UserWithRole};

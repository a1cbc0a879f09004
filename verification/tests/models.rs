use proyects_api::{
    AppError, CreateProjectRequest, CreateTechnologyRequest, CreateUserRequest, Project,
    Technology, UpdateProjectRequest, User, UserRole, ValidatedUuid,
};

fn create_request() -> CreateProjectRequest {
    CreateProjectRequest {
        name: "Test Project".to_string(),
        description: "A test project".to_string(),
        repository_url: "https://github.com/test/repo".to_string(),
        language: "Rust".to_string(),
        rating: Some(450),
        technology_ids: None,
        user_ids: None,
    }
}

#[test]
fn test_create_project() {
    let request = create_request();

    let project = Project::new(request.clone());
    assert_eq!(project.name, "Test Project");
    assert_eq!(project.description, "A test project");
    assert_eq!(project.repository_url, "https://github.com/test/repo");
    assert_eq!(project.language, "Rust");
    assert_eq!(project.rating, Some(450));
}

#[test]
fn test_update_project() {
    let create_request = CreateProjectRequest {
        name: "Original".to_string(),
        description: "Original description".to_string(),
        repository_url: "https://github.com/original/repo".to_string(),
        language: "Rust".to_string(),
        rating: None,
        technology_ids: None,
        user_ids: None,
    };

    let mut project = Project::new(create_request);
    let original_created = project.created_at;

    let update_request = UpdateProjectRequest {
        name: Some("Updated".to_string()),
        description: None,
        repository_url: None,
        language: Some("Python".to_string()),
        rating: Some(350),
        technology_ids: None,
        user_ids: None,
    };

    project.update(update_request);

    assert_eq!(project.name, "Updated");
    assert_eq!(project.description, "Original description");
    assert_eq!(project.language, "Python");
    assert_eq!(project.rating, Some(350));
    assert_eq!(project.created_at, original_created);
    assert!(project.updated_at > original_created);
}

#[test]
fn test_create_technology() {
    let request = CreateTechnologyRequest {
        name: "Rust".to_string(),
        description: Some("A systems programming language".to_string()),
    };

    let tech = Technology::new(request.clone());
    assert_eq!(tech.name, "Rust");
    assert_eq!(tech.description, Some("A systems programming language".to_string()));
}

#[test]
fn test_validate_technology_name() {
    let request = CreateTechnologyRequest { name: "".to_string(), description: None };

    assert!(request.validate().is_err());
}

#[test]
fn test_create_user() {
    let request =
        CreateUserRequest { name: "John Doe".to_string(), email: "john@example.com".to_string() };

    let user = User::new(request.clone());
    assert_eq!(user.name, "John Doe");
    assert_eq!(user.email, "john@example.com");
}

#[test]
fn test_validate_user_email() {
    let request =
        CreateUserRequest { name: "John Doe".to_string(), email: "invalid-email".to_string() };

    assert!(request.validate().is_err());
}

#[test]
fn test_validate_user_email_accepts_well_formed() {
    let request =
        CreateUserRequest { name: "John Doe".to_string(), email: "john@example.com".to_string() };

    assert!(request.validate().is_ok());
}

#[test]
fn test_user_role_conversion() {
    assert_eq!(UserRole::from_str("owner").unwrap(), UserRole::Owner);
    assert_eq!(UserRole::from_str("contributor").unwrap(), UserRole::Contributor);
    assert_eq!(UserRole::from_str("viewer").unwrap(), UserRole::Viewer);
    assert!(UserRole::from_str("invalid").is_err());

    assert_eq!(UserRole::Owner.as_str(), "owner");
    assert_eq!(UserRole::Contributor.as_str(), "contributor");
    assert_eq!(UserRole::Viewer.as_str(), "viewer");
}

#[test]
fn test_uuid_validation() {
    let valid = "550e8400-e29b-41d4-a716-446655440000";
    assert!(ValidatedUuid::parse(valid).is_some());

    let invalid = "not-a-uuid";
    assert!(ValidatedUuid::parse(invalid).is_none());

    let invalid_format = "550e8400-e29b-41d4-a716";
    assert!(ValidatedUuid::parse(invalid_format).is_none());
}

#[test]
fn test_uuid_text_round_trip() {
    let v = ValidatedUuid::new(7);
    let text = v.text();
    assert_eq!(text, "00000000-0000-0000-0000-000000000007");
    let back = ValidatedUuid::parse(&text).unwrap();
    assert_eq!(back.into_inner(), 7);
}

#[test]
fn test_validate_project_request() {
    assert!(create_request().validate().is_ok());

    let mut bad_url = create_request();
    bad_url.repository_url = "not a url".to_string();
    let err = bad_url.validate().unwrap_err();
    assert!(matches!(err, AppError::ValidationError(_)));
    assert_eq!(err.status_code(), 400);

    let mut bad_rating = create_request();
    bad_rating.rating = Some(501);
    assert!(bad_rating.validate().is_err());

    let mut empty_name = create_request();
    empty_name.name = "".to_string();
    assert!(empty_name.validate().is_err());

    let mut long_name = create_request();
    long_name.name = "x".repeat(256);
    assert!(long_name.validate().is_err());
}

#[test]
fn test_validate_update_request() {
    let empty = UpdateProjectRequest {
        name: None,
        description: None,
        repository_url: None,
        language: None,
        rating: None,
        technology_ids: None,
        user_ids: None,
    };
    assert!(empty.validate().is_ok());

    let bad = UpdateProjectRequest {
        name: Some("".to_string()),
        description: None,
        repository_url: None,
        language: None,
        rating: None,
        technology_ids: None,
        user_ids: None,
    };
    assert!(bad.validate().is_err());
}

#[test]
fn test_error_status_codes_and_messages() {
    assert_eq!(AppError::ProjectNotFound("x".to_string()).status_code(), 404);
    assert_eq!(AppError::TechnologyNotFound("x".to_string()).status_code(), 404);
    assert_eq!(AppError::UserNotFound("x".to_string()).status_code(), 404);
    assert_eq!(AppError::DuplicateResource("x".to_string()).status_code(), 409);
    assert_eq!(AppError::ValidationError("x".to_string()).status_code(), 400);
    assert_eq!(AppError::DatabaseError("x".to_string()).status_code(), 500);
    assert_eq!(AppError::InternalError("x".to_string()).status_code(), 500);

    let e = AppError::DatabaseError("disk gone".to_string());
    assert_eq!(e.message(), "Database error: disk gone");
    assert_eq!(e.response().error, "Database error: disk gone");

    let nf = AppError::ProjectNotFound("some-id".to_string());
    assert_eq!(nf.message(), "some-id");
}

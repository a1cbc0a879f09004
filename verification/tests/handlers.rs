use proyects_api::{
    assign_roles, check_project_references, delete_project_outcome, first_missing_id,
    health_check, plan_create_technology, plan_create_user, replace_associations, AppError,
    CreateTechnologyRequest, CreateUserRequest, UserRole, ValidatedUuid,
};

#[test]
fn test_health_check() {
    assert_eq!(health_check().status, "OK");
}

#[test]
fn test_first_missing_id() {
    assert_eq!(first_missing_id(&vec![1, 2, 3], &vec![true, true, true]), None);
    assert_eq!(first_missing_id(&vec![1, 2, 3], &vec![true, false, false]), Some(2));
    assert_eq!(first_missing_id(&Vec::new(), &Vec::new()), None);
}

#[test]
fn test_check_references_technologies_before_users() {
    let err = check_project_references(
        &Some(vec![5]),
        &vec![false],
        &Some(vec![9]),
        &vec![false],
    )
    .unwrap_err();
    match err {
        AppError::TechnologyNotFound(m) => assert_eq!(m, ValidatedUuid::new(5).text()),
        _ => panic!("expected TechnologyNotFound first"),
    }

    let err = check_project_references(&Some(vec![5]), &vec![true], &Some(vec![9]), &vec![false])
        .unwrap_err();
    match err {
        AppError::UserNotFound(m) => assert_eq!(m, ValidatedUuid::new(9).text()),
        _ => panic!("expected UserNotFound"),
    }

    assert!(check_project_references(&None, &Vec::new(), &None, &Vec::new()).is_ok());
}

#[test]
fn test_assign_roles_first_is_owner() {
    let roles = assign_roles(&vec![7, 8, 9]);
    assert_eq!(roles.len(), 3);
    assert_eq!(roles[0], (7, UserRole::Owner));
    assert_eq!(roles[1], (8, UserRole::Contributor));
    assert_eq!(roles[2], (9, UserRole::Contributor));
}

#[test]
fn test_replace_associations() {
    // A supplied empty list wipes the associations; an absent field keeps them.
    let wiped = replace_associations(vec![1, 2], Some(Vec::new()));
    assert!(wiped.is_empty());

    let kept = replace_associations(vec![1, 2], None);
    assert_eq!(kept, vec![1, 2]);

    let replaced = replace_associations(vec![1, 2], Some(vec![3]));
    assert_eq!(replaced, vec![3]);
}

#[test]
fn test_delete_project_outcome() {
    let missing = delete_project_outcome(5, 0).unwrap_err();
    assert_eq!(missing.status_code(), 404);
    match missing {
        AppError::ProjectNotFound(m) => assert_eq!(m, ValidatedUuid::new(5).text()),
        _ => panic!("expected ProjectNotFound"),
    }
    assert!(delete_project_outcome(5, 1).is_ok());
}

#[test]
fn test_duplicate_technology_name() {
    let request = CreateTechnologyRequest { name: "Rust".to_string(), description: None };

    assert!(plan_create_technology(&request, false).is_ok());

    let err = plan_create_technology(&request, true).unwrap_err();
    assert_eq!(err.status_code(), 409);
    match err {
        AppError::DuplicateResource(m) => {
            assert_eq!(m, "Technology with name 'Rust' already exists");
        }
        _ => panic!("expected DuplicateResource"),
    }
}

#[test]
fn test_duplicate_user_email() {
    let request =
        CreateUserRequest { name: "John Doe".to_string(), email: "john@example.com".to_string() };

    assert!(plan_create_user(&request, false).is_ok());

    let err = plan_create_user(&request, true).unwrap_err();
    assert_eq!(err.status_code(), 409);
    match err {
        AppError::DuplicateResource(m) => {
            assert_eq!(m, "User with email 'john@example.com' already exists");
        }
        _ => panic!("expected DuplicateResource"),
    }
}

#[test]
fn test_plan_rejects_invalid_payload_before_duplicate_check() {
    let request = CreateTechnologyRequest { name: "".to_string(), description: None };
    let err = plan_create_technology(&request, true).unwrap_err();
    assert_eq!(err.status_code(), 400);
    assert!(matches!(err, AppError::ValidationError(_)));
}

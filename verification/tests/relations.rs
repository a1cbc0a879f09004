use proyects_api::{collapse_project_rows, AppError, JoinedRow, UserRole, ValidatedUuid};

const PROJECT_ID: u128 = 0x11;
const GO_ID: u128 = 0x21;
const RUST_ID: u128 = 0x22;
const ANA_ID: u128 = 0x31;
const BOB_ID: u128 = 0x32;

fn bare_row() -> JoinedRow {
    JoinedRow {
        project_id: ValidatedUuid::new(PROJECT_ID).text(),
        project_name: "Test Project".to_string(),
        project_description: "A test".to_string(),
        repository_url: "https://github.com/test/repo".to_string(),
        language: "Rust".to_string(),
        rating: Some(450),
        project_created_at: 1_000,
        project_updated_at: 2_000,
        tech_id: None,
        tech_name: None,
        tech_description: None,
        tech_created_at: None,
        user_id: None,
        user_name: None,
        user_email: None,
        user_created_at: None,
        role: None,
    }
}

fn row_with(tech: Option<(u128, &str)>, user: Option<(u128, &str, &str)>) -> JoinedRow {
    let mut row = bare_row();
    if let Some((id, name)) = tech {
        row.tech_id = Some(ValidatedUuid::new(id).text());
        row.tech_name = Some(name.to_string());
        row.tech_created_at = Some(10);
    }
    if let Some((id, name, role)) = user {
        row.user_id = Some(ValidatedUuid::new(id).text());
        row.user_name = Some(name.to_string());
        row.user_email = Some(format!("{}@example.com", name.to_lowercase()));
        row.user_created_at = Some(20);
        row.role = Some(role.to_string());
    }
    row
}

#[test]
fn test_collapse_no_rows_is_not_found() {
    let result = collapse_project_rows(PROJECT_ID, Vec::new());
    match result {
        Err(AppError::ProjectNotFound(m)) => {
            assert_eq!(m, ValidatedUuid::new(PROJECT_ID).text());
        }
        _ => panic!("expected ProjectNotFound"),
    }
}

#[test]
fn test_collapse_scalar_fields_from_first_row() {
    let rows = vec![bare_row()];
    let pwr = collapse_project_rows(PROJECT_ID, rows).unwrap();
    assert_eq!(pwr.project.id, PROJECT_ID);
    assert_eq!(pwr.project.name, "Test Project");
    assert_eq!(pwr.project.rating, Some(450));
    assert_eq!(pwr.project.created_at, 1_000);
    assert_eq!(pwr.project.updated_at, 2_000);
    assert!(pwr.technologies.is_empty());
    assert!(pwr.users.is_empty());
}

#[test]
fn test_collapse_sorts_relations_regardless_of_row_order() {
    // The cross product of {Go, Rust} x {Ana (owner), Bob (contributor)},
    // deliberately scrambled.
    let rows = vec![
        row_with(Some((RUST_ID, "Rust")), Some((BOB_ID, "Bob", "contributor"))),
        row_with(Some((GO_ID, "Go")), Some((BOB_ID, "Bob", "contributor"))),
        row_with(Some((RUST_ID, "Rust")), Some((ANA_ID, "Ana", "owner"))),
        row_with(Some((GO_ID, "Go")), Some((ANA_ID, "Ana", "owner"))),
    ];
    let pwr = collapse_project_rows(PROJECT_ID, rows).unwrap();

    assert_eq!(pwr.technologies.len(), 2);
    assert_eq!(pwr.technologies[0].name, "Go");
    assert_eq!(pwr.technologies[1].name, "Rust");

    assert_eq!(pwr.users.len(), 2);
    assert_eq!(pwr.users[0].user.name, "Ana");
    assert_eq!(pwr.users[0].role, UserRole::Owner);
    assert_eq!(pwr.users[1].user.name, "Bob");
    assert_eq!(pwr.users[1].role, UserRole::Contributor);
}

#[test]
fn test_collapse_deduplicates_by_id_first_wins() {
    let rows = vec![
        row_with(Some((GO_ID, "Go")), None),
        row_with(Some((GO_ID, "Go")), Some((ANA_ID, "Ana", "owner"))),
        row_with(Some((GO_ID, "Go")), Some((ANA_ID, "Ana", "owner"))),
    ];
    let pwr = collapse_project_rows(PROJECT_ID, rows).unwrap();
    assert_eq!(pwr.technologies.len(), 1);
    assert_eq!(pwr.technologies[0].id, GO_ID);
    assert_eq!(pwr.users.len(), 1);
    assert_eq!(pwr.users[0].user.id, ANA_ID);
}

#[test]
fn test_collapse_drops_malformed_role() {
    let rows = vec![row_with(None, Some((ANA_ID, "Ana", "admin")))];
    let pwr = collapse_project_rows(PROJECT_ID, rows).unwrap();
    assert!(pwr.users.is_empty());
}

#[test]
fn test_collapse_drops_unparsable_association_id() {
    let mut row = bare_row();
    row.tech_id = Some("not-a-uuid".to_string());
    row.tech_name = Some("Go".to_string());
    row.tech_created_at = Some(10);
    let pwr = collapse_project_rows(PROJECT_ID, vec![row]).unwrap();
    assert!(pwr.technologies.is_empty());
}

#[test]
fn test_collapse_ties_keep_first_appearance_order() {
    // Two different technologies share a name; the one seen first stays first.
    let rows = vec![
        row_with(Some((RUST_ID, "Same")), None),
        row_with(Some((GO_ID, "Same")), None),
    ];
    let pwr = collapse_project_rows(PROJECT_ID, rows).unwrap();
    assert_eq!(pwr.technologies.len(), 2);
    assert_eq!(pwr.technologies[0].id, RUST_ID);
    assert_eq!(pwr.technologies[1].id, GO_ID);
}

#[test]
fn test_collapse_unparsable_project_id_is_internal_error() {
    let mut row = bare_row();
    row.project_id = "garbage".to_string();
    let result = collapse_project_rows(PROJECT_ID, vec![row]);
    assert!(matches!(result, Err(AppError::InternalError(_))));
}

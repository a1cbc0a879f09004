use proyects_api::{build_count_query, build_select_query, BindValue, ListQueryParams};

fn empty_params() -> ListQueryParams {
    ListQueryParams {
        search: None,
        technology: None,
        user_id: None,
        min_rating: None,
        max_rating: None,
        language: None,
        sort: None,
        order: None,
        page: None,
        page_size: None,
    }
}

#[test]
fn test_count_query_no_filters() {
    let (sql, binds) = build_count_query(&empty_params());
    assert_eq!(sql, "SELECT COUNT(*) as count FROM projects p WHERE 1=1");
    assert!(binds.is_empty());
}

#[test]
fn test_select_query_defaults() {
    let (sql, binds) = build_select_query(&empty_params());
    assert_eq!(
        sql,
        "SELECT p.* FROM projects p WHERE 1=1 ORDER BY p.created_at DESC LIMIT ? OFFSET ?"
    );
    assert_eq!(binds, vec![BindValue::Uint(10), BindValue::Uint(0)]);
}

#[test]
fn test_search_filter_binds_pattern() {
    let mut p = empty_params();
    p.search = Some("rust".to_string());
    let (sql, binds) = build_count_query(&p);
    assert_eq!(
        sql,
        "SELECT COUNT(*) as count FROM projects p WHERE 1=1 AND (p.name LIKE ? OR p.description LIKE ?)"
    );
    assert_eq!(
        binds,
        vec![BindValue::Text("%rust%".to_string()), BindValue::Text("%rust%".to_string())]
    );
}

#[test]
fn test_rating_filter_bounds() {
    let mut p = empty_params();
    p.min_rating = Some(400);
    p.max_rating = Some(500);
    let (sql, binds) = build_count_query(&p);
    assert_eq!(
        sql,
        "SELECT COUNT(*) as count FROM projects p WHERE 1=1 AND p.rating >= ? AND p.rating <= ?"
    );
    assert_eq!(binds, vec![BindValue::Rating(400), BindValue::Rating(500)]);
}

#[test]
fn test_technology_and_language_filters() {
    let mut p = empty_params();
    p.technology = Some("go".to_string());
    p.language = Some("rust".to_string());
    let (sql, binds) = build_count_query(&p);
    assert_eq!(
        sql,
        "SELECT COUNT(*) as count FROM projects p WHERE 1=1 AND EXISTS (SELECT 1 FROM project_technologies pt JOIN technologies t ON pt.technology_id = t.id WHERE pt.project_id = p.id AND t.name LIKE ?) AND p.language LIKE ?"
    );
    assert_eq!(
        binds,
        vec![BindValue::Text("%go%".to_string()), BindValue::Text("%rust%".to_string())]
    );
}

#[test]
fn test_user_filter_valid_id() {
    let mut p = empty_params();
    p.user_id = Some("550e8400-e29b-41d4-a716-446655440000".to_string());
    let (sql, binds) = build_count_query(&p);
    assert_eq!(
        sql,
        "SELECT COUNT(*) as count FROM projects p WHERE 1=1 AND EXISTS (SELECT 1 FROM project_users pu WHERE pu.project_id = p.id AND pu.user_id = ?)"
    );
    assert_eq!(
        binds,
        vec![BindValue::Text("550e8400-e29b-41d4-a716-446655440000".to_string())]
    );
}

#[test]
fn test_user_filter_invalid_id_matches_nothing() {
    let mut p = empty_params();
    p.user_id = Some("not-a-uuid".to_string());
    let (sql, binds) = build_count_query(&p);
    assert_eq!(sql, "SELECT COUNT(*) as count FROM projects p WHERE 1=1 AND 1=0");
    assert!(binds.is_empty());
}

#[test]
fn test_count_and_select_filters_in_lock_step() {
    let mut p = empty_params();
    p.search = Some("api".to_string());
    p.technology = Some("go".to_string());
    p.min_rating = Some(100);
    p.language = Some("rust".to_string());
    p.sort = Some("rating".to_string());
    p.order = Some("asc".to_string());
    p.page = Some(3);
    p.page_size = Some(25);

    let (count_sql, count_binds) = build_count_query(&p);
    let (select_sql, select_binds) = build_select_query(&p);

    let count_filters = count_sql.strip_prefix("SELECT COUNT(*) as count FROM projects p").unwrap();
    let select_filters = select_sql
        .strip_prefix("SELECT p.* FROM projects p")
        .unwrap()
        .strip_suffix(" ORDER BY p.rating ASC LIMIT ? OFFSET ?")
        .unwrap();
    assert_eq!(count_filters, select_filters);

    let mut expected_select_binds = count_binds.clone();
    expected_select_binds.push(BindValue::Uint(25));
    expected_select_binds.push(BindValue::Uint(50));
    assert_eq!(select_binds, expected_select_binds);
}

#[test]
fn test_select_bogus_sort_falls_back() {
    let mut p = empty_params();
    p.sort = Some("bogus_field".to_string());
    let (sql, _) = build_select_query(&p);
    assert_eq!(
        sql,
        "SELECT p.* FROM projects p WHERE 1=1 ORDER BY p.created_at DESC LIMIT ? OFFSET ?"
    );
}

use proyects_api::{ListQueryParams, PaginationMetadata};

fn params_with(
    sort: Option<&str>,
    order: Option<&str>,
    page: Option<u32>,
    page_size: Option<u32>,
) -> ListQueryParams {
    ListQueryParams {
        search: None,
        technology: None,
        user_id: None,
        min_rating: None,
        max_rating: None,
        language: None,
        sort: sort.map(|s| s.to_string()),
        order: order.map(|s| s.to_string()),
        page,
        page_size,
    }
}

#[test]
fn test_pagination_metadata() {
    let meta = PaginationMetadata::new(1, 10, 45);
    assert_eq!(meta.page, 1);
    assert_eq!(meta.page_size, 10);
    assert_eq!(meta.total_items, 45);
    assert_eq!(meta.total_pages, 5);
}

#[test]
fn test_list_query_params_defaults() {
    let params = params_with(None, None, None, None);

    assert_eq!(params.page(), 1);
    assert_eq!(params.page_size(), 10);
    assert_eq!(params.offset(), 0);
    assert_eq!(params.sort_field(), "created_at");
    assert_eq!(params.sort_order(), "DESC");
}

#[test]
fn test_list_query_params_custom() {
    let params = params_with(Some("name"), Some("asc"), Some(2), Some(20));

    assert_eq!(params.page(), 2);
    assert_eq!(params.page_size(), 20);
    assert_eq!(params.offset(), 20);
    assert_eq!(params.sort_field(), "name");
    assert_eq!(params.sort_order(), "ASC");
}

#[test]
fn test_page_size_limits() {
    let params = params_with(None, None, None, Some(200));

    assert_eq!(params.page_size(), 100);
}

#[test]
fn test_page_size_floor() {
    let params = params_with(None, None, None, Some(0));
    assert_eq!(params.page_size(), 1);

    let page_zero = params_with(None, None, Some(0), None);
    assert_eq!(page_zero.page(), 1);
}

#[test]
fn test_total_pages_of_empty_listing() {
    let meta = PaginationMetadata::new(1, 10, 0);
    assert_eq!(meta.total_pages, 1);
}

#[test]
fn test_total_pages_exact_multiple() {
    let meta = PaginationMetadata::new(3, 10, 40);
    assert_eq!(meta.total_pages, 4);

    let partial = PaginationMetadata::new(1, 10, 41);
    assert_eq!(partial.total_pages, 5);

    let one_each = PaginationMetadata::new(1, 1, 7);
    assert_eq!(one_each.total_pages, 7);
}

#[test]
fn test_sort_field_allow_list() {
    assert_eq!(params_with(Some("rating"), None, None, None).sort_field(), "rating");
    assert_eq!(params_with(Some("updated_at"), None, None, None).sort_field(), "updated_at");
    assert_eq!(params_with(Some("created_at"), None, None, None).sort_field(), "created_at");
    assert_eq!(params_with(Some("bogus_field"), None, None, None).sort_field(), "created_at");
    assert_eq!(params_with(None, Some("desc"), None, None).sort_order(), "DESC");
    assert_eq!(params_with(None, Some("sideways"), None, None).sort_order(), "DESC");
}

use tourney::ids::ObjectId;
use tourney::pagination::{PaginatedResponse, PaginationParams, DEFAULT_LIMIT, MAX_LIMIT};

fn new_oid() -> ObjectId {
    let b = bson::oid::ObjectId::new().bytes();
    ObjectId::new(
        u32::from_be_bytes([b[0], b[1], b[2], b[3]]),
        u64::from_be_bytes([b[4], b[5], b[6], b[7], b[8], b[9], b[10], b[11]]),
    )
}

#[test]
fn test_pagination_params_default_limit() {
    let params = PaginationParams {
        cursor: None,
        limit: None,
    };
    assert_eq!(params.effective_limit(), DEFAULT_LIMIT);
}

#[test]
fn test_pagination_params_custom_limit() {
    let params = PaginationParams {
        cursor: None,
        limit: Some(50),
    };
    assert_eq!(params.effective_limit(), 50);
}

#[test]
fn test_pagination_params_clamp_max() {
    let params = PaginationParams {
        cursor: None,
        limit: Some(500),
    };
    assert_eq!(params.effective_limit(), MAX_LIMIT);
}

#[test]
fn test_pagination_params_clamp_min() {
    let params = PaginationParams {
        cursor: None,
        limit: Some(0),
    };
    assert_eq!(params.effective_limit(), 1);
}

#[test]
fn test_pagination_params_valid_cursor() {
    let oid = new_oid();
    let params = PaginationParams {
        cursor: Some(oid.to_hex()),
        limit: None,
    };
    assert_eq!(params.cursor_oid().unwrap(), Some(oid));
}

#[test]
fn test_pagination_params_invalid_cursor() {
    let params = PaginationParams {
        cursor: Some("not-an-oid".to_string()),
        limit: None,
    };
    assert!(params.cursor_oid().is_err());
}

#[test]
fn test_pagination_params_no_cursor() {
    let params = PaginationParams {
        cursor: None,
        limit: None,
    };
    assert_eq!(params.cursor_oid().unwrap(), None);
}

#[test]
fn test_paginated_response_no_more() {
    let data = vec![1, 2, 3];
    let response = PaginatedResponse::new(data, 5);
    assert_eq!(response.data.len(), 3);
    assert!(!response.has_more);
    assert!(response.next_cursor.is_none());
}

#[test]
fn test_paginated_response_has_more() {
    let data = vec![1, 2, 3, 4, 5, 6]; // 6 items, limit 5 -> has_more
    let response = PaginatedResponse::with_cursor(data, 5, |item: &i32| item.to_string());
    assert_eq!(response.data.len(), 5);
    assert!(response.has_more);
    assert_eq!(response.next_cursor, Some("5".to_string()));
}

#[test]
fn test_paginated_response_exact_limit() {
    let data = vec![1, 2, 3, 4, 5];
    let response = PaginatedResponse::new(data, 5);
    assert_eq!(response.data.len(), 5);
    assert!(!response.has_more);
}

#[test]
fn pagination_negative_limit_clamps_to_one() {
    let params = PaginationParams {
        cursor: None,
        limit: Some(-7),
    };
    assert_eq!(params.effective_limit(), 1);
}

#[test]
fn pagination_upper_case_cursor_is_accepted() {
    let oid = new_oid();
    let params = PaginationParams {
        cursor: Some(oid.to_hex().to_uppercase()),
        limit: None,
    };
    assert_eq!(params.cursor_oid().unwrap(), Some(oid));
}

#[test]
fn pagination_cursor_error_message() {
    let params = PaginationParams {
        cursor: Some("zz".to_string()),
        limit: None,
    };
    assert_eq!(params.cursor_oid().unwrap_err(), "Invalid cursor");
}

use rust_admin::entity::BaseEntity;
use rust_admin::error::{AppError, AuthError};
use rust_admin::response::{ApiResponse, R};

#[test]
fn new_entity_starts_at_version_one() {
    let b = BaseEntity::new(7, 1000);
    assert_eq!(b.version, 1);
    assert_eq!(b.created_by, 7);
    assert_eq!(b.created_date, 1000);
    assert_eq!(b.last_modified_by, 7);
    assert_eq!(b.last_modified_date, 1000);
    assert_eq!(b.deleted_by, None);
    assert_eq!(b.deleted_date, None);
    assert!(!b.is_deleted());
}

#[test]
fn update_bumps_version_and_keeps_creation() {
    let mut b = BaseEntity::new(7, 1000);
    b.update(9, 2000);
    assert_eq!(b.version, 2);
    assert_eq!(b.last_modified_by, 9);
    assert_eq!(b.last_modified_date, 2000);
    assert_eq!(b.created_by, 7);
    assert_eq!(b.created_date, 1000);
    b.update(11, 3000);
    assert_eq!(b.version, 3);
    assert_eq!(b.last_modified_by, 11);
}

#[test]
fn delete_stamps_both_fields_and_keeps_version() {
    let mut b = BaseEntity::new(7, 1000);
    b.update(8, 1500);
    b.delete(9, 2000);
    assert_eq!(b.deleted_by, Some(9));
    assert_eq!(b.deleted_date, Some(2000));
    assert_eq!(b.version, 2);
    assert_eq!(b.last_modified_by, 8);
    assert_eq!(b.last_modified_date, 1500);
    assert!(b.is_deleted());
}

#[test]
fn half_stamped_entity_is_not_deleted() {
    let mut b = BaseEntity::new(7, 1000);
    b.deleted_by = Some(3);
    assert!(!b.is_deleted());
}

#[test]
fn api_response_constructors() {
    let ok = ApiResponse::<()>::ok();
    assert_eq!(ok.code, 200);
    assert_eq!(ok.message, "Success");
    assert!(ok.data.is_none());
    assert!(ok.is_success());
    assert!(!ok.is_error());

    let d = ApiResponse::ok_with_data(5);
    assert_eq!(d.code, 200);
    assert_eq!(d.data, Some(5));

    let m = ApiResponse::<()>::ok_with_message("done".to_string());
    assert_eq!(m.message, "done");
    assert_eq!(m.code, 200);

    let dm = ApiResponse::ok_with_data_and_message(1, "hi".to_string());
    assert_eq!((dm.code, dm.message.as_str(), dm.data), (200, "hi", Some(1)));

    let e = ApiResponse::<()>::error();
    assert_eq!(e.code, 500);
    assert_eq!(e.message, "Internal Server Error");
    assert!(e.is_error());
    assert!(!e.is_success());

    let em = ApiResponse::<()>::error_with_message("bad".to_string());
    assert_eq!((em.code, em.message.as_str()), (500, "bad"));

    let ecm = ApiResponse::<()>::error_with_code_and_message(404, "missing".to_string());
    assert_eq!((ecm.code, ecm.message.as_str()), (404, "missing"));

    let ed = ApiResponse::error_with_data(3);
    assert_eq!((ed.code, ed.message.as_str(), ed.data), (500, "Internal Server Error", Some(3)));

    let ecd = ApiResponse::error_with_code_and_data(422, 4);
    assert_eq!((ecd.code, ecd.message.as_str(), ecd.data), (422, "Internal Server Error", Some(4)));

    let ecmd = ApiResponse::error_with_code_and_message_and_data(409, "conflict".to_string(), 6);
    assert_eq!((ecmd.code, ecmd.message.as_str(), ecmd.data), (409, "conflict", Some(6)));
}

#[test]
fn r_constructors_pick_their_variant() {
    match R::<i32>::ok() {
        R::NoDataSuccess(a) => assert_eq!((a.code, a.message.as_str()), (200, "Success")),
        _ => panic!("wrong variant"),
    }
    match R::ok_with_data(9) {
        R::Success(a) => assert_eq!((a.code, a.data), (200, Some(9))),
        _ => panic!("wrong variant"),
    }
    match R::ok_with_data_and_message(9, "m".to_string()) {
        R::Success(a) => assert_eq!((a.code, a.message.as_str(), a.data), (200, "m", Some(9))),
        _ => panic!("wrong variant"),
    }
    match R::<i32>::error() {
        R::Error(a) => assert_eq!((a.code, a.message.as_str()), (500, "Internal Server Error")),
        _ => panic!("wrong variant"),
    }
    match R::<i32>::error_with_message("x".to_string()) {
        R::Error(a) => assert_eq!((a.code, a.message.as_str()), (500, "x")),
        _ => panic!("wrong variant"),
    }
    match R::<i32>::error_with_code_and_message(401, "y".to_string()) {
        R::Error(a) => assert_eq!((a.code, a.message.as_str()), (401, "y")),
        _ => panic!("wrong variant"),
    }
    match R::error_with_data(2) {
        R::DataError(a) => assert_eq!((a.code, a.data), (500, Some(2))),
        _ => panic!("wrong variant"),
    }
    match R::error_with_code_and_data(418, 2) {
        R::DataError(a) => assert_eq!((a.code, a.message.as_str(), a.data), (418, "Internal Server Error", Some(2))),
        _ => panic!("wrong variant"),
    }
    match R::error_with_code_and_message_and_data(400, "z".to_string(), 1) {
        R::DataError(a) => assert_eq!((a.code, a.message.as_str(), a.data), (400, "z", Some(1))),
        _ => panic!("wrong variant"),
    }
}

fn error_parts(r: R<()>) -> (u16, String) {
    match r {
        R::Error(a) => (a.code, a.message),
        _ => panic!("not an error body"),
    }
}

#[test]
fn auth_errors_map_to_status_and_message() {
    let cases = [
        (AuthError::WrongCredentials, 401, "Wrong credentials"),
        (AuthError::MissingCredentials, 400, "Missing credentials"),
        (AuthError::TokenCreation, 500, "Token creation error"),
        (AuthError::InvalidToken, 400, "Invalid token"),
    ];
    for (e, status, message) in cases {
        let (s, body) = e.to_response();
        assert_eq!(s, status);
        assert_eq!(error_parts(body), (status, message.to_string()));
    }
}

#[test]
fn app_errors_map_to_status_and_message() {
    let (s, body) = AppError::JwtTokenError("expired".to_string()).to_response();
    assert_eq!((s, error_parts(body)), (401, (401, "expired".to_string())));
    let (s, body) = AppError::DbError("down".to_string()).to_response();
    assert_eq!((s, error_parts(body)), (500, (500, "down".to_string())));
    let (s, body) = AppError::BusinessError("rule".to_string()).to_response();
    assert_eq!((s, error_parts(body)), (500, (500, "rule".to_string())));
}

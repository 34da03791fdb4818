use user_api::users::{route_status, unparsable_id_status, user_id_from_path, RegisterUser, StoreOutcome, UserRoute};

#[test]
fn user_ids_from_path() {
    assert_eq!(user_id_from_path("42"), Some(42));
    assert_eq!(user_id_from_path("-7"), Some(-7));
    assert_eq!(user_id_from_path("+5"), Some(5));
    assert_eq!(user_id_from_path("-2147483648"), Some(i32::MIN));
    assert_eq!(user_id_from_path("2147483647"), Some(i32::MAX));
    assert_eq!(user_id_from_path("2147483648"), None);
    assert_eq!(user_id_from_path(""), None);
    assert_eq!(user_id_from_path("-"), None);
    assert_eq!(user_id_from_path("12a"), None);
    assert_eq!(user_id_from_path(" 12"), None);
}

#[test]
fn statuses_of_routes() {
    assert_eq!(route_status(UserRoute::List, StoreOutcome::Done), 200);
    assert_eq!(route_status(UserRoute::GetById, StoreOutcome::Done), 200);
    assert_eq!(route_status(UserRoute::GetById, StoreOutcome::NoRow), 404);
    assert_eq!(route_status(UserRoute::Add, StoreOutcome::Done), 201);
    assert_eq!(route_status(UserRoute::Delete, StoreOutcome::Done), 200);
    assert_eq!(route_status(UserRoute::Delete, StoreOutcome::Failed), 500);
    assert_eq!(route_status(UserRoute::List, StoreOutcome::Failed), 500);
}

#[test]
fn statuses_of_bad_ids() {
    assert_eq!(unparsable_id_status(UserRoute::GetById), 500);
    assert_eq!(unparsable_id_status(UserRoute::Delete), 404);
}

#[test]
fn register_user_fields() {
    let u = RegisterUser {
        first_name: "Ada".to_string(),
        last_name: "Lovelace".to_string(),
        email: "ada@example.com".to_string(),
    };
    let c = u.clone();
    assert_eq!(c.email, "ada@example.com");
}

use tremolo::api::{
    create_app_status, delete_status, get_app_status, list_status, update_app_status,
    CreateAppRequest, PutAppRequest,
};
use tremolo::service::{default_port, Definition, Service};
use tremolo::store::StoreError;

#[test]
fn endpoint_statuses() {
    assert_eq!(list_status(Ok(())), 200);
    assert_eq!(list_status(Err(StoreError::Unavailable)), 500);
    assert_eq!(delete_status(Ok(())), 200);
    assert_eq!(delete_status(Err(StoreError::RowNotFound)), 500);
    assert_eq!(create_app_status(Ok(())), 200);
    assert_eq!(create_app_status(Err(StoreError::UniqueViolation)), 409);
    assert_eq!(create_app_status(Err(StoreError::Unavailable)), 500);
    assert_eq!(get_app_status(Ok(true)), 200);
    assert_eq!(get_app_status(Ok(false)), 404);
    assert_eq!(get_app_status(Err(StoreError::Unavailable)), 500);
    assert_eq!(update_app_status(Ok(())), 200);
    assert_eq!(update_app_status(Err(StoreError::RowNotFound)), 404);
    assert_eq!(update_app_status(Err(StoreError::UniqueViolation)), 409);
    assert_eq!(update_app_status(Err(StoreError::Unavailable)), 500);
}

#[test]
fn request_bodies_hold_their_fields() {
    let c = CreateAppRequest { name: "web".to_string(), description: "front".to_string() };
    assert_eq!(c.name, "web");
    let p = PutAppRequest { name: "web".to_string(), description: None };
    assert!(p.description.is_none());
}

#[test]
fn service_defaults() {
    assert_eq!(default_port(), 8080);
    let s = Service::new("nginx:latest".to_string());
    assert_eq!(s.image, "nginx:latest");
    assert_eq!(s.port, 8080);
    assert!(s.env.is_empty());
    assert!(s.labels.is_empty());
    assert!(Definition::new().services.is_empty());
}

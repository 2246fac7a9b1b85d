use etcd::auth::{self, AuthChange, NewUser, Role, RoleUpdate, UserUpdate};
use etcd::error::{Error, TransportError};
use etcd::wire::{HttpRequest, HttpResponse, ResponseHeaders};

fn answer(status: u16, body: &str) -> Result<HttpResponse, TransportError> {
    Ok(HttpResponse {
        status,
        headers: ResponseHeaders::default(),
        body: body.as_bytes().to_vec(),
    })
}

#[test]
fn new_user_builder() {
    let mut user = NewUser::new("root", "secret");
    assert_eq!(user.name(), "root");
    user.add_role("admin");
    user.add_role("guest");
    assert_eq!(user.name(), "root");
}

#[test]
fn user_update_builder() {
    let mut update = UserUpdate::new("root");
    assert_eq!(update.name(), "root");
    update.update_password("secret2");
    update.grant_role("rkt");
    update.revoke_role("guest");
    assert_eq!(update.name(), "root");
}

#[test]
fn role_permissions() {
    let mut role = Role::new("rkt");
    assert_eq!(role.name(), "rkt");
    assert_eq!(role.kv_read_permissions(), &[] as &[String]);
    assert_eq!(role.kv_write_permissions(), &[] as &[String]);

    role.grant_kv_read_permission("/rkt/*");
    role.grant_kv_write_permission("/rkt/*");
    role.grant_kv_read_permission("/other");

    assert_eq!(
        role.kv_read_permissions(),
        &["/rkt/*".to_string(), "/other".to_string()]
    );
    assert_eq!(role.kv_write_permissions(), &["/rkt/*".to_string()]);
}

#[test]
fn role_update_builder() {
    let mut update = RoleUpdate::new("rkt");
    assert_eq!(update.name(), "rkt");
    update.grant_kv_read_permission("/rkt/*");
    update.grant_kv_write_permission("/rkt/*");
    update.revoke_kv_read_permission("/old");
    update.revoke_kv_write_permission("/old");
    assert_eq!(update.name(), "rkt");
}

#[test]
fn enable_reports_a_change() {
    let endpoints = vec!["http://a/".to_string()];
    let transport = |_req: &HttpRequest| answer(200, "");

    let result = auth::enable(transport, &endpoints).unwrap();

    assert_eq!(result.data, AuthChange::Changed);
}

#[test]
fn enable_conflict_means_already_enabled() {
    let endpoints = vec!["http://a/".to_string()];
    let transport = |_req: &HttpRequest| answer(409, "");

    let result = auth::enable(transport, &endpoints).unwrap();

    assert_eq!(result.data, AuthChange::Unchanged);
}

#[test]
fn disable_conflict_means_already_disabled() {
    let endpoints = vec!["http://a/".to_string()];
    let transport = |_req: &HttpRequest| answer(409, "");

    let result = auth::disable(transport, &endpoints).unwrap();

    assert_eq!(result.data, AuthChange::Unchanged);
}

#[test]
fn status_reads_the_enabled_flag() {
    let endpoints = vec!["http://a/".to_string()];
    let transport = |_req: &HttpRequest| answer(200, "{\"enabled\": true}");

    let result = auth::status(transport, &endpoints).unwrap();

    assert!(result.data);
}

#[test]
fn delete_user_succeeds_on_ok() {
    let endpoints = vec!["http://a/".to_string()];
    let transport = |_req: &HttpRequest| answer(200, "");

    assert!(auth::delete_user(transport, &endpoints, "guest").is_ok());
}

#[test]
fn delete_role_reports_unexpected_status() {
    let endpoints = vec!["http://a/".to_string()];
    let transport = |_req: &HttpRequest| answer(500, "");

    let result = auth::delete_role(transport, &endpoints, "rkt");

    assert_eq!(result, Err(vec![Error::UnexpectedStatus(500)]));
}

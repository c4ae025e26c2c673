use slurm_client::client::{Slurm, SlurmDB};
use slurm_client::error::{ClientError, EnvVar};
use slurm_client::json::Json;
use slurm_client::request::Method;

#[test]
fn construction_accepts_a_valid_triple() {
    let c = Slurm::new("alice", "tok", "http://controller.example:6820").unwrap();
    assert_eq!(c.endpoint_str(), "http://controller.example:6820/");
}

#[test]
fn construction_rejects_a_malformed_endpoint() {
    let r = Slurm::new("alice", "tok", "not a url");
    assert_eq!(r.unwrap_err(), ClientError::InvalidEndpoint);
}

#[test]
fn request_urls_begin_with_endpoint_and_prefix() {
    let c = Slurm::new("alice", "tok", "http://controller.example:6820").unwrap();
    let r = c.ping_request().unwrap();
    assert_eq!(r.url, "http://controller.example:6820/slurm/v0.0.38/ping");
    assert!(r.url.starts_with("http://controller.example:6820/slurm/v0.0.38/"));
    let r = c.nodes_request().unwrap();
    assert!(r.url.starts_with("http://controller.example:6820/slurm/v0.0.38/"));
}

#[test]
fn slurmdb_requests_use_the_accounting_prefix() {
    let c = SlurmDB::new("alice", "tok", "http://controller.example:6820").unwrap();
    let r = c.request(Method::Get, "diag", &Json::Null, None).unwrap();
    assert_eq!(r.url, "http://controller.example:6820/slurmdb/v0.0.38/diag");
}

#[test]
fn endpoint_without_trailing_slash_gets_one() {
    let c = Slurm::new("u", "t", "http://host.example/api").unwrap();
    let r = c.ping_request().unwrap();
    assert_eq!(r.url, "http://host.example/api/slurm/v0.0.38/ping");
}

#[test]
fn single_resource_paths_carry_the_name() {
    let c = Slurm::new("u", "t", "http://host.example").unwrap();
    let r = c.node_request("teach-gpu-n0").unwrap();
    assert_eq!(r.url, "http://host.example/slurm/v0.0.38/node/teach-gpu-n0");
    let r = c.partition_request("gpu").unwrap();
    assert_eq!(r.url, "http://host.example/slurm/v0.0.38/partition/gpu");
    let r = c.reservation_request("maint").unwrap();
    assert_eq!(r.url, "http://host.example/slurm/v0.0.38/reservation/maint");
}

#[test]
fn request_building_is_idempotent() {
    let c = Slurm::new("alice", "tok", "http://host.example").unwrap();
    let q1 = vec![("account".to_owned(), "research lab".to_owned())];
    let q2 = vec![("account".to_owned(), "research lab".to_owned())];
    let r1 = c.request(Method::Get, "nodes", &Json::Null, Some(&q1)).unwrap();
    let r2 = c.request(Method::Get, "nodes", &Json::Null, Some(&q2)).unwrap();
    assert_eq!(r1.url, r2.url);
    assert_eq!(r1.headers, r2.headers);
    assert_eq!(r1.body, r2.body);
    assert_eq!(r1, r2);
}

#[test]
fn get_and_delete_carry_no_body() {
    let c = Slurm::new("u", "t", "http://host.example").unwrap();
    let body = Json::Obj(vec![("hint".to_owned(), Json::Int(1))]);
    let r = c.request(Method::Get, "nodes", &body, None).unwrap();
    assert_eq!(r.body, None);
    let r = c.request(Method::Delete, "nodes", &body, None).unwrap();
    assert_eq!(r.body, None);
    let r = c.request(Method::Post, "nodes", &body, None).unwrap();
    assert_eq!(r.body, Some("{\"hint\":1}".to_owned()));
    let r = c.request(Method::Put, "nodes", &body, None).unwrap();
    assert!(r.body.is_some());
}

#[test]
fn auth_headers_carry_the_credentials() {
    let c = Slurm::new("alice", "secret-token", "http://host.example").unwrap();
    let r = c.ping_request().unwrap();
    assert_eq!(r.headers.len(), 3);
    assert_eq!(r.headers[0], ("x-slurm-user-name".to_owned(), "alice".to_owned()));
    assert_eq!(r.headers[1], ("x-slurm-user-token".to_owned(), "secret-token".to_owned()));
    assert_eq!(r.headers[2], ("content-type".to_owned(), "application/json".to_owned()));
}

#[test]
fn header_values_with_control_characters_are_rejected() {
    let c = Slurm::new("bad\nuser", "tok", "http://host.example").unwrap();
    let r = c.ping_request();
    assert_eq!(r.unwrap_err(), ClientError::InvalidHeaderValue);
    let c = Slurm::new("user", "bad\u{7f}token", "http://host.example").unwrap();
    assert_eq!(c.ping_request().unwrap_err(), ClientError::InvalidHeaderValue);
}

#[test]
fn tab_and_high_characters_are_accepted_in_header_values() {
    let c = Slurm::new("tab\tuser", "tok\u{e9}", "http://host.example").unwrap();
    assert!(c.ping_request().is_ok());
}

#[test]
fn query_pairs_are_form_urlencoded() {
    let c = Slurm::new("u", "t", "http://host.example").unwrap();
    let q = vec![
        ("k".to_owned(), "v v".to_owned()),
        ("x".to_owned(), "*-._~".to_owned()),
        ("acc\u{e9}".to_owned(), "a&b=c".to_owned()),
    ];
    let r = c.request(Method::Get, "nodes", &Json::Null, Some(&q)).unwrap();
    assert_eq!(
        r.url,
        "http://host.example/slurm/v0.0.38/nodes?k=v+v&x=*-._%7E&acc%C3%A9=a%26b%3Dc"
    );
}

#[test]
fn an_empty_query_list_adds_no_question_mark() {
    let c = Slurm::new("u", "t", "http://host.example").unwrap();
    let q: Vec<(String, String)> = Vec::new();
    let r = c.request(Method::Get, "nodes", &Json::Null, Some(&q)).unwrap();
    assert_eq!(r.url, "http://host.example/slurm/v0.0.38/nodes");
}

#[test]
fn missing_endpoint_variable_fails_first() {
    let r = Slurm::from_env_values(None, Some("u".to_owned()), Some("t".to_owned()));
    assert_eq!(r.unwrap_err(), ClientError::MissingEnv(EnvVar::Endpoint));
}

#[test]
fn missing_user_variable_is_named() {
    let r = Slurm::from_env_values(Some("http://host.example".to_owned()), None, None);
    assert_eq!(r.unwrap_err(), ClientError::MissingEnv(EnvVar::UserName));
}

#[test]
fn missing_token_variable_is_named() {
    let r = Slurm::from_env_values(
        Some("http://host.example".to_owned()),
        Some("u".to_owned()),
        None,
    );
    assert_eq!(r.unwrap_err(), ClientError::MissingEnv(EnvVar::UserToken));
}

#[test]
fn env_construction_with_all_values_succeeds() {
    let r = Slurm::from_env_values(
        Some("http://host.example".to_owned()),
        Some("u".to_owned()),
        Some("t".to_owned()),
    );
    assert!(r.is_ok());
    let r = SlurmDB::from_env_values(
        Some("http://host.example".to_owned()),
        Some("u".to_owned()),
        Some("t".to_owned()),
    );
    assert!(r.is_ok());
    let r = SlurmDB::from_env_values(None, None, None);
    assert_eq!(r.unwrap_err(), ClientError::MissingEnv(EnvVar::Endpoint));
}

#[test]
fn env_var_names_are_the_documented_ones() {
    assert_eq!(EnvVar::Endpoint.name(), "X_SLURM_ENDPOINT");
    assert_eq!(EnvVar::UserName.name(), "X_SLURM_USER_NAME");
    assert_eq!(EnvVar::UserToken.name(), "X_SLURM_USER_TOKEN");
}

#[test]
fn method_names_on_the_wire() {
    assert_eq!(Method::Get.name(), "GET");
    assert_eq!(Method::Delete.name(), "DELETE");
    assert_eq!(Method::Post.name(), "POST");
}

use nomad_rs_api::config::Config;
use nomad_rs_api::option::{QueryOptions, WriteOptions};
use nomad_rs_api::request::{set_request_query_options, set_request_write_options, Method};

fn pair(k: &str, v: &str) -> (String, String) {
    (k.to_string(), v.to_string())
}

fn local_config(token: Option<&str>) -> Config {
    Config {
        address: "http://localhost:4646".to_string(),
        region: "global".to_string(),
        token: token.map(|t| t.to_string()),
    }
}

#[test]
fn no_options_send_default_region_and_no_token() {
    let config = local_config(None);
    let req = set_request_query_options(config.build_request(Method::Get, "/v1/jobs"), &QueryOptions::new());
    assert_eq!(req.url, "http://localhost:4646/v1/jobs");
    assert_eq!(req.query, vec![pair("region", "global")]);
    assert!(req.headers.is_empty());
    assert!(req.body.is_none());
    assert_eq!(req.method, Method::Get);
}

#[test]
fn namespace_and_wait_index_follow_region() {
    let config = local_config(None);
    let opts = QueryOptions::new().with_namespace("prod".to_string()).with_wait_index(42);
    let req = set_request_query_options(config.build_request(Method::Get, "/v1/jobs"), &opts);
    assert_eq!(
        req.query,
        vec![pair("region", "global"), pair("namespace", "prod"), pair("wait_index", "42")]
    );
}

#[test]
fn absent_options_leave_builder_output() {
    let config = local_config(Some("secret"));
    let base = config.build_request(Method::Post, "/v1/acl/policy/p");
    let expected_query = base.query.clone();
    let expected_headers = base.headers.clone();
    let req = set_request_query_options(base, &QueryOptions::default());
    assert_eq!(req.query, expected_query);
    assert_eq!(req.headers, expected_headers);
    let base = config.build_request(Method::Post, "/v1/acl/policy/p");
    let req = set_request_write_options(base, &WriteOptions::default());
    assert_eq!(req.query, expected_query);
    assert_eq!(req.headers, expected_headers);
}

#[test]
fn default_token_goes_into_a_header() {
    let config = local_config(Some("abc"));
    let req = config.build_request(Method::Get, "/v1/regions");
    assert_eq!(req.headers, vec![pair("X-Nomad-Token", "abc")]);
}

#[test]
fn region_option_replaces_default_region() {
    let config = local_config(None);
    let opts = QueryOptions::new().with_region("eu".to_string());
    let req = set_request_query_options(config.build_request(Method::Get, "/v1/jobs"), &opts);
    assert_eq!(req.query, vec![pair("region", "eu")]);
}

#[test]
fn every_query_option_has_its_parameter() {
    let config = local_config(None);
    let opts = QueryOptions::new()
        .with_region("eu".to_string())
        .with_namespace("ns".to_string())
        .with_allow_stale(true)
        .with_wait_index(7)
        .with_wait_time(1500)
        .with_prefix("web".to_string())
        .with_params(vec![pair("meta", "true"), pair("meta", "false")])
        .with_filter("Status == \"running\"".to_string())
        .with_per_page(-3)
        .with_next_token("n1".to_string())
        .with_reverse(false);
    let req = set_request_query_options(config.build_request(Method::Get, "/v1/jobs"), &opts);
    assert_eq!(
        req.query,
        vec![
            pair("region", "eu"),
            pair("namespace", "ns"),
            pair("allow_stale", "true"),
            pair("wait_index", "7"),
            pair("wait_time", "1500"),
            pair("prefix", "web"),
            pair("meta", "true"),
            pair("meta", "false"),
            pair("filter", "Status == \"running\""),
            pair("per_page", "-3"),
            pair("next_token", "n1"),
            pair("reverse", "false"),
        ]
    );
}

#[test]
fn token_override_beats_default_and_custom_header() {
    let config = local_config(Some("default"));
    let opts = QueryOptions::new()
        .with_headers(vec![pair("x-nomad-token", "custom"), pair("X-Trace", "1")])
        .with_auth_token("override".to_string());
    let req = set_request_query_options(config.build_request(Method::Get, "/v1/jobs"), &opts);
    assert_eq!(req.headers, vec![pair("X-Trace", "1"), pair("X-Nomad-Token", "override")]);

    let wopts = WriteOptions::new()
        .with_auth_token("override".to_string())
        .with_headers(vec![pair("X-NOMAD-TOKEN", "custom")]);
    let req = set_request_write_options(config.build_request(Method::Post, "/v1/jobs"), &wopts);
    assert_eq!(req.headers, vec![pair("X-Nomad-Token", "override")]);
}

#[test]
fn custom_header_duplicate_last_write_wins() {
    let config = local_config(None);
    let opts = WriteOptions::new().with_headers(vec![
        pair("X-Trace", "1"),
        pair("Accept", "json"),
        pair("x-trace", "2"),
    ]);
    let req = set_request_write_options(config.build_request(Method::Delete, "/v1/acl/token/t"), &opts);
    assert_eq!(req.headers, vec![pair("Accept", "json"), pair("x-trace", "2")]);
}

#[test]
fn custom_header_replaces_default_token_without_override() {
    let config = local_config(Some("default"));
    let opts = QueryOptions::new().with_headers(vec![pair("X-Nomad-Token", "custom")]);
    let req = set_request_query_options(config.build_request(Method::Get, "/v1/jobs"), &opts);
    assert_eq!(req.headers, vec![pair("X-Nomad-Token", "custom")]);
}

#[test]
fn write_options_in_order() {
    let config = local_config(None);
    let opts = WriteOptions::new()
        .with_idempotency_token("once".to_string())
        .with_namespace("ops".to_string())
        .with_region("us".to_string());
    let req = set_request_write_options(config.build_request(Method::Put, "/v1/namespace/ops"), &opts);
    assert_eq!(
        req.query,
        vec![pair("region", "us"), pair("namespace", "ops"), pair("idempotency_token", "once")]
    );
    assert!(req.headers.is_empty());
    assert_eq!(req.method, Method::Put);
}

#[test]
fn body_is_attached() {
    let config = local_config(None);
    let req = config.build_request(Method::Post, "/v1/acl/policy/p").with_body(b"{}".to_vec());
    assert_eq!(req.body, Some(b"{}".to_vec()));
}

#[test]
fn config_defaults_and_environment_values() {
    let d = Config::default();
    assert_eq!(d.address, "http://127.0.0.1:4646");
    assert_eq!(d.region, "global");
    assert!(d.token.is_none());
    let c = Config::from_values(None, Some("eu".to_string()), Some("t".to_string()));
    assert_eq!(c.address, "http://127.0.0.1:4646");
    assert_eq!(c.region, "eu");
    assert_eq!(c.token, Some("t".to_string()));
    let c = Config::from_values(Some("http://nomad:4646".to_string()), None, None);
    assert_eq!(c.address, "http://nomad:4646");
    assert_eq!(c.region, "global");
    assert!(c.token.is_none());
}

use nomad_rs_api::config::Config;
use nomad_rs_api::endpoints;
use nomad_rs_api::option::{QueryOptions, WriteOptions};
use nomad_rs_api::request::Method;

fn config() -> Config {
    Config {
        address: "http://localhost:4646".to_string(),
        region: "global".to_string(),
        token: Some("t0".to_string()),
    }
}

fn pair(k: &str, v: &str) -> (String, String) {
    (k.to_string(), v.to_string())
}

#[test]
fn policy_paths_and_methods() {
    let c = config();
    let r = endpoints::acl_policy_create(&c, "ops", &WriteOptions::new());
    assert_eq!(r.method, Method::Post);
    assert_eq!(r.url, "http://localhost:4646/v1/acl/policy/ops");
    let r = endpoints::acl_policy_delete(&c, "ops", &WriteOptions::new());
    assert_eq!(r.method, Method::Delete);
    let r = endpoints::acl_policy_list(&c, &QueryOptions::new());
    assert_eq!(r.url, "http://localhost:4646/v1/acl/policies");
    assert_eq!(r.headers, vec![pair("X-Nomad-Token", "t0")]);
}

#[test]
fn evaluation_paths() {
    let c = config();
    let r = endpoints::evaluation_get(&c, "e1", &QueryOptions::new());
    assert_eq!(r.url, "http://localhost:4646/v1/evaluation/e1?related=true");
    let r = endpoints::evaluation_allocations_list(&c, "e1", &QueryOptions::new());
    assert_eq!(r.url, "http://localhost:4646/v1/evaluation/e1/allocations");
    let r = endpoints::evaluations_delete(&c, &WriteOptions::new());
    assert_eq!(r.method, Method::Delete);
    assert_eq!(r.url, "http://localhost:4646/v1/evaluations");
}

#[test]
fn options_reach_endpoint_requests() {
    let c = config();
    let q = QueryOptions::new().with_namespace("prod".to_string()).with_auth_token("t1".to_string());
    let r = endpoints::namespace_get(&c, "prod", &q);
    assert_eq!(r.url, "http://localhost:4646/v1/namespace/prod");
    assert_eq!(r.query, vec![pair("region", "global"), pair("namespace", "prod")]);
    assert_eq!(r.headers, vec![pair("X-Nomad-Token", "t1")]);
    let w = WriteOptions::new().with_idempotency_token("k".to_string());
    let r = endpoints::node_pool_create(&c, &w);
    assert_eq!(r.method, Method::Put);
    assert_eq!(r.url, "http://localhost:4646/v1/node/pool");
    assert_eq!(r.query, vec![pair("region", "global"), pair("idempotency_token", "k")]);
}

#[test]
fn endpoints_without_options() {
    let c = config();
    let r = endpoints::service_get(&c, "web");
    assert_eq!(r.method, Method::Get);
    assert_eq!(r.url, "http://localhost:4646/v1/service/web");
    assert_eq!(r.query, vec![pair("region", "global")]);
    let r = endpoints::status_peers(&c);
    assert_eq!(r.url, "http://localhost:4646/v1/status/peers");
    let r = endpoints::region_list(&c);
    assert_eq!(r.url, "http://localhost:4646/v1/regions");
}

#[test]
fn deployment_and_token_paths() {
    let c = config();
    let r = endpoints::deployment_promote(&c, "d1", &WriteOptions::new());
    assert_eq!(r.url, "http://localhost:4646/v1/deployment/promote/d1");
    let r = endpoints::deployment_fail(&c, "d1", &WriteOptions::new());
    assert_eq!(r.url, "http://localhost:4646/v1/deployment/fail/d1");
    let r = endpoints::acl_token_get_self(&c, &QueryOptions::new());
    assert_eq!(r.url, "http://localhost:4646/v1/acl/token/self");
    let r = endpoints::acl_token_bootstrap(&c, &WriteOptions::new());
    assert_eq!(r.method, Method::Post);
    assert_eq!(r.url, "http://localhost:4646/v1/acl/bootstrap");
}

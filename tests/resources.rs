use nomad_rs_api::acl_policy::ACLPolicy;
use nomad_rs_api::acl_token::{ACLTokenBootstrapRequest, ACLTokenCreateRequest};
use nomad_rs_api::evaluation::EvalualtionDeleteRequest;
use nomad_rs_api::job::{
    JobAllocationsListRequest, JobDeregisterRequest, JobDispatchRequest, JobEvaluationForceRequest,
    JobListDeploymentsRequest,
};
use nomad_rs_api::namespace::Namespace;
use nomad_rs_api::node_pool::NodePool;
use std::collections::HashMap;

#[test]
fn policy_new_sets_name_and_rules() {
    let p = ACLPolicy::new("readonly".to_string(), "namespace \"default\" {}".to_string());
    assert_eq!(p.name, "readonly");
    assert_eq!(p.rules, "namespace \"default\" {}");
    assert!(p.description.is_none() && p.job_acl.is_none());
    assert!(p.create_index.is_none() && p.modify_index.is_none());
}

#[test]
fn token_requests() {
    let b = ACLTokenBootstrapRequest::new("s3cr3t".to_string());
    assert_eq!(b.bootstrap_secret, "s3cr3t");
    let c = ACLTokenCreateRequest::new("client".to_string(), true);
    assert_eq!(c.token_type, "client");
    assert!(c.global);
    assert!(c.name.is_none() && c.policies.is_none() && c.roles.is_none());
    assert!(c.expiration_time.is_none() && c.expiration_ttl.is_none());
}

#[test]
fn evaluation_delete_requests() {
    let r = EvalualtionDeleteRequest::new_with_ids(vec!["e1".to_string()]);
    assert_eq!(r.eval_ids, Some(vec!["e1".to_string()]));
    assert!(r.filter.is_none());
    let r = EvalualtionDeleteRequest::new_with_filter("Status == \"failed\"".to_string());
    assert!(r.eval_ids.is_none());
    assert_eq!(r.filter, Some("Status == \"failed\"".to_string()));
}

#[test]
fn job_requests() {
    let d = JobDeregisterRequest::new("web".to_string());
    assert_eq!(d.job_id, "web");
    assert!(!d.purge && !d.global && !d.no_shutdown_delay);
    assert_eq!(d.eval_priority, 0);
    let l = JobListDeploymentsRequest::new("web".to_string(), true);
    assert!(l.all);
    let a = JobAllocationsListRequest::new("web".to_string(), false);
    assert!(!a.all_allocs);
    let f = JobEvaluationForceRequest::new("web".to_string(), true);
    assert!(f.force_reschedule && f.eval_options.is_none());
}

#[test]
fn dispatch_request_builders() {
    let mut meta = HashMap::new();
    meta.insert("k".to_string(), "v".to_string());
    let r = JobDispatchRequest::new("batch".to_string())
        .with_payload(vec![1, 2, 3])
        .with_meta(meta.clone())
        .with_id_prefix_template("nightly".to_string())
        .with_priority(70);
    assert_eq!(r.job_id, "batch");
    assert_eq!(r.payload, Some(vec![1, 2, 3]));
    assert_eq!(r.meta, Some(meta));
    assert_eq!(r.id_prefix_template, Some("nightly".to_string()));
    assert_eq!(r.priority, Some(70));
    let bare = JobDispatchRequest::new("batch".to_string());
    assert!(bare.payload.is_none() && bare.meta.is_none() && bare.priority.is_none());
}

#[test]
fn namespace_and_node_pool_new() {
    let n = Namespace::new("prod".to_string());
    assert_eq!(n.name, "prod");
    assert!(n.description.is_none() && n.quota.is_none() && n.meta.is_none());
    let p = NodePool::new("gpu".to_string());
    assert_eq!(p.name, "gpu");
    assert!(p.description.is_none() && p.scheduler_configuration.is_none());
}

use nomad_rs_api::config::Config;
use nomad_rs_api::endpoints;
use nomad_rs_api::error::ClientError;
use nomad_rs_api::job::{
    Job, JobAllocationsListRequest, JobDeregisterRequest, JobListDeploymentsRequest,
    JobRegisterRequest, JobTaskGroup, JobValidateRequest, JobsListRequest, Task,
    JOB_DEFAULT_PRIORITY,
};
use nomad_rs_api::listing::{by_identifier, text_ordered};
use nomad_rs_api::option::{QueryOptions, WriteOptions};
use nomad_rs_api::request::Method;

fn config() -> Config {
    Config {
        address: "http://localhost:4646".to_string(),
        region: "global".to_string(),
        token: None,
    }
}

#[test]
fn job_default_is_a_service_job_with_one_group() {
    let j = Job::default();
    assert_eq!(j.region, Some("global".to_string()));
    assert_eq!(j.namespace, Some("default".to_string()));
    assert_eq!(j.type_, Some("service".to_string()));
    assert_eq!(j.priority, Some(JOB_DEFAULT_PRIORITY));
    assert_eq!(j.priority, Some(50));
    assert_eq!(j.name, "");
    assert_eq!(j.task_groups.len(), 1);
    assert_eq!(j.task_groups[0].name, "");
    assert!(j.task_groups[0].tasks.is_empty());
    assert!(j.id.is_none() && j.datacenters.is_none() && j.meta.is_none());
}

#[test]
fn job_new_keeps_defaults_elsewhere() {
    let task = Task::new("server".to_string(), "docker".to_string());
    assert_eq!(task.driver, "docker");
    assert!(task.config.is_none() && task.resources.is_none());
    let group = JobTaskGroup::new("web".to_string(), vec![task]);
    assert_eq!(group.name, "web");
    assert_eq!(group.tasks.len(), 1);
    assert!(group.count.is_none());
    let j = Job::new("example".to_string(), "eu".to_string(), "batch".to_string(), vec![group]);
    assert_eq!(j.name, "example");
    assert_eq!(j.region, Some("eu".to_string()));
    assert_eq!(j.type_, Some("batch".to_string()));
    assert_eq!(j.namespace, Some("default".to_string()));
    assert_eq!(j.priority, Some(50));
    assert_eq!(j.task_groups[0].name, "web");
    let r = JobRegisterRequest::new(&j);
    assert_eq!(r.job.name, "example");
    assert!(r.enforce_index.is_none() && r.submission.is_none());
    let v = JobValidateRequest::new(&j);
    assert_eq!(v.job.name, "example");
}

#[test]
fn deregister_settings_travel_in_the_path() {
    let mut req = JobDeregisterRequest::new("web".to_string());
    req.purge = true;
    req.eval_priority = -5;
    let r = endpoints::job_deregister(&config(), &req, &WriteOptions::new());
    assert_eq!(r.method, Method::Delete);
    assert_eq!(
        r.url,
        "http://localhost:4646/v1/job/web?purge=true&global=false&eval_priority=-5&no_shutdown_delay=false"
    );
}

#[test]
fn job_list_meta_flag() {
    let c = config();
    let r = endpoints::job_list(&c, None, &QueryOptions::new());
    assert_eq!(r.url, "http://localhost:4646/v1/jobs?meta=false");
    let with_meta = JobsListRequest { meta: Some(true) };
    let r = endpoints::job_list(&c, Some(&with_meta), &QueryOptions::new());
    assert_eq!(r.url, "http://localhost:4646/v1/jobs?meta=true");
    let unset = JobsListRequest::default();
    let r = endpoints::job_list(&c, Some(&unset), &QueryOptions::new());
    assert_eq!(r.url, "http://localhost:4646/v1/jobs?meta=false");
}

#[test]
fn job_listing_paths() {
    let c = config();
    let r = endpoints::job_list_allocations(
        &c,
        &JobAllocationsListRequest::new("web".to_string(), true),
        &QueryOptions::new(),
    );
    assert_eq!(r.url, "http://localhost:4646/v1/job/web/allocations?all=true");
    let r = endpoints::job_list_deployments(
        &c,
        &JobListDeploymentsRequest::new("web".to_string(), false),
        &QueryOptions::new(),
    );
    assert_eq!(r.url, "http://localhost:4646/v1/job/web/deployments?all=false");
    let r = endpoints::job_get_summary(&c, "web", &QueryOptions::new());
    assert_eq!(r.url, "http://localhost:4646/v1/job/web/summary");
    let r = endpoints::job_register(&c, &WriteOptions::new());
    assert_eq!(r.url, "http://localhost:4646/v1/jobs");
}

#[test]
fn plan_needs_a_job_id() {
    let c = config();
    match endpoints::job_plan(&c, &None, &WriteOptions::new()) {
        Err(ClientError::RequestCreationError(m)) => assert_eq!(m, "Job ID must be set"),
        other => panic!("unexpected {:?}", other),
    }
    let r = endpoints::job_plan(&c, &Some("web".to_string()), &WriteOptions::new()).unwrap();
    assert_eq!(r.method, Method::Post);
    assert_eq!(r.url, "http://localhost:4646/v1/job/web/plan");
}

#[test]
fn identifiers_in_byte_order() {
    let ids: Vec<String> = ["web", "api", "web", "Zeta", "ap", "é"].iter().map(|s| s.to_string()).collect();
    assert_eq!(by_identifier(&ids), vec![3, 4, 1, 0, 2, 5]);
    assert_eq!(by_identifier(&Vec::new()), Vec::<usize>::new());
}

#[test]
fn text_order_matches_string_order() {
    for (a, b) in [("a", "b"), ("ab", "a"), ("", "x"), ("same", "same"), ("Z", "a"), ("é", "z")] {
        assert_eq!(text_ordered(a, b), a <= b, "{} {}", a, b);
        assert_eq!(text_ordered(b, a), b <= a, "{} {}", b, a);
    }
}

//! The request of each call that the server offers: its method, its path,
//! and the options it takes.

use crate::config::{base_request, Config};
use crate::error::ClientError;
use crate::job::{
    JobAllocationsListRequest, JobDeregisterRequest, JobListDeploymentsRequest, JobsListRequest,
};
use crate::option::{QueryOptions, WriteOptions};
use crate::request::{
    set_request_query_options, set_request_write_options, with_query_options, with_write_options,
    Method, PendingRequest,
};
use crate::text::{bool_str, bool_text, i64_text, signed_decimal};
use vstd::prelude::*;

verus! {

/// The request that creates or updates the ACL policy named `name`: `POST /v1/acl/policy/<name>`.
pub fn acl_policy_create(config: &Config, name: &str, opts: &WriteOptions) -> (r: PendingRequest)
    ensures
        r@ == with_write_options(base_request(*config, Method::Post, "/v1/acl/policy/"@ + name@), *opts),
{
        let path = String::from_str("/v1/acl/policy/").concat(name);
        let req = config.build_request(Method::Post, path.as_str());
        set_request_write_options(req, opts)
}

/// The request that deletes the ACL policy named `name`: `DELETE /v1/acl/policy/<name>`.
pub fn acl_policy_delete(config: &Config, name: &str, opts: &WriteOptions) -> (r: PendingRequest)
    ensures
        r@ == with_write_options(base_request(*config, Method::Delete, "/v1/acl/policy/"@ + name@), *opts),
{
        let path = String::from_str("/v1/acl/policy/").concat(name);
        let req = config.build_request(Method::Delete, path.as_str());
        set_request_write_options(req, opts)
}

/// The request that reads the ACL policy named `name`: `GET /v1/acl/policy/<name>`.
pub fn acl_policy_get(config: &Config, name: &str, opts: &QueryOptions) -> (r: PendingRequest)
    ensures
        r@ == with_query_options(base_request(*config, Method::Get, "/v1/acl/policy/"@ + name@), *opts),
{
        let path = String::from_str("/v1/acl/policy/").concat(name);
        let req = config.build_request(Method::Get, path.as_str());
        set_request_query_options(req, opts)
}

/// The request that lists the ACL policies of the calling token: `GET /v1/acl/policy/self`.
pub fn acl_policy_get_self(config: &Config, opts: &QueryOptions) -> (r: PendingRequest)
    ensures
        r@ == with_query_options(base_request(*config, Method::Get, "/v1/acl/policy/self"@), *opts),
{
        let req = config.build_request(Method::Get, "/v1/acl/policy/self");
        set_request_query_options(req, opts)
}

/// The request that lists the ACL policies: `GET /v1/acl/policies`.
pub fn acl_policy_list(config: &Config, opts: &QueryOptions) -> (r: PendingRequest)
    ensures
        r@ == with_query_options(base_request(*config, Method::Get, "/v1/acl/policies"@), *opts),
{
        let req = config.build_request(Method::Get, "/v1/acl/policies");
        set_request_query_options(req, opts)
}

/// The request that bootstraps the ACL system: `POST /v1/acl/bootstrap`.
pub fn acl_token_bootstrap(config: &Config, opts: &WriteOptions) -> (r: PendingRequest)
    ensures
        r@ == with_write_options(base_request(*config, Method::Post, "/v1/acl/bootstrap"@), *opts),
{
        let req = config.build_request(Method::Post, "/v1/acl/bootstrap");
        set_request_write_options(req, opts)
}

/// The request that creates an ACL token: `POST /v1/acl/token`.
pub fn acl_token_create(config: &Config, opts: &WriteOptions) -> (r: PendingRequest)
    ensures
        r@ == with_write_options(base_request(*config, Method::Post, "/v1/acl/token"@), *opts),
{
        let req = config.build_request(Method::Post, "/v1/acl/token");
        set_request_write_options(req, opts)
}

/// The request that deletes the ACL token with accessor `name`: `DELETE /v1/acl/token/<name>`.
pub fn acl_token_delete(config: &Config, name: &str, opts: &WriteOptions) -> (r: PendingRequest)
    ensures
        r@ == with_write_options(base_request(*config, Method::Delete, "/v1/acl/token/"@ + name@), *opts),
{
        let path = String::from_str("/v1/acl/token/").concat(name);
        let req = config.build_request(Method::Delete, path.as_str());
        set_request_write_options(req, opts)
}

/// The request that reads the ACL token with accessor `name`: `GET /v1/acl/token/<name>`.
pub fn acl_token_get(config: &Config, name: &str, opts: &QueryOptions) -> (r: PendingRequest)
    ensures
        r@ == with_query_options(base_request(*config, Method::Get, "/v1/acl/token/"@ + name@), *opts),
{
        let path = String::from_str("/v1/acl/token/").concat(name);
        let req = config.build_request(Method::Get, path.as_str());
        set_request_query_options(req, opts)
}

/// The request that reads the calling ACL token: `GET /v1/acl/token/self`.
pub fn acl_token_get_self(config: &Config, opts: &QueryOptions) -> (r: PendingRequest)
    ensures
        r@ == with_query_options(base_request(*config, Method::Get, "/v1/acl/token/self"@), *opts),
{
        let req = config.build_request(Method::Get, "/v1/acl/token/self");
        set_request_query_options(req, opts)
}

/// The request that lists the ACL tokens: `GET /v1/acl/tokens`.
pub fn acl_token_list(config: &Config, opts: &QueryOptions) -> (r: PendingRequest)
    ensures
        r@ == with_query_options(base_request(*config, Method::Get, "/v1/acl/tokens"@), *opts),
{
        let req = config.build_request(Method::Get, "/v1/acl/tokens");
        set_request_query_options(req, opts)
}

/// The request that marks the deployment `name` as failed: `POST /v1/deployment/fail/<name>`.
pub fn deployment_fail(config: &Config, name: &str, opts: &WriteOptions) -> (r: PendingRequest)
    ensures
        r@ == with_write_options(base_request(*config, Method::Post, "/v1/deployment/fail/"@ + name@), *opts),
{
        let path = String::from_str("/v1/deployment/fail/").concat(name);
        let req = config.build_request(Method::Post, path.as_str());
        set_request_write_options(req, opts)
}

/// The request that reads the deployment `name`: `GET /v1/deployment/<name>`.
pub fn deployment_get(config: &Config, name: &str, opts: &QueryOptions) -> (r: PendingRequest)
    ensures
        r@ == with_query_options(base_request(*config, Method::Get, "/v1/deployment/"@ + name@), *opts),
{
        let path = String::from_str("/v1/deployment/").concat(name);
        let req = config.build_request(Method::Get, path.as_str());
        set_request_query_options(req, opts)
}

/// The request that lists the deployments: `GET /v1/deployments`.
pub fn deployment_list(config: &Config, opts: &QueryOptions) -> (r: PendingRequest)
    ensures
        r@ == with_query_options(base_request(*config, Method::Get, "/v1/deployments"@), *opts),
{
        let req = config.build_request(Method::Get, "/v1/deployments");
        set_request_query_options(req, opts)
}

/// The request that promotes the deployment `name`: `POST /v1/deployment/promote/<name>`.
pub fn deployment_promote(config: &Config, name: &str, opts: &WriteOptions) -> (r: PendingRequest)
    ensures
        r@ == with_write_options(base_request(*config, Method::Post, "/v1/deployment/promote/"@ + name@), *opts),
{
        let path = String::from_str("/v1/deployment/promote/").concat(name);
        let req = config.build_request(Method::Post, path.as_str());
        set_request_write_options(req, opts)
}

/// The request that pauses or resumes the deployment `name`: `POST /v1/deployment/progress/<name>`.
pub fn deployment_set_pause(config: &Config, name: &str, opts: &WriteOptions) -> (r: PendingRequest)
    ensures
        r@ == with_write_options(base_request(*config, Method::Post, "/v1/deployment/progress/"@ + name@), *opts),
{
        let path = String::from_str("/v1/deployment/progress/").concat(name);
        let req = config.build_request(Method::Post, path.as_str());
        set_request_write_options(req, opts)
}

/// The request that lists the allocations of the evaluation `name`: `GET /v1/evaluation/<name>/allocations`.
pub fn evaluation_allocations_list(config: &Config, name: &str, opts: &QueryOptions) -> (r: PendingRequest)
    ensures
        r@ == with_query_options(base_request(*config, Method::Get, "/v1/evaluation/"@ + name@ + "/allocations"@), *opts),
{
        let path = String::from_str("/v1/evaluation/").concat(name).concat("/allocations");
        let req = config.build_request(Method::Get, path.as_str());
        set_request_query_options(req, opts)
}

/// The request that reads the evaluation `name` with its related evaluations: `GET /v1/evaluation/<name>?related=true`.
pub fn evaluation_get(config: &Config, name: &str, opts: &QueryOptions) -> (r: PendingRequest)
    ensures
        r@ == with_query_options(base_request(*config, Method::Get, "/v1/evaluation/"@ + name@ + "?related=true"@), *opts),
{
        let path = String::from_str("/v1/evaluation/").concat(name).concat("?related=true");
        let req = config.build_request(Method::Get, path.as_str());
        set_request_query_options(req, opts)
}

/// The request that counts the evaluations: `GET /v1/evaluations/count`.
pub fn evaluations_count(config: &Config, opts: &QueryOptions) -> (r: PendingRequest)
    ensures
        r@ == with_query_options(base_request(*config, Method::Get, "/v1/evaluations/count"@), *opts),
{
        let req = config.build_request(Method::Get, "/v1/evaluations/count");
        set_request_query_options(req, opts)
}

/// The request that deletes evaluations: `DELETE /v1/evaluations`.
pub fn evaluations_delete(config: &Config, opts: &WriteOptions) -> (r: PendingRequest)
    ensures
        r@ == with_write_options(base_request(*config, Method::Delete, "/v1/evaluations"@), *opts),
{
        let req = config.build_request(Method::Delete, "/v1/evaluations");
        set_request_write_options(req, opts)
}

/// The request that lists the evaluations: `GET /v1/evaluations`.
pub fn evaluations_list(config: &Config, opts: &QueryOptions) -> (r: PendingRequest)
    ensures
        r@ == with_query_options(base_request(*config, Method::Get, "/v1/evaluations"@), *opts),
{
        let req = config.build_request(Method::Get, "/v1/evaluations");
        set_request_query_options(req, opts)
}

/// The request that creates or updates a namespace: `PUT /v1/namespace`.
pub fn namespace_create(config: &Config, opts: &WriteOptions) -> (r: PendingRequest)
    ensures
        r@ == with_write_options(base_request(*config, Method::Put, "/v1/namespace"@), *opts),
{
        let req = config.build_request(Method::Put, "/v1/namespace");
        set_request_write_options(req, opts)
}

/// The request that deletes the namespace `name`: `DELETE /v1/namespace/<name>`.
pub fn namespace_delete(config: &Config, name: &str, opts: &WriteOptions) -> (r: PendingRequest)
    ensures
        r@ == with_write_options(base_request(*config, Method::Delete, "/v1/namespace/"@ + name@), *opts),
{
        let path = String::from_str("/v1/namespace/").concat(name);
        let req = config.build_request(Method::Delete, path.as_str());
        set_request_write_options(req, opts)
}

/// The request that reads the namespace `name`: `GET /v1/namespace/<name>`.
pub fn namespace_get(config: &Config, name: &str, opts: &QueryOptions) -> (r: PendingRequest)
    ensures
        r@ == with_query_options(base_request(*config, Method::Get, "/v1/namespace/"@ + name@), *opts),
{
        let path = String::from_str("/v1/namespace/").concat(name);
        let req = config.build_request(Method::Get, path.as_str());
        set_request_query_options(req, opts)
}

/// The request that lists the namespaces: `GET /v1/namespaces`.
pub fn namespace_list(config: &Config, opts: &QueryOptions) -> (r: PendingRequest)
    ensures
        r@ == with_query_options(base_request(*config, Method::Get, "/v1/namespaces"@), *opts),
{
        let req = config.build_request(Method::Get, "/v1/namespaces");
        set_request_query_options(req, opts)
}

/// The request that creates or updates a node pool: `PUT /v1/node/pool`.
pub fn node_pool_create(config: &Config, opts: &WriteOptions) -> (r: PendingRequest)
    ensures
        r@ == with_write_options(base_request(*config, Method::Put, "/v1/node/pool"@), *opts),
{
        let req = config.build_request(Method::Put, "/v1/node/pool");
        set_request_write_options(req, opts)
}

/// The request that deletes the node pool `name`: `DELETE /v1/node/pool/<name>`.
pub fn node_pool_delete(config: &Config, name: &str, opts: &WriteOptions) -> (r: PendingRequest)
    ensures
        r@ == with_write_options(base_request(*config, Method::Delete, "/v1/node/pool/"@ + name@), *opts),
{
        let path = String::from_str("/v1/node/pool/").concat(name);
        let req = config.build_request(Method::Delete, path.as_str());
        set_request_write_options(req, opts)
}

/// The request that reads the node pool `name`: `GET /v1/node/pool/<name>`.
pub fn node_pool_get(config: &Config, name: &str, opts: &QueryOptions) -> (r: PendingRequest)
    ensures
        r@ == with_query_options(base_request(*config, Method::Get, "/v1/node/pool/"@ + name@), *opts),
{
        let path = String::from_str("/v1/node/pool/").concat(name);
        let req = config.build_request(Method::Get, path.as_str());
        set_request_query_options(req, opts)
}

/// The request that lists the node pools: `GET /v1/node/pools`.
pub fn node_pool_list(config: &Config, opts: &QueryOptions) -> (r: PendingRequest)
    ensures
        r@ == with_query_options(base_request(*config, Method::Get, "/v1/node/pools"@), *opts),
{
        let req = config.build_request(Method::Get, "/v1/node/pools");
        set_request_query_options(req, opts)
}

/// The request that lists the regions: `GET /v1/regions`.
pub fn region_list(config: &Config) -> (r: PendingRequest)
    ensures
        r@ == base_request(*config, Method::Get, "/v1/regions"@),
{
        let req = config.build_request(Method::Get, "/v1/regions");
        req
}

/// The request that deletes the service registration `name`: `DELETE /v1/service/<name>`.
pub fn service_delete(config: &Config, name: &str) -> (r: PendingRequest)
    ensures
        r@ == base_request(*config, Method::Delete, "/v1/service/"@ + name@),
{
        let path = String::from_str("/v1/service/").concat(name);
        let req = config.build_request(Method::Delete, path.as_str());
        req
}

/// The request that reads the registrations of the service `name`: `GET /v1/service/<name>`.
pub fn service_get(config: &Config, name: &str) -> (r: PendingRequest)
    ensures
        r@ == base_request(*config, Method::Get, "/v1/service/"@ + name@),
{
        let path = String::from_str("/v1/service/").concat(name);
        let req = config.build_request(Method::Get, path.as_str());
        req
}

/// The request that lists the services: `GET /v1/services`.
pub fn service_list(config: &Config) -> (r: PendingRequest)
    ensures
        r@ == base_request(*config, Method::Get, "/v1/services"@),
{
        let req = config.build_request(Method::Get, "/v1/services");
        req
}

/// The request that reads the address of the cluster leader: `GET /v1/status/leader`.
pub fn status_leader(config: &Config, opts: &QueryOptions) -> (r: PendingRequest)
    ensures
        r@ == with_query_options(base_request(*config, Method::Get, "/v1/status/leader"@), *opts),
{
        let req = config.build_request(Method::Get, "/v1/status/leader");
        set_request_query_options(req, opts)
}

/// The request that lists the addresses of the server peers: `GET /v1/status/peers`.
pub fn status_peers(config: &Config) -> (r: PendingRequest)
    ensures
        r@ == base_request(*config, Method::Get, "/v1/status/peers"@),
{
        let req = config.build_request(Method::Get, "/v1/status/peers");
        req
}

/// The request that dispatches an instance of the parameterized job `name`: `POST /v1/job/<name>/dispatch`.
pub fn job_dispatch(config: &Config, name: &str, opts: &WriteOptions) -> (r: PendingRequest)
    ensures
        r@ == with_write_options(base_request(*config, Method::Post, "/v1/job/"@ + name@ + "/dispatch"@), *opts),
{
        let path = String::from_str("/v1/job/").concat(name).concat("/dispatch");
        let req = config.build_request(Method::Post, path.as_str());
        set_request_write_options(req, opts)
}

/// The request that forces a new evaluation of the job `name`: `POST /v1/job/<name>/evaluate`.
pub fn job_force_evaluation(config: &Config, name: &str, opts: &WriteOptions) -> (r: PendingRequest)
    ensures
        r@ == with_write_options(base_request(*config, Method::Post, "/v1/job/"@ + name@ + "/evaluate"@), *opts),
{
        let path = String::from_str("/v1/job/").concat(name).concat("/evaluate");
        let req = config.build_request(Method::Post, path.as_str());
        set_request_write_options(req, opts)
}

/// The request that forces a launch of the periodic job `name`: `POST /v1/job/<name>/periodic/force`.
pub fn job_force_periodic(config: &Config, name: &str, opts: &WriteOptions) -> (r: PendingRequest)
    ensures
        r@ == with_write_options(base_request(*config, Method::Post, "/v1/job/"@ + name@ + "/periodic/force"@), *opts),
{
        let path = String::from_str("/v1/job/").concat(name).concat("/periodic/force");
        let req = config.build_request(Method::Post, path.as_str());
        set_request_write_options(req, opts)
}

/// The request that reads the job `name`: `GET /v1/job/<name>`.
pub fn job_get(config: &Config, name: &str, opts: &QueryOptions) -> (r: PendingRequest)
    ensures
        r@ == with_query_options(base_request(*config, Method::Get, "/v1/job/"@ + name@), *opts),
{
        let path = String::from_str("/v1/job/").concat(name);
        let req = config.build_request(Method::Get, path.as_str());
        set_request_query_options(req, opts)
}

/// The request that reads the latest deployment of the job `name`: `GET /v1/job/<name>/deployment`.
pub fn job_get_latest_deployment(config: &Config, name: &str, opts: &QueryOptions) -> (r: PendingRequest)
    ensures
        r@ == with_query_options(base_request(*config, Method::Get, "/v1/job/"@ + name@ + "/deployment"@), *opts),
{
        let path = String::from_str("/v1/job/").concat(name).concat("/deployment");
        let req = config.build_request(Method::Get, path.as_str());
        set_request_query_options(req, opts)
}

/// The request that reads the summary of the job `name`: `GET /v1/job/<name>/summary`.
pub fn job_get_summary(config: &Config, name: &str, opts: &QueryOptions) -> (r: PendingRequest)
    ensures
        r@ == with_query_options(base_request(*config, Method::Get, "/v1/job/"@ + name@ + "/summary"@), *opts),
{
        let path = String::from_str("/v1/job/").concat(name).concat("/summary");
        let req = config.build_request(Method::Get, path.as_str());
        set_request_query_options(req, opts)
}

/// The request that lists the evaluations of the job `name`: `GET /v1/job/<name>/evaluations`.
pub fn job_list_evaluations(config: &Config, name: &str, opts: &QueryOptions) -> (r: PendingRequest)
    ensures
        r@ == with_query_options(base_request(*config, Method::Get, "/v1/job/"@ + name@ + "/evaluations"@), *opts),
{
        let path = String::from_str("/v1/job/").concat(name).concat("/evaluations");
        let req = config.build_request(Method::Get, path.as_str());
        set_request_query_options(req, opts)
}

/// The request that registers a job: `POST /v1/jobs`.
pub fn job_register(config: &Config, opts: &WriteOptions) -> (r: PendingRequest)
    ensures
        r@ == with_write_options(base_request(*config, Method::Post, "/v1/jobs"@), *opts),
{
        let req = config.build_request(Method::Post, "/v1/jobs");
        set_request_write_options(req, opts)
}

/// The request that validates a job: `POST /v1/validate/job`.
pub fn job_validate(config: &Config, opts: &WriteOptions) -> (r: PendingRequest)
    ensures
        r@ == with_write_options(base_request(*config, Method::Post, "/v1/validate/job"@), *opts),
{
        let req = config.build_request(Method::Post, "/v1/validate/job");
        set_request_write_options(req, opts)
}

/// The path that stops a job, with the settings of the request in its
/// query string.
pub open spec fn deregister_path(r: JobDeregisterRequest) -> Seq<char> {
    "/v1/job/"@ + r.job_id@ + "?purge="@ + bool_text(r.purge) + "&global="@ + bool_text(r.global)
        + "&eval_priority="@ + signed_decimal(r.eval_priority as int) + "&no_shutdown_delay="@
        + bool_text(r.no_shutdown_delay)
}

/// The request that stops a job:
/// `DELETE /v1/job/<id>?purge=..&global=..&eval_priority=..&no_shutdown_delay=..`.
pub fn job_deregister(config: &Config, request: &JobDeregisterRequest, opts: &WriteOptions) -> (r:
    PendingRequest)
    ensures
        r@ == with_write_options(base_request(*config, Method::Delete, deregister_path(*request)), *opts),
{
    let path = String::from_str("/v1/job/").concat(request.job_id.as_str()).concat("?purge=").concat(
        bool_str(request.purge).as_str(),
    ).concat("&global=").concat(bool_str(request.global).as_str()).concat("&eval_priority=").concat(
        i64_text(request.eval_priority as i64).as_str(),
    ).concat("&no_shutdown_delay=").concat(bool_str(request.no_shutdown_delay).as_str());
    set_request_write_options(config.build_request(Method::Delete, path.as_str()), opts)
}

/// Whether a listing of jobs asks for their metadata: only when a request
/// is given and sets `meta` to true.
pub open spec fn wants_meta(request: Option<JobsListRequest>) -> bool {
    match request {
        Some(r) => r.meta == Some(true),
        None => false,
    }
}

/// The request that lists the jobs: `GET /v1/jobs?meta=<true|false>`.
pub fn job_list(config: &Config, request: Option<&JobsListRequest>, opts: &QueryOptions) -> (r:
    PendingRequest)
    ensures
        r@ == with_query_options(
            base_request(
                *config,
                Method::Get,
                "/v1/jobs?meta="@ + bool_text(
                    wants_meta(
                        match request {
                            Some(x) => Some(*x),
                            None => None,
                        },
                    ),
                ),
            ),
            *opts,
        ),
{
    let meta = match request {
        Some(x) => match x.meta {
            Some(m) => m,
            None => false,
        },
        None => false,
    };
    let path = String::from_str("/v1/jobs?meta=").concat(bool_str(meta).as_str());
    set_request_query_options(config.build_request(Method::Get, path.as_str()), opts)
}

/// The request that lists the allocations of a job:
/// `GET /v1/job/<id>/allocations?all=<true|false>`.
pub fn job_list_allocations(
    config: &Config,
    request: &JobAllocationsListRequest,
    opts: &QueryOptions,
) -> (r: PendingRequest)
    ensures
        r@ == with_query_options(
            base_request(
                *config,
                Method::Get,
                "/v1/job/"@ + request.job_id@ + "/allocations?all="@ + bool_text(request.all_allocs),
            ),
            *opts,
        ),
{
    let path = String::from_str("/v1/job/").concat(request.job_id.as_str()).concat(
        "/allocations?all=",
    ).concat(bool_str(request.all_allocs).as_str());
    set_request_query_options(config.build_request(Method::Get, path.as_str()), opts)
}

/// The request that lists the deployments of a job:
/// `GET /v1/job/<id>/deployments?all=<true|false>`.
pub fn job_list_deployments(
    config: &Config,
    request: &JobListDeploymentsRequest,
    opts: &QueryOptions,
) -> (r: PendingRequest)
    ensures
        r@ == with_query_options(
            base_request(
                *config,
                Method::Get,
                "/v1/job/"@ + request.job_id@ + "/deployments?all="@ + bool_text(request.all),
            ),
            *opts,
        ),
{
    let path = String::from_str("/v1/job/").concat(request.job_id.as_str()).concat(
        "/deployments?all=",
    ).concat(bool_str(request.all).as_str());
    set_request_query_options(config.build_request(Method::Get, path.as_str()), opts)
}

/// The request that plans a change of a job: `POST /v1/job/<id>/plan`. A
/// job without an identifier cannot be planned: that is a construction
/// error, and nothing is sent.
pub fn job_plan(config: &Config, job_id: &Option<String>, opts: &WriteOptions) -> (r: Result<
    PendingRequest,
    ClientError,
>)
    ensures
        match *job_id {
            Some(id) => r matches Ok(req) && req@ == with_write_options(
                base_request(*config, Method::Post, "/v1/job/"@ + id@ + "/plan"@),
                *opts,
            ),
            None => r matches Err(ClientError::RequestCreationError(m)) && m@
                == "Job ID must be set"@,
        },
{
    match job_id {
        Some(id) => {
            let path = String::from_str("/v1/job/").concat(id.as_str()).concat("/plan");
            Ok(set_request_write_options(config.build_request(Method::Post, path.as_str()), opts))
        },
        None => Err(ClientError::RequestCreationError(String::from_str("Job ID must be set"))),
    }
}


} // verus!

//! Requests that steer a deployment, and the server's answer to them.

use vstd::prelude::*;

verus! {

/// The server's answer to a change of a deployment.
#[derive(Debug, Clone)]
pub struct DeploymentUpdateResponse {
    pub eval_id: String,
    pub eval_create_index: u64,
    pub deployment_modify_index: u64,
    pub reverted_job_version: Option<u64>,
}

/// A request to pause or resume a deployment.
#[derive(Debug, Clone)]
pub struct DeploymentPauseRequest {
    pub deployment_id: String,
    pub pause: bool,
}

/// A request to promote the canaries of a deployment.
#[derive(Debug, Clone)]
pub struct DeploymentPromoteRequest {
    pub deployment_id: String,
    pub all: bool,
    pub groups: Option<Vec<String>>,
}

} // verus!

//! Allocations: placements of a task group on a client node.

use vstd::prelude::*;

verus! {

/// An allocation as listings show it.
#[derive(Debug, Clone)]
pub struct AllocationStub {
    pub id: String,
    pub eval_id: String,
    pub name: String,
    pub namespace: String,
    pub node_id: String,
    pub node_name: String,
    pub job_id: String,
    pub job_type: String,
    pub job_version: u64,
    pub task_group: String,
    pub desired_status: String,
    pub desired_description: String,
    pub client_status: String,
    pub client_description: String,
    pub task_states: Option<std::collections::HashMap<String, AllocationTaskState>>,
    pub deployment_id: Option<String>,
    pub deployment_status: Option<AllocationDeploymentStatus>,
    pub followup_eval_id: Option<String>,
    pub preempted_allocations: Option<Vec<String>>,
    pub preempted_by_allocation: String,
    pub create_index: u64,
    pub modify_index: u64,
    pub create_time: i64,
    pub modify_time: i64,
}

/// The state of one task of an allocation.
#[derive(Debug, Clone)]
pub struct AllocationTaskState {
    pub state: String,
    pub failed: bool,
    pub restarts: u64,
    pub last_restart: Option<String>,
    pub start_at: Option<String>,
    pub finish_at: Option<String>,
    pub events: Option<Vec<AllocationTaskEvent>>,
}

/// An event in the life of a task.
#[derive(Debug, Clone)]
pub struct AllocationTaskEvent {
    pub type_: String,
    pub time: i64,
    pub display_message: String,
    pub details: Option<std::collections::HashMap<String, String>>,
    pub message: String,
    pub signal: i32,
    pub exit_code: i32,
    pub driver_error: String,
    pub kill_timeout: u64,
    pub kill_error: String,
    pub kill_reason: String,
    pub restart_reason: String,
    pub setup_error: String,
    pub driver_message: String,
    pub task_signal_reason: String,
    pub task_signal: String,
    pub download_error: String,
    pub validation_error: String,
    pub disk_limit: i64,
    pub disk_size: Option<i64>,
    pub failed_sibling: String,
    pub vault_error: String,
    pub generic_source: String,
}

/// The health of an allocation within its deployment.
#[derive(Debug, Clone)]
pub struct AllocationDeploymentStatus {
    pub healthy: Option<bool>,
    pub timestamp: String,
    pub canary: bool,
    pub modify_index: u64,
}

} // verus!

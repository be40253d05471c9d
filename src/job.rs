//! Jobs: their specification, listings and summaries, and the requests
//! that act on them.

use crate::allocation::AllocationStub;
use vstd::prelude::*;

verus! {
/// Declares serde_json's `Value`: the free-form JSON of driver
/// configurations and scaling policies, which the library carries through
/// unread and never inspects.
#[verifier::external_type_specification]
#[verifier::external_body]
pub struct ExJsonValue(serde_json::Value);

/// The type of a long-lived service job.
pub const JOB_TYPE_SERVICE: &'static str = "service";

/// The type of a job that runs to completion.
pub const JOB_TYPE_BATCH: &'static str = "batch";

/// The type of a job that runs on every eligible node.
pub const JOB_TYPE_SYSTEM: &'static str = "system";

/// The type of a batch job that runs on every eligible node.
pub const JOB_TYPE_SYSBATCH: &'static str = "sysbatch";

/// The priority of a job that names none.
pub const JOB_DEFAULT_PRIORITY: i32 = 50;

/// The namespace of a job that names none.
pub const JOB_DEFAULT_NAMESPACE: &'static str = "default";

/// The region of a job that names none.
pub const JOB_DEFAULT_REGION: &'static str = "global";


/// Job is the main structure representing a Nomad job.
#[derive(Debug, Clone)]
pub struct Job {
    pub region: Option<String>,
    pub namespace: Option<String>,
    pub id: Option<String>,
    pub name: String,
    pub type_: Option<String>,
    pub priority: Option<i32>,
    pub all_at_once: Option<bool>,
    pub datacenters: Option<Vec<String>>,
    pub node_pool: Option<String>,
    pub constraints: Option<Vec<Constraint>>,
    pub affinities: Option<Vec<Affinity>>,
    pub task_groups: Vec<JobTaskGroup>,
    pub update: Option<JobUpdateStrategy>,
    pub multiregion: Option<JobMultiregion>,
    pub spreads: Option<Vec<JobSpread>>,
    pub periodic: Option<JobPeriodicConfig>,
    pub parameterized_job: Option<JobParameterizedConfig>,
    pub reschedule: Option<ReschedulePolicy>,
    pub migrate: Option<JobMigrateStrategy>,
    pub meta: Option<std::collections::HashMap<String, String>>,
    pub ui: Option<JobUIConfig>,
    pub stop: Option<bool>,
    pub parent_id: Option<String>,
    pub dispatched: Option<bool>,
    pub dispatch_idempotency_token: Option<String>,
    pub payload: Option<Vec<u8>>,
    pub consul_namespace: Option<String>,
    pub vault_namespace: Option<String>,
    pub nomad_token_id: Option<String>,
    pub status: Option<String>,
    pub status_description: Option<String>,
    pub stable: Option<bool>,
    pub version: Option<u64>,
    pub submit_time: Option<i64>,
    pub create_index: Option<u64>,
    pub modify_index: Option<u64>,
    pub job_modify_index: Option<u64>,
    pub version_tag: Option<JobVersionTag>,
}

/// Whether a job holds the defaults of a new job in every field that
/// `Job::new` does not set: the `default` namespace, the default priority,
/// and nothing else.
pub open spec fn has_job_defaults(j: Job) -> bool {
    &&& j.namespace is Some && j.namespace->0@ == "default"@
    &&& j.priority == Some(JOB_DEFAULT_PRIORITY)
    &&& j.id is None
    &&& j.all_at_once is None
    &&& j.datacenters is None
    &&& j.node_pool is None
    &&& j.constraints is None
    &&& j.affinities is None
    &&& j.update is None
    &&& j.multiregion is None
    &&& j.spreads is None
    &&& j.periodic is None
    &&& j.parameterized_job is None
    &&& j.reschedule is None
    &&& j.migrate is None
    &&& j.meta is None
    &&& j.ui is None
    &&& j.stop is None
    &&& j.parent_id is None
    &&& j.dispatched is None
    &&& j.dispatch_idempotency_token is None
    &&& j.payload is None
    &&& j.consul_namespace is None
    &&& j.vault_namespace is None
    &&& j.nomad_token_id is None
    &&& j.status is None
    &&& j.status_description is None
    &&& j.stable is None
    &&& j.version is None
    &&& j.submit_time is None
    &&& j.create_index is None
    &&& j.modify_index is None
    &&& j.job_modify_index is None
    &&& j.version_tag is None
}

impl Job {
    /// A job with the given name, region, type and task groups, and the
    /// defaults of a new job elsewhere.
    pub fn new(name: String, region: String, job_type: String, task_groups: Vec<JobTaskGroup>) -> (r:
        Self)
        ensures
            has_job_defaults(r),
            r.name == name,
            r.region == Some(region),
            r.type_ == Some(job_type),
            r.task_groups == task_groups,
    {
        Job { name, region: Some(region), type_: Some(job_type), task_groups, ..Job::default() }
    }
}

impl Default for Job {
    /// A service job in the `global` region with an empty name and one
    /// empty task group.
    fn default() -> (r: Self)
        ensures
            has_job_defaults(r),
            r.name@ == Seq::<char>::empty(),
            r.region is Some && r.region->0@ == "global"@,
            r.type_ is Some && r.type_->0@ == "service"@,
            r.task_groups@.len() == 1,
            has_task_group_defaults(r.task_groups@[0]),
            r.task_groups@[0].name@ == Seq::<char>::empty(),
            r.task_groups@[0].tasks@.len() == 0,
    {
        let mut task_groups: Vec<JobTaskGroup> = Vec::new();
        task_groups.push(JobTaskGroup::default());
        Job {
            region: Some(String::from_str(JOB_DEFAULT_REGION)),
            namespace: Some(String::from_str(JOB_DEFAULT_NAMESPACE)),
            id: None,
            name: String::new(),
            type_: Some(String::from_str(JOB_TYPE_SERVICE)),
            priority: Some(JOB_DEFAULT_PRIORITY),
            all_at_once: None,
            datacenters: None,
            node_pool: None,
            constraints: None,
            affinities: None,
            update: None,
            multiregion: None,
            spreads: None,
            periodic: None,
            parameterized_job: None,
            reschedule: None,
            migrate: None,
            meta: None,
            ui: None,
            stop: None,
            parent_id: None,
            dispatched: None,
            dispatch_idempotency_token: None,
            payload: None,
            consul_namespace: None,
            vault_namespace: None,
            nomad_token_id: None,
            status: None,
            status_description: None,
            stable: None,
            version: None,
            submit_time: None,
            create_index: None,
            modify_index: None,
            job_modify_index: None,
            version_tag: None,
            task_groups,
        }
    }
}

/// A job as listings show it.
#[derive(Debug, Clone)]
pub struct JobStub {
    pub id: String,
    pub parent_id: Option<String>,
    pub name: String,
    pub namespace: String,
    pub datacenters: Vec<String>,
    pub type_: String,
    pub priority: i32,
    pub periodic: bool,
    pub parameterized_job: bool,
    pub stop: bool,
    pub status: String,
    pub status_description: String,
    pub job_summary: Option<JobSummary>,
    pub create_index: u64,
    pub modify_index: u64,
    pub job_modify_index: u64,
    pub submit_time: i64,
    pub meta: Option<std::collections::HashMap<String, String>>,
}

/// The allocation counts of a job, by task group.
#[derive(Debug, Clone)]
pub struct JobSummary {
    pub job_id: String,
    pub namespace: String,
    pub summary: std::collections::HashMap<String, JobTaskGroupSummary>,
    pub children: Option<JobSummaryChildren>,
    pub create_index: u64,
    pub modify_index: u64,
}

/// The counts of the child jobs of a periodic or parameterized job.
#[derive(Debug, Clone)]
pub struct JobSummaryChildren {
    pub pending: i64,
    pub running: i64,
    pub dead: i64,
}

/// The allocation counts of one task group.
#[derive(Debug, Clone)]
pub struct JobTaskGroupSummary {
    pub queued: i32,
    pub complete: i32,
    pub failed: i32,
    pub running: i32,
    pub starting: i32,
    pub lost: i32,
    pub unknown: i32,
}

/// How a job rolls out a new version.
#[derive(Debug, Clone)]
pub struct JobUpdateStrategy {
    pub stagger: Option<u64>,
    pub max_parallel: Option<i32>,
    pub health_check: Option<String>,
    pub min_healthy_time: Option<u64>,
    pub healthy_deadline: Option<u64>,
    pub progress_deadline: Option<u64>,
    pub canary: Option<i32>,
    pub auto_revert: Option<bool>,
    pub auto_promote: Option<bool>,
}

/// How a job is deployed across regions.
#[derive(Debug, Clone)]
pub struct JobMultiregion {
    pub strategy: Option<JobMultiregionStrategy>,
    pub regions: Option<Vec<JobMultiregionRegion>>,
}

/// How a multiregion deployment proceeds.
#[derive(Debug, Clone)]
pub struct JobMultiregionStrategy {
    pub max_parallel: Option<i32>,
    pub on_failure: Option<String>,
}

/// One region of a multiregion job.
#[derive(Debug, Clone)]
pub struct JobMultiregionRegion {
    pub name: String,
    pub count: Option<i32>,
    pub datacenters: Option<Vec<String>>,
    pub node_pool: Option<String>,
    pub meta: Option<std::collections::HashMap<String, String>>,
}

/// When a periodic job launches.
#[derive(Debug, Clone)]
pub struct JobPeriodicConfig {
    pub enabled: Option<bool>,
    pub spec: Option<String>,
    pub specs: Option<Vec<String>>,
    pub spec_type: Option<String>,
    pub prohibit_overlap: Option<bool>,
    pub time_zone: Option<String>,
}

/// What a dispatch of a parameterized job must supply.
#[derive(Debug, Clone)]
pub struct JobParameterizedConfig {
    pub payload: Option<String>,
    pub meta_required: Option<Vec<String>>,
    pub meta_optional: Option<Vec<String>>,
}

/// How failed allocations are rescheduled.
#[derive(Debug, Clone)]
pub struct ReschedulePolicy {
    pub attempts: Option<i32>,
    pub interval: Option<u64>,
    pub delay: Option<u64>,
    pub delay_function: Option<String>,
    pub max_delay: Option<u64>,
    pub unlimited: Option<bool>,
}

/// How allocations leave a draining node.
#[derive(Debug, Clone)]
pub struct JobMigrateStrategy {
    pub max_parallel: Option<i32>,
    pub health_check: Option<String>,
    pub min_healthy_time: Option<u64>,
    pub healthy_deadline: Option<u64>,
}

/// A condition that a node must meet.
#[derive(Debug, Clone)]
pub struct Constraint {
    pub l_target: Option<String>,
    pub r_target: Option<String>,
    pub operand: Option<String>,
}

/// A preference for nodes that meet a condition.
#[derive(Debug, Clone)]
pub struct Affinity {
    pub l_target: Option<String>,
    pub r_target: Option<String>,
    pub operand: Option<String>,
    pub weight: Option<i32>,
}

/// How allocations spread over the values of an attribute.
#[derive(Debug, Clone)]
pub struct JobSpread {
    pub attribute: Option<String>,
    pub weight: Option<i32>,
    pub spread_target: Option<Vec<JobSpreadTarget>>,
}

/// The share of allocations that one value of a spread receives.
#[derive(Debug, Clone)]
pub struct JobSpreadTarget {
    pub value: String,
    pub percent: u8,
}

/// A group of tasks that are placed together.
#[derive(Debug, Clone)]
pub struct JobTaskGroup {
    pub name: String,
    pub count: Option<i32>,
    pub constraints: Option<Vec<Constraint>>,
    pub affinities: Option<Vec<Affinity>>,
    pub tasks: Vec<Task>,
    pub spreads: Option<Vec<JobSpread>>,
    pub volumes: Option<std::collections::HashMap<String, VolumeRequest>>,
    pub restart_policy: Option<RestartPolicy>,
    pub reschedule_policy: Option<ReschedulePolicy>,
    pub ephemeral_disk: Option<EphemeralDisk>,
    pub update: Option<JobUpdateStrategy>,
    pub migrate: Option<JobMigrateStrategy>,
    pub networks: Option<Vec<NetworkResource>>,
    pub meta: Option<std::collections::HashMap<String, String>>,
    pub services: Option<Vec<Service>>,
    pub shutdown_delay: Option<u64>,
    pub stop_after_client_disconnect: Option<u64>,
    pub max_client_disconnect: Option<u64>,
    pub scaling: Option<ScalingPolicy>,
    pub consul_namespace: Option<String>,
}

/// Whether every optional setting of a task group is absent.
pub open spec fn has_task_group_defaults(g: JobTaskGroup) -> bool {
    &&& g.count is None
    &&& g.constraints is None
    &&& g.affinities is None
    &&& g.spreads is None
    &&& g.volumes is None
    &&& g.restart_policy is None
    &&& g.reschedule_policy is None
    &&& g.ephemeral_disk is None
    &&& g.update is None
    &&& g.migrate is None
    &&& g.networks is None
    &&& g.meta is None
    &&& g.services is None
    &&& g.shutdown_delay is None
    &&& g.stop_after_client_disconnect is None
    &&& g.max_client_disconnect is None
    &&& g.scaling is None
    &&& g.consul_namespace is None
}

impl JobTaskGroup {
    /// A task group with the given name and tasks, and no other setting.
    pub fn new(name: String, tasks: Vec<Task>) -> (r: Self)
        ensures
            has_task_group_defaults(r),
            r.name == name,
            r.tasks == tasks,
    {
        JobTaskGroup {
            name,
            tasks,
            count: None,
            constraints: None,
            affinities: None,
            spreads: None,
            volumes: None,
            restart_policy: None,
            reschedule_policy: None,
            ephemeral_disk: None,
            update: None,
            migrate: None,
            networks: None,
            meta: None,
            services: None,
            shutdown_delay: None,
            stop_after_client_disconnect: None,
            max_client_disconnect: None,
            scaling: None,
            consul_namespace: None,
        }
    }
}

impl Default for JobTaskGroup {
    /// A task group with an empty name, no tasks and no other setting.
    fn default() -> (r: Self)
        ensures
            has_task_group_defaults(r),
            r.name@ == Seq::<char>::empty(),
            r.tasks@.len() == 0,
    {
        JobTaskGroup::new(String::new(), Vec::new())
    }
}

/// A task: one unit of work run by a driver.
#[derive(Debug, Clone)]
pub struct Task {
    pub name: String,
    pub driver: String,
    pub config: Option<std::collections::HashMap<String, serde_json::Value>>,
    pub constraints: Option<Vec<Constraint>>,
    pub affinities: Option<Vec<Affinity>>,
    pub env: Option<std::collections::HashMap<String, String>>,
    pub services: Option<Vec<Service>>,
    pub resources: Option<TaskResources>,
    pub meta: Option<std::collections::HashMap<String, String>>,
    pub kill_timeout: Option<u64>,
    pub kill_signal: Option<String>,
    pub leader: Option<bool>,
    pub shutdown_delay: Option<u64>,
    pub user: Option<String>,
    pub lifecycle: Option<JobTaskLifecycle>,
    pub templates: Option<Vec<TaskTemplate>>,
    pub vault: Option<Vault>,
    pub dispatch_payload: Option<DispatchPayloadConfig>,
}

impl Task {
    /// A task with the given name and driver, and no other setting.
    pub fn new(name: String, driver: String) -> (r: Self)
        ensures
            r == (Task {
                name,
                driver,
                config: None,
                constraints: None,
                affinities: None,
                env: None,
                services: None,
                resources: None,
                meta: None,
                kill_timeout: None,
                kill_signal: None,
                leader: None,
                shutdown_delay: None,
                user: None,
                lifecycle: None,
                templates: None,
                vault: None,
                dispatch_payload: None,
            }),
    {
        Task {
            name,
            driver,
            config: None,
            constraints: None,
            affinities: None,
            env: None,
            services: None,
            resources: None,
            meta: None,
            kill_timeout: None,
            kill_signal: None,
            leader: None,
            shutdown_delay: None,
            user: None,
            lifecycle: None,
            templates: None,
            vault: None,
            dispatch_payload: None,
        }
    }
}

/// When a task runs relative to the main tasks.
#[derive(Debug, Clone)]
pub struct JobTaskLifecycle {
    pub hook: String,
    pub sidecar: bool,
}

/// A template that a task renders into a file.
#[derive(Debug, Clone)]
pub struct TaskTemplate {
    pub source_path: Option<String>,
    pub dest_path: Option<String>,
    pub embedded_tmpl: Option<String>,
    pub change_mode: Option<String>,
    pub change_signal: Option<String>,
    pub splay: Option<u64>,
    pub perms: Option<String>,
    pub left_delim: Option<String>,
    pub right_delim: Option<String>,
    pub envvars: Option<bool>,
    pub vault_grace: Option<u64>,
    pub wait: Option<TemplateWaitConfig>,
}

/// How long a template waits before rendering.
#[derive(Debug, Clone)]
pub struct TemplateWaitConfig {
    pub min: Option<u64>,
    pub max: Option<u64>,
}

/// The Vault policies a task needs.
#[derive(Debug, Clone)]
pub struct Vault {
    pub policies: Option<Vec<String>>,
    pub namespace: Option<String>,
    pub env: Option<bool>,
    pub change_mode: Option<String>,
    pub change_signal: Option<String>,
}

/// Where a task finds the payload of its dispatch.
#[derive(Debug, Clone)]
pub struct DispatchPayloadConfig {
    pub file: String,
}

/// The resources a task asks for.
#[derive(Debug, Clone)]
pub struct TaskResources {
    pub cpu: Option<i64>,
    pub cores: Option<i64>,
    pub memory_mb: Option<i64>,
    pub memory_max_mb: Option<i64>,
    pub disk_mb: Option<i64>,
    pub networks: Option<Vec<NetworkResource>>,
    pub devices: Option<Vec<RequestedDevice>>,
}

/// The network a task or group asks for.
#[derive(Debug, Clone)]
pub struct NetworkResource {
    pub mode: Option<String>,
    pub device: Option<String>,
    pub cidr: Option<String>,
    pub ip: Option<String>,
    pub mbits: Option<i32>,
    pub dns: Option<DNSConfig>,
    pub reserved_ports: Option<Vec<Port>>,
    pub dynamic_ports: Option<Vec<Port>>,
}

/// The DNS settings of a network.
#[derive(Debug, Clone)]
pub struct DNSConfig {
    pub servers: Option<Vec<String>>,
    pub searches: Option<Vec<String>>,
    pub options: Option<Vec<String>>,
}

/// A port of a network.
#[derive(Debug, Clone)]
pub struct Port {
    pub label: String,
    pub value: Option<i32>,
    pub to: Option<i32>,
    pub host_network: Option<String>,
}

/// A device a task asks for.
#[derive(Debug, Clone)]
pub struct RequestedDevice {
    pub name: String,
    pub count: Option<u64>,
    pub constraints: Option<Vec<Constraint>>,
    pub affinities: Option<Vec<Affinity>>,
}

/// A service that a task or group registers.
#[derive(Debug, Clone)]
pub struct Service {
    pub name: String,
    pub tags: Option<Vec<String>>,
    pub canary_tags: Option<Vec<String>>,
    pub port_label: Option<String>,
    pub address_mode: Option<String>,
    pub checks: Option<Vec<ServiceCheck>>,
    pub check_restart: Option<CheckRestart>,
    pub connect: Option<ConsulConnect>,
    pub meta: Option<std::collections::HashMap<String, String>>,
    pub canary_meta: Option<std::collections::HashMap<String, String>>,
    pub enable_tag_override: Option<bool>,
    pub on_update: Option<String>,
    pub provider: Option<String>,
}

/// A health check of a service.
#[derive(Debug, Clone)]
pub struct ServiceCheck {
    pub name: Option<String>,
    pub type_: String,
    pub command: Option<String>,
    pub args: Option<Vec<String>>,
    pub path: Option<String>,
    pub protocol: Option<String>,
    pub port_label: Option<String>,
    pub address_mode: Option<String>,
    pub interval: Option<u64>,
    pub timeout: Option<u64>,
    pub initial_status: Option<String>,
    pub tls_skip_verify: Option<bool>,
    pub method: Option<String>,
    pub header: Option<std::collections::HashMap<String, Vec<String>>>,
    pub check_restart: Option<CheckRestart>,
    pub grpc_service: Option<String>,
    pub grpc_use_tls: Option<bool>,
    pub success_before_passing: Option<i32>,
    pub failures_before_critical: Option<i32>,
    pub body: Option<String>,
}

/// How a failing check restarts its task.
#[derive(Debug, Clone)]
pub struct CheckRestart {
    pub limit: Option<i32>,
    pub grace: Option<u64>,
    pub ignore_warnings: Option<bool>,
}

/// The Consul service mesh settings of a service.
#[derive(Debug, Clone)]
pub struct ConsulConnect {
    pub native: Option<bool>,
    pub gateway: Option<ConsulGateway>,
    pub sidecar_service: Option<ConsulSidecarService>,
    pub sidecar_task: Option<SidecarTask>,
}

/// A Consul gateway.
#[derive(Debug, Clone)]
pub struct ConsulGateway {
    pub proxy: Option<ConsulGatewayProxy>,
    pub ingress: Option<ConsulIngressGateway>,
    pub terminating: Option<ConsulTerminatingGateway>,
    pub mesh: Option<ConsulMeshGateway>,
}

/// The proxy of a Consul gateway.
#[derive(Debug, Clone)]
pub struct ConsulGatewayProxy {
    pub connect_timeout: Option<u64>,
    pub envoy_gateway_bind_tagged_addresses: Option<bool>,
    pub envoy_gateway_bind_addresses: Option<std::collections::HashMap<String, ConsulGatewayBindAddress>>,
    pub envoy_gateway_no_default_bind: Option<bool>,
    pub config: Option<std::collections::HashMap<String, serde_json::Value>>,
}

/// An address a gateway proxy binds to.
#[derive(Debug, Clone)]
pub struct ConsulGatewayBindAddress {
    pub address: String,
    pub port: i32,
}

/// A Consul ingress gateway.
#[derive(Debug, Clone)]
pub struct ConsulIngressGateway {
    pub tls: Option<ConsulGatewayTLSConfig>,
    pub listeners: Option<Vec<ConsulIngressListener>>,
}

/// The TLS settings of a gateway.
#[derive(Debug, Clone)]
pub struct ConsulGatewayTLSConfig {
    pub enabled: Option<bool>,
}

/// A listener of an ingress gateway.
#[derive(Debug, Clone)]
pub struct ConsulIngressListener {
    pub port: i32,
    pub protocol: String,
    pub services: Vec<ConsulIngressService>,
}

/// A service behind an ingress listener.
#[derive(Debug, Clone)]
pub struct ConsulIngressService {
    pub name: String,
    pub hosts: Option<Vec<String>>,
}

/// A Consul terminating gateway.
#[derive(Debug, Clone)]
pub struct ConsulTerminatingGateway {
    pub services: Vec<ConsulLinkedService>,
}

/// How traffic reaches a mesh gateway.
#[derive(Debug, Clone)]
pub struct ConsulMeshGateway {
    pub mode: String,
}

/// A service linked to a terminating gateway.
#[derive(Debug, Clone)]
pub struct ConsulLinkedService {
    pub name: String,
    pub ca_file: Option<String>,
    pub cert_file: Option<String>,
    pub key_file: Option<String>,
    pub sni: Option<String>,
}

/// The sidecar service of a mesh-enabled service.
#[derive(Debug, Clone)]
pub struct ConsulSidecarService {
    pub port: Option<String>,
    pub proxy: Option<ConsulProxy>,
    pub tags: Option<Vec<String>>,
}

/// The proxy of a sidecar service.
#[derive(Debug, Clone)]
pub struct ConsulProxy {
    pub local_service_address: Option<String>,
    pub local_service_port: Option<i32>,
    pub config: Option<std::collections::HashMap<String, serde_json::Value>>,
    pub upstreams: Option<Vec<ConsulUpstream>>,
}

/// An upstream of a sidecar proxy.
#[derive(Debug, Clone)]
pub struct ConsulUpstream {
    pub destination_name: String,
    pub local_bind_port: i32,
    pub datacenter: Option<String>,
}

/// The task that runs a sidecar proxy.
#[derive(Debug, Clone)]
pub struct SidecarTask {
    pub name: Option<String>,
    pub driver: Option<String>,
    pub user: Option<String>,
    pub config: Option<std::collections::HashMap<String, serde_json::Value>>,
    pub env: Option<std::collections::HashMap<String, String>>,
    pub resources: Option<TaskResources>,
    pub meta: Option<std::collections::HashMap<String, String>>,
    pub kill_timeout: Option<u64>,
    pub kill_signal: Option<String>,
    pub shutdown_delay: Option<u64>,
}

/// How a task group restarts its failed tasks.
#[derive(Debug, Clone)]
pub struct RestartPolicy {
    pub attempts: Option<i32>,
    pub interval: Option<u64>,
    pub delay: Option<u64>,
    pub mode: Option<String>,
}

/// The local disk of a task group.
#[derive(Debug, Clone)]
pub struct EphemeralDisk {
    pub migrate: Option<bool>,
    pub size_mb: Option<i32>,
    pub sticky: Option<bool>,
}

/// A volume that a task group asks for.
#[derive(Debug, Clone)]
pub struct VolumeRequest {
    pub name: String,
    pub type_: String,
    pub source: String,
    pub read_only: Option<bool>,
    pub mount_options: Option<VolumeMount>,
}

/// Where a task mounts a volume.
#[derive(Debug, Clone)]
pub struct VolumeMount {
    pub fs_type: Option<String>,
    pub mount_flags: Option<Vec<String>>,
}

/// The autoscaling policy of a task group.
#[derive(Debug, Clone)]
pub struct ScalingPolicy {
    pub enabled: Option<bool>,
    pub min: Option<i64>,
    pub max: Option<i64>,
    pub policy: Option<std::collections::HashMap<String, serde_json::Value>>,
}

/// How the web interface presents a job.
#[derive(Debug, Clone)]
pub struct JobUIConfig {
    pub description: Option<String>,
    pub links: Option<Vec<JobUILink>>,
}

/// A link that the web interface shows for a job.
#[derive(Debug, Clone)]
pub struct JobUILink {
    pub label: String,
    pub url: String,
}

/// A tag on a version of a job.
#[derive(Debug, Clone)]
pub struct JobVersionTag {
    pub name: String,
    pub description: Option<String>,
    pub tagged_time: i64,
}

/// The source that a job was submitted from.
#[derive(Debug, Clone)]
pub struct JobSubmission {
    pub source: String,
    pub format: String,
    pub variable_flags: Option<std::collections::HashMap<String, String>>,
    pub variables: Option<String>,
}

/// The options of registering a job.
#[derive(Debug, Clone, Default)]
pub struct RegisterOptions {
    pub enforce_index: bool,
    pub modify_index: u64,
    pub policy_override: bool,
    pub preserve_counts: bool,
    pub preserve_resources: bool,
    pub eval_priority: i32,
    pub submission: Option<JobSubmission>,
}

/// A request to stop a job.
#[derive(Debug, Clone)]
pub struct JobDeregisterRequest {
    pub job_id: String,
    pub purge: bool,
    pub global: bool,
    pub eval_priority: i32,
    pub no_shutdown_delay: bool,
}

impl JobDeregisterRequest {
    /// A request that stops the given job: no purge, local to its region,
    /// default priority, and the usual shutdown delay.
    pub fn new(job_id: String) -> (r: Self)
        ensures
            r == (JobDeregisterRequest {
                job_id,
                purge: false,
                global: false,
                eval_priority: 0,
                no_shutdown_delay: false,
            }),
    {
        JobDeregisterRequest {
            job_id,
            purge: false,
            global: false,
            eval_priority: 0,
            no_shutdown_delay: false,
        }
    }
}

/// A request to register a job.
#[derive(Debug, Clone)]
pub struct JobRegisterRequest<'a> {
    pub job: &'a Job,
    pub enforce_index: Option<bool>,
    pub job_modify_index: Option<u64>,
    pub policy_override: Option<bool>,
    pub preserve_counts: Option<bool>,
    pub preserve_resources: Option<bool>,
    pub eval_priority: Option<i32>,
    pub submission: Option<JobSubmission>,
}

impl<'a> JobRegisterRequest<'a> {
    /// A request that registers `job` with no further condition or option.
    pub fn new(job: &'a Job) -> (r: Self)
        ensures
            r == (JobRegisterRequest {
                job,
                enforce_index: None,
                job_modify_index: None,
                policy_override: None,
                preserve_counts: None,
                preserve_resources: None,
                eval_priority: None,
                submission: None,
            }),
    {
        JobRegisterRequest {
            job,
            enforce_index: None,
            job_modify_index: None,
            policy_override: None,
            preserve_counts: None,
            preserve_resources: None,
            eval_priority: None,
            submission: None,
        }
    }
}

/// The server's answer to registering a job.
#[derive(Debug, Clone)]
pub struct JobRegisterResponse {
    pub eval_id: String,
    pub eval_create_index: u64,
    pub job_modify_index: u64,
    pub warnings: Option<String>,
}

/// The server's answer to stopping a job.
#[derive(Debug, Clone)]
pub struct JobDeregisterResponse {
    pub eval_id: String,
    pub eval_create_index: u64,
    pub job_modify_index: u64,
}

/// A request to validate a job.
#[derive(Debug, Clone)]
pub struct JobValidateRequest<'a> {
    pub job: &'a Job,
}

impl<'a> JobValidateRequest<'a> {
    /// A request that validates `job`.
    pub fn new(job: &'a Job) -> (r: Self)
        ensures
            r == (JobValidateRequest { job }),
    {
        JobValidateRequest { job }
    }
}

/// The result of validating a job.
#[derive(Debug, Clone)]
pub struct JobValidateResponse {
    pub driver_config_validated: bool,
    pub validation_errors: Vec<String>,
    pub error: Option<String>,
    pub warnings: Option<String>,
}

/// A request to plan a change of a job.
#[derive(Debug, Clone)]
pub struct JobPlanRequest<'a> {
    pub job: &'a Job,
    pub diff: bool,
    pub policy_override: bool,
}

/// The difference between two versions of a job.
#[derive(Debug)]
pub struct JobDiff {
    pub type_: String,
    pub id: String,
    pub fields: Option<Vec<FieldDiff>>,
    pub objects: Option<Vec<ObjectDiff>>,
    pub task_groups: Option<Vec<TaskGroupDiff>>,
}

/// The difference between two versions of a task group.
#[derive(Debug)]
pub struct TaskGroupDiff {
    pub type_: String,
    pub name: String,
    pub fields: Option<Vec<FieldDiff>>,
    pub objects: Option<Vec<ObjectDiff>>,
    pub tasks: Option<Vec<TaskDiff>>,
    pub updates: Option<std::collections::HashMap<String, u64>>,
}

/// The difference between two versions of a task.
#[derive(Debug)]
pub struct TaskDiff {
    pub type_: String,
    pub name: String,
    pub fields: Option<Vec<FieldDiff>>,
    pub objects: Option<Vec<ObjectDiff>>,
    pub annotations: Option<Vec<String>>,
}

/// The difference in one field.
#[derive(Debug, Clone)]
pub struct FieldDiff {
    pub type_: String,
    pub name: String,
    pub old: String,
    pub new: String,
    pub annotations: Option<Vec<String>>,
}

/// The difference in one nested object.
#[derive(Debug)]
pub struct ObjectDiff {
    pub type_: String,
    pub name: String,
    pub fields: Option<Vec<FieldDiff>>,
    pub objects: Option<Vec<ObjectDiff>>,
}

/// What a plan would do to the allocations.
#[derive(Debug, Clone)]
pub struct PlanAnnotations {
    pub desired_tg_updates: Option<std::collections::HashMap<String, DesiredUpdates>>,
    pub preempted_allocs: Option<Vec<AllocationStub>>,
}

/// The counts of changes a plan would make to a task group.
#[derive(Debug, Clone)]
pub struct DesiredUpdates {
    pub ignore: u64,
    pub place: u64,
    pub migrate: u64,
    pub stop: u64,
    pub in_place_update: u64,
    pub destructive_update: u64,
    pub canary: u64,
    pub preemptions: u64,
}

/// A request for the deployments of a job.
#[derive(Debug, Clone)]
pub struct JobListDeploymentsRequest {
    pub job_id: String,
    pub all: bool,
}

impl JobListDeploymentsRequest {
    /// A request for the deployments of a job; `all` asks for those of every
    /// version of it.
    pub fn new(job_id: String, all: bool) -> (r: Self)
        ensures
            r == (JobListDeploymentsRequest { job_id, all }),
    {
        JobListDeploymentsRequest { job_id, all }
    }
}

/// A request to dispatch an instance of a parameterized job.
#[derive(Debug, Clone)]
pub struct JobDispatchRequest {
    pub job_id: String,
    pub payload: Option<Vec<u8>>,
    pub meta: Option<std::collections::HashMap<String, String>>,
    pub id_prefix_template: Option<String>,
    pub priority: Option<i32>,
}

impl JobDispatchRequest {
    /// A request that dispatches the given parameterized job, with no payload,
    /// metadata, identifier template or priority.
    pub fn new(job_id: String) -> (r: Self)
        ensures
            r == (JobDispatchRequest {
                job_id,
                payload: None,
                meta: None,
                id_prefix_template: None,
                priority: None,
            }),
    {
        JobDispatchRequest {
            job_id,
            payload: None,
            meta: None,
            id_prefix_template: None,
            priority: None,
        }
    }

    /// The request with `payload` as the input of the dispatched job.
    pub fn with_payload(self, payload: Vec<u8>) -> (r: Self)
        ensures
            r == (JobDispatchRequest { payload: Some(payload), ..self }),
    {
        JobDispatchRequest { payload: Some(payload), ..self }
    }

    /// The request with `meta` as the metadata of the dispatched job.
    pub fn with_meta(self, meta: std::collections::HashMap<String, String>) -> (r: Self)
        ensures
            r == (JobDispatchRequest { meta: Some(meta), ..self }),
    {
        JobDispatchRequest { meta: Some(meta), ..self }
    }

    /// The request with a template for the dispatched job's identifier.
    pub fn with_id_prefix_template(self, id_prefix_template: String) -> (r: Self)
        ensures
            r == (JobDispatchRequest { id_prefix_template: Some(id_prefix_template), ..self }),
    {
        JobDispatchRequest { id_prefix_template: Some(id_prefix_template), ..self }
    }

    /// The request with the priority of the dispatched job.
    pub fn with_priority(self, priority: i32) -> (r: Self)
        ensures
            r == (JobDispatchRequest { priority: Some(priority), ..self }),
    {
        JobDispatchRequest { priority: Some(priority), ..self }
    }
}

/// The server's answer to a dispatch.
#[derive(Debug, Clone)]
pub struct JobDispatchResponse {
    pub dispatched_job_id: String,
    pub eval_id: String,
    pub eval_create_index: u64,
    pub job_create_index: u64,
}

/// The versions of a job, with their differences.
#[derive(Debug)]
pub struct JobVersionsResponse {
    pub versions: Vec<Job>,
    pub diffs: Option<Vec<JobDiff>>,
}

/// A request to revert a job to an earlier version.
#[derive(Debug, Clone)]
pub struct JobRevertRequest {
    pub job_id: String,
    pub job_version: u64,
    pub enforce_prior_version: Option<u64>,
}

/// A request to mark a version of a job as stable or not.
#[derive(Debug, Clone)]
pub struct JobStabilityRequest {
    pub job_id: String,
    pub job_version: u64,
    pub stable: bool,
}

/// The server's answer to a change of stability.
#[derive(Debug, Clone)]
pub struct JobStabilityResponse {
    pub job_modify_index: u64,
}

/// A request to force a new evaluation of a job.
#[derive(Debug, Clone)]
pub struct JobEvaluationForceRequest {
    pub job_id: String,
    pub force_reschedule: bool,
    pub eval_options: Option<JobEvaluationForce>,
}

impl JobEvaluationForceRequest {
    /// A request that forces a new evaluation of the given job.
    pub fn new(job_id: String, force_reschedule: bool) -> (r: Self)
        ensures
            r == (JobEvaluationForceRequest { job_id, force_reschedule, eval_options: None }),
    {
        JobEvaluationForceRequest { job_id, force_reschedule, eval_options: None }
    }
}

/// The options of a forced evaluation.
#[derive(Debug, Clone)]
pub struct JobEvaluationForce {
    pub force_reschedule: bool,
}

/// A request for the allocations of a job.
#[derive(Debug, Clone)]
pub struct JobAllocationsListRequest {
    pub job_id: String,
    pub all_allocs: bool,
}

impl JobAllocationsListRequest {
    /// A request for the allocations of a job; `all_allocs` asks for those of
    /// every version of it.
    pub fn new(job_id: String, all_allocs: bool) -> (r: Self)
        ensures
            r == (JobAllocationsListRequest { job_id, all_allocs }),
    {
        JobAllocationsListRequest { job_id, all_allocs }
    }
}

/// A request to scale a task group.
#[derive(Debug, Clone)]
pub struct ScalingRequest {
    pub count: Option<i64>,
    pub target: std::collections::HashMap<String, String>,
    pub error: Option<bool>,
    pub message: Option<String>,
    pub meta: Option<std::collections::HashMap<String, serde_json::Value>>,
}

/// The scaling state of a task group.
#[derive(Debug, Clone)]
pub struct TaskGroupScaleStatus {
    pub desired: i32,
    pub placed: i32,
    pub running: i32,
    pub healthy: i32,
    pub unhealthy: i32,
    pub events: Option<Vec<ScalingEvent>>,
}

/// An event in the scaling of a task group.
#[derive(Debug, Clone)]
pub struct ScalingEvent {
    pub time: i64,
    pub count: Option<i64>,
    pub previous_count: i64,
    pub error: bool,
    pub message: Option<String>,
    pub meta: Option<std::collections::HashMap<String, String>>,
    pub eval_id: Option<String>,
}

/// The options of a listing of jobs.
#[derive(Debug, Clone, Default)]
pub struct JobsListRequest {
    pub meta: Option<bool>,
}

} // verus!

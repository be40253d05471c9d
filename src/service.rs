//! Services registered by running allocations.

use vstd::prelude::*;

verus! {

/// The services registered in one namespace.
#[derive(Debug, Clone)]
pub struct ServiceRegistrationList {
    pub namespace: String,
    pub services: Vec<ServiceRegistrationStub>,
}

/// A service name and its tags.
#[derive(Debug, Clone)]
pub struct ServiceRegistrationStub {
    pub service_name: String,
    pub tags: Vec<String>,
}

/// One registration of a service by an allocation.
#[derive(Debug, Clone)]
pub struct ServiceRegistration {
    pub id: String,
    pub service_name: String,
    pub namespace: String,
    pub node_id: String,
    pub datacenter: String,
    pub job_id: String,
    pub alloc_id: String,
    pub tags: Vec<String>,
    pub address: String,
    pub port: u16,
    pub create_index: u64,
    pub modify_index: u64,
}

} // verus!

//! Namespaces, which partition jobs and their allocations.

use vstd::prelude::*;

verus! {

/// A namespace and its settings.
#[derive(Debug, Clone)]
pub struct Namespace {
    pub name: String,
    pub description: Option<String>,
    pub quota: Option<String>,
    pub capabilities: Option<NamespaceCapabilities>,
    pub node_pool_configuration: Option<NamespaceNodePoolConfiguration>,
    pub vault_configuration: Option<NamespaceVaultConfiguration>,
    pub consul_configuration: Option<NamespaceConsulConfiguration>,
    pub meta: Option<std::collections::HashMap<String, String>>,
    pub create_index: Option<u64>,
    pub modify_index: Option<u64>,
}

impl Namespace {
    /// A namespace with the given name and nothing else set.
    pub fn new(name: String) -> (r: Self)
        ensures
            r == (Namespace {
                name,
                description: None,
                quota: None,
                capabilities: None,
                node_pool_configuration: None,
                vault_configuration: None,
                consul_configuration: None,
                meta: None,
                create_index: None,
                modify_index: None,
            }),
    {
        Namespace {
            name,
            description: None,
            quota: None,
            capabilities: None,
            node_pool_configuration: None,
            vault_configuration: None,
            consul_configuration: None,
            meta: None,
            create_index: None,
            modify_index: None,
        }
    }
}

/// The task drivers and network modes a namespace allows or denies.
#[derive(Debug, Clone)]
pub struct NamespaceCapabilities {
    pub enabled_task_drivers: Option<Vec<String>>,
    pub disabled_task_drivers: Option<Vec<String>>,
    pub enabled_network_modes: Option<Vec<String>>,
    pub disabled_network_modes: Option<Vec<String>>,
}

/// The node pools a namespace uses by default, allows or denies.
#[derive(Debug, Clone)]
pub struct NamespaceNodePoolConfiguration {
    pub default: Option<String>,
    pub allowed: Option<Vec<String>>,
    pub denied: Option<Vec<String>>,
}

/// The Vault clusters a namespace uses by default, allows or denies.
#[derive(Debug, Clone)]
pub struct NamespaceVaultConfiguration {
    pub default: String,
    pub allowed: Option<Vec<String>>,
    pub denied: Option<Vec<String>>,
}

/// The Consul clusters a namespace uses by default, allows or denies.
#[derive(Debug, Clone)]
pub struct NamespaceConsulConfiguration {
    pub default: String,
    pub allowed: Option<Vec<String>>,
    pub denied: Option<Vec<String>>,
}

} // verus!

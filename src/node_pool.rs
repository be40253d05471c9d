//! Node pools, which group client nodes for scheduling.

use vstd::prelude::*;

verus! {

/// A node pool and its settings.
#[derive(Debug, Clone)]
pub struct NodePool {
    pub name: String,
    pub description: Option<String>,
    pub meta: Option<std::collections::HashMap<String, String>>,
    pub scheduler_configuration: Option<NodePoolSchedulerConfiguration>,
    pub create_index: Option<u64>,
    pub modify_index: Option<u64>,
}

impl NodePool {
    /// A node pool with the given name and nothing else set.
    pub fn new(name: String) -> (r: Self)
        ensures
            r == (NodePool {
                name,
                description: None,
                meta: None,
                scheduler_configuration: None,
                create_index: None,
                modify_index: None,
            }),
    {
        NodePool {
            name,
            description: None,
            meta: None,
            scheduler_configuration: None,
            create_index: None,
            modify_index: None,
        }
    }
}

/// How the scheduler places work in a node pool.
#[derive(Debug, Clone)]
pub struct NodePoolSchedulerConfiguration {
    pub scheduler_algorithm: Option<String>,
    pub memory_oversubscription_enabled: Option<bool>,
}

} // verus!

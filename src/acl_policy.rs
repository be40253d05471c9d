//! ACL policies, which grant capabilities to the tokens that name them.

use vstd::prelude::*;

verus! {

/// An ACL policy: a named set of rules.
#[derive(Debug, Clone)]
pub struct ACLPolicy {
    pub name: String,
    pub description: Option<String>,
    pub rules: String,
    pub job_acl: Option<JobACL>,
    pub create_index: Option<u64>,
    pub modify_index: Option<u64>,
}

impl ACLPolicy {
    /// A policy with the given name and rules (in HCL), and no description,
    /// job scope or indexes.
    pub fn new(name: String, rules: String) -> (r: Self)
        ensures
            r == (ACLPolicy {
                name,
                description: None,
                rules,
                job_acl: None,
                create_index: None,
                modify_index: None,
            }),
    {
        ACLPolicy {
            name,
            description: None,
            rules,
            job_acl: None,
            create_index: None,
            modify_index: None,
        }
    }
}

/// An ACL policy as listings show it, without its rules.
#[derive(Debug, Clone)]
pub struct ACLPolicyStub {
    pub name: String,
    pub description: Option<String>,
    pub job_acl: Option<JobACL>,
    pub create_index: Option<u64>,
    pub modify_index: Option<u64>,
}

/// The job, group and task that a policy is scoped to.
#[derive(Debug, Clone)]
pub struct JobACL {
    pub namespace: String,
    pub job_id: String,
    pub group: String,
    pub task: String,
}

} // verus!

//! Requests that bootstrap the ACL system and create ACL tokens.

use vstd::prelude::*;

verus! {

/// The parameters of bootstrapping the ACL system.
#[derive(Debug, Clone)]
pub struct ACLTokenBootstrapRequest {
    pub bootstrap_secret: String,
}

impl ACLTokenBootstrapRequest {
    /// A bootstrap request that fixes the secret of the bootstrap token.
    pub fn new(bootstrap_secret: String) -> (r: Self)
        ensures
            r == (ACLTokenBootstrapRequest { bootstrap_secret }),
    {
        ACLTokenBootstrapRequest { bootstrap_secret }
    }
}

/// The parameters of a new ACL token.
#[derive(Debug, Clone)]
pub struct ACLTokenCreateRequest {
    pub name: Option<String>,
    pub token_type: String,
    pub global: bool,
    pub policies: Option<Vec<String>>,
    pub roles: Option<Vec<ACLTokenRoleLink>>,
    pub expiration_time: Option<String>,
    pub expiration_ttl: Option<i64>,
}

impl ACLTokenCreateRequest {
    /// A request for a token of the given type (`client` or `management`),
    /// local or global, with no name, policies, roles or expiry.
    pub fn new(token_type: String, global: bool) -> (r: Self)
        ensures
            r == (ACLTokenCreateRequest {
                name: None,
                token_type,
                global,
                policies: None,
                roles: None,
                expiration_time: None,
                expiration_ttl: None,
            }),
    {
        ACLTokenCreateRequest {
            name: None,
            token_type,
            global,
            policies: None,
            roles: None,
            expiration_time: None,
            expiration_ttl: None,
        }
    }
}

/// A role that a token is linked to.
#[derive(Debug, Clone)]
pub struct ACLTokenRoleLink {
    pub id: String,
    pub name: String,
}

} // verus!

//! Requests and answers about evaluations, the scheduler's units of work.

use vstd::prelude::*;

verus! {

/// A request to delete evaluations, by identifier or by filter.
#[derive(Debug, Clone)]
pub struct EvalualtionDeleteRequest {
    pub eval_ids: Option<Vec<String>>,
    pub filter: Option<String>,
}

impl EvalualtionDeleteRequest {
    /// A request that deletes the evaluations with the given identifiers.
    pub fn new_with_ids(eval_ids: Vec<String>) -> (r: Self)
        ensures
            r == (EvalualtionDeleteRequest { eval_ids: Some(eval_ids), filter: None }),
    {
        EvalualtionDeleteRequest { eval_ids: Some(eval_ids), filter: None }
    }

    /// A request that deletes the evaluations that match a filter expression.
    pub fn new_with_filter(filter: String) -> (r: Self)
        ensures
            r == (EvalualtionDeleteRequest { eval_ids: None, filter: Some(filter) }),
    {
        EvalualtionDeleteRequest { eval_ids: None, filter: Some(filter) }
    }
}

/// How many evaluations a deletion removed.
#[derive(Debug, Clone)]
pub struct EvaluationDeleteResponse {
    pub count: i32,
}

/// How many evaluations there are.
#[derive(Debug, Clone)]
pub struct EvaluationCountResponse {
    pub count: i32,
}

} // verus!

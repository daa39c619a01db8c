//! The advisor todo-list payload schema: advice records and their
//! priorities, carried opaquely once a request has been authenticated.
//! The todo list's content identifier hashes the derived `Debug` rendering
//! of its records, so the application layer computes it.

use vstd::prelude::*;

verus! {

#[derive(Debug, Clone, PartialEq, Eq, PartialOrd, Ord)]
pub enum AdviceTypeBackend {
    Policy,
    Threat,
    NetworkPort,
    NetworkSession,
    PwnedBreach,
    Configure,
}

#[derive(Debug, Clone)]
pub struct AdvisorAdviceBackend {
    pub advice_type: AdviceTypeBackend,
    pub advice_details: String,
}

#[derive(Debug, Clone, PartialEq, Eq, PartialOrd, Ord)]
pub enum AdvicePriorityBackend {
    Low,
    Medium,
    High,
}

#[derive(Debug, Clone)]
pub struct AdvisorTodoBackend {
    pub advice: AdvisorAdviceBackend,
    pub priority: AdvicePriorityBackend,
}

#[derive(Debug, Clone)]
pub struct AdvisorTodosBackend {
    pub system_overview: String,
    pub todos: Vec<AdvisorTodoBackend>,
    pub email: Option<String>,
    pub language: String,
}

} // verus!

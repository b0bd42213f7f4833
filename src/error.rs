use vstd::prelude::*;

verus! {

/// Who is expected to act on a failure.
#[derive(Clone, Debug, PartialEq, Eq)]
pub enum EngineErrorCause {
    /// The deployed workload itself failed; the text tells its owner what to try.
    User(String),
    /// The orchestration layer could not reach a decision.
    Internal,
}

/// The entity a failure is attributed to: (id, name).
#[derive(Clone, Debug, PartialEq, Eq)]
pub enum EngineErrorScope {
    ExternalService(String, String),
}

/// A classified failure, created where it happens and never changed afterwards.
#[derive(Clone, Debug, PartialEq, Eq)]
pub struct EngineError {
    pub cause: EngineErrorCause,
    pub scope: EngineErrorScope,
    pub execution_id: String,
    pub message: Option<String>,
}

impl EngineErrorScope {
    /// The scope is the service with this id and name.
    pub open spec fn names(&self, id: Seq<char>, name: Seq<char>) -> bool {
        match self {
            EngineErrorScope::ExternalService(i, n) => i@ == id && n@ == name,
        }
    }
}

impl EngineError {
    pub fn new(
        cause: EngineErrorCause,
        scope: EngineErrorScope,
        execution_id: String,
        message: Option<String>,
    ) -> (r: EngineError)
        ensures
            r == (EngineError { cause, scope, execution_id, message }),
    {
        EngineError { cause, scope, execution_id, message }
    }
}

} // verus!

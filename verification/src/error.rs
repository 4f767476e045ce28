use vstd::prelude::*;

verus! {

/// Error raised by the repository decisions. The variant names the class of
/// failure; the text is a human readable detail.
#[derive(Debug, Clone)]
pub enum StoreError {
    /// The caller handed over a value that the store refuses.
    InvalidRequest(String),
    /// The request collides with durable state (a replay with another payload,
    /// a stale lease, a uniqueness rule).
    Conflict(String),
    /// The addressed row does not exist.
    NotFound(String),
    /// Optimistic concurrency: the row's version is not the expected one.
    StaleVersion { resource: String, id: u64, expected: u64 },
    /// The lifecycle of the addressed entity forbids the request.
    InvalidLifecycle(String),
    /// The database handed back a value that the domain cannot represent.
    Internal(String),
}

impl StoreError {
    pub open spec fn is_invalid_request(self) -> bool {
        self is InvalidRequest
    }

    pub open spec fn is_conflict(self) -> bool {
        self is Conflict
    }

    pub open spec fn is_internal(self) -> bool {
        self is Internal
    }
}

} // verus!

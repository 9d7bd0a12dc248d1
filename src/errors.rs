use vstd::prelude::*;

verus! {

/// Why an engine operation failed.
#[derive(Debug, Clone, Copy, PartialEq, Eq, Structural)]
pub enum EngineError {
    /// A manifest attribute could not be coerced to the type of its field.
    InvalidField,
    /// No loaded plugin has the requested id.
    NotFound,
    /// A resource could not be fetched.
    FetchFailed,
    /// The script sandbox rejected or failed to run a script.
    Sandbox,
}

} // verus!

use vstd::prelude::*;

verus! {

/// The failures this library reports. A validation error names a rejected
/// batch; a network error wraps a sync failure with its context; a lookup
/// error marks a snapshot that is inconsistent with the trees.
#[derive(Clone, Debug, PartialEq, Eq)]
pub enum MiningError {
    ValidationError(String),
    NetworkError(String),
    LookupError(String),
}

impl MiningError {
    /// The message carried by the error, whichever kind it is.
    pub open spec fn message_spec(self) -> Seq<char> {
        match self {
            MiningError::ValidationError(m) => m@,
            MiningError::NetworkError(m) => m@,
            MiningError::LookupError(m) => m@,
        }
    }

    pub fn message(&self) -> (m: String)
        ensures
            m@ == self.message_spec(),
    {
        match self {
            MiningError::ValidationError(m) => m.clone(),
            MiningError::NetworkError(m) => m.clone(),
            MiningError::LookupError(m) => m.clone(),
        }
    }
}

} // verus!

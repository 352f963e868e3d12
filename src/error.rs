use vstd::prelude::*;

verus! {

/// Everything that can go wrong while validating the command line.
/// Each variant keeps the offending argument.
#[derive(Debug, Clone, PartialEq, Eq)]
pub enum HttpieError {
    /// The argument is not an absolute URL.
    InvalidUrl(String),
    /// The argument holds no `=`, so it is not a `key=value` token.
    InvalidKvPair(String),
}

impl HttpieError {
    /// The argument that was refused.
    pub fn input(&self) -> (r: &String)
        ensures
            r == match self {
                HttpieError::InvalidUrl(s) => s,
                HttpieError::InvalidKvPair(s) => s,
            },
    {
        match self {
            HttpieError::InvalidUrl(s) => s,
            HttpieError::InvalidKvPair(s) => s,
        }
    }
}

} // verus!

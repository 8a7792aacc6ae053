use vstd::prelude::*;

verus! {

/// Why a certificate could not be issued.
#[derive(Debug, Clone, Copy, PartialEq, Eq, Structural)]
pub enum IssueError {
    /// A missing or malformed argument: an empty name, no subject alternative
    /// name, one that cannot be encoded, or a validity window that is empty or
    /// out of the range a certificate can hold.
    InvalidInput,
    /// The issuing certificate or its private key could not be parsed.
    InvalidIssuer,
    /// Key generation or signing failed.
    CryptoFailure,
}

impl IssueError {
    /// The description of each error.
    pub open spec fn message_text(&self) -> Seq<char> {
        match self {
            IssueError::InvalidInput => "invalid input"@,
            IssueError::InvalidIssuer => "invalid issuer certificate or key"@,
            IssueError::CryptoFailure => "key generation or signing failed"@,
        }
    }

    /// A short human-readable description of the error.
    pub fn message(&self) -> (r: &'static str)
        ensures
            r@ == self.message_text(),
    {
        match self {
            IssueError::InvalidInput => "invalid input",
            IssueError::InvalidIssuer => "invalid issuer certificate or key",
            IssueError::CryptoFailure => "key generation or signing failed",
        }
    }
}

} // verus!

//! The error kinds an invocation can end with. Every error is terminal:
//! the caller reports it once and exits non-zero.

use vstd::prelude::*;

verus! {

/// `jsonwebtoken`'s error type, carried through opaquely so that a failed
/// key parse can be surfaced to the caller unmodified.
#[verifier::external_type_specification]
#[verifier::external_body]
pub struct ExJwtError(jsonwebtoken::errors::Error);

/// `octocrab`'s error type, carried through opaquely so that a failed
/// client build or API call can be surfaced to the caller unmodified.
#[verifier::external_type_specification]
#[verifier::external_body]
pub struct ExOctocrabError(octocrab::Error);

/// Everything that can go wrong in one provisioning run.
#[derive(Debug)]
pub enum CiError {
    /// The stage string names no known stage; holds the full diagnostic.
    InvalidStage(String),
    /// The FPGA-target string names no known target; holds the full diagnostic.
    InvalidTarget(String),
    /// The stage is recognized but has no credential mapping yet. This is a
    /// hard stop: another stage's credentials are never substituted.
    UnimplementedStage,
    /// The private-key file could not be read; holds the I/O error text.
    KeyIo(String),
    /// The private key is not a valid RSA PEM key.
    KeyParse(jsonwebtoken::errors::Error),
    /// The GitHub App client could not be built.
    ClientBuild(octocrab::Error),
    /// The client could not be narrowed to the App installation.
    Installation(octocrab::Error),
    /// The API rejected the client's authentication. The installation id is
    /// narrowed optimistically, so an invalid one surfaces here, on the
    /// first call made through the client.
    ApiAuth(String),
    /// The token-exchange API call failed; holds the API error text.
    ApiRequest(String),
}

/// Attributes a failed exchange to its kind: an authentication rejection —
/// the optimistic installation narrowing surfacing on first use — is an
/// auth error, every other failure a request error. The error text is kept
/// unmodified either way.
pub fn classify_exchange_failure(unauthorized: bool, text: String) -> (e: CiError)
    ensures
        unauthorized ==> (e matches CiError::ApiAuth(m) && m@ == text@),
        !unauthorized ==> (e matches CiError::ApiRequest(m) && m@ == text@),
{
    if unauthorized {
        CiError::ApiAuth(text)
    } else {
        CiError::ApiRequest(text)
    }
}

} // verus!

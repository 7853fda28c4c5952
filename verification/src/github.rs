//! The GitHub side: building an App-authenticated, installation-scoped API
//! client from a credential record, and the single just-in-time runner
//! token exchange that client is used for.

use vstd::prelude::*;

use crate::errors::CiError;
use crate::name::RunnerName;
use crate::stage::CaliptraCiInfo;
use crate::target::RunnerLabels;

verus! {

/// `jsonwebtoken`'s RSA signing key, carried through opaquely.
#[verifier::external_type_specification]
#[verifier::external_body]
pub struct ExEncodingKey(jsonwebtoken::EncodingKey);

/// `octocrab`'s API client, carried through opaquely.
#[verifier::external_type_specification]
#[verifier::external_body]
pub struct ExOctocrab(octocrab::Octocrab);

/// Whether a byte sequence is a valid RSA PEM-encoded signing key: the
/// name of what `jsonwebtoken::EncodingKey::from_rsa_pem` accepts. Parsing
/// is a pure function of the bytes, so the name is well defined.
pub uninterp spec fn rsa_pem_key_ok(pem: Seq<u8>) -> bool;

/// Relies on `jsonwebtoken::EncodingKey::from_rsa_pem`: parses the bytes as
/// an RSA PEM signing key. Whether it succeeds depends on the bytes alone;
/// a parse failure is handed back as it came.
#[verifier::external_body]
fn key_from_rsa_pem(pem: &[u8]) -> (r: Result<
    jsonwebtoken::EncodingKey,
    jsonwebtoken::errors::Error,
>)
    ensures
        r is Ok <==> rsa_pem_key_ok(pem@),
{
    jsonwebtoken::EncodingKey::from_rsa_pem(pem)
}

/// Relies on `octocrab::OctocrabBuilder::app` and `build`: a client
/// authenticated as the GitHub App with this id and key. The client's
/// transport is buffered on the ambient tokio runtime, so this must be
/// called from within one.
#[verifier::external_body]
fn build_app_client(app_id: u64, key: jsonwebtoken::EncodingKey) -> Result<
    octocrab::Octocrab,
    octocrab::Error,
> {
    octocrab::Octocrab::builder().app(app_id.into(), key).build()
}

/// Relies on `octocrab::Octocrab::installation`: the client narrowed to one
/// App installation. The installation id is not verified here; an invalid
/// one only surfaces on the first API call made through the client.
#[verifier::external_body]
fn installation_client(client: octocrab::Octocrab, installation_id: u64) -> Result<
    octocrab::Octocrab,
    octocrab::Error,
> {
    client.installation(installation_id.into())
}

/// An API client scoped to one GitHub App installation, kept beside the
/// organization name its calls are made against.
pub struct OctocrabWrapper {
    pub github_org_name: String,
    pub octocrab: octocrab::Octocrab,
}

impl OctocrabWrapper {
    /// Builds the installation-scoped client from a credential record and
    /// the private-key bytes read from the record's key path. The key-parse
    /// error comes exactly when the bytes are not a valid RSA PEM key, and
    /// then no client is constructed; past that, a failure names the step
    /// that failed: the App client build or the installation narrowing,
    /// whose outcomes depend on the environment. Building the client
    /// buffers its transport on the ambient tokio runtime, so a call with a
    /// valid key must run inside one.
    pub fn new(info: &CaliptraCiInfo, key_pem: &[u8]) -> (r: Result<OctocrabWrapper, CiError>)
        ensures
            r matches Ok(w) ==> w.github_org_name@ == info.github_org_name@,
            (r matches Err(e) && e is KeyParse) <==> !rsa_pem_key_ok(key_pem@),
            r matches Err(e) ==> {
                ||| e is KeyParse
                ||| e is ClientBuild
                ||| e is Installation
            },
    {
        let key = match key_from_rsa_pem(key_pem) {
            Ok(key) => key,
            Err(e) => {
                return Err(CiError::KeyParse(e));
            },
        };
        let app_client = match build_app_client(info.github_app_id, key) {
            Ok(c) => c,
            Err(e) => {
                return Err(CiError::ClientBuild(e));
            },
        };
        let octocrab = match installation_client(app_client, info.github_installation_id) {
            Ok(c) => c,
            Err(e) => {
                return Err(CiError::Installation(e));
            },
        };
        Ok(OctocrabWrapper { github_org_name: info.github_org_name.clone(), octocrab })
    }

    /// The parameters of the one API call this system makes: the
    /// organization's just-in-time runner configuration, always against the
    /// single fixed runner group.
    pub fn jit_request(&self, name: RunnerName, labels: RunnerLabels) -> (r: JitRunnerRequest)
        ensures
            r.org@ == self.github_org_name@,
            r.runner_name@ == name@,
            r.runner_group_id == 1,
            r.labels.deep_view() == labels@,
    {
        JitRunnerRequest {
            org: self.github_org_name.clone(),
            runner_name: name.into_string(),
            runner_group_id: 1,
            labels: labels.into_vec(),
        }
    }
}

/// Everything the "create an organization just-in-time runner
/// configuration" call takes. The caller performs the call and consumes
/// only the encoded token of the response.
pub struct JitRunnerRequest {
    pub org: String,
    pub runner_name: String,
    pub runner_group_id: u64,
    pub labels: Vec<String>,
}

} // verus!

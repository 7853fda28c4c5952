//! The deployment stage and its registry: each implemented stage maps to a
//! fixed GitHub App credential record. A stage without a mapping is a hard
//! failure, never a silent fallback to another stage's credentials.

use vstd::prelude::*;
use vstd::string::*;

use crate::errors::CiError;
use crate::text::ci_eq;
use crate::text::eq_ignore_ascii;

verus! {

/// The deployment stage, chosen once per invocation.
#[derive(Clone, Copy, PartialEq, Eq, Structural, Debug)]
pub enum Stage {
    Carl,
    Staging,
    Prod,
}

/// Which stage a command-line value names, up to ASCII case; `None` when it
/// names no stage.
pub open spec fn stage_for(s: Seq<char>) -> Option<Stage> {
    if ci_eq(s, "carl"@) {
        Some(Stage::Carl)
    } else if ci_eq(s, "staging"@) {
        Some(Stage::Staging)
    } else if ci_eq(s, "prod"@) {
        Some(Stage::Prod)
    } else {
        None
    }
}

/// The diagnostic for a rejected stage value.
pub open spec fn invalid_stage_message(s: Seq<char>) -> Seq<char> {
    "Invalid stage: '"@ + s + "'. Must be one of 'carl', 'staging', or 'prod'."@
}

/// Parses a stage value, ASCII case-insensitively. Rejection happens here,
/// before any credential lookup or network activity.
pub fn parse_stage(s: &str) -> (r: Result<Stage, CiError>)
    ensures
        match r {
            Ok(stage) => stage_for(s@) == Some(stage),
            Err(e) => {
                &&& stage_for(s@) is None
                &&& e matches CiError::InvalidStage(m) && m@ == invalid_stage_message(s@)
            },
        },
{
    if eq_ignore_ascii(s, "carl") {
        Ok(Stage::Carl)
    } else if eq_ignore_ascii(s, "staging") {
        Ok(Stage::Staging)
    } else if eq_ignore_ascii(s, "prod") {
        Ok(Stage::Prod)
    } else {
        let mut m = String::new();
        m.append("Invalid stage: '");
        m.append(s);
        m.append("'. Must be one of 'carl', 'staging', or 'prod'.");
        proof {
            assert(m@ =~= invalid_stage_message(s@));
        }
        Err(CiError::InvalidStage(m))
    }
}

/// The CI credential record one stage resolves to.
pub struct CaliptraCiInfo {
    pub github_app_id: u64,
    pub github_installation_id: u64,
    pub github_org_name: String,
    pub key_path: String,
}

/// The stage registry: the fixed (app id, installation id, organization)
/// record of each implemented stage; `None` for a stage that has no mapping
/// yet.
pub open spec fn credentials_for(stage: Stage) -> Option<(u64, u64, Seq<char>)> {
    match stage {
        Stage::Carl => Some((1160975u64, 61798278u64, "clundin25-testorg"@)),
        Stage::Staging => None,
        Stage::Prod => Some((379559u64, 40993215u64, "chipsalliance"@)),
    }
}

impl CaliptraCiInfo {
    /// Resolves a stage to its credential record; the key path is passed
    /// through unchanged. Fails exactly on the stages with no mapping.
    pub fn for_stage(stage: Stage, key_path: String) -> (r: Result<CaliptraCiInfo, CiError>)
        ensures
            match r {
                Ok(info) => {
                    &&& credentials_for(stage) == Some(
                        (info.github_app_id, info.github_installation_id, info.github_org_name@),
                    )
                    &&& info.key_path@ == key_path@
                },
                Err(e) => credentials_for(stage) is None && e is UnimplementedStage,
            },
    {
        match stage {
            Stage::Carl => Ok(
                CaliptraCiInfo {
                    github_app_id: 1160975,
                    github_installation_id: 61798278,
                    github_org_name: String::from_str("clundin25-testorg"),
                    key_path,
                },
            ),
            Stage::Staging => Err(CiError::UnimplementedStage),
            Stage::Prod => Ok(
                CaliptraCiInfo {
                    github_app_id: 379559,
                    github_installation_id: 40993215,
                    github_org_name: String::from_str("chipsalliance"),
                    key_path,
                },
            ),
        }
    }
}

/// Law: two different stages that both have a credential mapping never share
/// an organization name, and never share an (app id, installation id) pair.
pub proof fn lemma_stage_credentials_distinct(s1: Stage, s2: Stage)
    requires
        s1 != s2,
        credentials_for(s1) is Some,
        credentials_for(s2) is Some,
    ensures
        (credentials_for(s1)->0).2 != (credentials_for(s2)->0).2,
        ((credentials_for(s1)->0).0, (credentials_for(s1)->0).1) != (
            (credentials_for(s2)->0).0,
            (credentials_for(s2)->0).1,
        ),
{
    reveal_strlit("clundin25-testorg");
    reveal_strlit("chipsalliance");
    assert("clundin25-testorg"@.len() == 17);
    assert("chipsalliance"@.len() == 13);
}

} // verus!

//! The FPGA target and its registry: each target maps to an ordered set of
//! runner capability labels. Labels are matched verbatim by workflow
//! `runs-on` selectors, so their spelling and order are an external contract.

use vstd::prelude::*;
use vstd::string::*;

use crate::errors::CiError;
use crate::text::ci_eq;
use crate::text::eq_ignore_ascii;

verus! {

/// The FPGA board class, chosen once per invocation.
#[derive(Clone, Copy, PartialEq, Eq, Structural, Debug)]
pub enum FpgaTarget {
    Zcu104,
    Zcu104Nightly,
    Vck190,
}

/// Which target a command-line value names, up to ASCII case; `None` when it
/// names no target.
pub open spec fn target_for(s: Seq<char>) -> Option<FpgaTarget> {
    if ci_eq(s, "zcu104-nightly"@) {
        Some(FpgaTarget::Zcu104Nightly)
    } else if ci_eq(s, "zcu104"@) {
        Some(FpgaTarget::Zcu104)
    } else if ci_eq(s, "vck190"@) {
        Some(FpgaTarget::Vck190)
    } else {
        None
    }
}

/// The diagnostic for a rejected FPGA-target value.
pub open spec fn invalid_target_message(s: Seq<char>) -> Seq<char> {
    "Invalid fpga: '"@ + s + "'. Must be one of 'zcu104', 'zcu104-nightly' or 'vck190'."@
}

/// Parses an FPGA-target value, ASCII case-insensitively.
pub fn parse_target(s: &str) -> (r: Result<FpgaTarget, CiError>)
    ensures
        match r {
            Ok(target) => target_for(s@) == Some(target),
            Err(e) => {
                &&& target_for(s@) is None
                &&& e matches CiError::InvalidTarget(m) && m@ == invalid_target_message(s@)
            },
        },
{
    if eq_ignore_ascii(s, "zcu104-nightly") {
        Ok(FpgaTarget::Zcu104Nightly)
    } else if eq_ignore_ascii(s, "zcu104") {
        Ok(FpgaTarget::Zcu104)
    } else if eq_ignore_ascii(s, "vck190") {
        Ok(FpgaTarget::Vck190)
    } else {
        let mut m = String::new();
        m.append("Invalid fpga: '");
        m.append(s);
        m.append("'. Must be one of 'zcu104', 'zcu104-nightly' or 'vck190'.");
        proof {
            assert(m@ =~= invalid_target_message(s@));
        }
        Err(CiError::InvalidTarget(m))
    }
}

/// The target registry: the ordered label set of each target. A nightly
/// variant carries the board's base label and a nightly-specific label; the
/// dry-run flag switches a staging-capable target to its staging label and
/// is ignored by the others.
pub open spec fn labels_for(target: FpgaTarget, dry_run: bool) -> Seq<Seq<char>> {
    match target {
        FpgaTarget::Zcu104 => seq!["caliptra-fpga"@],
        FpgaTarget::Zcu104Nightly => seq!["caliptra-fpga"@, "caliptra-fpga-nightly"@],
        FpgaTarget::Vck190 => if dry_run {
            seq!["vck190-staging"@]
        } else {
            seq!["vck190"@]
        },
    }
}

/// The ordered capability labels of one runner.
pub struct RunnerLabels(pub Vec<String>);

impl View for RunnerLabels {
    type V = Seq<Seq<char>>;

    open spec fn view(&self) -> Seq<Seq<char>> {
        self.0.deep_view()
    }
}

impl RunnerLabels {
    /// Resolves a target (and the dry-run flag) to its label set. Total:
    /// every target has a defined label set.
    pub fn new(target: FpgaTarget, dry_run: bool) -> (r: RunnerLabels)
        ensures
            r@ == labels_for(target, dry_run),
    {
        let mut inner: Vec<String> = Vec::new();
        match target {
            FpgaTarget::Zcu104 => {
                inner.push(String::from_str("caliptra-fpga"));
            },
            FpgaTarget::Zcu104Nightly => {
                inner.push(String::from_str("caliptra-fpga"));
                inner.push(String::from_str("caliptra-fpga-nightly"));
            },
            FpgaTarget::Vck190 => {
                if dry_run {
                    inner.push(String::from_str("vck190-staging"));
                } else {
                    inner.push(String::from_str("vck190"));
                }
            },
        }
        let r = RunnerLabels(inner);
        proof {
            assert(r@ =~~= labels_for(target, dry_run));
        }
        r
    }

    /// Hands the labels out as the plain vector the API call takes.
    pub fn into_vec(self) -> (v: Vec<String>)
        ensures
            v.deep_view() == self@,
    {
        self.0
    }
}

/// The board-family token shared by the nightly and stable variants of one
/// physical board; the same family mapping the labels use.
pub open spec fn board_token(target: FpgaTarget) -> Seq<char> {
    match target {
        FpgaTarget::Zcu104 => "caliptra-fpga"@,
        FpgaTarget::Zcu104Nightly => "caliptra-fpga"@,
        FpgaTarget::Vck190 => "vck190"@,
    }
}

/// The board-family token as a string slice.
pub fn board_token_str(target: FpgaTarget) -> (r: &'static str)
    ensures
        r@ == board_token(target),
{
    match target {
        FpgaTarget::Zcu104 => "caliptra-fpga",
        FpgaTarget::Zcu104Nightly => "caliptra-fpga",
        FpgaTarget::Vck190 => "vck190",
    }
}

/// The staging suffix a dry run appends to the labels of a target that has a
/// staging-capable label variant; empty for the others.
pub open spec fn staging_suffix(target: FpgaTarget) -> Seq<char> {
    if target == FpgaTarget::Vck190 {
        "-staging"@
    } else {
        Seq::empty()
    }
}

/// Law: for every target, the dry-run label set differs from the ordinary
/// one only by the staging-suffix transformation — label for label — and is
/// identical for targets without a staging-capable variant.
pub proof fn lemma_dry_run_labels(target: FpgaTarget)
    ensures
        labels_for(target, true).len() == labels_for(target, false).len(),
        forall|i: int| 0 <= i < labels_for(target, false).len()
            ==> labels_for(target, true)[i] == labels_for(target, false)[i] + staging_suffix(
                target,
            ),
        target != FpgaTarget::Vck190 ==> labels_for(target, true) == labels_for(target, false),
{
    reveal_strlit("vck190");
    reveal_strlit("-staging");
    reveal_strlit("vck190-staging");
    match target {
        FpgaTarget::Zcu104 => {
            assert(labels_for(target, true)[0] =~= labels_for(target, false)[0] + staging_suffix(
                target,
            ));
        },
        FpgaTarget::Zcu104Nightly => {
            assert(labels_for(target, true)[0] =~= labels_for(target, false)[0] + staging_suffix(
                target,
            ));
            assert(labels_for(target, true)[1] =~= labels_for(target, false)[1] + staging_suffix(
                target,
            ));
        },
        FpgaTarget::Vck190 => {
            assert(labels_for(target, true)[0] =~= labels_for(target, false)[0] + staging_suffix(
                target,
            ));
        },
    }
}

} // verus!

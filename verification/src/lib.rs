//! Provisioning of ephemeral, self-hosted GitHub Actions runners for
//! FPGA-backed CI jobs: stage and target resolution, runner-identity
//! derivation, and the just-in-time registration-token exchange.

pub mod errors;
pub mod github;
pub mod name;
pub mod report;
pub mod stage;
pub mod target;
pub mod text;

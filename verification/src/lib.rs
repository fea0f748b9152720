//! Verified decision logic of the run-core, SCM repository and configuration
//! persistence boundaries.

pub mod bytes;
pub mod cron;
pub mod error;
pub mod states;
pub mod jobs;
pub mod runs;
pub mod schedule;
pub mod digest;
pub mod config;
pub mod scm;
pub mod github;
pub mod projects;
pub mod policy;
pub mod expansion;
pub mod json;
pub mod triggers;
pub mod leases;
pub mod setup;
pub mod checks;
pub mod fetches;
pub mod webhooks;
pub mod links;
pub mod continuations;
pub mod capsules;
pub mod snapshots;
pub mod policy_lifecycle;
pub mod oidc;

//! Audits an account's IAM roles and customer-managed policies for unused
//! entries, and renders ready-to-run remediation scripts.
//!
//! The library holds the decision logic of the audit: the staleness
//! classification of roles, the attachment classification of policies, the
//! service-role exclusion on ARNs, the aggregation of fan-out fetch results
//! into either a report or an aggregated error, and the rendering of the
//! remediation script lines. The network client, the concurrency plumbing and
//! the output formatting live outside the library and hand it plain values.

pub mod arn;
pub mod cli;
pub mod clock;
pub mod errors;
pub mod text;
pub mod unused_policies;
pub mod unused_roles;

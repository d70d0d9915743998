//! Concurrent repository-compliance checking core.
//!
//! A run evaluates a set of independent policy rules (check units) against a
//! remote repository, collects three-state outcomes (pass, failure, or not
//! applicable), and reduces them to one deterministic report with a binary
//! verdict. Outbound lookups are guarded by a capacity-bounded, paced
//! throttle. All remote I/O lives outside this crate: callers perform the
//! lookups and hand the plain results to the decision functions here.

pub mod checks;
pub mod escape;
pub mod inputs;
pub mod inspect;
pub mod outcome;
pub mod report;
pub mod text;
pub mod throttle;

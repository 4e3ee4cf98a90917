//! Analysis core of a CI/CD pipeline auditor: a finding model and audit
//! contract shared by all rules, one representative rule that detects
//! manually-configured publishing credentials, and the decision logic of a
//! caching remote-metadata client (pagination, ref resolution, commit
//! comparison). All network transport lives outside this crate; the logic
//! here is verified against explicit contracts.

pub mod audit;
pub mod finding;
pub mod github_api;
pub mod state;
pub mod strutil;
pub mod workflow;

//! Mirror the group/namespace hierarchy of a GitLab account onto a local
//! directory tree, and optionally clone every accessible project into its
//! namespace path.
//!
//! This crate holds the decision logic of the mirror: access-level clamping,
//! credential resolution, namespace and clone planning, pagination, directory
//! materialization, clone-run bookkeeping and progress phases. All network,
//! filesystem and terminal work is done by the surrounding binary, which feeds
//! plain values into these functions and carries their decisions out.

pub mod clone_run;
pub mod credentials;
pub mod errors;
pub mod materialize;
pub mod model;
pub mod namespace;
pub mod paging;
pub mod progress;

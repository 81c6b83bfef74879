//! Turns a repository's staged changes into a commit whose message comes from
//! a remote completion service.
//!
//! The pipeline is: read the repository and summarize its diff, render the
//! summary into a prompt and a request body, extract candidate messages from
//! the service's response, let the operator pick one (or auto-commit a single
//! candidate), and write the commit. Network and terminal I/O live outside
//! this crate; the crate holds the data model, the rendering, the parsing and
//! the decisions, each with a contract.

pub mod api;
pub mod diff;
pub mod errors;
pub mod git;
pub mod orchestrate;
pub mod select;
pub mod text;

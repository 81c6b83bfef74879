//! The failure taxonomy of the pipeline.
//!
//! Every failure of a run is one of these kinds, and every kind is fatal:
//! there is no retry and no local recovery. The caller reports the message
//! and exits non-zero.

use vstd::prelude::*;

verus! {

/// Which stage of the pipeline a failure belongs to.
#[derive(Clone, Copy, Debug, PartialEq, Eq, Structural)]
pub enum ErrorKind {
    Repository,
    Transport,
    Api,
    InvalidSelection,
    Config,
}

/// One failure of a run, with a human-readable detail.
#[derive(Clone, Debug)]
pub enum MyError {
    /// Open/read/write failure against the version-control store.
    RepositoryError(String),
    /// Network-level failure reaching the completion endpoint.
    TransportError(String),
    /// Non-success status, unparseable response body, or an empty candidate
    /// list after parsing.
    ApiError(String),
    /// The operator chose an out-of-range or non-numeric candidate index.
    InvalidSelectionError(String),
    /// Missing required credential or invalid repository path.
    ConfigError(String),
}

impl MyError {
    /// The kind of this error.
    pub open spec fn spec_kind(&self) -> ErrorKind {
        match self {
            MyError::RepositoryError(_) => ErrorKind::Repository,
            MyError::TransportError(_) => ErrorKind::Transport,
            MyError::ApiError(_) => ErrorKind::Api,
            MyError::InvalidSelectionError(_) => ErrorKind::InvalidSelection,
            MyError::ConfigError(_) => ErrorKind::Config,
        }
    }

    /// The detail text carried by this error.
    pub open spec fn spec_detail(&self) -> Seq<char> {
        match self {
            MyError::RepositoryError(s) => s@,
            MyError::TransportError(s) => s@,
            MyError::ApiError(s) => s@,
            MyError::InvalidSelectionError(s) => s@,
            MyError::ConfigError(s) => s@,
        }
    }

    /// The text that `message` puts before the detail, one per kind.
    pub open spec fn spec_prefix(&self) -> Seq<char> {
        match self {
            MyError::RepositoryError(_) => "repository error: "@,
            MyError::TransportError(_) => "transport error: "@,
            MyError::ApiError(_) => "API error: "@,
            MyError::InvalidSelectionError(_) => "invalid selection: "@,
            MyError::ConfigError(_) => "configuration error: "@,
        }
    }

    pub fn kind(&self) -> (k: ErrorKind)
        ensures
            k == self.spec_kind(),
    {
        match self {
            MyError::RepositoryError(_) => ErrorKind::Repository,
            MyError::TransportError(_) => ErrorKind::Transport,
            MyError::ApiError(_) => ErrorKind::Api,
            MyError::InvalidSelectionError(_) => ErrorKind::InvalidSelection,
            MyError::ConfigError(_) => ErrorKind::Config,
        }
    }

    /// The message a caller prints: the kind's prefix followed by the detail.
    pub fn message(&self) -> (r: String)
        ensures
            r@ == self.spec_prefix() + self.spec_detail(),
    {
        let prefix: &str = match self {
            MyError::RepositoryError(_) => "repository error: ",
            MyError::TransportError(_) => "transport error: ",
            MyError::ApiError(_) => "API error: ",
            MyError::InvalidSelectionError(_) => "invalid selection: ",
            MyError::ConfigError(_) => "configuration error: ",
        };
        let detail: &str = match self {
            MyError::RepositoryError(s) => s.as_str(),
            MyError::TransportError(s) => s.as_str(),
            MyError::ApiError(s) => s.as_str(),
            MyError::InvalidSelectionError(s) => s.as_str(),
            MyError::ConfigError(s) => s.as_str(),
        };
        let mut r = prefix.to_owned();
        r.append(detail);
        r
    }
}

} // verus!

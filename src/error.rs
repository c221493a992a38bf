use vstd::prelude::*;

verus! {

/// How an operation on a file failed, as far as the stores tell failures apart.
#[derive(Debug, Clone, PartialEq, Eq)]
pub enum IoFailure {
    /// The file does not exist.
    NotFound,
    /// The process may not access the file.
    PermissionDenied,
    /// Any other failure, with a diagnostic for operators.
    Other(String),
}

/// The errors that both stores report.
#[derive(Debug, Clone, PartialEq, Eq)]
pub enum ConfigError {
    /// The content is not a document of the expected schema.
    Parsing,
    /// The file does not exist.
    FileNotFound,
    /// The process may not access the file.
    FilePermissions,
    /// The file holds no data.
    Empty,
    /// Any other failure, with a diagnostic for operators.
    Unknown(String),
}

/// The error that a failed file operation is reported as.
pub open spec fn classify(f: IoFailure) -> ConfigError {
    match f {
        IoFailure::NotFound => ConfigError::FileNotFound,
        IoFailure::PermissionDenied => ConfigError::FilePermissions,
        IoFailure::Other(detail) => ConfigError::Unknown(detail),
    }
}

impl ConfigError {
    /// Classifies a failed file operation: a missing file, a refused
    /// permission, or anything else with its diagnostic kept.
    pub fn from_io(f: IoFailure) -> (r: ConfigError)
        ensures
            r == classify(f),
            f == IoFailure::NotFound ==> r == ConfigError::FileNotFound,
            f == IoFailure::PermissionDenied ==> r == ConfigError::FilePermissions,
    {
        match f {
            IoFailure::NotFound => ConfigError::FileNotFound,
            IoFailure::PermissionDenied => ConfigError::FilePermissions,
            IoFailure::Other(detail) => ConfigError::Unknown(detail),
        }
    }

    /// Whether a loader may fall back to an empty configuration on this error.
    pub fn is_recoverable(&self) -> (r: bool)
        ensures
            r == (*self == ConfigError::Empty || *self == ConfigError::FileNotFound),
    {
        match self {
            ConfigError::Empty | ConfigError::FileNotFound => true,
            _ => false,
        }
    }
}

} // verus!

use vstd::prelude::*;
use vstd::string::StringExecFns;

verus! {

/// Why an initialize call was aborted. Every error ends the call: nothing is
/// launched after one, and nothing is retried.
#[derive(Clone, Copy, Debug, PartialEq, Eq, Structural)]
pub enum BootstrapError {
    /// A configuration value is malformed.
    ConfigError,
    /// The transport failed, the host answered with a non-success status, or
    /// the fetched body could not be persisted.
    DownloadError,
    /// The archive could not be decoded, the destination directory could not
    /// be created, or writing an entry failed.
    ExtractError,
    /// The working-directory URI does not resolve to a filesystem path.
    AgentPathError,
}

impl BootstrapError {
    /// A short description for the host's diagnostic sink.
    pub fn message(&self) -> (text: String)
        ensures
            text@ == match *self {
                BootstrapError::ConfigError => "malformed configuration value"@,
                BootstrapError::DownloadError => "download failed"@,
                BootstrapError::ExtractError => "archive extraction failed"@,
                BootstrapError::AgentPathError => "working directory is not a filesystem path"@,
            },
    {
        match self {
            BootstrapError::ConfigError => String::from_str("malformed configuration value"),
            BootstrapError::DownloadError => String::from_str("download failed"),
            BootstrapError::ExtractError => String::from_str("archive extraction failed"),
            BootstrapError::AgentPathError => String::from_str(
                "working directory is not a filesystem path",
            ),
        }
    }
}

} // verus!

use vstd::prelude::*;
use vstd::string::*;

verus! {

/// The failures the command surface can report to the host shell.
///
/// Variants that carry a `String` wrap a detail message produced at the
/// boundary where the failure was observed (a file error, a message from the
/// connection engine). Every error is surfaced to the host shell as a plain
/// descriptive string, obtained from [`CommandError::message`].
#[derive(Debug)]
pub enum CommandError {
    /// The base configuration could not be loaded or merged.
    ConfigBuild(String),
    /// The connection to the ledger network could not be built.
    ConnectionBuild(String),
    /// A slot was already filled by an earlier initialization.
    AlreadyInitialized,
    /// The required slot has not been filled yet.
    NotInitialized,
    /// The manifest file could not be read.
    ManifestIo(String),
    /// The manifest file did not hold the expected shape.
    ManifestParse(String),
    /// The requested governance has no entry in the manifest.
    GovernanceNotFound,
    /// A live operation on the connection failed.
    LiveOperation(String),
}

impl CommandError {
    /// The human-readable description that the host shell receives.
    pub fn message(&self) -> (r: String)
        ensures
            match self {
                CommandError::ConfigBuild(d) => r@ == "Error building config: "@ + d@,
                CommandError::ConnectionBuild(d) => r@ == "Error building Bridge: "@ + d@,
                CommandError::AlreadyInitialized => r@ == "Bridge already initialized"@,
                CommandError::NotInitialized => r@ == "Not initialized"@,
                CommandError::ManifestIo(d) => r@ == "Error reading manifest: "@ + d@,
                CommandError::ManifestParse(d) => r@ == "Error parsing manifest: "@ + d@,
                CommandError::GovernanceNotFound => r@ == "Governance not found"@,
                CommandError::LiveOperation(d) => r@ == d@,
            },
    {
        match self {
            CommandError::ConfigBuild(d) => {
                String::from_str("Error building config: ").concat(d.as_str())
            },
            CommandError::ConnectionBuild(d) => {
                String::from_str("Error building Bridge: ").concat(d.as_str())
            },
            CommandError::AlreadyInitialized => String::from_str("Bridge already initialized"),
            CommandError::NotInitialized => String::from_str("Not initialized"),
            CommandError::ManifestIo(d) => {
                String::from_str("Error reading manifest: ").concat(d.as_str())
            },
            CommandError::ManifestParse(d) => {
                String::from_str("Error parsing manifest: ").concat(d.as_str())
            },
            CommandError::GovernanceNotFound => String::from_str("Governance not found"),
            CommandError::LiveOperation(d) => d.clone(),
        }
    }
}

} // verus!

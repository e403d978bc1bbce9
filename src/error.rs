use vstd::prelude::*;

verus! {

/// Why the one-shot bring-up of the radio failed.
#[derive(Clone, Copy, Debug, PartialEq, Eq, Structural)]
pub enum ConnError {
    /// The credentials do not fit the bounded storage, or the driver refused
    /// the client configuration.
    ConfigError,
    /// The driver did not report the radio as started.
    StartError,
    /// Association failed for a reason other than a rejected credential,
    /// such as no access point with that name being found.
    AssocError,
    /// The access point rejected the credentials.
    AuthError,
    /// The network layer did not become ready.
    NetifError,
}

/// Why one on-demand scan failed.
#[derive(Clone, Copy, Debug, PartialEq, Eq, Structural)]
pub enum ScanError {
    /// The radio was not started and starting it failed.
    StartFailed,
    /// The driver failed during the scan itself.
    ScanFailed,
}

} // verus!

//! Status snapshots returned to the caller.

use vstd::prelude::*;

verus! {

/// Snapshot of the local Docker installation: whether a working `docker`
/// binary was found, whether the daemon answered `docker ps`, and the
/// version string the binary reported.
#[derive(Clone, Debug, PartialEq, Eq)]
pub struct DockerStatus {
    pub installed: bool,
    pub running: bool,
    pub version: Option<String>,
}

/// Snapshot of the n8n service: whether it answered an HTTP health probe,
/// whether its containers exist (running or stopped), whether its images
/// are present locally, and an optional diagnostic message.
#[derive(Clone, Debug, PartialEq, Eq)]
pub struct N8NStatus {
    pub running: bool,
    pub containers_exist: bool,
    pub images_available: bool,
    pub error_message: Option<String>,
}

} // verus!

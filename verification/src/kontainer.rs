//! Linux-container deployment descriptions.  Running the container
//! commands happens outside this crate.

use vstd::prelude::*;

verus! {

/// A Linux container to create.
pub struct Container {
    /// The container's name.
    pub name: String,
    /// The distribution to download.
    pub distribution: String,
    /// The distribution's release.
    pub release: String,
    /// The target architecture.
    pub architecture: String,
}

/// The system deployment description.
pub struct Sys {
    /// Linux Containers
    pub containers: Vec<Container>,
}

/// A `Spin.toml` deployment file's contents.
pub struct Spin {
    /// The system to deploy.
    pub sys: Sys,
}

} // verus!

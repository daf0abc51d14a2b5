//! The error taxonomy of the snapshotter.
//!
//! Every failure of the mount/unmount protocol is reported through one of
//! these variants; each carries enough context (operation, path, filesystem
//! type) for a caller to log and diagnose.

use vstd::prelude::*;

verus! {

/// One error per failing step of the protocol.
#[derive(Debug, Clone, PartialEq, Eq)]
pub enum SnapshotError {
    /// The mount path has no parent, or its parent has no resolvable
    /// final component, so no container identity can be derived.
    IdentityResolution { detail: String },
    /// A scratch or target directory could not be prepared
    /// (created, listed or cleared).
    Workspace { path: String, detail: String },
    /// A runtime-environment file was missing or could not be copied.
    EnvironmentStaging { detail: String },
    /// The secure-image builder failed, or no key material could be drawn.
    LayerBuild { detail: String },
    /// An OS mount or unmount failed; names the filesystem type and the
    /// target path involved.
    Mount { fstype: String, target: String, detail: String },
    /// The key-custody mount lifecycle or the key-record write failed.
    KeyCustody { detail: String },
}

} // verus!

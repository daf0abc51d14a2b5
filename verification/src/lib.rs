//! A verified layer-assembly and key-custody orchestrator for an
//! encrypted, layered container root filesystem.
//!
//! The library plans and sequences the whole `mount`/`unmount` protocol:
//! resolving the container identity from the mount path, preparing the
//! scratch workspace, building the writable layer and each read-only layer
//! as independently keyed images, staging the minimal runtime environment,
//! and publishing the per-layer key records through the key-custody mount.
//! All decisions are made here, under contracts; the host-side effects
//! (mounts, copies, image builds) are requested as [`session::Action`]
//! values that an unverified driver performs, reporting each outcome back
//! as a [`session::Event`].

pub mod errors;
pub mod hexcodec;
pub mod imagename;
pub mod pathutil;
pub mod keyrecord;
pub mod envplan;
pub mod session;

pub use errors::SnapshotError;
pub use session::EccOvlFs;

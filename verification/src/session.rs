//! The mount/unmount orchestrator.
//!
//! One `mount` is a strictly sequential protocol of host-side effects:
//! prepare the target and the scratch workspace, mount the host
//! passthrough, clear the target, build the writable layer, stage and
//! build the environment layer, build each caller-supplied layer in
//! order, release the passthrough, and publish the collected key records
//! through the key-custody mount.  [`MountSession`] holds the protocol
//! state; [`MountSession::next`] consumes the outcome of the previous
//! step and decides the next [`Action`].  The driver that performs the
//! actions is outside the library; everything it must do, and in which
//! order, is pinned by [`step_post`] and the session invariant
//! [`MountSession::wf`].

use vstd::prelude::*;
use vstd::pervasive::unreached;
use crate::errors::SnapshotError;
use crate::imagename::{lemma_dec_str_len, lemma_ro_image_name_injective, dec_str, pad4,
    ro_image_name, ro_image_name_spec, rw_image_name, rw_image_name_spec};
use crate::keyrecord::{records_line, serialize_records, LayerKeyRecord};
use crate::pathutil::{cid_of, dir_mount_options, host_image_dir, keys_backing_dir, path_join,
    resolve_cid};

verus! {

/// What a successful mount hands back: the filesystem kind exposed, the
/// path where the unified view was staged, and the orchestrator's own
/// persistent work directory.
#[derive(Debug, Clone, PartialEq, Eq)]
pub struct MountHandle {
    pub kind: String,
    pub mount_path: String,
    pub work_dir: String,
}

/// One host-side effect the driver must perform next.
#[derive(Debug, Clone, PartialEq, Eq)]
pub enum Action {
    /// Create the directory (and its parents) if absent.
    EnsureDir { path: String },
    /// Create the directory if absent; if present, remove all of its
    /// direct children.
    PrepareWorkspace { path: String },
    /// Mount `fstype` at `target` with the given source tag and options,
    /// with no mount flags.
    MountFs { source: String, fstype: String, target: String, options: String },
    /// Remove all direct children of the directory.
    ClearDir { path: String },
    /// Build an empty writable image at `image_path`, keyed with `key`.
    BuildWritableImage { image_path: String, key: Vec<u8> },
    /// Stage the runtime environment into `dir` (create it, then carry
    /// out [`crate::envplan::env_plan`] for it).
    StageEnvironment { dir: String },
    /// Build a read-only image from `source_dir` into `target_dir`
    /// under `image_name`, scratching in `work_dir`, keyed with `key`.
    BuildReadOnlyImage {
        source_dir: String,
        target_dir: String,
        image_name: String,
        work_dir: String,
        key: Vec<u8>,
    },
    /// Unmount whatever is mounted at `target`.
    UnmountFs { target: String },
    /// Write `contents` to the file at `path`.
    WriteKeyFile { path: String, contents: String },
}

/// The driver's report on the action it performed.
#[derive(Debug, Clone, PartialEq, Eq)]
pub enum Event {
    /// The action succeeded (for every action but the builds).
    Completed,
    /// A build succeeded; the builder's key-mode descriptor follows.
    Built { is_encrypted: bool, key: Vec<u8> },
    /// The action failed; `detail` describes the underlying error.
    Failed { detail: String },
}

/// What the session asks for after a step: another action, or the
/// finished handle.
#[derive(Debug, Clone, PartialEq, Eq)]
pub enum Progress {
    Next(Action),
    Complete(MountHandle),
}

/// Where the protocol stands: each variant names the action whose
/// outcome the session is waiting for.
#[derive(Debug, Clone, Copy, PartialEq, Eq)]
pub enum Phase {
    EnsureTarget,
    PrepareWs,
    MountHost,
    ClearTarget,
    BuildRw,
    StageEnv,
    BuildEnvLayer,
    ClearAfterEnv,
    BuildLayer { idx: usize },
    ClearAfterLayer { idx: usize },
    UnmountHost,
    MountKeys,
    WriteKeys,
    UnmountKeys,
    SessionDone,
}

/// The scratch workspace used during layer builds.
pub open spec fn ws_dir_spec() -> Seq<char> {
    "/eccfs_tmp"@
}

/// Where the runtime environment is staged inside the workspace.
pub open spec fn env_dir_spec() -> Seq<char> {
    "/eccfs_tmp/occlum_env"@
}

/// The fixed key-custody mount point.
pub open spec fn keys_mount_spec() -> Seq<char> {
    "/keys"@
}

/// The key record file inside the key-custody mount.
pub open spec fn key_file_spec() -> Seq<char> {
    "/keys/key.txt"@
}

/// The private host directory holding this container's built images.
pub open spec fn host_backing_spec(cid: Seq<char>) -> Seq<char> {
    "/images/"@ + cid + "/eccfs"@
}

/// The private host directory backing the key-custody mount.
pub open spec fn keys_backing_spec(cid: Seq<char>) -> Seq<char> {
    "/images/"@ + cid + "/keys/sefs/lower"@
}

/// The phases whose pending action is an image build, i.e. whose
/// outcome must be a [`Event::Built`] descriptor.
pub open spec fn expects_build(p: Phase) -> bool {
    p is BuildRw || p is BuildEnvLayer || p is BuildLayer
}

/// One in-flight mount protocol run for one container.
pub struct MountSession {
    /// The caller-supplied read-only layer source directories, in order.
    pub layers: Vec<String>,
    /// The target path of the unified view.
    pub mount_path: String,
    /// The container identity resolved from `mount_path`.
    pub cid: String,
    /// The orchestrator's persistent work directory (for the handle).
    pub data_dir: String,
    /// One key record per built layer, in build order.
    pub records: Vec<LayerKeyRecord>,
    /// Where the protocol stands.
    pub phase: Phase,
    /// The image filenames whose builds were requested, in build order.
    pub built: Ghost<Seq<Seq<char>>>,
}

impl MountSession {
    /// How many key records the session holds at each phase.
    pub open spec fn expected_records(self) -> nat {
        match self.phase {
            Phase::EnsureTarget => 0,
            Phase::PrepareWs => 0,
            Phase::MountHost => 0,
            Phase::ClearTarget => 0,
            Phase::BuildRw => 0,
            Phase::StageEnv => 1,
            Phase::BuildEnvLayer => 1,
            Phase::ClearAfterEnv => 2,
            Phase::BuildLayer { idx } => (idx + 2) as nat,
            Phase::ClearAfterLayer { idx } => (idx + 3) as nat,
            Phase::UnmountHost => self.layers@.len() + 2,
            Phase::MountKeys => self.layers@.len() + 2,
            Phase::WriteKeys => self.layers@.len() + 2,
            Phase::UnmountKeys => self.layers@.len() + 2,
            Phase::SessionDone => self.records@.len(),
        }
    }

    /// Which image builds the session has requested at each phase: the
    /// writable image first, then the read-only images in strictly
    /// ascending index order starting at 0.
    pub open spec fn expected_built(self) -> Seq<Seq<char>> {
        match self.phase {
            Phase::EnsureTarget => Seq::empty(),
            Phase::PrepareWs => Seq::empty(),
            Phase::MountHost => Seq::empty(),
            Phase::ClearTarget => Seq::empty(),
            Phase::BuildRw => seq![rw_image_name_spec()],
            Phase::StageEnv => seq![rw_image_name_spec()],
            Phase::BuildEnvLayer => seq![rw_image_name_spec(), ro_image_name_spec(0)],
            Phase::ClearAfterEnv => seq![rw_image_name_spec(), ro_image_name_spec(0)],
            Phase::BuildLayer { idx } => seq![rw_image_name_spec()] + Seq::new(
                (idx + 2) as nat,
                |k: int| ro_image_name_spec(k as nat),
            ),
            Phase::ClearAfterLayer { idx } => seq![rw_image_name_spec()] + Seq::new(
                (idx + 2) as nat,
                |k: int| ro_image_name_spec(k as nat),
            ),
            Phase::UnmountHost => self.all_built(),
            Phase::MountKeys => self.all_built(),
            Phase::WriteKeys => self.all_built(),
            Phase::UnmountKeys => self.all_built(),
            Phase::SessionDone => self.built@,
        }
    }

    /// Every image of a full run: the writable image and one read-only
    /// image per index `0 ..= layers.len()`.
    pub open spec fn all_built(self) -> Seq<Seq<char>> {
        seq![rw_image_name_spec()] + Seq::new(
            (self.layers@.len() + 1) as nat,
            |k: int| ro_image_name_spec(k as nat),
        )
    }

    /// The session invariant: the container identity matches the mount
    /// path, and the records and requested builds match the phase.
    pub open spec fn wf(self) -> bool {
        &&& cid_of(self.mount_path@) == Some(self.cid@)
        &&& self.records@.len() == self.expected_records()
        &&& self.built@ == self.expected_built()
        &&& match self.phase {
            Phase::BuildLayer { idx } => idx < self.layers@.len(),
            Phase::ClearAfterLayer { idx } => idx < self.layers@.len(),
            _ => true,
        }
    }
}

/// What one protocol step does, as a relation between the session
/// before (`pre`) and after (`post`), the reported `event`, and the
/// step's result `r`.
///
/// Every success arm pins the emitted action exactly; every failure arm
/// pins the error variant the failing step surfaces as, and ends the
/// session.  A step that draws key material may also fail with
/// [`SnapshotError::LayerBuild`] when the random source is unavailable.
pub open spec fn step_post(
    pre: MountSession,
    event: Event,
    post: MountSession,
    r: Result<Progress, SnapshotError>,
) -> bool {
    match pre.phase {
        Phase::EnsureTarget => match event {
            Event::Completed => {
                &&& post.phase is PrepareWs
                &&& post.records == pre.records
                &&& r matches Ok(p) && p matches Progress::Next(a) && a matches
                    Action::PrepareWorkspace { path } && path@ == ws_dir_spec()
            },
            Event::Failed { detail } => {
                &&& post.phase is SessionDone
                &&& r matches Err(e) && e matches SnapshotError::Workspace { path, detail: d }
                    && path@ == pre.mount_path@ && d == detail
            },
            _ => false,
        },
        Phase::PrepareWs => match event {
            Event::Completed => {
                &&& post.phase is MountHost
                &&& post.records == pre.records
                &&& r matches Ok(p) && p matches Progress::Next(a) && a matches Action::MountFs {
                    source,
                    fstype,
                    target,
                    options,
                } && source@ == "hostfs"@ && fstype@ == "hostfs"@ && target@ == pre.mount_path@
                    && options@ == "dir="@ + host_backing_spec(pre.cid@)
            },
            Event::Failed { detail } => {
                &&& post.phase is SessionDone
                &&& r matches Err(e) && e matches SnapshotError::Workspace { path, detail: d }
                    && path@ == ws_dir_spec() && d == detail
            },
            _ => false,
        },
        Phase::MountHost => match event {
            Event::Completed => {
                &&& post.phase is ClearTarget
                &&& post.records == pre.records
                &&& r matches Ok(p) && p matches Progress::Next(a) && a matches Action::ClearDir {
                    path,
                } && path@ == pre.mount_path@
            },
            Event::Failed { detail } => {
                &&& post.phase is SessionDone
                &&& r matches Err(e) && e matches SnapshotError::Mount {
                    fstype,
                    target,
                    detail: d,
                } && fstype@ == "hostfs"@ && target@ == pre.mount_path@ && d == detail
            },
            _ => false,
        },
        Phase::ClearTarget => match event {
            Event::Completed => {
                &&& post.records == pre.records
                &&& (r matches Ok(p) && p matches Progress::Next(a) && a matches
                    Action::BuildWritableImage { image_path, key } && image_path@
                    == pre.mount_path@ + "/"@ + rw_image_name_spec() && key@.len() == 16
                    && post.phase is BuildRw) || (r matches Err(e) && e is LayerBuild
                    && post.phase is SessionDone)
            },
            Event::Failed { detail } => {
                &&& post.phase is SessionDone
                &&& r matches Err(e) && e matches SnapshotError::Workspace { path, detail: d }
                    && path@ == pre.mount_path@ && d == detail
            },
            _ => false,
        },
        Phase::BuildRw => match event {
            Event::Built { is_encrypted, key } => {
                &&& post.phase is StageEnv
                &&& post.records.deep_view() == pre.records.deep_view().push((is_encrypted, key@))
                &&& r matches Ok(p) && p matches Progress::Next(a) && a matches
                    Action::StageEnvironment { dir } && dir@ == env_dir_spec()
            },
            Event::Failed { detail } => {
                &&& post.phase is SessionDone
                &&& r matches Err(e) && e matches SnapshotError::LayerBuild { detail: d } && d
                    == detail
            },
            _ => false,
        },
        Phase::StageEnv => match event {
            Event::Completed => {
                &&& post.records == pre.records
                &&& (r matches Ok(p) && p matches Progress::Next(a) && a matches
                    Action::BuildReadOnlyImage {
                    source_dir,
                    target_dir,
                    image_name,
                    work_dir,
                    key,
                } && source_dir@ == env_dir_spec() && target_dir@ == pre.mount_path@
                    && image_name@ == ro_image_name_spec(0) && work_dir@ == ws_dir_spec()
                    && key@.len() == 16 && post.phase is BuildEnvLayer) || (r matches Err(e)
                    && e is LayerBuild && post.phase is SessionDone)
            },
            Event::Failed { detail } => {
                &&& post.phase is SessionDone
                &&& r matches Err(e) && e matches SnapshotError::EnvironmentStaging { detail: d }
                    && d == detail
            },
            _ => false,
        },
        Phase::BuildEnvLayer => match event {
            Event::Built { is_encrypted, key } => {
                &&& post.phase is ClearAfterEnv
                &&& post.records.deep_view() == pre.records.deep_view().push((is_encrypted, key@))
                &&& r matches Ok(p) && p matches Progress::Next(a) && a matches Action::ClearDir {
                    path,
                } && path@ == ws_dir_spec()
            },
            Event::Failed { detail } => {
                &&& post.phase is SessionDone
                &&& r matches Err(e) && e matches SnapshotError::LayerBuild { detail: d } && d
                    == detail
            },
            _ => false,
        },
        Phase::ClearAfterEnv => match event {
            Event::Completed => {
                &&& post.records == pre.records
                &&& if pre.layers@.len() == 0 {
                    r matches Ok(p) && p matches Progress::Next(a) && a matches Action::UnmountFs {
                        target,
                    } && target@ == pre.mount_path@ && post.phase is UnmountHost
                } else {
                    (r matches Ok(p) && p matches Progress::Next(a) && a matches
                        Action::BuildReadOnlyImage {
                        source_dir,
                        target_dir,
                        image_name,
                        work_dir,
                        key,
                    } && source_dir@ == pre.layers@[0]@ && target_dir@ == pre.mount_path@
                        && image_name@ == ro_image_name_spec(1) && work_dir@ == ws_dir_spec()
                        && key@.len() == 16 && (post.phase matches Phase::BuildLayer { idx }
                        && idx == 0)) || (r matches Err(e) && e is LayerBuild
                        && post.phase is SessionDone)
                }
            },
            Event::Failed { detail } => {
                &&& post.phase is SessionDone
                &&& r matches Err(e) && e matches SnapshotError::Workspace { path, detail: d }
                    && path@ == ws_dir_spec() && d == detail
            },
            _ => false,
        },
        Phase::BuildLayer { idx } => match event {
            Event::Built { is_encrypted, key } => {
                &&& post.phase matches Phase::ClearAfterLayer { idx: i } && i == idx
                &&& post.records.deep_view() == pre.records.deep_view().push((is_encrypted, key@))
                &&& r matches Ok(p) && p matches Progress::Next(a) && a matches Action::ClearDir {
                    path,
                } && path@ == ws_dir_spec()
            },
            Event::Failed { detail } => {
                &&& post.phase is SessionDone
                &&& r matches Err(e) && e matches SnapshotError::LayerBuild { detail: d } && d
                    == detail
            },
            _ => false,
        },
        Phase::ClearAfterLayer { idx } => match event {
            Event::Completed => {
                &&& post.records == pre.records
                &&& if idx + 1 == pre.layers@.len() {
                    r matches Ok(p) && p matches Progress::Next(a) && a matches Action::UnmountFs {
                        target,
                    } && target@ == pre.mount_path@ && post.phase is UnmountHost
                } else {
                    (r matches Ok(p) && p matches Progress::Next(a) && a matches
                        Action::BuildReadOnlyImage {
                        source_dir,
                        target_dir,
                        image_name,
                        work_dir,
                        key,
                    } && source_dir@ == pre.layers@[idx + 1]@ && target_dir@ == pre.mount_path@
                        && image_name@ == ro_image_name_spec((idx + 2) as nat) && work_dir@
                        == ws_dir_spec() && key@.len() == 16 && (post.phase matches
                        Phase::BuildLayer { idx: i } && i == idx + 1)) || (r matches Err(e)
                        && e is LayerBuild && post.phase is SessionDone)
                }
            },
            Event::Failed { detail } => {
                &&& post.phase is SessionDone
                &&& r matches Err(e) && e matches SnapshotError::Workspace { path, detail: d }
                    && path@ == ws_dir_spec() && d == detail
            },
            _ => false,
        },
        Phase::UnmountHost => match event {
            Event::Completed => {
                &&& post.phase is MountKeys
                &&& post.records == pre.records
                &&& r matches Ok(p) && p matches Progress::Next(a) && a matches Action::MountFs {
                    source,
                    fstype,
                    target,
                    options,
                } && source@ == "sefs"@ && fstype@ == "sefs"@ && target@ == keys_mount_spec()
                    && options@ == "dir="@ + keys_backing_spec(pre.cid@)
            },
            Event::Failed { detail } => {
                &&& post.phase is SessionDone
                &&& r matches Err(e) && e matches SnapshotError::Mount {
                    fstype,
                    target,
                    detail: d,
                } && fstype@ == "hostfs"@ && target@ == pre.mount_path@ && d == detail
            },
            _ => false,
        },
        Phase::MountKeys => match event {
            Event::Completed => {
                &&& post.phase is WriteKeys
                &&& post.records == pre.records
                &&& r matches Ok(p) && p matches Progress::Next(a) && a matches
                    Action::WriteKeyFile { path, contents } && path@ == key_file_spec()
                    && contents@ == records_line(pre.records.deep_view())
            },
            Event::Failed { detail } => {
                &&& post.phase is SessionDone
                &&& r matches Err(e) && e matches SnapshotError::KeyCustody { detail: d } && d
                    == detail
            },
            _ => false,
        },
        Phase::WriteKeys => match event {
            Event::Completed => {
                &&& post.phase is UnmountKeys
                &&& post.records == pre.records
                &&& r matches Ok(p) && p matches Progress::Next(a) && a matches Action::UnmountFs {
                    target,
                } && target@ == keys_mount_spec()
            },
            Event::Failed { detail } => {
                &&& post.phase is SessionDone
                &&& r matches Err(e) && e matches SnapshotError::KeyCustody { detail: d } && d
                    == detail
            },
            _ => false,
        },
        Phase::UnmountKeys => match event {
            Event::Completed => {
                &&& post.phase is SessionDone
                &&& post.records == pre.records
                &&& post.built@ == pre.all_built()
                &&& pre.records@.len() == pre.layers@.len() + 2
                &&& r matches Ok(p) && p matches Progress::Complete(h) && h.kind@ == "eccfs"@
                    && h.mount_path@ == pre.mount_path@ && h.work_dir@ == pre.data_dir@
            },
            Event::Failed { detail } => {
                &&& post.phase is SessionDone
                &&& r matches Err(e) && e matches SnapshotError::KeyCustody { detail: d } && d
                    == detail
            },
            _ => false,
        },
        Phase::SessionDone => false,
    }
}

/// Every image of one full mount is written under its own filename: the
/// writable image's fixed name, and one distinct, strictly ascending
/// zero-padded index name per read-only layer.
pub proof fn lemma_built_images_distinct(s: MountSession, i: int, j: int)
    requires
        0 <= i < s.all_built().len(),
        0 <= j < s.all_built().len(),
        i != j,
    ensures
        s.all_built()[i] != s.all_built()[j],
{
    let names = s.all_built();
    reveal_strlit("run.rwimage");
    reveal_strlit(".roimage");
    if i > 0 && j > 0 {
        assert(names[i] == ro_image_name_spec((i - 1) as nat));
        assert(names[j] == ro_image_name_spec((j - 1) as nat));
        if names[i] == names[j] {
            lemma_ro_image_name_injective((i - 1) as nat, (j - 1) as nat);
            assert(false);
        }
    } else {
        let k = if i == 0 {
            j
        } else {
            i
        };
        assert(names[0] == rw_image_name_spec());
        assert(names[k] == ro_image_name_spec((k - 1) as nat));
        lemma_dec_str_len((k - 1) as nat);
        assert(pad4(dec_str((k - 1) as nat)).len() >= 4);
        assert(names[k].len() >= 12);
        assert(names[0].len() == 11);
    }
}

/// Relies on `getrandom::fill`: fills the buffer from the operating
/// system's cryptographically secure random source; nothing can be
/// promised of the bytes themselves.
#[verifier::external_body]
fn fill_random(buf: &mut Vec<u8>) -> (r: Result<(), ()>)
    ensures
        final(buf)@.len() == old(buf)@.len(),
{
    match getrandom::fill(buf.as_mut_slice()) {
        Ok(()) => Ok(()),
        Err(_) => Err(()),
    }
}

/// Draws fresh, independently generated 128-bit key material for one
/// layer build.  Fails only when the random source is unavailable.
pub fn generate_random_key() -> (r: Result<Vec<u8>, SnapshotError>)
    ensures
        r matches Ok(k) ==> k@.len() == 16,
        r matches Err(e) ==> e is LayerBuild,
{
    let mut key: Vec<u8> = Vec::new();
    let mut i: usize = 0;
    while i < 16
        invariant
            key@.len() == i,
            i <= 16,
        decreases 16 - i,
    {
        key.push(0u8);
        i = i + 1;
    }
    match fill_random(&mut key) {
        Ok(()) => Ok(key),
        Err(()) => {
            let mut detail = String::new();
            detail.append("random key source unavailable");
            Err(SnapshotError::LayerBuild { detail })
        },
    }
}

/// One literal as an owned string.
fn text(a: &str) -> (r: String)
    ensures
        r@ == a@,
{
    let mut s = String::new();
    s.append(a);
    s
}

impl MountSession {
    /// Consumes the outcome of the pending action and decides the next
    /// step of the protocol, exactly as [`step_post`] states.
    pub fn next(&mut self, event: Event) -> (r: Result<Progress, SnapshotError>)
        requires
            old(self).wf(),
            !(old(self).phase is SessionDone),
            event is Built ==> expects_build(old(self).phase),
            event is Completed ==> !expects_build(old(self).phase),
        ensures
            final(self).layers == old(self).layers,
            final(self).mount_path == old(self).mount_path,
            final(self).cid == old(self).cid,
            final(self).data_dir == old(self).data_dir,
            final(self).wf(),
            step_post(*old(self), event, *final(self), r),
    {
        match event {
            Event::Failed { detail } => {
                let e = self.fail_error(detail);
                self.phase = Phase::SessionDone;
                Err(e)
            },
            Event::Completed => {
                match self.phase {
                    Phase::EnsureTarget => {
                        self.phase = Phase::PrepareWs;
                        Ok(Progress::Next(Action::PrepareWorkspace { path: text("/eccfs_tmp") }))
                    },
                    Phase::PrepareWs => {
                        let backing = host_image_dir(self.cid.as_str());
                        let options = dir_mount_options(backing.as_str());
                        self.phase = Phase::MountHost;
                        Ok(Progress::Next(Action::MountFs {
                            source: text("hostfs"),
                            fstype: text("hostfs"),
                            target: self.mount_path.clone(),
                            options,
                        }))
                    },
                    Phase::MountHost => {
                        self.phase = Phase::ClearTarget;
                        Ok(Progress::Next(Action::ClearDir { path: self.mount_path.clone() }))
                    },
                    Phase::ClearTarget => {
                        let key = match generate_random_key() {
                            Ok(k) => k,
                            Err(e) => {
                                self.phase = Phase::SessionDone;
                                return Err(e);
                            },
                        };
                        let name = rw_image_name();
                        let image_path = path_join(self.mount_path.as_str(), name.as_str());
                        self.phase = Phase::BuildRw;
                        proof {
                            self.built = Ghost(self.built@.push(rw_image_name_spec()));
                            assert(self.built@ =~= self.expected_built());
                        }
                        Ok(Progress::Next(Action::BuildWritableImage { image_path, key }))
                    },
                    Phase::StageEnv => {
                        let key = match generate_random_key() {
                            Ok(k) => k,
                            Err(e) => {
                                self.phase = Phase::SessionDone;
                                return Err(e);
                            },
                        };
                        let image_name = ro_image_name(0);
                        self.phase = Phase::BuildEnvLayer;
                        proof {
                            self.built = Ghost(self.built@.push(ro_image_name_spec(0)));
                            assert(self.built@ =~= self.expected_built());
                        }
                        Ok(Progress::Next(Action::BuildReadOnlyImage {
                            source_dir: text("/eccfs_tmp/occlum_env"),
                            target_dir: self.mount_path.clone(),
                            image_name,
                            work_dir: text("/eccfs_tmp"),
                            key,
                        }))
                    },
                    Phase::ClearAfterEnv => {
                        if self.layers.len() == 0 {
                            self.phase = Phase::UnmountHost;
                            proof {
                                assert(self.built@ =~= self.expected_built());
                            }
                            Ok(Progress::Next(Action::UnmountFs {
                                target: self.mount_path.clone(),
                            }))
                        } else {
                            let key = match generate_random_key() {
                                Ok(k) => k,
                                Err(e) => {
                                    self.phase = Phase::SessionDone;
                                    return Err(e);
                                },
                            };
                            let image_name = ro_image_name(1);
                            self.phase = Phase::BuildLayer { idx: 0 };
                            proof {
                                self.built = Ghost(self.built@.push(ro_image_name_spec(1)));
                                assert(self.built@ =~= self.expected_built());
                            }
                            Ok(Progress::Next(Action::BuildReadOnlyImage {
                                source_dir: self.layers[0].clone(),
                                target_dir: self.mount_path.clone(),
                                image_name,
                                work_dir: text("/eccfs_tmp"),
                                key,
                            }))
                        }
                    },
                    Phase::ClearAfterLayer { idx } => {
                        let layer_count = self.layers.len();
                        proof {
                            assert(idx < self.layers@.len());
                        }
                        let next_idx = idx + 1;
                        if next_idx == layer_count {
                            self.phase = Phase::UnmountHost;
                            proof {
                                assert(self.built@ =~= self.expected_built());
                            }
                            Ok(Progress::Next(Action::UnmountFs {
                                target: self.mount_path.clone(),
                            }))
                        } else {
                            let key = match generate_random_key() {
                                Ok(k) => k,
                                Err(e) => {
                                    self.phase = Phase::SessionDone;
                                    return Err(e);
                                },
                            };
                            let image_name = ro_image_name(next_idx + 1);
                            self.phase = Phase::BuildLayer { idx: next_idx };
                            proof {
                                self.built = Ghost(self.built@.push(
                                    ro_image_name_spec((next_idx + 1) as nat),
                                ));
                                assert(self.built@ =~= self.expected_built());
                            }
                            Ok(Progress::Next(Action::BuildReadOnlyImage {
                                source_dir: self.layers[next_idx].clone(),
                                target_dir: self.mount_path.clone(),
                                image_name,
                                work_dir: text("/eccfs_tmp"),
                                key,
                            }))
                        }
                    },
                    Phase::UnmountHost => {
                        let backing = keys_backing_dir(self.cid.as_str());
                        let options = dir_mount_options(backing.as_str());
                        self.phase = Phase::MountKeys;
                        Ok(Progress::Next(Action::MountFs {
                            source: text("sefs"),
                            fstype: text("sefs"),
                            target: text("/keys"),
                            options,
                        }))
                    },
                    Phase::MountKeys => {
                        let contents = serialize_records(&self.records);
                        self.phase = Phase::WriteKeys;
                        Ok(Progress::Next(Action::WriteKeyFile {
                            path: text("/keys/key.txt"),
                            contents,
                        }))
                    },
                    Phase::WriteKeys => {
                        self.phase = Phase::UnmountKeys;
                        Ok(Progress::Next(Action::UnmountFs { target: text("/keys") }))
                    },
                    Phase::UnmountKeys => {
                        let handle = MountHandle {
                            kind: text("eccfs"),
                            mount_path: self.mount_path.clone(),
                            work_dir: self.data_dir.clone(),
                        };
                        self.phase = Phase::SessionDone;
                        Ok(Progress::Complete(handle))
                    },
                    _ => unreached(),
                }
            },
            Event::Built { is_encrypted, key } => {
                let ghost key_view = key@;
                match self.phase {
                    Phase::BuildRw => {
                        self.records.push(LayerKeyRecord { is_encrypted, key });
                        self.phase = Phase::StageEnv;
                        proof {
                            assert(self.records.deep_view() =~= old(
                                self,
                            ).records.deep_view().push((is_encrypted, key_view)));
                        }
                        Ok(Progress::Next(Action::StageEnvironment {
                            dir: text("/eccfs_tmp/occlum_env"),
                        }))
                    },
                    Phase::BuildEnvLayer => {
                        self.records.push(LayerKeyRecord { is_encrypted, key });
                        self.phase = Phase::ClearAfterEnv;
                        proof {
                            assert(self.records.deep_view() =~= old(
                                self,
                            ).records.deep_view().push((is_encrypted, key_view)));
                        }
                        Ok(Progress::Next(Action::ClearDir { path: text("/eccfs_tmp") }))
                    },
                    Phase::BuildLayer { idx } => {
                        self.records.push(LayerKeyRecord { is_encrypted, key });
                        self.phase = Phase::ClearAfterLayer { idx };
                        proof {
                            assert(self.records.deep_view() =~= old(
                                self,
                            ).records.deep_view().push((is_encrypted, key_view)));
                        }
                        Ok(Progress::Next(Action::ClearDir { path: text("/eccfs_tmp") }))
                    },
                    _ => unreached(),
                }
            },
        }
    }

    /// Maps a failure report to the error variant the failing step
    /// surfaces as.
    fn fail_error(&self, detail: String) -> (e: SnapshotError)
        requires
            !(self.phase is SessionDone),
        ensures
            match self.phase {
                Phase::EnsureTarget | Phase::ClearTarget => (e matches SnapshotError::Workspace {
                    path,
                    detail: d,
                } && path@ == self.mount_path@ && d == detail),
                Phase::PrepareWs | Phase::ClearAfterEnv | Phase::ClearAfterLayer { .. } => (e
                    matches SnapshotError::Workspace { path, detail: d } && path@ == ws_dir_spec()
                    && d == detail),
                Phase::MountHost | Phase::UnmountHost => (e matches SnapshotError::Mount {
                    fstype,
                    target,
                    detail: d,
                } && fstype@ == "hostfs"@ && target@ == self.mount_path@ && d == detail),
                Phase::BuildRw | Phase::BuildEnvLayer | Phase::BuildLayer { .. } => (e matches
                    SnapshotError::LayerBuild { detail: d } && d == detail),
                Phase::StageEnv => (e matches SnapshotError::EnvironmentStaging { detail: d } && d
                    == detail),
                Phase::MountKeys | Phase::WriteKeys | Phase::UnmountKeys => (e matches
                    SnapshotError::KeyCustody { detail: d } && d == detail),
                Phase::SessionDone => false,
            },
    {
        match self.phase {
            Phase::EnsureTarget | Phase::ClearTarget => SnapshotError::Workspace {
                path: self.mount_path.clone(),
                detail,
            },
            Phase::PrepareWs | Phase::ClearAfterEnv | Phase::ClearAfterLayer { .. } => (
            SnapshotError::Workspace { path: text("/eccfs_tmp"), detail }),
            Phase::MountHost | Phase::UnmountHost => SnapshotError::Mount {
                fstype: text("hostfs"),
                target: self.mount_path.clone(),
                detail,
            },
            Phase::BuildRw | Phase::BuildEnvLayer | Phase::BuildLayer { .. } => (
            SnapshotError::LayerBuild { detail }),
            Phase::StageEnv => SnapshotError::EnvironmentStaging { detail },
            Phase::MountKeys | Phase::WriteKeys | Phase::UnmountKeys => SnapshotError::KeyCustody {
                detail,
            },
            Phase::SessionDone => unreached(),
        }
    }
}

/// The snapshotter: one value per managed runtime, owning a persistent
/// work directory that every returned handle reports.
#[derive(Debug, Clone)]
pub struct EccOvlFs {
    pub data_dir: String,
}

impl EccOvlFs {
    /// Starts one mount protocol run for the given read-only layer
    /// source directories and target mount path.
    ///
    /// The container identity is resolved here, before any action is
    /// issued: a mount path whose parent has no resolvable final
    /// component fails with `IdentityResolution`, and no filesystem or
    /// mount-table side effect is requested.  On success the returned
    /// action is the protocol's first step.
    pub fn begin_mount(&self, layers: Vec<String>, mount_path: String) -> (r: Result<
        (MountSession, Action),
        SnapshotError,
    >)
        ensures
            r is Err <==> cid_of(mount_path@) is None,
            r matches Err(e) ==> e is IdentityResolution,
            r matches Ok(sa) ==> ({
                &&& sa.0.wf()
                &&& sa.0.phase is EnsureTarget
                &&& sa.0.layers == layers
                &&& sa.0.mount_path == mount_path
                &&& cid_of(mount_path@) == Some(sa.0.cid@)
                &&& sa.0.data_dir == self.data_dir
                &&& sa.0.records@.len() == 0
                &&& sa.1 matches Action::EnsureDir { path } && path@ == mount_path@
            }),
    {
        match resolve_cid(mount_path.as_str()) {
            Err(e) => Err(e),
            Ok(cid) => {
                let action = Action::EnsureDir { path: mount_path.clone() };
                let session = MountSession {
                    layers,
                    mount_path,
                    cid,
                    data_dir: self.data_dir.clone(),
                    records: Vec::new(),
                    phase: Phase::EnsureTarget,
                    built: Ghost(Seq::empty()),
                };
                proof {
                    assert(session.built@ =~= session.expected_built());
                }
                Ok((session, action))
            },
        }
    }

    /// Requests the release of the host-facing mount a handle
    /// describes: the single inverse of the passthrough mount.
    pub fn begin_unmount(&self, handle: &MountHandle) -> (a: Action)
        ensures
            a matches Action::UnmountFs { target } && target@ == handle.mount_path@,
    {
        Action::UnmountFs { target: handle.mount_path.clone() }
    }

    /// Judges the outcome of the unmount request: success stays
    /// success, and a failure (for example a path that is not currently
    /// mounted, or busy) surfaces as a `Mount` error naming the
    /// handle's filesystem kind and mount path.  No other state is
    /// touched.
    pub fn unmount_result(&self, handle: &MountHandle, event: Event) -> (r: Result<
        (),
        SnapshotError,
    >)
        requires
            !(event is Built),
        ensures
            r is Ok <==> event is Completed,
            event matches Event::Failed { detail } ==> (r matches Err(e) && e matches
                SnapshotError::Mount { fstype, target, detail: d } && fstype@ == handle.kind@
                && target@ == handle.mount_path@ && d == detail),
    {
        match event {
            Event::Completed => Ok(()),
            Event::Failed { detail } => Err(SnapshotError::Mount {
                fstype: handle.kind.clone(),
                target: handle.mount_path.clone(),
                detail,
            }),
            Event::Built { .. } => unreached(),
        }
    }
}

} // verus!

//! The runtime-environment staging plan.
//!
//! The first read-only layer is a staged minimal runtime environment:
//! the dynamic linker, the C-runtime shared objects, and a fixed set of
//! empty mountpoint placeholder directories.  The exact sequence of
//! directory creations, the defensive removal of a pre-existing linker
//! file (a copy onto an existing symlink fails as "file exists"), and
//! the copy batches are decided here; an unverified driver only carries
//! each step out, in order.

use vstd::prelude::*;

verus! {

/// One host-side step of staging the environment.
#[derive(Debug, Clone, PartialEq, Eq)]
pub enum EnvStep {
    /// Create the directory (and its parents) if absent.
    EnsureDir { path: String },
    /// Remove the file or symlink at the path if one exists.
    RemoveIfExists { path: String },
    /// Copy each named source into the destination directory,
    /// overwriting what is already there.
    CopyInto { sources: Vec<String>, dest: String },
}

/// The mathematical shape of one staging step.
#[verifier::ext_equal]
pub enum EnvStepV {
    EnsureDir(Seq<char>),
    RemoveIfExists(Seq<char>),
    CopyInto(Seq<Seq<char>>, Seq<char>),
}

impl View for EnvStep {
    type V = EnvStepV;

    open spec fn view(&self) -> EnvStepV {
        match self {
            EnvStep::EnsureDir { path } => EnvStepV::EnsureDir(path@),
            EnvStep::RemoveIfExists { path } => EnvStepV::RemoveIfExists(path@),
            EnvStep::CopyInto { sources, dest } => EnvStepV::CopyInto(sources.deep_view(), dest@),
        }
    }
}

impl DeepView for EnvStep {
    type V = EnvStepV;

    open spec fn deep_view(&self) -> EnvStepV {
        self.view()
    }
}

/// The staging plan for a target directory, in the exact order the
/// driver must perform it.
pub open spec fn env_plan_spec(dir: Seq<char>) -> Seq<EnvStepV> {
    seq![
        EnvStepV::EnsureDir(dir + "/lib64"@),
        EnvStepV::RemoveIfExists(dir + "/lib64/ld-linux-x86-64.so.2"@),
        EnvStepV::CopyInto(seq!["/lib64/ld-linux-x86-64.so.2"@], dir + "/lib64"@),
        EnvStepV::EnsureDir(dir + "/opt/occlum/glibc/lib"@),
        EnvStepV::CopyInto(
            seq![
                "/opt/occlum/glibc/lib/libc.so.6"@,
                "/opt/occlum/glibc/lib/libdl.so.2"@,
                "/opt/occlum/glibc/lib/libm.so.6"@,
                "/opt/occlum/glibc/lib/libpthread.so.0"@,
                "/opt/occlum/glibc/lib/libresolv.so.2"@,
                "/opt/occlum/glibc/lib/librt.so.1"@,
            ],
            dir + "/opt/occlum/glibc/lib"@,
        ),
        EnvStepV::EnsureDir(dir + "/dev"@),
        EnvStepV::EnsureDir(dir + "/etc"@),
        EnvStepV::EnsureDir(dir + "/host"@),
        EnvStepV::EnsureDir(dir + "/lib"@),
        EnvStepV::EnsureDir(dir + "/proc"@),
        EnvStepV::EnsureDir(dir + "/root"@),
        EnvStepV::EnsureDir(dir + "/sys"@),
        EnvStepV::EnsureDir(dir + "/tmp"@),
    ]
}

/// Concatenates a directory with a suffix.
fn concat2(a: &str, b: &str) -> (r: String)
    ensures
        r@ == a@ + b@,
{
    let mut s = String::new();
    s.append(a);
    s.append(b);
    s
}

/// One literal path as an owned string.
fn owned(a: &str) -> (r: String)
    ensures
        r@ == a@,
{
    let mut s = String::new();
    s.append(a);
    s
}

/// Builds the staging plan for `dir`, exactly [`env_plan_spec`].
pub fn env_plan(dir: &str) -> (r: Vec<EnvStep>)
    ensures
        r.deep_view() == env_plan_spec(dir@),
{
    let mut steps: Vec<EnvStep> = Vec::new();
    steps.push(EnvStep::EnsureDir { path: concat2(dir, "/lib64") });
    steps.push(EnvStep::RemoveIfExists { path: concat2(dir, "/lib64/ld-linux-x86-64.so.2") });
    let mut ld_sources: Vec<String> = Vec::new();
    ld_sources.push(owned("/lib64/ld-linux-x86-64.so.2"));
    steps.push(EnvStep::CopyInto { sources: ld_sources, dest: concat2(dir, "/lib64") });
    steps.push(EnvStep::EnsureDir { path: concat2(dir, "/opt/occlum/glibc/lib") });
    let mut lib_sources: Vec<String> = Vec::new();
    lib_sources.push(owned("/opt/occlum/glibc/lib/libc.so.6"));
    lib_sources.push(owned("/opt/occlum/glibc/lib/libdl.so.2"));
    lib_sources.push(owned("/opt/occlum/glibc/lib/libm.so.6"));
    lib_sources.push(owned("/opt/occlum/glibc/lib/libpthread.so.0"));
    lib_sources.push(owned("/opt/occlum/glibc/lib/libresolv.so.2"));
    lib_sources.push(owned("/opt/occlum/glibc/lib/librt.so.1"));
    steps.push(EnvStep::CopyInto {
        sources: lib_sources,
        dest: concat2(dir, "/opt/occlum/glibc/lib"),
    });
    steps.push(EnvStep::EnsureDir { path: concat2(dir, "/dev") });
    steps.push(EnvStep::EnsureDir { path: concat2(dir, "/etc") });
    steps.push(EnvStep::EnsureDir { path: concat2(dir, "/host") });
    steps.push(EnvStep::EnsureDir { path: concat2(dir, "/lib") });
    steps.push(EnvStep::EnsureDir { path: concat2(dir, "/proc") });
    steps.push(EnvStep::EnsureDir { path: concat2(dir, "/root") });
    steps.push(EnvStep::EnsureDir { path: concat2(dir, "/sys") });
    steps.push(EnvStep::EnsureDir { path: concat2(dir, "/tmp") });
    proof {
        assert(steps.deep_view() =~~= env_plan_spec(dir@));
    }
    steps
}

} // verus!

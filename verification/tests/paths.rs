use eccfs_snapshotter::pathutil::{
    dir_mount_options, host_image_dir, keys_backing_dir, path_join, resolve_cid,
};
use eccfs_snapshotter::SnapshotError;

#[test]
fn cid_of_ordinary_mount_path() {
    assert_eq!(resolve_cid("/run/cc/cid42/rootfs").unwrap(), "cid42");
    assert_eq!(resolve_cid("/images/abc/rootfs").unwrap(), "abc");
    assert_eq!(resolve_cid("a/b").unwrap(), "a");
}

#[test]
fn cid_ignores_trailing_slash_and_doubled_separators() {
    assert_eq!(resolve_cid("/images/abc/rootfs/").unwrap(), "abc");
    assert_eq!(resolve_cid("//images//abc//rootfs").unwrap(), "abc");
    assert_eq!(resolve_cid("/images/./abc/rootfs").unwrap(), "abc");
}

#[test]
fn cid_fails_without_resolvable_parent() {
    assert!(matches!(
        resolve_cid("/rootfs"),
        Err(SnapshotError::IdentityResolution { .. })
    ));
    assert!(matches!(
        resolve_cid("rootfs"),
        Err(SnapshotError::IdentityResolution { .. })
    ));
    assert!(matches!(
        resolve_cid("/"),
        Err(SnapshotError::IdentityResolution { .. })
    ));
    assert!(matches!(
        resolve_cid(""),
        Err(SnapshotError::IdentityResolution { .. })
    ));
    assert!(matches!(
        resolve_cid("/a/../rootfs"),
        Err(SnapshotError::IdentityResolution { .. })
    ));
    assert!(matches!(
        resolve_cid("./rootfs"),
        Err(SnapshotError::IdentityResolution { .. })
    ));
}

#[test]
fn storage_layout_convention() {
    assert_eq!(host_image_dir("cid42"), "/images/cid42/eccfs");
    assert_eq!(keys_backing_dir("cid42"), "/images/cid42/keys/sefs/lower");
    assert_eq!(dir_mount_options("/images/cid42/eccfs"), "dir=/images/cid42/eccfs");
    assert_eq!(path_join("/mnt/a", "run.rwimage"), "/mnt/a/run.rwimage");
}

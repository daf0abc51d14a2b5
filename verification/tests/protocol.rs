use eccfs_snapshotter::keyrecord::parse_key_line;
use eccfs_snapshotter::session::{Action, Event, MountHandle, Progress};
use eccfs_snapshotter::{EccOvlFs, SnapshotError};

fn stub_key(fill: u8) -> Vec<u8> {
    vec![fill; 16]
}

fn step(session: &mut eccfs_snapshotter::session::MountSession, event: Event) -> Action {
    match session.next(event).unwrap() {
        Progress::Next(a) => a,
        Progress::Complete(_) => panic!("protocol finished earlier than expected"),
    }
}

#[test]
fn full_mount_protocol_with_two_layers() {
    let fs = EccOvlFs { data_dir: String::from("/var/lib/snapshots") };
    let layers = vec![String::from("/layers/a"), String::from("/layers/b")];
    let mount_path = String::from("/run/cc/cid42/rootfs");

    let (mut s, first) = fs.begin_mount(layers, mount_path).unwrap();
    assert_eq!(first, Action::EnsureDir { path: String::from("/run/cc/cid42/rootfs") });

    let a = step(&mut s, Event::Completed);
    assert_eq!(a, Action::PrepareWorkspace { path: String::from("/eccfs_tmp") });

    let a = step(&mut s, Event::Completed);
    assert_eq!(
        a,
        Action::MountFs {
            source: String::from("hostfs"),
            fstype: String::from("hostfs"),
            target: String::from("/run/cc/cid42/rootfs"),
            options: String::from("dir=/images/cid42/eccfs"),
        }
    );

    // the target is cleared before any image is written
    let a = step(&mut s, Event::Completed);
    assert_eq!(a, Action::ClearDir { path: String::from("/run/cc/cid42/rootfs") });

    // writable layer first
    let a = step(&mut s, Event::Completed);
    match a {
        Action::BuildWritableImage { image_path, key } => {
            assert_eq!(image_path, "/run/cc/cid42/rootfs/run.rwimage");
            assert_eq!(key.len(), 16);
        },
        other => panic!("expected the writable build, got {:?}", other),
    }

    // the staged environment is read-only layer 0
    let a = step(&mut s, Event::Built { is_encrypted: true, key: stub_key(0x11) });
    assert_eq!(a, Action::StageEnvironment { dir: String::from("/eccfs_tmp/occlum_env") });

    let a = step(&mut s, Event::Completed);
    match a {
        Action::BuildReadOnlyImage { source_dir, target_dir, image_name, work_dir, key } => {
            assert_eq!(source_dir, "/eccfs_tmp/occlum_env");
            assert_eq!(target_dir, "/run/cc/cid42/rootfs");
            assert_eq!(image_name, "0000.roimage");
            assert_eq!(work_dir, "/eccfs_tmp");
            assert_eq!(key.len(), 16);
        },
        other => panic!("expected the environment layer build, got {:?}", other),
    }

    // workspace cleared between read-only builds
    let a = step(&mut s, Event::Built { is_encrypted: false, key: stub_key(0x22) });
    assert_eq!(a, Action::ClearDir { path: String::from("/eccfs_tmp") });

    // caller layers in input order, ascending filename indices
    let a = step(&mut s, Event::Completed);
    match a {
        Action::BuildReadOnlyImage { source_dir, image_name, .. } => {
            assert_eq!(source_dir, "/layers/a");
            assert_eq!(image_name, "0001.roimage");
        },
        other => panic!("expected the first caller layer build, got {:?}", other),
    }
    let a = step(&mut s, Event::Built { is_encrypted: true, key: stub_key(0x33) });
    assert_eq!(a, Action::ClearDir { path: String::from("/eccfs_tmp") });

    let a = step(&mut s, Event::Completed);
    match a {
        Action::BuildReadOnlyImage { source_dir, image_name, .. } => {
            assert_eq!(source_dir, "/layers/b");
            assert_eq!(image_name, "0002.roimage");
        },
        other => panic!("expected the second caller layer build, got {:?}", other),
    }
    let a = step(&mut s, Event::Built { is_encrypted: false, key: stub_key(0x44) });
    assert_eq!(a, Action::ClearDir { path: String::from("/eccfs_tmp") });

    // host passthrough released before key custody begins
    let a = step(&mut s, Event::Completed);
    assert_eq!(a, Action::UnmountFs { target: String::from("/run/cc/cid42/rootfs") });

    let a = step(&mut s, Event::Completed);
    assert_eq!(
        a,
        Action::MountFs {
            source: String::from("sefs"),
            fstype: String::from("sefs"),
            target: String::from("/keys"),
            options: String::from("dir=/images/cid42/keys/sefs/lower"),
        }
    );

    // the published line: N + 2 records in build order, distinct keys
    let a = step(&mut s, Event::Completed);
    let contents = match a {
        Action::WriteKeyFile { path, contents } => {
            assert_eq!(path, "/keys/key.txt");
            contents
        },
        other => panic!("expected the key record write, got {:?}", other),
    };
    let expected = format!(
        "enc-{}:int-{}:enc-{}:int-{}",
        hex::encode_upper(stub_key(0x11)),
        hex::encode_upper(stub_key(0x22)),
        hex::encode_upper(stub_key(0x33)),
        hex::encode_upper(stub_key(0x44)),
    );
    assert_eq!(contents, expected);
    let entries: Vec<&str> = contents.split(':').collect();
    assert_eq!(entries.len(), 4);
    let hex_fields: Vec<&str> = entries.iter().map(|e| &e[4..]).collect();
    for i in 0..hex_fields.len() {
        for j in 0..i {
            assert_ne!(hex_fields[i], hex_fields[j], "key material must not repeat");
        }
    }

    // parsing the published line recovers the builder's descriptors
    let parsed = parse_key_line(&contents).unwrap();
    assert_eq!(parsed.len(), 4);
    assert!(parsed[0].is_encrypted && parsed[0].key == stub_key(0x11));
    assert!(!parsed[1].is_encrypted && parsed[1].key == stub_key(0x22));
    assert!(parsed[2].is_encrypted && parsed[2].key == stub_key(0x33));
    assert!(!parsed[3].is_encrypted && parsed[3].key == stub_key(0x44));

    let a = step(&mut s, Event::Completed);
    assert_eq!(a, Action::UnmountFs { target: String::from("/keys") });

    match s.next(Event::Completed).unwrap() {
        Progress::Complete(handle) => {
            assert_eq!(handle.kind, "eccfs");
            assert_eq!(handle.mount_path, "/run/cc/cid42/rootfs");
            assert_eq!(handle.work_dir, "/var/lib/snapshots");
        },
        Progress::Next(a) => panic!("expected completion, got {:?}", a),
    }
}

#[test]
fn mount_with_no_layers_still_builds_two_images() {
    let fs = EccOvlFs { data_dir: String::from("/work") };
    let (mut s, _) = fs.begin_mount(Vec::new(), String::from("/run/cc/c1/rootfs")).unwrap();
    let _ = step(&mut s, Event::Completed); // prepare workspace
    let _ = step(&mut s, Event::Completed); // mount host
    let _ = step(&mut s, Event::Completed); // clear target
    let _ = step(&mut s, Event::Completed); // build rw
    let _ = step(&mut s, Event::Built { is_encrypted: true, key: stub_key(1) });
    let _ = step(&mut s, Event::Completed); // build env layer
    let a = step(&mut s, Event::Built { is_encrypted: false, key: stub_key(2) });
    assert_eq!(a, Action::ClearDir { path: String::from("/eccfs_tmp") });
    // no caller layers: straight to releasing the host mount
    let a = step(&mut s, Event::Completed);
    assert_eq!(a, Action::UnmountFs { target: String::from("/run/cc/c1/rootfs") });
    let _ = step(&mut s, Event::Completed); // mount keys
    let a = step(&mut s, Event::Completed);
    match a {
        Action::WriteKeyFile { contents, .. } => {
            assert_eq!(contents.split(':').count(), 2);
        },
        other => panic!("expected the key record write, got {:?}", other),
    }
}

#[test]
fn identity_failure_issues_no_action() {
    let fs = EccOvlFs { data_dir: String::from("/work") };
    let r = fs.begin_mount(vec![String::from("/layers/a")], String::from("/rootfs"));
    assert!(matches!(r, Err(SnapshotError::IdentityResolution { .. })));
}

#[test]
fn host_mount_failure_surfaces_as_mount_error() {
    let fs = EccOvlFs { data_dir: String::from("/work") };
    let (mut s, _) = fs.begin_mount(Vec::new(), String::from("/run/cc/c2/rootfs")).unwrap();
    let _ = step(&mut s, Event::Completed); // prepare workspace
    let _ = step(&mut s, Event::Completed); // mount host requested
    let r = s.next(Event::Failed { detail: String::from("EPERM") });
    match r {
        Err(SnapshotError::Mount { fstype, target, detail }) => {
            assert_eq!(fstype, "hostfs");
            assert_eq!(target, "/run/cc/c2/rootfs");
            assert_eq!(detail, "EPERM");
        },
        other => panic!("expected a mount error, got {:?}", other),
    }
}

#[test]
fn builder_failure_surfaces_as_layer_build_error() {
    let fs = EccOvlFs { data_dir: String::from("/work") };
    let (mut s, _) = fs.begin_mount(Vec::new(), String::from("/run/cc/c3/rootfs")).unwrap();
    let _ = step(&mut s, Event::Completed);
    let _ = step(&mut s, Event::Completed);
    let _ = step(&mut s, Event::Completed);
    let _ = step(&mut s, Event::Completed); // build rw requested
    let r = s.next(Event::Failed { detail: String::from("corrupt source") });
    assert!(matches!(r, Err(SnapshotError::LayerBuild { .. })));
}

#[test]
fn unmount_of_unmounted_path_fails_with_mount_error() {
    let fs = EccOvlFs { data_dir: String::from("/work") };
    let handle = MountHandle {
        kind: String::from("eccfs"),
        mount_path: String::from("/run/cc/cid42/rootfs"),
        work_dir: String::from("/work"),
    };
    let a = fs.begin_unmount(&handle);
    assert_eq!(a, Action::UnmountFs { target: String::from("/run/cc/cid42/rootfs") });
    let r = fs.unmount_result(&handle, Event::Failed { detail: String::from("EINVAL") });
    match r {
        Err(SnapshotError::Mount { fstype, target, detail }) => {
            assert_eq!(fstype, "eccfs");
            assert_eq!(target, "/run/cc/cid42/rootfs");
            assert_eq!(detail, "EINVAL");
        },
        other => panic!("expected a mount error, got {:?}", other),
    }
    assert!(fs.unmount_result(&handle, Event::Completed).is_ok());
}

#[test]
fn random_keys_have_128_bits_and_vary() {
    let k1 = eccfs_snapshotter::session::generate_random_key().unwrap();
    let k2 = eccfs_snapshotter::session::generate_random_key().unwrap();
    assert_eq!(k1.len(), 16);
    assert_eq!(k2.len(), 16);
    assert_ne!(k1, k2, "independently drawn 128-bit keys must differ");
}

#[test]
fn workspace_failure_surfaces_as_workspace_error() {
    let fs = EccOvlFs { data_dir: String::from("/work") };
    let (mut s, _) = fs.begin_mount(Vec::new(), String::from("/run/cc/c4/rootfs")).unwrap();
    let _ = step(&mut s, Event::Completed); // workspace preparation requested
    let r = s.next(Event::Failed { detail: String::from("ENOSPC") });
    match r {
        Err(SnapshotError::Workspace { path, detail }) => {
            assert_eq!(path, "/eccfs_tmp");
            assert_eq!(detail, "ENOSPC");
        },
        other => panic!("expected a workspace error, got {:?}", other),
    }
}

#[test]
fn staging_failure_surfaces_as_environment_error() {
    let fs = EccOvlFs { data_dir: String::from("/work") };
    let (mut s, _) = fs.begin_mount(Vec::new(), String::from("/run/cc/c5/rootfs")).unwrap();
    let _ = step(&mut s, Event::Completed);
    let _ = step(&mut s, Event::Completed);
    let _ = step(&mut s, Event::Completed);
    let _ = step(&mut s, Event::Completed); // writable build requested
    let _ = step(&mut s, Event::Built { is_encrypted: true, key: stub_key(9) });
    // environment staging requested; a missing runtime file fails it
    let r = s.next(Event::Failed { detail: String::from("missing libc.so.6") });
    assert!(matches!(r, Err(SnapshotError::EnvironmentStaging { .. })));
}

#[test]
fn key_mount_failure_surfaces_as_key_custody_error() {
    let fs = EccOvlFs { data_dir: String::from("/work") };
    let (mut s, _) = fs.begin_mount(Vec::new(), String::from("/run/cc/c6/rootfs")).unwrap();
    let _ = step(&mut s, Event::Completed);
    let _ = step(&mut s, Event::Completed);
    let _ = step(&mut s, Event::Completed);
    let _ = step(&mut s, Event::Completed);
    let _ = step(&mut s, Event::Built { is_encrypted: true, key: stub_key(5) });
    let _ = step(&mut s, Event::Completed);
    let _ = step(&mut s, Event::Built { is_encrypted: false, key: stub_key(6) });
    let _ = step(&mut s, Event::Completed); // host unmount requested
    let _ = step(&mut s, Event::Completed); // key-custody mount requested
    let r = s.next(Event::Failed { detail: String::from("EBUSY") });
    assert!(matches!(r, Err(SnapshotError::KeyCustody { .. })));
}

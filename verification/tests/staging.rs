use eccfs_snapshotter::envplan::{env_plan, EnvStep};

#[test]
fn staging_plan_order_and_paths() {
    let steps = env_plan("/eccfs_tmp/occlum_env");
    assert_eq!(steps.len(), 13);
    assert_eq!(steps[0], EnvStep::EnsureDir { path: String::from("/eccfs_tmp/occlum_env/lib64") });
    assert_eq!(
        steps[1],
        EnvStep::RemoveIfExists {
            path: String::from("/eccfs_tmp/occlum_env/lib64/ld-linux-x86-64.so.2"),
        }
    );
    assert_eq!(
        steps[2],
        EnvStep::CopyInto {
            sources: vec![String::from("/lib64/ld-linux-x86-64.so.2")],
            dest: String::from("/eccfs_tmp/occlum_env/lib64"),
        }
    );
    assert_eq!(
        steps[3],
        EnvStep::EnsureDir { path: String::from("/eccfs_tmp/occlum_env/opt/occlum/glibc/lib") }
    );
    match &steps[4] {
        EnvStep::CopyInto { sources, dest } => {
            assert_eq!(dest, "/eccfs_tmp/occlum_env/opt/occlum/glibc/lib");
            assert_eq!(
                sources,
                &vec![
                    String::from("/opt/occlum/glibc/lib/libc.so.6"),
                    String::from("/opt/occlum/glibc/lib/libdl.so.2"),
                    String::from("/opt/occlum/glibc/lib/libm.so.6"),
                    String::from("/opt/occlum/glibc/lib/libpthread.so.0"),
                    String::from("/opt/occlum/glibc/lib/libresolv.so.2"),
                    String::from("/opt/occlum/glibc/lib/librt.so.1"),
                ]
            );
        },
        other => panic!("expected the C-runtime copy, got {:?}", other),
    }
    let placeholders = ["dev", "etc", "host", "lib", "proc", "root", "sys", "tmp"];
    for (i, name) in placeholders.iter().enumerate() {
        assert_eq!(
            steps[5 + i],
            EnvStep::EnsureDir { path: format!("/eccfs_tmp/occlum_env/{}", name) }
        );
    }
}

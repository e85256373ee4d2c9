use autolinux::distro::Distro;
use autolinux::distro::FamilyKind;
use autolinux::normalize::FsEntry;
use autolinux::pipeline::Action;
use autolinux::pipeline::Event;
use autolinux::pipeline::FetchError;
use autolinux::pipeline::Pipeline;
use autolinux::progress::ProgressState;
use std::io::Write;

const ALPINE_URL: &str =
    "https://dl-cdn.alpinelinux.org/alpine/v3.22/releases/aarch64/alpine-minirootfs-3.22.2-aarch64.tar.gz";

fn alpine() -> Distro {
    Distro {
        name: "Alpine 3.22".to_string(),
        codename: "release".to_string(),
        version: "3.22.2".to_string(),
        url: ALPINE_URL.to_string(),
        family: FamilyKind::Alpine,
    }
}

fn file(name: &str, size: u64) -> FsEntry {
    FsEntry { name: name.to_string(), is_dir: false, size }
}

fn dir(name: &str) -> FsEntry {
    FsEntry { name: name.to_string(), is_dir: true, size: 0 }
}

fn gzip(payload: &[u8]) -> Vec<u8> {
    let mut enc = flate2::write::GzEncoder::new(Vec::new(), flate2::Compression::default());
    enc.write_all(payload).unwrap();
    enc.finish().unwrap()
}

fn new_pipeline() -> Pipeline {
    Pipeline::new(
        alpine(),
        "han".to_string(),
        "secret".to_string(),
        "/data/local/tmp/autolinux".to_string(),
    )
}

#[test]
fn http_404_produces_terminal_error_after_replacement() {
    let mut p = new_pipeline();
    let install = "/data/local/alpine-release-3.22.2".to_string();

    let s = p.step(Event::Begin);
    assert!(matches!(s.progress, Some(ProgressState::Starting)));
    match s.action {
        Action::CheckExists(path) => assert_eq!(path, install),
        _ => panic!("expected an existence check first"),
    }

    // a prior directory for the same identity is removed before the
    // download is ever attempted
    let s = p.step(Event::Exists(true));
    match s.action {
        Action::RemoveDirAll(path) => assert_eq!(path, install),
        _ => panic!("expected destructive replacement"),
    }
    let s = p.step(Event::Op(Ok(())));
    assert!(matches!(s.action, Action::CreateDirAll(_)));

    let s = p.step(Event::Op(Ok(())));
    match s.action {
        Action::Download { url, dest } => {
            assert_eq!(url, ALPINE_URL);
            assert_eq!(dest, "/data/local/alpine-release-3.22.2/rootfs.tar.gz");
        },
        _ => panic!("expected the download next"),
    }
    assert!(matches!(s.progress, Some(ProgressState::Downloading(0))));

    let s = p.step(Event::Fetched(Err(FetchError::Status(404, "Not Found".to_string()))));
    assert!(matches!(s.action, Action::Idle));
    match s.progress {
        Some(ProgressState::Error(msg)) => {
            assert!(msg.contains("404"));
            assert!(msg.contains(ALPINE_URL));
            assert_eq!(msg, format!("HTTP Error 404: Not Found - URL: {}", ALPINE_URL));
        },
        _ => panic!("expected a terminal error report"),
    }

    // the error is terminal: further events change nothing
    let s = p.step(Event::Op(Ok(())));
    assert!(matches!(s.action, Action::Idle));
    assert!(s.progress.is_none());
}

#[test]
fn transport_failure_reports_cause_and_url() {
    let mut p = new_pipeline();
    p.step(Event::Begin);
    p.step(Event::Exists(false));
    p.step(Event::Op(Ok(())));
    let s = p.step(Event::Fetched(Err(FetchError::Transport("connection refused".to_string()))));
    match s.progress {
        Some(ProgressState::Error(msg)) => {
            assert_eq!(
                msg,
                format!("Network Error: connection refused - URL: {}", ALPINE_URL)
            );
        },
        _ => panic!("expected a terminal error report"),
    }
}

#[test]
fn plain_tarball_run_reaches_finished() {
    let mut p = new_pipeline();
    let install = "/data/local/alpine-release-3.22.2".to_string();
    p.step(Event::Begin);
    p.step(Event::Exists(false));
    p.step(Event::Op(Ok(())));

    let s = p.step(Event::Fetched(Ok(())));
    assert!(matches!(s.progress, Some(ProgressState::Extracting)));
    match s.action {
        Action::ReadFile(path) => assert_eq!(path, format!("{}/rootfs.tar.gz", install)),
        _ => panic!("expected the archive to be read back"),
    }

    let payload = b"pretend tar stream".to_vec();
    let s = p.step(Event::Bytes(Ok(gzip(&payload))));
    match s.action {
        Action::UnpackTar { data, dest } => {
            assert_eq!(data, payload);
            assert_eq!(dest, install);
        },
        _ => panic!("expected the unpack of the decoded bytes"),
    }

    let s = p.step(Event::Op(Ok(())));
    assert!(matches!(s.action, Action::RemoveFile(_)));
    let s = p.step(Event::Op(Ok(())));
    assert!(matches!(s.action, Action::ListDir(_)));

    // a plain rootfs: several entries, no OCI markers
    let s = p.step(Event::Listing(Ok(vec![dir("etc"), dir("usr"), file("init", 10)])));
    match s.action {
        Action::ListDir(path) => assert_eq!(path, install),
        _ => panic!("expected the stripping walk to start"),
    }

    let s = p.step(Event::Listing(Ok(vec![dir("etc"), file("init", 10)])));
    match s.action {
        Action::StripXattrs(paths) => {
            assert_eq!(
                paths,
                vec![format!("{}/etc", install), format!("{}/init", install)]
            );
        },
        _ => panic!("expected attribute stripping"),
    }

    let s = p.step(Event::Op(Ok(())));
    match s.action {
        Action::ListDir(path) => assert_eq!(path, format!("{}/etc", install)),
        _ => panic!("expected descent into etc"),
    }
    let s = p.step(Event::Listing(Ok(vec![])));
    match s.action {
        Action::StripXattrs(paths) => assert!(paths.is_empty()),
        _ => panic!("expected an empty strip batch"),
    }

    let s = p.step(Event::Op(Ok(())));
    assert!(matches!(s.progress, Some(ProgressState::Configuring)));
    match s.action {
        Action::EnsureDirs(dirs) => {
            assert_eq!(
                dirs,
                vec![
                    format!("{}/sdcard", install),
                    format!("{}/dev/shm", install),
                    format!("{}/etc", install),
                ]
            );
        },
        _ => panic!("expected the mount-point directories"),
    }

    let s = p.step(Event::Op(Ok(())));
    match s.action {
        Action::ReplaceFile { path, content } => {
            assert_eq!(path, format!("{}/etc/resolv.conf", install));
            assert_eq!(content, "nameserver 8.8.8.8\nnameserver 8.8.4.4\n");
        },
        _ => panic!("expected resolv.conf"),
    }

    let s = p.step(Event::Op(Ok(())));
    match s.action {
        Action::WriteFile { path, content } => {
            assert_eq!(path, format!("{}/etc/hosts", install));
            assert_eq!(content, "127.0.0.1 localhost\n::1 localhost ip6-localhost ip6-loopback\n");
        },
        _ => panic!("expected the hosts file"),
    }

    let s = p.step(Event::Op(Ok(())));
    match s.action {
        Action::WriteExecutable { path, content } => {
            assert_eq!(path, "/data/local/start-alpine-release-3.22.2.sh");
            assert!(content.starts_with("#!/bin/sh\nDISTROPATH="));
            assert!(content.contains(&format!("DISTROPATH=\"{}\"", install)));
            // the musl-based family boots its setup with /bin/sh
            assert!(content.contains("busybox chroot \"$DISTROPATH\" /bin/sh /root/finalize_setup.sh"));
        },
        _ => panic!("expected the start script"),
    }

    let s = p.step(Event::Op(Ok(())));
    match s.action {
        Action::WriteFile { path, content } => {
            assert_eq!(path, format!("{}/root/finalize_setup.sh", install));
            assert!(content.contains("apk add bash shadow sudo nano net-tools git"));
            assert!(content.contains("useradd -m -g users -G wheel,audio,video,storage,aid_inet -s /bin/bash han"));
            assert!(content.contains("echo \"han:secret\" | chpasswd"));
        },
        _ => panic!("expected the internal setup script"),
    }

    let s = p.step(Event::Op(Ok(())));
    assert!(matches!(s.action, Action::Idle));
    match s.progress {
        Some(ProgressState::Finished(path)) => {
            assert_eq!(path, "/data/local/start-alpine-release-3.22.2.sh");
        },
        _ => panic!("expected the run to finish"),
    }
}

#[test]
fn oci_layout_selects_largest_blob_and_discards_the_rest() {
    let mut p = new_pipeline();
    let install = "/data/local/alpine-release-3.22.2".to_string();
    p.step(Event::Begin);
    p.step(Event::Exists(false));
    p.step(Event::Op(Ok(())));
    p.step(Event::Fetched(Ok(())));
    p.step(Event::Bytes(Ok(gzip(b"outer tar"))));
    p.step(Event::Op(Ok(()))); // unpacked
    p.step(Event::Op(Ok(()))); // archive removed

    let s = p.step(Event::Listing(Ok(vec![
        dir("blobs"),
        file("oci-layout", 30),
        file("index.json", 400),
    ])));
    match s.action {
        Action::ListDir(path) => assert_eq!(path, format!("{}/blobs/sha256", install)),
        _ => panic!("expected the blobs listing"),
    }

    let s = p.step(Event::Listing(blobs_listing()));
    match s.action {
        Action::Rename { from, to } => {
            assert_eq!(from, format!("{}/blobs/sha256/big", install));
            assert_eq!(to, format!("{}/rootfs_layer.tar.gz", install));
        },
        _ => panic!("expected the layer blob to be moved out"),
    }

    // the old root entries are deleted, last listed first
    let s = p.step(Event::Op(Ok(())));
    match s.action {
        Action::RemoveEntry { path, is_dir } => {
            assert_eq!(path, format!("{}/index.json", install));
            assert!(!is_dir);
        },
        _ => panic!("expected cleanup"),
    }
    let s = p.step(Event::Op(Ok(())));
    match s.action {
        Action::RemoveEntry { path, is_dir } => {
            assert_eq!(path, format!("{}/oci-layout", install));
            assert!(!is_dir);
        },
        _ => panic!("expected cleanup"),
    }
    let s = p.step(Event::Op(Ok(())));
    match s.action {
        Action::RemoveEntry { path, is_dir } => {
            assert_eq!(path, format!("{}/blobs", install));
            assert!(is_dir);
        },
        _ => panic!("expected cleanup"),
    }

    let s = p.step(Event::Op(Ok(())));
    match s.action {
        Action::ReadFile(path) => assert_eq!(path, format!("{}/rootfs_layer.tar.gz", install)),
        _ => panic!("expected the layer to be read back"),
    }

    let inner = b"inner tar stream".to_vec();
    let s = p.step(Event::Bytes(Ok(gzip(&inner))));
    match s.action {
        Action::UnpackTar { data, dest } => {
            assert_eq!(data, inner);
            assert_eq!(dest, install);
        },
        _ => panic!("expected the inner unpack"),
    }

    let s = p.step(Event::Op(Ok(())));
    match s.action {
        Action::RemoveFile(path) => assert_eq!(path, format!("{}/rootfs_layer.tar.gz", install)),
        _ => panic!("expected the temporary layer to go"),
    }
}

fn blobs_listing() -> Result<Vec<FsEntry>, String> {
    Ok(vec![file("small", 512), file("big", 2_097_152)])
}

#[test]
fn oci_cleanup_spares_the_moved_out_layer_name() {
    let mut p = new_pipeline();
    let install = "/data/local/alpine-release-3.22.2".to_string();
    p.step(Event::Begin);
    p.step(Event::Exists(false));
    p.step(Event::Op(Ok(())));
    p.step(Event::Fetched(Ok(())));
    p.step(Event::Bytes(Ok(gzip(b"outer"))));
    p.step(Event::Op(Ok(())));
    p.step(Event::Op(Ok(())));
    // the unpacked image root already holds an entry with the
    // temporary layer name; it must not be swept away
    p.step(Event::Listing(Ok(vec![dir("blobs"), file("rootfs_layer.tar.gz", 5)])));
    p.step(Event::Listing(blobs_listing()));
    let s = p.step(Event::Op(Ok(())));
    match s.action {
        Action::RemoveEntry { path, is_dir } => {
            assert_eq!(path, format!("{}/blobs", install));
            assert!(is_dir);
        },
        _ => panic!("expected only the blobs directory to be removed"),
    }
    let s = p.step(Event::Op(Ok(())));
    match s.action {
        Action::ReadFile(path) => assert_eq!(path, format!("{}/rootfs_layer.tar.gz", install)),
        _ => panic!("expected the layer to be read next"),
    }
}

#[test]
fn empty_blobs_directory_fails_with_no_layer_found() {
    let mut p = new_pipeline();
    p.step(Event::Begin);
    p.step(Event::Exists(false));
    p.step(Event::Op(Ok(())));
    p.step(Event::Fetched(Ok(())));
    p.step(Event::Bytes(Ok(gzip(b"outer"))));
    p.step(Event::Op(Ok(())));
    p.step(Event::Op(Ok(())));
    p.step(Event::Listing(Ok(vec![file("oci-layout", 30)])));
    let s = p.step(Event::Listing(Ok(vec![])));
    match s.progress {
        Some(ProgressState::Error(msg)) => assert_eq!(msg, "No layers found in OCI image."),
        _ => panic!("expected the image-format error"),
    }
}

#[test]
fn missing_blobs_directory_fails() {
    let mut p = new_pipeline();
    p.step(Event::Begin);
    p.step(Event::Exists(false));
    p.step(Event::Op(Ok(())));
    p.step(Event::Fetched(Ok(())));
    p.step(Event::Bytes(Ok(gzip(b"outer"))));
    p.step(Event::Op(Ok(())));
    p.step(Event::Op(Ok(())));
    p.step(Event::Listing(Ok(vec![file("oci-layout", 30)])));
    let s = p.step(Event::Listing(Err("no such directory".to_string())));
    match s.progress {
        Some(ProgressState::Error(msg)) => assert_eq!(msg, "OCI 'blobs' directory not found."),
        _ => panic!("expected the image-format error"),
    }
}

#[test]
fn single_directory_root_is_flattened_once() {
    let mut p = new_pipeline();
    let install = "/data/local/alpine-release-3.22.2".to_string();
    p.step(Event::Begin);
    p.step(Event::Exists(false));
    p.step(Event::Op(Ok(())));
    p.step(Event::Fetched(Ok(())));
    p.step(Event::Bytes(Ok(gzip(b"outer"))));
    p.step(Event::Op(Ok(())));
    p.step(Event::Op(Ok(())));

    let s = p.step(Event::Listing(Ok(vec![dir("alpine-minirootfs")])));
    match s.action {
        Action::ListDir(path) => assert_eq!(path, format!("{}/alpine-minirootfs", install)),
        _ => panic!("expected the wrapper to be listed"),
    }

    let s = p.step(Event::Listing(Ok(vec![dir("etc"), file("init", 9)])));
    match s.action {
        Action::Rename { from, to } => {
            assert_eq!(from, format!("{}/alpine-minirootfs/init", install));
            assert_eq!(to, format!("{}/init", install));
        },
        _ => panic!("expected children to move up"),
    }
    let s = p.step(Event::Op(Ok(())));
    match s.action {
        Action::Rename { from, to } => {
            assert_eq!(from, format!("{}/alpine-minirootfs/etc", install));
            assert_eq!(to, format!("{}/etc", install));
        },
        _ => panic!("expected children to move up"),
    }
    let s = p.step(Event::Op(Ok(())));
    match s.action {
        Action::RemoveDirEmpty(path) => {
            assert_eq!(path, format!("{}/alpine-minirootfs", install));
        },
        _ => panic!("expected the emptied wrapper to be removed"),
    }
    let s = p.step(Event::Op(Ok(())));
    match s.action {
        Action::ListDir(path) => assert_eq!(path, install),
        _ => panic!("expected the stripping walk next"),
    }
}

#[test]
fn void_family_injects_resolved_repo_into_hosts() {
    let mut p = Pipeline::new(
        Distro {
            name: "Void Linux".to_string(),
            codename: "rolling".to_string(),
            version: "20250202".to_string(),
            url: "https://repo-default.voidlinux.org/live/20250202/void-aarch64-ROOTFS-20250202.tar.xz".to_string(),
            family: FamilyKind::Void,
        },
        "han".to_string(),
        "pw".to_string(),
        "/data/local/tmp/autolinux".to_string(),
    );
    p.step(Event::Begin);
    p.step(Event::Exists(false));
    p.step(Event::Op(Ok(())));
    p.step(Event::Fetched(Ok(())));
    let payload = b"void tar".to_vec();
    p.step(Event::Bytes(Ok(gzip(&payload))));
    p.step(Event::Op(Ok(())));
    p.step(Event::Op(Ok(())));
    p.step(Event::Listing(Ok(vec![dir("etc"), dir("usr")])));
    p.step(Event::Listing(Ok(vec![])));
    p.step(Event::Op(Ok(())));
    p.step(Event::Op(Ok(())));

    let s = p.step(Event::Op(Ok(())));
    match s.action {
        Action::RunProbe(host) => assert_eq!(host, "repo-default.voidlinux.org"),
        _ => panic!("expected the repository probe"),
    }

    let s = p.step(Event::ProbeOutput(Ok(
        "PING repo-default.voidlinux.org (144.202.79.56) 56(84) bytes of data.".to_string(),
    )));
    match s.action {
        Action::WriteFile { path, content } => {
            assert!(path.ends_with("/etc/hosts"));
            assert_eq!(
                content,
                "127.0.0.1 localhost\n::1 localhost ip6-localhost ip6-loopback\n144.202.79.56 repo-default.voidlinux.org\n"
            );
        },
        _ => panic!("expected the hosts file with the injected line"),
    }
}

#[test]
fn unreadable_probe_output_keeps_base_hosts() {
    let mut p = Pipeline::new(
        Distro {
            name: "Void Linux".to_string(),
            codename: "rolling".to_string(),
            version: "20240314".to_string(),
            url: "https://repo-default.voidlinux.org/live/20240314/void-aarch64-ROOTFS-20240314.tar.xz".to_string(),
            family: FamilyKind::Void,
        },
        "u".to_string(),
        "p".to_string(),
        "/data/local/tmp/autolinux".to_string(),
    );
    p.step(Event::Begin);
    p.step(Event::Exists(false));
    p.step(Event::Op(Ok(())));
    p.step(Event::Fetched(Ok(())));
    p.step(Event::Bytes(Ok(gzip(b"t"))));
    p.step(Event::Op(Ok(())));
    p.step(Event::Op(Ok(())));
    p.step(Event::Listing(Ok(vec![dir("etc"), dir("usr")])));
    p.step(Event::Listing(Ok(vec![])));
    p.step(Event::Op(Ok(())));
    p.step(Event::Op(Ok(())));
    p.step(Event::Op(Ok(())));
    let s = p.step(Event::ProbeOutput(Ok("ping: unknown host".to_string())));
    match s.action {
        Action::WriteFile { content, .. } => {
            assert_eq!(content, "127.0.0.1 localhost\n::1 localhost ip6-localhost ip6-loopback\n");
        },
        _ => panic!("expected the hosts file"),
    }
}

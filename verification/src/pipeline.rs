//! The provisioning orchestrator, as a state machine.
//!
//! One install is a run of `Pipeline::step`: each call consumes the
//! outcome of the previous filesystem, network, or probe operation and
//! decides the next action and the progress to report. The caller
//! performs the actions (they are the blocking I/O of the pipeline)
//! and hands their outcomes back as events; every decision in between
//! is made — and verified — here. The pipeline is fail-fast: any
//! stage's error ends the run with a terminal `Error` report, and the
//! partially written tree is left for inspection.

use vstd::prelude::*;
use vstd::string::*;
use crate::archive::decompress_archive;
use crate::archive::spec_decode;
use crate::config::hosts_content;
use crate::config::resolv_conf_content;
use crate::config::spec_hosts;
use crate::config::spec_resolv_conf;
use crate::distro::Distro;
use crate::distro::FamilyKind;
use crate::error::http_error_message;
use crate::error::InstallError;
use crate::error::spec_http_error;
use crate::error::spec_transport_error;
use crate::error::transport_error_message;
use crate::normalize::FsEntry;
use crate::normalize::FsEntryView;
use crate::normalize::detect_oci_layout;
use crate::normalize::flatten_wrapper;
use crate::normalize::join_path;
use crate::normalize::select_largest_blob;
use crate::normalize::spec_flatten_wrapper;
use crate::normalize::spec_is_oci;
use crate::normalize::spec_join;
use crate::normalize::spec_max_file_size;
use crate::normalize::spec_strip_paths;
use crate::normalize::spec_descend_dirs;
use crate::normalize::strip_plan;
use crate::progress::ProgressState;
use crate::resolver::parse_probe_address;
use crate::resolver::spec_probe_address;
use crate::resolver::void_repo_host;
use crate::script::setup_script_content;
use crate::script::spec_setup_script;
use crate::script::spec_start_script;
use crate::script::start_script_content;
use crate::target::InstallTarget;
use crate::text::first_word_spec;

verus! {

/// A download failure, as the transport reports it.
pub enum FetchError {
    /// A non-2xx HTTP response: status code and reason phrase.
    Status(u16, String),
    /// A transport-level failure, described by its cause.
    Transport(String),
}

/// The outcome of the action the caller last performed.
pub enum Event {
    /// Starts the run; the first call carries this.
    Begin,
    /// Whether the checked path exists.
    Exists(bool),
    /// A filesystem operation finished, or failed with a message.
    Op(Result<(), String>),
    /// The download finished, or failed.
    Fetched(Result<(), FetchError>),
    /// A file was read, or reading failed with a message.
    Bytes(Result<Vec<u8>, String>),
    /// A directory was listed, or listing failed with a message.
    Listing(Result<Vec<FsEntry>, String>),
    /// The reachability probe ran and printed, or could not be run.
    ProbeOutput(Result<String, String>),
}

/// The next blocking operation the caller must perform.
pub enum Action {
    /// Nothing; the run is over or the event did not apply.
    Idle,
    /// Report whether the path exists.
    CheckExists(String),
    /// Remove the directory tree.
    RemoveDirAll(String),
    /// Create the directory and its parents.
    CreateDirAll(String),
    /// Stream the URL's body to the destination file, reporting
    /// integer download percentages while the length is known.
    Download { url: String, dest: String },
    /// Read the whole file.
    ReadFile(String),
    /// Unpack the given bytes as a tar stream into the directory,
    /// preserving permission bits and modification times.
    UnpackTar { data: Vec<u8>, dest: String },
    /// Remove the file.
    RemoveFile(String),
    /// List the directory: name, kind, and byte size of each entry.
    ListDir(String),
    /// Rename an entry.
    Rename { from: String, to: String },
    /// Remove one entry, a file or a directory tree.
    RemoveEntry { path: String, is_dir: bool },
    /// Remove the (now empty) directory itself.
    RemoveDirEmpty(String),
    /// Remove the three security attribute namespaces from each path,
    /// ignoring per-entry failures.
    StripXattrs(Vec<String>),
    /// Create each directory and its parents.
    EnsureDirs(Vec<String>),
    /// Replace the file: remove any existing file or symlink, then
    /// write the content.
    ReplaceFile { path: String, content: String },
    /// Write the content to the file.
    WriteFile { path: String, content: String },
    /// Write the content to the file and set the executable bits.
    WriteExecutable { path: String, content: String },
    /// Run one bounded reachability probe against the hostname and
    /// report its printed output.
    RunProbe(String),
}

/// Where the run stands: which outcome it is waiting for.
#[derive(PartialEq, Eq, Structural, Clone, Copy, Debug)]
pub enum Phase {
    Ready,
    AwaitExists,
    AwaitRemoved,
    AwaitCreated,
    AwaitDownload,
    AwaitArchiveBytes,
    AwaitUnpack,
    AwaitTarRemoved,
    AwaitRootListing,
    AwaitBlobsListing,
    AwaitBlobRenamed,
    OciCleanup,
    AwaitLayerBytes,
    AwaitUnpackInner,
    AwaitLayerRemoved,
    AwaitFlattenListing,
    AwaitWrapperListing,
    FlattenMoves,
    AwaitWrapperRemoved,
    AwaitXattrListing,
    AwaitXattrStripped,
    AwaitMountDirs,
    AwaitResolvWritten,
    AwaitProbe,
    AwaitHostsWritten,
    AwaitStartScript,
    AwaitSetupScript,
    Done,
    Failed,
}

/// The stage a phase belongs to, in reporting order: preparation,
/// download, extraction and normalization, configuration, success;
/// failure sorts last, like the terminal `Error` report.
pub open spec fn spec_stage(p: Phase) -> int {
    match p {
        Phase::Ready => 0,
        Phase::AwaitExists => 0,
        Phase::AwaitRemoved => 0,
        Phase::AwaitCreated => 0,
        Phase::AwaitDownload => 1,
        Phase::AwaitArchiveBytes => 2,
        Phase::AwaitUnpack => 2,
        Phase::AwaitTarRemoved => 2,
        Phase::AwaitRootListing => 2,
        Phase::AwaitBlobsListing => 2,
        Phase::AwaitBlobRenamed => 2,
        Phase::OciCleanup => 2,
        Phase::AwaitLayerBytes => 2,
        Phase::AwaitUnpackInner => 2,
        Phase::AwaitLayerRemoved => 2,
        Phase::AwaitFlattenListing => 2,
        Phase::AwaitWrapperListing => 2,
        Phase::FlattenMoves => 2,
        Phase::AwaitWrapperRemoved => 2,
        Phase::AwaitXattrListing => 2,
        Phase::AwaitXattrStripped => 2,
        Phase::AwaitMountDirs => 3,
        Phase::AwaitResolvWritten => 3,
        Phase::AwaitProbe => 3,
        Phase::AwaitHostsWritten => 3,
        Phase::AwaitStartScript => 3,
        Phase::AwaitSetupScript => 3,
        Phase::Done => 4,
        Phase::Failed => 5,
    }
}

/// What `step` returns: the next action, and the progress to report.
pub struct Step {
    pub action: Action,
    pub progress: Option<ProgressState>,
}

/// One install run. The identifying fields are fixed at construction;
/// the queues hold work the normalization stages still owe.
pub struct Pipeline {
    pub distro: Distro,
    pub username: String,
    pub password: String,
    pub exe_path: String,
    pub target: InstallTarget,
    pub phase: Phase,
    /// Tree-root entries to delete after the OCI layer was moved out.
    pub cleanup_queue: Vec<FsEntry>,
    /// Wrapper-directory children still to move up one level.
    pub move_queue: Vec<FsEntry>,
    /// Name of the wrapper directory being collapsed.
    pub wrapper: String,
    /// Directories still to visit in the attribute-stripping walk.
    pub walk_pending: Vec<String>,
    /// Directory whose listing the walk is waiting for.
    pub walk_current: String,
}

/// The identity and configuration of a run never change.
pub open spec fn same_core(pre: Pipeline, post: Pipeline) -> bool {
    &&& post.distro == pre.distro
    &&& post.username == pre.username
    &&& post.password == pre.password
    &&& post.exe_path == pre.exe_path
    &&& post.target == pre.target
}

/// The run failed, reporting exactly `msg`, with nothing left to do.
pub open spec fn spec_fail(post: Pipeline, r: Step, msg: Seq<char>) -> bool {
    &&& post.phase is Failed
    &&& r.action is Idle
    &&& r.progress matches Some(p) && p matches ProgressState::Error(m) && m@ == msg
}

/// The run failed reporting the decoder's own diagnostic.
pub open spec fn spec_fail_decode(post: Pipeline, r: Step) -> bool {
    &&& post.phase is Failed
    &&& r.action is Idle
    &&& r.progress matches Some(p) && p is Error
}

/// Nothing happened: the event did not apply to the phase.
pub open spec fn spec_ignore(pre: Pipeline, post: Pipeline, r: Step) -> bool {
    &&& post == pre
    &&& r.action is Idle
    &&& r.progress is None
}

/// The attribute-stripping walk starts over the whole tree.
pub open spec fn spec_walk_start(pre: Pipeline, post: Pipeline, r: Step) -> bool {
    &&& post.phase is AwaitXattrListing
    &&& post.walk_pending.deep_view() == Seq::<Seq<char>>::empty()
    &&& post.walk_current@ == pre.target.install_path@
    &&& r.action matches Action::ListDir(p) && p@ == pre.target.install_path@
    &&& r.progress is None
}

/// Configuration starts: the mount-point directories are created and
/// the `Configuring` phase is reported.
pub open spec fn spec_config_start(pre: Pipeline, post: Pipeline, r: Step) -> bool {
    &&& post.phase is AwaitMountDirs
    &&& r.action matches Action::EnsureDirs(ds) && ds.deep_view() =~= seq![
        spec_join(pre.target.install_path@, "sdcard"@),
        spec_join(pre.target.install_path@, "dev/shm"@),
        spec_join(pre.target.install_path@, "etc"@),
    ]
    &&& r.progress matches Some(p) && p is Configuring
}

/// The walk visits the next pending directory, or configuration
/// starts when none is left.
pub open spec fn spec_walk_next(pre: Pipeline, post: Pipeline, r: Step) -> bool {
    if pre.walk_pending.len() > 0 {
        &&& post.phase is AwaitXattrListing
        &&& post.walk_pending@ == pre.walk_pending@.drop_last()
        &&& post.walk_current@ == pre.walk_pending@.last()@
        &&& r.action matches Action::ListDir(p) && p@ == pre.walk_pending@.last()@
        &&& r.progress is None
    } else {
        spec_config_start(pre, post, r)
    }
}

/// An OCI cleanup step: the next kept root entry is deleted, or, when
/// none is left, the moved-out layer blob is read back for unpacking.
pub open spec fn spec_oci_next(pre: Pipeline, post: Pipeline, r: Step) -> bool {
    if pre.cleanup_queue.len() > 0 {
        &&& post.phase is OciCleanup
        &&& post.cleanup_queue@ == pre.cleanup_queue@.drop_last()
        &&& r.action matches Action::RemoveEntry { path, is_dir } && path@ == spec_join(
            pre.target.install_path@,
            pre.cleanup_queue@.last()@.name,
        ) && is_dir == pre.cleanup_queue@.last()@.is_dir
        &&& r.progress is None
    } else {
        &&& post.phase is AwaitLayerBytes
        &&& r.action matches Action::ReadFile(p) && p@ == spec_join(
            pre.target.install_path@,
            "rootfs_layer.tar.gz"@,
        )
        &&& r.progress is None
    }
}

/// A flatten step: the next wrapper child is moved up, or, when none
/// is left, the emptied wrapper directory is removed.
pub open spec fn spec_flatten_next(pre: Pipeline, post: Pipeline, r: Step) -> bool {
    if pre.move_queue.len() > 0 {
        &&& post.phase is FlattenMoves
        &&& post.move_queue@ == pre.move_queue@.drop_last()
        &&& post.wrapper == pre.wrapper
        &&& r.action matches Action::Rename { from, to } && from@ == spec_join(
            spec_join(pre.target.install_path@, pre.wrapper@),
            pre.move_queue@.last()@.name,
        ) && to@ == spec_join(pre.target.install_path@, pre.move_queue@.last()@.name)
        &&& r.progress is None
    } else {
        &&& post.phase is AwaitWrapperRemoved
        &&& r.action matches Action::RemoveDirEmpty(p) && p@ == spec_join(
            pre.target.install_path@,
            pre.wrapper@,
        )
        &&& r.progress is None
    }
}

/// The root listing decides the normalization route: an OCI layout is
/// resolved first; otherwise a single-directory root is flattened;
/// otherwise the attribute-stripping walk begins.
pub open spec fn spec_root_decision(
    pre: Pipeline,
    entries: Seq<FsEntryView>,
    post: Pipeline,
    r: Step,
) -> bool {
    if spec_is_oci(entries) {
        &&& post.phase is AwaitBlobsListing
        &&& post.cleanup_queue.deep_view() == entries
        &&& r.action matches Action::ListDir(p) && p@ == spec_join(
            pre.target.install_path@,
            "blobs/sha256"@,
        )
        &&& r.progress is None
    } else {
        spec_flatten_decision(pre, entries, post, r)
    }
}

/// A listing decides flattening: when it holds exactly one directory,
/// that wrapper's own listing is fetched; else the walk begins.
pub open spec fn spec_flatten_decision(
    pre: Pipeline,
    entries: Seq<FsEntryView>,
    post: Pipeline,
    r: Step,
) -> bool {
    match spec_flatten_wrapper(entries) {
        Some(w) => {
            &&& post.phase is AwaitWrapperListing
            &&& post.wrapper@ == w
            &&& r.action matches Action::ListDir(p) && p@ == spec_join(
                pre.target.install_path@,
                w,
            )
            &&& r.progress is None
        },
        None => spec_walk_start(pre, post, r),
    }
}

/// A valid OCI layer choice: the first plain file of maximal, non-zero
/// size in the blobs listing.
pub open spec fn spec_blob_choice(dv: Seq<FsEntryView>, i: int) -> bool {
    &&& 0 <= i < dv.len()
    &&& !dv[i].is_dir
    &&& dv[i].size as int == spec_max_file_size(dv)
    &&& dv[i].size > 0
    &&& forall|k: int| 0 <= k < i && !dv[k].is_dir ==> dv[k].size < dv[i].size
}

/// Root entries deleted during OCI cleanup: everything except an
/// entry bearing the temporary layer name.
pub open spec fn spec_cleanup_targets(es: Seq<FsEntryView>) -> Seq<FsEntryView>
    decreases es.len(),
{
    if es.len() == 0 {
        Seq::empty()
    } else {
        let rest = spec_cleanup_targets(es.drop_first());
        if es[0].name == "rootfs_layer.tar.gz"@ {
            rest
        } else {
            seq![es[0]] + rest
        }
    }
}

/// The whole transition relation of the orchestrator: given the state
/// before the call and the event, what the state after the call and
/// the returned step must be.
pub open spec fn spec_step(pre: Pipeline, event: Event, post: Pipeline, r: Step) -> bool {
    let install = pre.target.install_path@;
    match pre.phase {
        Phase::Ready => match event {
            Event::Begin => {
                &&& post.phase is AwaitExists
                &&& r.action matches Action::CheckExists(p) && p@ == install
                &&& r.progress matches Some(p) && p is Starting
            },
            _ => spec_ignore(pre, post, r),
        },
        Phase::AwaitExists => match event {
            Event::Exists(b) => if b {
                &&& post.phase is AwaitRemoved
                &&& r.action matches Action::RemoveDirAll(p) && p@ == install
                &&& r.progress is None
            } else {
                &&& post.phase is AwaitCreated
                &&& r.action matches Action::CreateDirAll(p) && p@ == install
                &&& r.progress is None
            },
            _ => spec_ignore(pre, post, r),
        },
        Phase::AwaitRemoved => match event {
            Event::Op(res) => match res {
                Ok(_) => {
                    &&& post.phase is AwaitCreated
                    &&& r.action matches Action::CreateDirAll(p) && p@ == install
                    &&& r.progress is None
                },
                Err(m) => spec_fail(post, r, m@),
            },
            _ => spec_ignore(pre, post, r),
        },
        Phase::AwaitCreated => match event {
            Event::Op(res) => match res {
                Ok(_) => {
                    &&& post.phase is AwaitDownload
                    &&& r.action matches Action::Download { url, dest } && url@ == pre.distro.url@
                        && dest@ == pre.target.archive_path@
                    &&& r.progress matches Some(p) && p matches ProgressState::Downloading(pct)
                        && pct == 0
                },
                Err(m) => spec_fail(post, r, m@),
            },
            _ => spec_ignore(pre, post, r),
        },
        Phase::AwaitDownload => match event {
            Event::Fetched(res) => match res {
                Ok(_) => {
                    &&& post.phase is AwaitArchiveBytes
                    &&& r.action matches Action::ReadFile(p) && p@ == pre.target.archive_path@
                    &&& r.progress matches Some(p) && p is Extracting
                },
                Err(e) => match e {
                    FetchError::Status(code, text) => spec_fail(
                        post,
                        r,
                        spec_http_error(code as int, text@, pre.distro.url@),
                    ),
                    FetchError::Transport(t) => spec_fail(
                        post,
                        r,
                        spec_transport_error(t@, pre.distro.url@),
                    ),
                },
            },
            _ => spec_ignore(pre, post, r),
        },
        Phase::AwaitArchiveBytes => match event {
            Event::Bytes(res) => match res {
                Ok(data) => match spec_decode(data@) {
                    Some(out) => {
                        &&& post.phase is AwaitUnpack
                        &&& r.action matches Action::UnpackTar { data: d, dest } && d@ == out
                            && dest@ == install
                        &&& r.progress is None
                    },
                    None => spec_fail_decode(post, r),
                },
                Err(m) => spec_fail(post, r, m@),
            },
            _ => spec_ignore(pre, post, r),
        },
        Phase::AwaitUnpack => match event {
            Event::Op(res) => match res {
                Ok(_) => {
                    &&& post.phase is AwaitTarRemoved
                    &&& r.action matches Action::RemoveFile(p) && p@ == pre.target.archive_path@
                    &&& r.progress is None
                },
                Err(m) => spec_fail(post, r, m@),
            },
            _ => spec_ignore(pre, post, r),
        },
        Phase::AwaitTarRemoved => match event {
            Event::Op(res) => match res {
                Ok(_) => {
                    &&& post.phase is AwaitRootListing
                    &&& r.action matches Action::ListDir(p) && p@ == install
                    &&& r.progress is None
                },
                Err(m) => spec_fail(post, r, m@),
            },
            _ => spec_ignore(pre, post, r),
        },
        Phase::AwaitRootListing => match event {
            Event::Listing(res) => match res {
                Ok(entries) => spec_root_decision(pre, entries.deep_view(), post, r),
                Err(_) => spec_walk_start(pre, post, r),
            },
            _ => spec_ignore(pre, post, r),
        },
        Phase::AwaitBlobsListing => match event {
            Event::Listing(res) => match res {
                Ok(blobs) => if spec_max_file_size(blobs.deep_view()) > 0 {
                    &&& post.phase is AwaitBlobRenamed
                    &&& post.cleanup_queue.deep_view() == spec_cleanup_targets(
                        pre.cleanup_queue.deep_view(),
                    )
                    &&& r.action matches Action::Rename { from, to } && (exists|i: int|
                        spec_blob_choice(blobs.deep_view(), i) && from@ == spec_join(
                            spec_join(install, "blobs/sha256"@),
                            blobs.deep_view()[i].name,
                        )) && to@ == spec_join(install, "rootfs_layer.tar.gz"@)
                    &&& r.progress is None
                } else {
                    spec_fail(post, r, "No layers found in OCI image."@)
                },
                Err(_) => spec_fail(post, r, "OCI 'blobs' directory not found."@),
            },
            _ => spec_ignore(pre, post, r),
        },
        Phase::AwaitBlobRenamed => match event {
            Event::Op(res) => match res {
                Ok(_) => spec_oci_next(pre, post, r),
                Err(m) => spec_fail(post, r, m@),
            },
            _ => spec_ignore(pre, post, r),
        },
        Phase::OciCleanup => match event {
            Event::Op(res) => match res {
                Ok(_) => spec_oci_next(pre, post, r),
                Err(m) => spec_fail(post, r, m@),
            },
            _ => spec_ignore(pre, post, r),
        },
        Phase::AwaitLayerBytes => match event {
            Event::Bytes(res) => match res {
                Ok(data) => match spec_decode(data@) {
                    Some(out) => {
                        &&& post.phase is AwaitUnpackInner
                        &&& r.action matches Action::UnpackTar { data: d, dest } && d@ == out
                            && dest@ == install
                        &&& r.progress is None
                    },
                    None => spec_fail_decode(post, r),
                },
                Err(m) => spec_fail(post, r, m@),
            },
            _ => spec_ignore(pre, post, r),
        },
        Phase::AwaitUnpackInner => match event {
            Event::Op(res) => match res {
                Ok(_) => {
                    &&& post.phase is AwaitLayerRemoved
                    &&& r.action matches Action::RemoveFile(p) && p@ == spec_join(
                        install,
                        "rootfs_layer.tar.gz"@,
                    )
                    &&& r.progress is None
                },
                Err(m) => spec_fail(post, r, m@),
            },
            _ => spec_ignore(pre, post, r),
        },
        Phase::AwaitLayerRemoved => match event {
            Event::Op(res) => match res {
                Ok(_) => {
                    &&& post.phase is AwaitFlattenListing
                    &&& r.action matches Action::ListDir(p) && p@ == install
                    &&& r.progress is None
                },
                Err(m) => spec_fail(post, r, m@),
            },
            _ => spec_ignore(pre, post, r),
        },
        Phase::AwaitFlattenListing => match event {
            Event::Listing(res) => match res {
                Ok(entries) => spec_flatten_decision(pre, entries.deep_view(), post, r),
                Err(_) => spec_walk_start(pre, post, r),
            },
            _ => spec_ignore(pre, post, r),
        },
        Phase::AwaitWrapperListing => match event {
            Event::Listing(res) => match res {
                Ok(children) => if children.len() > 0 {
                    &&& post.phase is FlattenMoves
                    &&& post.move_queue.deep_view() == children.deep_view().drop_last()
                    &&& post.wrapper == pre.wrapper
                    &&& r.action matches Action::Rename { from, to } && from@ == spec_join(
                        spec_join(install, pre.wrapper@),
                        children.deep_view().last().name,
                    ) && to@ == spec_join(install, children.deep_view().last().name)
                    &&& r.progress is None
                } else {
                    &&& post.phase is AwaitWrapperRemoved
                    &&& r.action matches Action::RemoveDirEmpty(p) && p@ == spec_join(
                        install,
                        pre.wrapper@,
                    )
                    &&& r.progress is None
                },
                Err(_) => spec_walk_start(pre, post, r),
            },
            _ => spec_ignore(pre, post, r),
        },
        Phase::FlattenMoves => match event {
            Event::Op(res) => match res {
                Ok(_) => spec_flatten_next(pre, post, r),
                Err(_) => spec_walk_start(pre, post, r),
            },
            _ => spec_ignore(pre, post, r),
        },
        Phase::AwaitWrapperRemoved => match event {
            Event::Op(_) => spec_walk_start(pre, post, r),
            _ => spec_ignore(pre, post, r),
        },
        Phase::AwaitXattrListing => match event {
            Event::Listing(res) => match res {
                Ok(entries) => {
                    &&& post.phase is AwaitXattrStripped
                    &&& post.walk_pending.deep_view() == pre.walk_pending.deep_view()
                        + spec_descend_dirs(pre.walk_current@, entries.deep_view())
                    &&& r.action matches Action::StripXattrs(paths) && paths.deep_view()
                        == spec_strip_paths(pre.walk_current@, entries.deep_view())
                    &&& r.progress is None
                },
                Err(_) => spec_walk_next(pre, post, r),
            },
            _ => spec_ignore(pre, post, r),
        },
        Phase::AwaitXattrStripped => match event {
            Event::Op(_) => spec_walk_next(pre, post, r),
            _ => spec_ignore(pre, post, r),
        },
        Phase::AwaitMountDirs => match event {
            Event::Op(res) => match res {
                Ok(_) => {
                    &&& post.phase is AwaitResolvWritten
                    &&& r.action matches Action::ReplaceFile { path, content } && path@
                        == spec_join(install, "etc/resolv.conf"@) && content@ == spec_resolv_conf()
                    &&& r.progress is None
                },
                Err(m) => spec_fail(post, r, m@),
            },
            _ => spec_ignore(pre, post, r),
        },
        Phase::AwaitResolvWritten => match event {
            Event::Op(res) => match res {
                Ok(_) => if pre.distro.family == FamilyKind::Void {
                    &&& post.phase is AwaitProbe
                    &&& r.action matches Action::RunProbe(h) && h@
                        == "repo-default.voidlinux.org"@
                    &&& r.progress is None
                } else {
                    &&& post.phase is AwaitHostsWritten
                    &&& r.action matches Action::WriteFile { path, content } && path@ == spec_join(
                        install,
                        "etc/hosts"@,
                    ) && content@ == spec_hosts(None)
                    &&& r.progress is None
                },
                Err(m) => spec_fail(post, r, m@),
            },
            _ => spec_ignore(pre, post, r),
        },
        Phase::AwaitProbe => match event {
            Event::ProbeOutput(res) => {
                &&& post.phase is AwaitHostsWritten
                &&& r.action matches Action::WriteFile { path, content } && path@ == spec_join(
                    install,
                    "etc/hosts"@,
                ) && content@ == match res {
                    Ok(out) => match spec_probe_address(out@) {
                        Some(ip) => spec_hosts(Some((ip, "repo-default.voidlinux.org"@))),
                        None => spec_hosts(None),
                    },
                    Err(_) => spec_hosts(None),
                }
                &&& r.progress is None
            },
            _ => spec_ignore(pre, post, r),
        },
        Phase::AwaitHostsWritten => match event {
            Event::Op(res) => match res {
                Ok(_) => {
                    &&& post.phase is AwaitStartScript
                    &&& r.action matches Action::WriteExecutable { path, content } && path@
                        == pre.target.start_script_path@ && content@ == spec_start_script(
                        install,
                        pre.exe_path@,
                        pre.distro.family,
                    )
                    &&& r.progress is None
                },
                Err(m) => spec_fail(post, r, m@),
            },
            _ => spec_ignore(pre, post, r),
        },
        Phase::AwaitStartScript => match event {
            Event::Op(res) => match res {
                Ok(_) => {
                    &&& post.phase is AwaitSetupScript
                    &&& r.action matches Action::WriteFile { path, content } && path@ == spec_join(
                        install,
                        "root/finalize_setup.sh"@,
                    ) && content@ == spec_setup_script(
                        pre.distro.family,
                        pre.username@,
                        pre.password@,
                    )
                    &&& r.progress is None
                },
                Err(m) => spec_fail(post, r, m@),
            },
            _ => spec_ignore(pre, post, r),
        },
        Phase::AwaitSetupScript => match event {
            Event::Op(res) => match res {
                Ok(_) => {
                    &&& post.phase is Done
                    &&& r.action is Idle
                    &&& r.progress matches Some(p) && p matches ProgressState::Finished(sp) && sp@
                        == pre.target.start_script_path@
                },
                Err(m) => spec_fail(post, r, m@),
            },
            _ => spec_ignore(pre, post, r),
        },
        Phase::Done => spec_ignore(pre, post, r),
        Phase::Failed => spec_ignore(pre, post, r),
    }
}

impl Pipeline {
    /// Sets up a run for one distribution record, the credentials of
    /// the login to create, and the path of this installer binary.
    /// The record's display name must hold a family token.
    pub fn new(distro: Distro, username: String, password: String, exe_path: String) -> (r:
        Pipeline)
        requires
            first_word_spec(distro.name@).len() > 0,
        ensures
            r.distro == distro,
            r.username == username,
            r.password == password,
            r.exe_path == exe_path,
            r.target.derived_from(distro@),
            r.phase is Ready,
    {
        let target = InstallTarget::from_distro(&distro);
        Pipeline {
            distro,
            username,
            password,
            exe_path,
            target,
            phase: Phase::Ready,
            cleanup_queue: Vec::new(),
            move_queue: Vec::new(),
            wrapper: String::new(),
            walk_pending: Vec::new(),
            walk_current: String::new(),
        }
    }

    fn fail(&mut self, msg: String) -> (r: Step)
        ensures
            spec_fail(*final(self), r, msg@),
            same_core(*old(self), *final(self)),
            final(self).phase is Failed,
    {
        self.phase = Phase::Failed;
        Step { action: Action::Idle, progress: Some(ProgressState::Error(msg)) }
    }

    fn fail_with(&mut self, e: InstallError) -> (r: Step)
        ensures
            spec_fail(*final(self), r, e.spec_message()),
            same_core(*old(self), *final(self)),
            final(self).phase is Failed,
    {
        let msg = e.message();
        self.fail(msg)
    }

    fn walk_start(&mut self) -> (r: Step)
        ensures
            spec_walk_start(*old(self), *final(self), r),
            same_core(*old(self), *final(self)),
    {
        self.walk_pending = Vec::new();
        self.walk_current = self.target.install_path.clone();
        self.phase = Phase::AwaitXattrListing;
        proof {
            assert(self.walk_pending.deep_view() =~= Seq::<Seq<char>>::empty());
        }
        Step { action: Action::ListDir(self.target.install_path.clone()), progress: None }
    }

    fn config_start(&mut self) -> (r: Step)
        ensures
            spec_config_start(*old(self), *final(self), r),
            same_core(*old(self), *final(self)),
    {
        self.phase = Phase::AwaitMountDirs;
        let mut dirs: Vec<String> = Vec::new();
        dirs.push(join_path(self.target.install_path.as_str(), "sdcard"));
        dirs.push(join_path(self.target.install_path.as_str(), "dev/shm"));
        dirs.push(join_path(self.target.install_path.as_str(), "etc"));
        proof {
            assert(dirs.deep_view() =~= seq![
                spec_join(self.target.install_path@, "sdcard"@),
                spec_join(self.target.install_path@, "dev/shm"@),
                spec_join(self.target.install_path@, "etc"@),
            ]);
        }
        Step {
            action: Action::EnsureDirs(dirs),
            progress: Some(ProgressState::Configuring),
        }
    }

    fn walk_next(&mut self) -> (r: Step)
        ensures
            spec_walk_next(*old(self), *final(self), r),
            same_core(*old(self), *final(self)),
            final(self).phase is AwaitXattrListing || final(self).phase is AwaitMountDirs,
    {
        if self.walk_pending.len() > 0 {
            let d = self.walk_pending.pop().unwrap();
            self.walk_current = d.clone();
            self.phase = Phase::AwaitXattrListing;
            Step { action: Action::ListDir(d), progress: None }
        } else {
            self.config_start()
        }
    }

    fn oci_next(&mut self) -> (r: Step)
        ensures
            spec_oci_next(*old(self), *final(self), r),
            same_core(*old(self), *final(self)),
            final(self).phase is OciCleanup || final(self).phase is AwaitLayerBytes,
    {
        if self.cleanup_queue.len() > 0 {
            let e = self.cleanup_queue.pop().unwrap();
            self.phase = Phase::OciCleanup;
            let path = join_path(self.target.install_path.as_str(), e.name.as_str());
            Step { action: Action::RemoveEntry { path, is_dir: e.is_dir }, progress: None }
        } else {
            self.phase = Phase::AwaitLayerBytes;
            let p = join_path(self.target.install_path.as_str(), "rootfs_layer.tar.gz");
            Step { action: Action::ReadFile(p), progress: None }
        }
    }

    fn flatten_next(&mut self) -> (r: Step)
        ensures
            spec_flatten_next(*old(self), *final(self), r),
            same_core(*old(self), *final(self)),
            final(self).phase is FlattenMoves || final(self).phase is AwaitWrapperRemoved,
    {
        if self.move_queue.len() > 0 {
            let e = self.move_queue.pop().unwrap();
            self.phase = Phase::FlattenMoves;
            let wrapper_path = join_path(
                self.target.install_path.as_str(),
                self.wrapper.as_str(),
            );
            let from = join_path(wrapper_path.as_str(), e.name.as_str());
            let to = join_path(self.target.install_path.as_str(), e.name.as_str());
            Step { action: Action::Rename { from, to }, progress: None }
        } else {
            self.phase = Phase::AwaitWrapperRemoved;
            let p = join_path(self.target.install_path.as_str(), self.wrapper.as_str());
            Step { action: Action::RemoveDirEmpty(p), progress: None }
        }
    }

    fn root_decision(&mut self, entries: Vec<FsEntry>) -> (r: Step)
        ensures
            spec_root_decision(*old(self), entries.deep_view(), *final(self), r),
            same_core(*old(self), *final(self)),
            spec_stage(final(self).phase) == 2,
    {
        if detect_oci_layout(&entries) {
            self.cleanup_queue = entries;
            self.phase = Phase::AwaitBlobsListing;
            let p = join_path(self.target.install_path.as_str(), "blobs/sha256");
            Step { action: Action::ListDir(p), progress: None }
        } else {
            self.flatten_decision(entries)
        }
    }

    fn flatten_decision(&mut self, entries: Vec<FsEntry>) -> (r: Step)
        ensures
            spec_flatten_decision(*old(self), entries.deep_view(), *final(self), r),
            same_core(*old(self), *final(self)),
            spec_stage(final(self).phase) == 2,
    {
        match flatten_wrapper(&entries) {
            Some(w) => {
                self.wrapper = w;
                self.phase = Phase::AwaitWrapperListing;
                let p = join_path(
                    self.target.install_path.as_str(),
                    self.wrapper.as_str(),
                );
                Step { action: Action::ListDir(p), progress: None }
            },
            None => self.walk_start(),
        }
    }

    /// Consumes the outcome of the previous action and decides the
    /// next one. The transition taken is exactly `spec_step`; the
    /// stage never moves backwards; a terminal phase never moves at
    /// all; and every progress report matches the stage just entered,
    /// so the reported phases are ordered and `Error` is terminal.
    pub fn step(&mut self, event: Event) -> (r: Step)
        ensures
            spec_step(*old(self), event, *final(self), r),
            same_core(*old(self), *final(self)),
            spec_stage(final(self).phase) >= spec_stage(old(self).phase),
            old(self).phase is Done || old(self).phase is Failed ==> *final(self) == *old(self),
            r.progress matches Some(p) ==> p.rank() == spec_stage(final(self).phase),
    {
        match self.phase {
            Phase::Ready => match event {
                Event::Begin => {
                    self.phase = Phase::AwaitExists;
                    Step {
                        action: Action::CheckExists(self.target.install_path.clone()),
                        progress: Some(ProgressState::Starting),
                    }
                },
                _ => Step { action: Action::Idle, progress: None },
            },
            Phase::AwaitExists => match event {
                Event::Exists(b) => if b {
                    self.phase = Phase::AwaitRemoved;
                    Step {
                        action: Action::RemoveDirAll(self.target.install_path.clone()),
                        progress: None,
                    }
                } else {
                    self.phase = Phase::AwaitCreated;
                    Step {
                        action: Action::CreateDirAll(self.target.install_path.clone()),
                        progress: None,
                    }
                },
                _ => Step { action: Action::Idle, progress: None },
            },
            Phase::AwaitRemoved => match event {
                Event::Op(res) => match res {
                    Ok(_) => {
                        self.phase = Phase::AwaitCreated;
                        Step {
                            action: Action::CreateDirAll(self.target.install_path.clone()),
                            progress: None,
                        }
                    },
                    Err(m) => self.fail_with(InstallError::Filesystem(m)),
                },
                _ => Step { action: Action::Idle, progress: None },
            },
            Phase::AwaitCreated => match event {
                Event::Op(res) => match res {
                    Ok(_) => {
                        self.phase = Phase::AwaitDownload;
                        Step {
                            action: Action::Download {
                                url: self.distro.url.clone(),
                                dest: self.target.archive_path.clone(),
                            },
                            progress: Some(ProgressState::Downloading(0)),
                        }
                    },
                    Err(m) => self.fail_with(InstallError::Filesystem(m)),
                },
                _ => Step { action: Action::Idle, progress: None },
            },
            Phase::AwaitDownload => match event {
                Event::Fetched(res) => match res {
                    Ok(_) => {
                        self.phase = Phase::AwaitArchiveBytes;
                        Step {
                            action: Action::ReadFile(self.target.archive_path.clone()),
                            progress: Some(ProgressState::Extracting),
                        }
                    },
                    Err(e) => match e {
                        FetchError::Status(code, text) => {
                            let msg = http_error_message(
                                code,
                                text.as_str(),
                                self.distro.url.as_str(),
                            );
                            self.fail_with(InstallError::Network(msg))
                        },
                        FetchError::Transport(t) => {
                            let msg = transport_error_message(
                                t.as_str(),
                                self.distro.url.as_str(),
                            );
                            self.fail_with(InstallError::Network(msg))
                        },
                    },
                },
                _ => Step { action: Action::Idle, progress: None },
            },
            Phase::AwaitArchiveBytes => match event {
                Event::Bytes(res) => match res {
                    Ok(data) => match decompress_archive(&data) {
                        Ok(out) => {
                            self.phase = Phase::AwaitUnpack;
                            Step {
                                action: Action::UnpackTar {
                                    data: out,
                                    dest: self.target.install_path.clone(),
                                },
                                progress: None,
                            }
                        },
                        Err(e) => self.fail_with(e),
                    },
                    Err(m) => self.fail_with(InstallError::Filesystem(m)),
                },
                _ => Step { action: Action::Idle, progress: None },
            },
            Phase::AwaitUnpack => match event {
                Event::Op(res) => match res {
                    Ok(_) => {
                        self.phase = Phase::AwaitTarRemoved;
                        Step {
                            action: Action::RemoveFile(self.target.archive_path.clone()),
                            progress: None,
                        }
                    },
                    Err(m) => self.fail_with(InstallError::Extraction(m)),
                },
                _ => Step { action: Action::Idle, progress: None },
            },
            Phase::AwaitTarRemoved => match event {
                Event::Op(res) => match res {
                    Ok(_) => {
                        self.phase = Phase::AwaitRootListing;
                        Step {
                            action: Action::ListDir(self.target.install_path.clone()),
                            progress: None,
                        }
                    },
                    Err(m) => self.fail_with(InstallError::Filesystem(m)),
                },
                _ => Step { action: Action::Idle, progress: None },
            },
            Phase::AwaitRootListing => match event {
                Event::Listing(res) => match res {
                    Ok(entries) => self.root_decision(entries),
                    Err(_) => self.walk_start(),
                },
                _ => Step { action: Action::Idle, progress: None },
            },
            Phase::AwaitBlobsListing => match event {
                Event::Listing(res) => match res {
                    Ok(blobs) => match select_largest_blob(&blobs) {
                        Ok(i) => {
                            let blobs_dir = join_path(
                                self.target.install_path.as_str(),
                                "blobs/sha256",
                            );
                            let from = join_path(blobs_dir.as_str(), blobs[i].name.as_str());
                            let to = join_path(
                                self.target.install_path.as_str(),
                                "rootfs_layer.tar.gz",
                            );
                            let kept = Self::cleanup_targets(&self.cleanup_queue);
                            self.cleanup_queue = kept;
                            self.phase = Phase::AwaitBlobRenamed;
                            proof {
                                assert(blobs@[i as int]@ == blobs.deep_view()[i as int]);
                                assert(spec_blob_choice(blobs.deep_view(), i as int));
                            }
                            Step { action: Action::Rename { from, to }, progress: None }
                        },
                        Err(e) => self.fail_with(e),
                    },
                    Err(_) => self.fail_with(
                        InstallError::ImageFormat(
                            String::from_str("OCI 'blobs' directory not found."),
                        ),
                    ),
                },
                _ => Step { action: Action::Idle, progress: None },
            },
            Phase::AwaitBlobRenamed => match event {
                Event::Op(res) => match res {
                    Ok(_) => self.oci_next(),
                    Err(m) => self.fail_with(InstallError::Filesystem(m)),
                },
                _ => Step { action: Action::Idle, progress: None },
            },
            Phase::OciCleanup => match event {
                Event::Op(res) => match res {
                    Ok(_) => self.oci_next(),
                    Err(m) => self.fail_with(InstallError::Filesystem(m)),
                },
                _ => Step { action: Action::Idle, progress: None },
            },
            Phase::AwaitLayerBytes => match event {
                Event::Bytes(res) => match res {
                    Ok(data) => match decompress_archive(&data) {
                        Ok(out) => {
                            self.phase = Phase::AwaitUnpackInner;
                            Step {
                                action: Action::UnpackTar {
                                    data: out,
                                    dest: self.target.install_path.clone(),
                                },
                                progress: None,
                            }
                        },
                        Err(e) => self.fail_with(e),
                    },
                    Err(m) => self.fail_with(InstallError::Filesystem(m)),
                },
                _ => Step { action: Action::Idle, progress: None },
            },
            Phase::AwaitUnpackInner => match event {
                Event::Op(res) => match res {
                    Ok(_) => {
                        self.phase = Phase::AwaitLayerRemoved;
                        let p = join_path(
                            self.target.install_path.as_str(),
                            "rootfs_layer.tar.gz",
                        );
                        Step { action: Action::RemoveFile(p), progress: None }
                    },
                    Err(m) => self.fail_with(InstallError::Extraction(m)),
                },
                _ => Step { action: Action::Idle, progress: None },
            },
            Phase::AwaitLayerRemoved => match event {
                Event::Op(res) => match res {
                    Ok(_) => {
                        self.phase = Phase::AwaitFlattenListing;
                        Step {
                            action: Action::ListDir(self.target.install_path.clone()),
                            progress: None,
                        }
                    },
                    Err(m) => self.fail_with(InstallError::Filesystem(m)),
                },
                _ => Step { action: Action::Idle, progress: None },
            },
            Phase::AwaitFlattenListing => match event {
                Event::Listing(res) => match res {
                    Ok(entries) => self.flatten_decision(entries),
                    Err(_) => self.walk_start(),
                },
                _ => Step { action: Action::Idle, progress: None },
            },
            Phase::AwaitWrapperListing => match event {
                Event::Listing(res) => match res {
                    Ok(children) => if children.len() > 0 {
                        let ghost cv = children.deep_view();
                        let mut q = children;
                        let e = q.pop().unwrap();
                        self.move_queue = q;
                        proof {
                            assert(e@ == cv.last());
                            assert(self.move_queue.deep_view() =~= cv.drop_last());
                        }
                        self.phase = Phase::FlattenMoves;
                        let wrapper_path = join_path(
                            self.target.install_path.as_str(),
                            self.wrapper.as_str(),
                        );
                        let from = join_path(wrapper_path.as_str(), e.name.as_str());
                        let to = join_path(
                            self.target.install_path.as_str(),
                            e.name.as_str(),
                        );
                        Step { action: Action::Rename { from, to }, progress: None }
                    } else {
                        self.phase = Phase::AwaitWrapperRemoved;
                        let p = join_path(
                            self.target.install_path.as_str(),
                            self.wrapper.as_str(),
                        );
                        Step { action: Action::RemoveDirEmpty(p), progress: None }
                    },
                    Err(_) => self.walk_start(),
                },
                _ => Step { action: Action::Idle, progress: None },
            },
            Phase::FlattenMoves => match event {
                Event::Op(res) => match res {
                    Ok(_) => self.flatten_next(),
                    Err(_) => self.walk_start(),
                },
                _ => Step { action: Action::Idle, progress: None },
            },
            Phase::AwaitWrapperRemoved => match event {
                Event::Op(_) => self.walk_start(),
                _ => Step { action: Action::Idle, progress: None },
            },
            Phase::AwaitXattrListing => match event {
                Event::Listing(res) => match res {
                    Ok(entries) => {
                        let (strip, descend) = strip_plan(self.walk_current.as_str(), &entries);
                        let ghost pre_pending = self.walk_pending.deep_view();
                        let mut k: usize = 0;
                        let n = descend.len();
                        let mut descend_vec = descend;
                        while k < n
                            invariant
                                n == descend_vec.len(),
                                k <= n,
                                same_core(*old(self), *self),
                                self.walk_pending.deep_view() == pre_pending
                                    + descend_vec.deep_view().take(k as int),
                            decreases n - k,
                        {
                            proof {
                                assert(descend_vec@[k as int]@ == descend_vec.deep_view()[
                                k as int]);
                                assert(pre_pending + descend_vec.deep_view().take(k + 1)
                                    =~= (pre_pending + descend_vec.deep_view().take(k as int)).push(
                                    descend_vec.deep_view()[k as int],
                                ));
                            }
                            let item = descend_vec[k].clone();
                            self.walk_pending.push(item);
                            k += 1;
                        }
                        proof {
                            assert(descend_vec.deep_view().take(n as int) =~= descend_vec
                                .deep_view());
                        }
                        self.phase = Phase::AwaitXattrStripped;
                        Step { action: Action::StripXattrs(strip), progress: None }
                    },
                    Err(_) => self.walk_next(),
                },
                _ => Step { action: Action::Idle, progress: None },
            },
            Phase::AwaitXattrStripped => match event {
                Event::Op(_) => self.walk_next(),
                _ => Step { action: Action::Idle, progress: None },
            },
            Phase::AwaitMountDirs => match event {
                Event::Op(res) => match res {
                    Ok(_) => {
                        self.phase = Phase::AwaitResolvWritten;
                        let path = join_path(
                            self.target.install_path.as_str(),
                            "etc/resolv.conf",
                        );
                        Step {
                            action: Action::ReplaceFile {
                                path,
                                content: resolv_conf_content(),
                            },
                            progress: None,
                        }
                    },
                    Err(m) => self.fail_with(InstallError::Filesystem(m)),
                },
                _ => Step { action: Action::Idle, progress: None },
            },
            Phase::AwaitResolvWritten => match event {
                Event::Op(res) => match res {
                    Ok(_) => if self.distro.family == FamilyKind::Void {
                        self.phase = Phase::AwaitProbe;
                        Step {
                            action: Action::RunProbe(String::from_str(void_repo_host())),
                            progress: None,
                        }
                    } else {
                        self.phase = Phase::AwaitHostsWritten;
                        let path = join_path(self.target.install_path.as_str(), "etc/hosts");
                        Step {
                            action: Action::WriteFile { path, content: hosts_content(None) },
                            progress: None,
                        }
                    },
                    Err(m) => self.fail_with(InstallError::Configuration(m)),
                },
                _ => Step { action: Action::Idle, progress: None },
            },
            Phase::AwaitProbe => match event {
                Event::ProbeOutput(res) => {
                    let content = match res {
                        Ok(out) => match parse_probe_address(out.as_str()) {
                            Ok(ip) => hosts_content(
                                Some((ip, String::from_str(void_repo_host()))),
                            ),
                            Err(_) => hosts_content(None),
                        },
                        Err(_) => hosts_content(None),
                    };
                    self.phase = Phase::AwaitHostsWritten;
                    let path = join_path(self.target.install_path.as_str(), "etc/hosts");
                    Step { action: Action::WriteFile { path, content }, progress: None }
                },
                _ => Step { action: Action::Idle, progress: None },
            },
            Phase::AwaitHostsWritten => match event {
                Event::Op(res) => match res {
                    Ok(_) => {
                        self.phase = Phase::AwaitStartScript;
                        let content = start_script_content(
                            self.target.install_path.as_str(),
                            self.exe_path.as_str(),
                            self.distro.family,
                        );
                        Step {
                            action: Action::WriteExecutable {
                                path: self.target.start_script_path.clone(),
                                content,
                            },
                            progress: None,
                        }
                    },
                    Err(m) => self.fail_with(InstallError::Configuration(m)),
                },
                _ => Step { action: Action::Idle, progress: None },
            },
            Phase::AwaitStartScript => match event {
                Event::Op(res) => match res {
                    Ok(_) => {
                        self.phase = Phase::AwaitSetupScript;
                        let path = join_path(
                            self.target.install_path.as_str(),
                            "root/finalize_setup.sh",
                        );
                        let content = setup_script_content(
                            self.distro.family,
                            self.username.as_str(),
                            self.password.as_str(),
                        );
                        Step {
                            action: Action::WriteFile { path, content },
                            progress: None,
                        }
                    },
                    Err(m) => self.fail_with(InstallError::Configuration(m)),
                },
                _ => Step { action: Action::Idle, progress: None },
            },
            Phase::AwaitSetupScript => match event {
                Event::Op(res) => match res {
                    Ok(_) => {
                        self.phase = Phase::Done;
                        Step {
                            action: Action::Idle,
                            progress: Some(
                                ProgressState::Finished(self.target.start_script_path.clone()),
                            ),
                        }
                    },
                    Err(m) => self.fail_with(InstallError::Configuration(m)),
                },
                _ => Step { action: Action::Idle, progress: None },
            },
            Phase::Done => Step { action: Action::Idle, progress: None },
            Phase::Failed => Step { action: Action::Idle, progress: None },
        }
    }

    fn cleanup_targets(es: &Vec<FsEntry>) -> (r: Vec<FsEntry>)
        ensures
            r.deep_view() == spec_cleanup_targets(es.deep_view()),
    {
        let n = es.len();
        let mut out: Vec<FsEntry> = Vec::new();
        let mut i: usize = 0;
        proof {
            assert(es.deep_view().skip(0) =~= es.deep_view());
        }
        while i < n
            invariant
                n == es.len(),
                i <= n,
                out.deep_view() + spec_cleanup_targets(es.deep_view().skip(i as int))
                    == spec_cleanup_targets(es.deep_view()),
            decreases n - i,
        {
            let ghost pre = out.deep_view();
            let ghost tail = es.deep_view().skip(i as int);
            proof {
                assert(tail[0] == es.deep_view()[i as int]);
                assert(tail.drop_first() =~= es.deep_view().skip(i + 1));
            }
            if !crate::text::str_eq(es[i].name.as_str(), "rootfs_layer.tar.gz") {
                let kept = FsEntry {
                    name: es[i].name.clone(),
                    is_dir: es[i].is_dir,
                    size: es[i].size,
                };
                out.push(kept);
                proof {
                    assert(out.deep_view() =~= pre + seq![tail[0]]);
                    assert(pre + (seq![tail[0]] + spec_cleanup_targets(tail.drop_first())) =~= (pre
                        + seq![tail[0]]) + spec_cleanup_targets(tail.drop_first()));
                }
            }
            i += 1;
        }
        proof {
            assert(es.deep_view().skip(n as int) =~= Seq::<FsEntryView>::empty());
            assert(out.deep_view() + Seq::<FsEntryView>::empty() =~= out.deep_view());
        }
        out
    }
}

} // verus!

//! The file-manager V-Node (`svc://file-manager`): user-level file actions
//! carried out through requests to `svc://vfs`.
//!
//! The service is a state machine. A request either is answered at once or
//! starts an action that asks the VFS something; each VFS answer then moves
//! the action on (`FileManagerService::complete`), until the client's answer
//! is known. Browsing asks for a listing; copying opens the source, reads it,
//! closes it, opens the destination, writes it and closes it. The VFS has no
//! request that deletes, renames or creates a directory, so moving, deleting
//! and creating a directory are refused.
use vstd::prelude::*;
use vstd::string::StrSliceExecFns;
use crate::ipc::file_manager_ipc::{FileManagerRequest, FileManagerRequestView, FileManagerResponse, FileManagerResponseView};
use crate::ipc::vfs_ipc::{names_sorted_unique, Fd, VfsMetadata, VfsRequest, VfsRequestView, VfsResponse, VfsResponseView};
use crate::ipc::vnode::VNodeChannel;
use crate::text::{concat2, concat3, concat4, owned};
use crate::vnodes::vfs::{law_listings_sorted_unique, listing, read_reply_bytes, vfs_next, vfs_reply, vfs_state_wf, VfsState};

verus! {

/// Open flags for reading (the VFS's read-only mode).
pub const OPEN_READ_ONLY: u32 = 0;

/// Open flags for writing a file, created where it does not exist
/// (write-only and create, in the POSIX numbering).
pub const OPEN_WRITE_CREATE: u32 = 0o101;

/// The file-manager service.
pub struct FileManagerService {
    /// Requests from AetherTerminal or other client V-Nodes arrive here.
    pub client_chan: VNodeChannel,
    /// Channel to `svc://vfs`.
    pub vfs_chan: VNodeChannel,
}

/// Where a copy stands: which VFS answer it waits for, and what it carries.
#[derive(Debug)]
pub enum CopyStage {
    /// Waits for the descriptor of the opened source.
    OpenSource,
    /// Waits for the source's bytes.
    ReadSource { fd: Fd },
    /// Waits for the source to be closed, holding its bytes.
    CloseSource { data: Vec<u8> },
    /// Waits for the descriptor of the opened destination.
    OpenDestination { data: Vec<u8> },
    /// Waits for the write to the destination.
    WriteDestination { fd: Fd },
    /// Waits for the destination to be closed.
    CloseDestination,
    /// Failed with `error`; waits for a descriptor to be closed.
    Abort { error: String },
}

/// A copy in progress.
#[derive(Debug)]
pub struct CopyJob {
    pub source: String,
    pub destination: String,
    pub stage: CopyStage,
}

/// An action that waits for an answer of the VFS.
#[derive(Debug)]
pub enum PendingAction {
    Browse { path: String },
    Copy(CopyJob),
}

/// What the service does next: answer the client, or ask the VFS and hand
/// its answer, with the pending action, to `FileManagerService::complete`.
#[derive(Debug)]
pub enum FileManagerStep {
    Reply(FileManagerResponse),
    AskVfs { request: VfsRequest, pending: PendingAction },
}

/// The model of a copy stage.
pub enum CopyStageView {
    OpenSource,
    ReadSource { fd: Fd },
    CloseSource { data: Seq<u8> },
    OpenDestination { data: Seq<u8> },
    WriteDestination { fd: Fd },
    CloseDestination,
    Abort { error: Seq<char> },
}

/// The model of a copy in progress.
pub struct CopyJobView {
    pub source: Seq<char>,
    pub destination: Seq<char>,
    pub stage: CopyStageView,
}

/// The model of a pending action.
pub enum PendingActionView {
    Browse { path: Seq<char> },
    Copy(CopyJobView),
}

/// The model of a step.
pub enum FileManagerStepView {
    Reply(FileManagerResponseView),
    AskVfs { request: VfsRequestView, pending: PendingActionView },
}

impl View for CopyStage {
    type V = CopyStageView;

    open spec fn view(&self) -> CopyStageView {
        match self {
            CopyStage::OpenSource => CopyStageView::OpenSource,
            CopyStage::ReadSource { fd } => CopyStageView::ReadSource { fd: *fd },
            CopyStage::CloseSource { data } => CopyStageView::CloseSource { data: data@ },
            CopyStage::OpenDestination { data } => CopyStageView::OpenDestination { data: data@ },
            CopyStage::WriteDestination { fd } => CopyStageView::WriteDestination { fd: *fd },
            CopyStage::CloseDestination => CopyStageView::CloseDestination,
            CopyStage::Abort { error } => CopyStageView::Abort { error: error@ },
        }
    }
}

impl View for CopyJob {
    type V = CopyJobView;

    open spec fn view(&self) -> CopyJobView {
        CopyJobView { source: self.source@, destination: self.destination@, stage: self.stage@ }
    }
}

impl View for PendingAction {
    type V = PendingActionView;

    open spec fn view(&self) -> PendingActionView {
        match self {
            PendingAction::Browse { path } => PendingActionView::Browse { path: path@ },
            PendingAction::Copy(job) => PendingActionView::Copy(job@),
        }
    }
}

impl View for FileManagerStep {
    type V = FileManagerStepView;

    open spec fn view(&self) -> FileManagerStepView {
        match self {
            FileManagerStep::Reply(r) => FileManagerStepView::Reply(r@),
            FileManagerStep::AskVfs { request, pending } => FileManagerStepView::AskVfs {
                request: request@,
                pending: pending@,
            },
        }
    }
}

/// A path that the service accepts: an absolute one, starting with '/'.
pub open spec fn is_absolute_path(path: Seq<char>) -> bool {
    path.len() > 0 && path[0] == '/'
}

/// The message for a path that is not absolute.
pub open spec fn invalid_path_message(path: Seq<char>) -> Seq<char> {
    "Invalid path (not absolute): "@ + path
}

/// The reason given for an action that the VFS offers no request for.
pub open spec fn unsupported_reason() -> Seq<char> {
    "svc://vfs offers no such operation"@
}

/// The message for a copy that failed with `message`.
pub open spec fn copy_failure(source: Seq<char>, destination: Seq<char>, message: Seq<char>) -> Seq<char> {
    "Failed to copy "@ + source + " to "@ + destination + ": "@ + message
}

/// The message for a copy that got an answer it did not expect.
pub open spec fn copy_unexpected() -> Seq<char> {
    "Unexpected response from VFS during copy"@
}

/// An error answer to the client.
pub open spec fn reply_error(message: Seq<char>) -> FileManagerStepView {
    FileManagerStepView::Reply(FileManagerResponseView::Error(message))
}

/// Asks the VFS `request`, the copy `j` going on at `stage`.
pub open spec fn ask_copy(request: VfsRequestView, j: CopyJobView, stage: CopyStageView) -> FileManagerStepView {
    FileManagerStepView::AskVfs {
        request,
        pending: PendingActionView::Copy(CopyJobView { stage, ..j }),
    }
}

/// The step for a request.
pub open spec fn fm_step(req: FileManagerRequestView) -> FileManagerStepView {
    match req {
        FileManagerRequestView::Browse { path } => if !is_absolute_path(path) {
            reply_error(invalid_path_message(path))
        } else {
            FileManagerStepView::AskVfs {
                request: VfsRequestView::List { path },
                pending: PendingActionView::Browse { path },
            }
        },
        FileManagerRequestView::Copy { source, destination } => if !is_absolute_path(source) {
            reply_error(invalid_path_message(source))
        } else if !is_absolute_path(destination) {
            reply_error(invalid_path_message(destination))
        } else {
            FileManagerStepView::AskVfs {
                request: VfsRequestView::Open { path: source, flags: OPEN_READ_ONLY },
                pending: PendingActionView::Copy(
                    CopyJobView { source, destination, stage: CopyStageView::OpenSource },
                ),
            }
        },
        FileManagerRequestView::Move { source, destination } => if !is_absolute_path(source) {
            reply_error(invalid_path_message(source))
        } else if !is_absolute_path(destination) {
            reply_error(invalid_path_message(destination))
        } else {
            reply_error("Failed to move "@ + source + " to "@ + destination + ": "@ + unsupported_reason())
        },
        FileManagerRequestView::Delete { path } => if !is_absolute_path(path) {
            reply_error(invalid_path_message(path))
        } else {
            reply_error("Failed to delete "@ + path + ": "@ + unsupported_reason())
        },
        FileManagerRequestView::CreateDirectory { path } => if !is_absolute_path(path) {
            reply_error(invalid_path_message(path))
        } else {
            reply_error("Failed to create directory "@ + path + ": "@ + unsupported_reason())
        },
    }
}

/// The answer to a browse of `path`, given what the VFS answered (`None`
/// where the exchange with the VFS failed).
pub open spec fn browse_reply(path: Seq<char>, vfs: Option<VfsResponseView>) -> FileManagerResponseView {
    match vfs {
        Some(VfsResponseView::DirectoryEntries(entries)) => FileManagerResponseView::DirectoryEntries(entries),
        Some(VfsResponseView::Error { message, .. }) => FileManagerResponseView::Error(
            "Failed to browse "@ + path + ": "@ + message,
        ),
        _ => FileManagerResponseView::Error("Unexpected response from VFS during browse"@),
    }
}

/// The next step of the copy `j`, given what the VFS answered (`None` where
/// the exchange failed). A failure once a descriptor is open first closes
/// that descriptor, then answers the error.
pub open spec fn copy_next(j: CopyJobView, vfs: Option<VfsResponseView>) -> FileManagerStepView {
    let failed = |m: Seq<char>| copy_failure(j.source, j.destination, m);
    match j.stage {
        CopyStageView::OpenSource => match vfs {
            Some(VfsResponseView::Success(n)) => if n >= 0 {
                ask_copy(
                    VfsRequestView::Read { fd: n as u32, len: u32::MAX, offset: 0 },
                    j,
                    CopyStageView::ReadSource { fd: n as u32 },
                )
            } else {
                reply_error(copy_unexpected())
            },
            Some(VfsResponseView::Error { message, .. }) => reply_error(failed(message)),
            _ => reply_error(copy_unexpected()),
        },
        CopyStageView::ReadSource { fd } => match vfs {
            Some(VfsResponseView::Data(data)) => ask_copy(
                VfsRequestView::Close { fd },
                j,
                CopyStageView::CloseSource { data },
            ),
            Some(VfsResponseView::Error { message, .. }) => ask_copy(
                VfsRequestView::Close { fd },
                j,
                CopyStageView::Abort { error: failed(message) },
            ),
            _ => ask_copy(VfsRequestView::Close { fd }, j, CopyStageView::Abort { error: copy_unexpected() }),
        },
        CopyStageView::CloseSource { data } => match vfs {
            Some(VfsResponseView::Success(_)) => ask_copy(
                VfsRequestView::Open { path: j.destination, flags: OPEN_WRITE_CREATE },
                j,
                CopyStageView::OpenDestination { data },
            ),
            Some(VfsResponseView::Error { message, .. }) => reply_error(failed(message)),
            _ => reply_error(copy_unexpected()),
        },
        CopyStageView::OpenDestination { data } => match vfs {
            Some(VfsResponseView::Success(n)) => if n >= 0 {
                ask_copy(
                    VfsRequestView::Write { fd: n as u32, data, offset: 0 },
                    j,
                    CopyStageView::WriteDestination { fd: n as u32 },
                )
            } else {
                reply_error(copy_unexpected())
            },
            Some(VfsResponseView::Error { message, .. }) => reply_error(failed(message)),
            _ => reply_error(copy_unexpected()),
        },
        CopyStageView::WriteDestination { fd } => match vfs {
            Some(VfsResponseView::Success(_)) => ask_copy(
                VfsRequestView::Close { fd },
                j,
                CopyStageView::CloseDestination,
            ),
            Some(VfsResponseView::Error { message, .. }) => ask_copy(
                VfsRequestView::Close { fd },
                j,
                CopyStageView::Abort { error: failed(message) },
            ),
            _ => ask_copy(VfsRequestView::Close { fd }, j, CopyStageView::Abort { error: copy_unexpected() }),
        },
        CopyStageView::CloseDestination => match vfs {
            Some(VfsResponseView::Success(_)) => FileManagerStepView::Reply(
                FileManagerResponseView::Success("Successfully copied "@ + j.source + " to "@ + j.destination),
            ),
            Some(VfsResponseView::Error { message, .. }) => reply_error(failed(message)),
            _ => reply_error(copy_unexpected()),
        },
        CopyStageView::Abort { error } => reply_error(error),
    }
}

/// The next step of the pending action `p`, given what the VFS answered.
pub open spec fn fm_complete(p: PendingActionView, vfs: Option<VfsResponseView>) -> FileManagerStepView {
    match p {
        PendingActionView::Browse { path } => FileManagerStepView::Reply(browse_reply(path, vfs)),
        PendingActionView::Copy(j) => copy_next(j, vfs),
    }
}

/// Law: browsing a path through the file manager, with the VFS service
/// answering the listing request, yields the VFS's listing unchanged, and the
/// VFS's open files stay as they were.
pub proof fn law_browse_returns_vfs_listing(vfs: VfsState, path: Seq<char>)
    requires
        is_absolute_path(path),
    ensures
        ({
            let step = fm_step(FileManagerRequestView::Browse { path });
            let pending = PendingActionView::Browse { path };
            &&& step == FileManagerStepView::AskVfs { request: VfsRequestView::List { path }, pending }
            &&& fm_complete(pending, Some(vfs_reply(vfs, VfsRequestView::List { path })))
                == FileManagerStepView::Reply(FileManagerResponseView::DirectoryEntries(listing()))
            &&& vfs_next(vfs, VfsRequestView::List { path }) == vfs
        }),
{
}

/// Law: the only listings that the service answers are those that the VFS
/// answered to a browse, unchanged; so they are sorted by name, each name
/// once, as the VFS's are.
pub proof fn law_listings_come_from_vfs(
    req: FileManagerRequestView,
    p: PendingActionView,
    vfs: Option<VfsResponseView>,
    state: VfsState,
    path: Seq<char>,
)
    ensures
        !(fm_step(req) matches FileManagerStepView::Reply(FileManagerResponseView::DirectoryEntries(_))),
        fm_complete(p, vfs) matches FileManagerStepView::Reply(FileManagerResponseView::DirectoryEntries(e)) ==> {
            &&& p is Browse
            &&& vfs == Some(VfsResponseView::DirectoryEntries(e))
        },
        fm_complete(
            PendingActionView::Browse { path },
            Some(vfs_reply(state, VfsRequestView::List { path })),
        ) matches FileManagerStepView::Reply(FileManagerResponseView::DirectoryEntries(e)) && names_sorted_unique(e),
{
    law_listings_sorted_unique(state, VfsRequestView::List { path });
}

/// Law: what the service does with each request. A path that does not
/// start with '/' is refused with "Invalid path (not absolute): {path}". A
/// browse asks the VFS to list the path; a copy asks it to open the source
/// read-only (flags 0); a move, delete or create-directory is refused with
/// "Failed to move {s} to {d}: …", "Failed to delete {p}: …" or "Failed to
/// create directory {p}: …", the reason being that `svc://vfs` offers no
/// such operation.
pub proof fn law_request_steps(path: Seq<char>, source: Seq<char>, destination: Seq<char>)
    ensures
        path.len() == 0 || path[0] != '/' ==> {
            &&& fm_step(FileManagerRequestView::Browse { path }) == FileManagerStepView::Reply(
                FileManagerResponseView::Error("Invalid path (not absolute): "@ + path),
            )
            &&& fm_step(FileManagerRequestView::Delete { path }) == FileManagerStepView::Reply(
                FileManagerResponseView::Error("Invalid path (not absolute): "@ + path),
            )
            &&& fm_step(FileManagerRequestView::CreateDirectory { path }) == FileManagerStepView::Reply(
                FileManagerResponseView::Error("Invalid path (not absolute): "@ + path),
            )
        },
        path.len() > 0 && path[0] == '/' ==> {
            &&& fm_step(FileManagerRequestView::Browse { path }) matches FileManagerStepView::AskVfs { request, .. }
                && request == VfsRequestView::List { path }
            &&& fm_step(FileManagerRequestView::Delete { path }) == FileManagerStepView::Reply(
                FileManagerResponseView::Error("Failed to delete "@ + path + ": "@ + "svc://vfs offers no such operation"@),
            )
            &&& fm_step(FileManagerRequestView::CreateDirectory { path }) == FileManagerStepView::Reply(
                FileManagerResponseView::Error(
                    "Failed to create directory "@ + path + ": "@ + "svc://vfs offers no such operation"@,
                ),
            )
        },
        source.len() > 0 && source[0] == '/' && destination.len() > 0 && destination[0] == '/' ==> {
            &&& fm_step(FileManagerRequestView::Copy { source, destination }) matches FileManagerStepView::AskVfs {
                request,
                ..
            } && request == VfsRequestView::Open { path: source, flags: 0 }
            &&& fm_step(FileManagerRequestView::Move { source, destination }) == FileManagerStepView::Reply(
                FileManagerResponseView::Error(
                    "Failed to move "@ + source + " to "@ + destination + ": "@ + "svc://vfs offers no such operation"@,
                ),
            )
        },
        source.len() == 0 || source[0] != '/' ==> {
            &&& fm_step(FileManagerRequestView::Copy { source, destination }) == FileManagerStepView::Reply(
                FileManagerResponseView::Error("Invalid path (not absolute): "@ + source),
            )
            &&& fm_step(FileManagerRequestView::Move { source, destination }) == FileManagerStepView::Reply(
                FileManagerResponseView::Error("Invalid path (not absolute): "@ + source),
            )
        },
{
}

/// Law: the answer to a browse is the VFS's listing itself; a VFS error
/// becomes "Failed to browse {path}: {message}", and anything else
/// "Unexpected response from VFS during browse". In a copy, a VFS error at
/// any step is reported as "Failed to copy {source} to {destination}:
/// {message}", and an answer of the wrong kind as "Unexpected response from
/// VFS during copy".
pub proof fn law_failure_messages(
    path: Seq<char>,
    entries: Seq<(Seq<char>, VfsMetadata)>,
    code: i32,
    message: Seq<char>,
    source: Seq<char>,
    destination: Seq<char>,
)
    ensures
        fm_complete(PendingActionView::Browse { path }, Some(VfsResponseView::DirectoryEntries(entries)))
            == FileManagerStepView::Reply(FileManagerResponseView::DirectoryEntries(entries)),
        fm_complete(PendingActionView::Browse { path }, Some(VfsResponseView::Error { code, message }))
            == FileManagerStepView::Reply(FileManagerResponseView::Error("Failed to browse "@ + path + ": "@ + message)),
        fm_complete(PendingActionView::Browse { path }, None) == FileManagerStepView::Reply(
            FileManagerResponseView::Error("Unexpected response from VFS during browse"@),
        ),
        copy_failure(source, destination, message) == "Failed to copy "@ + source + " to "@ + destination + ": "@
            + message,
        copy_unexpected() == "Unexpected response from VFS during copy"@,
        copy_next(
            CopyJobView { source, destination, stage: CopyStageView::OpenSource },
            Some(VfsResponseView::Error { code, message }),
        ) == FileManagerStepView::Reply(
            FileManagerResponseView::Error("Failed to copy "@ + source + " to "@ + destination + ": "@ + message),
        ),
        copy_next(CopyJobView { source, destination, stage: CopyStageView::OpenSource }, None)
            == FileManagerStepView::Reply(FileManagerResponseView::Error("Unexpected response from VFS during copy"@)),
{
}

/// Law: the service answers `Success` only at the end of a copy, when the
/// VFS has confirmed the close of the destination; no request is answered
/// `Success` at once, and no other answer of the VFS leads to it.
pub proof fn law_success_only_after_vfs_confirms(
    req: FileManagerRequestView,
    p: PendingActionView,
    vfs: Option<VfsResponseView>,
)
    ensures
        !(fm_step(req) matches FileManagerStepView::Reply(FileManagerResponseView::Success(_))),
        fm_complete(p, vfs) matches FileManagerStepView::Reply(FileManagerResponseView::Success(_)) ==> {
            &&& p matches PendingActionView::Copy(j)
            &&& j.stage is CloseDestination
            &&& vfs matches Some(VfsResponseView::Success(_))
        },
{
}

/// Law: a VFS error during a copy is reported to the client as the copy's
/// failure with the VFS's message, once any descriptor the copy holds open
/// has been closed.
pub proof fn law_copy_reports_vfs_errors(j: CopyJobView, code: i32, message: Seq<char>, any: Option<VfsResponseView>)
    requires
        !(j.stage is Abort),
    ensures
        ({
            let err = copy_failure(j.source, j.destination, message);
            let next = copy_next(j, Some(VfsResponseView::Error { code, message }));
            ||| next == reply_error(err)
            ||| exists|fd: Fd| next == ask_copy(VfsRequestView::Close { fd }, j, CopyStageView::Abort { error: err })
        }),
        copy_next(CopyJobView { stage: CopyStageView::Abort { error: copy_failure(j.source, j.destination, message) }, ..j }, any)
            == reply_error(copy_failure(j.source, j.destination, message)),
{
    let err = copy_failure(j.source, j.destination, message);
    match j.stage {
        CopyStageView::ReadSource { fd } => {
            assert(copy_next(j, Some(VfsResponseView::Error { code, message })) == ask_copy(
                VfsRequestView::Close { fd },
                j,
                CopyStageView::Abort { error: err },
            ));
        },
        CopyStageView::WriteDestination { fd } => {
            assert(copy_next(j, Some(VfsResponseView::Error { code, message })) == ask_copy(
                VfsRequestView::Close { fd },
                j,
                CopyStageView::Abort { error: err },
            ));
        },
        _ => {},
    }
}

/// The client's answer to `step` and the VFS state after it, where the VFS
/// service answers each request from state `vfs` as its model says; at most
/// `rounds` requests are asked (the answer is `None` where more are needed).
pub open spec fn fm_run_with_vfs(
    vfs: VfsState,
    step: FileManagerStepView,
    rounds: nat,
) -> (VfsState, Option<FileManagerResponseView>)
    decreases rounds,
{
    match step {
        FileManagerStepView::Reply(r) => (vfs, Some(r)),
        FileManagerStepView::AskVfs { request, pending } => if rounds == 0 {
            (vfs, None)
        } else {
            fm_run_with_vfs(
                vfs_next(vfs, request),
                fm_complete(pending, Some(vfs_reply(vfs, request))),
                (rounds - 1) as nat,
            )
        },
    }
}

/// The requests that `step` puts to the VFS, in order, where the VFS service
/// answers each from state `vfs` as its model says; at most `rounds` of them.
pub open spec fn fm_vfs_requests(vfs: VfsState, step: FileManagerStepView, rounds: nat) -> Seq<VfsRequestView>
    decreases rounds,
{
    match step {
        FileManagerStepView::Reply(_) => Seq::empty(),
        FileManagerStepView::AskVfs { request, pending } => if rounds == 0 {
            Seq::empty()
        } else {
            seq![request] + fm_vfs_requests(
                vfs_next(vfs, request),
                fm_complete(pending, Some(vfs_reply(vfs, request))),
                (rounds - 1) as nat,
            )
        },
    }
}

/// Law: whatever the VFS answers, a copy writes to the destination exactly
/// the bytes that the VFS returned for the read of the source: after the
/// read returns `d`, the copy closes the source, opens the destination for
/// writing, and writes `d` at offset 0 under the descriptor the VFS gave.
pub proof fn law_copy_writes_what_it_read(
    source: Seq<char>,
    destination: Seq<char>,
    fd: Fd,
    d: Seq<u8>,
    closed: i32,
    n: i32,
)
    requires
        n >= 0,
    ensures
        match copy_next(
            CopyJobView { source, destination, stage: CopyStageView::ReadSource { fd } },
            Some(VfsResponseView::Data(d)),
        ) {
            FileManagerStepView::AskVfs { request: r1, pending: PendingActionView::Copy(j2) } => {
                &&& r1 == VfsRequestView::Close { fd }
                &&& match copy_next(j2, Some(VfsResponseView::Success(closed))) {
                    FileManagerStepView::AskVfs { request: r2, pending: PendingActionView::Copy(j3) } => {
                        &&& r2 == VfsRequestView::Open { path: destination, flags: OPEN_WRITE_CREATE }
                        &&& match copy_next(j3, Some(VfsResponseView::Success(n))) {
                            FileManagerStepView::AskVfs { request: r3, pending: PendingActionView::Copy(j4) } => {
                                &&& r3 == VfsRequestView::Write { fd: n as u32, data: d, offset: 0 }
                                &&& j4.source == source
                                &&& j4.destination == destination
                            },
                            _ => false,
                        }
                    },
                    _ => false,
                }
            },
            _ => false,
        },
{
}

/// Law: a copy between two absolute paths, carried out against the VFS
/// service, takes six requests and succeeds, and every descriptor that it
/// opened is closed again: the VFS's open files are as before, and two
/// descriptors were used up. The requests are: open the source read-only,
/// read all of it, close it, open the destination for writing, write there
/// exactly the bytes read, close it.
pub proof fn law_copy_through_vfs_succeeds(vfs: VfsState, source: Seq<char>, destination: Seq<char>)
    requires
        vfs_state_wf(vfs),
        is_absolute_path(source),
        is_absolute_path(destination),
        vfs.next_fd + 2 <= i32::MAX,
    ensures
        fm_run_with_vfs(vfs, fm_step(FileManagerRequestView::Copy { source, destination }), 6) == (
            VfsState { next_fd: (vfs.next_fd + 2) as u32, files: vfs.files },
            Some(FileManagerResponseView::Success("Successfully copied "@ + source + " to "@ + destination)),
        ),
        fm_vfs_requests(vfs, fm_step(FileManagerRequestView::Copy { source, destination }), 6) == seq![
            VfsRequestView::Open { path: source, flags: OPEN_READ_ONLY },
            VfsRequestView::Read { fd: vfs.next_fd, len: u32::MAX, offset: 0 },
            VfsRequestView::Close { fd: vfs.next_fd },
            VfsRequestView::Open { path: destination, flags: OPEN_WRITE_CREATE },
            VfsRequestView::Write { fd: (vfs.next_fd + 1) as u32, data: read_reply_bytes(source, 0, u32::MAX), offset: 0 },
            VfsRequestView::Close { fd: (vfs.next_fd + 1) as u32 },
        ],
{
    let j = CopyJobView { source, destination, stage: CopyStageView::OpenSource };
    let fd0 = vfs.next_fd;
    let fd1 = (vfs.next_fd + 1) as u32;
    let data = read_reply_bytes(source, 0, u32::MAX);
    let open0 = VfsRequestView::Open { path: source, flags: OPEN_READ_ONLY };
    let read0 = VfsRequestView::Read { fd: fd0, len: u32::MAX, offset: 0 };
    let close0 = VfsRequestView::Close { fd: fd0 };
    let open1 = VfsRequestView::Open { path: destination, flags: OPEN_WRITE_CREATE };
    let write1 = VfsRequestView::Write { fd: fd1, data, offset: 0 };
    let close1 = VfsRequestView::Close { fd: fd1 };
    let s1 = vfs_next(vfs, open0);
    let s2 = vfs_next(s1, read0);
    let s3 = vfs_next(s2, close0);
    let s4 = vfs_next(s3, open1);
    let s5 = vfs_next(s4, write1);
    let s6 = vfs_next(s5, close1);
    assert(!vfs.files.contains_key(fd0));
    assert(vfs_reply(vfs, open0) == VfsResponseView::Success(fd0 as i32));
    assert(vfs_reply(s1, read0) == VfsResponseView::Data(data));
    assert(vfs_reply(s2, close0) == VfsResponseView::Success(0));
    assert(s3.files =~= vfs.files);
    assert(s3.next_fd == fd1);
    assert(!s3.files.contains_key(fd1));
    assert(vfs_reply(s3, open1) == VfsResponseView::Success(fd1 as i32));
    assert(vfs_reply(s4, write1) == VfsResponseView::Success((data.len() as usize) as i32));
    assert(vfs_reply(s5, close1) == VfsResponseView::Success(0));
    assert(s6.files =~= vfs.files);
    let st0 = fm_step(FileManagerRequestView::Copy { source, destination });
    let st1 = ask_copy(read0, j, CopyStageView::ReadSource { fd: fd0 });
    let st2 = ask_copy(close0, j, CopyStageView::CloseSource { data });
    let st3 = ask_copy(open1, j, CopyStageView::OpenDestination { data });
    let st4 = ask_copy(write1, j, CopyStageView::WriteDestination { fd: fd1 });
    let st5 = ask_copy(close1, j, CopyStageView::CloseDestination);
    let done = FileManagerStepView::Reply(
        FileManagerResponseView::Success("Successfully copied "@ + source + " to "@ + destination),
    );
    assert(fm_run_with_vfs(s6, done, 0) == (s6, Some(
        FileManagerResponseView::Success("Successfully copied "@ + source + " to "@ + destination),
    )));
    assert(fm_run_with_vfs(s5, st5, 1) == fm_run_with_vfs(s6, done, 0));
    assert(fm_run_with_vfs(s4, st4, 2) == fm_run_with_vfs(s5, st5, 1));
    assert(fm_run_with_vfs(s3, st3, 3) == fm_run_with_vfs(s4, st4, 2));
    assert(fm_run_with_vfs(s2, st2, 4) == fm_run_with_vfs(s3, st3, 3));
    assert(fm_run_with_vfs(s1, st1, 5) == fm_run_with_vfs(s2, st2, 4));
    assert(fm_run_with_vfs(vfs, st0, 6) == fm_run_with_vfs(s1, st1, 5));
    assert(fm_vfs_requests(s6, done, 0) == Seq::<VfsRequestView>::empty());
    assert(fm_vfs_requests(s5, st5, 1) == seq![close1]);
    assert(fm_vfs_requests(s4, st4, 2) == seq![write1, close1]);
    assert(fm_vfs_requests(s3, st3, 3) == seq![open1, write1, close1]);
    assert(fm_vfs_requests(s2, st2, 4) == seq![close0, open1, write1, close1]);
    assert(fm_vfs_requests(s1, st1, 5) == seq![read0, close0, open1, write1, close1]);
    assert(fm_vfs_requests(vfs, st0, 6) == seq![open0, read0, close0, open1, write1, close1]);
    assert(s6 == VfsState { next_fd: (vfs.next_fd + 2) as u32, files: vfs.files });
}

/// Whether `path` starts with '/'.
fn is_absolute(path: &String) -> (b: bool)
    ensures
        b == is_absolute_path(path@),
{
    let p = path.as_str();
    p.unicode_len() > 0 && p.get_char(0) == '/'
}

/// The message for a copy that failed with `message`.
fn copy_failure_text(source: &String, destination: &String, message: &String) -> (s: String)
    ensures
        s@ == copy_failure(source@, destination@, message@),
{
    let head = concat4("Failed to copy ", source.as_str(), " to ", destination.as_str());
    concat3(head.as_str(), ": ", message.as_str())
}

/// An error answer to the client.
fn error_step(message: String) -> (step: FileManagerStep)
    ensures
        step@ == reply_error(message@),
{
    FileManagerStep::Reply(FileManagerResponse::Error(message))
}

/// An error answer for a path that is not absolute.
fn invalid_path_step(path: &String) -> (step: FileManagerStep)
    ensures
        step@ == reply_error(invalid_path_message(path@)),
{
    error_step(concat2("Invalid path (not absolute): ", path.as_str()))
}

/// The answer that a copy got no usable answer.
fn unexpected_copy_step() -> (step: FileManagerStep)
    ensures
        step@ == reply_error(copy_unexpected()),
{
    error_step(owned("Unexpected response from VFS during copy"))
}

/// Asks the VFS `request`, the copy of `source` to `destination` going on at
/// `stage`.
fn ask_copy_step(request: VfsRequest, source: String, destination: String, stage: CopyStage) -> (step: FileManagerStep)
    ensures
        step@ == ask_copy(
            request@,
            CopyJobView { source: source@, destination: destination@, stage: CopyStageView::OpenSource },
            stage@,
        ),
{
    FileManagerStep::AskVfs { request, pending: PendingAction::Copy(CopyJob { source, destination, stage }) }
}

impl FileManagerService {
    /// A service that takes client requests on channel `client_chan_id` and
    /// reaches `svc://vfs` on `vfs_chan_id`.
    pub fn new(client_chan_id: u32, vfs_chan_id: u32) -> (s: Self)
        ensures
            s.client_chan.channel() == client_chan_id,
            s.vfs_chan.channel() == vfs_chan_id,
            s.client_chan.wf(),
            s.vfs_chan.wf(),
    {
        let client_chan = VNodeChannel::new(client_chan_id);
        let vfs_chan = VNodeChannel::new(vfs_chan_id);
        FileManagerService { client_chan, vfs_chan }
    }

    /// Decides what to do with a request, as `fm_step` says.
    pub fn handle_request(&self, request: FileManagerRequest) -> (step: FileManagerStep)
        ensures
            step@ == fm_step(request@),
    {
        match request {
            FileManagerRequest::Browse { path } => {
                if !is_absolute(&path) {
                    return invalid_path_step(&path);
                }
                let list = VfsRequest::List { path: path.clone() };
                FileManagerStep::AskVfs { request: list, pending: PendingAction::Browse { path } }
            },
            FileManagerRequest::Copy { source, destination } => {
                if !is_absolute(&source) {
                    return invalid_path_step(&source);
                }
                if !is_absolute(&destination) {
                    return invalid_path_step(&destination);
                }
                let open = VfsRequest::Open { path: source.clone(), flags: OPEN_READ_ONLY };
                ask_copy_step(open, source, destination, CopyStage::OpenSource)
            },
            FileManagerRequest::Move { source, destination } => {
                if !is_absolute(&source) {
                    return invalid_path_step(&source);
                }
                if !is_absolute(&destination) {
                    return invalid_path_step(&destination);
                }
                let head = concat4("Failed to move ", source.as_str(), " to ", destination.as_str());
                error_step(concat3(head.as_str(), ": ", "svc://vfs offers no such operation"))
            },
            FileManagerRequest::Delete { path } => {
                if !is_absolute(&path) {
                    return invalid_path_step(&path);
                }
                error_step(concat4("Failed to delete ", path.as_str(), ": ", "svc://vfs offers no such operation"))
            },
            FileManagerRequest::CreateDirectory { path } => {
                if !is_absolute(&path) {
                    return invalid_path_step(&path);
                }
                error_step(
                    concat4("Failed to create directory ", path.as_str(), ": ", "svc://vfs offers no such operation"),
                )
            },
        }
    }

    /// The answer to a browse of `path`, from the VFS's answer, as
    /// `browse_reply` says.
    pub fn browse_result(&self, path: &String, vfs_reply: Result<VfsResponse, ()>) -> (r: FileManagerResponse)
        ensures
            r@ == browse_reply(
                path@,
                match vfs_reply {
                    Ok(v) => Some(v@),
                    Err(_) => None,
                },
            ),
    {
        match vfs_reply {
            Ok(VfsResponse::DirectoryEntries(entries)) => FileManagerResponse::DirectoryEntries(entries),
            Ok(VfsResponse::Error { code: _, message }) => {
                FileManagerResponse::Error(concat4("Failed to browse ", path.as_str(), ": ", message.as_str()))
            },
            _ => FileManagerResponse::Error(owned("Unexpected response from VFS during browse")),
        }
    }

    /// The next step of the copy `job`, from the VFS's answer, as
    /// `copy_next` says.
    pub fn copy_step(&self, job: CopyJob, vfs_reply: Result<VfsResponse, ()>) -> (step: FileManagerStep)
        ensures
            step@ == copy_next(
                job@,
                match vfs_reply {
                    Ok(v) => Some(v@),
                    Err(_) => None,
                },
            ),
    {
        let CopyJob { source, destination, stage } = job;
        match stage {
            CopyStage::OpenSource => match vfs_reply {
                Ok(VfsResponse::Success(n)) => {
                    if n >= 0 {
                        let fd = n as u32;
                        ask_copy_step(
                            VfsRequest::Read { fd, len: u32::MAX, offset: 0 },
                            source,
                            destination,
                            CopyStage::ReadSource { fd },
                        )
                    } else {
                        unexpected_copy_step()
                    }
                },
                Ok(VfsResponse::Error { code: _, message }) => error_step(
                    copy_failure_text(&source, &destination, &message),
                ),
                _ => unexpected_copy_step(),
            },
            CopyStage::ReadSource { fd } => match vfs_reply {
                Ok(VfsResponse::Data(data)) => ask_copy_step(
                    VfsRequest::Close { fd },
                    source,
                    destination,
                    CopyStage::CloseSource { data },
                ),
                Ok(VfsResponse::Error { code: _, message }) => {
                    let error = copy_failure_text(&source, &destination, &message);
                    ask_copy_step(VfsRequest::Close { fd }, source, destination, CopyStage::Abort { error })
                },
                _ => {
                    let error = owned("Unexpected response from VFS during copy");
                    ask_copy_step(VfsRequest::Close { fd }, source, destination, CopyStage::Abort { error })
                },
            },
            CopyStage::CloseSource { data } => match vfs_reply {
                Ok(VfsResponse::Success(_)) => {
                    let open = VfsRequest::Open { path: destination.clone(), flags: OPEN_WRITE_CREATE };
                    ask_copy_step(open, source, destination, CopyStage::OpenDestination { data })
                },
                Ok(VfsResponse::Error { code: _, message }) => error_step(
                    copy_failure_text(&source, &destination, &message),
                ),
                _ => unexpected_copy_step(),
            },
            CopyStage::OpenDestination { data } => match vfs_reply {
                Ok(VfsResponse::Success(n)) => {
                    if n >= 0 {
                        let fd = n as u32;
                        ask_copy_step(
                            VfsRequest::Write { fd, data, offset: 0 },
                            source,
                            destination,
                            CopyStage::WriteDestination { fd },
                        )
                    } else {
                        unexpected_copy_step()
                    }
                },
                Ok(VfsResponse::Error { code: _, message }) => error_step(
                    copy_failure_text(&source, &destination, &message),
                ),
                _ => unexpected_copy_step(),
            },
            CopyStage::WriteDestination { fd } => match vfs_reply {
                Ok(VfsResponse::Success(_)) => ask_copy_step(
                    VfsRequest::Close { fd },
                    source,
                    destination,
                    CopyStage::CloseDestination,
                ),
                Ok(VfsResponse::Error { code: _, message }) => {
                    let error = copy_failure_text(&source, &destination, &message);
                    ask_copy_step(VfsRequest::Close { fd }, source, destination, CopyStage::Abort { error })
                },
                _ => {
                    let error = owned("Unexpected response from VFS during copy");
                    ask_copy_step(VfsRequest::Close { fd }, source, destination, CopyStage::Abort { error })
                },
            },
            CopyStage::CloseDestination => match vfs_reply {
                Ok(VfsResponse::Success(_)) => FileManagerStep::Reply(
                    FileManagerResponse::Success(
                        concat4("Successfully copied ", source.as_str(), " to ", destination.as_str()),
                    ),
                ),
                Ok(VfsResponse::Error { code: _, message }) => error_step(
                    copy_failure_text(&source, &destination, &message),
                ),
                _ => unexpected_copy_step(),
            },
            CopyStage::Abort { error } => error_step(error),
        }
    }

    /// The next step of the pending action, from the VFS's answer to the
    /// request that went with it (`Err` where the exchange failed), as
    /// `fm_complete` says.
    pub fn complete(&self, pending: PendingAction, vfs_reply: Result<VfsResponse, ()>) -> (step: FileManagerStep)
        ensures
            step@ == fm_complete(
                pending@,
                match vfs_reply {
                    Ok(v) => Some(v@),
                    Err(_) => None,
                },
            ),
    {
        match pending {
            PendingAction::Browse { path } => FileManagerStep::Reply(self.browse_result(&path, vfs_reply)),
            PendingAction::Copy(job) => self.copy_step(job, vfs_reply),
        }
    }
}

} // verus!

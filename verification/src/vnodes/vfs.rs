//! The Virtual File System V-Node (`svc://vfs`): a table of open files and
//! the answers to file requests. Storage backends are not wired in yet: reads
//! return generated bytes and writes are acknowledged without storing data.
use vstd::prelude::*;
use vstd::utf8::encode_utf8;
use std::collections::BTreeMap;
use crate::ipc::vfs_ipc::{names_sorted_unique, name_lt, Fd, VfsMetadata, VfsRequest, VfsRequestView, VfsResponse, VfsResponseView};
use crate::ipc::vnode::VNodeChannel;
use crate::text::{concat3, decimal_digits, owned, push_decimal};

verus! {

broadcast use vstd::laws_cmp::group_laws_cmp;

/// An open file.
pub struct OpenFile {
    path: String,
    flags: u32,
    cursor: u64,
}

/// The model of an open file.
pub struct OpenFileView {
    pub path: Seq<char>,
    pub flags: u32,
    pub cursor: u64,
}

impl View for OpenFile {
    type V = OpenFileView;

    closed spec fn view(&self) -> OpenFileView {
        OpenFileView { path: self.path@, flags: self.flags, cursor: self.cursor }
    }
}

/// The model of the service: the descriptor that the next open gets, and the
/// open files by descriptor.
pub struct VfsState {
    pub next_fd: Fd,
    pub files: Map<Fd, OpenFileView>,
}

/// The descriptor table of the service.
pub struct OpenFileTable {
    next_fd: Fd,
    open_files: BTreeMap<Fd, OpenFile>,
}

impl View for OpenFileTable {
    type V = VfsState;

    closed spec fn view(&self) -> VfsState {
        VfsState { next_fd: self.next_fd, files: self.open_files@.map_values(|f: OpenFile| f@) }
    }
}

/// The VFS service.
pub struct VfsService {
    /// Requests from client V-Nodes arrive here.
    pub client_chan: VNodeChannel,
    /// Channel to the AetherFS backend.
    pub aetherfs_chan: VNodeChannel,
    /// The open files.
    pub table: OpenFileTable,
}

impl View for VfsService {
    type V = VfsState;

    open spec fn view(&self) -> VfsState {
        self.table@
    }
}

/// Descriptors are handed out from 1 up: every open descriptor is at least 1
/// and was handed out before the next one.
pub open spec fn vfs_state_wf(s: VfsState) -> bool {
    &&& 1 <= s.next_fd
    &&& forall|fd: Fd| #[trigger] s.files.contains_key(fd) ==> 1 <= fd < s.next_fd
}

/// The answer to a request on a descriptor that is not open.
pub open spec fn bad_fd_reply() -> VfsResponseView {
    VfsResponseView::Error { code: 9, message: "Bad file descriptor"@ }
}

/// The bytes that a read of the file at `path` from `offset` returns: the
/// text "dummy_data_from_file_{path}_at_offset_{offset}" in UTF-8.
pub open spec fn read_data(path: Seq<char>, offset: u64) -> Seq<u8> {
    encode_utf8("dummy_data_from_file_"@ + path + "_at_offset_"@) + decimal_digits(offset as nat)
}

/// The bytes that a read of at most `len` bytes of the file at `path` from
/// `offset` returns: the first `len` bytes of `read_data(path, offset)`, or
/// all of them where there are fewer.
pub open spec fn read_reply_bytes(path: Seq<char>, offset: u64, len: u32) -> Seq<u8> {
    let d = read_data(path, offset);
    if (len as int) < d.len() { d.take(len as int) } else { d }
}

/// Metadata of the listed file.
pub open spec fn listed_file_meta() -> VfsMetadata {
    VfsMetadata { is_dir: false, size: 100, created: 0, modified: 0, permissions: 0o644 }
}

/// Metadata of the listed directory.
pub open spec fn listed_dir_meta() -> VfsMetadata {
    VfsMetadata { is_dir: true, size: 0, created: 0, modified: 0, permissions: 0o755 }
}

/// The listing that every directory has.
pub open spec fn listing() -> Seq<(Seq<char>, VfsMetadata)> {
    seq![("file1.txt"@, listed_file_meta()), ("subdir/"@, listed_dir_meta())]
}

/// The metadata that every path has.
pub open spec fn stat_meta() -> VfsMetadata {
    VfsMetadata { is_dir: false, size: 512, created: 0, modified: 0, permissions: 0o644 }
}

/// The requests that the service can answer in state `s`: an open needs a
/// descriptor left to hand out, and a read or write on an open file needs
/// its new cursor to fit in `u64`.
pub open spec fn vfs_accepts(s: VfsState, req: VfsRequestView) -> bool {
    match req {
        VfsRequestView::Open { .. } => s.next_fd < u32::MAX,
        VfsRequestView::Read { fd, len, offset } => s.files.contains_key(fd) ==> offset + read_reply_bytes(
            s.files[fd].path,
            offset,
            len,
        ).len() <= u64::MAX,
        VfsRequestView::Write { fd, data, offset } => s.files.contains_key(fd) ==> offset + data.len() <= u64::MAX,
        _ => true,
    }
}

/// The state after the service answers `req` in state `s`.
pub open spec fn vfs_next(s: VfsState, req: VfsRequestView) -> VfsState {
    match req {
        VfsRequestView::Open { path, flags } => VfsState {
            next_fd: (s.next_fd + 1) as u32,
            files: s.files.insert(s.next_fd, OpenFileView { path, flags, cursor: 0 }),
        },
        VfsRequestView::Read { fd, len, offset } => if s.files.contains_key(fd) {
            VfsState {
                files: s.files.insert(
                    fd,
                    OpenFileView {
                        cursor: (offset + read_reply_bytes(s.files[fd].path, offset, len).len()) as u64,
                        ..s.files[fd]
                    },
                ),
                ..s
            }
        } else {
            s
        },
        VfsRequestView::Write { fd, data, offset } => if s.files.contains_key(fd) {
            VfsState {
                files: s.files.insert(fd, OpenFileView { cursor: (offset + data.len()) as u64, ..s.files[fd] }),
                ..s
            }
        } else {
            s
        },
        VfsRequestView::Close { fd } => VfsState { files: s.files.remove(fd), ..s },
        _ => s,
    }
}

/// The service's answer to `req` in state `s`.
pub open spec fn vfs_reply(s: VfsState, req: VfsRequestView) -> VfsResponseView {
    match req {
        VfsRequestView::Open { .. } => VfsResponseView::Success(s.next_fd as i32),
        VfsRequestView::Read { fd, len, offset } => if s.files.contains_key(fd) {
            VfsResponseView::Data(read_reply_bytes(s.files[fd].path, offset, len))
        } else {
            bad_fd_reply()
        },
        VfsRequestView::Write { fd, data, .. } => if s.files.contains_key(fd) {
            VfsResponseView::Success((data.len() as usize) as i32)
        } else {
            bad_fd_reply()
        },
        VfsRequestView::List { .. } => VfsResponseView::DirectoryEntries(listing()),
        VfsRequestView::Stat { .. } => VfsResponseView::Metadata(stat_meta()),
        VfsRequestView::Close { fd } => if s.files.contains_key(fd) {
            VfsResponseView::Success(0)
        } else {
            bad_fd_reply()
        },
    }
}


/// The state after the service answers `reqs` in turn, from state `s`.
pub open spec fn vfs_run(s: VfsState, reqs: Seq<VfsRequestView>) -> VfsState
    decreases reqs.len(),
{
    if reqs.len() == 0 {
        s
    } else {
        vfs_next(vfs_run(s, reqs.drop_last()), reqs.last())
    }
}

/// The number of opens among `reqs`.
pub open spec fn open_count(reqs: Seq<VfsRequestView>) -> nat
    decreases reqs.len(),
{
    if reqs.len() == 0 {
        0
    } else {
        open_count(reqs.drop_last()) + if reqs.last() is Open { 1nat } else { 0nat }
    }
}

/// Law: every request keeps every open descriptor below the next one.
pub proof fn law_vfs_keeps_descriptors_below_next(s: VfsState, req: VfsRequestView)
    requires
        vfs_state_wf(s),
        vfs_accepts(s, req),
    ensures
        vfs_state_wf(vfs_next(s, req)),
{
}

/// Law: an open hands out a descriptor that no open file has, and that file
/// is then open at cursor 0.
pub proof fn law_open_hands_out_fresh_descriptor(s: VfsState, path: Seq<char>, flags: u32)
    requires
        vfs_state_wf(s),
        s.next_fd < u32::MAX,
    ensures
        !s.files.contains_key(s.next_fd),
        vfs_reply(s, VfsRequestView::Open { path, flags }) == VfsResponseView::Success(s.next_fd as i32),
        vfs_next(s, VfsRequestView::Open { path, flags }).files.contains_key(s.next_fd),
        vfs_next(s, VfsRequestView::Open { path, flags }).files[s.next_fd] == (OpenFileView { path, flags, cursor: 0 }),
{
}

/// Law: closing the descriptor that an open handed out succeeds and leaves
/// the same files open as before the open.
pub proof fn law_open_then_close(s: VfsState, path: Seq<char>, flags: u32)
    requires
        vfs_state_wf(s),
        s.next_fd < u32::MAX,
    ensures
        ({
            let s1 = vfs_next(s, VfsRequestView::Open { path, flags });
            let close = VfsRequestView::Close { fd: s.next_fd };
            &&& vfs_reply(s1, close) == VfsResponseView::Success(0)
            &&& vfs_next(s1, close).files == s.files
        }),
{
    let s1 = vfs_next(s, VfsRequestView::Open { path, flags });
    assert(s1.files.remove(s.next_fd) =~= s.files);
}

/// Law: once a descriptor is closed, reads, writes and closes on it are
/// answered "Bad file descriptor" and change nothing.
pub proof fn law_closed_descriptor_is_refused(s: VfsState, fd: Fd, len: u32, data: Seq<u8>, offset: u64)
    ensures
        ({
            let s1 = vfs_next(s, VfsRequestView::Close { fd });
            &&& vfs_reply(s1, VfsRequestView::Read { fd, len, offset }) == bad_fd_reply()
            &&& vfs_next(s1, VfsRequestView::Read { fd, len, offset }) == s1
            &&& vfs_reply(s1, VfsRequestView::Write { fd, data, offset }) == bad_fd_reply()
            &&& vfs_next(s1, VfsRequestView::Write { fd, data, offset }) == s1
            &&& vfs_reply(s1, VfsRequestView::Close { fd }) == bad_fd_reply()
            &&& vfs_next(s1, VfsRequestView::Close { fd }).files == s1.files
        }),
{
    let s1 = vfs_next(s, VfsRequestView::Close { fd });
    assert(s1.files.remove(fd) =~= s1.files);
}

/// Law: reads and writes move only the cursor of their own file; the set of
/// open descriptors, each file's path and flags, and the next descriptor stay.
pub proof fn law_io_moves_only_the_cursor(s: VfsState, req: VfsRequestView, other: Fd)
    requires
        req is Read || req is Write,
    ensures
        vfs_next(s, req).next_fd == s.next_fd,
        vfs_next(s, req).files.dom() == s.files.dom(),
        s.files.contains_key(other) ==> vfs_next(s, req).files[other].path == s.files[other].path
            && vfs_next(s, req).files[other].flags == s.files[other].flags,
{
    match req {
        VfsRequestView::Read { fd, .. } => {
            if s.files.contains_key(fd) {
                assert(vfs_next(s, req).files.dom() =~= s.files.dom());
            }
        },
        VfsRequestView::Write { fd, .. } => {
            if s.files.contains_key(fd) {
                assert(vfs_next(s, req).files.dom() =~= s.files.dom());
            }
        },
        _ => {},
    }
}

/// Law: listing and stat requests change nothing.
pub proof fn law_queries_change_nothing(s: VfsState, path: Seq<char>)
    ensures
        vfs_next(s, VfsRequestView::List { path }) == s,
        vfs_next(s, VfsRequestView::Stat { path }) == s,
{
}

/// Law: a write on an open descriptor is acknowledged with the number of
/// bytes written, whatever the offset, and moves that file's cursor to just
/// past them; the file's path and flags, the other files and the next
/// descriptor stay as they were.
pub proof fn law_write_acknowledges_length(s: VfsState, fd: Fd, data: Seq<u8>, offset: u64, other: Fd)
    requires
        s.files.contains_key(fd),
        offset + data.len() <= u64::MAX,
    ensures
        ({
            let req = VfsRequestView::Write { fd, data, offset };
            let t = vfs_next(s, req);
            &&& vfs_reply(s, req) == VfsResponseView::Success((data.len() as usize) as i32)
            &&& t.files.contains_key(fd)
            &&& t.files[fd].cursor == offset + data.len()
            &&& t.files[fd].path == s.files[fd].path
            &&& t.files[fd].flags == s.files[fd].flags
            &&& t.next_fd == s.next_fd
            &&& other != fd ==> t.files.contains_key(other) == s.files.contains_key(other)
            &&& other != fd && s.files.contains_key(other) ==> t.files[other] == s.files[other]
        }),
{
}

/// Law: a read on an open descriptor returns the first bytes of the file's
/// text for that offset ("dummy_data_from_file_{path}_at_offset_{offset}"),
/// as many as `len` allows: all of them where `len` reaches, exactly `len`
/// otherwise; the file's cursor moves to `offset` plus the bytes returned.
pub proof fn law_read_returns_at_most_len(s: VfsState, fd: Fd, len: u32, offset: u64)
    requires
        s.files.contains_key(fd),
    ensures
        ({
            let req = VfsRequestView::Read { fd, len, offset };
            let text = encode_utf8("dummy_data_from_file_"@ + s.files[fd].path + "_at_offset_"@)
                + decimal_digits(offset as nat);
            match vfs_reply(s, req) {
                VfsResponseView::Data(d) => {
                    &&& d.len() <= len
                    &&& d.len() <= text.len()
                    &&& (d.len() == len || d.len() == text.len())
                    &&& d == text.take(d.len() as int)
                    &&& vfs_next(s, req).files[fd].cursor == (offset + d.len()) as u64
                    &&& vfs_next(s, req).files[fd].path == s.files[fd].path
                },
                _ => false,
            }
        }),
{
    let d = read_reply_bytes(s.files[fd].path, offset, len);
    let text = read_data(s.files[fd].path, offset);
    if !((len as int) < text.len()) {
        assert(text.take(text.len() as int) =~= text);
    }
}

/// Law: a request on a descriptor that is not open is answered "Bad file
/// descriptor" (code 9) and leaves the open files as they were.
pub proof fn law_unknown_descriptor_refused(s: VfsState, req: VfsRequestView)
    requires
        match req {
            VfsRequestView::Read { fd, .. } => !s.files.contains_key(fd),
            VfsRequestView::Write { fd, .. } => !s.files.contains_key(fd),
            VfsRequestView::Close { fd } => !s.files.contains_key(fd),
            _ => false,
        },
    ensures
        vfs_reply(s, req) == (VfsResponseView::Error { code: 9, message: "Bad file descriptor"@ }),
        vfs_next(s, req).files == s.files,
        vfs_next(s, req).next_fd == s.next_fd,
{
    if let VfsRequestView::Close { fd } = req {
        assert(s.files.remove(fd) =~= s.files);
    }
}

/// Law: listing any directory answers the same two entries, a file
/// "file1.txt" of 100 bytes and a directory "subdir/"; stat on any path
/// answers a 512-byte file with permissions 0o644.
pub proof fn law_list_and_stat_answers(s: VfsState, path: Seq<char>)
    ensures
        match vfs_reply(s, VfsRequestView::List { path }) {
            VfsResponseView::DirectoryEntries(e) => {
                &&& e.len() == 2
                &&& e[0].0 == "file1.txt"@ && !e[0].1.is_dir && e[0].1.size == 100
                &&& e[1].0 == "subdir/"@ && e[1].1.is_dir && e[1].1.size == 0
            },
            _ => false,
        },
        vfs_reply(s, VfsRequestView::Stat { path }) == VfsResponseView::Metadata(
            VfsMetadata { is_dir: false, size: 512, created: 0, modified: 0, permissions: 0o644 },
        ),
{
}

/// Law: every listing that the service answers is sorted by name, each name
/// once, as the map it stands for.
pub proof fn law_listings_sorted_unique(s: VfsState, req: VfsRequestView)
    ensures
        vfs_reply(s, req) matches VfsResponseView::DirectoryEntries(e) ==> names_sorted_unique(e),
{
    reveal_strlit("file1.txt");
    reveal_strlit("subdir/");
    let e = listing();
    assert(e[0].0[0] == 'f');
    assert(e[1].0[0] == 's');
    assert(name_lt(e[0].0, e[1].0));
}

/// The runs whose opens all find a descriptor to hand out: the service
/// refuses an open only when the next descriptor is `u32::MAX`.
pub open spec fn opens_fit(s: VfsState, reqs: Seq<VfsRequestView>) -> bool {
    s.next_fd + open_count(reqs) <= u32::MAX
}

/// Law: over any run of requests whose opens fit, descriptors stay in
/// 1..next, and the next descriptor grows by exactly one per open and is left
/// alone by every other request.
pub proof fn law_run_counts_opens(s: VfsState, reqs: Seq<VfsRequestView>)
    requires
        vfs_state_wf(s),
        opens_fit(s, reqs),
    ensures
        vfs_state_wf(vfs_run(s, reqs)),
        vfs_run(s, reqs).next_fd == s.next_fd + open_count(reqs),
    decreases reqs.len(),
{
    if reqs.len() > 0 {
        law_run_counts_opens(s, reqs.drop_last());
        let prev = vfs_run(s, reqs.drop_last());
        let req = reqs.last();
        match req {
            VfsRequestView::Read { fd, .. } => {
                if prev.files.contains_key(fd) {
                    assert forall|k: Fd| #[trigger] vfs_next(prev, req).files.contains_key(k) implies 1 <= k < prev.next_fd by {
                        assert(prev.files.contains_key(k));
                    }
                }
            },
            VfsRequestView::Write { fd, .. } => {
                if prev.files.contains_key(fd) {
                    assert forall|k: Fd| #[trigger] vfs_next(prev, req).files.contains_key(k) implies 1 <= k < prev.next_fd by {
                        assert(prev.files.contains_key(k));
                    }
                }
            },
            _ => {},
        }
    }
}

/// A prefix has no more opens than a longer prefix.
proof fn lemma_open_count_prefix(reqs: Seq<VfsRequestView>, i: int, j: int)
    requires
        0 <= i <= j <= reqs.len(),
    ensures
        open_count(reqs.take(i)) <= open_count(reqs.take(j)),
    decreases j - i,
{
    if i < j {
        lemma_open_count_prefix(reqs, i, j - 1);
        assert(reqs.take(j).drop_last() =~= reqs.take(j - 1));
    }
}

/// Running a prefix one request longer is one more step.
proof fn lemma_run_prefix_step(s: VfsState, reqs: Seq<VfsRequestView>, i: int)
    requires
        0 <= i < reqs.len(),
    ensures
        vfs_run(s, reqs.take(i + 1)) == vfs_next(vfs_run(s, reqs.take(i)), reqs[i]),
        open_count(reqs.take(i + 1)) == open_count(reqs.take(i)) + if reqs[i] is Open { 1nat } else { 0nat },
{
    assert(reqs.take(i + 1).drop_last() =~= reqs.take(i));
}

/// The opens of a prefix fit where those of the whole run do.
proof fn lemma_opens_fit_prefix(s: VfsState, reqs: Seq<VfsRequestView>, i: int)
    requires
        0 <= i <= reqs.len(),
        opens_fit(s, reqs),
    ensures
        opens_fit(s, reqs.take(i)),
{
    lemma_open_count_prefix(reqs, i, reqs.len() as int);
    assert(reqs.take(reqs.len() as int) =~= reqs);
}

/// Law: in a run whose opens fit, the opens are answered with consecutive
/// descriptors: the open at position `i` gets the first descriptor plus the
/// number of opens before it (from a new service: 1, 2, 3, ...), so two
/// opens never get the same descriptor.
pub proof fn law_opens_hand_out_distinct_descriptors(s: VfsState, reqs: Seq<VfsRequestView>, i: int, j: int)
    requires
        vfs_state_wf(s),
        opens_fit(s, reqs),
        0 <= i < j < reqs.len(),
        reqs[i] is Open,
        reqs[j] is Open,
    ensures
        vfs_reply(vfs_run(s, reqs.take(i)), reqs[i]) == VfsResponseView::Success(
            (s.next_fd + open_count(reqs.take(i))) as i32,
        ),
        vfs_run(s, reqs.take(i)).next_fd < vfs_run(s, reqs.take(j)).next_fd,
{
    lemma_opens_fit_prefix(s, reqs, i);
    lemma_opens_fit_prefix(s, reqs, j);
    law_run_counts_opens(s, reqs.take(i));
    law_run_counts_opens(s, reqs.take(j));
    lemma_run_prefix_step(s, reqs, i);
    lemma_open_count_prefix(reqs, i + 1, j);
}

/// Law: a descriptor that is not open and was handed out before stays
/// closed over any run whose opens fit: no later open hands it out again,
/// and reads, writes and closes on it are answered "Bad file descriptor".
pub proof fn law_closed_descriptor_stays_closed(
    s: VfsState,
    reqs: Seq<VfsRequestView>,
    fd: Fd,
    len: u32,
    data: Seq<u8>,
    offset: u64,
)
    requires
        vfs_state_wf(s),
        opens_fit(s, reqs),
        fd < s.next_fd,
        !s.files.contains_key(fd),
    ensures
        !vfs_run(s, reqs).files.contains_key(fd),
        vfs_reply(vfs_run(s, reqs), VfsRequestView::Read { fd, len, offset }) == bad_fd_reply(),
        vfs_reply(vfs_run(s, reqs), VfsRequestView::Write { fd, data, offset }) == bad_fd_reply(),
        vfs_reply(vfs_run(s, reqs), VfsRequestView::Close { fd }) == bad_fd_reply(),
    decreases reqs.len(),
{
    if reqs.len() > 0 {
        law_closed_descriptor_stays_closed(s, reqs.drop_last(), fd, len, data, offset);
        law_run_counts_opens(s, reqs.drop_last());
    }
}

/// Law: a descriptor that is open stays open, with its path and flags, over
/// any run whose opens fit and that does not close it, so a close then
/// succeeds.
pub proof fn law_open_descriptor_stays_open(s: VfsState, reqs: Seq<VfsRequestView>, fd: Fd)
    requires
        vfs_state_wf(s),
        opens_fit(s, reqs),
        s.files.contains_key(fd),
        forall|k: int| 0 <= k < reqs.len() ==> reqs[k] != (VfsRequestView::Close { fd }),
    ensures
        vfs_run(s, reqs).files.contains_key(fd),
        vfs_run(s, reqs).files[fd].path == s.files[fd].path,
        vfs_run(s, reqs).files[fd].flags == s.files[fd].flags,
        vfs_reply(vfs_run(s, reqs), VfsRequestView::Close { fd }) == VfsResponseView::Success(0),
    decreases reqs.len(),
{
    if reqs.len() > 0 {
        let prefix = reqs.drop_last();
        assert forall|k: int| 0 <= k < prefix.len() implies prefix[k] != (VfsRequestView::Close { fd }) by {
            assert(prefix[k] == reqs[k]);
        }
        law_open_descriptor_stays_open(s, prefix, fd);
        law_run_counts_opens(s, prefix);
        assert(reqs.last() == reqs[reqs.len() - 1]);
    }
}

/// Law: the descriptor that an open hands out stays open until a close names
/// it; that close succeeds and removes only it; afterwards, over any run
/// whose opens fit, reads, writes and closes on it are refused and no open
/// hands it out again.
pub proof fn law_open_close_round_trip(
    s: VfsState,
    path: Seq<char>,
    flags: u32,
    between: Seq<VfsRequestView>,
    after: Seq<VfsRequestView>,
    len: u32,
    data: Seq<u8>,
    offset: u64,
)
    requires
        vfs_state_wf(s),
        s.next_fd < u32::MAX,
        opens_fit(vfs_next(s, VfsRequestView::Open { path, flags }), between),
        forall|k: int| 0 <= k < between.len() ==> between[k] != (VfsRequestView::Close { fd: s.next_fd }),
    ensures
        ({
            let fd = s.next_fd;
            let s1 = vfs_next(s, VfsRequestView::Open { path, flags });
            let s2 = vfs_run(s1, between);
            let s3 = vfs_next(s2, VfsRequestView::Close { fd });
            &&& vfs_reply(s, VfsRequestView::Open { path, flags }) == VfsResponseView::Success(fd as i32)
            &&& vfs_reply(s2, VfsRequestView::Close { fd }) == VfsResponseView::Success(0)
            &&& s3.files == s2.files.remove(fd)
            &&& opens_fit(s3, after) ==> {
                &&& !vfs_run(s3, after).files.contains_key(fd)
                &&& vfs_reply(vfs_run(s3, after), VfsRequestView::Read { fd, len, offset }) == bad_fd_reply()
                &&& vfs_reply(vfs_run(s3, after), VfsRequestView::Write { fd, data, offset }) == bad_fd_reply()
                &&& vfs_reply(vfs_run(s3, after), VfsRequestView::Close { fd }) == bad_fd_reply()
            }
        }),
{
    let fd = s.next_fd;
    let s1 = vfs_next(s, VfsRequestView::Open { path, flags });
    law_vfs_keeps_descriptors_below_next(s, VfsRequestView::Open { path, flags });
    law_open_descriptor_stays_open(s1, between, fd);
    law_run_counts_opens(s1, between);
    let s2 = vfs_run(s1, between);
    let s3 = vfs_next(s2, VfsRequestView::Close { fd });
    assert forall|k: Fd| #[trigger] s3.files.contains_key(k) implies 1 <= k < s3.next_fd by {
        assert(s2.files.contains_key(k));
    }
    if opens_fit(s3, after) {
        law_closed_descriptor_stays_closed(s3, after, fd, len, data, offset);
    }
}

/// The bytes of a read of at most `len` bytes of the file at `path` from
/// `offset`.
fn read_payload(path: &String, offset: u64, len: u32) -> (v: Vec<u8>)
    ensures
        v@ == read_reply_bytes(path@, offset, len),
{
    let text = concat3("dummy_data_from_file_", path.as_str(), "_at_offset_");
    let mut v = vstd::slice::slice_to_vec(text.as_str().as_bytes());
    push_decimal(&mut v, offset);
    assert(v@ == read_data(path@, offset));
    if (len as usize) < v.len() {
        v.truncate(len as usize);
    }
    v
}

fn bad_fd() -> (r: VfsResponse)
    ensures
        r@ == bad_fd_reply(),
{
    VfsResponse::Error { code: 9, message: owned("Bad file descriptor") }
}

impl VfsService {
    /// The model of the service is well formed.
    pub open spec fn wf(&self) -> bool {
        vfs_state_wf(self@)
    }

    /// A service that takes client requests on channel `client_chan_id` and
    /// reaches its backend on `aetherfs_chan_id`, with no file open; the first
    /// descriptor it hands out is 1.
    pub fn new(client_chan_id: u32, aetherfs_chan_id: u32) -> (s: Self)
        ensures
            s.wf(),
            s.client_chan.channel() == client_chan_id,
            s.aetherfs_chan.channel() == aetherfs_chan_id,
            s.client_chan.wf(),
            s.aetherfs_chan.wf(),
            s@.next_fd == 1,
            s@.files == Map::<Fd, OpenFileView>::empty(),
    {
        let client_chan = VNodeChannel::new(client_chan_id);
        let aetherfs_chan = VNodeChannel::new(aetherfs_chan_id);
        let s = VfsService { client_chan, aetherfs_chan, table: OpenFileTable { next_fd: 1, open_files: BTreeMap::new() } };
        assert(s@.files =~= Map::<Fd, OpenFileView>::empty());
        s
    }

    /// Whether the service can answer `request` now (see `vfs_accepts`).
    pub fn accepts(&self, request: &VfsRequest) -> (r: bool)
        ensures
            r == vfs_accepts(self@, request@),
    {
        match request {
            VfsRequest::Open { .. } => self.table.next_fd < u32::MAX,
            VfsRequest::Read { fd, len, offset } => match self.table.open_files.get(fd) {
                Some(file) => {
                    let data = read_payload(&file.path, *offset, *len);
                    data.len() as u64 <= u64::MAX - *offset
                },
                None => true,
            },
            VfsRequest::Write { fd, data, offset } => match self.table.open_files.get(fd) {
                Some(_) => data.len() as u64 <= u64::MAX - *offset,
                None => true,
            },
            _ => true,
        }
    }

    /// Answers one request, as `vfs_reply` says, and updates the open files
    /// as `vfs_next` says.
    pub fn handle_request(&mut self, request: VfsRequest) -> (r: VfsResponse)
        requires
            old(self).wf(),
            vfs_accepts(old(self)@, request@),
        ensures
            final(self).wf(),
            final(self)@ == vfs_next(old(self)@, request@),
            r@ == vfs_reply(old(self)@, request@),
            final(self).client_chan == old(self).client_chan,
            final(self).aetherfs_chan == old(self).aetherfs_chan,
    {
        let ghost s = self@;
        match request {
            VfsRequest::Open { path, flags } => {
                let fd = self.table.next_fd;
                self.table.next_fd = self.table.next_fd + 1;
                let file = OpenFile { path, flags, cursor: 0 };
                self.table.open_files.insert(fd, file);
                assert(self@.files =~= s.files.insert(fd, file@));
                VfsResponse::Success(fd as i32)
            },
            VfsRequest::Read { fd, len, offset } => {
                match self.table.open_files.remove(&fd) {
                    Some(file) => {
                        let data = read_payload(&file.path, offset, len);
                        let updated = OpenFile { path: file.path, flags: file.flags, cursor: offset + data.len() as u64 };
                        self.table.open_files.insert(fd, updated);
                        assert(self@.files =~= vfs_next(s, request@).files);
                        VfsResponse::Data(data)
                    },
                    None => {
                        assert(self@.files =~= s.files);
                        bad_fd()
                    },
                }
            },
            VfsRequest::Write { fd, data, offset } => {
                match self.table.open_files.remove(&fd) {
                    Some(file) => {
                        let updated = OpenFile { path: file.path, flags: file.flags, cursor: offset + data.len() as u64 };
                        self.table.open_files.insert(fd, updated);
                        assert(self@.files =~= vfs_next(s, request@).files);
                        VfsResponse::Success(data.len() as i32)
                    },
                    None => {
                        assert(self@.files =~= s.files);
                        bad_fd()
                    },
                }
            },
            VfsRequest::List { path: _ } => {
                let file_meta = VfsMetadata { is_dir: false, size: 100, created: 0, modified: 0, permissions: 0o644 };
                let dir_meta = VfsMetadata { is_dir: true, size: 0, created: 0, modified: 0, permissions: 0o755 };
                let mut entries: Vec<(String, VfsMetadata)> = Vec::new();
                entries.push((owned("file1.txt"), file_meta));
                entries.push((owned("subdir/"), dir_meta));
                let r = VfsResponse::DirectoryEntries(entries);
                assert(r@ == vfs_reply(s, request@)) by {
                    assert(crate::ipc::vfs_ipc::entries_view(entries@) =~= listing());
                }
                r
            },
            VfsRequest::Stat { path: _ } => {
                VfsResponse::Metadata(VfsMetadata { is_dir: false, size: 512, created: 0, modified: 0, permissions: 0o644 })
            },
            VfsRequest::Close { fd } => {
                match self.table.open_files.remove(&fd) {
                    Some(_) => {
                        assert(self@.files =~= s.files.remove(fd));
                        VfsResponse::Success(0)
                    },
                    None => {
                        assert(self@.files =~= s.files.remove(fd));
                        bad_fd()
                    },
                }
            },
        }
    }
}

} // verus!

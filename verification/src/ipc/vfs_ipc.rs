//! Messages between clients and the VFS V-Node (`svc://vfs`).
use vstd::prelude::*;

verus! {

/// An open file or directory managed by the VFS service.
pub type Fd = u32;

/// Metadata of a file or directory.
#[derive(Debug, Clone, Copy, PartialEq, Eq, Structural)]
pub struct VfsMetadata {
    pub is_dir: bool,
    pub size: u64,
    /// Unix timestamp.
    pub created: u64,
    /// Unix timestamp.
    pub modified: u64,
    /// Permission bits, e.g. 0o755.
    pub permissions: u32,
}

/// A request to the VFS service.
#[derive(Debug)]
pub enum VfsRequest {
    /// Open a file or directory.
    Open { path: String, flags: u32 },
    /// Read bytes from an open descriptor.
    Read { fd: Fd, len: u32, offset: u64 },
    /// Write bytes to an open descriptor.
    Write { fd: Fd, data: Vec<u8>, offset: u64 },
    /// List directory entries at a path.
    List { path: String },
    /// Get metadata for a path.
    Stat { path: String },
    /// Close an open descriptor.
    Close { fd: Fd },
}

/// The VFS service's answer.
#[derive(Debug)]
pub enum VfsResponse {
    /// Generic success (the fd for Open, a count or 0 for the others).
    Success(i32),
    /// Read result payload.
    Data(Vec<u8>),
    /// Metadata result payload.
    Metadata(VfsMetadata),
    /// Directory listing, sorted by name, each name once.
    DirectoryEntries(Vec<(String, VfsMetadata)>),
    /// Standardized error payload.
    Error { code: i32, message: String },
}

/// The model of a request: strings as character sequences, payloads as byte sequences.
pub enum VfsRequestView {
    Open { path: Seq<char>, flags: u32 },
    Read { fd: Fd, len: u32, offset: u64 },
    Write { fd: Fd, data: Seq<u8>, offset: u64 },
    List { path: Seq<char> },
    Stat { path: Seq<char> },
    Close { fd: Fd },
}

/// The model of an answer.
pub enum VfsResponseView {
    Success(i32),
    Data(Seq<u8>),
    Metadata(VfsMetadata),
    DirectoryEntries(Seq<(Seq<char>, VfsMetadata)>),
    Error { code: i32, message: Seq<char> },
}

impl View for VfsRequest {
    type V = VfsRequestView;

    open spec fn view(&self) -> VfsRequestView {
        match self {
            VfsRequest::Open { path, flags } => VfsRequestView::Open { path: path@, flags: *flags },
            VfsRequest::Read { fd, len, offset } => VfsRequestView::Read { fd: *fd, len: *len, offset: *offset },
            VfsRequest::Write { fd, data, offset } => VfsRequestView::Write { fd: *fd, data: data@, offset: *offset },
            VfsRequest::List { path } => VfsRequestView::List { path: path@ },
            VfsRequest::Stat { path } => VfsRequestView::Stat { path: path@ },
            VfsRequest::Close { fd } => VfsRequestView::Close { fd: *fd },
        }
    }
}

/// Whether name `a` comes strictly before name `b` in the order of Rust's
/// strings: character by character by code point, a proper prefix first.
pub open spec fn name_lt(a: Seq<char>, b: Seq<char>) -> bool
    decreases a.len(),
{
    if b.len() == 0 {
        false
    } else if a.len() == 0 {
        true
    } else if a[0] != b[0] {
        (a[0] as u32) < (b[0] as u32)
    } else {
        name_lt(a.drop_first(), b.drop_first())
    }
}

/// A listing as the map of names to metadata that it stands for: sorted by
/// name, each name once.
pub open spec fn names_sorted_unique(entries: Seq<(Seq<char>, VfsMetadata)>) -> bool {
    forall|i: int, j: int|
        #![trigger entries[i], entries[j]]
        0 <= i < j < entries.len() ==> name_lt(entries[i].0, entries[j].0)
}

/// The model of a directory listing.
pub open spec fn entries_view(entries: Seq<(String, VfsMetadata)>) -> Seq<(Seq<char>, VfsMetadata)> {
    entries.map_values(|e: (String, VfsMetadata)| (e.0@, e.1))
}

impl View for VfsResponse {
    type V = VfsResponseView;

    open spec fn view(&self) -> VfsResponseView {
        match self {
            VfsResponse::Success(n) => VfsResponseView::Success(*n),
            VfsResponse::Data(d) => VfsResponseView::Data(d@),
            VfsResponse::Metadata(m) => VfsResponseView::Metadata(*m),
            VfsResponse::DirectoryEntries(e) => VfsResponseView::DirectoryEntries(entries_view(e@)),
            VfsResponse::Error { code, message } => VfsResponseView::Error { code: *code, message: message@ },
        }
    }
}

} // verus!

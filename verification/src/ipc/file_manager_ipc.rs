//! Messages between clients and the file-manager V-Node (`svc://file-manager`).
use vstd::prelude::*;
use crate::ipc::vfs_ipc::{entries_view, VfsMetadata};

verus! {

/// A request to the file manager.
#[derive(Debug)]
pub enum FileManagerRequest {
    /// Browse the contents of a directory.
    Browse { path: String },
    /// Copy a file or directory.
    Copy { source: String, destination: String },
    /// Move a file or directory.
    Move { source: String, destination: String },
    /// Delete a file or directory.
    Delete { path: String },
    /// Create a new directory.
    CreateDirectory { path: String },
}

/// The file manager's answer.
#[derive(Debug)]
pub enum FileManagerResponse {
    /// A successful operation, with a descriptive message.
    Success(String),
    /// A failed operation, with a descriptive message.
    Error(String),
    /// Directory entries (name, metadata), sorted by name.
    DirectoryEntries(Vec<(String, VfsMetadata)>),
}

/// The model of a request.
pub enum FileManagerRequestView {
    Browse { path: Seq<char> },
    Copy { source: Seq<char>, destination: Seq<char> },
    Move { source: Seq<char>, destination: Seq<char> },
    Delete { path: Seq<char> },
    CreateDirectory { path: Seq<char> },
}

/// The model of an answer.
pub enum FileManagerResponseView {
    Success(Seq<char>),
    Error(Seq<char>),
    DirectoryEntries(Seq<(Seq<char>, VfsMetadata)>),
}

impl View for FileManagerRequest {
    type V = FileManagerRequestView;

    open spec fn view(&self) -> FileManagerRequestView {
        match self {
            FileManagerRequest::Browse { path } => FileManagerRequestView::Browse { path: path@ },
            FileManagerRequest::Copy { source, destination } => FileManagerRequestView::Copy {
                source: source@,
                destination: destination@,
            },
            FileManagerRequest::Move { source, destination } => FileManagerRequestView::Move {
                source: source@,
                destination: destination@,
            },
            FileManagerRequest::Delete { path } => FileManagerRequestView::Delete { path: path@ },
            FileManagerRequest::CreateDirectory { path } => FileManagerRequestView::CreateDirectory { path: path@ },
        }
    }
}

impl View for FileManagerResponse {
    type V = FileManagerResponseView;

    open spec fn view(&self) -> FileManagerResponseView {
        match self {
            FileManagerResponse::Success(s) => FileManagerResponseView::Success(s@),
            FileManagerResponse::Error(s) => FileManagerResponseView::Error(s@),
            FileManagerResponse::DirectoryEntries(e) => FileManagerResponseView::DirectoryEntries(entries_view(e@)),
        }
    }
}

} // verus!

use vstd::prelude::*;

verus! {

/// The filesystem operation in whose course an error arose.
#[derive(Clone, Copy, PartialEq, Eq, Structural, Debug)]
pub enum FsOperation {
    /// Relocating an object to a new path.
    Rename,
    /// Querying an object's metadata (its size).
    Metadata,
    /// Creating a new regular file.
    CreateFile,
    /// Writing a buffer into a freshly created file.
    WriteFile,
    /// Creating a symbolic link.
    CreateSymlink,
    /// Removing a file or a directory tree.
    Remove,
}

/// The single error kind of this library: every failure identifies the
/// filesystem operation that triggered it and the path it was aimed at.
pub struct IOError {
    /// Which operation failed.
    pub op: FsOperation,
    /// The path the failed operation was aimed at.
    pub path: String,
}

impl IOError {
    /// Build an error for a failed operation on a path.
    pub fn new(op: FsOperation, path: String) -> (e: IOError)
        ensures
            e.op == op,
            e.path == path,
    {
        IOError { op, path }
    }
}

} // verus!

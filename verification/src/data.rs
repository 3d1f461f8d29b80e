use vstd::prelude::*;

use crate::error::{FsOperation, IOError};

verus! {

/// The one filesystem effect that materializing a unit of data asks of its
/// caller: the caller performs it against the local disk.
pub enum MapAction {
    /// Create a new regular file at `path` and write exactly `contents` into
    /// it — an O(size) copy, unavoidable because no filesystem object exists
    /// yet for memory-backed data.
    WriteFile { path: String, contents: Vec<u8> },
    /// Create a symbolic link at `link_path` pointing at `target` — an O(1)
    /// zero-copy reference, whatever the data's size.
    CreateSymlink { link_path: String, target: String },
}

/// The one filesystem effect that releasing an owning, path-backed handle
/// asks of its caller; the removal must tolerate an already-absent path.
pub enum ReleaseAction {
    /// Remove the single filesystem object at the path.
    RemoveFile(String),
    /// Recursively remove the directory tree rooted at the path.
    RemoveTree(String),
}

/// Descriptor of filesystem-backed data: a path, the precomputed aggregate
/// size of the object behind it, and whether this handle owns that object.
pub struct DataOnFs {
    /// Path of the filesystem object.
    pub path: String,
    /// If data is a directory, size is the sum of sizes of all blobs in the
    /// directory, computed once at construction time and trusted from then on.
    pub size: usize,
    /// Whether the holder has exclusive, destructive ownership of the object
    /// at `path`: only an owning handle may ever delete it.
    pub owned: bool,
}

/// Where a unit of data lives: in process memory, or on the local filesystem.
pub enum Storage {
    /// An owned, immutable-after-construction byte buffer.
    Memory(Vec<u8>),
    /// A filesystem object plus its cached aggregate size.
    Path(DataOnFs),
}

/// How consumers interpret a unit of data; it does not change storage
/// mechanics.
#[derive(Clone, Copy, PartialEq, Eq, Structural, Debug)]
pub enum DataType {
    Blob,
    Directory,
    Stream,
}

/// A unit of task input/output data: a data-type tag plus a storage payload,
/// immutable for its lifetime, released exactly once.
pub struct Data {
    data_type: DataType,
    storage: Storage,
    released: bool,
}

impl Data {
    /// The data-type tag, as an abstract value for contracts.
    pub closed spec fn spec_data_type(&self) -> DataType {
        self.data_type
    }

    /// The storage payload, as an abstract value for contracts.
    pub closed spec fn spec_storage(&self) -> Storage {
        self.storage
    }

    /// Whether this handle has already been released.
    pub closed spec fn spec_released(&self) -> bool {
        self.released
    }

    /// The size this handle reports: the buffer length for memory-backed
    /// data, the cached descriptor size for path-backed data.
    pub open spec fn spec_size(&self) -> nat {
        match self.spec_storage() {
            Storage::Memory(buffer) => buffer@.len(),
            Storage::Path(fs) => fs.size as nat,
        }
    }

    /// Whether releasing this handle must remove a filesystem object: it is
    /// still live, path-backed, and owns the object behind its path.
    pub open spec fn spec_releasable(&self) -> bool {
        &&& !self.spec_released()
        &&& self.spec_storage() matches Storage::Path(fs) && fs.owned
    }

    /// Create Data from a tag and a storage payload: pure and total, with no
    /// I/O and no validation of payload consistency (a caller using `Path`
    /// must supply a size-consistent descriptor).
    pub fn new(data_type: DataType, storage: Storage) -> (d: Data)
        ensures
            d.spec_data_type() == data_type,
            d.spec_storage() == storage,
            !d.spec_released(),
    {
        Data { data_type, storage, released: false }
    }

    /// Wrap a pre-existing filesystem path with a caller-asserted size. No
    /// filesystem access happens and no destructive ownership is established:
    /// the caller must track and honor ownership separately.
    pub fn new_from_path(data_type: DataType, path: String, size: usize) -> (d: Data)
        ensures
            d.spec_data_type() == data_type,
            d.spec_storage() matches Storage::Path(fs) && fs.path == path && fs.size == size
                && !fs.owned,
            !d.spec_released(),
    {
        Data {
            data_type,
            storage: Storage::Path(DataOnFs { path, size, owned: false }),
            released: false,
        }
    }

    /// Read-only view of the storage payload.
    pub fn storage(&self) -> (r: &Storage)
        ensures
            *r == self.spec_storage(),
    {
        &self.storage
    }

    /// Read-only view of the data-type tag.
    pub fn data_type(&self) -> (r: DataType)
        ensures
            r == self.spec_data_type(),
    {
        self.data_type
    }

    /// Return size of data in bytes: the buffer length for memory-backed
    /// data, the cached aggregate size for path-backed data, never recomputed
    /// by walking the filesystem.
    pub fn size(&self) -> (r: usize)
        ensures
            r == self.spec_size(),
    {
        match &self.storage {
            Storage::Memory(data) => data.len(),
            Storage::Path(data) => data.size,
        }
    }

    /// Take exclusive, destructive ownership of a filesystem object that has
    /// just been relocated to `path` and measured at `size` bytes. This is
    /// the in-memory half of the ownership-transfer construction: the caller
    /// has already renamed the object to `path`, read its metadata, and
    /// locked its permission bits to owner-read-only.
    pub fn new_owned(path: String, size: usize) -> (d: Data)
        ensures
            d.spec_data_type() is Blob,
            d.spec_storage() matches Storage::Path(fs) && fs.path == path && fs.size == size
                && fs.owned,
            !d.spec_released(),
    {
        Data {
            data_type: DataType::Blob,
            storage: Storage::Path(DataOnFs { path, size, owned: true }),
            released: false,
        }
    }

    /// Explicit, fallible construction from a pre-existing filesystem object.
    /// The aggregate size must be measured beforehand by an external
    /// collaborator (a metadata query, or a recursive tree walk for a
    /// directory); `measured_size` is that collaborator's result, `None` when
    /// the measurement failed. Establishes no destructive ownership.
    pub fn from_file(data_type: DataType, path: String, measured_size: Option<usize>) -> (r:
        Result<Data, IOError>)
        ensures
            measured_size matches Some(size) ==> (r matches Ok(d) && d.spec_data_type()
                == data_type && (d.spec_storage() matches Storage::Path(fs) && fs.path == path
                && fs.size == size && !fs.owned) && !d.spec_released()),
            measured_size is None ==> (r matches Err(e) && e.op == FsOperation::Metadata
                && e.path == path),
    {
        match measured_size {
            Some(size) => Ok(Data::new_from_path(data_type, path, size)),
            None => Err(IOError::new(FsOperation::Metadata, path)),
        }
    }

    /// True exactly when the data-type tag is `Blob`.
    #[inline]
    pub fn is_blob(&self) -> (r: bool)
        ensures
            r == (self.spec_data_type() is Blob),
    {
        match self.data_type {
            DataType::Blob => true,
            _ => false,
        }
    }

    /// Decide how to expose this data's contents at `target_path` without
    /// transferring ownership: write the buffer into a new file for
    /// memory-backed data, link to the owned path for path-backed data. The
    /// caller performs the returned effect, owns `target_path` afterwards,
    /// and is responsible for its removal; this handle never deletes it.
    pub fn map_to_path_action(&self, target_path: String) -> (r: MapAction)
        ensures
            self.spec_storage() matches Storage::Memory(buffer) ==> (r matches
                MapAction::WriteFile { path, contents } && path == target_path && contents@
                == buffer@),
            self.spec_storage() matches Storage::Path(fs) ==> (r matches
                MapAction::CreateSymlink { link_path, target } && link_path == target_path
                && target == fs.path),
    {
        match &self.storage {
            Storage::Memory(data) => {
                let mut contents: Vec<u8> = Vec::new();
                let mut i: usize = 0;
                while i < data.len()
                    invariant
                        i <= data@.len(),
                        contents@ == data@.subrange(0, i as int),
                    decreases data@.len() - i,
                {
                    contents.push(data[i]);
                    proof {
                        assert(contents@ =~= data@.subrange(0, i as int + 1));
                    }
                    i = i + 1;
                }
                proof {
                    assert(contents@ =~= data@);
                }
                MapAction::WriteFile { path: target_path, contents }
            },
            Storage::Path(fs) => MapAction::CreateSymlink {
                link_path: target_path,
                target: fs.path.clone(),
            },
        }
    }

    /// Transition this handle from live to released, exactly once, and hand
    /// the caller the removal that release demands: none for memory-backed or
    /// non-owning path-backed data, removal of the owned file — or of the
    /// whole tree, for a directory — the first time an owning handle is
    /// disposed, and none on any later attempt. The caller performs the
    /// removal and may check its outcome; it must tolerate a path that is
    /// already absent.
    pub fn dispose(&mut self) -> (r: Option<ReleaseAction>)
        ensures
            final(self).spec_data_type() == old(self).spec_data_type(),
            final(self).spec_storage() == old(self).spec_storage(),
            final(self).spec_released(),
            r is Some <==> old(self).spec_releasable(),
            old(self).spec_releasable() ==> (old(self).spec_storage() matches Storage::Path(fs)
                && r == Some(
                if old(self).spec_data_type() is Directory {
                    ReleaseAction::RemoveTree(fs.path)
                } else {
                    ReleaseAction::RemoveFile(fs.path)
                },
            )),
    {
        if self.released {
            return None;
        }
        self.released = true;
        match &self.storage {
            Storage::Memory(_) => None,
            Storage::Path(fs) => {
                if fs.owned {
                    let path = fs.path.clone();
                    match self.data_type {
                        DataType::Directory => Some(ReleaseAction::RemoveTree(path)),
                        _ => Some(ReleaseAction::RemoveFile(path)),
                    }
                } else {
                    None
                }
            },
        }
    }
}

/// Law: in-memory data is measured by its buffer alone — its reported size
/// equals the buffer's length, for every byte sequence.
pub proof fn lemma_memory_size(d: Data, buffer: Vec<u8>)
    requires
        d.spec_storage() == Storage::Memory(buffer),
    ensures
        d.spec_size() == buffer@.len(),
{
}

/// Law: the blob test goes by the tag alone — a tag is `Blob` exactly when it
/// is neither `Directory` nor `Stream`.
pub proof fn lemma_blob_tag(tag: DataType)
    ensures
        (tag is Blob) <==> (!(tag is Directory) && !(tag is Stream)),
{
}

/// Law: releasing memory-backed data never asks for a filesystem action.
pub proof fn lemma_memory_release_silent(d: Data)
    requires
        d.spec_storage() is Memory,
    ensures
        !d.spec_releasable(),
{
}

/// Law: a released handle asks for no further removal — the underlying object
/// is removed at most once, however often disposal is attempted.
pub proof fn lemma_release_at_most_once(d: Data)
    requires
        d.spec_released(),
    ensures
        !d.spec_releasable(),
{
}

} // verus!

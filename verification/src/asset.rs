//! Assets: files that a document refers to.

use vstd::prelude::*;
use vstd::string::*;
use crate::paths::{join, path_join};
use crate::text::strip_prefix;

verus! {

/// A handle on a stored asset, by its kind.
#[derive(Debug, Clone)]
pub enum AssetHandle {
    /// A file on disk, at the path it holds.
    Path(String),
}

/// An asset store in a directory.
#[derive(Debug, Clone)]
pub struct FileAssetStore {
    root: String,
}

/// Where assets are stored.
#[derive(Debug, Clone)]
pub enum AssetBackend {
    /// In files under a root directory.
    File(FileAssetStore),
}

/// Why no asset backend could be read.
#[derive(Debug)]
pub enum AssetError {
    /// The text names no backend.
    UnknownBackend,
}

impl FileAssetStore {
    /// The directory that holds the assets.
    pub closed spec fn root(&self) -> Seq<char> {
        self.root@
    }

    /// The handle on the file at `path`, which stays where it is.
    pub fn store_file(&self, path: String) -> (handle: AssetHandle)
        ensures
            handle == AssetHandle::Path(path),
    {
        AssetHandle::Path(path)
    }

    /// The handle on the asset `name`, whose data go into the file of that
    /// name under the root.
    pub fn data_handle(&self, name: &str) -> (handle: AssetHandle)
        ensures
            handle matches AssetHandle::Path(path) && path@ == path_join(self.root(), name@),
    {
        AssetHandle::Path(join(self.root.as_str(), name))
    }

    /// The path behind a handle.
    pub fn local_path(&self, handle: AssetHandle) -> (path: String)
        ensures
            handle == AssetHandle::Path(path),
    {
        match handle {
            AssetHandle::Path(path) => path,
        }
    }
}

impl AssetBackend {
    /// Reads a backend from its command-line form: `file=` and a directory.
    pub fn from_str(s: &str) -> (result: Result<AssetBackend, AssetError>)
        ensures
            "file="@.is_prefix_of(s@) ==> (result matches Ok(AssetBackend::File(store))
                && store.root() == s@.skip("file="@.len() as int)),
            !"file="@.is_prefix_of(s@) ==> (result matches Err(AssetError::UnknownBackend)),
    {
        match strip_prefix(s, "file=") {
            Some(file) => Ok(AssetBackend::File(FileAssetStore { root: String::from_str(file) })),
            None => Err(AssetError::UnknownBackend),
        }
    }

    /// The handle on the file at `path`.
    pub fn store_file(&self, path: String) -> (handle: AssetHandle)
        ensures
            handle == AssetHandle::Path(path),
    {
        match self {
            AssetBackend::File(store) => store.store_file(path),
        }
    }

    /// The handle on the asset `name`, see [`FileAssetStore::data_handle`].
    pub fn data_handle(&self, name: &str) -> (handle: AssetHandle)
        ensures
            self matches AssetBackend::File(store) && handle matches AssetHandle::Path(path) && path@
                == path_join(store.root(), name@),
    {
        match self {
            AssetBackend::File(store) => store.data_handle(name),
        }
    }

    /// The path behind a handle.
    pub fn local_path(&self, handle: AssetHandle) -> (path: String)
        ensures
            handle == AssetHandle::Path(path),
    {
        match self {
            AssetBackend::File(store) => store.local_path(handle),
        }
    }
}

} // verus!

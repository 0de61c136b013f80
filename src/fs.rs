use vstd::prelude::*;

verus! {

/// One entry of a directory listing.
pub struct DirEntry {
    pub path: String,
    pub is_file: bool,
}

/// Why a directory could not be listed.
#[derive(Debug, Clone, Copy, PartialEq, Eq)]
pub enum FileSystemError {
    /// The directory cannot be read.
    Unavailable,
}

/// A source of directory listings.
pub trait FileSystem {
    fn list_dir(&self, path: &str) -> Result<Vec<DirEntry>, FileSystemError>;
}

/// The local file system. Listing is not implemented yet: every directory
/// reads as empty.
#[derive(Debug, Clone, Copy, Default)]
pub struct LocalFileSystem;

impl FileSystem for LocalFileSystem {
    fn list_dir(&self, path: &str) -> (r: Result<Vec<DirEntry>, FileSystemError>)
        ensures
            r matches Ok(entries) && entries@.len() == 0,
    {
        let entries: Vec<DirEntry> = Vec::new();
        Ok(entries)
    }
}

} // verus!

//! The entry model: file types, archived entries and table rows.
use vstd::prelude::*;

verus! {

/// Bit mask of the file-type field of a POSIX `st_mode`.
pub const S_IFMT: u32 = 0o170000;

/// File-type bits of a regular file.
pub const S_IFREG: u32 = 0o100000;

/// File-type bits of a directory.
pub const S_IFDIR: u32 = 0o040000;

/// Bit mask of the permission bits of a mode.
pub const PERMISSION_BITS: u32 = 0o777;

/// What kind of filesystem object an entry describes.
#[derive(Debug, Clone, Copy, PartialEq, Eq, Structural)]
pub enum FileType {
    File,
    Dir,
    Unsupported,
}

/// The file type that the type bits of `mode` stand for.
pub open spec fn filetype_of(mode: u32) -> FileType {
    if mode & S_IFMT == S_IFREG {
        FileType::File
    } else if mode & S_IFMT == S_IFDIR {
        FileType::Dir
    } else {
        FileType::Unsupported
    }
}

impl From<u32> for FileType {
    /// Classifies a mode by its file-type bits.
    fn from(mode: u32) -> (r: FileType)
        ensures
            r == filetype_of(mode),
    {
        if mode & S_IFMT == S_IFREG {
            return FileType::File;
        }
        if mode & S_IFMT == S_IFDIR {
            return FileType::Dir;
        }
        FileType::Unsupported
    }
}

impl vstd::std_specs::convert::FromSpecImpl<u32> for FileType {
    open spec fn obeys_from_spec() -> bool {
        true
    }

    open spec fn from_spec(v: u32) -> FileType {
        filetype_of(v)
    }
}

/// One archived filesystem object, as read back from an archive.
#[derive(Debug)]
pub struct Entry {
    /// The path of the object as it was archived; unique in an archive.
    pub name: String,
    /// The permission bits of the object's mode.
    pub mode: u32,
    /// The file type that the object's full mode stands for.
    pub filetype: FileType,
    /// Modification time, in seconds since the Unix epoch.
    pub mtime: i64,
    /// Size of the original content in bytes; 0 for a directory.
    pub size: usize,
    /// Length of the payload as it is stored; 0 where there is none.
    pub compressed_size: usize,
    /// The decoded content, where it was fetched and is present.
    pub data: Option<Vec<u8>>,
}

} // verus!

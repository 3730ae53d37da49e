//! The archive table: its schema, its rows, and the conversions between
//! rows and the objects they record.
use vstd::prelude::*;
use crate::codec::{compress, decompress, decoded, stored_form};
use crate::entry::{filetype_of, Entry, FileType, PERMISSION_BITS};

verus! {

/// The statement that creates the archive table.
pub const SCHEMA: &'static str = "CREATE TABLE sqlar(
    name TEXT PRIMARY KEY,
    mode INT,
    mtime INT,
    sz INT,
    data BLOB
);";

/// The statement that inserts one row; its parameters are the name, mode,
/// modification time, original size and stored payload, in that order.
pub const INSERT_ROW: &'static str = "INSERT INTO sqlar (name, mode, mtime, sz, data) VALUES (?1, ?2, ?3, ?4, ?5)";

/// The query that fetches every row with its payload, columns in the order
/// name, mode, mtime, sz, data.
pub const SELECT_FULL: &'static str = "SELECT name, mode, mtime, sz, data FROM sqlar";

/// The query that fetches every row without its payload; its fifth column is
/// the stored length of the payload, 0 where there is none.
pub const SELECT_METADATA: &'static str = "SELECT name, mode, mtime, sz, COALESCE(LENGTH(data), 0) FROM sqlar";

/// One row of the archive table.
#[derive(Debug)]
pub struct Row {
    /// The object's path, the table's key.
    pub name: String,
    /// The object's full mode: file-type and permission bits.
    pub mode: u32,
    /// Modification time, in seconds since the Unix epoch.
    pub mtime: i64,
    /// Size of the original content in bytes.
    pub sz: i64,
    /// The stored payload; absent for objects that are not regular files.
    pub data: Option<Vec<u8>>,
}

/// The modification time recorded for an object: its seconds since the epoch
/// where known and representable, else the epoch itself.
pub open spec fn recorded_mtime(secs: Option<u64>) -> i64 {
    match secs {
        Some(s) => if s <= i64::MAX as u64 { s as i64 } else { 0 },
        None => 0,
    }
}

/// Where `content` is the object's content, the stored payload `data` of a
/// row that records it.
pub open spec fn payload_records(data: Option<Vec<u8>>, sz: i64, content: Seq<u8>) -> bool {
    &&& sz == content.len()
    &&& data matches Some(d)
    &&& d@ == stored_form(content)
    &&& decoded(d@, sz as int) == Some(content)
}

impl Row {
    /// Whether this row records the object named `name`, of mode `mode`,
    /// modified at `mtime` (as the OS reported it), with content `content`
    /// (which counts only for a regular file).
    pub open spec fn records(self, name: Seq<char>, mode: u32, mtime: Option<u64>, content: Seq<u8>) -> bool {
        &&& self.name@ == name
        &&& self.mode == mode
        &&& self.mtime == recorded_mtime(mtime)
        &&& if filetype_of(mode) == FileType::File {
            payload_records(self.data, self.sz, content)
        } else {
            self.sz == 0 && self.data is None
        }
    }

    /// The row that records a filesystem object. `content` is the object's
    /// content where its mode says it is a regular file, and is ignored
    /// otherwise; such a row carries no payload and a size of 0.
    pub fn from_object(name: String, mode: u32, mtime: Option<u64>, content: Vec<u8>) -> (r: Row)
        requires
            filetype_of(mode) == FileType::File ==> content@.len() <= i64::MAX,
        ensures
            r.records(name@, mode, mtime, content@),
    {
        let secs: i64 = match mtime {
            Some(s) => if s <= i64::MAX as u64 { s as i64 } else { 0 },
            None => 0,
        };
        if FileType::from(mode) == FileType::File {
            let sz = content.len() as i64;
            let stored = compress(&content);
            Row { name, mode, mtime: secs, sz, data: Some(stored) }
        } else {
            Row { name, mode, mtime: secs, sz: 0, data: None }
        }
    }
}

/// Why a row cannot be read as an entry.
#[derive(Debug, Clone, Copy, PartialEq, Eq, Structural)]
pub enum RowError {
    /// The recorded original size is negative.
    NegativeSize,
    /// The recorded original size does not fit in this machine's `usize`.
    SizeTooLarge,
    /// The payload was to be inflated and is not a valid zlib stream.
    Corrupt,
}

/// The stored length of a payload: its length, or 0 where there is none.
pub open spec fn stored_len(data: Option<Vec<u8>>) -> nat {
    match data {
        Some(d) => d@.len(),
        None => 0,
    }
}

/// Whether reading `row` fails, with `full` saying whether the payload is
/// fetched and decoded.
pub open spec fn row_error(row: Row, full: bool) -> Option<RowError> {
    if size_error(row.sz) is Some {
        size_error(row.sz)
    } else if full && (row.data matches Some(d) && decoded(d@, row.sz as int) is None) {
        Some(RowError::Corrupt)
    } else {
        None
    }
}

/// Whether `e` carries the name, mode, file type, time and size of a row with
/// these columns: the mode is split into its permission bits and the file type
/// that its type bits stand for.
pub open spec fn carries_columns(e: Entry, name: Seq<char>, mode: u32, mtime: i64, sz: i64) -> bool {
    &&& e.name@ == name
    &&& e.mode == mode & PERMISSION_BITS
    &&& e.filetype == filetype_of(mode)
    &&& e.mtime == mtime
    &&& e.size == sz
}

/// Whether a recorded size `sz` cannot be read: it is negative, or too large
/// for this machine's `usize`.
pub open spec fn size_error(sz: i64) -> Option<RowError> {
    if sz < 0 {
        Some(RowError::NegativeSize)
    } else if sz > usize::MAX {
        Some(RowError::SizeTooLarge)
    } else {
        None
    }
}

impl Entry {
    /// Whether this entry is what reading `row` gives, with the payload fetched
    /// and decoded where `full` holds and left out otherwise.
    pub open spec fn read_from(self, row: Row, full: bool) -> bool {
        &&& carries_columns(self, row.name@, row.mode, row.mtime, row.sz)
        &&& self.compressed_size == stored_len(row.data)
        &&& match (full, row.data) {
            (true, Some(d)) => self.data matches Some(v) && decoded(d@, row.sz as int) == Some(v@),
            _ => self.data is None,
        }
    }
}

/// Checks that a recorded size can be read as a `usize`.
fn check_size(sz: i64) -> (r: Result<usize, RowError>)
    ensures
        match r {
            Ok(n) => size_error(sz) is None && n == sz,
            Err(e) => size_error(sz) == Some(e),
        },
{
    if sz < 0 {
        return Err(RowError::NegativeSize);
    }
    if sz as u64 > usize::MAX as u64 {
        return Err(RowError::SizeTooLarge);
    }
    Ok(sz as usize)
}

/// Reads the columns of a row fetched without its payload as an entry, whose
/// stored length is `stored_len` (0 where the row has no payload) and whose
/// data is left out. A recorded size that is negative or too large is an error.
pub fn entry_from_metadata(name: String, mode: u32, mtime: i64, sz: i64, stored_len: usize) -> (r:
    Result<Entry, RowError>)
    ensures
        match r {
            Ok(e) => {
                &&& size_error(sz) is None
                &&& carries_columns(e, name@, mode, mtime, sz)
                &&& e.compressed_size == stored_len
                &&& e.data is None
            },
            Err(err) => size_error(sz) == Some(err),
        },
{
    let size = match check_size(sz) {
        Ok(n) => n,
        Err(e) => {
            return Err(e);
        },
    };
    Ok(
        Entry {
            name,
            mode: mode & PERMISSION_BITS,
            filetype: FileType::from(mode),
            mtime,
            size,
            compressed_size: stored_len,
            data: None,
        },
    )
}

/// Reads a row of the archive as an entry: the mode is split into its
/// permission bits and its file type, and, where `full` holds, the payload is
/// decoded. A recorded size that is negative or too large, or, where decoded,
/// a malformed payload, is an error.
pub fn entry_from_row(row: Row, full: bool) -> (r: Result<Entry, RowError>)
    ensures
        match r {
            Ok(e) => row_error(row, full) is None && e.read_from(row, full),
            Err(err) => row_error(row, full) == Some(err),
        },
{
    let size = match check_size(row.sz) {
        Ok(n) => n,
        Err(e) => {
            return Err(e);
        },
    };
    let compressed_size: usize = match &row.data {
        Some(d) => d.len(),
        None => 0,
    };
    let data = if full {
        match &row.data {
            Some(d) => match decompress(d, row.sz) {
                Ok(v) => Some(v),
                Err(_) => {
                    return Err(RowError::Corrupt);
                },
            },
            None => None,
        }
    } else {
        None
    };
    let mode = row.mode;
    let entry = Entry {
        name: row.name,
        mode: mode & PERMISSION_BITS,
        filetype: FileType::from(mode),
        mtime: row.mtime,
        size,
        compressed_size,
        data,
    };
    Ok(entry)
}

} // verus!

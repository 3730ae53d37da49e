//! Extraction: what to do on disk for each entry read from an archive.
use vstd::prelude::*;
use vstd::utf8::encode_utf8;
use crate::entry::{filetype_of, Entry, FileType, PERMISSION_BITS};
use crate::store::{recorded_mtime, row_error, Row};

verus! {

/// The byte of `/`.
pub const SLASH: u8 = 47;

/// The byte of `.`.
pub const DOT: u8 = 46;

/// Whether the path `name` (as UTF-8 bytes) is absolute.
pub open spec fn is_absolute(name: Seq<u8>) -> bool {
    name.len() > 0 && name[0] == SLASH
}

/// Whether `name[i]` starts a `..` segment of the path `name`, one bounded
/// by slashes or by the ends of the path.
pub open spec fn parent_segment_at(name: Seq<u8>, i: int) -> bool {
    &&& 0 <= i
    &&& i + 2 <= name.len()
    &&& name[i] == DOT
    &&& name[i + 1] == DOT
    &&& (i == 0 || name[i - 1] == SLASH)
    &&& (i + 2 == name.len() || name[i + 2] == SLASH)
}

/// Whether the path `name` (as UTF-8 bytes) stays below the directory it is
/// joined to: it is relative and has no `..` segment.
pub open spec fn stays_inside(name: Seq<u8>) -> bool {
    &&& !is_absolute(name)
    &&& forall|i: int| !#[trigger] parent_segment_at(name, i)
}

/// Whether `name` is safe to join to a destination directory: it is neither
/// absolute nor has a `..` segment, so the joined path cannot leave it.
pub fn is_safe_name(name: &str) -> (r: bool)
    ensures
        r == stays_inside(encode_utf8(name@)),
{
    let b = name.as_bytes();
    let n = b.len();
    if n > 0 && b[0] == SLASH {
        return false;
    }
    let mut i: usize = 0;
    while n - i > 1
        invariant
            b@ == encode_utf8(name@),
            n == b@.len(),
            i <= n,
            forall|j: int| 0 <= j < i ==> !#[trigger] parent_segment_at(b@, j),
        decreases n - i,
    {
        if b[i] == DOT && b[i + 1] == DOT && (i == 0 || b[i - 1] == SLASH) && (i + 2 == n || b[i
            + 2] == SLASH) {
            assert(parent_segment_at(b@, i as int));
            return false;
        }
        i = i + 1;
    }
    assert forall|j: int| !#[trigger] parent_segment_at(b@, j) by {
        if 0 <= j < i {
        }
    }
    true
}

/// What extracting one entry does.
#[derive(Debug)]
pub enum Action {
    /// Nothing: the name could leave the destination directory.
    SkipUnsafeName,
    /// Nothing: the entry is neither a regular file nor a directory.
    SkipUnsupported,
    /// Create the directory `name` below the destination, then give it `mode`
    /// and the modification time `mtime`.
    MakeDir { name: String, mode: u32, mtime: i64 },
    /// Create the file `name` below the destination holding `contents`, then
    /// give it `mode` and the modification time `mtime`.
    WriteFile { name: String, contents: Vec<u8>, mode: u32, mtime: i64 },
}

impl Action {
    /// Whether this action is the one that extracting `e` calls for.
    pub open spec fn extracts(self, e: Entry) -> bool {
        if !stays_inside(encode_utf8(e.name@)) {
            self is SkipUnsafeName
        } else {
            match e.filetype {
                FileType::Unsupported => self is SkipUnsupported,
                FileType::Dir => self matches Action::MakeDir { name, mode, mtime } && name@
                    == e.name@ && mode == e.mode && mtime == e.mtime,
                FileType::File => self matches Action::WriteFile { name, contents, mode, mtime }
                    && name@ == e.name@ && mode == e.mode && mtime == e.mtime && contents@ == (
                match e.data {
                    Some(d) => d@,
                    None => Seq::empty(),
                }),
            }
        }
    }
}

/// Decides what extracting `entry` does. An entry whose name is absolute or
/// has a `..` segment is skipped, so that nothing is written outside the
/// destination; so is one that is neither a regular file nor a directory.
/// A file without a payload is extracted empty.
pub fn plan_extraction(entry: &Entry) -> (r: Action)
    ensures
        r.extracts(*entry),
{
    if !is_safe_name(entry.name.as_str()) {
        return Action::SkipUnsafeName;
    }
    match entry.filetype {
        FileType::Unsupported => Action::SkipUnsupported,
        FileType::Dir => Action::MakeDir {
            name: entry.name.clone(),
            mode: entry.mode,
            mtime: entry.mtime,
        },
        FileType::File => {
            let contents = match &entry.data {
                Some(d) => d.clone(),
                None => Vec::new(),
            };
            Action::WriteFile {
                name: entry.name.clone(),
                contents,
                mode: entry.mode,
                mtime: entry.mtime,
            }
        },
    }
}

/// Archiving an object and extracting it again gives it back: a regular file
/// or directory whose name is relative and has no `..` segment is recreated
/// under the same name, with the same content, the same permission bits and
/// the modification time recorded for it. Here `row` is the row that records
/// the object, `entry` what reading that row with its payload gives, and
/// `action` what extracting that entry does; reading the row succeeds.
pub proof fn lemma_round_trip(
    name: Seq<char>,
    mode: u32,
    mtime: Option<u64>,
    content: Seq<u8>,
    row: Row,
    entry: Entry,
    action: Action,
)
    requires
        filetype_of(mode) != FileType::Unsupported,
        stays_inside(encode_utf8(name)),
        content.len() <= usize::MAX,
        row.records(name, mode, mtime, content),
        entry.read_from(row, true),
        action.extracts(entry),
    ensures
        row_error(row, true) is None,
        filetype_of(mode) == FileType::Dir ==> (action matches Action::MakeDir { name: n, mode: m, mtime: t }
            && n@ == name && m == mode & PERMISSION_BITS && t == recorded_mtime(mtime)),
        filetype_of(mode) == FileType::File ==> (action matches Action::WriteFile {
            name: n,
            contents: c,
            mode: m,
            mtime: t,
        } && n@ == name && c@ == content && m == mode & PERMISSION_BITS && t == recorded_mtime(mtime)),
{
}

} // verus!

//! Listing: one display row per entry, read without the payloads.
use vstd::prelude::*;
use crate::entry::{Entry, FileType};

verus! {

/// The text that the calendar library gives for `secs` seconds after the
/// Unix epoch in UTC (`1970-01-01 00:00:00 UTC`), or `None` where that
/// instant is out of its range.
pub uninterp spec fn utc_text(secs: int) -> Option<Seq<char>>;

/// Relies on `chrono::DateTime::from_timestamp`, which is `None` only out of
/// range, and on the `Display` of `DateTime<Utc>`: the text depends on the
/// number of seconds alone.
#[verifier::external_body]
fn format_utc(secs: i64) -> (r: Option<String>)
    ensures
        match r {
            Some(t) => utc_text(secs as int) == Some(t@),
            None => utc_text(secs as int) is None,
        },
{
    match chrono::DateTime::from_timestamp(secs, 0) {
        Some(t) => Some(t.to_string()),
        None => None,
    }
}

/// The compression ratio of a payload stored in `stored` bytes out of `size`,
/// in tenths of a percent, rounded to the nearest (halves upwards); 0 for an
/// empty original.
pub open spec fn ratio_tenths_of(stored: nat, size: nat) -> nat {
    if size == 0 {
        0
    } else {
        (2000 * stored + size) / (2 * size)
    }
}

/// The compression ratio in tenths of a percent: 400 for 400 bytes stored out
/// of 1000, shown as `40.0%`.
pub fn ratio_tenths(stored: usize, size: usize) -> (r: u128)
    ensures
        r == ratio_tenths_of(stored as nat, size as nat),
{
    if size == 0 {
        return 0;
    }
    let num: u128 = 2000 * (stored as u128) + (size as u128);
    num / (2 * (size as u128))
}

/// What the listing shows of one entry.
#[derive(Debug)]
pub struct ListRow {
    pub name: String,
    pub filetype: FileType,
    /// Permission bits, to be shown in octal.
    pub mode: u32,
    /// The modification time as text in UTC, where it is in range.
    pub modified: Option<String>,
    /// The original size in bytes.
    pub size: usize,
    /// The compression ratio in tenths of a percent; 0 for anything but a
    /// regular file, which carries no payload.
    pub ratio_tenths: u128,
}

impl ListRow {
    /// Whether this row shows `e`.
    pub open spec fn shows(self, e: Entry) -> bool {
        &&& self.name@ == e.name@
        &&& self.filetype == e.filetype
        &&& self.mode == e.mode
        &&& match self.modified {
            Some(t) => utc_text(e.mtime as int) == Some(t@),
            None => utc_text(e.mtime as int) is None,
        }
        &&& self.size == e.size
        &&& self.ratio_tenths == if e.filetype == FileType::File {
            ratio_tenths_of(e.compressed_size as nat, e.size as nat)
        } else {
            0
        }
    }
}

/// The listing row of an entry. The entry is only read.
pub fn list_row(entry: &Entry) -> (r: ListRow)
    ensures
        r.shows(*entry),
{
    let ratio = if entry.filetype == FileType::File {
        ratio_tenths(entry.compressed_size, entry.size)
    } else {
        0
    };
    ListRow {
        name: entry.name.clone(),
        filetype: entry.filetype,
        mode: entry.mode,
        modified: format_utc(entry.mtime),
        size: entry.size,
        ratio_tenths: ratio,
    }
}

} // verus!

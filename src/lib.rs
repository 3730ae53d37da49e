//! SQL archives: a filesystem tree flattened into one relational table.
//!
//! The library holds the verified core: the payload codec, the entry model,
//! the conversion between table rows and entries, and the decisions that
//! creating, listing and extracting an archive are made of. The caller owns
//! the database handle and the filesystem.

pub mod codec;
pub mod entry;
pub mod store;
pub mod extract;
pub mod list;

pub use codec::{compress, decompress, CodecError};
pub use entry::{Entry, FileType};
pub use extract::{is_safe_name, plan_extraction, Action};
pub use list::{list_row, ratio_tenths, ListRow};
pub use store::{entry_from_metadata, entry_from_row, Row, RowError};

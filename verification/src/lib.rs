//! A low-level, zero-copy cursor over the bytes of a flattened device tree
//! blob: bounds-checked big-endian reads, NUL-terminated string views, raw
//! sub-span extraction and alignment-padding skips.

pub mod cstr;
pub mod cursor;
pub mod endian;

pub use cstr::CStr;
pub use cursor::FdtData;
pub use endian::u32_from_be_byte_slice;
pub use endian::u64_from_be_byte_slice;

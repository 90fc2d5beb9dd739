//! Read-only decoder for the on-disk structures of partitioned storage media:
//! the MBR partition table and its chained extended boot records, the GPT
//! header and entry array, and FAT12/FAT16/FAT32 boot sectors, allocation
//! tables and directories.
//!
//! Every decoder works on an in-memory byte image addressed by absolute byte
//! offset; reading the image from disk and formatting the decoded records are
//! left to the caller.

pub mod bytes;
pub mod errors;
pub mod bootsector;
pub mod gpt;
pub mod fat;

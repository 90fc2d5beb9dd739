//! Error conditions raised while decoding a disk image.

use vstd::prelude::*;

verus! {

/// A decode failure. Every variant carries plain data; rendering a message
/// is left to the caller.
#[derive(Debug, Clone, PartialEq, Eq)]
pub enum ImageError {
    /// The GPT header's revision field is older than revision 1.0.
    InvalidGptHeaderRevision(u32),
    /// The 8 bytes at the start of the GPT header are not the GPT magic.
    InvalidGptHeaderSignature([u8; 8]),
    /// The GPT header declares a size other than the 92 bytes of revision 1.0.
    InvalidGptHeaderSize(u32),
    /// An extended partition entry addressed only by CHS cannot be followed.
    InvalidPartitionEntry,
    /// An extended-partition operation was invoked on an entry whose type
    /// code is not one of the extended codes.
    InvalidPartitionType { actual: u8 },
    /// The two bytes at offset 510 of a boot sector are not 0x55 0xAA.
    InvalidSignature([u8; 2]),
    /// The requested byte range lies (partly) outside the image.
    ShortRead,
    /// The BIOS Parameter Block describes a geometry on which cluster
    /// arithmetic is impossible (zero-sized sectors or clusters, more
    /// overhead sectors than the volume holds, or an allocation table whose
    /// byte size does not divide into whole entries).
    InvalidFatGeometry,
    /// A cluster chain visited more clusters than the allocation table
    /// holds, so it necessarily loops without reaching an end-of-chain mark.
    CycleDetected,
    /// A cluster number fell outside the allocation table.
    ClusterOutOfRange(u32),
}

impl ImageError {
    /// True exactly for the boot-sector signature-mismatch condition, the
    /// one failure that a FAT probe treats as "not a FAT volume" rather
    /// than as fatal.
    pub fn is_signature_mismatch(&self) -> (r: bool)
        ensures
            r == (self matches ImageError::InvalidSignature(_)),
    {
        match self {
            ImageError::InvalidSignature(_) => true,
            _ => false,
        }
    }
}

} // verus!

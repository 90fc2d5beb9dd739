//! GUID Partition Table decoding: the 92-byte revision-1.0 header and the
//! 128-byte partition entries, including the mixed-endian reconstruction of
//! on-disk GUIDs (three little-endian fields followed by two big-endian
//! ones).

use vstd::prelude::*;
use vstd::slice::slice_to_vec;

use crate::bytes::{le16, le32, le64, spec_le16, spec_le32, spec_le64};
use crate::errors::ImageError;

verus! {

pub const GPT_REVISION_1_0: u32 = 0x00010000;
pub const GPT_HEADER_1_0_SIZE: u32 = 92;
pub const MBR_GPT_PARTITION_TYPE: u8 = 0xee;

/// A GUID in its canonical field layout: three host-order fields followed
/// by eight bytes kept in network order.
#[derive(Debug, Clone, Copy, PartialEq, Eq)]
pub struct Guid {
    pub data1: u32,
    pub data2: u16,
    pub data3: u16,
    pub data4: [u8; 8],
}

/// `g` is the mixed-endian decoding of the 16 on-disk bytes `w`: the first
/// three fields are read little-endian, the trailing eight bytes are taken
/// as they stand.
pub open spec fn guid_matches(g: Guid, w: Seq<u8>) -> bool {
    &&& g.data1 == spec_le32(w, 0)
    &&& g.data2 == spec_le16(w, 4)
    &&& g.data3 == spec_le16(w, 6)
    &&& g.data4@ == w.subrange(8, 16)
}

/// The canonical 128-bit value of a GUID: `data1`, `data2`, `data3` and
/// then the eight `data4` bytes, most significant first.
pub open spec fn spec_guid_u128(g: Guid) -> u128 {
    ((g.data1 as u128) * 0x1_0000_0000_0000_0000_0000_0000 + (g.data2 as u128)
        * 0x1_0000_0000_0000_0000_0000 + (g.data3 as u128) * 0x1_0000_0000_0000_0000 + (
    g.data4@[0] as u128) * 0x100_0000_0000_0000 + (g.data4@[1] as u128) * 0x1_0000_0000_0000 + (
    g.data4@[2] as u128) * 0x100_0000_0000 + (g.data4@[3] as u128) * 0x1_0000_0000 + (
    g.data4@[4] as u128) * 0x100_0000 + (g.data4@[5] as u128) * 0x1_0000 + (g.data4@[6] as u128)
        * 0x100 + (g.data4@[7] as u128)) as u128
}

impl Guid {
    /// The GUID as one 128-bit number, fields in canonical order.
    pub fn as_u128(&self) -> (r: u128)
        ensures
            r == spec_guid_u128(*self),
    {
        (self.data1 as u128) * 0x1_0000_0000_0000_0000_0000_0000 + (self.data2 as u128)
            * 0x1_0000_0000_0000_0000_0000 + (self.data3 as u128) * 0x1_0000_0000_0000_0000 + (
        self.data4[0] as u128) * 0x100_0000_0000_0000 + (self.data4[1] as u128)
            * 0x1_0000_0000_0000 + (self.data4[2] as u128) * 0x100_0000_0000 + (
        self.data4[3] as u128) * 0x1_0000_0000 + (self.data4[4] as u128) * 0x100_0000 + (
        self.data4[5] as u128) * 0x1_0000 + (self.data4[6] as u128) * 0x100 + (
        self.data4[7] as u128)
    }
}

/// Reassemble a GUID from its 16-byte mixed-endian on-disk form.
pub fn read_mixed_endian_uuid(data: &[u8]) -> (r: Guid)
    requires
        data@.len() >= 16,
    ensures
        guid_matches(r, data@.subrange(0, 16)),
{
    let data4: [u8; 8] = [data[8], data[9], data[10], data[11], data[12], data[13], data[14], data[15]];
    let r = Guid { data1: le32(data, 0), data2: le16(data, 4), data3: le16(data, 6), data4 };
    proof {
        let w = data@.subrange(0, 16);
        assert(r.data4@ =~= w.subrange(8, 16));
        assert(spec_le32(w, 0) == spec_le32(data@, 0));
        assert(spec_le16(w, 4) == spec_le16(data@, 4));
        assert(spec_le16(w, 6) == spec_le16(data@, 6));
    }
    r
}

/// The fixed 92-byte GPT header of revision 1.0.
#[derive(Debug, Clone)]
pub struct GptHeader {
    pub signature: [u8; 8],
    pub revision: u32,
    pub header_size: u32,
    pub crc32: u32,
    pub reserved1: [u8; 4],
    pub current_lba: u64,
    pub backup_lba: u64,
    pub first_usable_lba: u64,
    pub last_usable_lba: u64,
    pub disk_guid: Guid,
    pub partition_table_lba: u64,
    pub partition_count: u32,
    pub partition_entry_size: u32,
    pub partition_entry_array_crc32: u32,
}

/// The eight bytes at the start of `w` spell the GPT magic "EFI PART".
pub open spec fn gpt_signature_ok(w: Seq<u8>) -> bool {
    &&& w[0] == 0x45
    &&& w[1] == 0x46
    &&& w[2] == 0x49
    &&& w[3] == 0x20
    &&& w[4] == 0x50
    &&& w[5] == 0x41
    &&& w[6] == 0x52
    &&& w[7] == 0x54
}

/// `h` is the decoding of the 92-byte header window `w`, every multi-byte
/// integer little-endian and the disk GUID mixed-endian.
pub open spec fn gpt_header_matches(h: GptHeader, w: Seq<u8>) -> bool {
    &&& h.signature@ == w.subrange(0, 8)
    &&& h.revision == spec_le32(w, 8)
    &&& h.header_size == spec_le32(w, 12)
    &&& h.crc32 == spec_le32(w, 16)
    &&& h.reserved1@ == w.subrange(20, 24)
    &&& h.current_lba == spec_le64(w, 24)
    &&& h.backup_lba == spec_le64(w, 32)
    &&& h.first_usable_lba == spec_le64(w, 40)
    &&& h.last_usable_lba == spec_le64(w, 48)
    &&& guid_matches(h.disk_guid, w.subrange(56, 72))
    &&& h.partition_table_lba == spec_le64(w, 72)
    &&& h.partition_count == spec_le32(w, 80)
    &&& h.partition_entry_size == spec_le32(w, 84)
    &&& h.partition_entry_array_crc32 == spec_le32(w, 88)
}

impl GptHeader {
    /// Decode the GPT header at byte offset `offset`, verifying the
    /// "EFI PART" magic, a revision of at least 1.0, and the declared
    /// header size of 92 bytes, in that order.
    pub fn new(image: &[u8], offset: u64) -> (r: Result<GptHeader, ImageError>)
        ensures
            (offset + GPT_HEADER_1_0_SIZE > image@.len()) <==> (r matches Err(
                ImageError::ShortRead,
            )),
            ({
                let w = image@.subrange(offset as int, offset + GPT_HEADER_1_0_SIZE);
                let in_range = offset + GPT_HEADER_1_0_SIZE <= image@.len();
                &&& (in_range && !gpt_signature_ok(w)) <==> (r matches Err(
                    ImageError::InvalidGptHeaderSignature(_),
                ))
                &&& (r matches Err(ImageError::InvalidGptHeaderSignature(s)) ==> s@ == w.subrange(
                    0,
                    8,
                ))
                &&& (in_range && gpt_signature_ok(w) && spec_le32(w, 8) < GPT_REVISION_1_0) <==> (r
                    matches Err(ImageError::InvalidGptHeaderRevision(_)))
                &&& (r matches Err(ImageError::InvalidGptHeaderRevision(v)) ==> v == spec_le32(
                    w,
                    8,
                ))
                &&& (in_range && gpt_signature_ok(w) && spec_le32(w, 8) >= GPT_REVISION_1_0
                    && spec_le32(w, 12) != GPT_HEADER_1_0_SIZE) <==> (r matches Err(
                    ImageError::InvalidGptHeaderSize(_),
                ))
                &&& (r matches Err(ImageError::InvalidGptHeaderSize(v)) ==> v == spec_le32(w, 12))
                &&& (in_range && gpt_signature_ok(w) && spec_le32(w, 8) >= GPT_REVISION_1_0
                    && spec_le32(w, 12) == GPT_HEADER_1_0_SIZE) <==> r is Ok
                &&& (r matches Ok(h) ==> gpt_header_matches(h, w))
            }),
    {
        let len: usize = image.len();
        if (len as u64) < 92 || offset > (len as u64) - 92 {
            return Err(ImageError::ShortRead);
        }
        let base: usize = offset as usize;
        let w: &[u8] = &image[base..base + 92];

        let sig_ok: bool = w[0] == 0x45 && w[1] == 0x46 && w[2] == 0x49 && w[3] == 0x20 && w[4]
            == 0x50 && w[5] == 0x41 && w[6] == 0x52 && w[7] == 0x54;
        if !sig_ok {
            let signature: [u8; 8] = [w[0], w[1], w[2], w[3], w[4], w[5], w[6], w[7]];
            proof {
                assert(signature@ =~= image@.subrange(offset as int, offset + 92).subrange(0, 8));
            }
            return Err(ImageError::InvalidGptHeaderSignature(signature));
        }

        let revision: u32 = le32(w, 8);
        if revision < GPT_REVISION_1_0 {
            return Err(ImageError::InvalidGptHeaderRevision(revision));
        }

        let header_size: u32 = le32(w, 12);
        if header_size != GPT_HEADER_1_0_SIZE {
            return Err(ImageError::InvalidGptHeaderSize(header_size));
        }

        let h = GptHeader {
            signature: [w[0], w[1], w[2], w[3], w[4], w[5], w[6], w[7]],
            revision,
            header_size,
            crc32: le32(w, 16),
            reserved1: [w[20], w[21], w[22], w[23]],
            current_lba: le64(w, 24),
            backup_lba: le64(w, 32),
            first_usable_lba: le64(w, 40),
            last_usable_lba: le64(w, 48),
            disk_guid: read_mixed_endian_uuid(&w[56..72]),
            partition_table_lba: le64(w, 72),
            partition_count: le32(w, 80),
            partition_entry_size: le32(w, 84),
            partition_entry_array_crc32: le32(w, 88),
        };
        proof {
            let wv = image@.subrange(offset as int, offset + 92);
            assert(w@ == wv);
            assert(h.signature@ =~= wv.subrange(0, 8));
            assert(h.reserved1@ =~= wv.subrange(20, 24));
            assert(w@.subrange(56, 72).subrange(0, 16) =~= wv.subrange(56, 72));
        }
        Ok(h)
    }
}

/// One 128-byte GPT partition entry. A partition-type GUID of all zero
/// bytes marks the slot as unused.
#[derive(Debug, Clone)]
pub struct GptPartitionEntry {
    pub partition_type: Guid,
    pub unique_partition_guid: Guid,
    pub starting_lba: u64,
    pub ending_lba: u64,
    pub attributes: u64,
    pub name: Vec<u8>,
}

/// `e` is the decoding of the 128-byte entry window `w`.
pub open spec fn gpt_entry_matches(e: GptPartitionEntry, w: Seq<u8>) -> bool {
    &&& guid_matches(e.partition_type, w.subrange(0, 16))
    &&& guid_matches(e.unique_partition_guid, w.subrange(16, 32))
    &&& e.starting_lba == spec_le64(w, 32)
    &&& e.ending_lba == spec_le64(w, 40)
    &&& e.attributes == spec_le64(w, 48)
    &&& e.name@ == w.subrange(56, 128)
}

impl GptPartitionEntry {
    /// Decode the 128-byte partition entry at byte offset `offset`.
    pub fn new(image: &[u8], offset: u64) -> (r: Result<GptPartitionEntry, ImageError>)
        ensures
            (offset + 128 > image@.len()) <==> (r matches Err(ImageError::ShortRead)),
            (offset + 128 <= image@.len()) <==> r is Ok,
            (r matches Ok(e) ==> gpt_entry_matches(
                e,
                image@.subrange(offset as int, offset + 128),
            )),
    {
        let len: usize = image.len();
        if (len as u64) < 128 || offset > (len as u64) - 128 {
            return Err(ImageError::ShortRead);
        }
        let base: usize = offset as usize;
        let w: &[u8] = &image[base..base + 128];

        let e = GptPartitionEntry {
            partition_type: read_mixed_endian_uuid(&w[0..16]),
            unique_partition_guid: read_mixed_endian_uuid(&w[16..32]),
            starting_lba: le64(w, 32),
            ending_lba: le64(w, 40),
            attributes: le64(w, 48),
            name: slice_to_vec(&w[56..128]),
        };
        proof {
            let wv = image@.subrange(offset as int, offset + 128);
            assert(w@ == wv);
            assert(w@.subrange(0, 16).subrange(0, 16) =~= wv.subrange(0, 16));
            assert(w@.subrange(16, 32).subrange(0, 16) =~= wv.subrange(16, 32));
            assert(e.name@ =~= wv.subrange(56, 128));
        }
        Ok(e)
    }
}

} // verus!

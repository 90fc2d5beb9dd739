//! FAT12/FAT16/FAT32 volumes: the boot sector with its BIOS Parameter
//! Block, the heuristic FAT-width classification by data-cluster count, the
//! allocation tables in their three physical encodings, and the 32-byte
//! directory entries with their packed dates and times.

use vstd::prelude::*;

use crate::bytes::{le16, le32, spec_le16, spec_le32};
use crate::errors::ImageError;

verus! {

pub const FAT_ATTRIBUTE_READ_ONLY: u8 = 0x01;
pub const FAT_ATTRIBUTE_HIDDEN: u8 = 0x02;
pub const FAT_ATTRIBUTE_SYSTEM: u8 = 0x04;
pub const FAT_ATTRIBUTE_VOLUME_LABEL: u8 = 0x08;
pub const FAT_ATTRIBUTE_DIRECTORY: u8 = 0x10;
pub const FAT_ATTRIBUTE_ARCHIVE: u8 = 0x20;
pub const FAT_ATTRIBUTE_DEVICE: u8 = 0x40;
pub const FAT_ATTRIBUTE_LONG_FILENAME: u8 = 0x0f;

pub const FAT_DIRECTORY_ENTRY_SIZE: usize = 32;

/// The width of a volume's allocation-table entries. The width is never
/// declared on disk; it is determined by the volume's data-cluster count.
#[derive(Debug, Clone, Copy, PartialEq, Eq, Structural)]
pub enum FatType {
    Fat12,
    Fat16,
    Fat32,
}

/// The FAT width a volume with `data_clusters` data clusters has:
/// fewer than 4085 clusters means FAT12, fewer than 65525 means FAT16,
/// anything larger means FAT32.
pub open spec fn spec_fat_type(data_clusters: int) -> FatType {
    if data_clusters < 4085 {
        FatType::Fat12
    } else if data_clusters < 65525 {
        FatType::Fat16
    } else {
        FatType::Fat32
    }
}

/// Classify a volume's FAT width from its data-cluster count.
pub fn classify_fat_width(data_clusters: u32) -> (r: FatType)
    ensures
        r == spec_fat_type(data_clusters as int),
{
    if data_clusters < 4085 {
        FatType::Fat12
    } else if data_clusters < 65525 {
        FatType::Fat16
    } else {
        FatType::Fat32
    }
}

/// A calendar date as stored in a directory entry, already unpacked.
#[derive(Debug, Clone, Copy, PartialEq, Eq, Structural)]
pub struct FatDate {
    pub year: u16,
    pub month: u8,
    pub day: u8,
}

/// A time of day as stored in a directory entry, already unpacked.
#[derive(Debug, Clone, Copy, PartialEq, Eq, Structural)]
pub struct FatTime {
    pub hour: u8,
    pub minute: u8,
    pub second: u8,
    pub millisecond: u16,
}

/// A date paired with a time of day.
#[derive(Debug, Clone, Copy, PartialEq, Eq, Structural)]
pub struct FatTimestamp {
    pub date: FatDate,
    pub time: FatTime,
}

/// The year stored in a packed date word: 7 bits offset from 1980.
pub open spec fn spec_fat_date_year(ymd: u16) -> u16 {
    (((ymd & 0xfe00) >> 9) + 1980) as u16
}

/// The month stored in a packed date word (4 bits, nominally 1..=12).
pub open spec fn spec_fat_date_month(ymd: u16) -> u8 {
    ((ymd & 0x01e0) >> 5) as u8
}

/// The day stored in a packed date word (5 bits, nominally 1..=31).
pub open spec fn spec_fat_date_day(ymd: u16) -> u8 {
    (ymd & 0x001f) as u8
}

/// The date fields unpacked from a packed date word.
pub open spec fn spec_fat_date(ymd: u16) -> FatDate {
    FatDate {
        year: spec_fat_date_year(ymd),
        month: spec_fat_date_month(ymd),
        day: spec_fat_date_day(ymd),
    }
}

/// Whether `year` is a Gregorian leap year.
pub open spec fn spec_is_leap_year(year: int) -> bool {
    year % 4 == 0 && (year % 100 != 0 || year % 400 == 0)
}

/// The number of days in `month` of `year` in the Gregorian calendar.
pub open spec fn spec_days_in_month(year: int, month: int) -> int {
    if month == 2 {
        if spec_is_leap_year(year) {
            29
        } else {
            28
        }
    } else if month == 4 || month == 6 || month == 9 || month == 11 {
        30
    } else {
        31
    }
}

/// Whether year, month and day name a real Gregorian calendar date.
pub open spec fn spec_valid_date(year: int, month: int, day: int) -> bool {
    1 <= month <= 12 && 1 <= day <= spec_days_in_month(year, month)
}

/// Whether a packed date word unpacks to a real calendar date.
pub open spec fn spec_fat_date_valid(ymd: u16) -> bool {
    spec_valid_date(
        spec_fat_date_year(ymd) as int,
        spec_fat_date_month(ymd) as int,
        spec_fat_date_day(ymd) as int,
    )
}

/// Relies on chrono's NaiveDate::from_ymd_opt: for a year well inside its
/// supported range it returns Some exactly when month and day form a real
/// calendar date.
#[verifier::external_body]
fn chrono_ymd_is_valid(year: u16, month: u8, day: u8) -> (r: bool)
    requires
        1980 <= year <= 2107,
    ensures
        r == spec_valid_date(year as int, month as int, day as int),
{
    chrono::NaiveDate::from_ymd_opt(year as i32, month as u32, day as u32).is_some()
}

/// Relies on chrono's NaiveTime::from_hms_milli_opt: below the
/// leap-second millisecond range it returns Some exactly when hour, minute
/// and second are in range.
#[verifier::external_body]
fn chrono_hms_milli_is_valid(hour: u8, minute: u8, second: u8, millisecond: u16) -> (r: bool)
    requires
        millisecond < 1000,
    ensures
        r == (hour < 24 && minute < 60 && second < 60),
{
    chrono::NaiveTime::from_hms_milli_opt(
        hour as u32,
        minute as u32,
        second as u32,
        millisecond as u32,
    ).is_some()
}

/// Relies on chrono's NaiveTime::from_hms_opt: it returns Some exactly
/// when hour, minute and second are in range.
#[verifier::external_body]
fn chrono_hms_is_valid(hour: u8, minute: u8, second: u8) -> (r: bool)
    ensures
        r == (hour < 24 && minute < 60 && second < 60),
{
    chrono::NaiveTime::from_hms_opt(hour as u32, minute as u32, second as u32).is_some()
}

/// Unpack a 16-bit packed date; None when the fields do not name a real
/// calendar date.
pub fn fat_date_decode(ymd: u16) -> (r: Option<FatDate>)
    ensures
        (r is Some) <==> spec_fat_date_valid(ymd),
        r matches Some(d) ==> d == spec_fat_date(ymd),
{
    proof {
        assert((ymd & 0xfe00) >> 9 <= 127) by (bit_vector);
        assert((ymd & 0x01e0) >> 5 <= 15) by (bit_vector);
        assert(ymd & 0x001f <= 31) by (bit_vector);
    }
    let year: u16 = ((ymd & 0xfe00) >> 9) + 1980;
    let month: u8 = ((ymd & 0x01e0) >> 5) as u8;
    let day: u8 = (ymd & 0x001f) as u8;
    if chrono_ymd_is_valid(year, month, day) {
        Some(FatDate { year, month, day })
    } else {
        None
    }
}

/// The hour stored in a packed time word (top 5 bits).
pub open spec fn spec_fat_time_hour(hms: u16) -> u8 {
    ((hms & 0xf800) >> 11) as u8
}

/// The minute stored in a packed time word (middle 6 bits).
pub open spec fn spec_fat_time_minute(hms: u16) -> u8 {
    ((hms & 0x07e0) >> 5) as u8
}

/// The fine-resolution time unpacked from a centiseconds byte and a packed
/// time word: the word gives hour and minute, the byte gives seconds in
/// hundredths.
pub open spec fn spec_fat_fine_time(centi: u8, hms: u16) -> FatTime {
    FatTime {
        hour: spec_fat_time_hour(hms),
        minute: spec_fat_time_minute(hms),
        second: (centi / 100) as u8,
        millisecond: (10 * (centi % 100)) as u16,
    }
}

/// Whether the fine-resolution fields name a real time of day.
pub open spec fn spec_fat_fine_time_valid(centi: u8, hms: u16) -> bool {
    spec_fat_time_hour(hms) < 24 && spec_fat_time_minute(hms) < 60 && centi / 100 < 60
}

/// The 2-second-resolution time unpacked from a packed time word alone.
pub open spec fn spec_fat_time(hms: u16) -> FatTime {
    FatTime {
        hour: spec_fat_time_hour(hms),
        minute: spec_fat_time_minute(hms),
        second: (2 * (hms & 0x001f)) as u8,
        millisecond: 0,
    }
}

/// Whether the packed time word names a real time of day.
pub open spec fn spec_fat_time_valid(hms: u16) -> bool {
    spec_fat_time_hour(hms) < 24 && spec_fat_time_minute(hms) < 60 && 2 * (hms & 0x001f) < 60
}

/// Unpack a creation time from its centiseconds byte and packed word;
/// None when the fields do not name a real time of day.
pub fn fat_fine_time_decode(centi: u8, hms: u16) -> (r: Option<FatTime>)
    ensures
        (r is Some) <==> spec_fat_fine_time_valid(centi, hms),
        r matches Some(t) ==> t == spec_fat_fine_time(centi, hms),
{
    proof {
        assert((hms & 0xf800) >> 11 <= 31) by (bit_vector);
        assert((hms & 0x07e0) >> 5 <= 63) by (bit_vector);
    }
    let hour: u8 = ((hms & 0xf800) >> 11) as u8;
    let minute: u8 = ((hms & 0x07e0) >> 5) as u8;
    let second: u8 = centi / 100;
    let millisecond: u16 = 10 * ((centi % 100) as u16);
    if chrono_hms_milli_is_valid(hour, minute, second, millisecond) {
        Some(FatTime { hour, minute, second, millisecond })
    } else {
        None
    }
}

/// Unpack a 2-second-resolution time from its packed word; None when the
/// fields do not name a real time of day.
pub fn fat_time_decode(hms: u16) -> (r: Option<FatTime>)
    ensures
        (r is Some) <==> spec_fat_time_valid(hms),
        r matches Some(t) ==> t == spec_fat_time(hms),
{
    proof {
        assert((hms & 0xf800) >> 11 <= 31) by (bit_vector);
        assert((hms & 0x07e0) >> 5 <= 63) by (bit_vector);
        assert(hms & 0x001f <= 31) by (bit_vector);
    }
    let hour: u8 = ((hms & 0xf800) >> 11) as u8;
    let minute: u8 = ((hms & 0x07e0) >> 5) as u8;
    let second: u8 = 2 * ((hms & 0x001f) as u8);
    if chrono_hms_is_valid(hour, minute, second) {
        Some(FatTime { hour, minute, second, millisecond: 0 })
    } else {
        None
    }
}


/// The BIOS Parameter Block fields of a FAT boot sector, plus the
/// width-specific extension record.
#[derive(Debug, Clone)]
pub struct FatBootSector {
    pub jump_instruction: [u8; 3],
    pub oem_name: [u8; 8],
    pub bytes_per_sector: u16,
    pub sectors_per_cluster: u8,
    pub reserved_sectors: u16,
    pub number_of_fats: u8,
    pub root_directory_entries: u16,
    pub sectors_in_filesystem: u32,
    pub media_descriptor: u8,
    pub sectors_per_fat: u32,
    pub sectors_per_track: u16,
    pub number_of_heads: u16,
    pub hidden_sectors: u32,
    pub signature: [u8; 2],
    pub extra: FatBootSectorExtra,
}

/// The FAT12 extension carries no extra fields.
#[derive(Debug, Clone)]
pub struct Fat12BootExtra {}

/// The FAT16 extended BIOS Parameter Block. The serial number, volume
/// label and filesystem-type string are present only when the extended
/// boot signature announces them.
#[derive(Debug, Clone)]
pub struct Fat16BootExtra {
    pub logical_drive_number: u8,
    pub flags: u8,
    pub extended_signature: u8,
    pub serial_number: Option<u32>,
    pub volume_label: Option<[u8; 11]>,
    pub file_system_type: Option<[u8; 8]>,
}

/// The FAT32 extended BIOS Parameter Block.
#[derive(Debug, Clone)]
pub struct Fat32BootExtra {
    pub mirror_flags: u16,
    pub filesystem_version: u16,
    pub root_directory_cluster: u32,
    pub fsinfo_sector: u16,
    pub backup_boot_sector: u16,
    pub reserved: [u8; 12],
    pub logical_drive_number: u8,
    pub reserved2: u8,
    pub extended_signature: u8,
    pub serial_number: Option<u32>,
    pub volume_label: Option<[u8; 11]>,
    pub file_system_type: Option<[u8; 8]>,
}

/// The width-specific tail of a FAT boot sector. The active variant is
/// determined by the computed data-cluster count, never declared.
#[derive(Debug, Clone)]
pub enum FatBootSectorExtra {
    Fat12(Fat12BootExtra),
    Fat16(Fat16BootExtra),
    Fat32(Fat32BootExtra),
}

// Field extraction from a 512-byte boot-sector window.

pub open spec fn spec_bps(w: Seq<u8>) -> u16 {
    spec_le16(w, 0x0b)
}

pub open spec fn spec_spc(w: Seq<u8>) -> u8 {
    w[0x0d]
}

pub open spec fn spec_reserved_sectors(w: Seq<u8>) -> u16 {
    spec_le16(w, 0x0e)
}

pub open spec fn spec_nfats(w: Seq<u8>) -> u8 {
    w[0x10]
}

pub open spec fn spec_root_entries(w: Seq<u8>) -> u16 {
    spec_le16(w, 0x11)
}

/// The total sector count: the 16-bit field, or, when that is zero (the
/// FAT32 convention), the 32-bit field at offset 0x20.
pub open spec fn spec_total_sectors(w: Seq<u8>) -> u32 {
    if spec_le16(w, 0x13) == 0 {
        spec_le32(w, 0x20)
    } else {
        spec_le16(w, 0x13) as u32
    }
}

/// The sectors-per-FAT count: the 16-bit field, or, when that is zero
/// (the FAT32 convention), the 32-bit field at offset 0x24.
pub open spec fn spec_spf(w: Seq<u8>) -> u32 {
    if spec_le16(w, 0x16) == 0 {
        spec_le32(w, 0x24)
    } else {
        spec_le16(w, 0x16) as u32
    }
}

/// The sectors the fixed root directory occupies, rounded up to whole
/// sectors. Meaningful only when the sector size is nonzero.
pub open spec fn spec_root_dir_sectors(w: Seq<u8>) -> int {
    (spec_root_entries(w) * 32 + spec_bps(w) - 1) / (spec_bps(w) as int)
}

/// The sectors taken by everything before the data region: the reserved
/// area, every FAT copy, and the root directory.
pub open spec fn spec_overhead_sectors(w: Seq<u8>) -> int {
    spec_reserved_sectors(w) + spec_nfats(w) * spec_spf(w) + spec_root_dir_sectors(w)
}

/// The sectors of the data region.
pub open spec fn spec_data_sectors(w: Seq<u8>) -> int {
    spec_total_sectors(w) - spec_overhead_sectors(w)
}

/// The number of data clusters, which alone decides the FAT width.
pub open spec fn spec_data_clusters(w: Seq<u8>) -> int {
    spec_data_sectors(w) / (spec_spc(w) as int)
}

/// Cluster arithmetic on the window is possible: sectors and clusters
/// have nonzero size and the volume holds at least its overhead.
pub open spec fn spec_fat_geometry_ok(w: Seq<u8>) -> bool {
    &&& spec_bps(w) != 0
    &&& spec_spc(w) != 0
    &&& spec_data_sectors(w) >= 0
}

/// `x` is the decoding of the FAT16 extended BPB in window `w`.
pub open spec fn fat16_extra_matches(x: Fat16BootExtra, w: Seq<u8>) -> bool {
    &&& x.logical_drive_number == w[0x24]
    &&& x.flags == w[0x25]
    &&& x.extended_signature == w[0x26]
    &&& x.serial_number == (if w[0x26] == 0x28 || w[0x26] == 0x29 {
        Some(spec_le32(w, 0x27))
    } else {
        None
    })
    &&& (w[0x26] == 0x29 ==> (x.volume_label matches Some(l) && l@ == w.subrange(0x2b, 0x36)))
    &&& (w[0x26] != 0x29 ==> x.volume_label is None)
    &&& (w[0x26] == 0x29 ==> (x.file_system_type matches Some(t) && t@ == w.subrange(0x36, 0x3e)))
    &&& (w[0x26] != 0x29 ==> x.file_system_type is None)
}

/// `x` is the decoding of the FAT32 extended BPB in window `w`.
pub open spec fn fat32_extra_matches(x: Fat32BootExtra, w: Seq<u8>) -> bool {
    &&& x.mirror_flags == spec_le16(w, 0x28)
    &&& x.filesystem_version == spec_le16(w, 0x2a)
    &&& x.root_directory_cluster == spec_le32(w, 0x2c)
    &&& x.fsinfo_sector == spec_le16(w, 0x30)
    &&& x.backup_boot_sector == spec_le16(w, 0x32)
    &&& x.reserved@ == w.subrange(0x34, 0x40)
    &&& x.logical_drive_number == w[0x40]
    &&& x.reserved2 == w[0x41]
    &&& x.extended_signature == w[0x37]
    &&& x.serial_number == (if w[0x37] == 0x28 || w[0x37] == 0x29 {
        Some(spec_le32(w, 0x43))
    } else {
        None
    })
    &&& (w[0x37] == 0x29 ==> (x.volume_label matches Some(l) && l@ == w.subrange(0x47, 0x52)))
    &&& (w[0x37] != 0x29 ==> x.volume_label is None)
    &&& (w[0x37] == 0x29 ==> (x.file_system_type matches Some(t) && t@ == w.subrange(0x52, 0x5a)))
    &&& (w[0x37] != 0x29 ==> x.file_system_type is None)
}

/// `b` is the decoding of the 512-byte FAT boot sector `w`, its extension
/// variant chosen by the data-cluster count.
pub open spec fn fat_boot_sector_matches(b: FatBootSector, w: Seq<u8>) -> bool {
    &&& b.jump_instruction@ == w.subrange(0, 3)
    &&& b.oem_name@ == w.subrange(3, 0x0b)
    &&& b.bytes_per_sector == spec_bps(w)
    &&& b.sectors_per_cluster == spec_spc(w)
    &&& b.reserved_sectors == spec_reserved_sectors(w)
    &&& b.number_of_fats == spec_nfats(w)
    &&& b.root_directory_entries == spec_root_entries(w)
    &&& b.sectors_in_filesystem == spec_total_sectors(w)
    &&& b.media_descriptor == w[0x15]
    &&& b.sectors_per_fat == spec_spf(w)
    &&& b.sectors_per_track == spec_le16(w, 0x18)
    &&& b.number_of_heads == spec_le16(w, 0x1a)
    &&& b.hidden_sectors == spec_le32(w, 0x1c)
    &&& b.signature@ == seq![w[510], w[511]]
    &&& (spec_fat_type(spec_data_clusters(w)) == FatType::Fat12 ==> b.extra matches
        FatBootSectorExtra::Fat12(_))
    &&& (spec_fat_type(spec_data_clusters(w)) == FatType::Fat16 ==> (b.extra matches
        FatBootSectorExtra::Fat16(x) && fat16_extra_matches(x, w)))
    &&& (spec_fat_type(spec_data_clusters(w)) == FatType::Fat32 ==> (b.extra matches
        FatBootSectorExtra::Fat32(x) && fat32_extra_matches(x, w)))
}

impl FatBootSector {
    /// Decode the FAT boot sector at byte offset `start_pos`: verify the
    /// 0x55 0xAA signature, extract the BIOS Parameter Block, compute the
    /// data-cluster count (rejecting geometries on which the arithmetic
    /// is impossible), and decode the width-specific extension chosen by
    /// that count.
    pub fn from_partition_image(image: &[u8], start_pos: u64) -> (r: Result<
        FatBootSector,
        ImageError,
    >)
        ensures
            (start_pos + 512 > image@.len()) <==> (r matches Err(ImageError::ShortRead)),
            ({
                let w = image@.subrange(start_pos as int, start_pos + 512);
                let in_range = start_pos + 512 <= image@.len();
                &&& (in_range && !crate::bootsector::spec_signature_ok(w)) <==> (r matches Err(
                    ImageError::InvalidSignature(_),
                ))
                &&& (r matches Err(ImageError::InvalidSignature(s)) ==> s@ == seq![
                    w[510],
                    w[511],
                ])
                &&& (in_range && crate::bootsector::spec_signature_ok(w) && !spec_fat_geometry_ok(
                    w,
                )) <==> (r matches Err(ImageError::InvalidFatGeometry))
                &&& (in_range && crate::bootsector::spec_signature_ok(w) && spec_fat_geometry_ok(
                    w,
                )) <==> r is Ok
                &&& (r matches Ok(b) ==> fat_boot_sector_matches(b, w))
            }),
    {
        let len: usize = image.len();
        if (len as u64) < 512 || start_pos > (len as u64) - 512 {
            return Err(ImageError::ShortRead);
        }
        let base: usize = start_pos as usize;
        let w: &[u8] = &image[base..base + 512];
        let ghost wv = image@.subrange(start_pos as int, start_pos + 512);
        assert(w@ == wv);

        let s0: u8 = w[510];
        let s1: u8 = w[511];
        if !(s0 == 0x55 && s1 == 0xaa) {
            return Err(ImageError::InvalidSignature([s0, s1]));
        }

        let bytes_per_sector: u16 = le16(w, 0x0b);
        let sectors_per_cluster: u8 = w[0x0d];
        let reserved_sectors: u16 = le16(w, 0x0e);
        let number_of_fats: u8 = w[0x10];
        let root_directory_entries: u16 = le16(w, 0x11);

        let total16: u16 = le16(w, 0x13);
        let sectors_in_filesystem: u32 = if total16 == 0 {
            le32(w, 0x20)
        } else {
            total16 as u32
        };

        let media_descriptor: u8 = w[0x15];
        let spf16: u16 = le16(w, 0x16);
        let sectors_per_fat: u32 = if spf16 == 0 {
            le32(w, 0x24)
        } else {
            spf16 as u32
        };
        let sectors_per_track: u16 = le16(w, 0x18);
        let number_of_heads: u16 = le16(w, 0x1a);
        let hidden_sectors: u32 = le32(w, 0x1c);

        if bytes_per_sector == 0 || sectors_per_cluster == 0 {
            return Err(ImageError::InvalidFatGeometry);
        }

        let root_dir_bytes: u32 = (root_directory_entries as u32) * 32;
        let root_dir_sectors: u32 = (root_dir_bytes + (bytes_per_sector as u32) - 1)
            / (bytes_per_sector as u32);
        proof {
            assert((number_of_fats as u64) * (sectors_per_fat as u64) <= 255u64 * 0xffff_ffffu64)
                by (nonlinear_arith)
                requires
                    number_of_fats as u64 <= 255,
                    sectors_per_fat as u64 <= 0xffff_ffff,
            ;
        }
        let overhead: u64 = (reserved_sectors as u64) + (number_of_fats as u64) * (sectors_per_fat
            as u64) + (root_dir_sectors as u64);
        if (sectors_in_filesystem as u64) < overhead {
            return Err(ImageError::InvalidFatGeometry);
        }
        let data_sectors: u32 = ((sectors_in_filesystem as u64) - overhead) as u32;
        let data_clusters: u32 = data_sectors / (sectors_per_cluster as u32);
        proof {
            assert(root_dir_sectors == spec_root_dir_sectors(wv));
            assert(overhead == spec_overhead_sectors(wv));
            assert(data_sectors == spec_data_sectors(wv));
            assert(data_clusters == spec_data_clusters(wv));
        }

        let fat_type: FatType = classify_fat_width(data_clusters);

        let extra: FatBootSectorExtra = match fat_type {
            FatType::Fat12 => FatBootSectorExtra::Fat12(Fat12BootExtra {  }),
            FatType::Fat16 => {
                let logical_drive_number: u8 = w[0x24];
                let flags: u8 = w[0x25];
                let extended_signature: u8 = w[0x26];
                let serial_number: Option<u32> = if extended_signature == 0x28
                    || extended_signature == 0x29 {
                    Some(le32(w, 0x27))
                } else {
                    None
                };
                let volume_label: Option<[u8; 11]> = if extended_signature == 0x29 {
                    Some(
                        [
                            w[0x2b],
                            w[0x2c],
                            w[0x2d],
                            w[0x2e],
                            w[0x2f],
                            w[0x30],
                            w[0x31],
                            w[0x32],
                            w[0x33],
                            w[0x34],
                            w[0x35],
                        ],
                    )
                } else {
                    None
                };
                let file_system_type: Option<[u8; 8]> = if extended_signature == 0x29 {
                    Some([w[0x36], w[0x37], w[0x38], w[0x39], w[0x3a], w[0x3b], w[0x3c], w[0x3d]])
                } else {
                    None
                };
                FatBootSectorExtra::Fat16(
                    Fat16BootExtra {
                        logical_drive_number,
                        flags,
                        extended_signature,
                        serial_number,
                        volume_label,
                        file_system_type,
                    },
                )
            },
            FatType::Fat32 => {
                let mirror_flags: u16 = le16(w, 0x28);
                let filesystem_version: u16 = le16(w, 0x2a);
                let root_directory_cluster: u32 = le32(w, 0x2c);
                let fsinfo_sector: u16 = le16(w, 0x30);
                let backup_boot_sector: u16 = le16(w, 0x32);
                let reserved: [u8; 12] = [
                    w[0x34],
                    w[0x35],
                    w[0x36],
                    w[0x37],
                    w[0x38],
                    w[0x39],
                    w[0x3a],
                    w[0x3b],
                    w[0x3c],
                    w[0x3d],
                    w[0x3e],
                    w[0x3f],
                ];
                let logical_drive_number: u8 = w[0x40];
                let reserved2: u8 = w[0x41];
                let extended_signature: u8 = w[0x37];
                let serial_number: Option<u32> = if extended_signature == 0x28
                    || extended_signature == 0x29 {
                    Some(le32(w, 0x43))
                } else {
                    None
                };
                let volume_label: Option<[u8; 11]> = if extended_signature == 0x29 {
                    Some(
                        [
                            w[0x47],
                            w[0x48],
                            w[0x49],
                            w[0x4a],
                            w[0x4b],
                            w[0x4c],
                            w[0x4d],
                            w[0x4e],
                            w[0x4f],
                            w[0x50],
                            w[0x51],
                        ],
                    )
                } else {
                    None
                };
                let file_system_type: Option<[u8; 8]> = if extended_signature == 0x29 {
                    Some([w[0x52], w[0x53], w[0x54], w[0x55], w[0x56], w[0x57], w[0x58], w[0x59]])
                } else {
                    None
                };
                FatBootSectorExtra::Fat32(
                    Fat32BootExtra {
                        mirror_flags,
                        filesystem_version,
                        root_directory_cluster,
                        fsinfo_sector,
                        backup_boot_sector,
                        reserved,
                        logical_drive_number,
                        reserved2,
                        extended_signature,
                        serial_number,
                        volume_label,
                        file_system_type,
                    },
                )
            },
        };

        let b = FatBootSector {
            jump_instruction: [w[0], w[1], w[2]],
            oem_name: [w[3], w[4], w[5], w[6], w[7], w[8], w[9], w[10]],
            bytes_per_sector,
            sectors_per_cluster,
            reserved_sectors,
            number_of_fats,
            root_directory_entries,
            sectors_in_filesystem,
            media_descriptor,
            sectors_per_fat,
            sectors_per_track,
            number_of_heads,
            hidden_sectors,
            signature: [s0, s1],
            extra,
        };
        proof {
            assert(b.jump_instruction@ =~= wv.subrange(0, 3));
            assert(b.oem_name@ =~= wv.subrange(3, 0x0b));
            assert(b.signature@ =~= seq![wv[510], wv[511]]);
            match &b.extra {
                FatBootSectorExtra::Fat12(_) => {},
                FatBootSectorExtra::Fat16(x) => {
                    match &x.volume_label {
                        Some(l) => {
                            assert(l@ =~= wv.subrange(0x2b, 0x36));
                        },
                        None => {},
                    }
                    match &x.file_system_type {
                        Some(t) => {
                            assert(t@ =~= wv.subrange(0x36, 0x3e));
                        },
                        None => {},
                    }
                },
                FatBootSectorExtra::Fat32(x) => {
                    assert(x.reserved@ =~= wv.subrange(0x34, 0x40));
                    match &x.volume_label {
                        Some(l) => {
                            assert(l@ =~= wv.subrange(0x47, 0x52));
                        },
                        None => {},
                    }
                    match &x.file_system_type {
                        Some(t) => {
                            assert(t@ =~= wv.subrange(0x52, 0x5a));
                        },
                        None => {},
                    }
                },
            }
        }
        Ok(b)
    }
}


// Derived layout offsets, all relative to the start of the partition.

/// The byte offset of FAT copy `fat_index`: the reserved area comes
/// first, then the copies back to back.
pub open spec fn spec_fat_table_offset(bs: FatBootSector, fat_index: int) -> int {
    (bs.reserved_sectors + fat_index * bs.sectors_per_fat) * bs.bytes_per_sector
}

/// The byte offset of the fixed root directory: right after the last FAT
/// copy.
pub open spec fn spec_root_directory_offset(bs: FatBootSector) -> int {
    spec_fat_table_offset(bs, bs.number_of_fats as int)
}

/// The byte offset of the data region: right after the root directory's
/// 32-byte entries.
pub open spec fn spec_data_start_offset(bs: FatBootSector) -> int {
    spec_root_directory_offset(bs) + bs.root_directory_entries * 32
}

/// The byte size of one cluster.
pub open spec fn spec_bytes_per_cluster(bs: FatBootSector) -> int {
    bs.sectors_per_cluster * bs.bytes_per_sector
}

/// The byte offset of data cluster `cluster`; clusters 0 and 1 are
/// reserved, so cluster 2 sits at the start of the data region.
pub open spec fn spec_cluster_offset(bs: FatBootSector, cluster: u32) -> int {
    spec_data_start_offset(bs) + spec_bytes_per_cluster(bs) * (cluster - 2)
}

impl FatBootSector {
    /// The byte offset, relative to the partition start, of FAT copy
    /// `fat_index`.
    pub fn get_fat_table_offset(&self, fat_index: usize) -> (r: u64)
        requires
            fat_index <= 255,
        ensures
            r == spec_fat_table_offset(*self, fat_index as int),
            r < 0x100_0000_0000_0000,
    {
        proof {
            assert((fat_index as u64) * (self.sectors_per_fat as u64) <= 255u64
                * 0xffff_ffffu64) by (nonlinear_arith)
                requires
                    fat_index as u64 <= 255,
                    self.sectors_per_fat as u64 <= 0xffff_ffff,
            ;
            assert(((self.reserved_sectors as u64) + (fat_index as u64) * (self.sectors_per_fat
                as u64)) * (self.bytes_per_sector as u64) < 0x100_0000_0000_0000) by (
            nonlinear_arith)
                requires
                    (self.reserved_sectors as u64) + (fat_index as u64) * (self.sectors_per_fat
                        as u64) <= 0xffffu64 + 255u64 * 0xffff_ffffu64,
                    self.bytes_per_sector as u64 <= 0xffff,
            ;
        }
        ((self.reserved_sectors as u64) + (fat_index as u64) * (self.sectors_per_fat as u64)) * (
        self.bytes_per_sector as u64)
    }

    /// The byte offset, relative to the partition start, of the fixed
    /// root directory.
    pub fn get_root_directory_offset(&self) -> (r: u64)
        ensures
            r == spec_root_directory_offset(*self),
            r < 0x100_0000_0000_0000,
    {
        self.get_fat_table_offset(self.number_of_fats as usize)
    }

    /// The byte offset, relative to the partition start, of the data
    /// region.
    pub fn get_data_start_offset(&self) -> (r: u64)
        ensures
            r == spec_data_start_offset(*self),
            r < 0x200_0000_0000_0000,
    {
        self.get_root_directory_offset() + (self.root_directory_entries as u64) * 32
    }

    /// The byte offset, relative to the partition start, of data cluster
    /// `cluster`.
    pub fn get_cluster_offset(&self, cluster: u32) -> (r: u64)
        requires
            cluster >= 2,
        ensures
            r == spec_cluster_offset(*self, cluster),
            r < 0x400_0000_0000_0000,
    {
        proof {
            assert((self.sectors_per_cluster as u64) * (self.bytes_per_sector as u64) <= 255u64
                * 0xffffu64) by (nonlinear_arith)
                requires
                    self.sectors_per_cluster as u64 <= 255,
                    self.bytes_per_sector as u64 <= 0xffff,
            ;
        }
        let cluster_bytes: u64 = (self.sectors_per_cluster as u64) * (self.bytes_per_sector
            as u64);
        proof {
            assert(cluster_bytes * ((cluster - 2) as u64) <= 0xff_ff01u64 * 0xffff_ffffu64) by (
            nonlinear_arith)
                requires
                    cluster_bytes <= 0xff_ff01,
                    cluster >= 2,
                    cluster <= 0xffff_ffffu32,
            ;
        }
        self.get_data_start_offset() + cluster_bytes * ((cluster as u64) - 2)
    }

    /// The byte size of one cluster.
    pub fn get_bytes_per_cluster(&self) -> (r: usize)
        ensures
            r == spec_bytes_per_cluster(*self),
            r <= 0xff_ff01,
    {
        proof {
            assert((self.sectors_per_cluster as usize) * (self.bytes_per_sector as usize)
                <= 0xff_ff01) by (nonlinear_arith)
                requires
                    self.sectors_per_cluster as usize <= 255,
                    self.bytes_per_sector as usize <= 0xffff,
            ;
        }
        (self.sectors_per_cluster as usize) * (self.bytes_per_sector as usize)
    }
}

// Allocation-table decoding: three physical encodings, one uniform
// in-memory form of 32-bit entries.

/// The even entry of a FAT12 byte triple: all of byte 0 plus the low
/// nibble of byte 1.
pub open spec fn spec_fat12_even(b0: u8, b1: u8) -> u32 {
    (b0 as u32) | (((b1 as u32) & 0x0f) << 8)
}

/// The odd entry of a FAT12 byte triple: the high nibble of byte 1 plus
/// all of byte 2.
pub open spec fn spec_fat12_odd(b1: u8, b2: u8) -> u32 {
    (((b1 as u32) & 0xf0) >> 4) | ((b2 as u32) << 4)
}

/// How many table entries a byte run of length `len` decodes to.
pub open spec fn spec_fat_entry_count(len: int, ft: FatType) -> int {
    match ft {
        FatType::Fat12 => 2 * (len / 3),
        FatType::Fat16 => len / 2,
        FatType::Fat32 => len / 4,
    }
}

/// Entry `j` of the decoded table: FAT12 packs two entries per byte
/// triple, FAT16 and FAT32 use plain little-endian words.
pub open spec fn spec_fat_entry(b: Seq<u8>, ft: FatType, j: int) -> u32 {
    match ft {
        FatType::Fat12 => if j % 2 == 0 {
            spec_fat12_even(b[3 * (j / 2)], b[3 * (j / 2) + 1])
        } else {
            spec_fat12_odd(b[3 * (j / 2) + 1], b[3 * (j / 2) + 2])
        },
        FatType::Fat16 => spec_le16(b, 2 * j) as u32,
        FatType::Fat32 => spec_le32(b, 4 * j),
    }
}

/// `t` is the decoded form of the raw table bytes `b`.
pub open spec fn fat_table_matches(t: Seq<u32>, b: Seq<u8>, ft: FatType) -> bool {
    &&& t.len() == spec_fat_entry_count(b.len() as int, ft)
    &&& forall|j: int| 0 <= j < t.len() ==> #[trigger] t[j] == spec_fat_entry(b, ft, j)
}

/// Packing two 12-bit values into a byte triple and decoding the triple
/// again yields the two values: the even entry is `a`, the odd one `b`.
pub proof fn lemma_fat12_round_trip(a: u32, b: u32)
    requires
        a < 0x1000,
        b < 0x1000,
    ensures
        spec_fat12_even((a & 0xff) as u8, ((a >> 8) | ((b & 0x0f) << 4)) as u8) == a,
        spec_fat12_odd(((a >> 8) | ((b & 0x0f) << 4)) as u8, (b >> 4) as u8) == b,
{
    assert(spec_fat12_even((a & 0xff) as u8, ((a >> 8) | ((b & 0x0f) << 4)) as u8) == ((((a
        & 0xff) as u8) as u32) | (((((a >> 8) | ((b & 0x0f) << 4)) as u8) as u32 & 0x0f) << 8)));
    assert((((a & 0xff) as u8) as u32) | (((((a >> 8) | ((b & 0x0f) << 4)) as u8) as u32 & 0x0f)
        << 8) == a) by (bit_vector)
        requires
            a < 0x1000,
            b < 0x1000,
    ;
    assert(spec_fat12_odd(((a >> 8) | ((b & 0x0f) << 4)) as u8, (b >> 4) as u8) == (((((a >> 8) | (
    (b & 0x0f) << 4)) as u8) as u32 & 0xf0) >> 4) | ((((b >> 4) as u8) as u32) << 4));
    assert((((((a >> 8) | ((b & 0x0f) << 4)) as u8) as u32 & 0xf0) >> 4) | ((((b >> 4) as u8)
        as u32) << 4) == b) by (bit_vector)
        requires
            a < 0x1000,
            b < 0x1000,
    ;
}

/// Decode one raw FAT copy into its uniform 32-bit entries.
pub fn decode_fat_table(bytes: &[u8], fat_type: FatType) -> (r: Vec<u32>)
    requires
        fat_type == FatType::Fat12 ==> bytes@.len() % 3 == 0,
        fat_type == FatType::Fat16 ==> bytes@.len() % 2 == 0,
        fat_type == FatType::Fat32 ==> bytes@.len() % 4 == 0,
    ensures
        fat_table_matches(r@, bytes@, fat_type),
{
    let n: usize = bytes.len();
    let mut t: Vec<u32> = Vec::new();
    match fat_type {
        FatType::Fat12 => {
            // Two 12-bit entries per three bytes.
            let mut i: usize = 0;
            while i < n
                invariant
                    bytes@.len() == n,
                    n % 3 == 0,
                    i % 3 == 0,
                    i <= n,
                    t@.len() == 2 * (i / 3),
                    forall|j: int| 0 <= j < t@.len() ==> #[trigger] t@[j] == spec_fat_entry(
                        bytes@,
                        FatType::Fat12,
                        j,
                    ),
                decreases n - i,
            {
                assert(i + 3 <= n);
                let first: u32 = (bytes[i] as u32) | (((bytes[i + 1] as u32) & 0x0f) << 8);
                let second: u32 = (((bytes[i + 1] as u32) & 0xf0) >> 4) | ((bytes[i + 2] as u32)
                    << 4);
                let ghost old_len = t@.len();
                t.push(first);
                t.push(second);
                proof {
                    assert(3 * ((i / 3) as int) == i);
                    assert(old_len == 2 * ((i / 3) as int));
                    assert(old_len % 2 == 0);
                    assert(old_len / 2 == i / 3);
                    assert(t@[old_len as int] == spec_fat_entry(bytes@, FatType::Fat12, old_len as int));
                    assert((old_len + 1) as int % 2 == 1);
                    assert(((old_len + 1) as int) / 2 == i / 3);
                    assert(t@[old_len as int + 1] == spec_fat_entry(
                        bytes@,
                        FatType::Fat12,
                        old_len as int + 1,
                    ));
                    assert(2 * (((i + 3) / 3) as int) == old_len + 2);
                }
                i = i + 3;
            }
            assert(2 * ((n / 3) as int) == spec_fat_entry_count(n as int, FatType::Fat12));
        },
        FatType::Fat16 => {
            // 16-bit little-endian entries.
            let mut i: usize = 0;
            while i < n
                invariant
                    bytes@.len() == n,
                    n % 2 == 0,
                    i % 2 == 0,
                    i <= n,
                    t@.len() == i / 2,
                    forall|j: int| 0 <= j < t@.len() ==> #[trigger] t@[j] == spec_fat_entry(
                        bytes@,
                        FatType::Fat16,
                        j,
                    ),
                decreases n - i,
            {
                assert(i + 2 <= n);
                let ghost old_len = t@.len();
                t.push(le16(bytes, i) as u32);
                proof {
                    assert(2 * ((i / 2) as int) == i);
                    assert(t@[old_len as int] == spec_fat_entry(bytes@, FatType::Fat16, old_len as int));
                }
                i = i + 2;
            }
        },
        FatType::Fat32 => {
            // 32-bit little-endian entries.
            let mut i: usize = 0;
            while i < n
                invariant
                    bytes@.len() == n,
                    n % 4 == 0,
                    i % 4 == 0,
                    i <= n,
                    t@.len() == i / 4,
                    forall|j: int| 0 <= j < t@.len() ==> #[trigger] t@[j] == spec_fat_entry(
                        bytes@,
                        FatType::Fat32,
                        j,
                    ),
                decreases n - i,
            {
                assert(i + 4 <= n);
                let ghost old_len = t@.len();
                t.push(le32(bytes, i));
                proof {
                    assert(4 * ((i / 4) as int) == i);
                    assert(t@[old_len as int] == spec_fat_entry(bytes@, FatType::Fat32, old_len as int));
                }
                i = i + 4;
            }
        },
    }
    t
}


/// One 32-byte FAT directory entry, dates and times already unpacked and
/// validated.
#[derive(Debug, Clone)]
pub struct FatDirectoryEntry {
    pub filename: [u8; 8],
    pub extension: [u8; 3],
    pub attributes: u8,
    pub reserved: u8,
    pub creation_timestamp: Option<FatTimestamp>,
    pub last_access_date: Option<FatDate>,
    pub extended_attributes_cluster: Option<u32>,
    pub last_modification_timestamp: Option<FatTimestamp>,
    pub first_cluster: u32,
    pub file_size: u32,
}

/// `e` is the decoding of the 32-byte directory record `w` on a volume of
/// width `ft`: name and extension as raw bytes, timestamps present
/// exactly when their packed fields name a real date and time, and the
/// word at offset 20 read as an extended-attributes cluster (FAT12/16) or
/// as the high half of the first cluster (FAT32).
pub open spec fn dir_entry_matches(e: FatDirectoryEntry, w: Seq<u8>, ft: FatType) -> bool {
    let centi = w[13];
    let ctime = spec_le16(w, 14);
    let cdate = spec_le16(w, 16);
    let adate = spec_le16(w, 18);
    let word20 = spec_le16(w, 20);
    let mtime = spec_le16(w, 22);
    let mdate = spec_le16(w, 24);
    &&& e.filename@ == w.subrange(0, 8)
    &&& e.extension@ == w.subrange(8, 11)
    &&& e.attributes == w[11]
    &&& e.reserved == w[12]
    &&& e.creation_timestamp == (if spec_fat_date_valid(cdate) && spec_fat_fine_time_valid(
        centi,
        ctime,
    ) {
        Some(
            FatTimestamp { date: spec_fat_date(cdate), time: spec_fat_fine_time(centi, ctime) },
        )
    } else {
        None
    })
    &&& e.last_access_date == (if spec_fat_date_valid(adate) {
        Some(spec_fat_date(adate))
    } else {
        None
    })
    &&& e.extended_attributes_cluster == (if ft == FatType::Fat32 {
        None
    } else {
        Some(word20 as u32)
    })
    &&& e.last_modification_timestamp == (if spec_fat_date_valid(mdate) && spec_fat_time_valid(
        mtime,
    ) {
        Some(FatTimestamp { date: spec_fat_date(mdate), time: spec_fat_time(mtime) })
    } else {
        None
    })
    &&& e.first_cluster == (spec_le16(w, 26) as u32) | (if ft == FatType::Fat32 {
        (word20 as u32) << 16
    } else {
        0u32
    })
    &&& e.file_size == spec_le32(w, 28)
}

impl FatDirectoryEntry {
    /// Decode one 32-byte directory record.
    pub fn from_data(data: &[u8], fat_type: FatType) -> (r: FatDirectoryEntry)
        requires
            data@.len() >= 32,
        ensures
            dir_entry_matches(r, data@.subrange(0, 32), fat_type),
    {
        let filename: [u8; 8] = [
            data[0],
            data[1],
            data[2],
            data[3],
            data[4],
            data[5],
            data[6],
            data[7],
        ];
        let extension: [u8; 3] = [data[8], data[9], data[10]];
        let attributes: u8 = data[11];
        let reserved: u8 = data[12];

        let creation_time: Option<FatTime> = fat_fine_time_decode(data[13], le16(data, 14));
        let creation_date: Option<FatDate> = fat_date_decode(le16(data, 16));
        let creation_timestamp: Option<FatTimestamp> = match (creation_date, creation_time) {
            (Some(d), Some(t)) => Some(FatTimestamp { date: d, time: t }),
            _ => None,
        };
        let last_access_date: Option<FatDate> = fat_date_decode(le16(data, 18));

        let word20: u16 = le16(data, 20);
        let extended_attributes_cluster: Option<u32> = match fat_type {
            FatType::Fat12 | FatType::Fat16 => Some(word20 as u32),
            FatType::Fat32 => None,
        };
        let cluster_start_high: u32 = match fat_type {
            FatType::Fat12 | FatType::Fat16 => 0,
            FatType::Fat32 => (word20 as u32) << 16,
        };

        let lm_time: Option<FatTime> = fat_time_decode(le16(data, 22));
        let lm_date: Option<FatDate> = fat_date_decode(le16(data, 24));
        let last_modification_timestamp: Option<FatTimestamp> = match (lm_date, lm_time) {
            (Some(d), Some(t)) => Some(FatTimestamp { date: d, time: t }),
            _ => None,
        };

        let first_cluster: u32 = (le16(data, 26) as u32) | cluster_start_high;
        let file_size: u32 = le32(data, 28);

        let e = FatDirectoryEntry {
            filename,
            extension,
            attributes,
            reserved,
            creation_timestamp,
            last_access_date,
            extended_attributes_cluster,
            last_modification_timestamp,
            first_cluster,
            file_size,
        };
        proof {
            let w = data@.subrange(0, 32);
            assert(e.filename@ =~= w.subrange(0, 8));
            assert(e.extension@ =~= w.subrange(8, 11));
            assert(spec_le16(w, 14) == spec_le16(data@, 14));
            assert(spec_le16(w, 16) == spec_le16(data@, 16));
            assert(spec_le16(w, 18) == spec_le16(data@, 18));
            assert(spec_le16(w, 20) == spec_le16(data@, 20));
            assert(spec_le16(w, 22) == spec_le16(data@, 22));
            assert(spec_le16(w, 24) == spec_le16(data@, 24));
            assert(spec_le16(w, 26) == spec_le16(data@, 26));
            assert(spec_le32(w, 28) == spec_le32(data@, 28));
        }
        e
    }

    /// A record is a real entry only when both the first name byte and
    /// the first extension byte are nonzero.
    pub fn is_valid(&self) -> (r: bool)
        ensures
            r == (self.filename@[0] != 0 && self.extension@[0] != 0),
    {
        self.filename[0] != 0 && self.extension[0] != 0
    }

    /// Whether this entry names a subdirectory.
    pub fn is_directory(&self) -> (r: bool)
        ensures
            r == (self.filename@[0] != 0 && self.extension@[0] != 0 && self.attributes
                & FAT_ATTRIBUTE_DIRECTORY != 0),
    {
        self.is_valid() && self.attributes & FAT_ATTRIBUTE_DIRECTORY != 0
    }
}

/// The one-line attribute display: "<LFN>" for the long-filename marker
/// pattern, otherwise one letter per set attribute bit.
pub open spec fn spec_attr_flags_chars(a: u8) -> Seq<char> {
    if a == FAT_ATTRIBUTE_LONG_FILENAME {
        seq!['<', 'L', 'F', 'N', '>']
    } else {
        seq![
            if a & FAT_ATTRIBUTE_DEVICE != 0 {
                '!'
            } else {
                ' '
            },
            if a & FAT_ATTRIBUTE_ARCHIVE != 0 {
                'A'
            } else {
                ' '
            },
            if a & FAT_ATTRIBUTE_DIRECTORY != 0 {
                'D'
            } else {
                ' '
            },
            if a & FAT_ATTRIBUTE_VOLUME_LABEL != 0 {
                'V'
            } else {
                ' '
            },
            if a & FAT_ATTRIBUTE_SYSTEM != 0 {
                'S'
            } else {
                ' '
            },
            if a & FAT_ATTRIBUTE_HIDDEN != 0 {
                'H'
            } else {
                ' '
            },
            if a & FAT_ATTRIBUTE_READ_ONLY != 0 {
                'R'
            } else {
                ' '
            },
        ]
    }
}

impl FatDirectoryEntry {
    /// Render the attribute byte as its one-line flag display.
    pub fn get_attribute_flags(&self) -> (r: String)
        ensures
            r@ == spec_attr_flags_chars(self.attributes),
    {
        let a: u8 = self.attributes;
        if a == FAT_ATTRIBUTE_LONG_FILENAME {
            let r: String = "<LFN>".to_owned();
            proof {
                reveal_strlit("<LFN>");
                assert(r@ =~= spec_attr_flags_chars(a));
            }
            r
        } else {
            let mut s: String = String::new();
            s.append(if a & FAT_ATTRIBUTE_DEVICE != 0 { "!" } else { " " });
            s.append(if a & FAT_ATTRIBUTE_ARCHIVE != 0 { "A" } else { " " });
            s.append(if a & FAT_ATTRIBUTE_DIRECTORY != 0 { "D" } else { " " });
            s.append(if a & FAT_ATTRIBUTE_VOLUME_LABEL != 0 { "V" } else { " " });
            s.append(if a & FAT_ATTRIBUTE_SYSTEM != 0 { "S" } else { " " });
            s.append(if a & FAT_ATTRIBUTE_HIDDEN != 0 { "H" } else { " " });
            s.append(if a & FAT_ATTRIBUTE_READ_ONLY != 0 { "R" } else { " " });
            proof {
                reveal_strlit("!");
                reveal_strlit("A");
                reveal_strlit("D");
                reveal_strlit("V");
                reveal_strlit("S");
                reveal_strlit("H");
                reveal_strlit("R");
                reveal_strlit(" ");
                assert(s@ =~= spec_attr_flags_chars(a));
            }
            s
        }
    }
}

// CP437 display names.

/// The character one byte decodes to under the CP437 wingdings dialect;
/// fixed by the decoding table of the codepage_437 crate.
pub uninterp spec fn cp437_char(b: u8) -> char;

/// The character sequence a byte sequence decodes to, byte by byte.
pub open spec fn cp437_of(s: Seq<u8>) -> Seq<char> {
    s.map(|i: int, b: u8| cp437_char(b))
}

/// Relies on codepage_437's String::from_cp437 with the CP437_WINGDINGS
/// dialect: every byte decodes to exactly one character through the
/// dialect's 256-entry table, and that table maps the printable ASCII
/// range 0x20..=0x7E to itself.
#[verifier::external_body]
fn cp437_to_string(bytes: &Vec<u8>) -> (r: String)
    ensures
        r@ == cp437_of(bytes@),
        forall|i: int| 0 <= i < bytes@.len() ==> #[trigger] r@[i] == cp437_char(bytes@[i]),
        forall|i: int|
            0 <= i < bytes@.len() && 0x20 <= bytes@[i] < 0x7f ==> #[trigger] r@[i] == bytes@[i]
                as char,
{
    <String as codepage_437::FromCp437<Vec<u8>>>::from_cp437(
        bytes.clone(),
        &codepage_437::CP437_WINGDINGS,
    )
}

/// The name bytes with the first-byte convention applied: 0x05 escapes a
/// literal 0xE5 first character, and 0xE5 (a deleted entry) displays as
/// '?'.
pub open spec fn spec_display_base(filename: Seq<u8>) -> Seq<u8> {
    if filename[0] == 0x05 {
        seq![0xe5u8] + filename.subrange(1, 8)
    } else if filename[0] == 0xe5 {
        seq![0x3fu8] + filename.subrange(1, 8)
    } else {
        filename
    }
}

/// `s` without its trailing 0x20 (space) padding.
pub open spec fn spec_trim_spaces(s: Seq<u8>) -> Seq<u8>
    decreases s.len(),
{
    if s.len() > 0 && s[s.len() - 1] == 0x20 {
        spec_trim_spaces(s.drop_last())
    } else {
        s
    }
}

/// Trimming only removes trailing padding: when the first byte is not a
/// space it survives, in place, at the front.
proof fn lemma_trim_spaces_prefix(s: Seq<u8>)
    requires
        s.len() > 0,
        s[0] != 0x20,
    ensures
        spec_trim_spaces(s).len() >= 1,
        spec_trim_spaces(s)[0] == s[0],
    decreases s.len(),
{
    if s[s.len() - 1] == 0x20 {
        assert(s.drop_last()[0] == s[0]);
        lemma_trim_spaces_prefix(s.drop_last());
    }
}

/// The display name in CP437 bytes: the trimmed base name and, when the
/// trimmed extension is not empty, a dot and the extension.
pub open spec fn spec_display_name_bytes(e: FatDirectoryEntry) -> Seq<u8> {
    let base = spec_trim_spaces(spec_display_base(e.filename@));
    let ext = spec_trim_spaces(e.extension@);
    if ext.len() == 0 {
        base
    } else {
        base + seq![0x2eu8] + ext
    }
}

impl FatDirectoryEntry {
    /// The display name of the entry: None for the end-of-directory
    /// marker (first name byte zero), otherwise the CP437 decoding of the
    /// name, space padding trimmed, with ".extension" appended when one
    /// is present. A deleted entry (first byte 0xE5) displays with a
    /// leading '?', and a first byte of 0x05 stands for a literal 0xE5.
    pub fn get_filename(&self) -> (r: Option<String>)
        ensures
            (r is Some) <==> self.filename@[0] != 0,
            (r matches Some(s) ==> s@ == cp437_of(spec_display_name_bytes(*self))),
            self.filename@[0] == 0xe5 ==> (r matches Some(s) && s@.len() > 0 && s@[0] == '?'),
            self.filename@[0] == 0x05 ==> (r matches Some(s) && s@.len() > 0 && s@[0]
                == cp437_char(0xe5)),
    {
        if self.filename[0] == 0 {
            return None;
        }

        let first: u8 = self.filename[0];
        let sub: u8 = if first == 0x05 {
            0xe5
        } else if first == 0xe5 {
            0x3f
        } else {
            first
        };
        let mut base: Vec<u8> = Vec::new();
        base.push(sub);
        base.push(self.filename[1]);
        base.push(self.filename[2]);
        base.push(self.filename[3]);
        base.push(self.filename[4]);
        base.push(self.filename[5]);
        base.push(self.filename[6]);
        base.push(self.filename[7]);
        proof {
            assert(base@ =~= spec_display_base(self.filename@));
        }
        let ghost base0 = base@;

        while base.len() > 0 && base[base.len() - 1] == 0x20
            invariant
                spec_trim_spaces(base@) == spec_trim_spaces(base0),
            decreases base@.len(),
        {
            base.pop();
        }
        assert(base@ == spec_trim_spaces(base0));

        let mut ext: Vec<u8> = Vec::new();
        ext.push(self.extension[0]);
        ext.push(self.extension[1]);
        ext.push(self.extension[2]);
        proof {
            assert(ext@ =~= self.extension@);
        }
        let ghost ext0 = ext@;
        while ext.len() > 0 && ext[ext.len() - 1] == 0x20
            invariant
                spec_trim_spaces(ext@) == spec_trim_spaces(ext0),
            decreases ext@.len(),
        {
            ext.pop();
        }
        assert(ext@ == spec_trim_spaces(ext0));

        let mut combined: Vec<u8> = base;
        if ext.len() > 0 {
            combined.push(0x2e);
            let mut k: usize = 0;
            while k < ext.len()
                invariant
                    k <= ext@.len(),
                    combined@ == spec_trim_spaces(base0) + seq![0x2eu8] + ext@.take(k as int),
                decreases ext@.len() - k,
            {
                combined.push(ext[k]);
                proof {
                    assert(ext@.take(k as int + 1) =~= ext@.take(k as int) + seq![ext@[k as int]]);
                    assert(combined@ =~= spec_trim_spaces(base0) + seq![0x2eu8] + ext@.take(
                        k as int + 1,
                    ));
                }
                k = k + 1;
            }
            proof {
                assert(ext@.take(ext@.len() as int) =~= ext@);
            }
        }
        proof {
            assert(combined@ =~= spec_display_name_bytes(*self));
        }

        let s: String = cp437_to_string(&combined);
        proof {
            if self.filename@[0] == 0xe5 || self.filename@[0] == 0x05 {
                lemma_trim_spaces_prefix(spec_display_base(self.filename@));
                assert(combined@[0] == spec_display_base(self.filename@)[0]);
                assert(s@[0] == cp437_char(combined@[0]));
                if self.filename@[0] == 0xe5 {
                    assert(combined@[0] == 0x3f);
                    assert(s@[0] == 0x3f as char);
                    assert(s@[0] == '?');
                }
            }
        }
        Some(s)
    }
}


/// A decoded FAT volume: its boot sector, its width, and every
/// allocation-table copy in uniform 32-bit form, together with the byte
/// offset of the partition inside the image.
#[derive(Debug)]
pub struct FatPartition {
    pub offset: u64,
    pub fat_type: FatType,
    pub boot_sector: FatBootSector,
    pub fat_tables: Vec<Vec<u32>>,
}

/// The FAT width of the boot-sector window `w`, by its data-cluster
/// count.
pub open spec fn spec_fat_type_of(w: Seq<u8>) -> FatType {
    spec_fat_type(spec_data_clusters(w))
}

/// The byte size of one FAT copy divides into whole table entries
/// (three bytes per entry pair for FAT12, two bytes per entry for FAT16,
/// four for FAT32).
pub open spec fn spec_fat_table_size_ok(w: Seq<u8>) -> bool {
    match spec_fat_type_of(w) {
        FatType::Fat12 => (spec_spf(w) * spec_bps(w)) % 3 == 0,
        FatType::Fat16 => (spec_spf(w) * spec_bps(w)) % 2 == 0,
        FatType::Fat32 => (spec_spf(w) * spec_bps(w)) % 4 == 0,
    }
}

/// Every FAT copy of the volume at `offset` lies inside an image of
/// `img_len` bytes.
pub open spec fn spec_fat_tables_fit(img_len: int, offset: u64, w: Seq<u8>) -> bool {
    spec_nfats(w) == 0 || offset + (spec_reserved_sectors(w) + spec_nfats(w) * spec_spf(w))
        * spec_bps(w) <= img_len
}

/// Whether `c` ends a cluster chain: clusters 0 and 1 are reserved, and
/// each width has its own end-of-chain sentinel range (FAT32 links are
/// masked to their 28 significant bits first).
pub open spec fn spec_is_end_cluster(ft: FatType, c: u32) -> bool {
    ||| c == 0
    ||| c == 1
    ||| (ft == FatType::Fat12 && c >= 0xff8)
    ||| (ft == FatType::Fat16 && c >= 0xfff8)
    ||| (ft == FatType::Fat32 && c & 0x0fff_ffff >= 0x0fff_fff8)
}

/// Whether `c` ends a cluster chain of a volume of width `ft`.
pub fn is_end_cluster(ft: FatType, c: u32) -> (r: bool)
    ensures
        r == spec_is_end_cluster(ft, c),
{
    c == 0 || c == 1 || (ft == FatType::Fat12 && c >= 0xff8) || (ft == FatType::Fat16 && c
        >= 0xfff8) || (ft == FatType::Fat32 && c & 0x0fff_ffff >= 0x0fff_fff8)
}

impl FatPartition {
    /// Decode the FAT volume at byte offset `offset`: its boot sector,
    /// then every FAT copy, each read from the reserved area onward and
    /// decoded into uniform 32-bit entries.
    pub fn from_partition_image(image: &[u8], offset: u64) -> (r: Result<FatPartition, ImageError>)
        ensures
            ({
                let w = image@.subrange(offset as int, offset + 512);
                let in_range = offset + 512 <= image@.len();
                let sig = crate::bootsector::spec_signature_ok(w);
                let geom = spec_fat_geometry_ok(w) && spec_fat_table_size_ok(w);
                let fit = spec_fat_tables_fit(image@.len() as int, offset, w);
                &&& (r matches Err(ImageError::ShortRead)) <==> (!in_range || (sig && geom
                    && !fit))
                &&& (r matches Err(ImageError::InvalidSignature(_))) <==> (in_range && !sig)
                &&& (r matches Err(ImageError::InvalidFatGeometry)) <==> (in_range && sig
                    && !geom)
                &&& (r is Ok) <==> (in_range && sig && geom && fit)
                &&& (r matches Ok(p) ==> {
                    &&& p.offset == offset
                    &&& fat_boot_sector_matches(p.boot_sector, w)
                    &&& p.fat_type == spec_fat_type_of(w)
                    &&& p.fat_tables@.len() == spec_nfats(w)
                    &&& forall|i: int|
                        0 <= i < p.fat_tables@.len() ==> fat_table_matches(
                            (#[trigger] p.fat_tables@[i])@,
                            image@.subrange(
                                offset + spec_fat_table_offset(p.boot_sector, i),
                                offset + spec_fat_table_offset(p.boot_sector, i + 1),
                            ),
                            p.fat_type,
                        )
                })
            }),
    {
        let boot_sector: FatBootSector = match FatBootSector::from_partition_image(image, offset) {
            Ok(b) => b,
            Err(e) => {
                return Err(e);
            },
        };
        let ghost w = image@.subrange(offset as int, offset + 512);

        let fat_type: FatType = match &boot_sector.extra {
            FatBootSectorExtra::Fat12(_) => FatType::Fat12,
            FatBootSectorExtra::Fat16(_) => FatType::Fat16,
            FatBootSectorExtra::Fat32(_) => FatType::Fat32,
        };
        assert(fat_type == spec_fat_type_of(w));

        let bps: u16 = boot_sector.bytes_per_sector;
        let spf: u32 = boot_sector.sectors_per_fat;
        proof {
            assert((spf as u64) * (bps as u64) <= 0xffff_ffffu64 * 0xffffu64) by (nonlinear_arith)
                requires
                    spf as u64 <= 0xffff_ffff,
                    bps as u64 <= 0xffff,
            ;
        }
        let table_size: u64 = (spf as u64) * (bps as u64);
        let divides: bool = match fat_type {
            FatType::Fat12 => table_size % 3 == 0,
            FatType::Fat16 => table_size % 2 == 0,
            FatType::Fat32 => table_size % 4 == 0,
        };
        if !divides {
            return Err(ImageError::InvalidFatGeometry);
        }

        let nfats: u8 = boot_sector.number_of_fats;
        let image_len: usize = image.len();
        if nfats > 0 {
            let last_end_rel: u64 = boot_sector.get_fat_table_offset(nfats as usize);
            match offset.checked_add(last_end_rel) {
                Some(e) => {
                    if e > (image_len as u64) {
                        return Err(ImageError::ShortRead);
                    }
                },
                None => {
                    return Err(ImageError::ShortRead);
                },
            }
        }

        let mut fat_tables: Vec<Vec<u32>> = Vec::new();
        let mut i: usize = 0;
        while i < nfats as usize
            invariant
                image_len == image@.len(),
                i <= nfats as usize,
                bps == boot_sector.bytes_per_sector,
                spf == boot_sector.sectors_per_fat,
                nfats == boot_sector.number_of_fats,
                table_size == (spf as int) * (bps as int),
                fat_type == FatType::Fat12 ==> table_size % 3 == 0,
                fat_type == FatType::Fat16 ==> table_size % 2 == 0,
                fat_type == FatType::Fat32 ==> table_size % 4 == 0,
                nfats > 0 ==> offset + spec_fat_table_offset(boot_sector, nfats as int)
                    <= image_len,
                fat_tables@.len() == i,
                forall|q: int|
                    0 <= q < i ==> fat_table_matches(
                        (#[trigger] fat_tables@[q])@,
                        image@.subrange(
                            offset + spec_fat_table_offset(boot_sector, q),
                            offset + spec_fat_table_offset(boot_sector, q + 1),
                        ),
                        fat_type,
                    ),
            decreases nfats as int - i,
        {
            let rel: u64 = boot_sector.get_fat_table_offset(i);
            proof {
                // Table windows grow with the index, so every window ends
                // inside the last one's end.
                assert((boot_sector.reserved_sectors + (i + 1) * boot_sector.sectors_per_fat) * (
                boot_sector.bytes_per_sector as int) == (boot_sector.reserved_sectors + i
                    * boot_sector.sectors_per_fat) * (boot_sector.bytes_per_sector as int) + (
                boot_sector.sectors_per_fat as int) * (boot_sector.bytes_per_sector as int)) by (
                nonlinear_arith);
                assert((boot_sector.reserved_sectors + (i + 1) * boot_sector.sectors_per_fat) * (
                boot_sector.bytes_per_sector as int) <= (boot_sector.reserved_sectors + (
                nfats as int) * boot_sector.sectors_per_fat) * (boot_sector.bytes_per_sector
                    as int)) by (nonlinear_arith)
                    requires
                        i + 1 <= nfats as int,
                        boot_sector.sectors_per_fat >= 0,
                        boot_sector.bytes_per_sector >= 0,
                        boot_sector.reserved_sectors >= 0,
                ;
            }
            let abs: u64 = offset + rel;
            let start: usize = abs as usize;
            let tsize: usize = table_size as usize;
            let tb: &[u8] = &image[start..start + tsize];
            let t: Vec<u32> = decode_fat_table(tb, fat_type);
            fat_tables.push(t);
            proof {
                assert(tb@ == image@.subrange(
                    offset + spec_fat_table_offset(boot_sector, i as int),
                    offset + spec_fat_table_offset(boot_sector, i as int + 1),
                ));
            }
            i = i + 1;
        }

        Ok(FatPartition { offset, fat_type, boot_sector, fat_tables })
    }

    /// Decode the fixed root directory of a FAT12/FAT16 volume: the
    /// `root_directory_entries` records that follow the last FAT copy.
    pub fn get_root_directory_entries(&self, image: &[u8]) -> (r: Result<
        Vec<FatDirectoryEntry>,
        ImageError,
    >)
        ensures
            ({
                let root_start = self.offset + spec_root_directory_offset(self.boot_sector);
                let total = self.boot_sector.root_directory_entries * 32;
                &&& (root_start + total > image@.len()) <==> (r matches Err(ImageError::ShortRead))
                &&& (root_start + total <= image@.len()) <==> r is Ok
                &&& (r matches Ok(v) ==> {
                    &&& v@.len() == self.boot_sector.root_directory_entries
                    &&& forall|j: int|
                        0 <= j < v@.len() ==> dir_entry_matches(
                            #[trigger] v@[j],
                            image@.subrange(root_start + 32 * j, root_start + 32 * j + 32),
                            self.fat_type,
                        )
                })
            }),
    {
        let image_len: usize = image.len();
        let rel: u64 = self.boot_sector.get_root_directory_offset();
        let abs: u64 = match self.offset.checked_add(rel) {
            Some(a) => a,
            None => {
                assert(image_len <= u64::MAX);
                return Err(ImageError::ShortRead);
            },
        };
        let n: usize = self.boot_sector.root_directory_entries as usize;
        let total: u64 = (n as u64) * 32;
        if (image_len as u64) < total || abs > (image_len as u64) - total {
            return Err(ImageError::ShortRead);
        }
        let base: usize = abs as usize;
        let w: &[u8] = &image[base..base + n * 32];
        let ghost root_start = self.offset + spec_root_directory_offset(self.boot_sector);

        let mut v: Vec<FatDirectoryEntry> = Vec::new();
        let mut j: usize = 0;
        while j < n
            invariant
                image_len == image@.len(),
                n * 32 <= 0x20_0000,
                base + n * 32 <= image_len,
                w@ == image@.subrange(root_start, root_start + n * 32),
                base == root_start,
                j <= n,
                v@.len() == j,
                forall|q: int|
                    0 <= q < j ==> dir_entry_matches(
                        #[trigger] v@[q],
                        image@.subrange(root_start + 32 * q, root_start + 32 * q + 32),
                        self.fat_type,
                    ),
            decreases n - j,
        {
            let e = FatDirectoryEntry::from_data(&w[32 * j..32 * j + 32], self.fat_type);
            proof {
                assert(w@.subrange(32 * j as int, 32 * j as int + 32).subrange(0, 32)
                    =~= image@.subrange(root_start + 32 * j, root_start + 32 * j + 32));
            }
            v.push(e);
            j = j + 1;
        }
        Ok(v)
    }
}


/// The whole cluster window of `c` lies inside an image of `img_len`
/// bytes.
pub open spec fn spec_cluster_window_fits(p: FatPartition, img_len: int, c: u32) -> bool {
    p.offset + spec_cluster_offset(p.boot_sector, c) + spec_bytes_per_cluster(p.boot_sector)
        <= img_len
}

/// `chain` is a run of clusters followed from `start`: every element but
/// the last has been fully processed, i.e. its window lies in the image,
/// its table entry names the next element, and that entry is not an
/// end-of-chain mark.
pub open spec fn spec_chain_prefix(
    p: FatPartition,
    img_len: int,
    start: u32,
    chain: Seq<u32>,
) -> bool {
    &&& chain.len() >= 1
    &&& chain[0] == start
    &&& forall|i: int| 0 <= i < chain.len() ==> (#[trigger] chain[i]) >= 2
    &&& forall|i: int|
        0 <= i < chain.len() - 1 ==> ((#[trigger] chain[i]) < p.fat_tables@[0]@.len() && chain[i
            + 1] == p.fat_tables@[0]@[chain[i] as int] && !spec_is_end_cluster(
            p.fat_type,
            chain[i + 1],
        ) && spec_cluster_window_fits(p, img_len, chain[i]))
}

/// `entries` are the directory records of the chain's clusters, in chain
/// order, each decoded from its 32-byte window.
pub open spec fn spec_chain_entries_match(
    p: FatPartition,
    img: Seq<u8>,
    chain: Seq<u32>,
    entries: Seq<FatDirectoryEntry>,
) -> bool {
    let epc = spec_bytes_per_cluster(p.boot_sector) / 32;
    &&& entries.len() == chain.len() * epc
    &&& forall|j: int|
        0 <= j < entries.len() ==> dir_entry_matches(
            #[trigger] entries[j],
            img.subrange(
                p.offset + spec_cluster_offset(p.boot_sector, chain[j / epc]) + 32 * (j % epc),
                p.offset + spec_cluster_offset(p.boot_sector, chain[j / epc]) + 32 * (j % epc)
                    + 32,
            ),
            p.fat_type,
        )
}

/// A successful directory walk from `start`: some fully-processed chain
/// ends at a cluster whose table entry is an end-of-chain mark, and
/// `entries` are exactly the records of the chain's clusters.
pub open spec fn spec_directory_walk_ok(
    p: FatPartition,
    img: Seq<u8>,
    start: u32,
    entries: Seq<FatDirectoryEntry>,
) -> bool {
    exists|chain: Seq<u32>|
        {
            &&& #[trigger] spec_chain_prefix(p, img.len() as int, start, chain)
            &&& chain.last() < p.fat_tables@[0]@.len()
            &&& spec_cluster_window_fits(p, img.len() as int, chain.last())
            &&& spec_is_end_cluster(p.fat_type, p.fat_tables@[0]@[chain.last() as int])
            &&& spec_chain_entries_match(p, img, chain, entries)
        }
}

/// The walker cannot even start on this volume: clusters have no usable
/// byte size, clusters do not divide into whole 32-byte records, or
/// there is no allocation table to follow.
pub open spec fn spec_walk_geometry_bad(p: FatPartition) -> bool {
    ||| spec_bytes_per_cluster(p.boot_sector) == 0
    ||| spec_bytes_per_cluster(p.boot_sector) % 32 != 0
    ||| p.fat_tables@.len() == 0
}

impl FatPartition {
    /// Decode the directory that starts at `cluster`, following the
    /// cluster chain through FAT copy 0 until an end-of-chain mark.
    ///
    /// A chain that visits more clusters than the table holds cannot be
    /// acyclic, so the walk stops with a cycle error instead of looping
    /// forever.
    pub fn get_directory_at_cluster(&self, image: &[u8], cluster: u32) -> (r: Result<
        Vec<FatDirectoryEntry>,
        ImageError,
    >)
        ensures
            (r matches Err(ImageError::InvalidFatGeometry)) <==> spec_walk_geometry_bad(*self),
            (!spec_walk_geometry_bad(*self) && cluster < 2) ==> r == Err::<
                Vec<FatDirectoryEntry>,
                ImageError,
            >(ImageError::ClusterOutOfRange(cluster)),
            (r matches Ok(entries) ==> spec_directory_walk_ok(*self, image@, cluster, entries@)),
            (r matches Err(ImageError::ShortRead) ==> exists|chain: Seq<u32>|
                #[trigger] spec_chain_prefix(*self, image@.len() as int, cluster, chain)
                    && !spec_cluster_window_fits(*self, image@.len() as int, chain.last())),
            (r matches Err(ImageError::ClusterOutOfRange(c)) ==> ((c == cluster && cluster < 2)
                || exists|chain: Seq<u32>|
                #[trigger] spec_chain_prefix(*self, image@.len() as int, cluster, chain) && c
                    == chain.last() && c >= self.fat_tables@[0]@.len() && spec_cluster_window_fits(
                    *self,
                    image@.len() as int,
                    chain.last(),
                ))),
            (r matches Err(ImageError::CycleDetected) ==> exists|chain: Seq<u32>|
                #[trigger] spec_chain_prefix(*self, image@.len() as int, cluster, chain)
                    && chain.len() == self.fat_tables@[0]@.len() + 1),
            (r is Err ==> (r matches Err(ImageError::InvalidFatGeometry) || r matches Err(
                ImageError::ShortRead,
            ) || r matches Err(ImageError::ClusterOutOfRange(_)) || r matches Err(
                ImageError::CycleDetected,
            ))),
    {
        let bpc: usize = self.boot_sector.get_bytes_per_cluster();
        if bpc == 0 || bpc % 32 != 0 || self.fat_tables.len() == 0 {
            return Err(ImageError::InvalidFatGeometry);
        }
        if cluster < 2 {
            return Err(ImageError::ClusterOutOfRange(cluster));
        }
        let image_len: usize = image.len();
        let table_len: usize = self.fat_tables[0].len();
        let epc: usize = bpc / 32;

        let mut cur: u32 = cluster;
        let mut entries: Vec<FatDirectoryEntry> = Vec::new();
        let mut count: usize = 0;
        let ghost mut chain: Seq<u32> = seq![cluster];

        loop
            invariant
                bpc == spec_bytes_per_cluster(self.boot_sector),
                bpc > 0,
                bpc % 32 == 0,
                epc == bpc / 32,
                self.fat_tables@.len() >= 1,
                table_len == self.fat_tables@[0]@.len(),
                image_len == image@.len(),
                chain.len() == count + 1,
                count <= table_len,
                count == 0 || count < table_len,
                chain[0] == cluster,
                chain.last() == cur,
                cur >= 2,
                spec_chain_prefix(*self, image@.len() as int, cluster, chain),
                entries@.len() == count * epc,
                forall|j: int|
                    0 <= j < entries@.len() ==> dir_entry_matches(
                        #[trigger] entries@[j],
                        image@.subrange(
                            self.offset + spec_cluster_offset(self.boot_sector, chain[j / (
                            epc as int)]) + 32 * (j % (epc as int)),
                            self.offset + spec_cluster_offset(self.boot_sector, chain[j / (
                            epc as int)]) + 32 * (j % (epc as int)) + 32,
                        ),
                        self.fat_type,
                    ),
            decreases table_len - count,
        {
            let cluster_off: u64 = self.boot_sector.get_cluster_offset(cur);
            let abs: u64 = match self.offset.checked_add(cluster_off) {
                Some(a) => a,
                None => {
                    assert(image_len <= u64::MAX);
                    return Err(ImageError::ShortRead);
                },
            };
            if (image_len as u64) < (bpc as u64) || abs > (image_len as u64) - (bpc as u64) {
                return Err(ImageError::ShortRead);
            }
            let base: usize = abs as usize;
            let w: &[u8] = &image[base..base + bpc];
            let ghost cur_start = self.offset + spec_cluster_offset(self.boot_sector, cur);
            assert(w@ == image@.subrange(cur_start, cur_start + bpc));

            let mut k: usize = 0;
            while k < epc
                invariant
                    bpc % 32 == 0,
                    bpc > 0,
                    epc == bpc / 32,
                    32 * epc == bpc,
                    k <= epc,
                    w@.len() == bpc,
                    cur_start >= 0,
                    cur_start + bpc <= image@.len(),
                    w@ == image@.subrange(cur_start, cur_start + bpc),
                    entries@.len() == count * epc + k,
                    forall|j: int|
                        0 <= j < count * epc ==> dir_entry_matches(
                            #[trigger] entries@[j],
                            image@.subrange(
                                self.offset + spec_cluster_offset(self.boot_sector, chain[j / (
                                epc as int)]) + 32 * (j % (epc as int)),
                                self.offset + spec_cluster_offset(self.boot_sector, chain[j / (
                                epc as int)]) + 32 * (j % (epc as int)) + 32,
                            ),
                            self.fat_type,
                        ),
                    forall|m: int|
                        0 <= m < k ==> dir_entry_matches(
                            #[trigger] entries@[count * epc + m],
                            image@.subrange(cur_start + 32 * m, cur_start + 32 * m + 32),
                            self.fat_type,
                        ),
                decreases epc - k,
            {
                assert(32 * k + 32 <= bpc) by (nonlinear_arith)
                    requires
                        k < epc,
                        32 * epc == bpc,
                        k >= 0,
                ;
                let e = FatDirectoryEntry::from_data(&w[32 * k..32 * k + 32], self.fat_type);
                proof {
                    let dv = w@.subrange(32 * k as int, 32 * k as int + 32);
                    assert(dv =~= image@.subrange(cur_start + 32 * k, cur_start + 32 * k + 32));
                    assert(dv.subrange(0, 32) =~= dv);
                }
                entries.push(e);
                k = k + 1;
            }
            count = count + 1;
            proof {
                // The records just pushed belong to block `count - 1`,
                // which is the chain position of `cur`.
                assert(entries@.len() == count * epc) by (nonlinear_arith)
                    requires
                        entries@.len() == (count - 1) * epc + epc,
                ;
                assert forall|j: int| 0 <= j < entries@.len() implies dir_entry_matches(
                    #[trigger] entries@[j],
                    image@.subrange(
                        self.offset + spec_cluster_offset(self.boot_sector, chain[j / (
                        epc as int)]) + 32 * (j % (epc as int)),
                        self.offset + spec_cluster_offset(self.boot_sector, chain[j / (
                        epc as int)]) + 32 * (j % (epc as int)) + 32,
                    ),
                    self.fat_type,
                ) by {
                    if j >= (count - 1) * epc {
                        let m = j - (count - 1) * epc;
                        assert(0 <= m < epc) by (nonlinear_arith)
                            requires
                                j >= (count - 1) * epc,
                                j < count * epc,
                                m == j - (count - 1) * epc,
                        ;
                        assert(j / (epc as int) == count - 1 && j % (epc as int) == m) by (
                        nonlinear_arith)
                            requires
                                epc > 0,
                                0 <= m < epc,
                                j == (count - 1) * epc + m,
                        ;
                        assert(chain[count - 1] == cur);
                        assert(dir_entry_matches(
                            entries@[(count - 1) * epc + m],
                            image@.subrange(cur_start + 32 * m, cur_start + 32 * m + 32),
                            self.fat_type,
                        ));
                    }
                }
            }

            if cur as usize >= table_len {
                return Err(ImageError::ClusterOutOfRange(cur));
            }
            let next: u32 = self.fat_tables[0][cur as usize];
            if is_end_cluster(self.fat_type, next) {
                proof {
                    assert(entries@.len() == chain.len() * (spec_bytes_per_cluster(
                        self.boot_sector,
                    ) / 32)) by (nonlinear_arith)
                        requires
                            entries@.len() == count * epc,
                            chain.len() == count,
                            epc == spec_bytes_per_cluster(self.boot_sector) / 32,
                    ;
                    assert(spec_chain_entries_match(*self, image@, chain, entries@));
                }
                return Ok(entries);
            }

            if count >= table_len {
                proof {
                    assert(cur < table_len);
                    assert(count == table_len);
                    let witness = chain.push(next);
                    assert(witness.len() == table_len + 1);
                    assert(witness.last() == next);
                    assert(forall|i: int|
                        0 <= i < chain.len() ==> witness[i] == #[trigger] chain[i]);
                    assert(spec_chain_prefix(*self, image@.len() as int, cluster, witness));
                }
                return Err(ImageError::CycleDetected);
            }
            let ghost old_chain = chain;
            cur = next;
            proof {
                chain = chain.push(next);
                assert(chain.last() == next);
                assert(forall|i: int|
                    0 <= i < old_chain.len() ==> chain[i] == #[trigger] old_chain[i]);
                assert(spec_chain_prefix(*self, image@.len() as int, cluster, chain));
                assert forall|j: int| 0 <= j < entries@.len() implies dir_entry_matches(
                    #[trigger] entries@[j],
                    image@.subrange(
                        self.offset + spec_cluster_offset(self.boot_sector, chain[j / (
                        epc as int)]) + 32 * (j % (epc as int)),
                        self.offset + spec_cluster_offset(self.boot_sector, chain[j / (
                        epc as int)]) + 32 * (j % (epc as int)) + 32,
                    ),
                    self.fat_type,
                ) by {
                    assert(0 <= j / (epc as int) < count) by (nonlinear_arith)
                        requires
                            0 <= j,
                            j < count * epc,
                            epc > 0,
                    ;
                    assert(chain[j / (epc as int)] == old_chain[j / (epc as int)]);
                }
            }
        }
    }
}

impl FatDirectoryEntry {
    /// Decode the directory this entry points at, walking the cluster
    /// chain that starts at the entry's first cluster.
    pub fn get_directory_entries(&self, fp: &FatPartition, image: &[u8]) -> (r: Result<
        Vec<FatDirectoryEntry>,
        ImageError,
    >)
        ensures
            (r matches Err(ImageError::InvalidFatGeometry)) <==> spec_walk_geometry_bad(*fp),
            (!spec_walk_geometry_bad(*fp) && self.first_cluster < 2) ==> r == Err::<
                Vec<FatDirectoryEntry>,
                ImageError,
            >(ImageError::ClusterOutOfRange(self.first_cluster)),
            (r matches Ok(entries) ==> spec_directory_walk_ok(
                *fp,
                image@,
                self.first_cluster,
                entries@,
            )),
            (r matches Err(ImageError::ShortRead) ==> exists|chain: Seq<u32>|
                #[trigger] spec_chain_prefix(*fp, image@.len() as int, self.first_cluster, chain)
                    && !spec_cluster_window_fits(*fp, image@.len() as int, chain.last())),
            (r matches Err(ImageError::CycleDetected) ==> exists|chain: Seq<u32>|
                #[trigger] spec_chain_prefix(*fp, image@.len() as int, self.first_cluster, chain)
                    && chain.len() == fp.fat_tables@[0]@.len() + 1),
            (r is Err ==> (r matches Err(ImageError::InvalidFatGeometry) || r matches Err(
                ImageError::ShortRead,
            ) || r matches Err(ImageError::ClusterOutOfRange(_)) || r matches Err(
                ImageError::CycleDetected,
            ))),
    {
        fp.get_directory_at_cluster(image, self.first_cluster)
    }
}

} // verus!

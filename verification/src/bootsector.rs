//! MBR/EBR boot sectors: the partition table at byte 446 of a 512-byte
//! sector, packed CHS positions, partition status flags, and the one-hop
//! step along the chain of extended boot records.

use vstd::prelude::*;

use crate::bytes::{le32, spec_le32};
use crate::errors::ImageError;

verus! {

pub const BOOT_SECTOR_SIZE: usize = 512;
pub const BOOT_SECTOR_SIGNATURE_OFFSET: usize = 510;
pub const CHS_SIZE: usize = 3;
pub const PARTITION_TABLE_OFFSET: usize = 446;
pub const PARTITION_TABLE_ENTRIES: usize = 4;
pub const PARTITION_ENTRY_SIZE: usize = 16;

/// A cylinder-head-sector position as decoded from its packed 3-byte form.
#[derive(Debug, Clone, Copy, PartialEq, Eq, Structural)]
pub struct CHSPosition {
    pub cylinder: u16,
    pub head: u8,
    pub sector: u8,
}

/// The CHS position packed into the three bytes `b0 b1 b2`: the head in
/// `b0`, the sector in the low 6 bits of `b1`, and the 10-bit cylinder
/// split between the top 2 bits of `b1` and all of `b2`.
pub open spec fn spec_chs(b0: u8, b1: u8, b2: u8) -> CHSPosition {
    CHSPosition {
        cylinder: (((b1 & 0xc0) as u16) << 2) | (b2 as u16),
        head: b0,
        sector: b1 & 0x3f,
    }
}

impl CHSPosition {
    /// Decode a packed 3-byte cylinder-head-sector triple.
    pub fn new(data: &[u8]) -> (r: CHSPosition)
        requires
            data@.len() >= CHS_SIZE,
        ensures
            r == spec_chs(data@[0], data@[1], data@[2]),
            r.cylinder <= 1023,
            r.head <= 255,
            r.sector <= 63,
    {
        let b1: u8 = data[1];
        let b2: u8 = data[2];
        let cylinder: u16 = (((b1 & 0xc0) as u16) << 2) | (b2 as u16);
        let sector: u8 = b1 & 0x3f;
        proof {
            assert((((b1 & 0xc0) as u16) << 2) | (b2 as u16) <= 1023) by (bit_vector);
            assert(b1 & 0x3f <= 63) by (bit_vector);
        }
        CHSPosition { cylinder, head: data[0], sector }
    }
}

/// One bit of the 1-byte partition status field: bit 7 marks the partition
/// bootable; any set bit among 0..=6 is reported individually as unknown.
#[derive(Debug, Clone, Copy, PartialEq, Eq, Structural)]
pub enum PartitionStatusFlag {
    Bootable,
    Unknown(u8),
}

/// The unknown-bit flags for bit positions `i..7` of `value`, lowest bit
/// first.
pub open spec fn spec_unknown_flags(value: u8, i: int) -> Seq<PartitionStatusFlag>
    decreases 7 - i,
{
    if i < 0 || i >= 7 {
        Seq::empty()
    } else {
        (if value & (1u8 << (i as u8)) != 0 {
            seq![PartitionStatusFlag::Unknown(i as u8)]
        } else {
            Seq::empty()
        }) + spec_unknown_flags(value, i + 1)
    }
}

/// All flags decoded from a status byte: `Bootable` first when bit 7 is
/// set, then one `Unknown` flag per set bit among positions 0..=6.
pub open spec fn spec_status_flags(value: u8) -> Seq<PartitionStatusFlag> {
    (if value & 0x80 != 0 {
        seq![PartitionStatusFlag::Bootable]
    } else {
        Seq::empty()
    }) + spec_unknown_flags(value, 0)
}

impl PartitionStatusFlag {
    /// Decode a raw status byte into its individual flags.
    pub fn from_u8(value: u8) -> (r: Vec<PartitionStatusFlag>)
        ensures
            r@ == spec_status_flags(value),
    {
        let mut result: Vec<PartitionStatusFlag> = Vec::new();
        if value & 0x80 != 0 {
            result.push(PartitionStatusFlag::Bootable);
        }
        assert(result@ + spec_unknown_flags(value, 0) == spec_status_flags(value));

        let mut i: u8 = 0;
        while i < 7
            invariant
                i <= 7,
                result@ + spec_unknown_flags(value, i as int) == spec_status_flags(value),
            decreases 7 - i,
        {
            let ghost prev = result@;
            if value & (1u8 << i) != 0 {
                result.push(PartitionStatusFlag::Unknown(i));
            }
            proof {
                assert(spec_unknown_flags(value, i as int) == (if value & (1u8 << i) != 0 {
                    seq![PartitionStatusFlag::Unknown(i)]
                } else {
                    Seq::<PartitionStatusFlag>::empty()
                }) + spec_unknown_flags(value, i as int + 1));
                assert(result@ + spec_unknown_flags(value, i as int + 1) == (prev
                    + spec_unknown_flags(value, i as int)));
            }
            i = i + 1;
        }
        assert(spec_unknown_flags(value, 7) == Seq::<PartitionStatusFlag>::empty());
        assert(result@ == result@ + spec_unknown_flags(value, 7));
        result
    }
}


/// A row of the MBR partition-type table: the 1-byte code, a descriptive
/// name, and whether the code marks an extended partition.
#[derive(Debug, Clone, Copy)]
pub struct MBRPartitionType {
    pub code: u8,
    pub name: &'static str,
    pub is_extended: bool,
}

/// The partition-type codes that mark an entry as extended, i.e. as the
/// head of a chain of extended boot records.
pub open spec fn is_extended_code(code: u8) -> bool {
    code == 0x05 || code == 0x0f || code == 0x15 || code == 0x1f || code == 0x85
        || code == 0x91 || code == 0x9b || code == 0xc5 || code == 0xd5 || code == 0xea
}

impl MBRPartitionType {
    /// A table row for a non-extended partition type.
    pub fn regular(code: u8, name: &'static str) -> (r: MBRPartitionType)
        ensures
            r.code == code,
            r.name == name,
            !r.is_extended,
    {
        MBRPartitionType { code, name, is_extended: false }
    }

    /// A table row for an extended partition type.
    pub fn extended(code: u8, name: &'static str) -> (r: MBRPartitionType)
        ensures
            r.code == code,
            r.name == name,
            r.is_extended,
    {
        MBRPartitionType { code, name, is_extended: true }
    }
}

/// The partition-type table row for one code. The extended codes are
/// exactly those of `is_extended_code`.
pub fn mbr_partition_type(code: u8) -> (r: MBRPartitionType)
    ensures
        r.code == code,
        r.is_extended == is_extended_code(code),
{
    match code {
        0x00 => MBRPartitionType::regular(0x00, "Empty"),
        0x01 => MBRPartitionType::regular(0x01, "FAT12"),
        0x02 => MBRPartitionType::regular(0x02, "XENIX root"),
        0x03 => MBRPartitionType::regular(0x03, "XENIX usr"),
        0x04 => MBRPartitionType::regular(0x04, "FAT16 <32 MB"),
        0x05 => MBRPartitionType::extended(0x05, "Extended"),
        0x06 => MBRPartitionType::regular(0x06, "FAT16B"),
        0x07 => MBRPartitionType::regular(0x07, "HPFS; NTFS; exFAT"),
        0x08 => MBRPartitionType::regular(0x08, "AIX boot"),
        0x09 => MBRPartitionType::regular(0x09, "AIX data"),
        0x0a => MBRPartitionType::regular(0x0a, "OS/2 Boot Manager"),
        0x0b => MBRPartitionType::regular(0x0b, "FAT32"),
        0x0c => MBRPartitionType::regular(0x0c, "FAT32 LBA"),
        0x0d => MBRPartitionType::regular(0x0d, "Unknown"),
        0x0e => MBRPartitionType::regular(0x0e, "FAT16 LBA"),
        0x0f => MBRPartitionType::extended(0x0f, "Extended LBA"),
        0x10 => MBRPartitionType::regular(0x10, "OPUS"),
        0x11 => MBRPartitionType::regular(0x11, "Hidden FAT12"),
        0x12 => MBRPartitionType::regular(0x12, "Compaq diag; EISA config; NCR firmware; IBM rescue"),
        0x13 => MBRPartitionType::regular(0x13, "Unknown"),
        0x14 => MBRPartitionType::regular(0x14, "OS/2 hidden FAT16"),
        0x15 => MBRPartitionType::extended(0x15, "OS/2 hidden extended CHS"),
        0x16 => MBRPartitionType::regular(0x16, "OS/2 hidden FAT16B"),
        0x17 => MBRPartitionType::regular(0x17, "OS/2 Hidden IFS; HPFS; NTFS; exFAT"),
        0x18 => MBRPartitionType::regular(0x18, "AST SmartSleep"),
        0x19 => MBRPartitionType::regular(0x19, "Willowtech Photon coS"),
        0x1a => MBRPartitionType::regular(0x1a, "Unknown"),
        0x1b => MBRPartitionType::regular(0x1b, "OS/2 hidden FAT32"),
        0x1c => MBRPartitionType::regular(0x1c, "OS/2 hidden FAT32 LBA"),
        0x1d => MBRPartitionType::regular(0x1d, "Unknown"),
        0x1e => MBRPartitionType::regular(0x1e, "OS/2 hidden FAT16 LBA"),
        0x1f => MBRPartitionType::extended(0x1f, "OS/2 hidden extended LBA"),
        0x20 => MBRPartitionType::regular(0x20, "Windows Mobile update"),
        0x21 => MBRPartitionType::regular(0x21, "Oxygen FSo2"),
        0x22 => MBRPartitionType::regular(0x22, "Oxygen extended"),
        0x23 => MBRPartitionType::regular(0x23, "Windows Mobile boot"),
        0x24 => MBRPartitionType::regular(0x24, "NEC DOS"),
        0x25 => MBRPartitionType::regular(0x25, "Unknown"),
        0x26 => MBRPartitionType::regular(0x26, "Unknown"),
        0x27 => MBRPartitionType::regular(0x27, "WinRE (hidden NTFS)"),
        0x28 => MBRPartitionType::regular(0x28, "Unknown"),
        0x29 => MBRPartitionType::regular(0x29, "Unknown"),
        0x2a => MBRPartitionType::regular(0x2a, "AtheOS AthFS"),
        0x2b => MBRPartitionType::regular(0x2b, "Syllable Secure"),
        0x2c => MBRPartitionType::regular(0x2c, "Unknown"),
        0x2d => MBRPartitionType::regular(0x2d, "Unknown"),
        0x2e => MBRPartitionType::regular(0x2e, "Unknown"),
        0x2f => MBRPartitionType::regular(0x2f, "Unknown"),
        0x30 => MBRPartitionType::regular(0x30, "Unknown"),
        0x31 => MBRPartitionType::regular(0x31, "Unknown"),
        0x32 => MBRPartitionType::regular(0x32, "Unknown"),
        0x33 => MBRPartitionType::regular(0x33, "Unknown"),
        0x34 => MBRPartitionType::regular(0x34, "Unknown"),
        0x35 => MBRPartitionType::regular(0x35, "JFS"),
        0x36 => MBRPartitionType::regular(0x36, "Unknown"),
        0x37 => MBRPartitionType::regular(0x37, "Unknown"),
        0x38 => MBRPartitionType::regular(0x38, "THEOSv3.2"),
        0x39 => MBRPartitionType::regular(0x39, "Plan 9; THEOSv4 spanned"),
        0x3a => MBRPartitionType::regular(0x3a, "THEOSv4 4 GB"),
        0x3b => MBRPartitionType::regular(0x3b, "THEOSv4 extended"),
        0x3c => MBRPartitionType::regular(0x3c, "PartitionMagic recovery"),
        0x3d => MBRPartitionType::regular(0x3d, "PartitionMagic hidden NetWare"),
        0x3e => MBRPartitionType::regular(0x3e, "Unknown"),
        0x3f => MBRPartitionType::regular(0x3f, "Unknown"),
        0x40 => MBRPartitionType::regular(0x40, "Venix 80286; PICK R83"),
        0x41 => MBRPartitionType::regular(0x41, "Minix; PPC PReP Boot"),
        0x42 => MBRPartitionType::regular(0x42, "Secure File System; Old Linux swap"),
        0x43 => MBRPartitionType::regular(0x43, "Old Linux native"),
        0x44 => MBRPartitionType::regular(0x44, "Norton GoBack"),
        0x45 => MBRPartitionType::regular(0x45, "Boot-US boot manager; Priam; EUMEL-ELAN (L2)"),
        0x46 => MBRPartitionType::regular(0x46, "EUMEL-ELAN (L2)"),
        0x47 => MBRPartitionType::regular(0x47, "EUMEL-ELAN (L2)"),
        0x48 => MBRPartitionType::regular(0x48, "EUMEL-ELAN (L2); ERGOS (L3)"),
        0x49 => MBRPartitionType::regular(0x49, "Unknown"),
        0x4a => MBRPartitionType::regular(0x4a, "AdaOS Aquila; ALFS-THIN"),
        0x4b => MBRPartitionType::regular(0x4b, "Unknown"),
        0x4c => MBRPartitionType::regular(0x4c, "Oberon Aos (A2)"),
        0x4d => MBRPartitionType::regular(0x4d, "QNX4.x primary"),
        0x4e => MBRPartitionType::regular(0x4e, "QNX4.x secondary"),
        0x4f => MBRPartitionType::regular(0x4f, "QNX4.x tertiary; Oberon boot"),
        0x50 => MBRPartitionType::regular(0x50, "OnTrack Disk Manager; Oberon alternative; Lynx"),
        0x51 => MBRPartitionType::regular(0x51, "OnTrack Disk Manager aux 1; Novell"),
        0x52 => MBRPartitionType::regular(0x52, "CP/M-80; Microport SysV/AT"),
        0x53 => MBRPartitionType::regular(0x53, "OnTrack Disk Manager aux 3"),
        0x54 => MBRPartitionType::regular(0x54, "OnTrack Disk Manager dynamic driver overlay"),
        0x55 => MBRPartitionType::regular(0x55, "EZ-Drive"),
        0x56 => MBRPartitionType::regular(0x56, "AT&T DOS; EZ-Drive BIOS; Golden Bow VFeature"),
        0x57 => MBRPartitionType::regular(0x57, "DrivePro; Novell VNDI"),
        0x58 => MBRPartitionType::regular(0x58, "Unknown"),
        0x59 => MBRPartitionType::regular(0x59, "yocOS yocFS"),
        0x5a => MBRPartitionType::regular(0x5a, "Unknown"),
        0x5b => MBRPartitionType::regular(0x5b, "Unknown"),
        0x5c => MBRPartitionType::regular(0x5c, "Priam EDisk"),
        0x5d => MBRPartitionType::regular(0x5d, "Unknown"),
        0x5e => MBRPartitionType::regular(0x5e, "Unknown"),
        0x5f => MBRPartitionType::regular(0x5f, "Unknown"),
        0x60 => MBRPartitionType::regular(0x60, "Unknown"),
        0x61 => MBRPartitionType::regular(0x61, "SpeedStor hidden FAT12"),
        0x62 => MBRPartitionType::regular(0x62, "Unknown"),
        0x63 => MBRPartitionType::regular(0x63, "SysV; GNU HURD; SpeedStor hidden read-only FAT12"),
        0x64 => MBRPartitionType::regular(0x64, "Novell Netware 286; SpeedStor hidden FAT16; PC-ARMOUR"),
        0x65 => MBRPartitionType::regular(0x65, "Novell Netware 386"),
        0x66 => MBRPartitionType::regular(0x66, "Novell Netware Storage Management Services; Speedstor hidden read-only FAT16"),
        0x67 => MBRPartitionType::regular(0x67, "Novell Netware Wolf Mountain"),
        0x68 => MBRPartitionType::regular(0x68, "Novell Netware"),
        0x69 => MBRPartitionType::regular(0x69, "Novell Netware 5"),
        0x6a => MBRPartitionType::regular(0x6a, "Unknown"),
        0x6b => MBRPartitionType::regular(0x6b, "Unknown"),
        0x6c => MBRPartitionType::regular(0x6c, "DragonFly BSD slice"),
        0x6d => MBRPartitionType::regular(0x6d, "Unknown"),
        0x6e => MBRPartitionType::regular(0x6e, "Unknown"),
        0x6f => MBRPartitionType::regular(0x6f, "Unknown"),
        0x70 => MBRPartitionType::regular(0x70, "DiskSecure multiboot"),
        0x71 => MBRPartitionType::regular(0x71, "Unknown"),
        0x72 => MBRPartitionType::regular(0x72, "V7/x86; APTI alternative FAT12"),
        0x73 => MBRPartitionType::regular(0x73, "Unknown"),
        0x74 => MBRPartitionType::regular(0x74, "SpeedStor hidden FAT16B; V7/x86"),
        0x75 => MBRPartitionType::regular(0x75, "PC/IX"),
        0x76 => MBRPartitionType::regular(0x76, "SpeedStor hidden read-only FAT16B"),
        0x77 => MBRPartitionType::regular(0x77, "Novell VNDI/M2FS/M2CS"),
        0x78 => MBRPartitionType::regular(0x78, "XOSL bootloader"),
        0x79 => MBRPartitionType::regular(0x79, "APTI alternative FAT16"),
        0x7a => MBRPartitionType::regular(0x7a, "APTI alternative FAT16 LBA"),
        0x7b => MBRPartitionType::regular(0x7b, "APTI alternative FAT16B"),
        0x7c => MBRPartitionType::regular(0x7c, "APTI alternative FAT32 LBA"),
        0x7d => MBRPartitionType::regular(0x7d, "APTI alternative FAT32"),
        0x7e => MBRPartitionType::regular(0x7e, "PrimoCache L2"),
        0x7f => MBRPartitionType::regular(0x7f, "User-defined"),
        0x80 => MBRPartitionType::regular(0x80, "Minix old"),
        0x81 => MBRPartitionType::regular(0x81, "Minix; Linux old"),
        0x82 => MBRPartitionType::regular(0x82, "Linux swap; Solaris"),
        0x83 => MBRPartitionType::regular(0x83, "Linux"),
        0x84 => MBRPartitionType::regular(0x84, "OS/2 hidden; Intel hibernation"),
        0x85 => MBRPartitionType::extended(0x85, "Linux extended"),
        0x86 => MBRPartitionType::regular(0x86, "FAT16B volume set; Linux RAID"),
        0x87 => MBRPartitionType::regular(0x87, "NTFS volume set"),
        0x88 => MBRPartitionType::regular(0x88, "Linux plaintext"),
        0x89 => MBRPartitionType::regular(0x89, "Unknown"),
        0x8a => MBRPartitionType::regular(0x8a, "Unknown"),
        0x8b => MBRPartitionType::regular(0x8b, "Unknown"),
        0x8c => MBRPartitionType::regular(0x8c, "Unknown"),
        0x8d => MBRPartitionType::regular(0x8d, "Unknown"),
        0x8e => MBRPartitionType::regular(0x8e, "Linux LVM"),
        0x8f => MBRPartitionType::regular(0x8f, "Unknown"),
        0x90 => MBRPartitionType::regular(0x90, "FreeDOS hidden FAT16"),
        0x91 => MBRPartitionType::extended(0x91, "FreeDOS hidden extended"),
        0x92 => MBRPartitionType::regular(0x92, "FreeDOS hidden FAT16B"),
        0x93 => MBRPartitionType::regular(0x93, "Amoeba; Linux hidden"),
        0x94 => MBRPartitionType::regular(0x94, "Amoeba bad block table"),
        0x95 => MBRPartitionType::regular(0x95, "EXOPC native"),
        0x96 => MBRPartitionType::regular(0x96, "ISO-9660"),
        0x97 => MBRPartitionType::regular(0x97, "FreeDOS FAT32"),
        0x98 => MBRPartitionType::regular(0x98, "FreeDOS FAT32 LBA; Service"),
        0x99 => MBRPartitionType::regular(0x99, "Unknown"),
        0x9a => MBRPartitionType::regular(0x9a, "FreeDOS hidden FAT16B LBA"),
        0x9b => MBRPartitionType::extended(0x9b, "FreeDOS hidden extended LBA"),
        0x9c => MBRPartitionType::regular(0x9c, "Unknown"),
        0x9d => MBRPartitionType::regular(0x9d, "Unknown"),
        0x9e => MBRPartitionType::regular(0x9e, "ForthOS"),
        0x9f => MBRPartitionType::regular(0x9f, "BSD/OS"),
        0xa0 => MBRPartitionType::regular(0xa0, "Hibernation"),
        0xa1 => MBRPartitionType::regular(0xa1, "Hibernation"),
        0xa2 => MBRPartitionType::regular(0xa2, "Hard Processor System preloader"),
        0xa3 => MBRPartitionType::regular(0xa3, "HP Volume Expansion"),
        0xa4 => MBRPartitionType::regular(0xa4, "HP Volume Expansion"),
        0xa5 => MBRPartitionType::regular(0xa5, "FreeBSD slice"),
        0xa6 => MBRPartitionType::regular(0xa6, "OpenBSD slice; HP Volume Expansion"),
        0xa7 => MBRPartitionType::regular(0xa7, "NeXTSTEP"),
        0xa8 => MBRPartitionType::regular(0xa8, "Darwin UFS"),
        0xa9 => MBRPartitionType::regular(0xa9, "NetBSD slice"),
        0xaa => MBRPartitionType::regular(0xaa, "Olivetti FAT12"),
        0xab => MBRPartitionType::regular(0xab, "Darwin boot"),
        0xac => MBRPartitionType::regular(0xac, "Apple RAID"),
        0xad => MBRPartitionType::regular(0xad, "RiscOS ADFS"),
        0xae => MBRPartitionType::regular(0xae, "ShagOS"),
        0xaf => MBRPartitionType::regular(0xaf, "HFS; HFS+"),
        0xb0 => MBRPartitionType::regular(0xb0, "BootStar dummy"),
        0xb1 => MBRPartitionType::regular(0xb1, "QNX Neutrino; HP Volume Expansion"),
        0xb2 => MBRPartitionType::regular(0xb2, "QNX Neutrino"),
        0xb3 => MBRPartitionType::regular(0xb3, "QNX Neutrino; HP Volume Expansion"),
        0xb4 => MBRPartitionType::regular(0xb4, "HP Volume Expansion"),
        0xb5 => MBRPartitionType::regular(0xb5, "Unknown"),
        0xb6 => MBRPartitionType::regular(0xb6, "FAT16B corrupted primary volume; HP Volume Expansion"),
        0xb7 => MBRPartitionType::regular(0xb7, "BSDI; HPFS/NTFS corrupted primary volume"),
        0xb8 => MBRPartitionType::regular(0xb8, "BSDI swap"),
        0xb9 => MBRPartitionType::regular(0xb9, "Unknown"),
        0xba => MBRPartitionType::regular(0xba, "Unknown"),
        0xbb => MBRPartitionType::regular(0xbb, "Boot Wizard hidden; Acronis OEM Secure Zone; FAT32 corrupted primary volume"),
        0xbc => MBRPartitionType::regular(0xbc, "Acronis Secure Zone; FAT32 LBA corrupted primary volume set; Paragon Backup Capsule"),
        0xbd => MBRPartitionType::regular(0xbd, "BonnyDOS/286"),
        0xbe => MBRPartitionType::regular(0xbe, "Solaris boot"),
        0xbf => MBRPartitionType::regular(0xbf, "Solaris"),
        0xc0 => MBRPartitionType::regular(0xc0, "DR-DOS secured FAT <32 MB"),
        0xc1 => MBRPartitionType::regular(0xc1, "DR-DOS secured FAT12"),
        0xc2 => MBRPartitionType::regular(0xc2, "Power Boot hidden Linux"),
        0xc3 => MBRPartitionType::regular(0xc3, "Power Boot hidden Linux swap"),
        0xc4 => MBRPartitionType::regular(0xc4, "DR-DOS secured FAT16"),
        0xc5 => MBRPartitionType::extended(0xc5, "DR-DOS secured extended"),
        0xc6 => MBRPartitionType::regular(0xc6, "DR-DOS secured FAT16B; FAT16B corrupted secondary volume"),
        0xc7 => MBRPartitionType::regular(0xc7, "Syrinx boot; HPFS/NTFS corrupted secondary volume"),
        0xc8 => MBRPartitionType::regular(0xc8, "Unknown"),
        0xc9 => MBRPartitionType::regular(0xc9, "Unknown"),
        0xca => MBRPartitionType::regular(0xca, "Unknown"),
        0xcb => MBRPartitionType::regular(0xcb, "DR-DOS secured FAT32"),
        0xcc => MBRPartitionType::regular(0xcc, "DR-DOS secured FAT32 LBA; FAT32 corrupted secondary volume"),
        0xcd => MBRPartitionType::regular(0xcd, "CTOS memory dump"),
        0xce => MBRPartitionType::regular(0xce, "DR-DOS secured FAT16B LBA"),
        0xcf => MBRPartitionType::regular(0xcf, "DR-DOS secured extended LBA"),
        0xd0 => MBRPartitionType::regular(0xd0, "Multiuser DOS secured FAT >32 MB"),
        0xd1 => MBRPartitionType::regular(0xd1, "Multiuser DOS secured FAT12"),
        0xd2 => MBRPartitionType::regular(0xd2, "Unknown"),
        0xd3 => MBRPartitionType::regular(0xd3, "Unknown"),
        0xd4 => MBRPartitionType::regular(0xd4, "Multiuser DOS secured FAT16"),
        0xd5 => MBRPartitionType::extended(0xd5, "Multiuser DOS secured extended CHS"),
        0xd6 => MBRPartitionType::regular(0xd6, "Multiuser DOS secured FAT16B"),
        0xd7 => MBRPartitionType::regular(0xd7, "Unknown"),
        0xd8 => MBRPartitionType::regular(0xd8, "CP/M-86"),
        0xd9 => MBRPartitionType::regular(0xd9, "Unknown"),
        0xda => MBRPartitionType::regular(0xda, "Non-filesystem data"),
        0xdb => MBRPartitionType::regular(0xdb, "CP/M-86"),
        0xdc => MBRPartitionType::regular(0xdc, "Unknown"),
        0xdd => MBRPartitionType::regular(0xdd, "CTOS hidden memory dump"),
        0xde => MBRPartitionType::regular(0xde, "Dell FAT16 diagnostic/utility"),
        0xdf => MBRPartitionType::regular(0xdf, "BootIt EMBRM; DG/UX"),
        0xe0 => MBRPartitionType::regular(0xe0, "ST AVFS"),
        0xe1 => MBRPartitionType::regular(0xe1, "SpeedStor FAT12 <16 MB"),
        0xe2 => MBRPartitionType::regular(0xe2, "Unknown"),
        0xe3 => MBRPartitionType::regular(0xe3, "SpeedStor read-only FAT12 <16 MB"),
        0xe4 => MBRPartitionType::regular(0xe4, "SpeedStor FAT16 <32 MB"),
        0xe5 => MBRPartitionType::regular(0xe5, "Tandy MS/DOS"),
        0xe6 => MBRPartitionType::regular(0xe6, "SpeedStor read-only FAT16 <32 MB"),
        0xe7 => MBRPartitionType::regular(0xe7, "Unknown"),
        0xe8 => MBRPartitionType::regular(0xe8, "Linux Unified Key Setup (LUKS)"),
        0xe9 => MBRPartitionType::regular(0xe9, "Unknown"),
        0xea => MBRPartitionType::extended(0xea, "Linux extended boot"),
        0xeb => MBRPartitionType::regular(0xeb, "BeOS/Haiku BFS"),
        0xec => MBRPartitionType::regular(0xec, "SkyOS SkyFS"),
        0xed => MBRPartitionType::regular(0xed, "Sprytix EDC loader"),
        0xee => MBRPartitionType::regular(0xee, "GPT"),
        0xef => MBRPartitionType::regular(0xef, "EFI system"),
        0xf0 => MBRPartitionType::regular(0xf0, "Linux/PA-RISC boot"),
        0xf1 => MBRPartitionType::regular(0xf1, "SpeedStor"),
        0xf2 => MBRPartitionType::regular(0xf2, "Unisys FAT12/FAT16 secondary"),
        0xf3 => MBRPartitionType::regular(0xf3, "Unknown"),
        0xf4 => MBRPartitionType::regular(0xf4, "SpeedStor FAT16; Prologue single-volume NGF/TwinFS"),
        0xf5 => MBRPartitionType::regular(0xf5, "Prologue multi-volume NGF/TwinFS"),
        0xf6 => MBRPartitionType::regular(0xf6, "SpeedStor read-only FAT16B"),
        0xf7 => MBRPartitionType::regular(0xf7, "OSG EFAT; X1 solid state"),
        0xf8 => MBRPartitionType::regular(0xf8, "Arm EBBR system firmware"),
        0xf9 => MBRPartitionType::regular(0xf9, "Linux pCache EXT2/EXT3"),
        0xfa => MBRPartitionType::regular(0xfa, "Unknown"),
        0xfb => MBRPartitionType::regular(0xfb, "VMware VMFS"),
        0xfc => MBRPartitionType::regular(0xfc, "VMware swap/VMKCORE"),
        0xfd => MBRPartitionType::regular(0xfd, "Linux raid autodetect"),
        0xfe => MBRPartitionType::regular(0xfe, "PS/2 recovery; Old Linux LVM"),
        _ => MBRPartitionType::regular(0xff, "Xenix bad block table"),
    }
}

/// The full 256-row partition-type table, one row per code, in code order.
pub fn mbr_partition_types() -> (r: Vec<MBRPartitionType>)
    ensures
        r@.len() == 256,
        forall|i: int| 0 <= i < 256 ==> (#[trigger] r@[i]).code == i,
        forall|i: int| 0 <= i < 256 ==> (#[trigger] r@[i]).is_extended == is_extended_code(i as u8),
{
    let mut v: Vec<MBRPartitionType> = Vec::new();
    let mut c: u16 = 0;
    while c < 256
        invariant
            v@.len() == c,
            c <= 256,
            forall|i: int| 0 <= i < c ==> (#[trigger] v@[i]).code == i,
            forall|i: int| 0 <= i < c ==> (#[trigger] v@[i]).is_extended == is_extended_code(i as u8),
        decreases 256 - c,
    {
        v.push(mbr_partition_type(c as u8));
        c = c + 1;
    }
    v
}


/// One 16-byte slot of the MBR partition table.
#[derive(Debug, Clone)]
pub struct PartitionEntry {
    pub status: Vec<PartitionStatusFlag>,
    pub chs_start: CHSPosition,
    pub partition_type: MBRPartitionType,
    pub chs_end: CHSPosition,
    pub lba_start: u32,
    pub sector_count: u32,
}

/// `e` is the decoding of the 16-byte partition-table slot `w`: the status
/// byte, the two packed CHS positions, the type code resolved against the
/// partition-type table, and the two little-endian 32-bit LBA fields.
pub open spec fn partition_entry_matches(e: PartitionEntry, w: Seq<u8>) -> bool {
    &&& e.status@ == spec_status_flags(w[0])
    &&& e.chs_start == spec_chs(w[1], w[2], w[3])
    &&& e.partition_type.code == w[4]
    &&& e.partition_type.is_extended == is_extended_code(w[4])
    &&& e.chs_end == spec_chs(w[5], w[6], w[7])
    &&& e.lba_start == spec_le32(w, 8)
    &&& e.sector_count == spec_le32(w, 12)
}

/// A 512-byte MBR or EBR sector: four partition-table slots and the
/// 2-byte signature.
#[derive(Debug)]
pub struct BootSector {
    pub partitions: [PartitionEntry; 4],
    pub signature: [u8; 2],
}

/// The boot-sector magic 0x55 0xAA stands at offset 510 of the sector `w`.
pub open spec fn spec_signature_ok(w: Seq<u8>) -> bool {
    w[510] == 0x55 && w[511] == 0xaa
}

/// `bs` is the decoding of the 512-byte sector `w`: the four table slots
/// at offset 446 and the signature at offset 510.
pub open spec fn boot_sector_matches(bs: BootSector, w: Seq<u8>) -> bool {
    &&& bs.signature@ == seq![w[510], w[511]]
    &&& partition_entry_matches(bs.partitions@[0], w.subrange(446, 462))
    &&& partition_entry_matches(bs.partitions@[1], w.subrange(462, 478))
    &&& partition_entry_matches(bs.partitions@[2], w.subrange(478, 494))
    &&& partition_entry_matches(bs.partitions@[3], w.subrange(494, 510))
}

impl PartitionEntry {
    /// Decode one 16-byte partition-table slot.
    pub fn new(data: &[u8]) -> (r: PartitionEntry)
        requires
            data@.len() >= PARTITION_ENTRY_SIZE,
        ensures
            partition_entry_matches(r, data@.subrange(0, 16)),
    {
        let r = PartitionEntry {
            status: PartitionStatusFlag::from_u8(data[0]),
            chs_start: CHSPosition::new(&data[1..4]),
            partition_type: mbr_partition_type(data[4]),
            chs_end: CHSPosition::new(&data[5..8]),
            lba_start: le32(data, 8),
            sector_count: le32(data, 12),
        };
        proof {
            let w = data@.subrange(0, 16);
            assert(spec_le32(w, 8) == spec_le32(data@, 8));
            assert(spec_le32(w, 12) == spec_le32(data@, 12));
        }
        r
    }

    /// Whether the type code classifies this entry as extended.
    pub fn is_extended(&self) -> (r: bool)
        ensures
            r == self.partition_type.is_extended,
    {
        self.partition_type.is_extended
    }

    /// Whether the slot is occupied at all: a slot whose type code, LBA
    /// start and sector count are all zero is an empty table entry.
    pub fn is_populated(&self) -> (r: bool)
        ensures
            r == (self.partition_type.code > 0 || self.lba_start > 0 || self.sector_count > 0),
    {
        self.partition_type.code > 0 || self.lba_start > 0 || self.sector_count > 0
    }

    /// Follow this entry one hop along the extended-partition chain: the
    /// next boot sector lives at `my_boot_sector_start_pos` (the base the
    /// entry's LBA is relative to) plus `lba_start * 512`, and is returned
    /// together with that resolved absolute offset.
    ///
    /// Fails when the entry is not extended, when it is addressed only by
    /// CHS (zero LBA), when the target sector is not wholly inside the
    /// image, or when the target carries no boot-sector signature.
    pub fn get_extended_boot_sector(&self, image: &[u8], my_boot_sector_start_pos: u64) -> (r:
        Result<(BootSector, u64), ImageError>)
        ensures
            !self.partition_type.is_extended ==> r == Err::<(BootSector, u64), ImageError>(
                ImageError::InvalidPartitionType { actual: self.partition_type.code },
            ),
            self.partition_type.is_extended && self.lba_start == 0 ==> r == Err::<(
                BootSector,
                u64,
            ), ImageError>(ImageError::InvalidPartitionEntry),
            self.partition_type.is_extended && self.lba_start != 0 ==> ({
                let pos = my_boot_sector_start_pos + self.lba_start * 512;
                let w = image@.subrange(pos, pos + 512);
                &&& (pos + 512 > image@.len()) <==> (r matches Err(ImageError::ShortRead))
                &&& (pos + 512 <= image@.len() && !spec_signature_ok(w)) <==> (r matches Err(
                    ImageError::InvalidSignature(_),
                ))
                &&& (pos + 512 <= image@.len() && spec_signature_ok(w)) <==> r is Ok
                &&& (r matches Ok(p) ==> p.1 == pos && boot_sector_matches(p.0, w))
            }),
    {
        if !self.partition_type.is_extended {
            return Err(ImageError::InvalidPartitionType { actual: self.partition_type.code });
        }

        if self.lba_start == 0 {
            return Err(ImageError::InvalidPartitionEntry);
        }

        let delta: u64 = (self.lba_start as u64) * 512;
        let image_len: usize = image.len();
        let start_pos: u64 = match my_boot_sector_start_pos.checked_add(delta) {
            Some(p) => p,
            None => {
                // The sum exceeds u64::MAX, which no image can reach.
                assert(image_len <= u64::MAX);
                return Err(ImageError::ShortRead);
            },
        };
        match BootSector::from_disk_image(image, start_pos) {
            Ok(bs) => Ok((bs, start_pos)),
            Err(e) => Err(e),
        }
    }
}

impl BootSector {
    /// Decode the 512-byte boot sector at byte offset `start_pos` of the
    /// image, verifying the 0x55 0xAA signature at offset 510.
    pub fn from_disk_image(image: &[u8], start_pos: u64) -> (r: Result<BootSector, ImageError>)
        ensures
            (start_pos + BOOT_SECTOR_SIZE > image@.len()) <==> (r matches Err(
                ImageError::ShortRead,
            )),
            ({
                let w = image@.subrange(start_pos as int, start_pos + BOOT_SECTOR_SIZE);
                &&& (start_pos + BOOT_SECTOR_SIZE <= image@.len() && !spec_signature_ok(w)) <==> (r
                    matches Err(ImageError::InvalidSignature(_)))
                &&& (r matches Err(ImageError::InvalidSignature(s)) ==> s@ == seq![w[510], w[511]])
                &&& (start_pos + BOOT_SECTOR_SIZE <= image@.len() && spec_signature_ok(w)) <==> r
                    is Ok
                &&& (r matches Ok(bs) ==> boot_sector_matches(bs, w))
            }),
    {
        let len: usize = image.len();
        if (len as u64) < 512 || start_pos > (len as u64) - 512 {
            return Err(ImageError::ShortRead);
        }
        let base: usize = start_pos as usize;
        let w: &[u8] = &image[base..base + 512];

        let s0: u8 = w[510];
        let s1: u8 = w[511];
        if !(s0 == 0x55 && s1 == 0xaa) {
            return Err(ImageError::InvalidSignature([s0, s1]));
        }

        let p0 = PartitionEntry::new(&w[446..462]);
        let p1 = PartitionEntry::new(&w[462..478]);
        let p2 = PartitionEntry::new(&w[478..494]);
        let p3 = PartitionEntry::new(&w[494..510]);
        let bs = BootSector { partitions: [p0, p1, p2, p3], signature: [s0, s1] };
        proof {
            let wv = image@.subrange(start_pos as int, start_pos + 512);
            assert(w@ == wv);
            assert(w@.subrange(446, 462) =~= wv.subrange(446, 462).subrange(0, 16));
            assert(w@.subrange(462, 478) =~= wv.subrange(462, 478).subrange(0, 16));
            assert(w@.subrange(478, 494) =~= wv.subrange(478, 494).subrange(0, 16));
            assert(w@.subrange(494, 510) =~= wv.subrange(494, 510).subrange(0, 16));
            assert(bs.partitions@[0] == p0);
            assert(bs.partitions@[1] == p1);
            assert(bs.partitions@[2] == p2);
            assert(bs.partitions@[3] == p3);
            assert(bs.signature@ =~= seq![wv[510], wv[511]]);
        }
        Ok(bs)
    }
}

} // verus!

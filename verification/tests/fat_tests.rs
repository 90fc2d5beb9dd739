use disk_image_inspector::errors::ImageError;
use disk_image_inspector::fat::{
    classify_fat_width, decode_fat_table, fat_date_decode, fat_fine_time_decode, fat_time_decode,
    FatBootSector, FatBootSectorExtra, FatDirectoryEntry, FatPartition, FatType,
};

/// A minimal FAT12 volume: 16 sectors of 512 bytes, 1 reserved sector,
/// one 3-sector FAT, a 16-entry root directory, and 11 data clusters.
/// The root holds one subdirectory "SUB" whose chain is cluster 2 then
/// cluster 3.
fn fat12_image() -> Vec<u8> {
    let mut img: Vec<u8> = vec![0u8; 16 * 512];
    img[0x0b..0x0d].copy_from_slice(&512u16.to_le_bytes());
    img[0x0d] = 1; // sectors per cluster
    img[0x0e..0x10].copy_from_slice(&1u16.to_le_bytes()); // reserved
    img[0x10] = 1; // number of FATs
    img[0x11..0x13].copy_from_slice(&16u16.to_le_bytes()); // root entries
    img[0x13..0x15].copy_from_slice(&16u16.to_le_bytes()); // total sectors
    img[0x15] = 0xf8;
    img[0x16..0x18].copy_from_slice(&3u16.to_le_bytes()); // sectors per FAT
    img[510] = 0x55;
    img[511] = 0xaa;

    // FAT at sector 1: entries 0,1 reserved; the chain 2 -> 3 -> end.
    img[512] = 0xf8;
    img[513] = 0xff;
    img[514] = 0xff;
    // entries 2 and 3 packed as (0x003, 0xfff)
    img[515] = 0x03;
    img[516] = 0xf0;
    img[517] = 0xff;

    // Root directory at sector 4 (byte 2048): one subdirectory "SUB".
    img[2048..2056].copy_from_slice(b"SUB     ");
    img[2056..2059].copy_from_slice(b"   ");
    img[2048 + 11] = 0x10;
    img[2048 + 26..2048 + 28].copy_from_slice(&2u16.to_le_bytes());

    // Cluster 2 at byte 2560: "FILE1.TXT".
    img[2560..2568].copy_from_slice(b"FILE1   ");
    img[2568..2571].copy_from_slice(b"TXT");
    img[2560 + 11] = 0x20;
    img[2560 + 28..2560 + 32].copy_from_slice(&1234u32.to_le_bytes());

    // Cluster 3 at byte 3072: "FILE2.TXT".
    img[3072..3080].copy_from_slice(b"FILE2   ");
    img[3080..3083].copy_from_slice(b"TXT");
    img[3072 + 11] = 0x20;

    img
}

#[test]
fn fat_width_classification_boundaries() {
    assert_eq!(classify_fat_width(0), FatType::Fat12);
    assert_eq!(classify_fat_width(4084), FatType::Fat12);
    assert_eq!(classify_fat_width(4085), FatType::Fat16);
    assert_eq!(classify_fat_width(65524), FatType::Fat16);
    assert_eq!(classify_fat_width(65525), FatType::Fat32);
    assert_eq!(classify_fat_width(u32::MAX), FatType::Fat32);
}

#[test]
fn fat12_table_round_trip() {
    // 0x123 and 0x456 packed into three bytes decode back to themselves.
    let t = decode_fat_table(&[0x23, 0x61, 0x45], FatType::Fat12);
    assert_eq!(t, vec![0x123, 0x456]);
}

#[test]
fn fat16_table_decode() {
    let t = decode_fat_table(&[0x34, 0x12, 0xff, 0xff], FatType::Fat16);
    assert_eq!(t, vec![0x1234, 0xffff]);
}

#[test]
fn fat32_table_decode() {
    let t = decode_fat_table(&[0x78, 0x56, 0x34, 0x12, 0x08, 0x00, 0x00, 0x00], FatType::Fat32);
    assert_eq!(t, vec![0x1234_5678, 8]);
}

#[test]
fn fat12_boot_sector_decodes() {
    let img = fat12_image();
    let b = FatBootSector::from_partition_image(&img, 0).expect("boot sector should decode");
    assert_eq!(b.bytes_per_sector, 512);
    assert_eq!(b.sectors_per_cluster, 1);
    assert_eq!(b.reserved_sectors, 1);
    assert_eq!(b.number_of_fats, 1);
    assert_eq!(b.root_directory_entries, 16);
    assert_eq!(b.sectors_in_filesystem, 16);
    assert_eq!(b.media_descriptor, 0xf8);
    assert_eq!(b.sectors_per_fat, 3);
    assert!(matches!(b.extra, FatBootSectorExtra::Fat12(_)));
    assert_eq!(b.get_fat_table_offset(0), 512);
    assert_eq!(b.get_root_directory_offset(), 2048);
    assert_eq!(b.get_data_start_offset(), 2560);
    assert_eq!(b.get_cluster_offset(2), 2560);
    assert_eq!(b.get_cluster_offset(3), 3072);
    assert_eq!(b.get_bytes_per_cluster(), 512);
}

#[test]
fn fat_boot_sector_bad_signature() {
    let mut img = fat12_image();
    img[511] = 0x00;
    let err = FatBootSector::from_partition_image(&img, 0).unwrap_err();
    assert!(err.is_signature_mismatch());
    assert_eq!(err, ImageError::InvalidSignature([0x55, 0x00]));
}

#[test]
fn fat_boot_sector_zero_geometry_rejected() {
    let mut img = fat12_image();
    img[0x0d] = 0; // zero sectors per cluster
    let err = FatBootSector::from_partition_image(&img, 0).unwrap_err();
    assert_eq!(err, ImageError::InvalidFatGeometry);
    assert!(!err.is_signature_mismatch());
}

#[test]
fn fat_partition_indivisible_table_rejected() {
    // One FAT sector of 512 bytes does not divide into 3-byte pairs.
    let mut img = fat12_image();
    img[0x16..0x18].copy_from_slice(&1u16.to_le_bytes());
    let err = FatPartition::from_partition_image(&img, 0).unwrap_err();
    assert_eq!(err, ImageError::InvalidFatGeometry);
}

#[test]
fn fat12_partition_decodes_tables() {
    let img = fat12_image();
    let p = FatPartition::from_partition_image(&img, 0).expect("partition should decode");
    assert_eq!(p.fat_type, FatType::Fat12);
    assert_eq!(p.offset, 0);
    assert_eq!(p.fat_tables.len(), 1);
    assert_eq!(p.fat_tables[0].len(), 1024);
    assert_eq!(p.fat_tables[0][0], 0xff8);
    assert_eq!(p.fat_tables[0][1], 0xfff);
    assert_eq!(p.fat_tables[0][2], 3);
    assert_eq!(p.fat_tables[0][3], 0xfff);
}

#[test]
fn fat12_root_directory_lists_subdirectory() {
    let img = fat12_image();
    let p = FatPartition::from_partition_image(&img, 0).unwrap();
    let root = p.get_root_directory_entries(&img).unwrap();
    assert_eq!(root.len(), 16);
    assert!(root[0].is_valid());
    assert!(root[0].is_directory());
    assert_eq!(root[0].get_filename(), Some("SUB".to_string()));
    assert_eq!(root[0].first_cluster, 2);
    assert!(!root[1].is_valid());
}

#[test]
fn fat12_directory_chain_walk() {
    let img = fat12_image();
    let p = FatPartition::from_partition_image(&img, 0).unwrap();
    let root = p.get_root_directory_entries(&img).unwrap();
    let entries = root[0].get_directory_entries(&p, &img).unwrap();
    // Two clusters of 16 records each.
    assert_eq!(entries.len(), 32);
    assert_eq!(entries[0].get_filename(), Some("FILE1.TXT".to_string()));
    assert_eq!(entries[0].file_size, 1234);
    assert_eq!(entries[16].get_filename(), Some("FILE2.TXT".to_string()));
    assert!(!entries[1].is_valid());
}

#[test]
fn fat12_cluster_cycle_detected() {
    let mut img = fat12_image();
    // Repack entries 2 and 3 as (3, 2): the chain 2 -> 3 -> 2 loops.
    img[515] = 0x03;
    img[516] = 0x20;
    img[517] = 0x00;
    let p = FatPartition::from_partition_image(&img, 0).unwrap();
    let err = p.get_directory_at_cluster(&img, 2).unwrap_err();
    assert_eq!(err, ImageError::CycleDetected);
}

#[test]
fn fat12_reserved_cluster_rejected() {
    let img = fat12_image();
    let p = FatPartition::from_partition_image(&img, 0).unwrap();
    assert_eq!(
        p.get_directory_at_cluster(&img, 0).unwrap_err(),
        ImageError::ClusterOutOfRange(0)
    );
    assert_eq!(
        p.get_directory_at_cluster(&img, 1).unwrap_err(),
        ImageError::ClusterOutOfRange(1)
    );
}

#[test]
fn fat12_truncated_cluster_window_rejected() {
    let img = fat12_image();
    let p = FatPartition::from_partition_image(&img, 0).unwrap();
    let truncated: Vec<u8> = img[..2560 + 100].to_vec();
    let err = p.get_directory_at_cluster(&truncated, 2).unwrap_err();
    assert_eq!(err, ImageError::ShortRead);
}

/// A FAT16 boot sector: 1 reserved sector, one 16-sector FAT, 16 root
/// entries, and exactly 4085 data clusters.
fn fat16_boot_sector() -> Vec<u8> {
    let mut img: Vec<u8> = vec![0u8; 512];
    img[0x0b..0x0d].copy_from_slice(&512u16.to_le_bytes());
    img[0x0d] = 1;
    img[0x0e..0x10].copy_from_slice(&1u16.to_le_bytes());
    img[0x10] = 1;
    img[0x11..0x13].copy_from_slice(&16u16.to_le_bytes());
    img[0x13..0x15].copy_from_slice(&4103u16.to_le_bytes());
    img[0x15] = 0xf8;
    img[0x16..0x18].copy_from_slice(&16u16.to_le_bytes());
    img[510] = 0x55;
    img[511] = 0xaa;
    img
}

#[test]
fn fat16_extended_bpb_with_signature() {
    let mut img = fat16_boot_sector();
    img[0x24] = 0x80; // logical drive number
    img[0x25] = 0x01; // flags
    img[0x26] = 0x29; // extended signature
    img[0x27..0x2b].copy_from_slice(&0xcafe_f00du32.to_le_bytes());
    img[0x2b..0x36].copy_from_slice(b"VOLUMELABEL");
    img[0x36..0x3e].copy_from_slice(b"FAT16   ");

    let b = FatBootSector::from_partition_image(&img, 0).unwrap();
    match b.extra {
        FatBootSectorExtra::Fat16(x) => {
            assert_eq!(x.logical_drive_number, 0x80);
            assert_eq!(x.flags, 0x01);
            assert_eq!(x.extended_signature, 0x29);
            assert_eq!(x.serial_number, Some(0xcafe_f00d));
            assert_eq!(x.volume_label, Some(*b"VOLUMELABEL"));
            assert_eq!(x.file_system_type, Some(*b"FAT16   "));
        }
        other => panic!("expected a FAT16 extension, got {:?}", other),
    }
}

#[test]
fn fat16_extended_bpb_without_signature() {
    let mut img = fat16_boot_sector();
    img[0x26] = 0x00;
    let b = FatBootSector::from_partition_image(&img, 0).unwrap();
    match b.extra {
        FatBootSectorExtra::Fat16(x) => {
            assert_eq!(x.serial_number, None);
            assert_eq!(x.volume_label, None);
            assert_eq!(x.file_system_type, None);
        }
        other => panic!("expected a FAT16 extension, got {:?}", other),
    }
}

#[test]
fn fat32_boot_sector_decodes() {
    let mut img: Vec<u8> = vec![0u8; 512];
    img[0x0b..0x0d].copy_from_slice(&512u16.to_le_bytes());
    img[0x0d] = 1;
    img[0x0e..0x10].copy_from_slice(&32u16.to_le_bytes());
    img[0x10] = 1;
    // 16-bit totals and sectors-per-FAT are zero: the 32-bit fields rule.
    img[0x20..0x24].copy_from_slice(&65657u32.to_le_bytes());
    img[0x24..0x28].copy_from_slice(&100u32.to_le_bytes());
    img[0x28..0x2a].copy_from_slice(&0x0001u16.to_le_bytes());
    img[0x2a..0x2c].copy_from_slice(&0u16.to_le_bytes());
    img[0x2c..0x30].copy_from_slice(&2u32.to_le_bytes());
    img[0x30..0x32].copy_from_slice(&1u16.to_le_bytes());
    img[0x32..0x34].copy_from_slice(&6u16.to_le_bytes());
    img[0x37] = 0x29; // extended signature, as this decoder reads it
    img[0x40] = 0x80;
    img[0x43..0x47].copy_from_slice(&0x1122_3344u32.to_le_bytes());
    img[0x47..0x52].copy_from_slice(b"BIGVOLUME  ");
    img[0x52..0x5a].copy_from_slice(b"FAT32   ");
    img[510] = 0x55;
    img[511] = 0xaa;

    let b = FatBootSector::from_partition_image(&img, 0).unwrap();
    assert_eq!(b.sectors_in_filesystem, 65657);
    assert_eq!(b.sectors_per_fat, 100);
    match b.extra {
        FatBootSectorExtra::Fat32(x) => {
            assert_eq!(x.mirror_flags, 1);
            assert_eq!(x.filesystem_version, 0);
            assert_eq!(x.root_directory_cluster, 2);
            assert_eq!(x.fsinfo_sector, 1);
            assert_eq!(x.backup_boot_sector, 6);
            assert_eq!(x.logical_drive_number, 0x80);
            assert_eq!(x.extended_signature, 0x29);
            assert_eq!(x.serial_number, Some(0x1122_3344));
            assert_eq!(x.volume_label, Some(*b"BIGVOLUME  "));
            assert_eq!(x.file_system_type, Some(*b"FAT32   "));
        }
        other => panic!("expected a FAT32 extension, got {:?}", other),
    }
}

/// A 32-byte directory record with the given name, extension and
/// attribute byte, all other fields zero.
fn dir_record(name: &[u8; 8], ext: &[u8; 3], attributes: u8) -> [u8; 32] {
    let mut rec: [u8; 32] = [0u8; 32];
    rec[0..8].copy_from_slice(name);
    rec[8..11].copy_from_slice(ext);
    rec[11] = attributes;
    rec
}

#[test]
fn dir_entry_validity_rules() {
    let end = FatDirectoryEntry::from_data(&dir_record(&[0u8; 8], b"   ", 0), FatType::Fat16);
    assert!(!end.is_valid());
    assert_eq!(end.get_filename(), None);

    let no_ext =
        FatDirectoryEntry::from_data(&dir_record(b"README  ", b"   ", 0x20), FatType::Fat16);
    assert!(no_ext.is_valid());
    assert_eq!(no_ext.get_filename(), Some("README".to_string()));

    let zero_ext =
        FatDirectoryEntry::from_data(&dir_record(b"README  ", &[0u8; 3], 0x20), FatType::Fat16);
    assert!(!zero_ext.is_valid()); // a zero first extension byte is invalid

    let plain =
        FatDirectoryEntry::from_data(&dir_record(b"HELLO   ", b"TXT", 0x20), FatType::Fat16);
    assert!(plain.is_valid());
    assert!(!plain.is_directory());
    assert_eq!(plain.get_filename(), Some("HELLO.TXT".to_string()));
}

#[test]
fn dir_entry_deleted_shows_question_mark() {
    let mut name: [u8; 8] = *b"XOLDFILE";
    name[0] = 0xe5;
    let e = FatDirectoryEntry::from_data(&dir_record(&name, b"TXT", 0x20), FatType::Fat16);
    let shown = e.get_filename().unwrap();
    assert_eq!(shown, "?OLDFILE.TXT");
    assert!(shown.starts_with('?'));
}

#[test]
fn dir_entry_escaped_first_byte_shows_literal() {
    let mut name: [u8; 8] = *b"XKANJI  ";
    name[0] = 0x05;
    let e = FatDirectoryEntry::from_data(&dir_record(&name, b"   ", 0x20), FatType::Fat16);
    let shown = e.get_filename().unwrap();
    // CP437 byte 0xE5 decodes to the Greek small sigma.
    assert_eq!(shown.chars().next(), Some('\u{3c3}'));
    assert_eq!(&shown[..], "\u{3c3}KANJI");
}

#[test]
fn dir_entry_timestamps_decode() {
    let mut rec = dir_record(b"HELLO   ", b"TXT", 0x20);
    rec[13] = 150; // 1.5 seconds
    rec[14..16].copy_from_slice(&(((13u16) << 11) | ((45u16) << 5)).to_le_bytes());
    let date_2020_05_15: u16 = ((2020 - 1980) << 9) | (5 << 5) | 15;
    rec[16..18].copy_from_slice(&date_2020_05_15.to_le_bytes());
    rec[18..20].copy_from_slice(&date_2020_05_15.to_le_bytes());
    rec[20..22].copy_from_slice(&7u16.to_le_bytes());
    rec[22..24].copy_from_slice(&(((13u16) << 11) | ((45u16) << 5) | 15).to_le_bytes());
    rec[24..26].copy_from_slice(&date_2020_05_15.to_le_bytes());
    rec[26..28].copy_from_slice(&9u16.to_le_bytes());
    rec[28..32].copy_from_slice(&1234u32.to_le_bytes());

    let e = FatDirectoryEntry::from_data(&rec, FatType::Fat16);
    let ct = e.creation_timestamp.unwrap();
    assert_eq!(
        (ct.date.year, ct.date.month, ct.date.day),
        (2020, 5, 15)
    );
    assert_eq!(
        (ct.time.hour, ct.time.minute, ct.time.second, ct.time.millisecond),
        (13, 45, 1, 500)
    );
    let ad = e.last_access_date.unwrap();
    assert_eq!((ad.year, ad.month, ad.day), (2020, 5, 15));
    let mt = e.last_modification_timestamp.unwrap();
    assert_eq!(
        (mt.time.hour, mt.time.minute, mt.time.second, mt.time.millisecond),
        (13, 45, 30, 0)
    );
    assert_eq!(e.extended_attributes_cluster, Some(7));
    assert_eq!(e.first_cluster, 9);
    assert_eq!(e.file_size, 1234);
}

#[test]
fn dir_entry_invalid_dates_are_absent() {
    let mut rec = dir_record(b"HELLO   ", b"TXT", 0x20);
    // 2021-02-30 does not exist; 2021 is not a leap year either.
    let bad_date: u16 = ((2021 - 1980) << 9) | (2 << 5) | 30;
    rec[16..18].copy_from_slice(&bad_date.to_le_bytes());
    rec[18..20].copy_from_slice(&(((2021 - 1980) << 9) | (2 << 5) | 29u16).to_le_bytes());
    let e = FatDirectoryEntry::from_data(&rec, FatType::Fat16);
    assert_eq!(e.creation_timestamp, None);
    assert_eq!(e.last_access_date, None);

    // 2020-02-29 exists: 2020 is a leap year.
    let mut rec2 = dir_record(b"HELLO   ", b"TXT", 0x20);
    rec2[18..20].copy_from_slice(&(((2020 - 1980) << 9) | (2 << 5) | 29u16).to_le_bytes());
    let e2 = FatDirectoryEntry::from_data(&rec2, FatType::Fat16);
    let ad = e2.last_access_date.unwrap();
    assert_eq!((ad.year, ad.month, ad.day), (2020, 2, 29));
}

#[test]
fn dir_entry_fat32_high_cluster_bits() {
    let mut rec = dir_record(b"BIG     ", b"BIN", 0x20);
    rec[20..22].copy_from_slice(&0x0012u16.to_le_bytes());
    rec[26..28].copy_from_slice(&0x3456u16.to_le_bytes());
    let e = FatDirectoryEntry::from_data(&rec, FatType::Fat32);
    assert_eq!(e.extended_attributes_cluster, None);
    assert_eq!(e.first_cluster, 0x0012_3456);

    let e16 = FatDirectoryEntry::from_data(&rec, FatType::Fat16);
    assert_eq!(e16.extended_attributes_cluster, Some(0x12));
    assert_eq!(e16.first_cluster, 0x3456);
}

#[test]
fn attribute_flags_render() {
    let lfn = FatDirectoryEntry::from_data(&dir_record(b"A       ", b"B  ", 0x0f), FatType::Fat16);
    assert_eq!(lfn.get_attribute_flags(), "<LFN>");

    let mixed =
        FatDirectoryEntry::from_data(&dir_record(b"A       ", b"B  ", 0x31), FatType::Fat16);
    assert_eq!(mixed.get_attribute_flags(), " AD   R");

    let none = FatDirectoryEntry::from_data(&dir_record(b"A       ", b"B  ", 0x00), FatType::Fat16);
    assert_eq!(none.get_attribute_flags(), "       ");

    let all = FatDirectoryEntry::from_data(&dir_record(b"A       ", b"B  ", 0x7f), FatType::Fat16);
    assert_eq!(all.get_attribute_flags(), "!ADVSHR");
}

#[test]
fn fat_partition_truncated_table_rejected() {
    // Cut the image inside the FAT area: the boot sector still decodes,
    // but the table read runs past the end.
    let img = fat12_image();
    let truncated: Vec<u8> = img[..1024].to_vec();
    let err = FatPartition::from_partition_image(&truncated, 0).unwrap_err();
    assert_eq!(err, ImageError::ShortRead);
}

#[test]
fn fat_date_and_time_decode_directly() {
    let d = fat_date_decode(((2003 - 1980) << 9) | (12 << 5) | 31).unwrap();
    assert_eq!((d.year, d.month, d.day), (2003, 12, 31));
    assert_eq!(fat_date_decode((4 << 5) | 31), None); // 1980-04-31
    assert_eq!(fat_date_decode(0), None); // month and day zero

    let t = fat_fine_time_decode(199, (23u16 << 11) | (59u16 << 5)).unwrap();
    assert_eq!(
        (t.hour, t.minute, t.second, t.millisecond),
        (23, 59, 1, 990)
    );
    assert_eq!(fat_fine_time_decode(0, 24u16 << 11), None); // hour 24

    let c = fat_time_decode((7u16 << 11) | (8u16 << 5) | 9).unwrap();
    assert_eq!((c.hour, c.minute, c.second, c.millisecond), (7, 8, 18, 0));
    assert_eq!(fat_time_decode(61u16 << 5), None); // minute 61
}

#[test]
fn fat16_extended_bpb_serial_only_signature() {
    // Signature 0x28 announces the serial number but not the label or
    // the filesystem-type string.
    let mut img = fat16_boot_sector();
    img[0x26] = 0x28;
    img[0x27..0x2b].copy_from_slice(&0x0102_0304u32.to_le_bytes());
    let b = FatBootSector::from_partition_image(&img, 0).unwrap();
    match b.extra {
        FatBootSectorExtra::Fat16(x) => {
            assert_eq!(x.serial_number, Some(0x0102_0304));
            assert_eq!(x.volume_label, None);
            assert_eq!(x.file_system_type, None);
        }
        other => panic!("expected a FAT16 extension, got {:?}", other),
    }
}

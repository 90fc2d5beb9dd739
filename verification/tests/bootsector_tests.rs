use disk_image_inspector::bootsector::{
    mbr_partition_types, BootSector, CHSPosition, PartitionStatusFlag,
};
use disk_image_inspector::errors::ImageError;

/// A 512-byte sector with the boot signature set and all else zero.
fn empty_boot_sector() -> Vec<u8> {
    let mut sector: Vec<u8> = vec![0u8; 512];
    sector[510] = 0x55;
    sector[511] = 0xaa;
    sector
}

/// Fill partition-table slot `idx` (0..4) of the sector starting at
/// `base` in `img`.
fn set_partition_entry(
    img: &mut Vec<u8>,
    base: usize,
    idx: usize,
    status: u8,
    type_code: u8,
    lba_start: u32,
    sector_count: u32,
) {
    let off: usize = base + 446 + 16 * idx;
    img[off] = status;
    img[off + 4] = type_code;
    img[off + 8..off + 12].copy_from_slice(&lba_start.to_le_bytes());
    img[off + 12..off + 16].copy_from_slice(&sector_count.to_le_bytes());
}

#[test]
fn check_mbr_partition_entries() {
    let types = mbr_partition_types();
    for i in 0..=255 {
        assert_eq!(types[i as usize].code, i);
    }
}

#[test]
fn partition_type_table_extended_codes() {
    let types = mbr_partition_types();
    let extended: Vec<u8> = types.iter().filter(|t| t.is_extended).map(|t| t.code).collect();
    assert_eq!(
        extended,
        vec![0x05, 0x0f, 0x15, 0x1f, 0x85, 0x91, 0x9b, 0xc5, 0xd5, 0xea]
    );
    assert_eq!(types[0x83].name, "Linux");
    assert_eq!(types[0x00].name, "Empty");
}

#[test]
fn chs_decode_exact_values() {
    let p = CHSPosition::new(&[0xab, 0xc5, 0x34]);
    assert_eq!(p.head, 0xab);
    assert_eq!(p.sector, 0x05);
    assert_eq!(p.cylinder, 0x334);

    let q = CHSPosition::new(&[0x00, 0x00, 0x00]);
    assert_eq!((q.cylinder, q.head, q.sector), (0, 0, 0));

    let r = CHSPosition::new(&[0xff, 0xff, 0xff]);
    assert_eq!(r.cylinder, 1023);
    assert_eq!(r.head, 255);
    assert_eq!(r.sector, 63);
}

#[test]
fn chs_decode_in_bounds_for_many_inputs() {
    for b1 in 0..=255u8 {
        for b2 in (0..=255u8).step_by(17) {
            let p = CHSPosition::new(&[0x12, b1, b2]);
            assert!(p.cylinder <= 1023);
            assert!(p.sector <= 63);
        }
    }
}

#[test]
fn status_flags_decode() {
    assert_eq!(PartitionStatusFlag::from_u8(0x00), vec![]);
    assert_eq!(PartitionStatusFlag::from_u8(0x80), vec![PartitionStatusFlag::Bootable]);
    assert_eq!(
        PartitionStatusFlag::from_u8(0x83),
        vec![
            PartitionStatusFlag::Bootable,
            PartitionStatusFlag::Unknown(0),
            PartitionStatusFlag::Unknown(1),
        ]
    );
    assert_eq!(
        PartitionStatusFlag::from_u8(0x40),
        vec![PartitionStatusFlag::Unknown(6)]
    );
}

#[test]
fn mbr_single_linux_partition() {
    let mut img = empty_boot_sector();
    set_partition_entry(&mut img, 0, 0, 0x80, 0x83, 2048, 1024);

    let bs = BootSector::from_disk_image(&img, 0).expect("boot sector should decode");
    assert_eq!(bs.signature, [0x55, 0xaa]);

    let populated: Vec<usize> =
        (0..4).filter(|&i| bs.partitions[i].is_populated()).collect();
    assert_eq!(populated, vec![0]);

    let p = &bs.partitions[0];
    assert_eq!(p.lba_start, 2048);
    assert_eq!(p.sector_count, 1024);
    assert_eq!(p.partition_type.code, 0x83);
    assert!(!p.is_extended());
    assert_eq!(p.status, vec![PartitionStatusFlag::Bootable]);
}

#[test]
fn mbr_bad_signature_rejected() {
    let mut img = empty_boot_sector();
    img[510] = 0x12;
    img[511] = 0x34;
    let err = BootSector::from_disk_image(&img, 0).unwrap_err();
    assert_eq!(err, ImageError::InvalidSignature([0x12, 0x34]));
}

#[test]
fn mbr_short_read_rejected() {
    let img: Vec<u8> = vec![0u8; 100];
    let err = BootSector::from_disk_image(&img, 0).unwrap_err();
    assert_eq!(err, ImageError::ShortRead);

    let img2 = empty_boot_sector();
    let err2 = BootSector::from_disk_image(&img2, 1).unwrap_err();
    assert_eq!(err2, ImageError::ShortRead);
}

#[test]
fn extended_hop_on_regular_entry_fails() {
    let mut img = empty_boot_sector();
    set_partition_entry(&mut img, 0, 0, 0x00, 0x83, 2048, 1024);
    let bs = BootSector::from_disk_image(&img, 0).unwrap();
    let err = bs.partitions[0].get_extended_boot_sector(&img, 0).unwrap_err();
    assert_eq!(err, ImageError::InvalidPartitionType { actual: 0x83 });
}

#[test]
fn extended_hop_with_zero_lba_fails() {
    let mut img = empty_boot_sector();
    set_partition_entry(&mut img, 0, 0, 0x00, 0x05, 0, 1024);
    let bs = BootSector::from_disk_image(&img, 0).unwrap();
    let err = bs.partitions[0].get_extended_boot_sector(&img, 0).unwrap_err();
    assert_eq!(err, ImageError::InvalidPartitionEntry);
}

#[test]
fn ebr_chain_two_hops_collects_all_leaves() {
    // Primary MBR at 0 with one extended entry; its EBR holds one leaf
    // and one extended sub-entry; the terminal EBR holds leaves only.
    let mut img: Vec<u8> = vec![0u8; 512 * 8];
    let mbr = empty_boot_sector();
    img[..512].copy_from_slice(&mbr);
    set_partition_entry(&mut img, 0, 0, 0x00, 0x05, 2, 1000);

    // First EBR at sector 2 (byte 1024).
    img[1024 + 510] = 0x55;
    img[1024 + 511] = 0xaa;
    set_partition_entry(&mut img, 1024, 0, 0x00, 0x83, 100, 50);
    set_partition_entry(&mut img, 1024, 1, 0x00, 0x05, 4, 500);

    // Terminal EBR at byte 1024 + 4 * 512 = 3072.
    img[3072 + 510] = 0x55;
    img[3072 + 511] = 0xaa;
    set_partition_entry(&mut img, 3072, 0, 0x00, 0x83, 200, 60);

    let bs = BootSector::from_disk_image(&img, 0).unwrap();

    let mut hops: usize = 0;
    let mut leaves: Vec<u32> = Vec::new();
    let mut stack: Vec<(BootSector, u64)> = vec![(bs, 0)];
    while let Some((sector, base)) = stack.pop() {
        for p in sector.partitions.iter() {
            if p.is_populated() {
                if p.is_extended() {
                    hops += 1;
                    let (next, next_base) = p.get_extended_boot_sector(&img, base).unwrap();
                    stack.push((next, next_base));
                } else {
                    leaves.push(p.lba_start);
                }
            }
        }
    }

    assert_eq!(hops, 2);
    leaves.sort();
    assert_eq!(leaves, vec![100, 200]);
}

#[test]
fn extended_hop_resolves_offset_against_base() {
    let mut img: Vec<u8> = vec![0u8; 512 * 8];
    img[510] = 0x55;
    img[511] = 0xaa;
    set_partition_entry(&mut img, 0, 0, 0x00, 0x0f, 3, 100);
    img[3 * 512 + 510] = 0x55;
    img[3 * 512 + 511] = 0xaa;

    let bs = BootSector::from_disk_image(&img, 0).unwrap();
    let (_, pos) = bs.partitions[0].get_extended_boot_sector(&img, 0).unwrap();
    assert_eq!(pos, 3 * 512);

    // The same entry resolved against a nonzero base lands past the image.
    let err = bs.partitions[0].get_extended_boot_sector(&img, 4096).unwrap_err();
    assert_eq!(err, ImageError::ShortRead);
}

#[test]
fn extended_hop_without_signature_fails() {
    let mut img: Vec<u8> = vec![0u8; 2048];
    img[510] = 0x55;
    img[511] = 0xaa;
    set_partition_entry(&mut img, 0, 0, 0x00, 0x05, 2, 100);
    // The chained sector at byte 1024 carries no boot signature.
    let bs = BootSector::from_disk_image(&img, 0).unwrap();
    let err = bs.partitions[0].get_extended_boot_sector(&img, 0).unwrap_err();
    assert_eq!(err, ImageError::InvalidSignature([0x00, 0x00]));
}

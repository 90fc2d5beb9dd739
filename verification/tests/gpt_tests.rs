use disk_image_inspector::bootsector::BootSector;
use disk_image_inspector::errors::ImageError;
use disk_image_inspector::gpt::{
    read_mixed_endian_uuid, GptHeader, GptPartitionEntry, MBR_GPT_PARTITION_TYPE,
};

/// A well-formed 92-byte GPT header serialized at `offset` in `img`.
fn write_gpt_header(img: &mut Vec<u8>, offset: usize) {
    let h = &mut img[offset..];
    h[0..8].copy_from_slice(b"EFI PART");
    h[8..12].copy_from_slice(&0x0001_0000u32.to_le_bytes());
    h[12..16].copy_from_slice(&92u32.to_le_bytes());
    h[16..20].copy_from_slice(&0xdead_beefu32.to_le_bytes());
    h[24..32].copy_from_slice(&1u64.to_le_bytes());
    h[32..40].copy_from_slice(&4095u64.to_le_bytes());
    h[40..48].copy_from_slice(&34u64.to_le_bytes());
    h[48..56].copy_from_slice(&4062u64.to_le_bytes());
    h[56..60].copy_from_slice(&0x1234_5678u32.to_le_bytes());
    h[60..62].copy_from_slice(&0xabcdu16.to_le_bytes());
    h[62..64].copy_from_slice(&0xdef1u16.to_le_bytes());
    h[64..72].copy_from_slice(&[1, 2, 3, 4, 5, 6, 7, 8]);
    h[72..80].copy_from_slice(&2u64.to_le_bytes());
    h[80..84].copy_from_slice(&8u32.to_le_bytes());
    h[84..88].copy_from_slice(&128u32.to_le_bytes());
    h[88..92].copy_from_slice(&0x0bad_cafeu32.to_le_bytes());
}

#[test]
fn gpt_header_decodes() {
    let mut img: Vec<u8> = vec![0u8; 1024];
    write_gpt_header(&mut img, 512);
    let h = GptHeader::new(&img, 512).expect("header should decode");
    assert_eq!(h.signature, *b"EFI PART");
    assert_eq!(h.revision, 0x0001_0000);
    assert_eq!(h.header_size, 92);
    assert_eq!(h.crc32, 0xdead_beef);
    assert_eq!(h.current_lba, 1);
    assert_eq!(h.backup_lba, 4095);
    assert_eq!(h.first_usable_lba, 34);
    assert_eq!(h.last_usable_lba, 4062);
    assert_eq!(h.disk_guid.data1, 0x1234_5678);
    assert_eq!(h.disk_guid.data2, 0xabcd);
    assert_eq!(h.disk_guid.data3, 0xdef1);
    assert_eq!(h.disk_guid.data4, [1, 2, 3, 4, 5, 6, 7, 8]);
    assert_eq!(h.partition_table_lba, 2);
    assert_eq!(h.partition_count, 8);
    assert_eq!(h.partition_entry_size, 128);
    assert_eq!(h.partition_entry_array_crc32, 0x0bad_cafe);
}

#[test]
fn gpt_protective_mbr_with_corrupt_header_fails_before_entries() {
    // An MBR whose first entry is the GPT protective type points at LBA 1;
    // the header there carries a corrupted signature, so decoding stops
    // with the signature-mismatch error before any entry is read.
    let mut img: Vec<u8> = vec![0u8; 1024];
    img[510] = 0x55;
    img[511] = 0xaa;
    img[446 + 4] = MBR_GPT_PARTITION_TYPE;
    img[446 + 8..446 + 12].copy_from_slice(&1u32.to_le_bytes());
    img[446 + 12..446 + 16].copy_from_slice(&4095u32.to_le_bytes());

    write_gpt_header(&mut img, 512);
    img[512] = b'X'; // corrupt the magic

    let bs = BootSector::from_disk_image(&img, 0).unwrap();
    assert_eq!(bs.partitions[0].partition_type.code, MBR_GPT_PARTITION_TYPE);
    let header_pos = bs.partitions[0].lba_start as u64 * 512;
    assert_eq!(header_pos, 512);

    let err = GptHeader::new(&img, header_pos).unwrap_err();
    match err {
        ImageError::InvalidGptHeaderSignature(sig) => {
            assert_eq!(&sig[1..], b"FI PART");
            assert_eq!(sig[0], b'X');
        }
        other => panic!("expected signature mismatch, got {:?}", other),
    }
}

#[test]
fn gpt_header_old_revision_rejected() {
    let mut img: Vec<u8> = vec![0u8; 1024];
    write_gpt_header(&mut img, 0);
    img[8..12].copy_from_slice(&0x0000_ff00u32.to_le_bytes());
    let err = GptHeader::new(&img, 0).unwrap_err();
    assert_eq!(err, ImageError::InvalidGptHeaderRevision(0x0000_ff00));
}

#[test]
fn gpt_header_wrong_size_rejected() {
    let mut img: Vec<u8> = vec![0u8; 1024];
    write_gpt_header(&mut img, 0);
    img[12..16].copy_from_slice(&96u32.to_le_bytes());
    let err = GptHeader::new(&img, 0).unwrap_err();
    assert_eq!(err, ImageError::InvalidGptHeaderSize(96));
}

#[test]
fn gpt_header_short_read_rejected() {
    let img: Vec<u8> = vec![0u8; 91];
    let err = GptHeader::new(&img, 0).unwrap_err();
    assert_eq!(err, ImageError::ShortRead);
}

#[test]
fn mixed_endian_guid_reconstruction() {
    let bytes: [u8; 16] = [
        0x78, 0x56, 0x34, 0x12, 0xcd, 0xab, 0xf1, 0xde, 0x01, 0x02, 0x03, 0x04, 0x05, 0x06,
        0x07, 0x08,
    ];
    let g = read_mixed_endian_uuid(&bytes);
    assert_eq!(g.data1, 0x1234_5678);
    assert_eq!(g.data2, 0xabcd);
    assert_eq!(g.data3, 0xdef1);
    assert_eq!(g.data4, [1, 2, 3, 4, 5, 6, 7, 8]);
    assert_eq!(g.as_u128(), 0x1234_5678_abcd_def1_0102_0304_0506_0708u128);
}

#[test]
fn gpt_partition_entry_decodes() {
    let mut img: Vec<u8> = vec![0u8; 256];
    img[0..4].copy_from_slice(&0x0fc6_3dafu32.to_le_bytes());
    img[4..6].copy_from_slice(&0x8483u16.to_le_bytes());
    img[6..8].copy_from_slice(&0x4772u16.to_le_bytes());
    img[8..16].copy_from_slice(&[0x8e, 0x79, 0x3d, 0x69, 0xd8, 0x47, 0x7d, 0xe4]);
    img[32..40].copy_from_slice(&2048u64.to_le_bytes());
    img[40..48].copy_from_slice(&409_600u64.to_le_bytes());
    img[48..56].copy_from_slice(&5u64.to_le_bytes());
    img[56] = b'r';
    img[57] = b'o';
    img[58] = b'o';
    img[59] = b't';

    let e = GptPartitionEntry::new(&img, 0).expect("entry should decode");
    assert_eq!(e.partition_type.as_u128(), 0x0fc63daf_8483_4772_8e79_3d69d8477de4u128);
    assert_eq!(e.starting_lba, 2048);
    assert_eq!(e.ending_lba, 409_600);
    assert_eq!(e.attributes, 5);
    assert_eq!(e.name.len(), 72);
    assert_eq!(&e.name[0..4], b"root");
}

#[test]
fn gpt_partition_entry_all_zero_type_is_empty_slot() {
    let img: Vec<u8> = vec![0u8; 128];
    let e = GptPartitionEntry::new(&img, 0).unwrap();
    assert_eq!(e.partition_type.as_u128(), 0);
}

#[test]
fn gpt_partition_entry_short_read_rejected() {
    let img: Vec<u8> = vec![0u8; 127];
    let err = GptPartitionEntry::new(&img, 0).unwrap_err();
    assert_eq!(err, ImageError::ShortRead);
}

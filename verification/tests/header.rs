use sha3::{Digest, Sha3_256};
use tbf_header::header::TbfHeader;

fn word(bytes: &[u8], offset: usize) -> u32 {
    u32::from_le_bytes([bytes[offset], bytes[offset + 1], bytes[offset + 2], bytes[offset + 3]])
}

fn half(bytes: &[u8], offset: usize) -> u16 {
    u16::from_le_bytes([bytes[offset], bytes[offset + 1]])
}

fn fold(bytes: &[u8]) -> u32 {
    let mut folded = 0u32;
    for chunk in bytes.chunks(4) {
        let mut word = 0u32;
        for (i, byte) in chunk.iter().enumerate() {
            word |= u32::from(*byte) << (8 * i);
        }
        folded ^= word;
    }
    folded
}

#[test]
fn new_header_encodes_base_and_main_only() {
    let header = TbfHeader::new();
    let bytes = header.generate();
    assert_eq!(bytes.len(), 36);
    assert_eq!(half(&bytes, 0), 2);
    assert_eq!(half(&bytes, 2), 0);
    assert_eq!(word(&bytes, 4), 0);
    assert_eq!(word(&bytes, 8), 0);
    assert_eq!(half(&bytes, 16), 1);
    assert_eq!(half(&bytes, 18), 16);
    assert_eq!(fold(&bytes), 0);
}

#[test]
fn minimal_header_is_36_bytes() {
    let mut header = TbfHeader::new();
    let len = header.create(2048, 0, String::new(), None, None, Some(0x1234));
    assert_eq!(len, 36);
    let bytes = header.generate();
    assert_eq!(bytes.len(), 36);
    assert_eq!(word(&bytes, 32), 0x1234);
    assert_eq!(header.main().app_id, 0x1234);
}

#[test]
fn minimal_header_bytes_are_exact() {
    let mut header = TbfHeader::new();
    header.create(2048, 0, String::new(), None, None, Some(0x1234));
    let expected: Vec<u8> = vec![
        0x02, 0x00, 0x24, 0x00, // version, header size
        0x00, 0x00, 0x00, 0x00, // total size
        0x01, 0x00, 0x00, 0x00, // flags
        0x36, 0x1a, 0x34, 0x00, // checksum
        0x01, 0x00, 0x10, 0x00, // main prefix
        0x00, 0x00, 0x00, 0x00, // entry offset
        0x00, 0x00, 0x00, 0x00, // protected size
        0x00, 0x08, 0x00, 0x00, // minimum RAM size
        0x34, 0x12, 0x00, 0x00, // identifier
    ];
    assert_eq!(header.generate(), expected);
}

#[test]
fn create_sets_flags_and_ram_size() {
    let mut header = TbfHeader::new();
    header.create(2048, 0, String::new(), None, None, Some(0x1234));
    assert_eq!(header.base().flags, 1);
    assert_eq!(header.base().header_size, 36);
    assert_eq!(header.main().minimum_ram_size, 2048);
    let bytes = header.generate();
    assert_eq!(word(&bytes, 8), 1);
    assert_eq!(word(&bytes, 28), 2048);
    assert_eq!(half(&bytes, 2), 36);
}

#[test]
fn package_name_adds_prefix_name_and_padding() {
    let mut header = TbfHeader::new();
    let len = header.create(2048, 0, String::from("blink"), None, None, Some(0x1234));
    assert_eq!(len, 48);
    let bytes = header.generate();
    assert_eq!(bytes.len(), 48);
    assert_eq!(half(&bytes, 2), 48);
    assert_eq!(half(&bytes, 36), 3);
    assert_eq!(half(&bytes, 38), 5);
    assert_eq!(&bytes[40..45], b"blink");
    assert_eq!(&bytes[45..48], &[0u8, 0, 0]);
}

#[test]
fn package_name_of_aligned_length_needs_no_padding() {
    let mut header = TbfHeader::new();
    let len = header.create(0, 0, String::from("wxyz"), None, None, Some(1));
    assert_eq!(len, 44);
    let bytes = header.generate();
    assert_eq!(half(&bytes, 38), 4);
    assert_eq!(&bytes[40..44], b"wxyz");
}

#[test]
fn package_name_lengths_round_up_to_a_word() {
    let names = ["a", "ab", "abc", "abcd", "abcde", "abcdef", "abcdefg", "abcdefgh"];
    let lengths = [44usize, 44, 44, 44, 48, 48, 48, 48];
    for (name, expected) in names.iter().zip(lengths.iter()) {
        let mut header = TbfHeader::new();
        let len = header.create(0, 0, String::from(*name), None, None, Some(1));
        assert_eq!(len, *expected);
        assert_eq!(header.generate().len(), *expected);
    }
}

#[test]
fn package_name_is_stored_as_utf8() {
    let mut header = TbfHeader::new();
    let len = header.create(0, 0, String::from("é"), None, None, Some(1));
    assert_eq!(len, 44);
    let bytes = header.generate();
    assert_eq!(half(&bytes, 38), 2);
    assert_eq!(&bytes[40..44], &[0xc3u8, 0xa9, 0, 0]);
}

#[test]
fn flash_regions_fill_in_slot_order() {
    let mut header = TbfHeader::new();
    let len = header.create(2048, 2, String::new(), None, None, Some(0x1234));
    assert_eq!(len, 60);
    let bytes = header.generate();
    assert_eq!(bytes.len(), 60);
    for slot in 0..2 {
        let at = 36 + 12 * slot;
        assert_eq!(half(&bytes, at), 2);
        assert_eq!(half(&bytes, at + 2), 8);
        assert_eq!(word(&bytes, at + 4), 0);
        assert_eq!(word(&bytes, at + 8), 0);
    }

    header.set_writeable_flash_region_values(0x1000, 0x200);
    let bytes = header.generate();
    assert_eq!(word(&bytes, 40), 0x1000);
    assert_eq!(word(&bytes, 44), 0x200);
    assert_eq!(word(&bytes, 52), 0);
    assert_eq!(word(&bytes, 56), 0);

    header.set_writeable_flash_region_values(0x3000, 0x400);
    let filled = header.generate();
    assert_eq!(word(&filled, 40), 0x1000);
    assert_eq!(word(&filled, 44), 0x200);
    assert_eq!(word(&filled, 52), 0x3000);
    assert_eq!(word(&filled, 56), 0x400);

    header.set_writeable_flash_region_values(0x5000, 0x600);
    assert_eq!(header.generate(), filled);
    header.set_writeable_flash_region_values(0x7000, 0x800);
    assert_eq!(header.generate(), filled);
    assert_eq!(header.writeable_flash_regions().len(), 2);
}

#[test]
fn flash_region_of_size_zero_leaves_the_slot_unset() {
    let mut header = TbfHeader::new();
    header.create(0, 2, String::new(), None, None, Some(1));
    header.set_writeable_flash_region_values(0x1000, 0);
    header.set_writeable_flash_region_values(0x2000, 0x10);
    let regions = header.writeable_flash_regions();
    assert_eq!((regions[0].offset, regions[0].size), (0x2000, 0x10));
    assert_eq!((regions[1].offset, regions[1].size), (0, 0));
}

#[test]
fn flash_region_without_slots_is_ignored() {
    let mut header = TbfHeader::new();
    header.create(0, 0, String::new(), None, None, Some(1));
    let before = header.generate();
    header.set_writeable_flash_region_values(0x1000, 0x200);
    assert_eq!(header.generate(), before);
    assert_eq!(header.writeable_flash_regions().len(), 0);
}

#[test]
fn fixed_ram_address_alone_gets_flash_sentinel() {
    let mut header = TbfHeader::new();
    let len = header.create(2048, 0, String::new(), Some(0x2000_0000), None, Some(0x1234));
    assert_eq!(len, 48);
    let bytes = header.generate();
    assert_eq!(half(&bytes, 36), 5);
    assert_eq!(half(&bytes, 38), 8);
    assert_eq!(word(&bytes, 40), 0x2000_0000);
    assert_eq!(word(&bytes, 44), 0xFFFF_FFFF);
    let fixed = header.fixed_addresses().unwrap();
    assert_eq!(fixed.start_process_ram, 0x2000_0000);
    assert_eq!(fixed.start_process_flash, 0xFFFF_FFFF);
}

#[test]
fn fixed_flash_address_alone_gets_ram_sentinel() {
    let mut header = TbfHeader::new();
    header.create(2048, 0, String::new(), None, Some(0x0004_0000), Some(0x1234));
    let bytes = header.generate();
    assert_eq!(bytes.len(), 48);
    assert_eq!(word(&bytes, 40), 0xFFFF_FFFF);
    assert_eq!(word(&bytes, 44), 0x0004_0000);
}

#[test]
fn no_fixed_address_omits_the_section() {
    let mut header = TbfHeader::new();
    header.create(2048, 0, String::new(), None, None, Some(0x1234));
    assert!(header.fixed_addresses().is_none());
}

#[test]
fn sections_come_in_fixed_order() {
    let mut header = TbfHeader::new();
    let len = header.create(
        4096,
        1,
        String::from("app"),
        Some(0x2000_0000),
        Some(0x0003_0000),
        Some(7),
    );
    assert_eq!(len, 36 + 8 + 12 + 12);
    let bytes = header.generate();
    assert_eq!(half(&bytes, 16), 1);
    assert_eq!(half(&bytes, 36), 3);
    assert_eq!(half(&bytes, 38), 3);
    assert_eq!(&bytes[40..44], &[b'a', b'p', b'p', 0]);
    assert_eq!(half(&bytes, 44), 2);
    assert_eq!(half(&bytes, 56), 5);
    assert_eq!(word(&bytes, 60), 0x2000_0000);
    assert_eq!(word(&bytes, 64), 0x0003_0000);
}

#[test]
fn returned_length_matches_encoder_and_is_aligned() {
    for regions in 0..4usize {
        for name in ["", "x", "blink", "a-longer-package-name"] {
            for fixed in [None, Some(0x2000_0000u32)] {
                let mut header = TbfHeader::new();
                let len = header.create(1024, regions, String::from(name), fixed, None, None);
                assert_eq!(len % 4, 0);
                let bytes = header.generate();
                assert_eq!(bytes.len(), len);
                assert_eq!(usize::from(half(&bytes, 2)), len);
            }
        }
    }
}

#[test]
fn encoded_header_folds_to_zero() {
    let mut header = TbfHeader::new();
    header.create(2048, 3, String::from("blink"), Some(0x2000_0000), None, None);
    assert_eq!(fold(&header.generate()), 0);
    header.set_total_size(0x1_2345);
    header.set_protected_size(0x40);
    header.set_init_fn_offset(0x29);
    header.set_writeable_flash_region_values(0x1000, 0x200);
    assert_eq!(fold(&header.generate()), 0);
}

#[test]
fn generate_twice_gives_identical_bytes() {
    let mut header = TbfHeader::new();
    header.create(2048, 1, String::from("blink"), None, Some(0x4_0000), None);
    header.set_total_size(8192);
    let first = header.generate();
    let second = header.generate();
    assert_eq!(first, second);
}

#[test]
fn setters_change_their_field_and_the_checksum() {
    let mut header = TbfHeader::new();
    header.create(2048, 0, String::new(), None, None, Some(0x1234));
    let before = header.generate();

    header.set_total_size(0x0001_0000);
    header.set_init_fn_offset(0x29);
    header.set_protected_size(0x80);
    let after = header.generate();

    assert_eq!(after.len(), before.len());
    assert_eq!(word(&after, 4), 0x0001_0000);
    assert_eq!(word(&after, 20), 0x29);
    assert_eq!(word(&after, 24), 0x80);
    assert_eq!(word(&after, 28), 2048);
    assert_eq!(word(&after, 32), 0x1234);
    assert_ne!(word(&after, 12), word(&before, 12));
    assert_eq!(word(&after, 12), word(&before, 12) ^ 0x0001_0000 ^ 0x29 ^ 0x80);
    assert_eq!(header.base().total_size, 0x0001_0000);
    assert_eq!(header.main().init_fn_offset, 0x29);
    assert_eq!(header.main().protected_size, 0x80);
}

#[test]
fn setters_before_create_are_kept() {
    let mut header = TbfHeader::new();
    header.set_total_size(100);
    header.set_protected_size(200);
    header.set_init_fn_offset(300);
    header.create(2048, 0, String::new(), None, None, Some(5));
    assert_eq!(header.base().total_size, 100);
    assert_eq!(header.main().protected_size, 200);
    assert_eq!(header.main().init_fn_offset, 300);
}

#[test]
fn derived_app_id_is_the_front_of_the_name_digest() {
    let mut header = TbfHeader::new();
    header.create(2048, 0, String::from("blink"), None, None, None);
    let digest = Sha3_256::digest(b"blink");
    let expected = u32::from_le_bytes([digest[0], digest[1], digest[2], digest[3]]);
    assert_eq!(header.main().app_id, expected);
    assert_eq!(word(&header.generate(), 32), expected);
}

#[test]
fn derived_app_id_of_empty_name_is_the_empty_digest() {
    let mut header = TbfHeader::new();
    header.create(2048, 0, String::new(), None, None, None);
    assert_eq!(header.main().app_id, 0xf8c6_ffa7);
}

#[test]
fn derived_app_id_is_the_same_on_every_run() {
    let mut first = TbfHeader::new();
    first.create(2048, 2, String::from("blink"), None, None, None);
    let mut second = TbfHeader::new();
    second.create(2048, 2, String::from("blink"), None, None, None);
    assert_eq!(first.main().app_id, second.main().app_id);
    assert_eq!(first.generate(), second.generate());

    let mut other = TbfHeader::new();
    other.create(4096, 0, String::from("blink"), Some(0x2000_0000), None, None);
    assert_eq!(first.main().app_id, other.main().app_id);
}

#[test]
fn explicit_app_id_wins_over_the_name() {
    let mut header = TbfHeader::new();
    header.create(2048, 0, String::from("blink"), None, None, Some(0xdead_beef));
    assert_eq!(header.main().app_id, 0xdead_beef);
}

#[test]
fn long_name_keeps_the_low_bits_of_the_size_field() {
    let name = "n".repeat(70_000);
    let mut header = TbfHeader::new();
    let len = header.create(0, 0, name, None, None, Some(1));
    assert_eq!(len, 36 + 4 + 70_000);
    let bytes = header.generate();
    assert_eq!(bytes.len(), len);
    assert_eq!(usize::from(half(&bytes, 2)), len % 0x1_0000);
    assert_eq!(usize::from(half(&bytes, 38)), 70_000 % 0x1_0000);
    assert_eq!(fold(&bytes), 0);
}

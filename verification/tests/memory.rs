//! The fake process, the typed reads, and the byte-string helpers.

use radarcore::error::DecodeError;
use radarcore::fake_process::FakeProcess;
use radarcore::item::is_denied_name;
use radarcore::market::is_valuable;
use radarcore::memory::{bytes_until_nul, offset_addr, read_flag, read_sequence, read_string,
    read_u32, read_u64, write_u64, ForeignMemory};
use radarcore::player::{convert_direction, scav_name};
use radarcore::text::{bytes_equal, contains_ignore_ascii_case, copy_bytes, eq_ignore_ascii_case};
use radarcore::unitystring::{read_unity_string, strip_nul_bytes};

#[test]
fn fake_process_reads_and_writes() {
    let mut fp = FakeProcess::new(0x1000, 256);
    assert!(fp.poke_u64(0x1010, 0xDEAD_BEEF_CAFE_F00D));
    assert!(!fp.poke_u64(0x10F9, 1), "a write crossing the end must fail");
    assert_eq!(read_u64(&fp, 0x1010), Ok(0xDEAD_BEEF_CAFE_F00D));
    assert_eq!(read_u32(&fp, 0x1010), Ok(0xCAFE_F00D));
    assert_eq!(read_u64(&fp, 0x0FFF), Err(DecodeError::ReadFailure));
    assert_eq!(read_u64(&fp, 0x10F9), Err(DecodeError::ReadFailure));

    write_u64(&mut fp, 0x1020, 0x0102_0304_0506_0708).unwrap();
    let bytes = fp.read_bytes(0x1020, 8).unwrap();
    assert_eq!(bytes, vec![0x08, 0x07, 0x06, 0x05, 0x04, 0x03, 0x02, 0x01]);

    assert!(fp.poke_u8(0x1030, 0));
    assert_eq!(read_flag(&fp, 0x1030), Ok(false));
    assert!(fp.poke_u8(0x1030, 7));
    assert_eq!(read_flag(&fp, 0x1030), Ok(true));
}

#[test]
fn pointer_chains_follow_offsets() {
    let mut fp = FakeProcess::new(0x2000, 0x200);
    // base + 0x30 holds a pointer; that pointer + 0x18 holds the target.
    fp.poke_u64(0x2030, 0x2100);
    fp.poke_u64(0x2118, 0x4242);
    let hops = vec![0x30u64, 0x18u64];
    assert_eq!(read_sequence(&fp, 0x2000, &hops), Ok(0x4242));
    let none: Vec<u64> = Vec::new();
    assert_eq!(read_sequence(&fp, 0x77, &none), Ok(0x77));
    assert_eq!(offset_addr(u64::MAX, 1), Err(DecodeError::ReadFailure));
    assert_eq!(offset_addr(40, 2), Ok(42));
}

#[test]
fn strings_cut_at_the_first_nul() {
    let raw = vec![b'R', b'a', b'd', 0, b'X', b'Y'];
    assert_eq!(bytes_until_nul(&raw), b"Rad".to_vec());
    let mut fp = FakeProcess::new(0x100, 64);
    fp.store(0x110, &raw);
    assert_eq!(read_string(&fp, 0x110, 6), Ok(b"Rad".to_vec()));
    assert_eq!(read_string(&fp, 0x110, 2), Ok(b"Ra".to_vec()));
}

#[test]
fn unity_strings_drop_utf16_padding() {
    let mut fp = FakeProcess::new(0x3000, 0x100);
    // Header: character count at +0x10, data pointer at +0x28.
    fp.poke_u32(0x3010, 4);
    fp.poke_u64(0x3028, 0x3080);
    for (i, b) in b"Wolf".iter().enumerate() {
        fp.poke_u8(0x3080 + (i as u64) * 2, *b);
        fp.poke_u8(0x3080 + (i as u64) * 2 + 1, 0);
    }
    assert_eq!(read_unity_string(&fp, 0x3000), Ok(b"Wolf".to_vec()));
    // A negative character count implies an unreasonable buffer.
    fp.poke_u32(0x3010, 0xFFFF_FFFF);
    assert_eq!(read_unity_string(&fp, 0x3000), Err(DecodeError::SizeSanityViolation));
    let mixed = vec![0, b'a', 0, 0, b'b'];
    assert_eq!(strip_nul_bytes(&mixed), b"ab".to_vec());
}

#[test]
fn byte_string_helpers() {
    assert!(bytes_equal(&b"same".to_vec(), &b"same".to_vec()));
    assert!(!bytes_equal(&b"same".to_vec(), &b"Same".to_vec()));
    assert!(eq_ignore_ascii_case(&b"FPS Camera".to_vec(), &b"fps camera".to_vec()));
    assert!(!eq_ignore_ascii_case(&b"FPS Camera".to_vec(), &b"fps camera!".to_vec()));
    assert!(contains_ignore_ascii_case(
        &b"EFT.CameraControl.ThermalVision".to_vec(),
        &b"thermalvision".to_vec()
    ));
    assert!(!contains_ignore_ascii_case(&b"NightVision".to_vec(), &b"thermalvision".to_vec()));
    assert_eq!(copy_bytes(&b"abc".to_vec()), b"abc".to_vec());
}

#[test]
fn deny_list_matches_case_insensitively() {
    assert!(is_denied_name(&b"body".to_vec()));
    assert!(is_denied_name(&b"Body".to_vec()));
    assert!(is_denied_name(&b"AMMO_CRATE_CAP".to_vec()));
    assert!(is_denied_name(&b"scontainer_wood_cap".to_vec()));
    assert!(!is_denied_name(&b"Salewa".to_vec()));
    assert!(!is_denied_name(&b"bod".to_vec()));
}

#[test]
fn scav_names_follow_registration() {
    assert_eq!(scav_name(0), b"Bot Scav".to_vec());
    assert_eq!(scav_name(123456), b"Player Scav".to_vec());
}

#[test]
fn direction_wraps_negative_angles() {
    let neg = -90.0f32;
    let expected_neg = (360.0f32 + neg) * std::f32::consts::PI / 180.0;
    assert_eq!(convert_direction(neg.to_bits()), expected_neg.to_bits());
    let pos = 45.0f32;
    let expected_pos = pos * std::f32::consts::PI / 180.0;
    assert_eq!(convert_direction(pos.to_bits()), expected_pos.to_bits());
}

#[test]
fn market_filter_keeps_valuable_listings() {
    assert!(is_valuable(50001, 0));
    assert!(is_valuable(0, 50001));
    assert!(!is_valuable(50000, 50000));
    assert!(!is_valuable(-1, 0));
}

#[test]
fn error_descriptions() {
    assert_eq!(DecodeError::ReadFailure.describe(), "foreign read or write failed");
    assert_eq!(DecodeError::DecodeRejected.describe(), "decoded data is disallowed");
    assert_eq!(
        DecodeError::SizeSanityViolation.describe(),
        "implied buffer size is unreasonable"
    );
    assert_eq!(DecodeError::LookupFailure.describe(), "object lookup found no match");
}

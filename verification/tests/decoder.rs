use goodix_cfg_bin::decode::resolve_package_range;
use goodix_cfg_bin::errors::Error;
use goodix_cfg_bin::layout::{compute_checksum, read_u16_le, read_u32_le};
use goodix_cfg_bin::types::GoodixCfgBin;

const HEAD_LEN: usize = 10;
const TABLE_START: usize = 16;
const CONST_INFO_LEN: usize = 56;
const PKG_HEAD_LEN: usize = 121;

/// Writes the actual buffer length into the length field and the wrapping
/// byte sum over bytes[5..] into the checksum field.
fn seal(buf: &mut Vec<u8>) {
    let len = buf.len() as u32;
    buf[0..4].copy_from_slice(&len.to_le_bytes());
    let mut sum: u8 = 0;
    for i in 5..buf.len() {
        sum = sum.wrapping_add(buf[i]);
    }
    buf[4] = sum;
}

/// Builds a sealed buffer holding one package per `(cfg_type, payload)`
/// pair, packages laid out back to back after the offset table.
fn build(pkgs: &[(u8, Vec<u8>)]) -> Vec<u8> {
    let n = pkgs.len();
    let mut buf = vec![0u8; TABLE_START + 2 * n];
    buf[9] = n as u8;
    for (i, (cfg_type, payload)) in pkgs.iter().enumerate() {
        let off = buf.len() as u16;
        buf[TABLE_START + 2 * i..TABLE_START + 2 * i + 2].copy_from_slice(&off.to_le_bytes());
        let mut pkg = vec![0u8; PKG_HEAD_LEN];
        pkg[19] = *cfg_type;
        buf.extend_from_slice(&pkg);
        buf.extend_from_slice(payload);
    }
    seal(&mut buf);
    buf
}

#[test]
fn empty_input_is_invalid_size() {
    assert!(matches!(GoodixCfgBin::parse(&[]), Err(Error::InvalidSize)));
}

#[test]
fn short_input_is_invalid_size() {
    let buf = vec![0u8; HEAD_LEN - 1];
    assert!(matches!(GoodixCfgBin::parse(&buf), Err(Error::InvalidSize)));
}

#[test]
fn length_mismatch_fails() {
    let mut buf = vec![0u8; 16];
    seal(&mut buf);
    buf[0] = 15; // declare one byte less than the actual length
    assert!(matches!(GoodixCfgBin::parse(&buf), Err(Error::LengthCheckFail)));
}

#[test]
fn checksum_mismatch_fails() {
    let mut buf = vec![0u8; 16];
    seal(&mut buf);
    buf[4] = buf[4].wrapping_add(1);
    assert!(matches!(GoodixCfgBin::parse(&buf), Err(Error::ChecksumMismatch)));
}

#[test]
fn checksum_wraps_at_byte_width() {
    let mut buf = vec![0u8; 8];
    buf[5] = 200;
    buf[6] = 100;
    // 200 + 100 = 300, which wraps to 44 in a byte-wide sum.
    assert_eq!(compute_checksum(&buf), 44);
}

#[test]
fn zero_packages_decode_to_empty() {
    let buf = build(&[]);
    let bin = GoodixCfgBin::parse(&buf).unwrap();
    assert_eq!(bin.head.bin_len, 16);
    assert_eq!(bin.head.pkg_num, 0);
    assert!(bin.cfg_pkgs.is_empty());
    assert!(bin.ic_configs.is_empty());
}

#[test]
fn little_endian_readers() {
    let buf = [0x34u8, 0x12, 0x78, 0x56, 0xAB];
    assert_eq!(read_u16_le(&buf, 0), 0x1234);
    assert_eq!(read_u16_le(&buf, 2), 0x5678);
    assert_eq!(read_u32_le(&buf, 0), 0x56781234);
    assert_eq!(read_u32_le(&buf, 1), 0xAB567812);
}

#[test]
fn offsets_resolve_to_consecutive_ranges() {
    let mut buf = vec![0u8; 100];
    buf[TABLE_START..TABLE_START + 2].copy_from_slice(&20u16.to_le_bytes());
    buf[TABLE_START + 2..TABLE_START + 4].copy_from_slice(&60u16.to_le_bytes());
    assert_eq!(resolve_package_range(&buf, 0, 2), Ok((20, 40)));
    assert_eq!(resolve_package_range(&buf, 1, 2), Ok((60, 40)));
}

#[test]
fn non_increasing_offset_is_rejected() {
    let mut buf = vec![0u8; 100];
    buf[TABLE_START..TABLE_START + 2].copy_from_slice(&20u16.to_le_bytes());
    buf[TABLE_START + 2..TABLE_START + 4].copy_from_slice(&15u16.to_le_bytes());
    assert_eq!(resolve_package_range(&buf, 0, 2), Err(Error::InvalidOffset));
}

#[test]
fn round_trip_one_package() {
    let buf = build(&[(7, vec![0xAA; 32])]);
    let bin = GoodixCfgBin::parse(&buf).unwrap();
    assert_eq!(bin.head.bin_len as usize, buf.len());
    assert_eq!(bin.head.pkg_num, 1);
    assert_eq!(bin.cfg_pkgs.len(), 1);
    assert_eq!(bin.cfg_pkgs[0].const_info.cfg_type, 7);
    assert_eq!(bin.cfg_pkgs[0].pkg_len as usize, PKG_HEAD_LEN + 32);
    assert_eq!(bin.cfg_pkgs[0].cfg, vec![0xAA; 32]);
    let ic = bin.ic_configs.get(&7).unwrap();
    assert_eq!(ic.len, 32);
    assert_eq!(ic.data, vec![0xAA; 32]);
}

#[test]
fn last_write_wins_in_registry() {
    let buf = build(&[(3, vec![1; 8]), (3, vec![2; 8])]);
    let bin = GoodixCfgBin::parse(&buf).unwrap();
    // Both packages remain in the sequence...
    assert_eq!(bin.cfg_pkgs.len(), 2);
    assert_eq!(bin.cfg_pkgs[0].const_info.cfg_type, 3);
    assert_eq!(bin.cfg_pkgs[1].const_info.cfg_type, 3);
    assert_eq!(bin.cfg_pkgs[0].cfg, vec![1; 8]);
    assert_eq!(bin.cfg_pkgs[1].cfg, vec![2; 8]);
    // ...but the registry holds the later payload.
    assert_eq!(bin.ic_configs.len(), 1);
    assert_eq!(bin.ic_configs.get(&3).unwrap().data, vec![2; 8]);
}

#[test]
fn oversized_payload_is_invalid_size() {
    let buf = build(&[(1, vec![0x55; 4097])]);
    assert!(matches!(GoodixCfgBin::parse(&buf), Err(Error::InvalidSize)));
}

#[test]
fn payload_at_capacity_decodes() {
    let buf = build(&[(1, vec![0x55; 4096])]);
    let bin = GoodixCfgBin::parse(&buf).unwrap();
    assert_eq!(bin.ic_configs.get(&1).unwrap().len, 4096);
    assert_eq!(bin.ic_configs.get(&1).unwrap().data.len(), 4096);
}

#[test]
fn non_increasing_offset_fails_whole_parse() {
    let mut buf = build(&[(1, vec![0; 4]), (2, vec![0; 4])]);
    // Point the second package at (or before) the first one.
    let first = buf[TABLE_START..TABLE_START + 2].to_vec();
    buf[TABLE_START + 2..TABLE_START + 4].copy_from_slice(&first);
    seal(&mut buf);
    assert!(matches!(GoodixCfgBin::parse(&buf), Err(Error::InvalidOffset)));
}

#[test]
fn truncated_offset_table_is_invalid_size() {
    let mut buf = vec![0u8; 18];
    buf[9] = 2; // the table would need 4 bytes but only 2 are present
    seal(&mut buf);
    assert!(matches!(GoodixCfgBin::parse(&buf), Err(Error::InvalidSize)));
}

#[test]
fn package_shorter_than_metadata_is_invalid_size() {
    let mut buf = vec![0u8; 18 + 100];
    buf[9] = 1;
    buf[TABLE_START..TABLE_START + 2].copy_from_slice(&18u16.to_le_bytes());
    seal(&mut buf);
    assert!(matches!(GoodixCfgBin::parse(&buf), Err(Error::InvalidSize)));
}

#[test]
fn offset_past_buffer_end_is_invalid_size() {
    let mut buf = vec![0u8; 300];
    buf[9] = 1;
    buf[TABLE_START..TABLE_START + 2].copy_from_slice(&2000u16.to_le_bytes());
    seal(&mut buf);
    assert!(matches!(GoodixCfgBin::parse(&buf), Err(Error::InvalidSize)));
}

#[test]
fn offset_high_byte_is_not_lost() {
    // Place the single package at offset 300 = 0x012C, which only decodes
    // correctly if the high byte of the table entry is kept.
    let mut buf = vec![0u8; 300 + PKG_HEAD_LEN + 4];
    buf[9] = 1;
    buf[TABLE_START..TABLE_START + 2].copy_from_slice(&300u16.to_le_bytes());
    buf[300 + 19] = 9;
    for i in 0..4 {
        buf[300 + PKG_HEAD_LEN + i] = 0xEE;
    }
    seal(&mut buf);
    let bin = GoodixCfgBin::parse(&buf).unwrap();
    assert_eq!(bin.cfg_pkgs[0].pkg_len as usize, PKG_HEAD_LEN + 4);
    assert_eq!(bin.ic_configs.get(&9).unwrap().data, vec![0xEE; 4]);
}

#[test]
fn const_and_reg_info_fields_decode_at_their_offsets() {
    let mut buf = build(&[(5, vec![0xCC; 2])]);
    let p = 18; // the single package starts right after the table
    // Constant info: declared package length, chip identifier, ids, masks,
    // and the three 16-bit offsets.
    buf[p..p + 4].copy_from_slice(&0xDDCCBBAAu32.to_le_bytes());
    buf[p + 4..p + 4 + 9].copy_from_slice(b"GT9999-XY");
    buf[p + 20] = 0x42; // sensor_id
    buf[p + 21..p + 29].copy_from_slice(b"PIDPIDPI");
    buf[p + 29..p + 37].copy_from_slice(b"VIDVIDVI");
    buf[p + 37] = 0x11; // first fw_mask byte
    buf[p + 46] = 0x22; // first fw_patch byte
    buf[p + 50..p + 52].copy_from_slice(&0x1234u16.to_le_bytes());
    buf[p + 52..p + 54].copy_from_slice(&0x5678u16.to_le_bytes());
    buf[p + 54..p + 56].copy_from_slice(&0x9ABCu16.to_le_bytes());
    // Register info: first and last register addresses, one reserved byte.
    let r = p + CONST_INFO_LEN;
    buf[r..r + 2].copy_from_slice(&0x8040u16.to_le_bytes());
    buf[r + 52..r + 54].copy_from_slice(&0x80FEu16.to_le_bytes());
    buf[r + 56] = 0x77;
    seal(&mut buf);

    let bin = GoodixCfgBin::parse(&buf).unwrap();
    let ci = &bin.cfg_pkgs[0].const_info;
    assert_eq!(ci.pkg_len, 0xDDCCBBAA);
    assert_eq!(&ci.ic_type[..9], b"GT9999-XY");
    assert_eq!(ci.ic_type.len(), 15);
    assert_eq!(ci.cfg_type, 5);
    assert_eq!(ci.sensor_id, 0x42);
    assert_eq!(ci.hw_pid, b"PIDPIDPI".to_vec());
    assert_eq!(ci.hw_vid, b"VIDVIDVI".to_vec());
    assert_eq!(ci.fw_mask[0], 0x11);
    assert_eq!(ci.fw_mask.len(), 9);
    assert_eq!(ci.fw_patch[0], 0x22);
    assert_eq!(ci.fw_patch.len(), 4);
    assert_eq!(ci.x_res_offset, 0x1234);
    assert_eq!(ci.y_res_offset, 0x5678);
    assert_eq!(ci.trigger_offset, 0x9ABC);
    let ri = &bin.cfg_pkgs[0].reg_info;
    assert_eq!(ri.cfg_send_flag.addr, 0x8040);
    assert_eq!(ri.proximity.addr, 0x80FE);
    assert_eq!(ri.reserved[0], 0x77);
    assert_eq!(ri.reserved.len(), 9);
    assert_eq!(bin.cfg_pkgs[0].cfg, vec![0xCC; 2]);
}

#[test]
fn version_bytes_are_kept() {
    let mut buf = build(&[]);
    buf[5..9].copy_from_slice(&[0xDE, 0xAD, 0xBE, 0xEF]);
    seal(&mut buf);
    let bin = GoodixCfgBin::parse(&buf).unwrap();
    assert_eq!(bin.head.bin_version, vec![0xDE, 0xAD, 0xBE, 0xEF]);
    assert_eq!(bin.head.checksum, buf[4]);
}

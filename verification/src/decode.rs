//! The executable decoder, proved to return exactly what `spec_decode`
//! describes.
//!
//! Each stage mirrors one component of the format: header decoding, length
//! and checksum validation, offset-table resolution, and per-package field
//! extraction. Every byte range is checked against the buffer's bounds
//! before it is read.

use std::collections::HashMap;
use vstd::prelude::*;

use crate::errors::Error;
use crate::layout::{
    checksum_of, compute_checksum, copy_range, read_u16_le, read_u32_le, CFG_MAX_SIZE,
    CONST_INFO_LEN, FW_MASK_LEN, FW_PATCH_LEN, HEAD_LEN, IC_TYPE_LEN, OFFSET_ENTRY_LEN, PID_LEN,
    PKG_HEAD_LEN, REG_INFO_LEN, REG_RESERVED_LEN, TABLE_START, VERSION_LEN, VERSION_START,
    VID_LEN,
};
use crate::model::{
    const_info_of, head_of, ic_config_of, pkg_at, pkg_from_range, pkgs_from, range_at,
    reg_info_of, register_of, registry_of, spec_decode, CfgBinV, PackageV,
};
use crate::types::{
    config_views, pkg_views, BinHead, ConstInfo, GoodixCfgBin, IcConfig, Package, RegInfo,
    Register,
};

verus! {

/// Reads the fixed file header, failing with `InvalidSize` on a buffer
/// shorter than the header.
pub fn decode_head(input: &[u8]) -> (r: Result<BinHead, Error>)
    ensures
        match r {
            Ok(h) => input@.len() >= HEAD_LEN && h@ == head_of(input@),
            Err(e) => input@.len() < HEAD_LEN && e == Error::InvalidSize,
        },
{
    if input.len() < HEAD_LEN {
        return Err(Error::InvalidSize);
    }
    Ok(
        BinHead {
            bin_len: read_u32_le(input, 0),
            checksum: input[4],
            bin_version: copy_range(input, VERSION_START, VERSION_LEN),
            pkg_num: input[9],
        },
    )
}

/// Confirms that the declared length matches the buffer and that the
/// declared checksum matches the wrapping byte sum over the buffer's tail.
/// The length check runs first.
pub fn validate(input: &[u8], head: &BinHead) -> (r: Result<(), Error>)
    requires
        input@.len() >= HEAD_LEN,
        head@ == head_of(input@),
    ensures
        match r {
            Ok(_) => head@.bin_len == input@.len() && head@.checksum == checksum_of(input@),
            Err(e) => {
                &&& (e == Error::LengthCheckFail <==> head@.bin_len != input@.len())
                &&& (e == Error::ChecksumMismatch <==> head@.bin_len == input@.len()
                    && head@.checksum != checksum_of(input@))
                &&& (e == Error::LengthCheckFail || e == Error::ChecksumMismatch)
            },
        },
{
    if head.bin_len as usize != input.len() {
        return Err(Error::LengthCheckFail);
    }
    if compute_checksum(input) != head.checksum {
        return Err(Error::ChecksumMismatch);
    }
    Ok(())
}

/// Resolves the byte range of package `i` out of `pkg_num` from the offset
/// table, checking every table read and the resulting range against the
/// buffer's bounds.
pub fn resolve_package_range(input: &[u8], i: usize, pkg_num: usize) -> (r: Result<
    (usize, usize),
    Error,
>)
    requires
        i < pkg_num,
        pkg_num <= u8::MAX,
    ensures
        match r {
            Ok(range) => range_at(input@, pkg_num as int, i as int) == Ok::<(int, int), Error>(
                (range.0 as int, range.1 as int),
            ) && range.0 + range.1 <= input@.len(),
            Err(e) => range_at(input@, pkg_num as int, i as int) == Err::<(int, int), Error>(e),
        },
{
    let len = input.len();
    let entry = TABLE_START + OFFSET_ENTRY_LEN * i;
    if entry + OFFSET_ENTRY_LEN > len {
        return Err(Error::InvalidSize);
    }
    let off = read_u16_le(input, entry) as usize;
    if i == pkg_num - 1 {
        if off > len {
            return Err(Error::InvalidSize);
        }
        Ok((off, len - off))
    } else {
        if entry + 2 * OFFSET_ENTRY_LEN > len {
            return Err(Error::InvalidSize);
        }
        let next = read_u16_le(input, entry + OFFSET_ENTRY_LEN) as usize;
        if next <= off {
            return Err(Error::InvalidOffset);
        }
        if next > len {
            return Err(Error::InvalidSize);
        }
        Ok((off, next - off))
    }
}

/// Reads the register record at byte offset `p`.
pub fn decode_register(input: &[u8], p: usize) -> (r: Register)
    requires
        p + 4 <= input@.len(),
    ensures
        r@ == register_of(input@, p as int),
{
    let len = input.len();
    assert(p + 4 <= len);
    Register { addr: read_u16_le(input, p), reserved1: input[p + 2], reserved2: input[p + 3] }
}

/// Reads the constant-info record at byte offset `p`, field by field at its
/// documented offset.
pub fn decode_const_info(input: &[u8], p: usize) -> (r: ConstInfo)
    requires
        p + CONST_INFO_LEN <= input@.len(),
    ensures
        r@ == const_info_of(input@, p as int),
{
    let len = input.len();
    assert(p + CONST_INFO_LEN <= len);
    ConstInfo {
        pkg_len: read_u32_le(input, p),
        ic_type: copy_range(input, p + 4, IC_TYPE_LEN),
        cfg_type: input[p + 19],
        sensor_id: input[p + 20],
        hw_pid: copy_range(input, p + 21, PID_LEN),
        hw_vid: copy_range(input, p + 29, VID_LEN),
        fw_mask: copy_range(input, p + 37, FW_MASK_LEN),
        fw_patch: copy_range(input, p + 46, FW_PATCH_LEN),
        x_res_offset: read_u16_le(input, p + 50),
        y_res_offset: read_u16_le(input, p + 52),
        trigger_offset: read_u16_le(input, p + 54),
    }
}

/// Reads the register-info record at byte offset `p`: fourteen registers in
/// declared order, then the reserved tail.
pub fn decode_reg_info(input: &[u8], p: usize) -> (r: RegInfo)
    requires
        p + REG_INFO_LEN <= input@.len(),
    ensures
        r@ == reg_info_of(input@, p as int),
{
    let len = input.len();
    assert(p + REG_INFO_LEN <= len);
    RegInfo {
        cfg_send_flag: decode_register(input, p),
        version_base: decode_register(input, p + 4),
        pid: decode_register(input, p + 8),
        vid: decode_register(input, p + 12),
        sensor_id: decode_register(input, p + 16),
        fw_mask: decode_register(input, p + 20),
        fw_status: decode_register(input, p + 24),
        cfg_addr: decode_register(input, p + 28),
        esd: decode_register(input, p + 32),
        command: decode_register(input, p + 36),
        coor: decode_register(input, p + 40),
        gesture: decode_register(input, p + 44),
        fw_request: decode_register(input, p + 48),
        proximity: decode_register(input, p + 52),
        reserved: copy_range(input, p + 56, REG_RESERVED_LEN),
    }
}

/// Decodes the package held in the byte range starting at `off` and
/// spanning `plen` bytes, together with the registry entry holding a copy
/// of its payload.
pub fn decode_package(input: &[u8], off: usize, plen: usize) -> (r: Result<
    (Package, IcConfig),
    Error,
>)
    requires
        off + plen <= input@.len(),
    ensures
        match r {
            Ok(pair) => pkg_from_range(input@, off as int, plen as int) == Ok::<PackageV, Error>(
                pair.0@,
            ) && pair.1@ == ic_config_of(pair.0@),
            Err(e) => pkg_from_range(input@, off as int, plen as int) == Err::<PackageV, Error>(e),
        },
{
    let len = input.len();
    assert(off + plen <= len);
    if plen < PKG_HEAD_LEN {
        return Err(Error::InvalidSize);
    }
    let cfg_len = plen - PKG_HEAD_LEN;
    if cfg_len > CFG_MAX_SIZE {
        return Err(Error::InvalidSize);
    }
    let pkg = Package {
        const_info: decode_const_info(input, off),
        reg_info: decode_reg_info(input, off + CONST_INFO_LEN),
        pkg_len: plen as u32,
        cfg: copy_range(input, off + PKG_HEAD_LEN, cfg_len),
    };
    let ic = IcConfig { len: cfg_len as i32, data: copy_range(input, off + PKG_HEAD_LEN, cfg_len) };
    Ok((pkg, ic))
}

/// Viewing a package sequence commutes with appending.
proof fn lemma_pkg_views_push(pkgs: Seq<Package>, p: Package)
    ensures
        pkg_views(pkgs.push(p)) == pkg_views(pkgs).push(p@),
{
    assert(pkg_views(pkgs.push(p)) =~= pkg_views(pkgs).push(p@));
}

/// Viewing a registry commutes with inserting an entry.
proof fn lemma_config_views_insert(m: Map<u8, IcConfig>, k: u8, v: IcConfig)
    ensures
        config_views(m.insert(k, v)) == config_views(m).insert(k, v@),
{
    assert(config_views(m.insert(k, v)) =~= config_views(m).insert(k, v@));
}

/// Appending a package to the sequence inserts its payload into the
/// registry under its `cfg_type`.
proof fn lemma_registry_push(pkgs: Seq<PackageV>, p: PackageV)
    ensures
        registry_of(pkgs.push(p)) == registry_of(pkgs).insert(
            p.const_info.cfg_type,
            ic_config_of(p),
        ),
{
    assert(pkgs.push(p).drop_last() =~= pkgs);
    assert(pkgs.push(p).last() == p);
}

/// If every package before `i` decodes and package `i` fails, the whole
/// package pass fails with package `i`'s error.
proof fn lemma_pkgs_from_first_err(b: Seq<u8>, n: int, k: int, i: int)
    requires
        0 <= k <= i < n,
        forall|j: int| k <= j < i ==> pkg_at(b, n, j) is Ok,
        pkg_at(b, n, i) is Err,
    ensures
        pkgs_from(b, n, k) == Err::<Seq<PackageV>, Error>(pkg_at(b, n, i)->Err_0),
    decreases i - k,
{
    if k < i {
        lemma_pkgs_from_first_err(b, n, k + 1, i);
    }
}

/// If every package from `k` on decodes, the package pass from `k` yields
/// exactly those packages, in index order.
proof fn lemma_pkgs_from_all_ok(b: Seq<u8>, n: int, k: int)
    requires
        0 <= k <= n,
        forall|j: int| k <= j < n ==> pkg_at(b, n, j) is Ok,
    ensures
        pkgs_from(b, n, k) is Ok,
        pkgs_from(b, n, k)->Ok_0.len() == n - k,
        forall|j: int| k <= j < n ==> pkgs_from(b, n, k)->Ok_0[j - k] == pkg_at(b, n, j)->Ok_0,
    decreases n - k,
{
    if k < n {
        lemma_pkgs_from_all_ok(b, n, k + 1);
    }
}

impl GoodixCfgBin {
    /// Decodes a configuration binary.
    ///
    /// Returns the decoded structure, or the first failure in validation
    /// order: header presence, declared length, checksum, then the packages
    /// in ascending index order. The result is exactly what `spec_decode`
    /// gives for the input.
    #[verifier::rlimit(60)]
    pub fn parse(input: &[u8]) -> (r: Result<GoodixCfgBin, Error>)
        ensures
            match r {
                Ok(c) => spec_decode(input@) == Ok::<CfgBinV, Error>(c@),
                Err(e) => spec_decode(input@) == Err::<CfgBinV, Error>(e),
            },
    {
        broadcast use vstd::std_specs::hash::group_hash_axioms;

        let head = match decode_head(input) {
            Ok(h) => h,
            Err(e) => {
                return Err(e);
            },
        };
        match validate(input, &head) {
            Ok(_) => (),
            Err(e) => {
                return Err(e);
            },
        }
        let n = head.pkg_num as usize;
        let ghost b = input@;
        let mut cfg_pkgs: Vec<Package> = Vec::new();
        let mut ic_configs: HashMap<u8, IcConfig> = HashMap::new();
        let mut i: usize = 0;
        while i < n
            invariant
                b == input@,
                b.len() >= HEAD_LEN,
                head@ == head_of(b),
                head@.bin_len == b.len(),
                head@.checksum == checksum_of(b),
                n == head@.pkg_num,
                n <= u8::MAX,
                i <= n,
                forall|j: int| 0 <= j < i ==> pkg_at(b, n as int, j) is Ok,
                cfg_pkgs@.len() == i,
                forall|j: int|
                    0 <= j < i ==> pkg_views(cfg_pkgs@)[j] == pkg_at(b, n as int, j)->Ok_0,
                config_views(ic_configs@) == registry_of(pkg_views(cfg_pkgs@)),
            decreases n - i,
        {
            broadcast use vstd::std_specs::hash::group_hash_axioms;

            let (off, plen) = match resolve_package_range(input, i, n) {
                Ok(range) => range,
                Err(e) => {
                    proof {
                        lemma_pkgs_from_first_err(b, n as int, 0, i as int);
                    }
                    return Err(e);
                },
            };
            let (pkg, ic) = match decode_package(input, off, plen) {
                Ok(pair) => pair,
                Err(e) => {
                    proof {
                        lemma_pkgs_from_first_err(b, n as int, 0, i as int);
                    }
                    return Err(e);
                },
            };
            let ghost old_pkgs = cfg_pkgs@;
            let ghost old_maps = ic_configs@;
            ic_configs.insert(pkg.const_info.cfg_type, ic);
            cfg_pkgs.push(pkg);
            proof {
                lemma_pkg_views_push(old_pkgs, pkg);
                lemma_config_views_insert(old_maps, pkg@.const_info.cfg_type, ic);
                lemma_registry_push(pkg_views(old_pkgs), pkg@);
            }
            i = i + 1;
        }
        proof {
            lemma_pkgs_from_all_ok(b, n as int, 0);
            assert(pkgs_from(b, n as int, 0)->Ok_0 =~= pkg_views(cfg_pkgs@));
        }
        Ok(GoodixCfgBin { head, cfg_pkgs, ic_configs })
    }
}

} // verus!

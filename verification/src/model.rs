//! The mathematical model of a decoded configuration binary.
//!
//! `spec_decode` is the reference meaning of the decoder: a pure function
//! from the input byte sequence to either the decoded structure or the error
//! kind. The executable decoder is proved to return exactly this.

use vstd::prelude::*;

use crate::errors::Error;
use crate::layout::{
    le16, le32, checksum_of, CFG_MAX_SIZE, CONST_INFO_LEN, FW_MASK_LEN, FW_PATCH_LEN, HEAD_LEN,
    IC_TYPE_LEN, OFFSET_ENTRY_LEN, PID_LEN, PKG_HEAD_LEN, REG_RESERVED_LEN, TABLE_START,
    VERSION_LEN, VERSION_START, VID_LEN,
};

verus! {

/// Model of the fixed file header.
pub ghost struct BinHeadV {
    /// Declared total byte length of the file.
    pub bin_len: int,
    /// Declared checksum over the tail of the buffer.
    pub checksum: int,
    /// Raw version bytes.
    pub bin_version: Seq<u8>,
    /// Number of packages.
    pub pkg_num: int,
}

/// Model of one packed register record.
pub ghost struct RegisterV {
    pub addr: int,
    pub reserved1: u8,
    pub reserved2: u8,
}

/// Model of the packed constant-info record of a package.
pub ghost struct ConstInfoV {
    pub pkg_len: int,
    pub ic_type: Seq<u8>,
    pub cfg_type: u8,
    pub sensor_id: u8,
    pub hw_pid: Seq<u8>,
    pub hw_vid: Seq<u8>,
    pub fw_mask: Seq<u8>,
    pub fw_patch: Seq<u8>,
    pub x_res_offset: int,
    pub y_res_offset: int,
    pub trigger_offset: int,
}

/// Model of the packed register-info record of a package.
pub ghost struct RegInfoV {
    pub cfg_send_flag: RegisterV,
    pub version_base: RegisterV,
    pub pid: RegisterV,
    pub vid: RegisterV,
    pub sensor_id: RegisterV,
    pub fw_mask: RegisterV,
    pub fw_status: RegisterV,
    pub cfg_addr: RegisterV,
    pub esd: RegisterV,
    pub command: RegisterV,
    pub coor: RegisterV,
    pub gesture: RegisterV,
    pub fw_request: RegisterV,
    pub proximity: RegisterV,
    pub reserved: Seq<u8>,
}

/// Model of one decoded package.
pub ghost struct PackageV {
    pub const_info: ConstInfoV,
    pub reg_info: RegInfoV,
    /// Total byte span of the package in the source buffer.
    pub pkg_len: int,
    /// The raw config payload.
    pub cfg: Seq<u8>,
}

/// Model of one registry entry: a copied-out payload with its length.
pub ghost struct IcConfigV {
    pub len: int,
    pub data: Seq<u8>,
}

/// Model of the whole decoded binary.
pub ghost struct CfgBinV {
    pub head: BinHeadV,
    pub cfg_pkgs: Seq<PackageV>,
    pub ic_configs: Map<u8, IcConfigV>,
}

/// The header fields as stored in the first bytes of the buffer.
pub open spec fn head_of(b: Seq<u8>) -> BinHeadV
    recommends
        b.len() >= HEAD_LEN,
{
    BinHeadV {
        bin_len: le32(b, 0),
        checksum: b[4] as int,
        bin_version: b.subrange(VERSION_START as int, VERSION_START + VERSION_LEN),
        pkg_num: b[9] as int,
    }
}

/// The register record stored at byte offset `p`.
pub open spec fn register_of(b: Seq<u8>, p: int) -> RegisterV {
    RegisterV { addr: le16(b, p), reserved1: b[p + 2], reserved2: b[p + 3] }
}

/// The constant-info record stored at byte offset `p`.
pub open spec fn const_info_of(b: Seq<u8>, p: int) -> ConstInfoV {
    ConstInfoV {
        pkg_len: le32(b, p),
        ic_type: b.subrange(p + 4, p + 4 + IC_TYPE_LEN),
        cfg_type: b[p + 19],
        sensor_id: b[p + 20],
        hw_pid: b.subrange(p + 21, p + 21 + PID_LEN),
        hw_vid: b.subrange(p + 29, p + 29 + VID_LEN),
        fw_mask: b.subrange(p + 37, p + 37 + FW_MASK_LEN),
        fw_patch: b.subrange(p + 46, p + 46 + FW_PATCH_LEN),
        x_res_offset: le16(b, p + 50),
        y_res_offset: le16(b, p + 52),
        trigger_offset: le16(b, p + 54),
    }
}

/// The register-info record stored at byte offset `p`.
pub open spec fn reg_info_of(b: Seq<u8>, p: int) -> RegInfoV {
    RegInfoV {
        cfg_send_flag: register_of(b, p),
        version_base: register_of(b, p + 4),
        pid: register_of(b, p + 8),
        vid: register_of(b, p + 12),
        sensor_id: register_of(b, p + 16),
        fw_mask: register_of(b, p + 20),
        fw_status: register_of(b, p + 24),
        cfg_addr: register_of(b, p + 28),
        esd: register_of(b, p + 32),
        command: register_of(b, p + 36),
        coor: register_of(b, p + 40),
        gesture: register_of(b, p + 44),
        fw_request: register_of(b, p + 48),
        proximity: register_of(b, p + 52),
        reserved: b.subrange(p + 56, p + 56 + REG_RESERVED_LEN),
    }
}

/// The offset-table entry of package `i`: where the package begins.
pub open spec fn pkg_offset(b: Seq<u8>, i: int) -> int {
    le16(b, TABLE_START + OFFSET_ENTRY_LEN * i)
}

/// The byte range `(start, length)` of package `i` out of `n`, as the offset
/// table declares it, or the error that resolving it raises.
///
/// Reading a table entry past the end of the buffer, or a range that would
/// leave the buffer, is `InvalidSize`; consecutive offsets that are not
/// strictly increasing are `InvalidOffset`.
pub open spec fn range_at(b: Seq<u8>, n: int, i: int) -> Result<(int, int), Error>
    recommends
        0 <= i < n,
{
    let len = b.len() as int;
    if TABLE_START + OFFSET_ENTRY_LEN * i + OFFSET_ENTRY_LEN > len {
        Err(Error::InvalidSize)
    } else {
        let off = pkg_offset(b, i);
        if i == n - 1 {
            if off > len {
                Err(Error::InvalidSize)
            } else {
                Ok((off, len - off))
            }
        } else {
            if TABLE_START + OFFSET_ENTRY_LEN * (i + 1) + OFFSET_ENTRY_LEN > len {
                Err(Error::InvalidSize)
            } else {
                let next = pkg_offset(b, i + 1);
                if next <= off {
                    Err(Error::InvalidOffset)
                } else if next > len {
                    Err(Error::InvalidSize)
                } else {
                    Ok((off, next - off))
                }
            }
        }
    }
}

/// The package held in the byte range starting at `off` and spanning `plen`
/// bytes: the two fixed metadata records followed by the raw payload.
///
/// A range too short for the metadata, or a payload over the capacity bound,
/// is `InvalidSize`.
pub open spec fn pkg_from_range(b: Seq<u8>, off: int, plen: int) -> Result<PackageV, Error>
    recommends
        0 <= off,
        off + plen <= b.len(),
{
    if plen < PKG_HEAD_LEN {
        Err(Error::InvalidSize)
    } else if plen - PKG_HEAD_LEN > CFG_MAX_SIZE {
        Err(Error::InvalidSize)
    } else {
        Ok(
            PackageV {
                const_info: const_info_of(b, off),
                reg_info: reg_info_of(b, off + CONST_INFO_LEN),
                pkg_len: plen,
                cfg: b.subrange(off + PKG_HEAD_LEN, off + plen),
            },
        )
    }
}

/// The decode of package `i` out of `n`: its range resolved from the offset
/// table, then its contents extracted from that range.
pub open spec fn pkg_at(b: Seq<u8>, n: int, i: int) -> Result<PackageV, Error>
    recommends
        0 <= i < n,
{
    match range_at(b, n, i) {
        Err(e) => Err(e),
        Ok((off, plen)) => pkg_from_range(b, off, plen),
    }
}

/// The decode of packages `i..n`, in ascending index order, stopping at the
/// first failure.
pub open spec fn pkgs_from(b: Seq<u8>, n: int, i: int) -> Result<Seq<PackageV>, Error>
    recommends
        0 <= i <= n,
    decreases n - i,
{
    if i >= n {
        Ok(Seq::empty())
    } else {
        match pkg_at(b, n, i) {
            Err(e) => Err(e),
            Ok(p) => match pkgs_from(b, n, i + 1) {
                Err(e) => Err(e),
                Ok(rest) => Ok(seq![p] + rest),
            },
        }
    }
}

/// The registry entry a package contributes.
pub open spec fn ic_config_of(p: PackageV) -> IcConfigV {
    IcConfigV { len: p.cfg.len() as int, data: p.cfg }
}

/// The registry built from a package sequence: each package inserted under
/// its `cfg_type`, in index order, so a later package overwrites an earlier
/// one with the same key (last write wins).
pub open spec fn registry_of(pkgs: Seq<PackageV>) -> Map<u8, IcConfigV>
    decreases pkgs.len(),
{
    if pkgs.len() == 0 {
        Map::empty()
    } else {
        registry_of(pkgs.drop_last()).insert(
            pkgs.last().const_info.cfg_type,
            ic_config_of(pkgs.last()),
        )
    }
}

/// The meaning of decoding `b`: the decoded structure, or the first error in
/// validation order — header presence, declared length, checksum, then the
/// packages in ascending index order.
pub open spec fn spec_decode(b: Seq<u8>) -> Result<CfgBinV, Error> {
    if b.len() < HEAD_LEN {
        Err(Error::InvalidSize)
    } else {
        let head = head_of(b);
        if head.bin_len != b.len() {
            Err(Error::LengthCheckFail)
        } else if head.checksum != checksum_of(b) {
            Err(Error::ChecksumMismatch)
        } else {
            match pkgs_from(b, head.pkg_num, 0) {
                Err(e) => Err(e),
                Ok(pkgs) => Ok(
                    CfgBinV { head: head, cfg_pkgs: pkgs, ic_configs: registry_of(pkgs) },
                ),
            }
        }
    }
}

} // verus!

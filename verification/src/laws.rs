//! Properties of the decode model that hold for every input, stated and
//! proved once here. Through `parse`'s contract they carry over to the
//! executable decoder.

use vstd::prelude::*;

use crate::errors::Error;
use crate::layout::{checksum_of, le32, CFG_MAX_SIZE, HEAD_LEN, OFFSET_ENTRY_LEN, TABLE_START};
use crate::model::{
    head_of, ic_config_of, pkg_at, pkg_offset, pkgs_from, range_at, registry_of, spec_decode,
    CfgBinV, PackageV,
};

verus! {

/// Every input shorter than the fixed header fails with `InvalidSize`.
pub proof fn lemma_short_input_rejected(b: Seq<u8>)
    requires
        b.len() < HEAD_LEN,
    ensures
        spec_decode(b) == Err::<CfgBinV, Error>(Error::InvalidSize),
{
}

/// Every input whose declared length differs from its actual length fails
/// with `LengthCheckFail`.
pub proof fn lemma_length_mismatch_rejected(b: Seq<u8>)
    requires
        b.len() >= HEAD_LEN,
        le32(b, 0) != b.len(),
    ensures
        spec_decode(b) == Err::<CfgBinV, Error>(Error::LengthCheckFail),
{
}

/// The package pass can only fail with `InvalidSize` or `InvalidOffset`.
proof fn lemma_pkgs_err_kind(b: Seq<u8>, n: int, k: int)
    requires
        0 <= k <= n,
        pkgs_from(b, n, k) is Err,
    ensures
        pkgs_from(b, n, k)->Err_0 == Error::InvalidSize || pkgs_from(b, n, k)->Err_0
            == Error::InvalidOffset,
    decreases n - k,
{
    if k < n && pkg_at(b, n, k) is Ok {
        lemma_pkgs_err_kind(b, n, k + 1);
    }
}

/// On an input that passes the length check, decoding fails with
/// `ChecksumMismatch` exactly when the wrapping byte sum over the tail does
/// not equal the declared checksum.
pub proof fn lemma_checksum_decides(b: Seq<u8>)
    requires
        b.len() >= HEAD_LEN,
        le32(b, 0) == b.len(),
    ensures
        spec_decode(b) == Err::<CfgBinV, Error>(Error::ChecksumMismatch) <==> b[4] != checksum_of(
            b,
        ),
{
    if b[4] == checksum_of(b) && pkgs_from(b, head_of(b).pkg_num, 0) is Err {
        lemma_pkgs_err_kind(b, head_of(b).pkg_num, 0);
    }
}

/// A valid input declaring zero packages decodes to an empty package
/// sequence and an empty registry.
pub proof fn lemma_no_packages(b: Seq<u8>)
    requires
        b.len() >= HEAD_LEN,
        le32(b, 0) == b.len(),
        b[4] == checksum_of(b),
        b[9] == 0,
    ensures
        spec_decode(b) == Ok::<CfgBinV, Error>(
            CfgBinV {
                head: head_of(b),
                cfg_pkgs: Seq::empty(),
                ic_configs: Map::empty(),
            },
        ),
{
    assert(pkgs_from(b, 0, 0) == Ok::<Seq<PackageV>, Error>(Seq::empty()));
    assert(registry_of(Seq::empty()) == Map::<u8, crate::model::IcConfigV>::empty());
}

/// Offset monotonicity: for a package that is not the last, its range
/// resolves exactly when the next table offset is strictly greater and lies
/// within the buffer, and then spans the difference of the two offsets;
/// a next offset that is not strictly greater is `InvalidOffset`.
pub proof fn lemma_offset_monotonicity(b: Seq<u8>, n: int, i: int)
    requires
        0 <= i < n - 1,
        TABLE_START + OFFSET_ENTRY_LEN * i + 2 * OFFSET_ENTRY_LEN <= b.len(),
    ensures
        range_at(b, n, i) == Err::<(int, int), Error>(Error::InvalidOffset) <==> pkg_offset(b, i + 1)
            <= pkg_offset(b, i),
        pkg_offset(b, i + 1) > pkg_offset(b, i) && pkg_offset(b, i + 1) <= b.len() ==> range_at(
            b,
            n,
            i,
        ) == Ok::<(int, int), Error>((pkg_offset(b, i), pkg_offset(b, i + 1) - pkg_offset(b, i))),
{
}

/// The last package's range runs from its offset to the end of the buffer.
pub proof fn lemma_last_package_spans_tail(b: Seq<u8>, n: int)
    requires
        n >= 1,
        TABLE_START + OFFSET_ENTRY_LEN * (n - 1) + OFFSET_ENTRY_LEN <= b.len(),
        pkg_offset(b, n - 1) <= b.len(),
    ensures
        range_at(b, n, n - 1) == Ok::<(int, int), Error>(
            (pkg_offset(b, n - 1), b.len() - pkg_offset(b, n - 1)),
        ),
{
}

/// A key is in the registry exactly when some package carries it as its
/// `cfg_type`.
pub proof fn lemma_registry_domain(pkgs: Seq<PackageV>, k: u8)
    ensures
        registry_of(pkgs).contains_key(k) <==> exists|j: int|
            0 <= j < pkgs.len() && pkgs[j].const_info.cfg_type == k,
    decreases pkgs.len(),
{
    if pkgs.len() > 0 {
        lemma_registry_domain(pkgs.drop_last(), k);
        let last = pkgs.len() - 1;
        if pkgs[last].const_info.cfg_type == k {
            assert(0 <= last < pkgs.len() && pkgs[last].const_info.cfg_type == k);
        } else if registry_of(pkgs.drop_last()).contains_key(k) {
            let j = choose|j: int|
                0 <= j < pkgs.drop_last().len() && pkgs.drop_last()[j].const_info.cfg_type == k;
            assert(0 <= j < pkgs.len() && pkgs[j].const_info.cfg_type == k);
        } else if exists|j: int| 0 <= j < pkgs.len() && pkgs[j].const_info.cfg_type == k {
            let j = choose|j: int| 0 <= j < pkgs.len() && pkgs[j].const_info.cfg_type == k;
            assert(0 <= j < pkgs.drop_last().len() && pkgs.drop_last()[j].const_info.cfg_type
                == k);
        }
    }
}

/// Last write wins: the registry holds, under each key, the payload of the
/// last package in index order that carries that key — packages that share
/// a key earlier in the sequence are overwritten, while all of them remain
/// in the package sequence itself.
pub proof fn lemma_last_write_wins(pkgs: Seq<PackageV>, i: int)
    requires
        0 <= i < pkgs.len(),
        forall|j: int|
            i < j < pkgs.len() ==> pkgs[j].const_info.cfg_type != pkgs[i].const_info.cfg_type,
    ensures
        registry_of(pkgs).contains_key(pkgs[i].const_info.cfg_type),
        registry_of(pkgs)[pkgs[i].const_info.cfg_type] == ic_config_of(pkgs[i]),
    decreases pkgs.len(),
{
    if i < pkgs.len() - 1 {
        lemma_last_write_wins(pkgs.drop_last(), i);
    }
}

/// No decoded payload ever exceeds the capacity bound: an oversized payload
/// is rejected, never truncated.
proof fn lemma_pkgs_from_capped(b: Seq<u8>, n: int, k: int)
    requires
        0 <= k <= n,
        pkgs_from(b, n, k) is Ok,
    ensures
        forall|i: int|
            0 <= i < pkgs_from(b, n, k)->Ok_0.len() ==> pkgs_from(b, n, k)->Ok_0[i].cfg.len()
                <= CFG_MAX_SIZE,
    decreases n - k,
{
    if k < n {
        lemma_pkgs_from_capped(b, n, k + 1);
    }
}

/// Every payload of a successful decode is within the capacity bound.
pub proof fn lemma_payload_capped(b: Seq<u8>)
    requires
        spec_decode(b) is Ok,
    ensures
        forall|i: int|
            0 <= i < spec_decode(b)->Ok_0.cfg_pkgs.len() ==> spec_decode(
                b,
            )->Ok_0.cfg_pkgs[i].cfg.len() <= CFG_MAX_SIZE,
{
    lemma_pkgs_from_capped(b, head_of(b).pkg_num, 0);
}

} // verus!

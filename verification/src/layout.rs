//! The fixed wire layout: region sizes, little-endian field decoding, and
//! the wrapping byte sum used by the checksum.
//!
//! All integers in the binary are little-endian and all records are packed
//! with no padding.

use vstd::prelude::*;

verus! {

/// Byte offset of the version field, which is also where the checksummed
/// region of the buffer begins.
pub const VERSION_START: usize = 5;

/// Size of the version field.
pub const VERSION_LEN: usize = 4;

/// Size of the fixed file header: length (4), checksum (1), version (4),
/// package count (1).
pub const HEAD_LEN: usize = 10;

/// Reserved padding between the fixed header and the offset table.
pub const HEAD_RESERVED_LEN: usize = 6;

/// Byte offset where the package offset table begins.
pub const TABLE_START: usize = HEAD_LEN + HEAD_RESERVED_LEN;

/// Size of one offset-table entry.
pub const OFFSET_ENTRY_LEN: usize = 2;

/// Size of the chip-identifier string field.
pub const IC_TYPE_LEN: usize = 15;

/// Size of the hardware product-id field.
pub const PID_LEN: usize = 8;

/// Size of the hardware vendor-id field.
pub const VID_LEN: usize = 8;

/// Size of the firmware mask field.
pub const FW_MASK_LEN: usize = 9;

/// Size of the firmware patch field.
pub const FW_PATCH_LEN: usize = 4;

/// Size of the packed constant-info record: pkg_len (4), ic_type (15),
/// cfg_type (1), sensor_id (1), hw_pid (8), hw_vid (8), fw_mask (9),
/// fw_patch (4), three 16-bit offsets (6).
pub const CONST_INFO_LEN: usize = 56;

/// Number of named registers in the register-info record.
pub const REG_COUNT: usize = 14;

/// Size of one packed register record: address (2) plus two reserved bytes.
pub const REG_LEN: usize = 4;

/// Reserved tail of the register-info record.
pub const REG_RESERVED_LEN: usize = 9;

/// Size of the packed register-info record.
pub const REG_INFO_LEN: usize = REG_COUNT * REG_LEN + REG_RESERVED_LEN;

/// Fixed metadata prefix of every package: constant info then register info.
pub const PKG_HEAD_LEN: usize = CONST_INFO_LEN + REG_INFO_LEN;

/// Capacity bound of a raw config payload.
pub const CFG_MAX_SIZE: usize = 4096;

/// The 16-bit little-endian value stored at byte offset `i`.
pub open spec fn le16(b: Seq<u8>, i: int) -> int {
    b[i] + 0x100 * b[i + 1]
}

/// The 32-bit little-endian value stored at byte offset `i`.
pub open spec fn le32(b: Seq<u8>, i: int) -> int {
    b[i] + 0x100 * b[i + 1] + 0x1_0000 * b[i + 2] + 0x100_0000 * b[i + 3]
}

/// Sum of all bytes of `b`, as an unbounded integer.
pub open spec fn byte_sum(b: Seq<u8>) -> int
    decreases b.len(),
{
    if b.len() == 0 {
        0
    } else {
        byte_sum(b.drop_last()) + b.last()
    }
}

/// The checksum the file format declares: the 8-bit wrapping sum of every
/// byte from the version field through the end of the buffer.
pub open spec fn checksum_of(b: Seq<u8>) -> int
    recommends
        b.len() >= VERSION_START,
{
    byte_sum(b.subrange(VERSION_START as int, b.len() as int)) % 256
}

/// Reads the 16-bit little-endian value at byte offset `i`, widening each
/// byte before combining so the high byte is never lost.
pub fn read_u16_le(b: &[u8], i: usize) -> (r: u16)
    requires
        i + 2 <= b@.len(),
    ensures
        r == le16(b@, i as int),
{
    b[i] as u16 + 0x100 * (b[i + 1] as u16)
}

/// Reads the 32-bit little-endian value at byte offset `i`.
pub fn read_u32_le(b: &[u8], i: usize) -> (r: u32)
    requires
        i + 4 <= b@.len(),
    ensures
        r == le32(b@, i as int),
{
    b[i] as u32 + 0x100 * (b[i + 1] as u32) + 0x1_0000 * (b[i + 2] as u32) + 0x100_0000 * (b[i
        + 3] as u32)
}

/// Copies `len` bytes starting at `start` out of the buffer.
pub fn copy_range(b: &[u8], start: usize, len: usize) -> (r: Vec<u8>)
    requires
        start + len <= b@.len(),
    ensures
        r@ == b@.subrange(start as int, start + len),
{
    let n: usize = b.len();
    let mut out: Vec<u8> = Vec::new();
    let mut i: usize = 0;
    while i < len
        invariant
            i <= len,
            start + len <= n,
            n == b@.len(),
            out@ == b@.subrange(start as int, start + i),
        decreases len - i,
    {
        out.push(b[start + i]);
        proof {
            assert(out@ =~= b@.subrange(start as int, start + i + 1));
        }
        i = i + 1;
    }
    out
}

/// Computes the 8-bit wrapping sum of the bytes from the version field to
/// the end of the buffer.
pub fn compute_checksum(b: &[u8]) -> (r: u8)
    requires
        b@.len() >= VERSION_START,
    ensures
        r == checksum_of(b@),
{
    let mut sum: u8 = 0;
    let mut i: usize = VERSION_START;
    while i < b.len()
        invariant
            VERSION_START <= i <= b@.len(),
            sum == byte_sum(b@.subrange(VERSION_START as int, i as int)) % 256,
        decreases b@.len() - i,
    {
        proof {
            let pre = b@.subrange(VERSION_START as int, i as int);
            let post = b@.subrange(VERSION_START as int, i + 1);
            assert(post.drop_last() =~= pre);
            assert(post.last() == b@[i as int]);
            vstd::arithmetic::div_mod::lemma_add_mod_noop(byte_sum(pre), b@[i as int] as int, 256);
        }
        sum = ((sum as u16 + b[i] as u16) % 256) as u8;
        i = i + 1;
    }
    proof {
        assert(b@.subrange(VERSION_START as int, b@.len() as int) =~= b@.subrange(
            VERSION_START as int,
            i as int,
        ));
    }
    sum
}

} // verus!

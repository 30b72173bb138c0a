//! The key under which a file's settings are stored: its size and a hash of
//! its first bytes, so that a renamed or moved file keeps them.
use vstd::prelude::*;

verus! {

/// How many bytes at the start of a file go into its hash: 128 KiB.
pub const HASH_PREFIX_LEN: usize = 131072;

/// The 64-bit Fx hash of a byte vector.
pub uninterp spec fn fx_hash64_of(data: Seq<u8>) -> u64;

/// Relies on `fxhash::hash64` over a `Vec<u8>`: its hasher starts from a
/// fixed state, so the result depends on the bytes alone.
#[verifier::external_body]
fn hash_bytes(data: &Vec<u8>) -> (r: u64)
    ensures
        r == fx_hash64_of(data@),
{
    fxhash::hash64(data)
}

/// The hash of the first `read` bytes of `buf`, the part that a read of a
/// file's start filled.
pub fn load_file_hash(buf: Vec<u8>, read: usize) -> (r: u64)
    requires
        read <= buf@.len(),
    ensures
        r == fx_hash64_of(buf@.take(read as int)),
{
    let mut data = buf;
    data.truncate(read);
    hash_bytes(&data)
}

/// The key of a file of `size` bytes whose first `read` bytes were read
/// into `buf`.
pub fn load_file_size_and_hash(size: u64, buf: Vec<u8>, read: usize) -> (r: (u64, u64))
    requires
        read <= buf@.len(),
    ensures
        r == (size, fx_hash64_of(buf@.take(read as int))),
{
    (size, load_file_hash(buf, read))
}

} // verus!

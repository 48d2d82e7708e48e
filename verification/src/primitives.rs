//! Hashes and block references.

use vstd::prelude::*;

verus! {

/// A 256-bit hash, as its 32 bytes.
pub type B256 = [u8; 32];

/// The place of a block in the L1 chain.
#[derive(Debug, Clone, Copy, PartialEq, Eq)]
pub struct BlockInfo {
    /// The block hash.
    pub hash: B256,
    /// The block number.
    pub number: u64,
    /// The hash of the parent block.
    pub parent_hash: B256,
    /// The block timestamp, in seconds.
    pub timestamp: u64,
}

/// Whether two hashes are the same 32 bytes.
pub fn same_hash(left: &B256, right: &B256) -> (same: bool)
    ensures
        same == (*left == *right),
{
    let mut i: usize = 0;
    while i < 32
        invariant
            i <= 32,
            forall|j: int| 0 <= j < i ==> left[j] == right[j],
        decreases 32 - i,
    {
        if left[i] != right[i] {
            return false;
        }
        i += 1;
    }
    assert(*left =~= *right);
    true
}

/// The lowercase hexadecimal digit of a value below 16.
pub open spec fn hex_digit(value: int) -> char {
    if value < 10 {
        ('0' as int + value) as char
    } else {
        ('a' as int + (value - 10)) as char
    }
}

/// The text form of a hash: `0x`, then two lowercase hexadecimal digits per byte, high digit first.
pub open spec fn hex_text(hash: B256) -> Seq<char> {
    Seq::new(
        66,
        |i: int|
            if i == 0 {
                '0'
            } else if i == 1 {
                'x'
            } else if i % 2 == 0 {
                hex_digit(hash[(i - 2) / 2] as int / 16)
            } else {
                hex_digit(hash[(i - 2) / 2] as int % 16)
            },
    )
}

/// Writes a hash as text, by the `Display` form of `alloy_primitives::B256`.
///
/// Claimed of it: without the alternate flag the text is `0x` and the full lowercase
/// hexadecimal form of the bytes.
#[verifier::external_body]
pub(crate) fn hash_text(hash: &B256) -> (text: String)
    ensures
        text@ == hex_text(*hash),
{
    alloy_primitives::B256::from(*hash).to_string()
}

/// The text of a hash tells which hash it is.
pub proof fn law_hash_text_is_unambiguous(left: B256, right: B256)
    requires
        hex_text(left) == hex_text(right),
    ensures
        left == right,
{
    assert forall|j: int| 0 <= j < 32 implies left[j] == right[j] by {
        let high = 2 * j + 2;
        let low = 2 * j + 3;
        assert(hex_text(left)[high] == hex_digit(left[(high - 2) / 2] as int / 16));
        assert(hex_text(right)[high] == hex_digit(right[(high - 2) / 2] as int / 16));
        assert(hex_text(left)[low] == hex_digit(left[(low - 2) / 2] as int % 16));
        assert(hex_text(right)[low] == hex_digit(right[(low - 2) / 2] as int % 16));
    }
    assert(left =~= right);
}

} // verus!

//! Sizes that the account compression program fixes for a tree account.

use vstd::prelude::*;

verus! {

/// Bytes of a concurrent Merkle tree of the given maximum depth and buffer
/// size: three 64-bit counters, then one change log per buffer slot and the
/// rightmost proof, each a root or leaf node, `depth` path nodes, and two
/// 32-bit words.
pub open spec fn structure_size(depth: nat, buffer_size: nat) -> nat {
    24 + (buffer_size + 1) * (40 + 32 * depth)
}

/// Bytes of the header that precedes the tree in its account.
pub open spec fn header_size() -> nat {
    56
}

/// `std::mem::size_of` of `spl_account_compression::ConcurrentMerkleTree`
/// with the given parameters. The contract claims that the type is laid out
/// without padding, which its fields and its `Pod` impl show: the size is the
/// sum of the field sizes.
#[verifier::external_body]
pub(crate) fn merkle_tree_size<const DEPTH: usize, const BUFFER_SIZE: usize>() -> (size: usize)
    ensures
        size == structure_size(DEPTH as nat, BUFFER_SIZE as nat),
{
    std::mem::size_of::<spl_account_compression::ConcurrentMerkleTree<DEPTH, BUFFER_SIZE>>()
}

/// The constant `spl_account_compression::state::CONCURRENT_MERKLE_TREE_HEADER_SIZE_V1`,
/// which the crate defines as `2 + 54`.
#[verifier::external_body]
pub(crate) fn merkle_tree_header_size() -> (size: usize)
    ensures
        size == header_size(),
{
    spl_account_compression::state::CONCURRENT_MERKLE_TREE_HEADER_SIZE_V1
}

} // verus!

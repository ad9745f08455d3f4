//! Byte sizes of concurrent Merkle tree accounts.
//!
//! A tree account holds a header, the tree structure and an optional canopy.
//! Only a fixed set of (depth, buffer size) shapes exists; the table maps
//! each of them to the size of its structure.

use vstd::prelude::*;
use vstd::arithmetic::power2::{pow2, lemma_pow2_strictly_increases, lemma_pow2_unfold, lemma2_to64, lemma2_to64_rest};
use vstd::bits::lemma_u64_shl_is_mul;
use crate::layout::{structure_size, header_size, merkle_tree_size, merkle_tree_header_size};
use crate::text::{decimal, push_decimal};
use vstd::string::StringExecFns;

verus! {

/// Size in bytes of one node of the tree.
pub const NODE_SIZE: u64 = 32;

/// Largest canopy depth whose canopy size fits in 64 bits.
pub const MAX_CANOPY_DEPTH: u8 = 58;

/// Arguments of the tree creation command.
#[derive(Clone, Copy, Debug)]
pub struct CreateTree {
    /// Depth (log2 capacity) of the tree.
    pub depth: u8,
    /// Buffer size (concurrency limit) of the tree.
    pub buffer_size: u16,
    /// Depth of the cached upper part of the tree.
    pub canopy_depth: u8,
}

/// One row of the capacity table.
#[derive(Clone, Copy, Debug)]
pub struct CapacityEntry {
    pub depth: u8,
    pub buffer_size: u16,
    pub size: usize,
}

/// Why no size could be given.
#[derive(Debug)]
pub enum CapacityError {
    /// No shape has this depth; `closest` holds the nearest valid depth below
    /// and the nearest above, whichever exist, in ascending order.
    InvalidDepth { depth: u8, closest: Vec<u8> },
    /// The depth is valid but not with this buffer size; `valid` holds every
    /// buffer size of that depth in ascending order.
    InvalidBufferSize { buffer_size: u16, valid: Vec<u16> },
    /// The total does not fit in 64 bits.
    SizeOverflow,
}

/// The shapes that exist, ordered by depth and then by buffer size.
pub open spec fn shapes() -> Seq<(u8, u16)> {
    seq![
        (3u8, 8u16), (5u8, 8u16),
        (14u8, 64u16), (14u8, 256u16), (14u8, 1024u16), (14u8, 2048u16),
        (15u8, 64u16), (16u8, 64u16), (17u8, 64u16), (18u8, 64u16), (19u8, 64u16),
        (20u8, 64u16), (20u8, 256u16), (20u8, 1024u16), (20u8, 2048u16),
        (24u8, 64u16), (24u8, 256u16), (24u8, 512u16), (24u8, 1024u16), (24u8, 2048u16),
        (26u8, 512u16), (26u8, 1024u16), (26u8, 2048u16),
        (30u8, 512u16), (30u8, 1024u16), (30u8, 2048u16),
    ]
}

pub open spec fn is_valid_shape(depth: u8, buffer_size: u16) -> bool {
    shapes().contains((depth, buffer_size))
}

pub open spec fn is_valid_depth(depth: u8) -> bool {
    exists|buffer_size: u16| is_valid_shape(depth, buffer_size)
}

/// `k` is the largest valid depth below `depth`.
pub open spec fn is_nearest_below(depth: u8, k: u8) -> bool {
    &&& is_valid_depth(k)
    &&& k < depth
    &&& forall|q: u8| is_valid_depth(q) && q < depth ==> q <= k
}

/// `k` is the smallest valid depth above `depth`.
pub open spec fn is_nearest_above(depth: u8, k: u8) -> bool {
    &&& is_valid_depth(k)
    &&& k > depth
    &&& forall|q: u8| is_valid_depth(q) && q > depth ==> q >= k
}

pub open spec fn is_ascending<T>(s: Seq<T>, rank: spec_fn(T) -> int) -> bool {
    forall|i: int, j: int| 0 <= i < j < s.len() ==> rank(s[i]) < rank(s[j])
}

/// `closest` lists exactly the nearest valid depth on each side of `depth`.
pub open spec fn is_closest_depths(depth: u8, closest: Seq<u8>) -> bool {
    &&& is_ascending(closest, |k: u8| k as int)
    &&& forall|k: u8|
        closest.contains(k) <==> is_nearest_below(depth, k) || is_nearest_above(depth, k)
}

/// `valid` lists exactly the buffer sizes that exist for `depth`.
pub open spec fn is_buffer_sizes_of(depth: u8, valid: Seq<u16>) -> bool {
    &&& is_ascending(valid, |b: u16| b as int)
    &&& forall|b: u16| valid.contains(b) <==> is_valid_shape(depth, b)
}

/// Bytes taken by a canopy of depth `d`: every node of a complete binary
/// tree of `d` levels below the root.
pub open spec fn canopy_size_spec(d: nat) -> nat {
    ((pow2(d + 1) - 2) * 32) as nat
}

/// Bytes of a whole tree account.
pub open spec fn tree_size_spec(depth: u8, buffer_size: u16, canopy_depth: u8) -> nat {
    header_size() + structure_size(depth as nat, buffer_size as nat) + canopy_size_spec(
        canopy_depth as nat,
    )
}

/// The canopy size is zero at depth zero and grows strictly with the depth.
pub proof fn lemma_canopy_size_increasing(a: nat, b: nat)
    requires
        a < b,
    ensures
        canopy_size_spec(0) == 0,
        canopy_size_spec(a) < canopy_size_spec(b),
{
    lemma2_to64();
    lemma_pow2_strictly_increases(a + 1, b + 1);
    lemma_pow2_strictly_increases(0, a + 1);
}

/// One more level of canopy costs as many bytes as the new level has nodes.
pub proof fn lemma_canopy_size_step(d: nat)
    ensures
        canopy_size_spec(d + 1) == canopy_size_spec(d) + pow2(d + 1) * 32,
        canopy_size_spec(1) == canopy_size_spec(0) + 2 * 32,
{
    lemma2_to64();
    lemma_pow2_unfold(d + 2);
    lemma_pow2_strictly_increases(0, d + 1);
}

/// A total that fits in 64 bits has a canopy depth below the limit.
pub proof fn lemma_fitting_canopy_depth(depth: u8, buffer_size: u16, canopy_depth: u8)
    requires
        tree_size_spec(depth, buffer_size, canopy_depth) <= u64::MAX,
    ensures
        canopy_depth < MAX_CANOPY_DEPTH,
{
    if canopy_depth >= MAX_CANOPY_DEPTH {
        lemma2_to64();
        lemma2_to64_rest();
        if canopy_depth > MAX_CANOPY_DEPTH {
            lemma_pow2_strictly_increases(59, canopy_depth as nat + 1);
        }
        assert(pow2(canopy_depth as nat + 1) >= 0x800000000000000);
        assert(structure_size(depth as nat, buffer_size as nat) >= 24) by (nonlinear_arith);
    }
}

pub fn canopy_size(canopy_depth: u8) -> (size: u64)
    requires
        canopy_depth <= MAX_CANOPY_DEPTH,
    ensures
        size == canopy_size_spec(canopy_depth as nat),
{
    proof {
        lemma2_to64();
        lemma2_to64_rest();
        if canopy_depth < MAX_CANOPY_DEPTH {
            lemma_pow2_strictly_increases(canopy_depth as nat + 1, 59);
        }
        lemma_pow2_strictly_increases(0, canopy_depth as nat + 1);
        lemma_pow2_unfold(canopy_depth as nat + 1);
        lemma_u64_shl_is_mul(2, canopy_depth as u64);
    }
    let doubled: u64 = 2u64 << canopy_depth;
    (doubled - 2) * NODE_SIZE
}

/// What a lookup of a shape returns.
pub open spec fn is_lookup_result(
    depth: u8,
    buffer_size: u16,
    result: Result<usize, CapacityError>,
) -> bool {
    match result {
        Ok(size) => is_valid_shape(depth, buffer_size) && size == structure_size(
            depth as nat,
            buffer_size as nat,
        ),
        Err(CapacityError::InvalidDepth { depth: d, closest }) => {
            &&& !is_valid_depth(depth)
            &&& d == depth
            &&& is_closest_depths(depth, closest@)
        },
        Err(CapacityError::InvalidBufferSize { buffer_size: b, valid }) => {
            &&& is_valid_depth(depth)
            &&& !is_valid_shape(depth, buffer_size)
            &&& b == buffer_size
            &&& is_buffer_sizes_of(depth, valid@)
        },
        Err(CapacityError::SizeOverflow) => false,
    }
}

/// `shapes()` is strictly ordered by depth, then by buffer size.
pub proof fn lemma_shapes_ordered()
    ensures
        forall|i: int, j: int|
            0 <= i < j < shapes().len() ==> {
                ||| (#[trigger] shapes()[i]).0 < (#[trigger] shapes()[j]).0
                ||| shapes()[i].0 == shapes()[j].0 && shapes()[i].1 < shapes()[j].1
            },
{
}

/// The capacity table: one entry per shape, in the order of `shapes()`.
pub struct CapacityTable {
    entries: Vec<CapacityEntry>,
}

impl CapacityTable {
    /// The rows of the table.
    pub closed spec fn view(&self) -> Seq<CapacityEntry> {
        self.entries@
    }

    /// Every shape has its row, in order, with the size of its structure.
    pub open spec fn wf(&self) -> bool {
        &&& self@.len() == shapes().len()
        &&& forall|i: int|
            0 <= i < self@.len() ==> {
                &&& (#[trigger] self@[i]).depth == shapes()[i].0
                &&& self@[i].buffer_size == shapes()[i].1
                &&& self@[i].size == structure_size(
                    shapes()[i].0 as nat,
                    shapes()[i].1 as nat,
                )
            }
    }

    fn push_shape<const DEPTH: usize, const BUFFER_SIZE: usize>(&mut self, depth: u8, buffer_size: u16)
        requires
            depth == DEPTH,
            buffer_size == BUFFER_SIZE,
        ensures
            final(self)@ == old(self)@.push(
                CapacityEntry {
                    depth,
                    buffer_size,
                    size: structure_size(depth as nat, buffer_size as nat) as usize,
                },
            ),
            structure_size(depth as nat, buffer_size as nat) <= usize::MAX,
    {
        let size: usize = merkle_tree_size::<DEPTH, BUFFER_SIZE>();
        self.entries.push(CapacityEntry { depth, buffer_size, size });
    }

    /// Builds the table from the sizes of the tree types.
    pub fn new() -> (table: Self)
        ensures
            table.wf(),
    {
        let mut table = CapacityTable { entries: Vec::new() };
        table.push_shape::<3, 8>(3, 8);
        table.push_shape::<5, 8>(5, 8);
        table.push_shape::<14, 64>(14, 64);
        table.push_shape::<14, 256>(14, 256);
        table.push_shape::<14, 1024>(14, 1024);
        table.push_shape::<14, 2048>(14, 2048);
        table.push_shape::<15, 64>(15, 64);
        table.push_shape::<16, 64>(16, 64);
        table.push_shape::<17, 64>(17, 64);
        table.push_shape::<18, 64>(18, 64);
        table.push_shape::<19, 64>(19, 64);
        table.push_shape::<20, 64>(20, 64);
        table.push_shape::<20, 256>(20, 256);
        table.push_shape::<20, 1024>(20, 1024);
        table.push_shape::<20, 2048>(20, 2048);
        table.push_shape::<24, 64>(24, 64);
        table.push_shape::<24, 256>(24, 256);
        table.push_shape::<24, 512>(24, 512);
        table.push_shape::<24, 1024>(24, 1024);
        table.push_shape::<24, 2048>(24, 2048);
        table.push_shape::<26, 512>(26, 512);
        table.push_shape::<26, 1024>(26, 1024);
        table.push_shape::<26, 2048>(26, 2048);
        table.push_shape::<30, 512>(30, 512);
        table.push_shape::<30, 1024>(30, 1024);
        table.push_shape::<30, 2048>(30, 2048);
        table
    }

    /// The size of the structure of a shape, or what is wrong with the shape.
    pub fn lookup(&self, depth: u8, buffer_size: u16) -> (result: Result<usize, CapacityError>)
        requires
            self.wf(),
        ensures
            is_lookup_result(depth, buffer_size, result),
    {
        let mut below: Option<u8> = None;
        let mut above: Option<u8> = None;
        let mut valid: Vec<u16> = Vec::new();
        let mut found: Option<usize> = None;
        let mut i: usize = 0;
        proof {
            lemma_shapes_ordered();
        }
        while i < self.entries.len()
            invariant
                self.wf(),
                0 <= i <= self.entries.len(),
                self.entries@ == self@,
                forall|a: int, b: int|
                    0 <= a < b < shapes().len() ==> {
                        ||| (#[trigger] shapes()[a]).0 < (#[trigger] shapes()[b]).0
                        ||| shapes()[a].0 == shapes()[b].0 && shapes()[a].1 < shapes()[b].1
                    },
                below matches Some(k) ==> k < depth && exists|j: int|
                    0 <= j < i && (#[trigger] shapes()[j]).0 == k,
                forall|j: int|
                    0 <= j < i && (#[trigger] shapes()[j]).0 < depth ==> below is Some
                        && shapes()[j].0 <= below->0,
                above matches Some(k) ==> k > depth && exists|j: int|
                    0 <= j < i && (#[trigger] shapes()[j]).0 == k,
                forall|j: int|
                    0 <= j < i && (#[trigger] shapes()[j]).0 > depth ==> above is Some
                        && shapes()[j].0 >= above->0,
                is_ascending(valid@, |b: u16| b as int),
                forall|x: int|
                    0 <= x < valid@.len() ==> exists|j: int|
                        0 <= j < i && #[trigger] shapes()[j] == (depth, #[trigger] valid@[x]),
                forall|j: int|
                    0 <= j < i && (#[trigger] shapes()[j]).0 == depth ==> valid@.contains(
                        shapes()[j].1,
                    ),
                found matches Some(size) ==> is_valid_shape(depth, buffer_size) && size
                    == structure_size(depth as nat, buffer_size as nat),
                forall|j: int|
                    0 <= j < i && #[trigger] shapes()[j] == (depth, buffer_size) ==> found is Some,
            decreases self.entries.len() - i,
        {
            let entry: CapacityEntry = self.entries[i];
            assert(entry == self@[i as int]);
            assert(entry.depth == shapes()[i as int].0);
            assert(entry.buffer_size == shapes()[i as int].1);
            if entry.depth < depth {
                let better: bool = match below {
                    Some(k) => k < entry.depth,
                    None => true,
                };
                if better {
                    below = Some(entry.depth);
                }
            } else if entry.depth > depth {
                let better: bool = match above {
                    Some(k) => k > entry.depth,
                    None => true,
                };
                if better {
                    above = Some(entry.depth);
                }
            } else {
                proof {
                    assert forall|x: int| 0 <= x < valid@.len() implies valid@[x]
                        < entry.buffer_size by {
                        let j = choose|j: int|
                            0 <= j < i && #[trigger] shapes()[j] == (depth, valid@[x]);
                        assert(shapes()[j].0 == shapes()[i as int].0);
                    }
                }
                let ghost before = valid@;
                valid.push(entry.buffer_size);
                proof {
                    assert forall|j: int|
                        0 <= j < i + 1 && (#[trigger] shapes()[j]).0 == depth implies valid@.contains(
                        shapes()[j].1,
                    ) by {
                        if j < i {
                            assert(before.contains(shapes()[j].1));
                            let x = choose|x: int|
                                0 <= x < before.len() && before[x] == shapes()[j].1;
                            assert(valid@[x] == shapes()[j].1);
                        } else {
                            assert(valid@[before.len() as int] == shapes()[j].1);
                        }
                    }
                    assert forall|x: int| 0 <= x < valid@.len() implies exists|j: int|
                        0 <= j < i + 1 && #[trigger] shapes()[j] == (depth, #[trigger] valid@[x]) by {
                        if x < before.len() {
                            assert(valid@[x] == before[x]);
                            let j = choose|j: int|
                                0 <= j < i && #[trigger] shapes()[j] == (depth, before[x]);
                            assert(shapes()[j] == (depth, valid@[x]));
                        } else {
                            assert(shapes()[i as int] == (depth, valid@[x]));
                        }
                    }
                }
                if entry.buffer_size == buffer_size {
                    assert(shapes()[i as int] == (depth, buffer_size));
                    found = Some(entry.size);
                }
            }
            i = i + 1;
        }
        match found {
            Some(size) => Ok(size),
            None => {
                if valid.len() > 0 {
                    proof {
                        let j = choose|j: int|
                            0 <= j < i && #[trigger] shapes()[j] == (depth, #[trigger] valid@[0]);
                        assert(is_valid_shape(depth, valid@[0]));
                        assert forall|b: u16| valid@.contains(b) <==> is_valid_shape(
                            depth,
                            b,
                        ) by {
                            if valid@.contains(b) {
                                let x = choose|x: int| 0 <= x < valid@.len() && valid@[x] == b;
                                let j = choose|j: int|
                                    0 <= j < i && #[trigger] shapes()[j] == (
                                        depth,
                                        #[trigger] valid@[x],
                                    );
                                assert(shapes().contains((depth, b)));
                            }
                            if is_valid_shape(depth, b) {
                                let j = choose|j: int|
                                    0 <= j < shapes().len() && shapes()[j] == (depth, b);
                                assert(shapes()[j].0 == depth);
                            }
                        }
                    }
                    Err(CapacityError::InvalidBufferSize { buffer_size, valid })
                } else {
                    let mut closest: Vec<u8> = Vec::new();
                    if let Some(k) = below {
                        closest.push(k);
                    }
                    if let Some(k) = above {
                        closest.push(k);
                    }
                    proof {
                        lemma_valid_depth_index(depth);
                        if is_valid_depth(depth) {
                            let j = choose|j: int|
                                0 <= j < shapes().len() && (#[trigger] shapes()[j]).0 == depth;
                            assert(valid@.contains(shapes()[j].1));
                        }
                        assert forall|k: u8| closest@.contains(k) <==> is_nearest_below(depth, k)
                            || is_nearest_above(depth, k) by {
                            lemma_valid_depth_index(k);
                            if is_nearest_below(depth, k) {
                                let j = choose|j: int|
                                    0 <= j < shapes().len() && (#[trigger] shapes()[j]).0 == k;
                                assert(below is Some && k <= below->0);
                                lemma_valid_depth_index(below->0);
                                assert(closest@[0] == k);
                            }
                            if is_nearest_above(depth, k) {
                                let j = choose|j: int|
                                    0 <= j < shapes().len() && (#[trigger] shapes()[j]).0 == k;
                                assert(above is Some && k >= above->0);
                                lemma_valid_depth_index(above->0);
                                assert(closest@[closest@.len() - 1] == k);
                            }
                            if closest@.contains(k) {
                                if below == Some(k) {
                                    assert forall|q: u8|
                                        is_valid_depth(q) && q < depth implies q <= k by {
                                        lemma_valid_depth_index(q);
                                        let j = choose|j: int|
                                            0 <= j < shapes().len() && (#[trigger] shapes()[j]).0
                                                == q;
                                    }
                                } else {
                                    assert(above == Some(k));
                                    assert forall|q: u8|
                                        is_valid_depth(q) && q > depth implies q >= k by {
                                        lemma_valid_depth_index(q);
                                        let j = choose|j: int|
                                            0 <= j < shapes().len() && (#[trigger] shapes()[j]).0
                                                == q;
                                    }
                                }
                            }
                        }
                    }
                    Err(CapacityError::InvalidDepth { depth, closest })
                }
            },
        }
    }
}

/// A depth is valid exactly when some row of `shapes()` has it.
pub proof fn lemma_valid_depth_index(depth: u8)
    ensures
        is_valid_depth(depth) <==> exists|j: int|
            0 <= j < shapes().len() && (#[trigger] shapes()[j]).0 == depth,
{
    if is_valid_depth(depth) {
        let b = choose|b: u16| is_valid_shape(depth, b);
        let j = choose|j: int| 0 <= j < shapes().len() && shapes()[j] == (depth, b);
        assert(shapes()[j].0 == depth);
    }
    if exists|j: int| 0 <= j < shapes().len() && (#[trigger] shapes()[j]).0 == depth {
        let j = choose|j: int| 0 <= j < shapes().len() && (#[trigger] shapes()[j]).0 == depth;
        assert(shapes()[j] == (depth, shapes()[j].1));
        assert(is_valid_shape(depth, shapes()[j].1));
    }
}

/// What `tree_size` returns: the total where the shape exists and the total
/// fits in 64 bits, else what is wrong, the shape first.
pub open spec fn is_tree_size_result(
    depth: u8,
    buffer_size: u16,
    canopy_depth: u8,
    result: Result<u64, CapacityError>,
) -> bool {
    match result {
        Ok(size) => {
            &&& is_valid_shape(depth, buffer_size)
            &&& size == tree_size_spec(depth, buffer_size, canopy_depth)
        },
        Err(CapacityError::SizeOverflow) => {
            &&& is_valid_shape(depth, buffer_size)
            &&& tree_size_spec(depth, buffer_size, canopy_depth) > u64::MAX
        },
        Err(e) => is_lookup_result(depth, buffer_size, Err(e)),
    }
}

/// The size of the structure of a shape, for a caller that keeps no table:
/// one is built for the call. A caller with many lookups builds the table
/// once and asks it.
pub fn merkle_tree_get_size(depth: u8, buffer_size: u16) -> (result: Result<usize, CapacityError>)
    ensures
        is_lookup_result(depth, buffer_size, result),
{
    let table = CapacityTable::new();
    table.lookup(depth, buffer_size)
}

/// Bytes of a tree account: header, structure and canopy. The table is
/// built for the call; `CapacityTable::tree_size` takes one that is there.
pub fn tree_size(depth: u8, buffer_size: u16, canopy_depth: u8) -> (result: Result<
    u64,
    CapacityError,
>)
    ensures
        is_tree_size_result(depth, buffer_size, canopy_depth, result),
{
    let table = CapacityTable::new();
    table.tree_size(depth, buffer_size, canopy_depth)
}

impl CapacityTable {
    /// Bytes of a tree account: header, structure and canopy. The table is
    /// only read, so one table serves every caller.
    pub fn tree_size(&self, depth: u8, buffer_size: u16, canopy_depth: u8) -> (result: Result<
        u64,
        CapacityError,
    >)
        requires
            self.wf(),
        ensures
            is_tree_size_result(depth, buffer_size, canopy_depth, result),
    {
        let structure: usize = match self.lookup(depth, buffer_size) {
            Ok(size) => size,
            Err(e) => {
                return Err(e);
            },
        };
        total_size(structure, depth, buffer_size, canopy_depth)
    }
}

/// Header, structure and canopy together, where they fit in 64 bits.
fn total_size(structure: usize, depth: u8, buffer_size: u16, canopy_depth: u8) -> (result: Result<
    u64,
    CapacityError,
>)
    requires
        is_valid_shape(depth, buffer_size),
        structure == structure_size(depth as nat, buffer_size as nat),
    ensures
        is_tree_size_result(depth, buffer_size, canopy_depth, result),
{
    proof {
        lemma_structure_size_bound(depth, buffer_size);
    }
    let base: u64 = (merkle_tree_header_size() + structure) as u64;
    if canopy_depth > MAX_CANOPY_DEPTH {
        proof {
            if tree_size_spec(depth, buffer_size, canopy_depth) <= u64::MAX {
                lemma_fitting_canopy_depth(depth, buffer_size, canopy_depth);
            }
        }
        return Err(CapacityError::SizeOverflow);
    }
    match base.checked_add(canopy_size(canopy_depth)) {
        Some(total) => Ok(total),
        None => Err(CapacityError::SizeOverflow),
    }
}

/// The structure of every shape is smaller than 4 MiB.
pub proof fn lemma_structure_size_bound(depth: u8, buffer_size: u16)
    requires
        is_valid_shape(depth, buffer_size),
    ensures
        0 < structure_size(depth as nat, buffer_size as nat) < 0x400000,
{
    let j = choose|j: int| 0 <= j < shapes().len() && shapes()[j] == (depth, buffer_size);
    assert(depth <= 30 && buffer_size <= 2048);
    assert(structure_size(depth as nat, buffer_size as nat) < 0x400000) by (nonlinear_arith)
        requires
            depth <= 30,
            buffer_size <= 2048,
    ;
    assert(structure_size(depth as nat, buffer_size as nat) > 0) by (nonlinear_arith);
}

/// The decimal numerals of the values with the separator between
/// neighbours.
pub open spec fn joined(values: Seq<nat>, separator: Seq<char>) -> Seq<char>
    decreases values.len(),
{
    if values.len() == 0 {
        Seq::empty()
    } else if values.len() == 1 {
        decimal(values[0])
    } else {
        joined(values.drop_last(), separator) + separator + decimal(values.last())
    }
}

/// The text of a capacity error.
pub open spec fn error_text(e: CapacityError) -> Seq<char> {
    match e {
        CapacityError::InvalidDepth { depth, closest } => "Invalid tree depth "@ + decimal(
            depth as nat,
        ) + " - closest valid value(s) are "@ + joined(
            closest@.map_values(|k: u8| k as nat),
            " and "@,
        ),
        CapacityError::InvalidBufferSize { buffer_size, valid } => "Invalid buffer size "@
            + decimal(buffer_size as nat) + " - valid size(s) are "@ + joined(
            valid@.map_values(|b: u16| b as nat),
            ", "@,
        ),
        CapacityError::SizeOverflow => "Error converting Merkle tree size to 64-bit"@,
    }
}

fn push_joined(out: &mut String, values: &Vec<u64>, separator: &str)
    ensures
        final(out)@ == old(out)@ + joined(values@.map_values(|v: u64| v as nat), separator@),
{
    let ghost all = values@.map_values(|v: u64| v as nat);
    let mut i: usize = 0;
    while i < values.len()
        invariant
            0 <= i <= values.len(),
            all == values@.map_values(|v: u64| v as nat),
            out@ == old(out)@ + joined(all.take(i as int), separator@),
        decreases values.len() - i,
    {
        if i > 0 {
            out.append(separator);
        }
        push_decimal(out, values[i]);
        proof {
            let grown = all.take(i as int + 1);
            assert(grown.drop_last() == all.take(i as int));
            assert(grown.last() == values[i as int] as nat);
            if i > 0 {
                assert(old(out)@ + (joined(all.take(i as int), separator@) + separator@ + decimal(
                    grown.last(),
                )) == old(out)@ + joined(all.take(i as int), separator@) + separator@ + decimal(
                    grown.last(),
                ));
            } else {
                assert(all.take(0) == Seq::<nat>::empty());
                assert(old(out)@ + Seq::<char>::empty() == old(out)@);
            }
        }
        i = i + 1;
    }
    proof {
        assert(all.take(values.len() as int) == all);
        if values.len() == 0 {
            assert(old(out)@ + Seq::<char>::empty() == old(out)@);
        }
    }
}

impl CapacityError {
    /// The text of the error, with the values that would have been valid.
    pub fn message(&self) -> (text: String)
        ensures
            text@ == error_text(*self),
    {
        match self {
            CapacityError::InvalidDepth { depth, closest } => {
                let mut wide: Vec<u64> = Vec::new();
                let mut i: usize = 0;
                while i < closest.len()
                    invariant
                        0 <= i <= closest.len(),
                        wide@.len() == i,
                        forall|j: int| 0 <= j < i ==> wide@[j] == closest@[j],
                    decreases closest.len() - i,
                {
                    wide.push(closest[i] as u64);
                    i = i + 1;
                }
                proof {
                    assert(wide@.map_values(|v: u64| v as nat) == closest@.map_values(
                        |k: u8| k as nat,
                    ));
                }
                let mut text = String::from_str("Invalid tree depth ");
                push_decimal(&mut text, *depth as u64);
                text.append(" - closest valid value(s) are ");
                push_joined(&mut text, &wide, " and ");
                text
            },
            CapacityError::InvalidBufferSize { buffer_size, valid } => {
                let mut wide: Vec<u64> = Vec::new();
                let mut i: usize = 0;
                while i < valid.len()
                    invariant
                        0 <= i <= valid.len(),
                        wide@.len() == i,
                        forall|j: int| 0 <= j < i ==> wide@[j] == valid@[j],
                    decreases valid.len() - i,
                {
                    wide.push(valid[i] as u64);
                    i = i + 1;
                }
                proof {
                    assert(wide@.map_values(|v: u64| v as nat) == valid@.map_values(
                        |b: u16| b as nat,
                    ));
                }
                let mut text = String::from_str("Invalid buffer size ");
                push_decimal(&mut text, *buffer_size as u64);
                text.append(" - valid size(s) are ");
                push_joined(&mut text, &wide, ", ");
                text
            },
            CapacityError::SizeOverflow => String::from_str(
                "Error converting Merkle tree size to 64-bit",
            ),
        }
    }
}

} // verus!

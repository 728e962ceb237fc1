//! The digest primitive: a fixed-width hash with a distinguished padding
//! value and a deterministic, order-sensitive, height-separated 4-ary
//! combination rule.

use vstd::prelude::*;

verus! {

/// Multiplier of the mixing step.
const MIX_MUL: u64 = 0x9E3779B97F4A7C15;

/// Two to the 64th power: the modulus of the 64-bit mixing arithmetic.
const TWO64: u128 = 0x1_0000_0000_0000_0000;

/// Seed that separates leaf digests from interior digests.
const ITEM_SEED: u64 = 0x6A09E667F3BCC908;

/// Seed of the 4-ary combination rule.
const NODE_SEED: u64 = 0xBB67AE8584CAA73B;

/// Value of the distinguished padding digest.
const PAD: u64 = 0x510E527FADE682D1;

/// A fixed-width digest committing to a subtree's contents.
#[derive(Clone, Copy, Debug, PartialEq, Eq, Structural)]
pub struct Digest {
    value: u64,
}

/// One step of the mixing chain: multiply the accumulator and add the next
/// word, modulo 2^64.  Feeding words in a different order gives, in general,
/// a different result, which is what makes the combination rule
/// order-sensitive.
pub closed spec fn spec_mix(acc: u64, x: u64) -> u64 {
    ((acc * MIX_MUL + x) % (TWO64 as int)) as u64
}

/// The digest standing in for an absent child.
pub closed spec fn spec_padding() -> Digest {
    Digest { value: PAD }
}

/// The digest of a single leaf item.
pub closed spec fn spec_of_item(item: u64) -> Digest {
    Digest { value: spec_mix(ITEM_SEED, item) }
}

/// The 4-ary combination rule: folds the tier height and the four child
/// digests, in order, into one parent digest.
pub closed spec fn spec_node(height: u64, a: Digest, b: Digest, c: Digest, d: Digest) -> Digest {
    Digest {
        value: spec_mix(
            spec_mix(spec_mix(spec_mix(spec_mix(NODE_SEED, height), a.value), b.value), c.value),
            d.value,
        ),
    }
}

/// The digest of the minimal (single-item) subtree at a given height: the
/// item's digest at the leaf, padded on the right all the way up.
pub open spec fn spec_singleton_hash(height: u64, item: u64) -> Digest
    decreases height,
{
    if height == 0 {
        spec_of_item(item)
    } else {
        spec_node(
            height,
            spec_singleton_hash((height - 1) as u64, item),
            spec_padding(),
            spec_padding(),
            spec_padding(),
        )
    }
}

/// The `i`-th digest of a child sequence, with absent children standing as
/// padding.
pub open spec fn nth_or_pad(s: Seq<Digest>, i: int) -> Digest {
    if 0 <= i < s.len() {
        s[i]
    } else {
        spec_padding()
    }
}

fn mix(acc: u64, x: u64) -> (r: u64)
    ensures
        r == spec_mix(acc, x),
{
    proof {
        assert((acc as int) * (MIX_MUL as int) + (x as int) <= (
        0xFFFF_FFFF_FFFF_FFFF_FFFF_FFFF_FFFF_FFFFu128 as int)) by (nonlinear_arith)
            requires
                acc <= 0xFFFF_FFFF_FFFF_FFFFu64,
                x <= 0xFFFF_FFFF_FFFF_FFFFu64,
        ;
    }
    (((acc as u128) * (MIX_MUL as u128) + (x as u128)) % TWO64) as u64
}

impl Digest {
    /// The distinguished digest standing in for an absent child.
    pub fn padding() -> (h: Digest)
        ensures
            h == spec_padding(),
    {
        Digest { value: PAD }
    }

    /// The digest of a single leaf item.
    pub fn of_item(item: u64) -> (h: Digest)
        ensures
            h == spec_of_item(item),
    {
        Digest { value: mix(ITEM_SEED, item) }
    }

    /// Folds the tier height and four child digests, in order, into one
    /// parent digest.  The rule is deterministic and order-sensitive, and
    /// the height keeps digests of differently placed subtrees in separate
    /// domains.
    pub fn node(height: u64, a: Digest, b: Digest, c: Digest, d: Digest) -> (h: Digest)
        ensures
            h == spec_node(height, a, b, c, d),
    {
        let acc0: u64 = mix(NODE_SEED, height);
        let acc1: u64 = mix(acc0, a.value);
        let acc2: u64 = mix(acc1, b.value);
        let acc3: u64 = mix(acc2, c.value);
        let acc4: u64 = mix(acc3, d.value);
        Digest { value: acc4 }
    }
}

} // verus!

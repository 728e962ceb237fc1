//! An incremental 4-ary Merkle commitment frontier.
//!
//! Items are appended one at a time while a running root digest is kept for
//! the whole sequence.  The right-hand edge of the tree (the only part that
//! can still grow) is an [`Active`] segment; everything to its left has been
//! frozen into immutable [`Complete`] subtrees.  A `witness` flag controls
//! whether a frozen subtree keeps its internal structure (so a membership
//! proof can later be extracted from it) or is pruned down to its digest.

use vstd::prelude::*;

mod hash;
mod item;
mod node;
mod three;

pub use hash::nth_or_pad;
pub use hash::spec_mix;
pub use hash::spec_node;
pub use hash::spec_of_item;
pub use hash::spec_padding;
pub use hash::spec_singleton_hash;
pub use hash::Digest;
pub use item::CompleteItem;
pub use item::Item;
pub use node::Active;
pub use node::Complete;
pub use node::CompleteChild;
pub use node::Focus;
pub use node::lemma_capacity;
pub use node::lemma_capacity_focus;
pub use node::lemma_hash_composition;
pub use node::lemma_pruned_retained_hash_equal;
pub use node::pow4;
pub use node::sibling_hashes;
pub use node::children_hashes_of;
pub use node::children_wf;
pub use three::Elems;
pub use three::Three;

verus! {

/// Outcome of one insertion attempt on a growing node.
///
/// `T` is the growing node's own type; `C` is the immutable counterpart it
/// collapses into when it saturates.
pub enum Inserted<T, C> {
    /// The item was placed; the new state supersedes the old one.
    Success(T),
    /// The item was rejected; the state is returned unchanged together with
    /// the item.
    Failure(u64, T),
    /// The node was already saturated: it has collapsed into its immutable
    /// counterpart, and the item must be carried one tier up.
    Full(u64, C),
}

} // verus!

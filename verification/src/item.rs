//! The leaf tier: a single item at height zero.
//!
//! A leaf holds exactly one item, so it is saturated from birth: a further
//! insertion either hands back a saturated, immutable counterpart together
//! with the new item as a carry, or — when the new item equals the one the
//! leaf already holds — rejects the duplicate outright.

use crate::hash::spec_of_item;
use crate::hash::Digest;
use crate::Inserted;
use vstd::prelude::*;

verus! {

/// A growing leaf: one item, at height zero.
#[derive(Clone, Debug, PartialEq, Eq)]
pub struct Item {
    value: u64,
    witnessed: bool,
}

/// A frozen leaf: either the item itself (when it was witnessed, so a proof
/// can later be extracted) or only its digest (pruned).
#[derive(Clone, Debug, PartialEq, Eq)]
pub enum CompleteItem {
    /// The item is retained in full.
    Retained {
        /// The item committed to.
        value: u64,
    },
    /// Only the item's digest is retained.
    Pruned {
        /// The digest of the discarded item.
        hash: Digest,
    },
}

impl CompleteItem {
    /// The digest this frozen leaf commits to.  It is the same whether the
    /// item was retained or pruned.
    pub closed spec fn spec_hash(self) -> Digest {
        match self {
            CompleteItem::Retained { value } => spec_of_item(value),
            CompleteItem::Pruned { hash } => hash,
        }
    }

    /// Whether the item itself was retained.
    pub closed spec fn is_retained(self) -> bool {
        self matches CompleteItem::Retained { .. }
    }

    /// The digest this frozen leaf commits to.
    pub fn hash(&self) -> (h: Digest)
        ensures
            h == self.spec_hash(),
    {
        match self {
            CompleteItem::Retained { value } => Digest::of_item(*value),
            CompleteItem::Pruned { hash } => *hash,
        }
    }

    /// Whether the item itself was retained.
    pub fn retained(&self) -> (r: bool)
        ensures
            r == self.is_retained(),
    {
        match self {
            CompleteItem::Retained { .. } => true,
            CompleteItem::Pruned { .. } => false,
        }
    }
}

impl Item {
    /// The item this leaf holds.
    pub closed spec fn spec_value(self) -> u64 {
        self.value
    }

    /// Whether this leaf must be retained when it freezes.
    pub closed spec fn spec_witnessed(self) -> bool {
        self.witnessed
    }

    /// The digest this leaf commits to.
    pub open spec fn spec_hash(self) -> Digest {
        spec_of_item(self.spec_value())
    }

    /// Builds the leaf holding one item, not yet witnessed.
    pub fn singleton(item: u64) -> (r: Item)
        ensures
            r.spec_value() == item,
            !r.spec_witnessed(),
    {
        Item { value: item, witnessed: false }
    }

    /// The digest this leaf commits to.
    pub fn hash(&self) -> (h: Digest)
        ensures
            h == self.spec_hash(),
    {
        Digest::of_item(self.value)
    }

    /// Marks this leaf as must-retain.  Idempotent; the item and the digest
    /// are unchanged.
    pub fn witness(self) -> (r: Item)
        ensures
            r.spec_value() == self.spec_value(),
            r.spec_witnessed(),
            self.spec_witnessed() ==> r == self,
    {
        Item { value: self.value, witnessed: true }
    }

    /// Freezes this leaf.  The digest is carried over unchanged; the item is
    /// retained exactly when the leaf was witnessed.
    pub fn complete(self) -> (r: CompleteItem)
        ensures
            r.spec_hash() == self.spec_hash(),
            r.is_retained() <==> self.spec_witnessed(),
    {
        if self.witnessed {
            CompleteItem::Retained { value: self.value }
        } else {
            CompleteItem::Pruned { hash: Digest::of_item(self.value) }
        }
    }

    /// Attempts to insert one more item at this leaf.  A leaf is saturated
    /// from birth, so the attempt never succeeds in place: an item equal to
    /// the one already held is rejected (`Failure`, the leaf unchanged), and
    /// any other item becomes a carry (`Full`) alongside the frozen leaf.
    pub fn insert(self, item: u64) -> (r: Inserted<Item, CompleteItem>)
        ensures
            item == self.spec_value() <==> r matches Inserted::Failure(_, _),
            item != self.spec_value() <==> r matches Inserted::Full(_, _),
            match r {
                Inserted::Success(_) => false,
                Inserted::Failure(it, leaf) => it == item && leaf == self,
                Inserted::Full(it, frozen) => it == item && frozen.spec_hash() == self.spec_hash()
                    && (frozen.is_retained() <==> self.spec_witnessed()),
            },
    {
        if item == self.value {
            Inserted::Failure(item, self)
        } else {
            Inserted::Full(item, self.complete())
        }
    }
}

} // verus!

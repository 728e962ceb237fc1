//! The recursive node pair: the still-growing [`Active`] segment on the
//! tree's right edge, and the frozen [`Complete`] subtree it collapses into.

use crate::hash::nth_or_pad;
use crate::hash::spec_node;
use crate::hash::spec_singleton_hash;
use crate::hash::Digest;
use crate::item::CompleteItem;
use crate::item::Item;
use crate::three::Three;
use crate::three::Elems;
use crate::Inserted;
use vstd::prelude::*;

verus! {

/// A partially filled 4-ary subtree at some height of at least one.
///
/// Exactly one child — the rightmost, the `focus` — is still growing; the
/// up-to-three children to its left have been frozen into siblings.  The
/// digest of the whole segment is cached and kept consistent with the
/// children on every change.
#[derive(Debug, PartialEq, Eq)]
pub struct Active {
    height: u64,
    focus: Focus,
    siblings: Three<CompleteChild>,
    witnessed: bool,
    hash: Digest,
}

/// The still-growing child of an [`Active`] segment: a leaf at height zero,
/// or a smaller segment one tier down.
#[derive(Debug, PartialEq, Eq)]
pub enum Focus {
    /// A leaf, at height zero.
    Item(Item),
    /// A smaller segment, one tier down.
    Segment(Box<Active>),
}

/// A frozen, immutable subtree at some height of at least one.
///
/// Its digest is fixed at construction.  The children are retained only
/// when the segment that froze was witnessed; otherwise they are pruned and
/// the digest alone remains.
#[derive(Debug, PartialEq, Eq)]
pub struct Complete {
    height: u64,
    hash: Digest,
    inner: CompleteInner,
}

#[derive(Debug, PartialEq, Eq)]
enum CompleteInner {
    Retained { siblings: Three<CompleteChild>, focus: CompleteChild },
    Pruned,
}

/// A frozen child of a [`Complete`] node or frozen sibling of an
/// [`Active`] segment: a frozen leaf at height zero, or a frozen node one
/// tier down.
#[derive(Debug, PartialEq, Eq)]
pub enum CompleteChild {
    /// A frozen leaf, at height zero.
    Item(CompleteItem),
    /// A frozen node, one tier down.
    Node(Box<Complete>),
}

/// Four to the given power: how many leaves a full subtree of that height
/// holds.
pub open spec fn pow4(n: nat) -> nat
    decreases n,
{
    if n == 0 {
        1
    } else {
        4 * pow4((n - 1) as nat)
    }
}

/// The digests of a sibling container's elements, in order.
pub open spec fn sibling_hashes(s: Three<CompleteChild>) -> Seq<Digest> {
    match s {
        Three::_0 => Seq::empty(),
        Three::_1(a) => seq![a.spec_hash()],
        Three::_2(a, b) => seq![a.spec_hash(), b.spec_hash()],
        Three::_3(a, b, c) => seq![a.spec_hash(), b.spec_hash(), c.spec_hash()],
    }
}

/// The digests of a segment's logical children, in order: the frozen
/// siblings first, then the digest of the child on the right.
pub open spec fn children_hashes_of(s: Three<CompleteChild>, focus_hash: Digest) -> Seq<Digest> {
    sibling_hashes(s).push(focus_hash)
}

/// Whether every sibling in the container is well formed and sits at the
/// given height.
pub open spec fn children_wf(s: Three<CompleteChild>, height: u64) -> bool
    decreases s,
{
    match s {
        Three::_0 => true,
        Three::_1(a) => a.wf() && a.spec_height() == height,
        Three::_2(a, b) => a.wf() && a.spec_height() == height && b.wf() && b.spec_height()
            == height,
        Three::_3(a, b, c) => a.wf() && a.spec_height() == height && b.wf() && b.spec_height()
            == height && c.wf() && c.spec_height() == height,
    }
}

impl CompleteChild {
    /// The digest this frozen subtree commits to.
    pub open spec fn spec_hash(self) -> Digest {
        match self {
            CompleteChild::Item(leaf) => leaf.spec_hash(),
            CompleteChild::Node(node) => node.spec_hash(),
        }
    }

    /// The height of this frozen subtree.
    pub open spec fn spec_height(self) -> u64 {
        match self {
            CompleteChild::Item(_) => 0,
            CompleteChild::Node(node) => node.spec_height(),
        }
    }

    /// Whether the structure under this frozen subtree was retained.
    pub open spec fn is_retained(self) -> bool {
        match self {
            CompleteChild::Item(leaf) => leaf.is_retained(),
            CompleteChild::Node(node) => node.is_retained(),
        }
    }

    /// Structural soundness: cached digests match the children they were
    /// computed over, recursively.
    pub closed spec fn wf(self) -> bool
        decreases self,
    {
        match self {
            CompleteChild::Item(_) => true,
            CompleteChild::Node(node) => node.wf(),
        }
    }

    /// The digest this frozen subtree commits to.
    pub fn hash(&self) -> (h: Digest)
        ensures
            h == self.spec_hash(),
    {
        match self {
            CompleteChild::Item(leaf) => leaf.hash(),
            CompleteChild::Node(node) => node.hash(),
        }
    }

    /// Whether the structure under this frozen subtree was retained.
    pub fn retained(&self) -> (r: bool)
        ensures
            r == self.is_retained(),
    {
        match self {
            CompleteChild::Item(leaf) => leaf.retained(),
            CompleteChild::Node(node) => node.retained(),
        }
    }
}

impl Complete {
    /// The height of this frozen node; at least one.
    pub closed spec fn spec_height(self) -> u64 {
        self.height
    }

    /// The digest this frozen node commits to.
    pub closed spec fn spec_hash(self) -> Digest {
        self.hash
    }

    /// Whether the children were retained rather than pruned.
    pub closed spec fn is_retained(self) -> bool {
        self.inner matches CompleteInner::Retained { .. }
    }

    /// The value a freezing constructor returns: the children are kept
    /// exactly when the freezing segment was witnessed, and the cached
    /// digest is carried over verbatim in either shape.
    pub closed spec fn spec_from_parts(
        height: u64,
        hash: Digest,
        witnessed: bool,
        siblings: Three<CompleteChild>,
        focus: CompleteChild,
    ) -> Complete {
        Complete {
            height,
            hash,
            inner: if witnessed {
                CompleteInner::Retained { siblings, focus }
            } else {
                CompleteInner::Pruned
            },
        }
    }

    /// Structural soundness: when the children are retained they are well
    /// formed, sit one tier down, and the cached digest is exactly the
    /// combination of their digests, padded on the right.
    pub closed spec fn wf(self) -> bool
        decreases self,
    {
        &&& self.height >= 1
        &&& match self.inner {
            CompleteInner::Pruned => true,
            CompleteInner::Retained { siblings, focus } => {
                let ch = children_hashes_of(siblings, focus.spec_hash());
                &&& children_wf(siblings, (self.height - 1) as u64)
                &&& focus.wf()
                &&& focus.spec_height() == self.height - 1
                &&& self.hash == spec_node(
                    self.height,
                    nth_or_pad(ch, 0),
                    nth_or_pad(ch, 1),
                    nth_or_pad(ch, 2),
                    nth_or_pad(ch, 3),
                )
            },
        }
    }

    /// The digest this frozen node commits to, whichever shape it holds.
    pub fn hash(&self) -> (h: Digest)
        ensures
            h == self.spec_hash(),
    {
        self.hash
    }

    /// The height of this frozen node.
    pub fn height(&self) -> (h: u64)
        ensures
            h == self.spec_height(),
    {
        self.height
    }

    /// Whether the children were retained rather than pruned.
    pub fn retained(&self) -> (r: bool)
        ensures
            r == self.is_retained(),
    {
        match &self.inner {
            CompleteInner::Retained { .. } => true,
            CompleteInner::Pruned => false,
        }
    }

    /// The retained children: the frozen siblings and the frozen child that
    /// was the focus, in that order.  A pruned node has none.
    pub closed spec fn spec_children(self) -> Option<(Three<CompleteChild>, CompleteChild)> {
        match self.inner {
            CompleteInner::Retained { siblings, focus } => Some((siblings, focus)),
            CompleteInner::Pruned => None,
        }
    }

    /// The retained children, for walking the structure of a witnessed
    /// subtree; a pruned node has none.
    pub fn children(&self) -> (r: Option<(&Three<CompleteChild>, &CompleteChild)>)
        ensures
            match r {
                Some(c) => self.spec_children() == Some((*c.0, *c.1)),
                None => self.spec_children() is None,
            },
            r is Some <==> self.is_retained(),
    {
        match &self.inner {
            CompleteInner::Retained { siblings, focus } => Some((siblings, focus)),
            CompleteInner::Pruned => None,
        }
    }

    /// Freezes four (or fewer, right-padded) children under a digest that
    /// the caller has already computed over exactly those children.  The
    /// digest is never recomputed: the caller's claim that it matches the
    /// children is a precondition, established at the two call sites that
    /// freeze a segment.  The children are retained exactly when
    /// `witnessed` holds, and the digest is the same in either shape.
    pub fn from_parts_unchecked(
        height: u64,
        hash: Digest,
        witnessed: bool,
        siblings: Three<CompleteChild>,
        focus: CompleteChild,
    ) -> (r: Complete)
        requires
            height >= 1,
            children_wf(siblings, (height - 1) as u64),
            focus.wf(),
            focus.spec_height() == height - 1,
            hash == spec_node(
                height,
                nth_or_pad(children_hashes_of(siblings, focus.spec_hash()), 0),
                nth_or_pad(children_hashes_of(siblings, focus.spec_hash()), 1),
                nth_or_pad(children_hashes_of(siblings, focus.spec_hash()), 2),
                nth_or_pad(children_hashes_of(siblings, focus.spec_hash()), 3),
            ),
        ensures
            r == Complete::spec_from_parts(height, hash, witnessed, siblings, focus),
            r.wf(),
            r.spec_height() == height,
            r.spec_hash() == hash,
            r.is_retained() <==> witnessed,
            witnessed ==> r.spec_children() == Some((siblings, focus)),
            !witnessed ==> r.spec_children() is None,
    {
        if witnessed {
            Complete { height, hash, inner: CompleteInner::Retained { siblings, focus } }
        } else {
            Complete { height, hash, inner: CompleteInner::Pruned }
        }
    }
}

/// Pruning is digest-preserving: freezing the same children under the same
/// digest reports the same digest whether the children are retained
/// (witnessed) or pruned (not witnessed).
pub proof fn lemma_pruned_retained_hash_equal(
    height: u64,
    hash: Digest,
    siblings: Three<CompleteChild>,
    focus: CompleteChild,
)
    ensures
        Complete::spec_from_parts(height, hash, true, siblings, focus).spec_hash()
            == Complete::spec_from_parts(height, hash, false, siblings, focus).spec_hash(),
{
}

impl Focus {
    /// The height of this growing subtree.
    pub open spec fn spec_height(self) -> u64 {
        match self {
            Focus::Item(_) => 0,
            Focus::Segment(seg) => seg.spec_height(),
        }
    }

    /// The digest this growing subtree commits to.
    pub open spec fn spec_hash(self) -> Digest {
        match self {
            Focus::Item(leaf) => leaf.spec_hash(),
            Focus::Segment(seg) => seg.spec_hash(),
        }
    }

    /// Whether this growing subtree is marked as must-retain.
    pub open spec fn spec_witnessed(self) -> bool {
        match self {
            Focus::Item(leaf) => leaf.spec_witnessed(),
            Focus::Segment(seg) => seg.spec_witnessed(),
        }
    }

    /// Whether every node along the focus path, down to the leaf, is
    /// marked as must-retain: the state `witness` establishes.
    pub open spec fn path_witnessed(self) -> bool
        decreases self,
    {
        match self {
            Focus::Item(leaf) => leaf.spec_witnessed(),
            Focus::Segment(seg) => seg.path_witnessed(),
        }
    }

    /// Structural soundness, recursively.
    pub closed spec fn wf(self) -> bool
        decreases self,
    {
        match self {
            Focus::Item(_) => true,
            Focus::Segment(seg) => seg.wf(),
        }
    }

    /// Whether this growing subtree is saturated: no further item fits
    /// below it.
    pub open spec fn is_full(self) -> bool
        decreases self,
    {
        match self {
            Focus::Item(_) => true,
            Focus::Segment(seg) => seg.is_full(),
        }
    }

    /// How many items this growing subtree holds, counting each frozen
    /// sibling as the full subtree it froze from.
    pub open spec fn size(self) -> nat
        decreases self,
    {
        match self {
            Focus::Item(_) => 1,
            Focus::Segment(seg) => seg.size(),
        }
    }

    /// The most recently inserted item: the value at the end of the focus
    /// path.
    pub open spec fn last_item(self) -> u64
        decreases self,
    {
        match self {
            Focus::Item(leaf) => leaf.spec_value(),
            Focus::Segment(seg) => seg.last_item(),
        }
    }

    /// The digest this growing subtree commits to.
    pub fn hash(&self) -> (h: Digest)
        ensures
            h == self.spec_hash(),
    {
        match self {
            Focus::Item(leaf) => leaf.hash(),
            Focus::Segment(seg) => seg.hash(),
        }
    }

    /// The height of this growing subtree.
    pub fn height(&self) -> (h: u64)
        ensures
            h == self.spec_height(),
    {
        match self {
            Focus::Item(_) => 0,
            Focus::Segment(seg) => seg.height(),
        }
    }

    /// The minimal growing subtree at the given height, holding one item.
    pub fn singleton(item: u64, height: u64) -> (r: Focus)
        ensures
            r.wf(),
            r.spec_height() == height,
            !r.spec_witnessed(),
            r.size() == 1,
            r.last_item() == item,
            r.spec_hash() == spec_singleton_hash(height, item),
            r.is_full() <==> height == 0,
    {
        if height == 0 {
            Focus::Item(Item::singleton(item))
        } else {
            Focus::Segment(Box::new(Active::singleton(item, height)))
        }
    }

    /// Marks every node along the focus path, down to the leaf, as
    /// must-retain.  Nothing else — in particular no digest — changes, and
    /// a path already fully marked is returned unchanged.
    pub fn witness(self) -> (r: Focus)
        ensures
            r.spec_witnessed(),
            r.path_witnessed(),
            r.spec_hash() == self.spec_hash(),
            r.spec_height() == self.spec_height(),
            r.size() == self.size(),
            r.last_item() == self.last_item(),
            r.is_full() == self.is_full(),
            self.wf() ==> r.wf(),
            self.path_witnessed() ==> r == self,
        decreases self,
    {
        match self {
            Focus::Item(leaf) => Focus::Item(leaf.witness()),
            Focus::Segment(seg) => Focus::Segment(Box::new((*seg).witness())),
        }
    }

    /// Freezes this growing subtree, carrying its digest over unchanged.
    /// The structure is retained exactly when the subtree was witnessed.
    pub fn complete(self) -> (r: CompleteChild)
        requires
            self.wf(),
        ensures
            r.wf(),
            r.spec_height() == self.spec_height(),
            r.spec_hash() == self.spec_hash(),
            r.is_retained() <==> self.spec_witnessed(),
        decreases self,
    {
        match self {
            Focus::Item(leaf) => CompleteChild::Item(leaf.complete()),
            Focus::Segment(seg) => CompleteChild::Node(Box::new((*seg).complete())),
        }
    }

    /// Attempts to insert one item into this growing subtree.
    pub fn insert(self, item: u64) -> (r: Inserted<Focus, CompleteChild>)
        requires
            self.wf(),
        ensures
            (r matches Inserted::Failure(_, _)) <==> item == self.last_item(),
            (r matches Inserted::Full(_, _)) <==> (item != self.last_item() && self.is_full()),
            (r matches Inserted::Success(_)) <==> (item != self.last_item() && !self.is_full()),
            match r {
                Inserted::Success(grown) => grown.wf() && grown.spec_height() == self.spec_height()
                    && grown.spec_witnessed() == self.spec_witnessed() && grown.size() == self.size()
                    + 1 && grown.last_item() == item,
                Inserted::Failure(it, same) => it == item && same == self,
                Inserted::Full(it, frozen) => it == item && frozen.wf() && frozen.spec_height()
                    == self.spec_height() && frozen.spec_hash() == self.spec_hash() && (
                frozen.is_retained() <==> self.spec_witnessed()),
            },
        decreases self,
    {
        match self {
            Focus::Item(leaf) => match leaf.insert(item) {
                Inserted::Success(leaf2) => {
                    proof {
                        assert(false);
                    }
                    Inserted::Failure(item, Focus::Item(leaf2))
                },
                Inserted::Failure(it, leaf2) => Inserted::Failure(it, Focus::Item(leaf2)),
                Inserted::Full(it, frozen) => Inserted::Full(it, CompleteChild::Item(frozen)),
            },
            Focus::Segment(seg) => match (*seg).insert(item) {
                Inserted::Success(seg2) => Inserted::Success(Focus::Segment(Box::new(seg2))),
                Inserted::Failure(it, seg2) => Inserted::Failure(it, Focus::Segment(Box::new(seg2))),
                Inserted::Full(it, frozen) => Inserted::Full(it, CompleteChild::Node(Box::new(frozen))),
            },
        }
    }
}

impl Active {
    /// The height of this segment; at least one.
    pub closed spec fn spec_height(self) -> u64 {
        self.height
    }

    /// The cached digest this segment commits to.
    pub closed spec fn spec_hash(self) -> Digest {
        self.hash
    }

    /// Whether this segment is marked as must-retain.
    pub closed spec fn spec_witnessed(self) -> bool {
        self.witnessed
    }

    /// The frozen siblings to the left of the focus, in order.
    pub closed spec fn spec_siblings(self) -> Three<CompleteChild> {
        self.siblings
    }

    /// The still-growing child on the right.
    pub closed spec fn spec_focus(self) -> Focus {
        self.focus
    }

    /// The digests of this segment's logical children, in order: frozen
    /// siblings first, then the focus.
    pub open spec fn children_hashes(self) -> Seq<Digest> {
        children_hashes_of(self.spec_siblings(), self.spec_focus().spec_hash())
    }

    /// Structural soundness: the focus and every sibling are well formed
    /// one tier down, and the cached digest is exactly the combination of
    /// the children's digests, padded on the right.
    pub closed spec fn wf(self) -> bool
        decreases self,
    {
        &&& self.height >= 1
        &&& self.focus.wf()
        &&& self.focus.spec_height() == self.height - 1
        &&& children_wf(self.siblings, (self.height - 1) as u64)
        &&& self.hash == spec_node(
            self.height,
            nth_or_pad(self.children_hashes(), 0),
            nth_or_pad(self.children_hashes(), 1),
            nth_or_pad(self.children_hashes(), 2),
            nth_or_pad(self.children_hashes(), 3),
        )
    }

    /// Whether this segment is saturated: three frozen siblings and a
    /// saturated focus.
    pub open spec fn is_full(self) -> bool
        decreases self,
    {
        self.spec_siblings()@.len() == 3 && self.spec_focus().is_full()
    }

    /// How many items this segment holds, counting each frozen sibling as
    /// the full subtree it froze from.
    pub open spec fn size(self) -> nat
        decreases self,
    {
        self.spec_siblings()@.len() * pow4((self.spec_height() - 1) as nat)
            + self.spec_focus().size()
    }

    /// The most recently inserted item.
    pub open spec fn last_item(self) -> u64
        decreases self,
    {
        self.spec_focus().last_item()
    }

    /// Whether this segment and every node along its focus path are marked
    /// as must-retain: the state `witness` establishes.
    pub open spec fn path_witnessed(self) -> bool
        decreases self,
    {
        self.spec_witnessed() && self.spec_focus().path_witnessed()
    }

    /// The cached digest of this segment.
    pub fn hash(&self) -> (h: Digest)
        ensures
            h == self.spec_hash(),
    {
        self.hash
    }

    /// The height of this segment.
    pub fn height(&self) -> (h: u64)
        ensures
            h == self.spec_height(),
    {
        self.height
    }

    /// Whether this segment is marked as must-retain.
    pub fn witnessed(&self) -> (w: bool)
        ensures
            w == self.spec_witnessed(),
    {
        self.witnessed
    }

    /// Assembles a segment from frozen siblings and a focus one tier down,
    /// computing the cached digest over the children in order, padded on
    /// the right.
    fn assemble(siblings: Three<CompleteChild>, focus: Focus, witnessed: bool) -> (r: Active)
        requires
            focus.wf(),
            focus.spec_height() < u64::MAX,
            children_wf(siblings, focus.spec_height()),
        ensures
            r.wf(),
            r.spec_height() == focus.spec_height() + 1,
            r.spec_witnessed() == witnessed,
            r.spec_siblings() == siblings,
            r.spec_focus() == focus,
            r.spec_hash() == spec_node(
                r.spec_height(),
                nth_or_pad(children_hashes_of(siblings, focus.spec_hash()), 0),
                nth_or_pad(children_hashes_of(siblings, focus.spec_hash()), 1),
                nth_or_pad(children_hashes_of(siblings, focus.spec_hash()), 2),
                nth_or_pad(children_hashes_of(siblings, focus.spec_hash()), 3),
            ),
    {
        let padding = Digest::padding();
        let focus_hash = focus.hash();
        let height: u64 = focus.height() + 1;
        let (a, b, c, d) = match siblings.elems() {
            Elems::_0 => (focus_hash, padding, padding, padding),
            Elems::_1(s0) => (s0.hash(), focus_hash, padding, padding),
            Elems::_2(s0, s1) => (s0.hash(), s1.hash(), focus_hash, padding),
            Elems::_3(s0, s1, s2) => (s0.hash(), s1.hash(), s2.hash(), focus_hash),
        };
        let hash = Digest::node(height, a, b, c, d);
        let r = Active { height, focus, siblings, witnessed, hash };
        proof {
            let ch = children_hashes_of(r.siblings, r.focus.spec_hash());
            let sibs = r.siblings;
            match sibs {
                Three::_0 => {
                    assert(ch =~= seq![r.focus.spec_hash()]);
                },
                Three::_1(c0) => {
                    assert(ch =~= seq![c0.spec_hash(), r.focus.spec_hash()]);
                },
                Three::_2(c0, c1) => {
                    assert(ch =~= seq![c0.spec_hash(), c1.spec_hash(), r.focus.spec_hash()]);
                },
                Three::_3(c0, c1, c2) => {
                    assert(ch =~= seq![
                        c0.spec_hash(),
                        c1.spec_hash(),
                        c2.spec_hash(),
                        r.focus.spec_hash(),
                    ]);
                },
            }
        }
        r
    }

    /// Builds a segment from frozen siblings and a focus one tier down.
    /// The segment sits one tier above the focus, is not witnessed, and its
    /// cached digest is the combination of the children's digests in order,
    /// padded on the right.
    pub fn from_parts(siblings: Three<CompleteChild>, focus: Focus) -> (r: Active)
        requires
            focus.wf(),
            focus.spec_height() < u64::MAX,
            children_wf(siblings, focus.spec_height()),
        ensures
            r.wf(),
            r.spec_height() == focus.spec_height() + 1,
            !r.spec_witnessed(),
            r.spec_siblings() == siblings,
            r.spec_focus() == focus,
            r.spec_hash() == spec_node(
                r.spec_height(),
                nth_or_pad(children_hashes_of(siblings, focus.spec_hash()), 0),
                nth_or_pad(children_hashes_of(siblings, focus.spec_hash()), 1),
                nth_or_pad(children_hashes_of(siblings, focus.spec_hash()), 2),
                nth_or_pad(children_hashes_of(siblings, focus.spec_hash()), 3),
            ),
    {
        Self::assemble(siblings, focus, false)
    }

    /// The minimal segment at the given height, holding exactly one item:
    /// no siblings, a single-item focus, not witnessed.
    pub fn singleton(item: u64, height: u64) -> (r: Active)
        requires
            height >= 1,
        ensures
            r.wf(),
            r.spec_height() == height,
            !r.spec_witnessed(),
            r.spec_siblings() == Three::<CompleteChild>::_0,
            !r.is_full(),
            r.size() == 1,
            r.last_item() == item,
            r.spec_hash() == spec_singleton_hash(height, item),
            r.spec_focus().wf(),
            r.spec_focus().spec_height() == height - 1,
            !r.spec_focus().spec_witnessed(),
            r.spec_focus().size() == 1,
            r.spec_focus().last_item() == item,
            r.spec_focus().spec_hash() == spec_singleton_hash((height - 1) as u64, item),
            r.spec_focus().is_full() <==> height == 1,
        decreases height,
    {
        let focus: Focus = if height == 1 {
            Focus::Item(Item::singleton(item))
        } else {
            Focus::Segment(Box::new(Active::singleton(item, height - 1)))
        };
        assert(children_wf(Three::_0, (height - 1) as u64));
        let r = Self::assemble(Three::new(), focus, false);
        proof {
            let fh = focus.spec_hash();
            let ch = children_hashes_of(Three::_0, fh);
            assert(sibling_hashes(Three::_0) =~= Seq::<Digest>::empty());
            assert(ch.len() == 1 && ch[0] == fh);
            assert(nth_or_pad(ch, 0) == fh);
            assert(fh == spec_singleton_hash((height - 1) as u64, item));
            assert(r.spec_hash() == spec_singleton_hash(height, item));
        }
        r
    }

    /// Marks this segment, and transitively its whole current focus path,
    /// as must-retain — also when the segment's own flag is already set,
    /// since an insertion may have started a fresh, unmarked focus since
    /// the flag was first set.  Frozen siblings keep whatever retention
    /// state they froze with; no digest changes; a segment whose focus
    /// path is already fully marked is returned unchanged, which makes the
    /// call idempotent.
    pub fn witness(self) -> (r: Active)
        ensures
            r.spec_witnessed(),
            r.path_witnessed(),
            r.spec_focus().spec_witnessed(),
            r.spec_hash() == self.spec_hash(),
            r.spec_height() == self.spec_height(),
            r.spec_siblings() == self.spec_siblings(),
            r.size() == self.size(),
            r.last_item() == self.last_item(),
            r.is_full() == self.is_full(),
            self.wf() ==> r.wf(),
            self.path_witnessed() ==> r == self,
        decreases self,
    {
        let Active { height, focus, siblings, witnessed: _, hash } = self;
        Active { height, focus: focus.witness(), siblings, witnessed: true, hash }
    }

    /// Freezes this segment into its immutable counterpart.  The cached
    /// digest is carried over verbatim — the combination rule is the same
    /// on both sides — and the focus is frozen recursively.  The structure
    /// is retained exactly when the segment was witnessed; the frozen
    /// siblings are carried over exactly as they are, each keeping the
    /// retention state it froze with, and the frozen focus keeps the focus's
    /// own witness state.
    pub fn complete(self) -> (r: Complete)
        requires
            self.wf(),
        ensures
            r.wf(),
            r.spec_height() == self.spec_height(),
            r.spec_hash() == self.spec_hash(),
            r.is_retained() <==> self.spec_witnessed(),
            self.spec_witnessed() ==> (r.spec_children() matches Some(c) && c.0
                == self.spec_siblings() && c.1.spec_hash() == self.spec_focus().spec_hash() && (
            c.1.is_retained() <==> self.spec_focus().spec_witnessed())),
            !self.spec_witnessed() ==> r.spec_children() is None,
        decreases self,
    {
        let Active { height, focus, siblings, witnessed, hash } = self;
        let frozen_focus = focus.complete();
        Complete::from_parts_unchecked(height, hash, witnessed, siblings, frozen_focus)
    }

    /// Attempts to insert one item at the frontier of this segment.
    ///
    /// The attempt is delegated to the focus.  A rejection comes back
    /// unchanged (`Failure`, the segment exactly as it was).  A saturated
    /// focus is frozen and appended to the siblings; with room left a fresh
    /// single-item focus takes its place (`Success`), and with none the
    /// whole segment freezes under its already-cached digest and the item
    /// is carried one tier up (`Full`).
    pub fn insert(self, item: u64) -> (r: Inserted<Active, Complete>)
        requires
            self.wf(),
        ensures
            (r matches Inserted::Failure(_, _)) <==> item == self.last_item(),
            (r matches Inserted::Full(_, _)) <==> (item != self.last_item() && self.is_full()),
            (r matches Inserted::Success(_)) <==> (item != self.last_item() && !self.is_full()),
            match r {
                Inserted::Success(grown) => grown.wf() && grown.spec_height() == self.spec_height()
                    && grown.spec_witnessed() == self.spec_witnessed() && grown.size() == self.size()
                    + 1 && grown.last_item() == item && (if self.spec_focus().is_full() {
                    // The saturated focus froze, kept its digest and its own
                    // retention state, and was appended to the siblings; a
                    // fresh, unmarked single-item focus took its place.
                    ({
                        let frozen = grown.spec_siblings()@.last();
                        &&& grown.spec_siblings() == self.spec_siblings().spec_push(frozen)
                        &&& frozen.wf()
                        &&& frozen.spec_height() == self.spec_height() - 1
                        &&& frozen.spec_hash() == self.spec_focus().spec_hash()
                        &&& (frozen.is_retained() <==> self.spec_focus().spec_witnessed())
                        &&& grown.spec_focus().spec_hash() == spec_singleton_hash(
                            (self.spec_height() - 1) as u64,
                            item,
                        )
                        &&& !grown.spec_focus().spec_witnessed()
                        &&& grown.spec_focus().size() == 1
                        &&& (grown.spec_focus().is_full() <==> self.spec_height() == 1)
                    })
                } else {
                    // The focus absorbed the item itself; the siblings are
                    // untouched and the focus keeps its own retention mark.
                    &&& grown.spec_siblings() == self.spec_siblings()
                    &&& grown.spec_focus().spec_witnessed()
                        == self.spec_focus().spec_witnessed()
                    &&& grown.spec_focus().size() == self.spec_focus().size() + 1
                    &&& grown.spec_focus().last_item() == item
                }),
                Inserted::Failure(it, same) => it == item && same == self,
                Inserted::Full(it, frozen) => it == item && frozen.wf() && frozen.spec_height()
                    == self.spec_height() && frozen.spec_hash() == self.spec_hash() && (
                frozen.is_retained() <==> self.spec_witnessed()),
            },
        decreases self,
    {
        let Active { height, focus, siblings, witnessed, hash } = self;
        match focus.insert(item) {
            Inserted::Success(focus2) => Inserted::Success(
                Self::assemble(siblings, focus2, witnessed),
            ),
            Inserted::Failure(it, focus2) => Inserted::Failure(
                it,
                Active { height, focus: focus2, siblings, witnessed, hash },
            ),
            Inserted::Full(it, frozen_focus) => match siblings.push(frozen_focus) {
                Ok(siblings2) => {
                    proof {
                        lemma_children_wf_push(
                            self.siblings,
                            frozen_focus,
                            (height - 1) as u64,
                        );
                        lemma_sibling_hashes_push(self.siblings, frozen_focus);
                    }
                    let focus2 = Focus::singleton(item, height - 1);
                    let grown = Self::assemble(siblings2, focus2, witnessed);
                    proof {
                        lemma_size_after_overflow(self, grown);
                    }
                    Inserted::Success(grown)
                },
                Err((siblings3, frozen_back)) => {
                    proof {
                        assert(children_hashes_of(siblings3, frozen_back.spec_hash())
                            == self.children_hashes());
                    }
                    Inserted::Full(
                        it,
                        Complete::from_parts_unchecked(
                            height,
                            hash,
                            witnessed,
                            siblings3,
                            frozen_back,
                        ),
                    )
                },
            },
        }
    }
}

/// Appending one more frozen child keeps every sibling well formed at the
/// common height.
proof fn lemma_children_wf_push(s: Three<CompleteChild>, c: CompleteChild, height: u64)
    requires
        children_wf(s, height),
        c.wf(),
        c.spec_height() == height,
    ensures
        children_wf(s.spec_push(c), height),
{
}

/// Appending one more frozen child appends its digest to the sibling
/// digests.
proof fn lemma_sibling_hashes_push(s: Three<CompleteChild>, c: CompleteChild)
    requires
        s@.len() < 3,
    ensures
        sibling_hashes(s.spec_push(c)) == sibling_hashes(s).push(c.spec_hash()),
{
    match s {
        Three::_0 => {
            assert(sibling_hashes(s.spec_push(c)) =~= sibling_hashes(s).push(c.spec_hash()));
        },
        Three::_1(a) => {
            assert(sibling_hashes(s.spec_push(c)) =~= sibling_hashes(s).push(c.spec_hash()));
        },
        Three::_2(a, b) => {
            assert(sibling_hashes(s.spec_push(c)) =~= sibling_hashes(s).push(c.spec_hash()));
        },
        Three::_3(a, b, c3) => {
            assert(false);
        },
    }
}

/// Four to any power is at least one.
proof fn lemma_pow4_pos(n: nat)
    ensures
        pow4(n) >= 1,
    decreases n,
{
    if n > 0 {
        lemma_pow4_pos((n - 1) as nat);
    }
}

/// A saturated focus holds exactly the capacity of its height.
proof fn lemma_full_size_focus(f: Focus)
    requires
        f.wf(),
        f.is_full(),
    ensures
        f.size() == pow4(f.spec_height() as nat),
{
    lemma_capacity_focus(f);
}

/// Bookkeeping for the overflow-absorbing case: one more sibling and a
/// fresh single-item focus hold one more item than the saturated focus
/// did.
proof fn lemma_size_after_overflow(before: Active, after: Active)
    requires
        before.wf(),
        before.spec_focus().is_full(),
        after.spec_height() == before.spec_height(),
        after.spec_siblings()@.len() == before.spec_siblings()@.len() + 1,
        before.spec_siblings()@.len() < 3,
        after.spec_focus().size() == 1,
    ensures
        after.size() == before.size() + 1,
{
    let p: nat = pow4((before.spec_height() - 1) as nat);
    lemma_full_size_focus(before.spec_focus());
    let len: nat = before.spec_siblings()@.len();
    assert((len + 1) * p == len * p + p) by (nonlinear_arith);
}

/// Capacity of a growing subtree: it always holds between one item and the
/// capacity of its height, and it is saturated exactly when it holds that
/// capacity.
pub proof fn lemma_capacity_focus(f: Focus)
    requires
        f.wf(),
    ensures
        1 <= f.size(),
        f.size() <= pow4(f.spec_height() as nat),
        f.is_full() <==> f.size() == pow4(f.spec_height() as nat),
    decreases f,
{
    match f {
        Focus::Item(_) => {
        },
        Focus::Segment(seg) => {
            lemma_capacity(*seg);
        },
    }
}

/// Capacity of a segment: it always holds between one item and the
/// capacity of its height (four to the height), and it is saturated
/// exactly when it holds that capacity — so a segment accepts exactly as
/// many items as its height has room for before it overflows.
pub proof fn lemma_capacity(a: Active)
    requires
        a.wf(),
    ensures
        1 <= a.size(),
        a.size() <= pow4(a.spec_height() as nat),
        a.is_full() <==> a.size() == pow4(a.spec_height() as nat),
    decreases a,
{
    let p: nat = pow4((a.spec_height() - 1) as nat);
    let len: nat = a.spec_siblings()@.len();
    let fs: nat = a.spec_focus().size();
    lemma_capacity_focus(a.spec_focus());
    lemma_pow4_pos((a.spec_height() - 1) as nat);
    assert(pow4(a.spec_height() as nat) == 4 * p);
    assert(len <= 3);
    assert(a.size() == len * p + fs);
    assert(len * p <= 3 * p) by (nonlinear_arith)
        requires
            len <= 3,
            p >= 0,
    ;
    if a.is_full() {
        assert(len == 3 && fs == p);
    } else {
        if len == 3 {
            assert(!a.spec_focus().is_full());
            assert(fs < p);
        } else {
            assert(len * p <= 2 * p) by (nonlinear_arith)
                requires
                    len <= 2,
                    p >= 0,
            ;
            assert(len * p + fs < 4 * p);
        }
    }
}

/// The cached digest of a well-formed segment is exactly the 4-ary
/// combination, at the segment's height, of its children's digests in
/// left-to-right order, padded on the right with the padding digest.
pub proof fn lemma_hash_composition(a: Active)
    requires
        a.wf(),
    ensures
        a.spec_hash() == spec_node(
            a.spec_height(),
            nth_or_pad(a.children_hashes(), 0),
            nth_or_pad(a.children_hashes(), 1),
            nth_or_pad(a.children_hashes(), 2),
            nth_or_pad(a.children_hashes(), 3),
        ),
        a.children_hashes() == sibling_hashes(a.spec_siblings()).push(a.spec_focus().spec_hash()),
        a.children_hashes().len() == a.spec_siblings()@.len() + 1,
{
    match a.spec_siblings() {
        Three::_0 => {
        },
        Three::_1(c0) => {
        },
        Three::_2(c0, c1) => {
        },
        Three::_3(c0, c1, c2) => {
        },
    }
}

} // verus!

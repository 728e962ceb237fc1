use frontier::Active;
use frontier::Digest;
use frontier::Elems;
use frontier::Focus;
use frontier::Inserted;
use frontier::Item;
use frontier::Three;

fn unwrap_success(r: Inserted<Active, frontier::Complete>) -> Active {
    match r {
        Inserted::Success(a) => a,
        Inserted::Failure(_, _) => panic!("expected success, found a rejection"),
        Inserted::Full(_, _) => panic!("expected success, found an overflow"),
    }
}

/// Builds a height-1 segment holding the four given (pairwise distinct)
/// items.
fn full_height_one(items: [u64; 4]) -> Active {
    let mut a = Active::singleton(items[0], 1);
    for i in 1..4 {
        a = unwrap_success(a.insert(items[i]));
    }
    a
}

#[test]
fn hash_composition_height_one() {
    let pad = Digest::padding();
    let a = Active::singleton(10, 1);
    assert_eq!(a.hash(), Digest::node(1, Digest::of_item(10), pad, pad, pad));
    let a = unwrap_success(a.insert(20));
    assert_eq!(
        a.hash(),
        Digest::node(1, Digest::of_item(10), Digest::of_item(20), pad, pad)
    );
    let a = unwrap_success(a.insert(30));
    assert_eq!(
        a.hash(),
        Digest::node(
            1,
            Digest::of_item(10),
            Digest::of_item(20),
            Digest::of_item(30),
            pad
        )
    );
    let a = unwrap_success(a.insert(40));
    assert_eq!(
        a.hash(),
        Digest::node(
            1,
            Digest::of_item(10),
            Digest::of_item(20),
            Digest::of_item(30),
            Digest::of_item(40)
        )
    );
}

#[test]
fn hash_composition_height_two() {
    let pad = Digest::padding();
    let a = Active::singleton(9, 2);
    let leaf_tier = Digest::node(1, Digest::of_item(9), pad, pad, pad);
    assert_eq!(a.hash(), Digest::node(2, leaf_tier, pad, pad, pad));
}

#[test]
fn completion_preserves_hash() {
    let a = Active::singleton(3, 2);
    let a = unwrap_success(a.insert(4));
    let before = a.hash();
    let frozen = a.complete();
    assert_eq!(frozen.hash(), before);
    assert_eq!(frozen.height(), 2);
}

#[test]
fn order_sensitivity() {
    let xy = full_height_one([1, 2, 3, 4]).complete().hash();
    let yx = full_height_one([2, 1, 3, 4]).complete().hash();
    assert_ne!(xy, yx);
}

#[test]
fn capacity_and_overflow_height_one() {
    // A height-1 segment accepts exactly four items...
    let mut a = Active::singleton(1, 1);
    for item in 2..=4u64 {
        a = unwrap_success(a.insert(item));
    }
    let saturated_hash = a.hash();
    // ...and the fifth insertion overflows, carrying the item and the
    // frozen first four, whose digest is exactly the combination of the
    // four item digests in order.
    match a.insert(5) {
        Inserted::Full(item, frozen) => {
            assert_eq!(item, 5);
            assert_eq!(frozen.hash(), saturated_hash);
            assert_eq!(
                frozen.hash(),
                Digest::node(
                    1,
                    Digest::of_item(1),
                    Digest::of_item(2),
                    Digest::of_item(3),
                    Digest::of_item(4)
                )
            );
        }
        _ => panic!("the fifth insertion must overflow"),
    }
}

#[test]
fn capacity_and_overflow_height_two() {
    // A height-2 segment accepts exactly sixteen items.
    let mut a = Active::singleton(1, 2);
    for item in 2..=16u64 {
        a = unwrap_success(a.insert(item));
    }
    // The seventeenth overflows, and the frozen digest is the combination
    // of the four leaf-tier digests.
    let mut groups = [Digest::padding(); 4];
    for g in 0..4u64 {
        groups[g as usize] = Digest::node(
            1,
            Digest::of_item(4 * g + 1),
            Digest::of_item(4 * g + 2),
            Digest::of_item(4 * g + 3),
            Digest::of_item(4 * g + 4),
        );
    }
    match a.insert(17) {
        Inserted::Full(item, frozen) => {
            assert_eq!(item, 17);
            assert_eq!(
                frozen.hash(),
                Digest::node(2, groups[0], groups[1], groups[2], groups[3])
            );
        }
        _ => panic!("the seventeenth insertion must overflow"),
    }
}

#[test]
fn witness_is_monotonic_across_inserts() {
    let a = Active::singleton(1, 1);
    assert!(!a.witnessed());
    let a = a.witness();
    assert!(a.witnessed());
    // Witnessing twice changes nothing.
    let a = a.witness();
    assert!(a.witnessed());
    // Inserting further items keeps the mark.
    let a = unwrap_success(a.insert(2));
    assert!(a.witnessed());
    let a = unwrap_success(a.insert(3));
    assert!(a.witnessed());
}

#[test]
fn witness_does_not_change_hash() {
    let a = Active::singleton(8, 1);
    let a = unwrap_success(a.insert(9));
    let before = a.hash();
    let a = a.witness();
    assert_eq!(a.hash(), before);
}

#[test]
fn witness_decides_retention_at_completion() {
    let pruned = full_height_one([1, 2, 3, 4]).complete();
    assert!(!pruned.retained());
    let retained = full_height_one([1, 2, 3, 4]).witness().complete();
    assert!(retained.retained());
}

#[test]
fn overflow_carry_keeps_witness_state() {
    let mut a = full_height_one([1, 2, 3, 4]);
    match a.insert(5) {
        Inserted::Full(_, frozen) => assert!(!frozen.retained()),
        _ => panic!("the fifth insertion must overflow"),
    }
    a = full_height_one([1, 2, 3, 4]).witness();
    match a.insert(5) {
        Inserted::Full(_, frozen) => assert!(frozen.retained()),
        _ => panic!("the fifth insertion must overflow"),
    }
}

#[test]
fn witness_scope_spares_already_frozen_siblings() {
    // Freeze the first leaf before witnessing, witness while the second
    // leaf is the focus, and let the third and fourth leaves freeze after.
    let a = Active::singleton(1, 1);
    let a = unwrap_success(a.insert(2));
    let a = a.witness();
    let a = unwrap_success(a.insert(3));
    let a = unwrap_success(a.insert(4));
    let frozen = a.complete();
    assert!(frozen.retained());
    let (siblings, focus_child) = frozen.children().expect("a witnessed node keeps its children");
    match siblings.elems() {
        Elems::_3(s0, s1, s2) => {
            // The leaf frozen before the witness call keeps its pruned
            // state; the leaf that was the focus at that moment was marked;
            // the leaf that froze afterwards was never marked.
            assert!(!s0.retained());
            assert!(s1.retained());
            assert!(!s2.retained());
            assert_eq!(s0.hash(), Digest::of_item(1));
            assert_eq!(s1.hash(), Digest::of_item(2));
            assert_eq!(s2.hash(), Digest::of_item(3));
        }
        _ => panic!("three frozen siblings expected"),
    }
    assert!(!focus_child.retained());
    assert_eq!(focus_child.hash(), Digest::of_item(4));
}

#[test]
fn witnessing_again_marks_the_fresh_focus() {
    // The first witness call marks leaf 1; the insert of 2 freezes leaf 1
    // and starts a fresh, unmarked focus under a still-set flag.  The
    // second witness call must reach that fresh focus, so leaf 2 freezes
    // retained; leaves 3 and 4 arrive afterwards and freeze pruned.
    let a = Active::singleton(1, 1);
    let a = a.witness();
    let a = unwrap_success(a.insert(2));
    assert!(a.witnessed());
    let a = a.witness();
    let a = unwrap_success(a.insert(3));
    let a = unwrap_success(a.insert(4));
    let frozen = a.complete();
    let (siblings, focus_child) = frozen.children().expect("a witnessed node keeps its children");
    match siblings.elems() {
        Elems::_3(s0, s1, s2) => {
            assert!(s0.retained());
            assert!(s1.retained());
            assert!(!s2.retained());
        }
        _ => panic!("three frozen siblings expected"),
    }
    assert!(!focus_child.retained());
}

#[test]
fn pruned_node_keeps_no_children() {
    let frozen = full_height_one([1, 2, 3, 4]).complete();
    assert!(!frozen.retained());
    assert!(frozen.children().is_none());
}

#[test]
fn pruned_and_retained_report_the_same_hash() {
    let pruned = full_height_one([5, 6, 7, 8]).complete();
    let retained = full_height_one([5, 6, 7, 8]).witness().complete();
    assert!(!pruned.retained());
    assert!(retained.retained());
    assert_eq!(pruned.hash(), retained.hash());
}

#[test]
fn rejection_is_a_no_op() {
    let a = full_height_one([1, 2, 3, 4]);
    let before_hash = a.hash();
    let reference = full_height_one([1, 2, 3, 4]);
    // Inserting the most recently inserted item again is rejected, and the
    // returned segment is structurally identical to the input.
    match a.insert(4) {
        Inserted::Failure(item, same) => {
            assert_eq!(item, 4);
            assert_eq!(same.hash(), before_hash);
            assert_eq!(same, reference);
        }
        _ => panic!("a duplicate of the last item must be rejected"),
    }
}

#[test]
fn rejection_propagates_from_deep_leaves() {
    let a = Active::singleton(1, 3);
    let a = unwrap_success(a.insert(2));
    match a.insert(2) {
        Inserted::Failure(item, _) => assert_eq!(item, 2),
        _ => panic!("a duplicate of the last item must be rejected"),
    }
}

#[test]
fn segment_reports_its_height() {
    assert_eq!(Active::singleton(1, 1).height(), 1);
    assert_eq!(Active::singleton(1, 5).height(), 5);
}

#[test]
fn from_parts_matches_singleton() {
    let built = Active::from_parts(Three::new(), Focus::singleton(5, 0));
    let direct = Active::singleton(5, 1);
    assert_eq!(built, direct);
    assert_eq!(built.hash(), direct.hash());
}

#[test]
fn three_pushes_in_order_until_full() {
    let t: Three<u64> = Three::new();
    assert_eq!(t.len(), 0);
    let t = t.push(10).unwrap();
    let t = t.push(20).unwrap();
    let t = t.push(30).unwrap();
    assert_eq!(t.len(), 3);
    match t.elems() {
        Elems::_3(a, b, c) => {
            assert_eq!((*a, *b, *c), (10, 20, 30));
        }
        _ => panic!("three elements expected"),
    }
    match t.push(40) {
        Err((orig, rejected)) => {
            assert_eq!(rejected, 40);
            assert_eq!(orig.len(), 3);
        }
        Ok(_) => panic!("a full container must reject a fourth element"),
    }
}

#[test]
fn leaf_freezes_like_its_tree() {
    let leaf = Item::singleton(11);
    assert_eq!(leaf.hash(), Digest::of_item(11));
    let pruned = Item::singleton(11).complete();
    let retained = Item::singleton(11).witness().complete();
    assert!(!pruned.retained());
    assert!(retained.retained());
    assert_eq!(pruned.hash(), retained.hash());
    assert_eq!(pruned.hash(), Digest::of_item(11));
}

#[test]
fn leaf_rejects_its_own_item() {
    let leaf = Item::singleton(11);
    match leaf.insert(11) {
        Inserted::Failure(item, same) => {
            assert_eq!(item, 11);
            assert_eq!(same.hash(), Digest::of_item(11));
        }
        _ => panic!("a duplicate must be rejected at the leaf"),
    }
    let leaf = Item::singleton(11);
    match leaf.insert(12) {
        Inserted::Full(item, frozen) => {
            assert_eq!(item, 12);
            assert_eq!(frozen.hash(), Digest::of_item(11));
        }
        _ => panic!("a distinct item must overflow the leaf"),
    }
}

#[test]
fn padding_differs_from_item_digests() {
    assert_ne!(Digest::padding(), Digest::of_item(0));
    assert_ne!(Digest::node(1, Digest::padding(), Digest::padding(), Digest::padding(), Digest::padding()), Digest::padding());
}

#[test]
fn node_rule_separates_heights() {
    let h = Digest::of_item(1);
    let pad = Digest::padding();
    assert_ne!(Digest::node(1, h, pad, pad, pad), Digest::node(2, h, pad, pad, pad));
}

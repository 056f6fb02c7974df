//! The spatial index behind the window indexes: an `rstar` r-tree of
//! rectangles on the integer grid, each tagged with the slot it belongs to.
//!
//! Each stored element is taken by its plain value
//! `(left, top, right, bottom, slot)`: the rectangle's lower corner, its
//! upper corner (both inclusive, as `rstar` treats them) and the slot.

use rstar::primitives::{GeomWithData, Rectangle};
use rstar::RTree;
use vstd::multiset::Multiset;
use vstd::prelude::*;

verus! {

/// An `rstar` r-tree of tagged rectangles, held in a private field; its
/// contents are known only through `window_entries`.
#[verifier::external_body]
pub struct WindowTree {
    tree: RTree<GeomWithData<Rectangle<[i64; 2]>, usize>>,
}

/// The largest coordinate magnitude an element may have. Inside it, the
/// areas, margins and squared center distances that `rstar` computes in
/// `i64` while choosing where to insert cannot overflow.
pub const ENTRY_COORDINATE_LIMIT: i64 = 268_435_456;

/// What the tree holds, each element as `(left, top, right, bottom, slot)`.
pub uninterp spec fn window_entries(
    tree: WindowTree,
) -> Multiset<(i64, i64, i64, i64, usize)>;

/// The point `(x, y)` lies in the element's rectangle, bounds included.
pub open spec fn entry_holds(entry: (i64, i64, i64, i64, usize), x: i64, y: i64) -> bool {
    entry.0 <= x <= entry.2 && entry.1 <= y <= entry.3
}

/// All four corner coordinates of the element lie within the limit.
pub open spec fn entry_bounded(entry: (i64, i64, i64, i64, usize)) -> bool {
    &&& -ENTRY_COORDINATE_LIMIT <= entry.0 <= ENTRY_COORDINATE_LIMIT
    &&& -ENTRY_COORDINATE_LIMIT <= entry.1 <= ENTRY_COORDINATE_LIMIT
    &&& -ENTRY_COORDINATE_LIMIT <= entry.2 <= ENTRY_COORDINATE_LIMIT
    &&& -ENTRY_COORDINATE_LIMIT <= entry.3 <= ENTRY_COORDINATE_LIMIT
}

/// Every element of the multiset is bounded.
pub open spec fn entries_bounded(entries: Multiset<(i64, i64, i64, i64, usize)>) -> bool {
    forall|e: (i64, i64, i64, i64, usize)| entries.count(e) > 0 ==> entry_bounded(e)
}

/// `RTree::new`: the new tree holds nothing.
#[verifier::external_body]
pub(crate) fn new_window_tree() -> (tree: WindowTree)
    ensures
        window_entries(tree) == Multiset::<(i64, i64, i64, i64, usize)>::empty(),
{
    WindowTree { tree: RTree::new() }
}

/// `RTree::insert` of the rectangle with corners `[left, top]` and
/// `[right, bottom]` tagged with `slot`: the element is added once more,
/// nothing else changes.
#[verifier::external_body]
pub(crate) fn insert_window(
    tree: &mut WindowTree,
    left: i64,
    top: i64,
    right: i64,
    bottom: i64,
    slot: usize,
)
    requires
        left <= right,
        top <= bottom,
        entry_bounded((left, top, right, bottom, slot)),
        entries_bounded(window_entries(*old(tree))),
    ensures
        window_entries(*final(tree)) == window_entries(*old(tree)).insert(
            (left, top, right, bottom, slot),
        ),
{
    tree.tree.insert(GeomWithData::new(Rectangle::from_corners([left, top], [right, bottom]), slot))
}

/// `RTree::remove` of an element equal to the given one: when one is held,
/// exactly one copy leaves and `true` is returned; otherwise nothing
/// changes and `false` is returned.
#[verifier::external_body]
pub(crate) fn remove_window(
    tree: &mut WindowTree,
    left: i64,
    top: i64,
    right: i64,
    bottom: i64,
    slot: usize,
) -> (removed: bool)
    requires
        left <= right,
        top <= bottom,
    ensures
        removed == (window_entries(*old(tree)).count((left, top, right, bottom, slot)) > 0),
        window_entries(*final(tree)) == window_entries(*old(tree)).remove(
            (left, top, right, bottom, slot),
        ),
{
    tree.tree.remove(&GeomWithData::new(Rectangle::from_corners([left, top], [right, bottom]), slot)).is_some()
}

/// `RTree::locate_all_at_point`: each element whose rectangle holds the
/// point, bounds included, handed out as its plain value. The order in
/// which they come is that of the tree's traversal and is left unsaid.
#[verifier::external_body]
pub(crate) fn windows_at_point(
    tree: &WindowTree,
    x: i64,
    y: i64,
) -> (found: Vec<(i64, i64, i64, i64, usize)>)
    ensures
        found@.to_multiset() == window_entries(*tree).filter(
            |e: (i64, i64, i64, i64, usize)| entry_holds(e, x, y),
        ),
{
    tree.tree.locate_all_at_point([x, y]).map(|g| {
        let (lower, upper) = (g.geom().lower(), g.geom().upper());
        (lower[0], lower[1], upper[0], upper[1], g.data)
    }).collect()
}

/// `RTree::size`: the number of elements held.
#[verifier::external_body]
pub(crate) fn window_count(tree: &WindowTree) -> (n: usize)
    ensures
        n == window_entries(*tree).len(),
{
    tree.tree.size()
}

} // verus!

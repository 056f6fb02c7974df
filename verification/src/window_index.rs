//! Values kept in slots, each with a window on the tile grid, and a spatial
//! index that finds the slots whose window holds a given cell.
//!
//! Slots are handed out in order and never reused. The spatial index holds
//! exactly one element per slot in use: the slot's window and its number.

use crate::model::{IPoint, IRect};
use crate::spatial::{
    entries_bounded, entry_bounded, entry_holds, insert_window, new_window_tree, remove_window,
    window_count, window_entries, windows_at_point, WindowTree, ENTRY_COORDINATE_LIMIT,
};
use vstd::prelude::*;

verus! {

broadcast use vstd::multiset::group_multiset_axioms, vstd::multiset::group_multiset_properties,
    vstd::seq_lib::group_to_multiset_ensures;

/// The element the spatial index holds for a window: its inclusive corners
/// and the slot it belongs to.
pub open spec fn window_entry(window: IRect, slot: usize) -> (i64, i64, i64, i64, usize) {
    (
        window.left() as i64,
        window.top() as i64,
        (window.right() - 1) as i64,
        (window.bottom() - 1) as i64,
        slot,
    )
}

/// A window is at least one cell wide and high, and its corners lie within
/// the limit of the spatial index.
pub open spec fn window_fits(window: IRect) -> bool {
    &&& window.size.width >= 1
    &&& window.size.height >= 1
    &&& -ENTRY_COORDINATE_LIMIT <= window.left()
    &&& -ENTRY_COORDINATE_LIMIT <= window.top()
    &&& window.right() - 1 <= ENTRY_COORDINATE_LIMIT
    &&& window.bottom() - 1 <= ENTRY_COORDINATE_LIMIT
}

/// The element for a window, computed.
fn entry_of(window: &IRect, slot: usize) -> (e: (i64, i64, i64, i64, usize))
    requires
        window_fits(*window),
    ensures
        e == window_entry(*window, slot),
        entry_bounded(e),
        e.0 <= e.2,
        e.1 <= e.3,
{
    let left = window.top_left.x;
    let top = window.top_left.y;
    let right = (left as i128 + window.size.width as i128 - 1) as i64;
    let bottom = (top as i128 + window.size.height as i128 - 1) as i64;
    (left, top, right, bottom, slot)
}

/// The element `e` is the one the slots hold for the slot it names.
pub open spec fn is_entry_of<T>(slots: Seq<Option<(IRect, T)>>, e: (i64, i64, i64, i64, usize)) -> bool {
    &&& e.4 < slots.len()
    &&& slots[e.4 as int] is Some
    &&& window_entry(slots[e.4 as int]->Some_0.0, e.4) == e
}

/// How many slots are in use.
pub open spec fn count_live<T>(slots: Seq<Option<T>>) -> nat
    decreases slots.len(),
{
    if slots.len() == 0 {
        0
    } else {
        count_live(slots.drop_last()) + if slots.last() is Some {
            1nat
        } else {
            0nat
        }
    }
}

proof fn lemma_count_live_le_len<T>(slots: Seq<Option<T>>)
    ensures
        count_live(slots) <= slots.len(),
    decreases slots.len(),
{
    if slots.len() > 0 {
        lemma_count_live_le_len(slots.drop_last());
    }
}

proof fn lemma_count_live_push<T>(slots: Seq<Option<T>>, v: Option<T>)
    ensures
        count_live(slots.push(v)) == count_live(slots) + if v is Some {
            1nat
        } else {
            0nat
        },
{
    assert(slots.push(v).drop_last() =~= slots);
}

proof fn lemma_count_live_update<T>(slots: Seq<Option<T>>, i: int, v: Option<T>)
    requires
        0 <= i < slots.len(),
    ensures
        count_live(slots.update(i, v)) + (if slots[i] is Some {
            1nat
        } else {
            0nat
        }) == count_live(slots) + (if v is Some {
            1nat
        } else {
            0nat
        }),
    decreases slots.len(),
{
    if i == slots.len() - 1 {
        assert(slots.update(i, v).drop_last() =~= slots.drop_last());
    } else {
        lemma_count_live_update(slots.drop_last(), i, v);
        assert(slots.update(i, v).drop_last() =~= slots.drop_last().update(i, v));
    }
}

/// `keys` lists, without repetition, exactly the slots in use whose window
/// holds `cell`.
pub open spec fn lists_windows_at<T>(entries: Map<usize, (IRect, T)>, cell: IPoint, keys: Seq<usize>) -> bool {
    &&& keys.no_duplicates()
    &&& forall|i: int|
        0 <= i < keys.len() ==> entries.contains_key(#[trigger] keys[i]) && entries[keys[i]].0.holds_point(cell)
    &&& forall|k: usize|
        entries.contains_key(k) && entries[k].0.holds_point(cell) ==> #[trigger] keys.contains(k)
}

/// The state behind a window index: the spatial index, the slots, and how
/// many of them are in use.
struct WindowSlots<T> {
    rtree: WindowTree,
    slots: Vec<Option<(IRect, T)>>,
    live: usize,
}

impl<T> WindowSlots<T> {
    /// The slots in use, each with its window and value.
    pub closed spec fn entries(self) -> Map<usize, (IRect, T)> {
        Map::new(
            |k: usize| k < self.slots@.len() && self.slots@[k as int] is Some,
            |k: usize| self.slots@[k as int]->Some_0,
        )
    }

    /// How many slots are in use.
    pub closed spec fn live_count(self) -> nat {
        count_live(self.slots@)
    }

    /// How many slots have been handed out; the next one has this number.
    pub closed spec fn keys_issued(self) -> nat {
        self.slots@.len()
    }

    /// The index's internal consistency: every window fits, and the spatial
    /// index holds exactly one element per slot in use.
    pub closed spec fn wf(self) -> bool {
        &&& forall|i: int|
            0 <= i < self.slots@.len() && #[trigger] self.slots@[i] is Some ==> window_fits(
                self.slots@[i]->Some_0.0,
            )
        &&& forall|e: (i64, i64, i64, i64, usize)|
            #[trigger] window_entries(self.rtree).count(e) == if is_entry_of(self.slots@, e) {
                1nat
            } else {
                0nat
            }
        &&& window_entries(self.rtree).len() == self.live
        &&& count_live(self.slots@) == self.live
    }

    /// Every window in use fits the spatial index.
    pub proof fn lemma_windows_fit(self)
        requires
            self.wf(),
        ensures
            forall|k: usize| #[trigger] self.entries().contains_key(k) ==> window_fits(self.entries()[k].0),
            self.live_count() <= self.keys_issued(),
    {
        assert forall|k: usize| #[trigger] self.entries().contains_key(k) implies window_fits(self.entries()[k].0) by {
            assert(self.slots@[k as int] is Some);
        }
        lemma_count_live_le_len(self.slots@);
    }

    proof fn lemma_entries_bounded(self)
        requires
            self.wf(),
        ensures
            entries_bounded(window_entries(self.rtree)),
    {
        assert forall|e: (i64, i64, i64, i64, usize)| window_entries(self.rtree).count(e)
            > 0 implies entry_bounded(e) by {
            assert(self.slots@[e.4 as int] is Some);
        }
    }

    /// An index with no slots.
    pub fn new() -> (s: WindowSlots<T>)
        ensures
            s.wf(),
            s.entries() == Map::<usize, (IRect, T)>::empty(),
            s.live_count() == 0,
            s.keys_issued() == 0,
    {
        let s = WindowSlots { rtree: new_window_tree(), slots: Vec::new(), live: 0 };
        assert(s.entries() =~= Map::<usize, (IRect, T)>::empty());
        s
    }

    /// Put `value` with `window` in the next slot, and return its number.
    pub fn insert(&mut self, window: IRect, value: T) -> (index: usize)
        requires
            old(self).wf(),
            window_fits(window),
            old(self).keys_issued() < usize::MAX,
        ensures
            final(self).wf(),
            index == old(self).keys_issued(),
            !old(self).entries().contains_key(index),
            final(self).entries() == old(self).entries().insert(index, (window, value)),
            final(self).live_count() == old(self).live_count() + 1,
            final(self).keys_issued() == old(self).keys_issued() + 1,
    {
        proof {
            self.lemma_entries_bounded();
            lemma_count_live_le_len(self.slots@);
        }
        let ghost old_self = *self;
        let index = self.slots.len();
        let entry = entry_of(&window, index);
        insert_window(&mut self.rtree, entry.0, entry.1, entry.2, entry.3, entry.4);
        self.slots.push(Some((window, value)));
        self.live = self.live + 1;
        proof {
            lemma_count_live_push(old_self.slots@, self.slots@[index as int]);
            assert forall|x: (i64, i64, i64, i64, usize)|
                #[trigger] window_entries(self.rtree).count(x) == if is_entry_of(self.slots@, x) {
                    1nat
                } else {
                    0nat
                } by {
                if x.4 < index {
                    assert(self.slots@[x.4 as int] == old_self.slots@[x.4 as int]);
                }
            }
            assert forall|i: int|
                0 <= i < self.slots@.len() && #[trigger] self.slots@[i] is Some implies window_fits(
                self.slots@[i]->Some_0.0,
            ) by {
                if i < index {
                    assert(self.slots@[i] == old_self.slots@[i]);
                }
            }
            assert(self.entries() =~= old_self.entries().insert(index, (window, value)));
        }
        index
    }

    /// Hand out the next slot without putting anything in it, so that the
    /// slots after it keep their numbers; return its number.
    pub fn skip_slot(&mut self) -> (index: usize)
        requires
            old(self).wf(),
            old(self).keys_issued() < usize::MAX,
        ensures
            final(self).wf(),
            index == old(self).keys_issued(),
            final(self).entries() == old(self).entries(),
            final(self).live_count() == old(self).live_count(),
            final(self).keys_issued() == old(self).keys_issued() + 1,
    {
        let ghost old_self = *self;
        let index = self.slots.len();
        self.slots.push(None);
        proof {
            lemma_count_live_push(old_self.slots@, None);
            assert forall|x: (i64, i64, i64, i64, usize)|
                #[trigger] window_entries(self.rtree).count(x) == if is_entry_of(self.slots@, x) {
                    1nat
                } else {
                    0nat
                } by {
                if x.4 < index {
                    assert(self.slots@[x.4 as int] == old_self.slots@[x.4 as int]);
                }
            }
            assert forall|i: int|
                0 <= i < self.slots@.len() && #[trigger] self.slots@[i] is Some implies window_fits(
                self.slots@[i]->Some_0.0,
            ) by {
                assert(self.slots@[i] == old_self.slots@[i]);
            }
            assert(self.entries() =~= old_self.entries());
        }
        index
    }

    /// The window and value in the given slot, if it is in use.
    pub fn get(&self, index: usize) -> (r: Option<&(IRect, T)>)
        requires
            self.wf(),
        ensures
            r is Some == self.entries().contains_key(index),
            r is Some ==> *r->Some_0 == self.entries()[index],
    {
        if index < self.slots.len() {
            match &self.slots[index] {
                Some(entry) => Some(entry),
                None => None,
            }
        } else {
            None
        }
    }

    /// Give a slot in use a new window and value, and report whether it was in
    /// use; the spatial index follows the window. A slot not in use stays so.
    pub fn replace(&mut self, index: usize, window: IRect, value: T) -> (found: bool)
        requires
            old(self).wf(),
            window_fits(window),
        ensures
            final(self).wf(),
            found == old(self).entries().contains_key(index),
            final(self).entries() == if found {
                old(self).entries().insert(index, (window, value))
            } else {
                old(self).entries()
            },
            final(self).live_count() == old(self).live_count(),
            final(self).keys_issued() == old(self).keys_issued(),
    {
        if index >= self.slots.len() {
            return false;
        }
        let old_window = match &self.slots[index] {
            None => {
                return false;
            },
            Some(entry) => entry.0,
        };
        let ghost old_self = *self;
        proof {
            assert(old_self.slots@[index as int] is Some);
            self.lemma_entries_bounded();
            lemma_count_live_update(old_self.slots@, index as int, Some((window, value)));
        }
        if old_window != window {
            let old_entry = entry_of(&old_window, index);
            let new_entry = entry_of(&window, index);
            let removed = remove_window(
                &mut self.rtree,
                old_entry.0,
                old_entry.1,
                old_entry.2,
                old_entry.3,
                old_entry.4,
            );
            proof {
                assert(is_entry_of(old_self.slots@, old_entry));
                assert(new_entry != old_entry);
                assert forall|e: (i64, i64, i64, i64, usize)|
                    window_entries(self.rtree).count(e) > 0 implies entry_bounded(e) by {
                    assert(window_entries(old_self.rtree).count(e) > 0);
                }
                assert(window_entries(old_self.rtree).remove(old_entry).len() == old_self.live - 1);
            }
            insert_window(
                &mut self.rtree,
                new_entry.0,
                new_entry.1,
                new_entry.2,
                new_entry.3,
                new_entry.4,
            );
        }
        self.slots.set(index, Some((window, value)));
        proof {
            assert forall|x: (i64, i64, i64, i64, usize)|
                #[trigger] window_entries(self.rtree).count(x) == if is_entry_of(self.slots@, x) {
                    1nat
                } else {
                    0nat
                } by {
                if x.4 != index && x.4 < self.slots@.len() {
                    assert(self.slots@[x.4 as int] == old_self.slots@[x.4 as int]);
                }
            }
            assert forall|i: int|
                0 <= i < self.slots@.len() && #[trigger] self.slots@[i] is Some implies window_fits(
                self.slots@[i]->Some_0.0,
            ) by {
                if i != index {
                    assert(self.slots@[i] == old_self.slots@[i]);
                }
            }
            assert(self.entries() =~= old_self.entries().insert(index, (window, value)));
        }
        true
    }

    /// Take the window and value out of the given slot, which stays unused
    /// from then on. A slot not in use stays so.
    pub fn remove(&mut self, index: usize) -> (r: Option<(IRect, T)>)
        requires
            old(self).wf(),
        ensures
            final(self).wf(),
            r is Some == old(self).entries().contains_key(index),
            r is Some ==> r->Some_0 == old(self).entries()[index],
            final(self).entries() == old(self).entries().remove(index),
            final(self).live_count() == if r is Some {
                (old(self).live_count() - 1) as nat
            } else {
                old(self).live_count()
            },
            final(self).keys_issued() == old(self).keys_issued(),
    {
        if index >= self.slots.len() {
            proof {
                assert(self.entries().remove(index) =~= self.entries());
            }
            return None;
        }
        let ghost old_self = *self;
        // The slot's content is moved out by swapping a fresh `None` into it.
        self.slots.push(None);
        let taken = self.slots.swap_remove(index);
        match taken {
            None => {
                proof {
                    assert(self.slots@ =~= old_self.slots@);
                    assert(self.entries().remove(index) =~= self.entries());
                }
                None
            },
            Some(entry) => {
                proof {
                    assert(self.slots@ =~= old_self.slots@.update(index as int, None));
                    lemma_count_live_update(old_self.slots@, index as int, None);
                }
                let key_entry = entry_of(&entry.0, index);
                let removed = remove_window(
                    &mut self.rtree,
                    key_entry.0,
                    key_entry.1,
                    key_entry.2,
                    key_entry.3,
                    key_entry.4,
                );
                self.live = self.live - 1;
                proof {
                    assert(is_entry_of(old_self.slots@, key_entry));
                    assert(window_entries(self.rtree).len() == old_self.live - 1);
                    assert forall|x: (i64, i64, i64, i64, usize)|
                        #[trigger] window_entries(self.rtree).count(x) == if is_entry_of(
                            self.slots@,
                            x,
                        ) {
                            1nat
                        } else {
                            0nat
                        } by {
                        if x.4 != index && x.4 < self.slots@.len() {
                            assert(self.slots@[x.4 as int] == old_self.slots@[x.4 as int]);
                        }
                    }
                    assert forall|i: int|
                        0 <= i < self.slots@.len() && #[trigger] self.slots@[i] is Some implies window_fits(
                        self.slots@[i]->Some_0.0,
                    ) by {
                        assert(self.slots@[i] == old_self.slots@[i]);
                    }
                    assert(self.entries() =~= old_self.entries().remove(index));
                }
                Some(entry)
            },
        }
    }

    /// The slots in use whose window holds `cell`, each once, in the order
    /// the spatial index hands them out.
    pub fn keys_at(&self, cell: &IPoint) -> (keys: Vec<usize>)
        requires
            self.wf(),
        ensures
            lists_windows_at(self.entries(), *cell, keys@),
    {
        let candidates = windows_at_point(&self.rtree, cell.x, cell.y);
        let ghost pred = |e: (i64, i64, i64, i64, usize)| entry_holds(e, cell.x, cell.y);
        proof {
            assert forall|x: (i64, i64, i64, i64, usize)|
                candidates@.to_multiset().contains(x) implies candidates@.to_multiset().count(x)
                == 1 by {
                assert(window_entries(self.rtree).filter(pred).count(x) == if pred(x) {
                    window_entries(self.rtree).count(x)
                } else {
                    0
                });
            }
            candidates@.lemma_multiset_has_no_duplicates_conv();
        }
        let mut keys: Vec<usize> = Vec::new();
        let mut i: usize = 0;
        while i < candidates.len()
            invariant
                self.wf(),
                i <= candidates@.len(),
                candidates@.no_duplicates(),
                candidates@.to_multiset() == window_entries(self.rtree).filter(pred),
                pred == (|e: (i64, i64, i64, i64, usize)| entry_holds(e, cell.x, cell.y)),
                keys@.len() == i,
                forall|j: int| 0 <= j < i ==> #[trigger] keys@[j] == candidates@[j].4,
                forall|j: int|
                    0 <= j < i ==> self.entries().contains_key(#[trigger] candidates@[j].4)
                        && window_entry(self.entries()[candidates@[j].4].0, candidates@[j].4)
                        == candidates@[j],
            decreases candidates@.len() - i,
        {
            let entry = candidates[i];
            proof {
                assert(candidates@.contains(entry));
                assert(candidates@.to_multiset().count(entry) > 0);
                assert(window_entries(self.rtree).count(entry) > 0);
                assert(is_entry_of(self.slots@, entry));
            }
            keys.push(entry.4);
            i = i + 1;
        }
        proof {
            assert forall|a: int, b: int|
                0 <= a < keys@.len() && 0 <= b < keys@.len() && a != b implies keys@[a] != keys@[b] by {
                if keys@[a] == keys@[b] {
                    assert(candidates@[a] == candidates@[b]);
                }
            }
            assert forall|j: int| 0 <= j < keys@.len() implies self.entries().contains_key(
                #[trigger] keys@[j],
            ) && self.entries()[keys@[j]].0.holds_point(*cell) by {
                let c = candidates@[j];
                assert(candidates@.contains(c));
                assert(candidates@.to_multiset().count(c) > 0);
                assert(pred(c));
                assert(self.slots@[c.4 as int] is Some);
                assert(window_fits(self.slots@[c.4 as int]->Some_0.0));
            }
            assert forall|k: usize|
                self.entries().contains_key(k) && self.entries()[k].0.holds_point(
                    *cell,
                ) implies #[trigger] keys@.contains(k) by {
                let w = self.slots@[k as int]->Some_0.0;
                assert(window_fits(w));
                let e = window_entry(w, k);
                assert(is_entry_of(self.slots@, e));
                assert(window_entries(self.rtree).count(e) == 1);
                assert(pred(e));
                assert(candidates@.to_multiset().count(e) > 0);
                assert(candidates@.contains(e));
                let m = choose|m: int| 0 <= m < candidates@.len() && candidates@[m] == e;
                assert(keys@[m] == k);
            }
        }
        keys
    }

    /// Another slot can still be handed out.
    pub fn has_free_key(&self) -> (b: bool)
        ensures
            b == (self.keys_issued() < usize::MAX),
    {
        self.slots.len() < usize::MAX
    }

    /// How many slots are in use.
    pub fn len(&self) -> (n: usize)
        requires
            self.wf(),
        ensures
            n == self.live_count(),
    {
        self.live
    }

    /// How many elements the spatial index holds: one per slot in use.
    pub fn index_len(&self) -> (n: usize)
        requires
            self.wf(),
        ensures
            n == self.live_count(),
    {
        window_count(&self.rtree)
    }
}


/// Values in slots, each with a window, found by the cells their window holds.
pub struct WindowIndex<T> {
    state: WindowSlots<T>,
}

impl<T> WindowIndex<T> {
    /// The slots in use, each with its window and value.
    pub closed spec fn entries(self) -> Map<usize, (IRect, T)> {
        self.state.entries()
    }

    /// How many slots are in use.
    pub closed spec fn live_count(self) -> nat {
        self.state.live_count()
    }

    /// How many slots have been handed out; the next one has this number.
    pub closed spec fn keys_issued(self) -> nat {
        self.state.keys_issued()
    }

    /// The index's internal consistency: every window fits, and the spatial
    /// index holds exactly one element per slot in use. Every index keeps it.
    #[verifier::type_invariant]
    pub closed spec fn wf(self) -> bool {
        self.state.wf()
    }

    /// Every window in use fits the spatial index.
    pub proof fn lemma_windows_fit(self)
        requires
            self.wf(),
        ensures
            forall|k: usize| #[trigger] self.entries().contains_key(k) ==> window_fits(self.entries()[k].0),
            self.live_count() <= self.keys_issued(),
    {
        self.state.lemma_windows_fit();
    }

    /// An index with no slots.
    pub fn new() -> (s: WindowIndex<T>)
        ensures
            s.wf(),
            s.entries() == Map::<usize, (IRect, T)>::empty(),
            s.live_count() == 0,
            s.keys_issued() == 0,
    {
        WindowIndex { state: WindowSlots::new() }
    }

    /// Take the state out for a change, leaving an empty one in its place.
    fn take_state(&mut self) -> (state: WindowSlots<T>)
        ensures
            state == old(self).state,
            state.wf(),
            final(self).state.entries() == Map::<usize, (IRect, T)>::empty(),
    {
        proof {
            use_type_invariant(&*self);
        }
        let mut state = WindowSlots::new();
        core::mem::swap(&mut state, &mut self.state);
        state
    }

    /// Put a state back.
    fn put_state(&mut self, state: WindowSlots<T>)
        requires
            state.wf(),
        ensures
            final(self).state == state,
    {
        let mut state = state;
        core::mem::swap(&mut state, &mut self.state);
    }

    /// Put `value` with `window` in the next slot, and return its number.
    pub fn insert(&mut self, window: IRect, value: T) -> (index: usize)
        requires
            window_fits(window),
            old(self).keys_issued() < usize::MAX,
        ensures
            final(self).wf(),
            index == old(self).keys_issued(),
            !old(self).entries().contains_key(index),
            final(self).entries() == old(self).entries().insert(index, (window, value)),
            final(self).live_count() == old(self).live_count() + 1,
            final(self).keys_issued() == old(self).keys_issued() + 1,
    {
        let mut state = self.take_state();
        let index = state.insert(window, value);
        self.put_state(state);
        index
    }

    /// Hand out the next slot without putting anything in it, so that the
    /// slots after it keep their numbers; return its number.
    pub fn skip_slot(&mut self) -> (index: usize)
        requires
            old(self).keys_issued() < usize::MAX,
        ensures
            final(self).wf(),
            index == old(self).keys_issued(),
            final(self).entries() == old(self).entries(),
            final(self).live_count() == old(self).live_count(),
            final(self).keys_issued() == old(self).keys_issued() + 1,
    {
        let mut state = self.take_state();
        let index = state.skip_slot();
        self.put_state(state);
        index
    }

    /// The window and value in the given slot, if it is in use.
    pub fn get(&self, index: usize) -> (r: Option<&(IRect, T)>)
        ensures
            r is Some == self.entries().contains_key(index),
            r is Some ==> *r->Some_0 == self.entries()[index],
    {
        proof {
            use_type_invariant(self);
        }
        self.state.get(index)
    }

    /// Give a slot in use a new window and value, and report whether it was in
    /// use; the spatial index follows the window. A slot not in use stays so.
    pub fn replace(&mut self, index: usize, window: IRect, value: T) -> (found: bool)
        requires
            window_fits(window),
        ensures
            final(self).wf(),
            found == old(self).entries().contains_key(index),
            final(self).entries() == if found {
                old(self).entries().insert(index, (window, value))
            } else {
                old(self).entries()
            },
            final(self).live_count() == old(self).live_count(),
            final(self).keys_issued() == old(self).keys_issued(),
    {
        let mut state = self.take_state();
        let found = state.replace(index, window, value);
        self.put_state(state);
        found
    }

    /// Take the window and value out of the given slot, which stays unused
    /// from then on. A slot not in use stays so.
    pub fn remove(&mut self, index: usize) -> (r: Option<(IRect, T)>)
        ensures
            final(self).wf(),
            r is Some == old(self).entries().contains_key(index),
            r is Some ==> r->Some_0 == old(self).entries()[index],
            final(self).entries() == old(self).entries().remove(index),
            final(self).live_count() == if r is Some {
                (old(self).live_count() - 1) as nat
            } else {
                old(self).live_count()
            },
            final(self).keys_issued() == old(self).keys_issued(),
    {
        let mut state = self.take_state();
        let r = state.remove(index);
        self.put_state(state);
        r
    }

    /// The slots in use whose window holds `cell`, each once, in the order
    /// the spatial index hands them out.
    pub fn keys_at(&self, cell: &IPoint) -> (keys: Vec<usize>)
        ensures
            lists_windows_at(self.entries(), *cell, keys@),
    {
        proof {
            use_type_invariant(self);
        }
        self.state.keys_at(cell)
    }

    /// Another slot can still be handed out.
    pub fn has_free_key(&self) -> (b: bool)
        ensures
            b == (self.keys_issued() < usize::MAX),
    {
        self.state.has_free_key()
    }

    /// How many slots are in use.
    pub fn len(&self) -> (n: usize)
        ensures
            n == self.live_count(),
    {
        proof {
            use_type_invariant(self);
        }
        self.state.len()
    }

    /// How many elements the spatial index holds: one per slot in use.
    pub fn index_len(&self) -> (n: usize)
        ensures
            n == self.live_count(),
    {
        proof {
            use_type_invariant(self);
        }
        self.state.index_len()
    }
}

} // verus!

//! Cyclic single-selection menu with parallel per-item scroll offsets.
//!
//! `MenuState` owns the menu items, the index-aligned detail texts, one
//! vertical scroll offset per item, and the selected index. Selection moves
//! with wraparound; scrolling saturates at both ends.

use vstd::prelude::*;

verus! {

/// Mathematical model of a `MenuState`: the menu items and detail texts as
/// character sequences, the scroll offsets, and the selected index.
pub struct MenuView {
    pub items: Seq<Seq<char>>,
    pub infos: Seq<Seq<char>>,
    pub scrolls: Seq<u16>,
    pub selected: Option<int>,
}

impl MenuView {
    /// Well-formedness: the three sequences are index-aligned, and the
    /// selection, when present, indexes a live item.
    pub open spec fn wf(self) -> bool {
        &&& self.infos.len() == self.items.len()
        &&& self.scrolls.len() == self.items.len()
        &&& match self.selected {
            Some(i) => 0 <= i < self.items.len(),
            None => true,
        }
    }

    /// Successor over the cyclic index space: the selection advances by one
    /// and wraps from the last item to the first; an absent selection
    /// becomes the first item.
    pub open spec fn step_next(self) -> MenuView {
        let i = match self.selected {
            Some(i) => if i >= self.items.len() - 1 { 0 } else { i + 1 },
            None => 0,
        };
        MenuView { selected: Some(i), ..self }
    }

    /// Predecessor over the cyclic index space: the selection moves back by
    /// one and wraps from the first item to the last; an absent selection
    /// becomes the first item.
    pub open spec fn step_previous(self) -> MenuView {
        let i = match self.selected {
            Some(i) => if i == 0 { self.items.len() - 1 } else { i - 1 },
            None => 0,
        };
        MenuView { selected: Some(i), ..self }
    }

    /// The scroll offset at `i` decreases by one, saturating at zero.
    pub open spec fn step_scroll_up(self, i: int) -> MenuView {
        let v = self.scrolls[i];
        let w: u16 = if v == 0 { 0u16 } else { (v - 1) as u16 };
        MenuView { scrolls: self.scrolls.update(i, w), ..self }
    }

    /// The scroll offset at `i` increases by one, saturating at the largest
    /// representable offset.
    pub open spec fn step_scroll_down(self, i: int) -> MenuView {
        let v = self.scrolls[i];
        let w: u16 = if v == u16::MAX { u16::MAX } else { (v + 1) as u16 };
        MenuView { scrolls: self.scrolls.update(i, w), ..self }
    }
}

/// Selectable menu plus per-item scroll state for the detail view.
#[derive(Debug)]
pub struct MenuState {
    pub menu_items: Vec<String>,
    pub menu_infos: Vec<String>,
    pub info_scrolls: Vec<u16>,
    pub selected: Option<usize>,
}

impl View for MenuState {
    type V = MenuView;

    open spec fn view(&self) -> MenuView {
        MenuView {
            items: self.menu_items.deep_view(),
            infos: self.menu_infos.deep_view(),
            scrolls: self.info_scrolls@,
            selected: match self.selected {
                Some(i) => Some(i as int),
                None => None,
            },
        }
    }
}

impl MenuState {
    /// An empty menu: no items, no selection.
    pub fn new() -> (s: Self)
        ensures
            s@.items.len() == 0,
            s@.infos.len() == 0,
            s@.scrolls.len() == 0,
            s@.selected is None,
            s@.wf(),
    {
        MenuState {
            menu_items: Vec::new(),
            menu_infos: Vec::new(),
            info_scrolls: Vec::new(),
            selected: None,
        }
    }

    /// Loads a dataset: replaces the items and their detail texts, zeroes
    /// every scroll offset, and selects the first item. The two inputs must
    /// be index-aligned and non-empty, so that the selection indexes a live
    /// item; a caller that cannot guarantee this uses `try_set_items`.
    pub fn set_items(&mut self, items: Vec<String>, infos: Vec<String>)
        requires
            items@.len() == infos@.len(),
            items@.len() > 0,
        ensures
            final(self)@.items == items.deep_view(),
            final(self)@.infos == infos.deep_view(),
            final(self)@.scrolls.len() == items@.len(),
            forall|i: int| 0 <= i < final(self)@.scrolls.len() ==> final(self)@.scrolls[i] == 0u16,
            final(self)@.selected == Some(0int),
            final(self)@.wf(),
    {
        let n = items.len();
        let mut scrolls: Vec<u16> = Vec::new();
        while scrolls.len() < n
            invariant
                scrolls@.len() <= n,
                forall|i: int| 0 <= i < scrolls@.len() ==> scrolls@[i] == 0u16,
            decreases n - scrolls@.len(),
        {
            scrolls.push(0u16);
        }
        self.menu_items = items;
        self.menu_infos = infos;
        self.info_scrolls = scrolls;
        self.selected = Some(0);
    }

    /// Checked variant of `set_items`: loads the dataset only when the
    /// inputs are index-aligned and non-empty, and otherwise leaves the
    /// whole state exactly as it was, returning `false`.
    pub fn try_set_items(&mut self, items: Vec<String>, infos: Vec<String>) -> (ok: bool)
        ensures
            ok == (items@.len() == infos@.len() && items@.len() > 0),
            ok ==> final(self)@.items == items.deep_view()
                && final(self)@.infos == infos.deep_view()
                && final(self)@.scrolls.len() == items@.len()
                && (forall|i: int|
                    0 <= i < final(self)@.scrolls.len() ==> final(self)@.scrolls[i] == 0u16)
                && final(self)@.selected == Some(0int)
                && final(self)@.wf(),
            !ok ==> final(self)@ == old(self)@,
    {
        if items.len() == infos.len() && items.len() > 0 {
            self.set_items(items, infos);
            true
        } else {
            false
        }
    }

    /// Advances the selection to the next item, wrapping from the last item
    /// to the first.
    pub fn next(&mut self)
        requires
            old(self)@.wf(),
            old(self)@.items.len() > 0,
        ensures
            final(self)@ == old(self)@.step_next(),
            final(self)@.wf(),
            final(self)@.selected is Some,
    {
        let i: usize = match self.selected {
            Some(i) => {
                if i >= self.menu_items.len() - 1 {
                    0
                } else {
                    i + 1
                }
            },
            None => 0,
        };
        self.selected = Some(i);
    }

    /// Moves the selection to the previous item, wrapping from the first
    /// item to the last.
    pub fn previous(&mut self)
        requires
            old(self)@.wf(),
            old(self)@.items.len() > 0,
        ensures
            final(self)@ == old(self)@.step_previous(),
            final(self)@.wf(),
            final(self)@.selected is Some,
    {
        let i: usize = match self.selected {
            Some(i) => {
                if i == 0 {
                    self.menu_items.len() - 1
                } else {
                    i - 1
                }
            },
            None => 0,
        };
        self.selected = Some(i);
    }

    /// Scrolls the detail view of item `idx` up by one line, saturating at
    /// zero: the offset never becomes negative.
    pub fn scroll_up(&mut self, idx: usize)
        requires
            old(self)@.wf(),
            idx < old(self)@.scrolls.len(),
        ensures
            final(self)@ == old(self)@.step_scroll_up(idx as int),
            final(self)@.scrolls[idx as int] <= old(self)@.scrolls[idx as int],
            final(self)@.wf(),
    {
        let v = self.info_scrolls[idx];
        self.info_scrolls[idx] = v.saturating_sub(1);
    }

    /// Scrolls the detail view of item `idx` down by one line, saturating
    /// at the largest representable offset: the offset never decreases and
    /// repeated calls never fail.
    pub fn scroll_down(&mut self, idx: usize)
        requires
            old(self)@.wf(),
            idx < old(self)@.scrolls.len(),
        ensures
            final(self)@ == old(self)@.step_scroll_down(idx as int),
            final(self)@.scrolls[idx as int] >= old(self)@.scrolls[idx as int],
            final(self)@.wf(),
    {
        let v = self.info_scrolls[idx];
        self.info_scrolls[idx] = v.saturating_add(1);
    }
}

/// `k` applications of the cyclic successor to a menu view.
pub open spec fn iter_next(m: MenuView, k: nat) -> MenuView
    decreases k,
{
    if k == 0 {
        m
    } else {
        iter_next(m.step_next(), (k - 1) as nat)
    }
}

/// Iterating the successor splits: `a + b` steps are `a` steps then `b`.
proof fn lemma_iter_next_add(m: MenuView, a: nat, b: nat)
    ensures
        iter_next(m, a + b) == iter_next(iter_next(m, a), b),
    decreases a,
{
    if a > 0 {
        lemma_iter_next_add(m.step_next(), (a - 1) as nat, b);
    }
}

/// As long as no wrap happens, `j` successor steps move the selection
/// forward by `j` and touch nothing else.
proof fn lemma_iter_next_advance(m: MenuView, j: nat)
    requires
        m.wf(),
        m.items.len() > 0,
        m.selected is Some,
        m.selected.unwrap() + j < m.items.len(),
    ensures
        iter_next(m, j) == (MenuView { selected: Some(m.selected.unwrap() + j), ..m }),
    decreases j,
{
    if j == 0 {
        assert(m == (MenuView { selected: Some(m.selected.unwrap() + 0), ..m }));
    } else {
        lemma_iter_next_advance(m.step_next(), (j - 1) as nat);
    }
}

/// Cyclic closure: on a non-empty, well-formed menu with a live selection,
/// exactly `items.len()` calls of the successor return the state - the
/// selection included - to exactly where it started.
pub proof fn lemma_next_cycles(m: MenuView)
    requires
        m.wf(),
        m.items.len() > 0,
        m.selected is Some,
    ensures
        iter_next(m, m.items.len()) == m,
{
    let i0 = m.selected.unwrap();
    let len = m.items.len() as int;
    let a = (len - 1 - i0) as nat;
    lemma_iter_next_advance(m, a);
    let m1 = iter_next(m, a);
    assert(m1 == (MenuView { selected: Some(len - 1), ..m }));
    let m2 = m1.step_next();
    assert(m2 == (MenuView { selected: Some(0int), ..m }));
    lemma_iter_next_add(m, a, 1);
    assert(iter_next(m1.step_next(), 0) == m1.step_next());
    assert(iter_next(m1, 1) == m1.step_next());
    assert(iter_next(m, a + 1) == m2);
    lemma_iter_next_advance(m2, i0 as nat);
    assert(iter_next(m2, i0 as nat) == m);
    lemma_iter_next_add(m, a + 1, i0 as nat);
    assert(a + 1 + i0 == m.items.len());
}

/// The predecessor is the exact inverse of the successor: on a non-empty,
/// well-formed menu with a live selection, one step in either order
/// followed by one step in the other leaves the whole state unchanged.
pub proof fn lemma_previous_inverts_next(m: MenuView)
    requires
        m.wf(),
        m.items.len() > 0,
        m.selected is Some,
    ensures
        m.step_next().step_previous() == m,
        m.step_previous().step_next() == m,
{
    assert(m == (MenuView { selected: Some(m.selected.unwrap()), ..m }));
}

/// Scrolling up then immediately down at the same index restores the prior
/// offset, provided the prior offset was positive; from offset zero the up
/// step saturates, so the pair lands at one instead.
pub proof fn lemma_scroll_up_then_down(m: MenuView, i: int)
    requires
        m.wf(),
        0 <= i < m.scrolls.len(),
        m.scrolls[i] > 0,
    ensures
        m.step_scroll_up(i).step_scroll_down(i) == m,
{
    assert(m.step_scroll_up(i).step_scroll_down(i).scrolls =~= m.scrolls);
}

/// Scrolling down then immediately up at the same index restores the prior
/// offset, provided the prior offset was below the saturation bound.
pub proof fn lemma_scroll_down_then_up(m: MenuView, i: int)
    requires
        m.wf(),
        0 <= i < m.scrolls.len(),
        m.scrolls[i] < u16::MAX,
    ensures
        m.step_scroll_down(i).step_scroll_up(i) == m,
{
    assert(m.step_scroll_down(i).step_scroll_up(i).scrolls =~= m.scrolls);
}

/// `k` applications of the saturating downward scroll at index `i`.
pub open spec fn iter_scroll_down(m: MenuView, i: int, k: nat) -> MenuView
    decreases k,
{
    if k == 0 {
        m
    } else {
        iter_scroll_down(m, i, (k - 1) as nat).step_scroll_down(i)
    }
}

/// Any number of downward scrolls moves the offset to exactly
/// `min(start + k, u16::MAX)` and touches nothing else: the offset is
/// monotonically non-decreasing until it saturates, and never wraps.
pub proof fn lemma_scroll_down_saturates(m: MenuView, i: int, k: nat)
    requires
        m.wf(),
        0 <= i < m.scrolls.len(),
    ensures
        iter_scroll_down(m, i, k).wf(),
        iter_scroll_down(m, i, k).items == m.items,
        iter_scroll_down(m, i, k).infos == m.infos,
        iter_scroll_down(m, i, k).selected == m.selected,
        iter_scroll_down(m, i, k).scrolls.len() == m.scrolls.len(),
        forall|j: int|
            0 <= j < m.scrolls.len() && j != i ==> iter_scroll_down(m, i, k).scrolls[j]
                == m.scrolls[j],
        iter_scroll_down(m, i, k).scrolls[i] == (if m.scrolls[i] + k <= u16::MAX {
            (m.scrolls[i] + k) as u16
        } else {
            u16::MAX
        }),
    decreases k,
{
    if k > 0 {
        lemma_scroll_down_saturates(m, i, (k - 1) as nat);
    }
}

} // verus!

//! The selection/viewport state machine of the picker.
//!
//! A [`Picker`] owns three coordinates — the absolute index of the selected
//! item, the index of that item inside the visible window, and the absolute
//! index of the first visible row — plus a fixed rendering orientation.
//! Navigation moves the selection one item at a time and wraps around at the
//! list boundaries; all coordinate arithmetic saturates at zero, so a call
//! with out-of-range arguments degrades to a boundary value instead of
//! failing.

use vstd::prelude::*;

verus! {

/// Subtraction clamped at zero, the arithmetic every coordinate update uses.
pub open spec fn sat_sub(a: int, b: int) -> int {
    if a >= b {
        a - b
    } else {
        0
    }
}

/// Selection and viewport coordinates of one picker session.
///
/// For a non-empty list the intended reading is: item `selected` of the list
/// is highlighted, it is drawn `relative_selected` rows below the first
/// visible row, and the first visible row shows item `view_offset`.
#[derive(Clone, Copy, Debug, PartialEq, Eq)]
pub struct Picker {
    /// Absolute index of the selected item, empty while nothing is selected.
    pub selected: Option<usize>,
    /// Index of the selected item within the visible window.
    pub relative_selected: Option<usize>,
    /// Absolute index of the first visible row.
    pub view_offset: usize,
    /// Whether the list is rendered bottom-up, which swaps the index
    /// arithmetic behind the two logical navigation directions.
    pub inverted: bool,
}

/// The same coordinates with the opposite rendering orientation.
pub open spec fn flipped(p: Picker) -> Picker {
    Picker { inverted: !p.inverted, ..p }
}

/// Whether two states hold the same three coordinates, whatever their
/// orientation.
pub open spec fn same_coordinates(a: Picker, b: Picker) -> bool {
    &&& a.selected == b.selected
    &&& a.relative_selected == b.relative_selected
    &&& a.view_offset == b.view_offset
}

/// The decrement-with-wrap step: moves the absolute index one item toward 0
/// and scrolls the window up when the selection leaves its top row; when the
/// selection is already at index 0 it wraps to the last item of the list,
/// placing the window so that the final rows of the list fill the content
/// area.  The last two rows of the window are reserved for the widget's
/// border and header, so the last content row is `height - 3` and the
/// largest useful offset keeps `height - 2` rows on screen.  On an empty
/// list the wrap leaves the selection empty.
pub open spec fn decrement_with_wrap(p: Picker, total_items: usize, height: usize) -> Picker {
    let s: int = p.selected.unwrap_or(0) as int;
    let r: int = p.relative_selected.unwrap_or(0) as int;
    if s > 0 {
        Picker {
            selected: Some((s - 1) as usize),
            relative_selected: Some(sat_sub(r, 1) as usize),
            view_offset: if r == 0 {
                sat_sub(p.view_offset as int, 1) as usize
            } else {
                p.view_offset
            },
            ..p
        }
    } else {
        Picker {
            selected: if total_items == 0 {
                None
            } else {
                Some((total_items - 1) as usize)
            },
            relative_selected: Some(sat_sub(height as int, 3) as usize),
            view_offset: sat_sub(total_items as int, sat_sub(height as int, 2)) as usize,
            ..p
        }
    }
}

/// The increment-with-wrap step: moves the absolute index one item forward
/// modulo the list length, scrolling the window down one row when the
/// selection was on the last content row (`height - 3`) and snapping window
/// and relative index back to the top when the index wraps to 0.  The
/// relative index is never allowed past the new absolute index, which keeps
/// the coordinates sane under window heights smaller than expected.  On an
/// empty list the step is a defensive no-op.
pub open spec fn increment_with_wrap(p: Picker, total_items: usize, height: usize) -> Picker {
    if total_items == 0 {
        p
    } else {
        let new_index: int = (p.selected.unwrap_or(0) + 1) % (total_items as int);
        let r: int = p.relative_selected.unwrap_or(0) as int;
        let last_row: int = sat_sub(height as int, 3);
        if new_index == 0 {
            Picker { selected: Some(0usize), relative_selected: Some(0usize), view_offset: 0, ..p }
        } else if r == last_row {
            Picker {
                selected: Some(new_index as usize),
                relative_selected: Some(
                    (if new_index <= last_row {
                        new_index
                    } else {
                        last_row
                    }) as usize,
                ),
                view_offset: p.view_offset.saturating_add(1),
                ..p
            }
        } else {
            Picker {
                selected: Some(new_index as usize),
                relative_selected: Some(
                    (if r + 1 <= new_index {
                        r + 1
                    } else {
                        new_index
                    }) as usize,
                ),
                ..p
            }
        }
    }
}

/// Expresses `(a + 1) % m` through `a % m`, which lets the increment step
/// take the remainder before adding one and so stay clear of overflow.
proof fn lemma_mod_successor(a: int, m: int)
    requires
        0 <= a,
        0 < m,
    ensures
        (a + 1) % m == if a % m + 1 == m {
            0int
        } else {
            a % m + 1
        },
{
    vstd::arithmetic::div_mod::lemma_add_mod_noop(a, 1, m);
    vstd::arithmetic::div_mod::lemma_mod_pos_bound(a, m);
    vstd::arithmetic::div_mod::lemma_mod_pos_bound(1, m);
    if a % m + 1 == m {
        vstd::arithmetic::div_mod::lemma_mod_self_0(m);
        if m == 1 {
            vstd::arithmetic::div_mod::lemma_small_mod(0, 1);
        } else {
            vstd::arithmetic::div_mod::lemma_small_mod(1, m as nat);
        }
    } else {
        vstd::arithmetic::div_mod::lemma_small_mod(1, m as nat);
        vstd::arithmetic::div_mod::lemma_small_mod((a % m + 1) as nat, m as nat);
    }
}

/// What a logical "move to the next item" does: the decrement step for a
/// top-down list, the increment step for an inverted one.
pub open spec fn select_next_spec(p: Picker, total_items: usize, height: usize) -> Picker {
    if p.inverted {
        increment_with_wrap(p, total_items, height)
    } else {
        decrement_with_wrap(p, total_items, height)
    }
}

/// What a logical "move to the previous item" does: the mirror of
/// [`select_next_spec`].
pub open spec fn select_prev_spec(p: Picker, total_items: usize, height: usize) -> Picker {
    if p.inverted {
        decrement_with_wrap(p, total_items, height)
    } else {
        increment_with_wrap(p, total_items, height)
    }
}

/// The state every reset lands in: first item selected, window at the top.
pub open spec fn reset_selection_spec(p: Picker) -> Picker {
    Picker { selected: Some(0usize), relative_selected: Some(0usize), view_offset: 0, ..p }
}

/// Mutual consistency of the three coordinates for a list of `total_items`
/// drawn in a window of `height` rows: both indices are present, the
/// absolute index is the window offset plus the relative index, the relative
/// index stays on a content row (at most `height - 3`, hence strictly below
/// `height`), and the selection never points past the end of the list.
pub open spec fn is_consistent(p: Picker, total_items: usize, height: usize) -> bool {
    let s: int = p.selected.unwrap_or(0) as int;
    let r: int = p.relative_selected.unwrap_or(0) as int;
    &&& p.selected is Some
    &&& p.relative_selected is Some
    &&& s == p.view_offset as int + r
    &&& r <= sat_sub(height as int, 3)
    &&& s < total_items as int
}

/// Resetting the selection establishes consistency for any non-empty list.
pub proof fn lemma_reset_establishes_consistency(p: Picker, total_items: usize, height: usize)
    requires
        total_items > 0,
    ensures
        is_consistent(reset_selection_spec(p), total_items, height),
{
}

/// Invariant preservation, forward direction: one logical "next" step keeps
/// the coordinates mutually consistent, for any window of at least three
/// rows over a list no shorter than the window's content area.
pub proof fn lemma_select_next_preserves_consistency(
    p: Picker,
    total_items: usize,
    height: usize,
)
    requires
        height >= 3,
        total_items as int >= height as int - 2,
        is_consistent(p, total_items, height),
    ensures
        is_consistent(select_next_spec(p, total_items, height), total_items, height),
{
    lemma_step_preserves_consistency(p, total_items, height);
}

/// Invariant preservation, backward direction: one logical "previous" step
/// keeps the coordinates mutually consistent, under the same bounds as
/// [`lemma_select_next_preserves_consistency`].
pub proof fn lemma_select_prev_preserves_consistency(
    p: Picker,
    total_items: usize,
    height: usize,
)
    requires
        height >= 3,
        total_items as int >= height as int - 2,
        is_consistent(p, total_items, height),
    ensures
        is_consistent(select_prev_spec(p, total_items, height), total_items, height),
{
    lemma_step_preserves_consistency(p, total_items, height);
}

/// Both physical steps preserve consistency; the two public lemmas above are
/// its dispatch through the orientation flag.
proof fn lemma_step_preserves_consistency(p: Picker, total_items: usize, height: usize)
    requires
        height >= 3,
        total_items as int >= height as int - 2,
        is_consistent(p, total_items, height),
    ensures
        is_consistent(decrement_with_wrap(p, total_items, height), total_items, height),
        is_consistent(increment_with_wrap(p, total_items, height), total_items, height),
{
    let s: int = p.selected.unwrap_or(0) as int;
    vstd::arithmetic::div_mod::lemma_mod_pos_bound(s + 1, total_items as int);
    if s + 1 < total_items as int {
        vstd::arithmetic::div_mod::lemma_small_mod((s + 1) as nat, total_items as nat);
    } else {
        vstd::arithmetic::div_mod::lemma_mod_self_0(total_items as int);
    }
}

/// Round trip: a logical "next" step followed by a logical "previous" step
/// restores the selected index, and the other way round, whenever the
/// selection starts strictly inside the list — at the two wrap boundaries
/// (first and last item) the pair of steps instead lands at the opposite
/// end, which is the intended wraparound.
pub proof fn lemma_round_trip_restores_selected(p: Picker, total_items: usize, height: usize)
    requires
        p.selected is Some,
        0 < p.selected.unwrap_or(0) as int,
        p.selected.unwrap_or(0) as int + 1 < total_items as int,
    ensures
        select_prev_spec(
            select_next_spec(p, total_items, height),
            total_items,
            height,
        ).selected == p.selected,
        select_next_spec(
            select_prev_spec(p, total_items, height),
            total_items,
            height,
        ).selected == p.selected,
{
    let s: int = p.selected.unwrap_or(0) as int;
    let t: int = total_items as int;
    vstd::arithmetic::div_mod::lemma_small_mod(s as nat, t as nat);
    vstd::arithmetic::div_mod::lemma_small_mod((s + 1) as nat, t as nat);
}

/// Reset idempotence: the state after a reset does not depend on the state
/// before it, so resetting twice is the same as resetting once.
pub proof fn lemma_reset_selection_idempotent(p: Picker)
    ensures
        reset_selection_spec(reset_selection_spec(p)) == reset_selection_spec(p),
{
}

/// Inversion symmetry: a logical "next" step on a picker with the opposite
/// orientation moves the coordinates exactly as a logical "previous" step
/// does on the original, and the other way round.
pub proof fn lemma_inversion_symmetry(p: Picker, total_items: usize, height: usize)
    ensures
        same_coordinates(
            select_next_spec(flipped(p), total_items, height),
            select_prev_spec(p, total_items, height),
        ),
        same_coordinates(
            select_prev_spec(flipped(p), total_items, height),
            select_next_spec(p, total_items, height),
        ),
{
}

impl Picker {
    /// A fresh top-down picker with no selection.
    pub fn new() -> (p: Self)
        ensures
            p.selected is None,
            p.relative_selected is None,
            p.view_offset == 0,
            !p.inverted,
    {
        Picker { selected: None, relative_selected: None, view_offset: 0, inverted: false }
    }

    /// One-shot combinator that flips the rendering orientation; applied at
    /// construction time, never during a session.
    pub fn inverted(self) -> (p: Self)
        ensures
            p == flipped(self),
    {
        Picker { inverted: !self.inverted, ..self }
    }

    /// Snaps the selection back to the first item and the window to the top;
    /// called whenever the candidate list is replaced.
    pub fn reset_selection(&mut self)
        ensures
            *final(self) == reset_selection_spec(*old(self)),
    {
        self.selected = Some(0);
        self.relative_selected = Some(0);
        self.view_offset = 0;
    }

    /// The absolute index of the selected item.
    pub fn selected(&self) -> (r: Option<usize>)
        ensures
            r == self.selected,
    {
        self.selected
    }

    /// Sets the absolute index directly; no validation is performed, the
    /// caller keeps the coordinates consistent.
    pub fn select(&mut self, index: Option<usize>)
        ensures
            final(self).selected == index,
            final(self).relative_selected == old(self).relative_selected,
            final(self).view_offset == old(self).view_offset,
            final(self).inverted == old(self).inverted,
    {
        self.selected = index;
    }

    /// The index of the selected item within the visible window.
    pub fn relative_selected(&self) -> (r: Option<usize>)
        ensures
            r == self.relative_selected,
    {
        self.relative_selected
    }

    /// Moves the selection to the logical next item, in the direction the
    /// current orientation maps it to.
    pub fn select_next(&mut self, total_items: usize, height: usize)
        ensures
            *final(self) == select_next_spec(*old(self), total_items, height),
    {
        if self.inverted {
            self._select_prev(total_items, height);
        } else {
            self._select_next(total_items, height);
        }
    }

    /// Moves the selection to the logical previous item, the mirror of
    /// [`Picker::select_next`].
    pub fn select_prev(&mut self, total_items: usize, height: usize)
        ensures
            *final(self) == select_prev_spec(*old(self), total_items, height),
    {
        if self.inverted {
            self._select_next(total_items, height);
        } else {
            self._select_prev(total_items, height);
        }
    }

    /// The physical decrement step; see [`decrement_with_wrap`].
    fn _select_next(&mut self, total_items: usize, height: usize)
        ensures
            *final(self) == decrement_with_wrap(*old(self), total_items, height),
    {
        let selected: usize = self.selected.unwrap_or(0);
        let relative_selected: usize = self.relative_selected.unwrap_or(0);
        if selected > 0 {
            self.selected = Some(selected - 1);
            self.relative_selected = Some(relative_selected.saturating_sub(1));
            if relative_selected == 0 {
                self.view_offset = self.view_offset.saturating_sub(1);
            }
        } else {
            self.view_offset = total_items.saturating_sub(height.saturating_sub(2));
            self.selected = if total_items == 0 {
                None
            } else {
                Some(total_items - 1)
            };
            self.relative_selected = Some(height.saturating_sub(3));
        }
    }

    /// The physical increment step; see [`increment_with_wrap`].
    fn _select_prev(&mut self, total_items: usize, height: usize)
        ensures
            *final(self) == increment_with_wrap(*old(self), total_items, height),
    {
        if total_items == 0 {
            return;
        }
        let selected: usize = self.selected.unwrap_or(0);
        let reduced: usize = selected % total_items;
        let new_index: usize = if reduced + 1 == total_items {
            0
        } else {
            reduced + 1
        };
        proof {
            lemma_mod_successor(selected as int, total_items as int);
        }
        self.selected = Some(new_index);
        if new_index == 0 {
            self.view_offset = 0;
            self.relative_selected = Some(0);
            return;
        }
        let last_row: usize = height.saturating_sub(3);
        let relative_selected: usize = self.relative_selected.unwrap_or(0);
        if relative_selected == last_row {
            self.view_offset = self.view_offset.saturating_add(1);
            self.relative_selected = Some(
                if new_index <= last_row {
                    new_index
                } else {
                    last_row
                },
            );
        } else {
            self.relative_selected = Some(
                if relative_selected < new_index {
                    relative_selected + 1
                } else {
                    new_index
                },
            );
        }
    }

    /// Sets the window-relative index directly; no validation is performed.
    pub fn relative_select(&mut self, index: Option<usize>)
        ensures
            final(self).relative_selected == index,
            final(self).selected == old(self).selected,
            final(self).view_offset == old(self).view_offset,
            final(self).inverted == old(self).inverted,
    {
        self.relative_selected = index;
    }
}

impl Default for Picker {
    /// Same as [`Picker::new`].
    fn default() -> (p: Self)
        ensures
            p.selected is None,
            p.relative_selected is None,
            p.view_offset == 0,
            !p.inverted,
    {
        Picker::new()
    }
}

} // verus!

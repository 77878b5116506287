//! The navigation state machine: an immutable ordered entry list, a clamped
//! selection cursor, and viewport geometry used only to size page jumps.
//! Every operation is total; at the boundaries it saturates instead of
//! failing, and on an empty list it degrades to "no selection".

use vstd::prelude::*;

use crate::entry::Item;
use crate::entry::SubmoduleInfo;

verus! {

/// Cursor after a single step forward: `min(cur + 1, len - 1)`, and 0 on an
/// empty list.
pub open spec fn next_cursor(len: nat, cur: nat) -> nat {
    clamp_forward(len, cur, 1)
}

/// Cursor after a single step backward: `max(cur - 1, 0)`.
pub open spec fn prev_cursor(cur: nat) -> nat {
    floor_sub(cur, 1)
}

/// The page-jump step for a viewport of `rows` visible rows: half the
/// viewport, floored at one row.
pub open spec fn page_step(rows: nat) -> nat {
    if rows / 2 >= 1 {
        rows / 2
    } else {
        1
    }
}

/// Cursor after moving `step` forward, clamped to the last index:
/// `min(cur + step, len - 1)`, and 0 on an empty list.
pub open spec fn clamp_forward(len: nat, cur: nat, step: nat) -> nat {
    if len == 0 {
        0
    } else if cur + step <= len - 1 {
        cur + step
    } else {
        (len - 1) as nat
    }
}

/// Cursor after moving `step` backward, floored at zero:
/// `max(cur - step, 0)`.
pub open spec fn floor_sub(cur: nat, step: nat) -> nat {
    if cur >= step {
        (cur - step) as nat
    } else {
        0
    }
}

/// Cursor after `go_to_end`: the last index, and 0 on an empty list.
pub open spec fn end_cursor(len: nat) -> nat {
    if len == 0 {
        0
    } else {
        (len - 1) as nat
    }
}

/// The interactive list state: the merged entry list and the submodule table
/// it points into (both fixed after construction), the selection cursor, and
/// the viewport height supplied afresh each frame.
pub struct App {
    git_dir: String,
    submodules: Vec<SubmoduleInfo>,
    items: Vec<Item>,
    cursor: usize,
    list_height: u16,
}

impl App {
    /// The ordered entry list.
    pub closed spec fn items(self) -> Seq<Item> {
        self.items@
    }

    /// The submodule table that origin tags index into.
    pub closed spec fn submodules(self) -> Seq<SubmoduleInfo> {
        self.submodules@
    }

    /// The top-level repository's directory.
    pub closed spec fn git_dir(self) -> Seq<char> {
        self.git_dir@
    }

    /// The selection cursor.
    pub closed spec fn cursor(self) -> nat {
        self.cursor as nat
    }

    /// The viewport height last supplied.
    pub closed spec fn list_height(self) -> nat {
        self.list_height as nat
    }

    /// Every origin tag points into the submodule table.
    pub open spec fn origins_ok(items: Seq<Item>, n_submodules: nat) -> bool {
        forall|i: int|
            0 <= i < items.len() ==> (#[trigger] items[i].origin matches Some(k) ==> k
                < n_submodules)
    }

    /// Well-formedness: the cursor is a valid index whenever the list is
    /// non-empty, is pinned to 0 when it is empty, and all origin tags are
    /// valid.
    pub open spec fn wf(self) -> bool {
        &&& self.items().len() > 0 ==> self.cursor() < self.items().len()
        &&& self.items().len() == 0 ==> self.cursor() == 0
        &&& Self::origins_ok(self.items(), self.submodules().len())
    }

    /// Everything but the cursor is as it was: the entry list, the submodule
    /// table, the repository directory and the viewport height never change
    /// after construction except through `set_list_height`.
    pub open spec fn same_but_cursor(self, other: App) -> bool {
        &&& self.items() == other.items()
        &&& self.submodules() == other.submodules()
        &&& self.git_dir() == other.git_dir()
        &&& self.list_height() == other.list_height()
    }

    /// Builds the state over an already merged and sorted entry list, with
    /// the cursor at the start.
    pub fn new(git_dir: String, submodules: Vec<SubmoduleInfo>, items: Vec<Item>) -> (r: App)
        requires
            Self::origins_ok(items@, submodules@.len()),
        ensures
            r.wf(),
            r.items() == items@,
            r.submodules() == submodules@,
            r.git_dir() == git_dir@,
            r.cursor() == 0,
            r.list_height() == 0,
    {
        App { git_dir, submodules, items, cursor: 0, list_height: 0 }
    }

    /// Number of entries in the list.
    pub fn len(&self) -> (r: usize)
        ensures
            r == self.items().len(),
    {
        self.items.len()
    }

    /// Records the viewport height measured this frame; it sizes page jumps
    /// and nothing else.
    pub fn set_list_height(&mut self, h: u16)
        requires
            old(self).wf(),
        ensures
            final(self).wf(),
            final(self).list_height() == h as nat,
            final(self).items() == old(self).items(),
            final(self).submodules() == old(self).submodules(),
            final(self).git_dir() == old(self).git_dir(),
            final(self).cursor() == old(self).cursor(),
    {
        self.list_height = h;
    }

    /// Moves the selection one entry down, staying on the last entry when
    /// already there.
    pub fn next(&mut self)
        requires
            old(self).wf(),
        ensures
            final(self).wf(),
            final(self).same_but_cursor(*old(self)),
            final(self).cursor() == next_cursor(old(self).items().len(), old(self).cursor()),
    {
        if self.items.len() > 0 && self.cursor < self.items.len() - 1 {
            self.cursor = self.cursor + 1;
        }
    }

    /// Moves the selection one entry up, staying on the first entry when
    /// already there.
    pub fn previous(&mut self)
        requires
            old(self).wf(),
        ensures
            final(self).wf(),
            final(self).same_but_cursor(*old(self)),
            final(self).cursor() == prev_cursor(old(self).cursor()),
    {
        if self.cursor > 0 {
            self.cursor = self.cursor - 1;
        }
    }

    /// Moves the selection half a viewport down, clamped to the last entry.
    pub fn page_down(&mut self)
        requires
            old(self).wf(),
        ensures
            final(self).wf(),
            final(self).same_but_cursor(*old(self)),
            final(self).cursor() == clamp_forward(
                old(self).items().len(),
                old(self).cursor(),
                page_step(old(self).list_height()),
            ),
    {
        let step = self.page_step_now();
        if self.items.len() > 0 {
            let remaining = self.items.len() - 1 - self.cursor;
            if step <= remaining {
                self.cursor = self.cursor + step;
            } else {
                self.cursor = self.items.len() - 1;
            }
        }
    }

    /// Moves the selection half a viewport up, floored at the first entry.
    pub fn page_up(&mut self)
        requires
            old(self).wf(),
        ensures
            final(self).wf(),
            final(self).same_but_cursor(*old(self)),
            final(self).cursor() == floor_sub(old(self).cursor(), page_step(old(self).list_height())),
    {
        let step = self.page_step_now();
        if self.cursor >= step {
            self.cursor = self.cursor - step;
        } else {
            self.cursor = 0;
        }
    }

    /// Moves the selection to the first entry.
    pub fn go_to_start(&mut self)
        requires
            old(self).wf(),
        ensures
            final(self).wf(),
            final(self).same_but_cursor(*old(self)),
            final(self).cursor() == 0,
    {
        self.cursor = 0;
    }

    /// Moves the selection to the last entry.
    pub fn go_to_end(&mut self)
        requires
            old(self).wf(),
        ensures
            final(self).wf(),
            final(self).same_but_cursor(*old(self)),
            final(self).cursor() == end_cursor(old(self).items().len()),
    {
        if self.items.len() > 0 {
            self.cursor = self.items.len() - 1;
        }
    }

    /// The page-jump step for the current viewport height.
    fn page_step_now(&self) -> (r: usize)
        ensures
            r == page_step(self.list_height()),
    {
        let half = (self.list_height / 2) as usize;
        if half >= 1 {
            half
        } else {
            1
        }
    }

    /// The selected index, or `None` exactly when the list is empty.
    pub fn current_selection(&self) -> (r: Option<usize>)
        requires
            self.wf(),
        ensures
            self.items().len() > 0 ==> r == Some(self.cursor() as usize),
            self.items().len() == 0 ==> r is None,
    {
        if self.items.len() > 0 {
            Some(self.cursor)
        } else {
            None
        }
    }

    /// The selected entry, or `None` exactly when the list is empty.
    pub fn selected_item(&self) -> (r: Option<&Item>)
        requires
            self.wf(),
        ensures
            self.items().len() > 0 ==> (r matches Some(it) && *it
                == self.items()[self.cursor() as int]),
            self.items().len() == 0 ==> r is None,
    {
        if self.items.len() > 0 {
            Some(&self.items[self.cursor])
        } else {
            None
        }
    }

    /// The 1-based rank of the selection and the total count, for the status
    /// line; `(0, 0)` on an empty list.
    pub fn status_counts(&self) -> (r: (usize, usize))
        requires
            self.wf(),
        ensures
            r.1 == self.items().len(),
            self.items().len() > 0 ==> r.0 == self.cursor() + 1,
            self.items().len() == 0 ==> r.0 == 0,
    {
        if self.items.len() > 0 {
            (self.cursor + 1, self.items.len())
        } else {
            (0, self.items.len())
        }
    }

    /// How far down the list the selection sits, as a percentage rounded
    /// down; 0 on an empty list.
    pub fn scroll_percent(&self) -> (r: usize)
        requires
            self.wf(),
        ensures
            self.items().len() > 0 ==> r == self.cursor() * 100 / self.items().len(),
            self.items().len() == 0 ==> r == 0,
            r < 100,
    {
        if self.items.len() > 0 {
            let p = (self.cursor as u128) * 100 / (self.items.len() as u128);
            assert(p == self.cursor() * 100 / self.items().len());
            assert(self.cursor() * 100 / self.items().len() < 100) by {
                lemma_percent_bound(self.cursor() as int, self.items().len() as int);
            }
            p as usize
        } else {
            0
        }
    }
}

proof fn lemma_percent_bound(cur: int, len: int)
    requires
        0 <= cur < len,
    ensures
        cur * 100 / len < 100,
{
    assert(cur * 100 <= (len - 1) * 100) by (nonlinear_arith)
        requires
            cur <= len - 1,
    ;
    assert((len - 1) * 100 / len < 100) by (nonlinear_arith)
        requires
            len >= 1,
    ;
    assert(cur * 100 / len <= (len - 1) * 100 / len) by (nonlinear_arith)
        requires
            cur * 100 <= (len - 1) * 100 && len >= 1,
    ;
}

/// Everything the external inspector needs: the selected commit's identifier
/// and the directory of the repository that owns it.
pub struct InspectRequest {
    pub commit_id: String,
    pub dir: String,
}

impl App {
    /// Resolves an inspect action on the entry at `idx`: the commit to show,
    /// and the directory to run the inspection in — the submodule's own git
    /// directory when the entry carries a submodule origin, the top-level
    /// repository's directory otherwise.
    pub fn inspect_request(&self, idx: usize) -> (r: InspectRequest)
        requires
            self.wf(),
            idx < self.items().len(),
        ensures
            r.commit_id@ == self.items()[idx as int].entry.commit_id@,
            self.items()[idx as int].origin matches Some(k) ==> r.dir@
                == self.submodules()[k as int].git_dir@,
            self.items()[idx as int].origin is None ==> r.dir@ == self.git_dir(),
    {
        let item = &self.items[idx];
        let dir = match item.origin {
            Some(k) => self.submodules[k].git_dir.clone(),
            None => self.git_dir.clone(),
        };
        InspectRequest { commit_id: item.entry.commit_id.clone(), dir }
    }
}

/// A sequence of single-step moves, applied in order: `true` steps forward,
/// `false` steps backward.
pub open spec fn apply_steps(len: nat, cur: nat, steps: Seq<bool>) -> nat
    decreases steps.len(),
{
    if steps.len() == 0 {
        cur
    } else {
        let cur1 = if steps[0] {
            next_cursor(len, cur)
        } else {
            prev_cursor(cur)
        };
        apply_steps(len, cur1, steps.drop_first())
    }
}

/// On a non-empty list, any sequence of single-step moves keeps the cursor
/// within `[0, len - 1]`.
pub proof fn lemma_steps_stay_in_bounds(len: nat, cur: nat, steps: Seq<bool>)
    requires
        len > 0,
        cur < len,
    ensures
        apply_steps(len, cur, steps) < len,
    decreases steps.len(),
{
    if steps.len() > 0 {
        let cur1 = if steps[0] {
            next_cursor(len, cur)
        } else {
            prev_cursor(cur)
        };
        lemma_steps_stay_in_bounds(len, cur1, steps.drop_first());
    }
}

/// Going to the end and then stepping forward leaves the cursor unchanged.
pub proof fn lemma_end_then_next_fixed(len: nat)
    ensures
        next_cursor(len, end_cursor(len)) == end_cursor(len),
{
}

/// Going to the start and then stepping backward leaves the cursor unchanged.
pub proof fn lemma_start_then_previous_fixed()
    ensures
        prev_cursor(0) == 0,
{
}

/// A zero-row viewport pages exactly as a one-row viewport does: the step
/// floors at one row either way.
pub proof fn lemma_page_step_floors(len: nat, cur: nat)
    ensures
        page_step(0) == page_step(1),
        clamp_forward(len, cur, page_step(0)) == clamp_forward(len, cur, page_step(1)),
        floor_sub(cur, page_step(0)) == floor_sub(cur, page_step(1)),
{
}

} // verus!

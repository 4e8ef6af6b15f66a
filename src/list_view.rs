use vstd::prelude::*;

verus! {

/// Abstract state of a [`ListView`]: its rows, the viewport and the selection.
pub struct ListModel<T> {
    pub rows: Seq<T>,
    pub width: nat,
    pub height: nat,
    pub origin: nat,
    pub selected: Option<nat>,
}

/// The largest origin that keeps the last row on the last visible line.
pub open spec fn max_origin(len: nat, height: nat) -> nat {
    if len > height {
        (len - height) as nat
    } else {
        0
    }
}

/// `x` clamped into `[lo, hi]` (with `lo <= hi`).
pub open spec fn clamp(x: int, lo: int, hi: int) -> int {
    if x < lo {
        lo
    } else if x > hi {
        hi
    } else {
        x
    }
}

/// The operations of a list view, for reasoning about sequences of them.
pub enum ListOp<T> {
    SelectNext(bool),
    ScrollPages(int),
    SelectFirst,
    SelectLast,
    Unselect,
    Resize(nat, nat),
    Append(T),
}

impl<T> ListModel<T> {
    /// The viewport never reaches past the rows, a zero-height viewport holds no
    /// selection, and a selection is a row that is visible.
    pub open spec fn inv(self) -> bool {
        &&& self.origin + self.height <= if self.rows.len() > self.height {
            self.rows.len()
        } else {
            self.height
        }
        &&& self.height == 0 ==> self.origin == 0 && self.selected is None
        &&& self.selected matches Some(i) ==> {
            &&& i < self.rows.len()
            &&& self.origin <= i < self.origin + self.height
        }
    }

    /// Navigation is possible only with rows to show and room to show them.
    pub open spec fn navigable(self) -> bool {
        self.rows.len() > 0 && self.height > 0
    }

    /// One step up (`up`) or down; with nothing selected, the first visible row.
    /// The viewport follows by exactly the overflow.
    pub open spec fn select_next(self, up: bool) -> Self {
        if !self.navigable() {
            self
        } else {
            match self.selected {
                None => ListModel { selected: Some(self.origin), ..self },
                Some(i) => if up {
                    if i == 0 {
                        self
                    } else {
                        let j = (i - 1) as nat;
                        ListModel {
                            selected: Some(j),
                            origin: if j < self.origin {
                                j
                            } else {
                                self.origin
                            },
                            ..self
                        }
                    }
                } else {
                    if i + 1 >= self.rows.len() {
                        self
                    } else {
                        let j = i + 1;
                        ListModel {
                            selected: Some(j),
                            origin: if j >= self.origin + self.height {
                                (j + 1 - self.height) as nat
                            } else {
                                self.origin
                            },
                            ..self
                        }
                    }
                },
            }
        }
    }

    /// Shifts the origin by `pages` viewport heights, clamped to the rows; a
    /// selection that left the viewport is pulled back to its nearest edge.
    pub open spec fn scroll_pages(self, pages: int) -> Self {
        if !self.navigable() {
            self
        } else {
            let o = clamp(
                self.origin + pages * self.height,
                0,
                max_origin(self.rows.len(), self.height) as int,
            ) as nat;
            ListModel {
                origin: o,
                selected: match self.selected {
                    None => None,
                    Some(i) => Some(clamp(i as int, o as int, o + self.height - 1) as nat),
                },
                ..self
            }
        }
    }

    /// Selects the first row and shows the top of the list.
    pub open spec fn select_first(self) -> Self {
        if !self.navigable() {
            self
        } else {
            ListModel { origin: 0, selected: Some(0), ..self }
        }
    }

    /// Selects the last row and shows the bottom of the list.
    pub open spec fn select_last(self) -> Self {
        if !self.navigable() {
            self
        } else {
            ListModel {
                origin: max_origin(self.rows.len(), self.height),
                selected: Some((self.rows.len() - 1) as nat),
                ..self
            }
        }
    }

    pub open spec fn unselect(self) -> Self {
        ListModel { selected: None, ..self }
    }

    /// New dimensions; a zero height is refused. The origin is clamped to the
    /// rows, then moved as little as needed to keep the selection visible.
    pub open spec fn resize(self, width: nat, height: nat) -> Self {
        if height == 0 {
            self
        } else {
            let o = if self.origin > max_origin(self.rows.len(), height) {
                max_origin(self.rows.len(), height)
            } else {
                self.origin
            };
            ListModel {
                width,
                height,
                origin: match self.selected {
                    None => o,
                    Some(i) => if i < o {
                        i
                    } else if i >= o + height {
                        (i + 1 - height) as nat
                    } else {
                        o
                    },
                },
                ..self
            }
        }
    }

    pub open spec fn append(self, row: T) -> Self {
        ListModel { rows: self.rows.push(row), ..self }
    }

    pub open spec fn step(self, op: ListOp<T>) -> Self {
        match op {
            ListOp::SelectNext(up) => self.select_next(up),
            ListOp::ScrollPages(n) => self.scroll_pages(n),
            ListOp::SelectFirst => self.select_first(),
            ListOp::SelectLast => self.select_last(),
            ListOp::Unselect => self.unselect(),
            ListOp::Resize(w, h) => self.resize(w, h),
            ListOp::Append(row) => self.append(row),
        }
    }

    /// The state after applying `ops` in order.
    pub open spec fn run(self, ops: Seq<ListOp<T>>) -> Self
        decreases ops.len(),
    {
        if ops.len() == 0 {
            self
        } else {
            self.run(ops.drop_last()).step(ops.last())
        }
    }

    /// The state after `count` page scrolls by `pages`.
    pub open spec fn scroll_repeated(self, pages: int, count: nat) -> Self
        decreases count,
    {
        if count == 0 {
            self
        } else {
            self.scroll_repeated(pages, (count - 1) as nat).scroll_pages(pages)
        }
    }
}

/// A virtualised, selectable, paginated list over rows kept in insertion order.
#[derive(Debug)]
pub struct ListView<T> {
    rows: Vec<T>,
    width: u16,
    height: u16,
    origin: usize,
    selected: Option<usize>,
}

impl<T> View for ListView<T> {
    type V = ListModel<T>;

    closed spec fn view(&self) -> ListModel<T> {
        ListModel {
            rows: self.rows@,
            width: self.width as nat,
            height: self.height as nat,
            origin: self.origin as nat,
            selected: match self.selected {
                None => None,
                Some(i) => Some(i as nat),
            },
        }
    }
}

/// Every step keeps the invariant.
pub proof fn lemma_step_keeps_inv<T>(m: ListModel<T>, op: ListOp<T>)
    requires
        m.inv(),
    ensures
        m.step(op).inv(),
{
    match op {
        ListOp::ScrollPages(n) => {
            if m.navigable() {
                let o = m.scroll_pages(n).origin;
                assert(o <= max_origin(m.rows.len(), m.height));
            }
        },
        _ => {},
    }
}


/// Over any sequence of operations from a consistent state, a selection is
/// always one of the rows and always inside the viewport.
pub proof fn lemma_run_keeps_selection_in_view<T>(m: ListModel<T>, ops: Seq<ListOp<T>>)
    requires
        m.inv(),
    ensures
        m.run(ops).inv(),
        m.run(ops).selected matches Some(i) ==> {
            let r = m.run(ops);
            &&& i < r.rows.len()
            &&& r.origin <= i < r.origin + r.height
        },
    decreases ops.len(),
{
    if ops.len() > 0 {
        lemma_run_keeps_selection_in_view(m, ops.drop_last());
        lemma_step_keeps_inv(m.run(ops.drop_last()), ops.last());
    }
}

/// On a list without rows, every navigation operation leaves the state as it
/// was, with nothing selected.
pub proof fn lemma_empty_list_navigation_is_noop<T>(m: ListModel<T>, op: ListOp<T>)
    requires
        m.inv(),
        m.rows.len() == 0,
        !(op is Resize),
        !(op is Append),
    ensures
        m.step(op) == m,
        m.step(op).selected is None,
{
}

/// However often a list is paged up or down, its viewport starts at a row
/// and never reaches past `max(N, height)`; at either end one more page scroll
/// in that direction leaves the origin where it is.
pub proof fn lemma_page_scrolls_stay_in_bounds<T>(m: ListModel<T>, pages: int, count: nat)
    requires
        m.inv(),
    ensures
        ({
            let r = m.scroll_repeated(pages, count);
            &&& r.inv()
            &&& r.rows == m.rows
            &&& r.height == m.height
            &&& r.origin + r.height <= if m.rows.len() > m.height {
                m.rows.len()
            } else {
                m.height
            }
        }),
        m.origin == 0 && pages < 0 ==> m.scroll_pages(pages).origin == 0,
        m.origin == max_origin(m.rows.len(), m.height) && pages > 0 ==> m.scroll_pages(
            pages,
        ).origin == m.origin,
    decreases count,
{
    if count > 0 {
        lemma_page_scrolls_stay_in_bounds(m, pages, (count - 1) as nat);
        lemma_step_keeps_inv(m.scroll_repeated(pages, (count - 1) as nat), ListOp::ScrollPages(pages));
    }
    if m.navigable() {
        if pages < 0 {
            assert(pages * m.height <= 0) by (nonlinear_arith)
                requires
                    pages < 0,
                    m.height > 0,
            ;
        }
        if pages > 0 {
            assert(pages * m.height >= 0) by (nonlinear_arith)
                requires
                    pages > 0,
                    m.height > 0,
            ;
        }
    }
}

impl<T> ListView<T> {
    pub open spec fn wf(&self) -> bool {
        self@.inv()
    }

    /// An empty list with a viewport of the given size.
    pub fn new(width: u16, height: u16) -> (r: Self)
        ensures
            r.wf(),
            r@.rows.len() == 0,
            r@.width == width,
            r@.height == height,
            r@.origin == 0,
            r@.selected is None,
    {
        ListView { rows: Vec::new(), width, height, origin: 0, selected: None }
    }

    /// A list over `rows`, in their order, with nothing selected.
    pub fn with_rows(rows: Vec<T>, width: u16, height: u16) -> (r: Self)
        ensures
            r.wf(),
            r@ == (ListModel {
                rows: rows@,
                width: width as nat,
                height: height as nat,
                origin: 0,
                selected: None,
            }),
    {
        ListView { rows, width, height, origin: 0, selected: None }
    }

    /// Adds a row after the last one; viewport and selection are unchanged.
    pub fn append(&mut self, row: T)
        requires
            old(self).wf(),
        ensures
            final(self).wf(),
            final(self)@ == old(self)@.append(row),
    {
        self.rows.push(row);
    }

    pub fn len(&self) -> (r: usize)
        ensures
            r == self@.rows.len(),
    {
        self.rows.len()
    }

    pub fn width(&self) -> (r: u16)
        ensures
            r == self@.width,
    {
        self.width
    }

    pub fn height(&self) -> (r: u16)
        ensures
            r == self@.height,
    {
        self.height
    }

    /// Index of the first visible row.
    pub fn origin(&self) -> (r: usize)
        ensures
            r == self@.origin,
    {
        self.origin
    }

    pub fn selected_index(&self) -> (r: Option<usize>)
        ensures
            r matches Some(i) ==> self@.selected == Some(i as nat),
            r is None ==> self@.selected is None,
    {
        self.selected
    }

    /// The rows on screen: indices from `start` up to, not including, `end`.
    pub fn visible_range(&self) -> (r: (usize, usize))
        requires
            self.wf(),
        ensures
            r.0 == self@.origin,
            r.1 == if self@.origin + self@.height < self@.rows.len() {
                self@.origin + self@.height
            } else {
                self@.rows.len()
            },
            r.0 <= r.1 <= self@.rows.len(),
    {
        let len = self.rows.len();
        let room = len - self.origin;
        let shown = if (self.height as usize) < room {
            self.height as usize
        } else {
            room
        };
        (self.origin, self.origin + shown)
    }

    pub fn row(&self, i: usize) -> (r: &T)
        requires
            i < self@.rows.len(),
        ensures
            *r == self@.rows[i as int],
    {
        &self.rows[i]
    }

    /// The selected row, if any.
    pub fn selection(&self) -> (r: Option<&T>)
        requires
            self.wf(),
        ensures
            r matches Some(x) ==> self@.selected matches Some(i) && *x == self@.rows[i as int],
            r is None ==> self@.selected is None,
    {
        match self.selected {
            None => None,
            Some(i) => Some(&self.rows[i]),
        }
    }

    /// Moves the selection one row up (`up`) or down and returns whether it
    /// changed; see [`ListModel::select_next`].
    pub fn select_next(&mut self, up: bool) -> (changed: bool)
        requires
            old(self).wf(),
        ensures
            final(self).wf(),
            final(self)@ == old(self)@.select_next(up),
            changed == (final(self)@ != old(self)@),
    {
        proof {
            lemma_step_keeps_inv(self@, ListOp::SelectNext(up));
        }
        if self.rows.len() == 0 || self.height == 0 {
            return false;
        }
        match self.selected {
            None => {
                self.selected = Some(self.origin);
                true
            },
            Some(i) => {
                if up {
                    if i == 0 {
                        false
                    } else {
                        let j = i - 1;
                        if j < self.origin {
                            self.origin = j;
                        }
                        self.selected = Some(j);
                        true
                    }
                } else {
                    if i + 1 >= self.rows.len() {
                        false
                    } else {
                        let j = i + 1;
                        if j >= self.origin + self.height as usize {
                            self.origin = j + 1 - self.height as usize;
                        }
                        self.selected = Some(j);
                        true
                    }
                }
            },
        }
    }

    /// Scrolls by `pages` viewport heights and returns whether the state
    /// changed; see [`ListModel::scroll_pages`].
    pub fn scroll_pages(&mut self, pages: i32) -> (changed: bool)
        requires
            old(self).wf(),
        ensures
            final(self).wf(),
            final(self)@ == old(self)@.scroll_pages(pages as int),
            changed == (final(self)@ != old(self)@),
    {
        proof {
            lemma_step_keeps_inv(self@, ListOp::ScrollPages(pages as int));
        }
        if self.rows.len() == 0 || self.height == 0 {
            return false;
        }
        let len = self.rows.len();
        let h = self.height as usize;
        let top: usize = if len > h {
            len - h
        } else {
            0
        };
        assert(-0x8000_0000_0000 <= pages * self.height <= 0x8000_0000_0000) by (nonlinear_arith)
            requires
                -0x8000_0000 <= pages <= 0x8000_0000,
                0 <= self.height <= 0x1_0000,
        ;
        let shift: i128 = pages as i128 * self.height as i128;
        let target: i128 = self.origin as i128 + shift;
        let o: usize = if target < 0 {
            0
        } else if target > top as i128 {
            top
        } else {
            target as usize
        };
        let old_origin = self.origin;
        let old_selected = self.selected;
        self.origin = o;
        match self.selected {
            None => {},
            Some(i) => {
                let s = if i < o {
                    o
                } else if i > o + h - 1 {
                    o + h - 1
                } else {
                    i
                };
                self.selected = Some(s);
            },
        }
        old_origin != self.origin || old_selected != self.selected
    }

    /// Selects the first row and scrolls to the top; returns whether the state
    /// changed.
    pub fn select_first(&mut self) -> (changed: bool)
        requires
            old(self).wf(),
        ensures
            final(self).wf(),
            final(self)@ == old(self)@.select_first(),
            changed == (final(self)@ != old(self)@),
    {
        proof {
            lemma_step_keeps_inv(self@, ListOp::SelectFirst);
        }
        if self.rows.len() == 0 || self.height == 0 {
            return false;
        }
        let changed = self.origin != 0 || self.selected != Some(0usize);
        self.origin = 0;
        self.selected = Some(0);
        changed
    }

    /// Selects the last row and scrolls to the bottom; returns whether the
    /// state changed.
    pub fn select_last(&mut self) -> (changed: bool)
        requires
            old(self).wf(),
        ensures
            final(self).wf(),
            final(self)@ == old(self)@.select_last(),
            changed == (final(self)@ != old(self)@),
    {
        proof {
            lemma_step_keeps_inv(self@, ListOp::SelectLast);
        }
        let len = self.rows.len();
        if len == 0 || self.height == 0 {
            return false;
        }
        let h = self.height as usize;
        let o: usize = if len > h {
            len - h
        } else {
            0
        };
        let last = len - 1;
        let changed = self.origin != o || self.selected != Some(last);
        self.origin = o;
        self.selected = Some(last);
        changed
    }

    /// Clears the selection, leaving the viewport alone; returns whether there
    /// was one.
    pub fn unselect(&mut self) -> (changed: bool)
        requires
            old(self).wf(),
        ensures
            final(self).wf(),
            final(self)@ == old(self)@.unselect(),
            changed == (final(self)@ != old(self)@),
    {
        let changed = self.selected.is_some();
        self.selected = None;
        changed
    }

    /// Takes new viewport dimensions; a zero height is refused and changes
    /// nothing. See [`ListModel::resize`].
    pub fn resize(&mut self, width: u16, height: u16)
        requires
            old(self).wf(),
        ensures
            final(self).wf(),
            final(self)@ == old(self)@.resize(width as nat, height as nat),
    {
        proof {
            lemma_step_keeps_inv(self@, ListOp::Resize(width as nat, height as nat));
        }
        if height == 0 {
            return;
        }
        let len = self.rows.len();
        let h = height as usize;
        let top: usize = if len > h {
            len - h
        } else {
            0
        };
        let o = if self.origin > top {
            top
        } else {
            self.origin
        };
        self.width = width;
        self.height = height;
        self.origin = match self.selected {
            None => o,
            Some(i) => if i < o {
                i
            } else if i >= o + h {
                i + 1 - h
            } else {
                o
            },
        };
    }
}

} // verus!

//! The breadcrumbs of the content view: opening a view from the one on screen saves what the
//! reader was looking at, and going back puts it back exactly, cursor, table mode and all.
//!
//! What the content is, and how the table draws and selects, is the drawing side's business:
//! this module holds them as they are handed over and only moves them between the screen and the
//! history.
use std::sync::Arc;
use vstd::prelude::*;
use crate::nav::{NavState, first_item, first_section, section_has};
use crate::pagination::PaginationInfo;
use crate::scan::opt_view;

verus! {

/// `std`'s `Arc::clone`: another pointer to the same allocation, so the same value.
#[verifier::external_body]
fn share<C>(content: &Arc<C>) -> (r: Arc<C>)
    ensures
        r == *content,
{
    Arc::clone(content)
}

/// A copy of an optional string, character for character.
fn copy_text(text: &Option<String>) -> (r: Option<String>)
    ensures
        r == *text,
{
    match text {
        Some(t) => Some(t.clone()),
        None => None,
    }
}

/// What going back to a view restores: its content, the sidebar item that opened it, the
/// subtitle, the cursor and the table's mode and state.
pub struct BreadcrumbEntry<C, M, T> {
    pub content: Arc<C>,
    pub api: Option<String>,
    pub subtitle: Option<String>,
    pub content_selected: usize,
    pub content_column_selected: usize,
    pub table_mode: M,
    pub table_state: T,
}

/// The content view with its history: `C` is what the view shows, `M` the table's mode and `T`
/// the table's drawing state.
pub struct NavigationState<C, M, T> {
    pub nav: NavState,
    pub content: Arc<C>,
    pub history: Vec<BreadcrumbEntry<C, M, T>>,
    pub content_selected: usize,
    pub content_column_selected: usize,
    pub table_mode: M,
    pub table_state: T,
    pub pagination: Option<PaginationInfo>,
}

/// The API view the sidebar's focused item opens, if any.
pub open spec fn focused_api(nav: NavState) -> Option<Seq<char>> {
    match nav.spec_selected_item() {
        Some(item) => opt_view(item.api),
        None => None,
    }
}

/// The pagination with its total moved by `delta` (one song more or fewer), held between 0 and
/// `u64::MAX`; no pagination stays none.
pub open spec fn shifted_total(pagination: Option<PaginationInfo>, delta: int) -> Option<PaginationInfo> {
    match pagination {
        Some(p) => {
            let moved = p.total + delta;
            Some(PaginationInfo {
                total: (if moved < 0 { 0 } else if moved > u64::MAX { u64::MAX as int } else { moved }) as u64,
                ..p
            })
        },
        None => None,
    }
}

/// The pagination with one song more (`up`) or fewer in its total.
fn shift_total(pagination: Option<PaginationInfo>, up: bool) -> (r: Option<PaginationInfo>)
    ensures
        r == shifted_total(pagination, if up { 1 } else { -1 }),
{
    match pagination {
        Some(mut p) => {
            p.total = if up { p.total.saturating_add(1) } else { p.total.saturating_sub(1) };
            Some(p)
        },
        None => None,
    }
}

/// `after` is the sidebar `nav` with its subtitle set to `subtitle` and, when `api` names a view,
/// the focus put back on the first item that opens it, as `NavState::restore_focus_by_api` does.
pub open spec fn refocused(nav: NavState, after: NavState, subtitle: Option<String>, api: Option<Seq<char>>) -> bool {
    &&& after.wf()
    &&& after.sections@ == nav.sections@
    &&& after.subtitle == subtitle
    &&& after.scroll_x == nav.scroll_x
    &&& match api {
        None => after.focus_section == nav.focus_section && after.selected@ == nav.selected@,
        Some(a) => {
            &&& (forall|k: int| 0 <= k < nav.sections@.len() ==> !section_has(#[trigger] nav.sections@[k], a))
                ==> after.focus_section == nav.focus_section && after.selected@ == nav.selected@
            &&& forall|s: int| first_section(nav.sections@, a, s) ==> {
                &&& after.focus_section == s
                &&& exists|i: int| first_item(nav.sections@[s], a, i)
                    && after.selected@ == nav.selected@.update(s, Some(i as usize))
            }
        },
    }
}

impl<C, M: Copy, T: Copy> NavigationState<C, M, T> {
    /// Whether `entry` saves the view on screen, opened from the item that opens `api`.
    pub open spec fn saves(self, entry: BreadcrumbEntry<C, M, T>, api: Option<Seq<char>>) -> bool {
        &&& entry.content == self.content
        &&& opt_view(entry.api) == api
        &&& entry.subtitle == self.nav.subtitle
        &&& entry.content_selected == self.content_selected
        &&& entry.content_column_selected == self.content_column_selected
        &&& entry.table_mode == self.table_mode
        &&& entry.table_state == self.table_state
    }

    /// Whether `after` is this state with the view on screen saved on top of the history.
    pub open spec fn pushed(self, after: Self) -> bool {
        &&& after.history@.len() == self.history@.len() + 1
        &&& after.history@.drop_last() == self.history@
        &&& self.saves(after.history@.last(), focused_api(self.nav))
        &&& after.nav == self.nav
        &&& after.content == self.content
        &&& after.content_selected == self.content_selected
        &&& after.content_column_selected == self.content_column_selected
        &&& after.table_mode == self.table_mode
        &&& after.table_state == self.table_state
        &&& after.pagination == self.pagination
    }

    /// Whether `after` is this state gone back to the last saved view.
    pub open spec fn popped(self, after: Self) -> bool {
        let entry = self.history@.last();
        &&& after.history@ == self.history@.drop_last()
        &&& after.content == entry.content
        &&& after.content_selected == entry.content_selected
        &&& after.content_column_selected == entry.content_column_selected
        &&& after.table_mode == entry.table_mode
        &&& after.table_state == entry.table_state
        &&& refocused(self.nav, after.nav, entry.subtitle, opt_view(entry.api))
        &&& after.pagination == self.pagination
    }

    /// Save the view on screen, and the sidebar item it was opened from, before another view
    /// replaces it. The screen itself is left as it is.
    pub fn push_breadcrumb(&mut self)
        ensures
            old(self).pushed(*final(self)),
    {
        let api = match self.nav.selected_api() {
            Some(a) => Some(crate::text::owned(a)),
            None => None,
        };
        proof {
            assert(opt_view(api) == focused_api(self.nav));
        }
        let entry = BreadcrumbEntry {
            content: share(&self.content),
            api,
            subtitle: copy_text(&self.nav.subtitle),
            content_selected: self.content_selected,
            content_column_selected: self.content_column_selected,
            table_mode: self.table_mode,
            table_state: self.table_state,
        };
        self.history.push(entry);
        proof {
            assert(self.history@.drop_last() =~= old(self).history@);
        }
    }

    /// Go back to the last saved view: its content, cursor, table mode and state and subtitle
    /// come back, and the sidebar's focus returns to the item it was opened from. `false`, with
    /// nothing changed, when there is no view to go back to.
    pub fn pop_breadcrumb(&mut self) -> (r: bool)
        requires
            old(self).nav.wf(),
        ensures
            r == (old(self).history@.len() > 0),
            !r ==> *final(self) == *old(self),
            r ==> old(self).popped(*final(self)),
    {
        if self.history.len() == 0 {
            return false;
        }
        let entry = self.history.pop().unwrap();
        self.content = entry.content;
        self.content_selected = entry.content_selected;
        self.content_column_selected = entry.content_column_selected;
        self.table_mode = entry.table_mode;
        self.table_state = entry.table_state;
        self.nav.subtitle = entry.subtitle;
        match &entry.api {
            Some(api) => self.nav.restore_focus_by_api(api.as_str()),
            None => {},
        }
        true
    }

    /// Keep the cursor on a row that exists once the content has lost a song and holds `len`
    /// items: the cursor moves up to the last row when it was past it, the table's selection
    /// follows it (none when nothing is left), and the pagination's total loses the song.
    /// Returns the selection the table takes.
    pub fn keep_cursor_after_removal(&mut self, len: usize) -> (selection: Option<usize>)
        ensures
            final(self).content_selected == (if old(self).content_selected as int <= len - 1 {
                old(self).content_selected as int
            } else if len > 0 {
                len - 1
            } else {
                0
            }),
            selection == (if len > 0 { Some(final(self).content_selected) } else { None::<usize> }),
            final(self).pagination == shifted_total(old(self).pagination, -1),
            final(self).nav == old(self).nav,
            final(self).content == old(self).content,
            final(self).history == old(self).history,
            final(self).content_column_selected == old(self).content_column_selected,
            final(self).table_mode == old(self).table_mode,
            final(self).table_state == old(self).table_state,
    {
        let last: usize = if len > 0 { len - 1 } else { 0 };
        if self.content_selected > last {
            self.content_selected = last;
        }
        self.pagination = shift_total(self.pagination.take(), false);
        if len > 0 { Some(self.content_selected) } else { None }
    }

    /// Follow the row the cursor was on once a song has been put at the top of the content:
    /// that row moved down by one, so the cursor does too, and so does the table's selection
    /// when it has one (`table_selected`); the pagination's total gains the song. Returns the
    /// selection the table takes, `None` when it had none and keeps none.
    pub fn follow_cursor_after_insertion(&mut self, table_selected: bool) -> (selection: Option<usize>)
        ensures
            final(self).content_selected == (if old(self).content_selected == usize::MAX {
                usize::MAX as int
            } else {
                old(self).content_selected + 1
            }),
            selection == (if table_selected { Some(final(self).content_selected) } else { None::<usize> }),
            final(self).pagination == shifted_total(old(self).pagination, 1),
            final(self).nav == old(self).nav,
            final(self).content == old(self).content,
            final(self).history == old(self).history,
            final(self).content_column_selected == old(self).content_column_selected,
            final(self).table_mode == old(self).table_mode,
            final(self).table_state == old(self).table_state,
    {
        self.content_selected = self.content_selected.saturating_add(1);
        self.pagination = shift_total(self.pagination.take(), true);
        if table_selected { Some(self.content_selected) } else { None }
    }

    /// Forget every saved view; the view on screen stays.
    pub fn clear_breadcrumb(&mut self)
        ensures
            final(self).history@.len() == 0,
            final(self).nav == old(self).nav,
            final(self).content == old(self).content,
            final(self).content_selected == old(self).content_selected,
            final(self).content_column_selected == old(self).content_column_selected,
            final(self).table_mode == old(self).table_mode,
            final(self).table_state == old(self).table_state,
            final(self).pagination == old(self).pagination,
    {
        self.history.clear();
    }
}

/// Going back undoes opening: saving the view on screen and then going back leaves the history
/// as it was and brings back the same content, cursor, table mode and state and subtitle, with
/// the sidebar's sections and scroll untouched; the focus comes back to the item the view was
/// opened from.
pub proof fn going_back_restores_the_saved_view<C, M: Copy, T: Copy>(
    before: NavigationState<C, M, T>,
    pushed: NavigationState<C, M, T>,
    after: NavigationState<C, M, T>,
)
    requires
        before.pushed(pushed),
        pushed.popped(after),
    ensures
        after.history@ == before.history@,
        after.content == before.content,
        after.content_selected == before.content_selected,
        after.content_column_selected == before.content_column_selected,
        after.table_mode == before.table_mode,
        after.table_state == before.table_state,
        after.pagination == before.pagination,
        refocused(before.nav, after.nav, before.nav.subtitle, focused_api(before.nav)),
{
}

/// When the focused item is the first in the sidebar to open its view, or opens none, going
/// back after opening another view leaves the sidebar exactly as it was.
pub proof fn going_back_keeps_the_sidebar_focus<C, M: Copy, T: Copy>(
    before: NavigationState<C, M, T>,
    pushed: NavigationState<C, M, T>,
    after: NavigationState<C, M, T>,
)
    requires
        before.nav.wf(),
        before.pushed(pushed),
        pushed.popped(after),
        focused_api(before.nav) matches Some(a) ==> {
            &&& first_section(before.nav.sections@, a, before.nav.focus_section as int)
            &&& first_item(before.nav.sections@[before.nav.focus_section as int], a,
                before.nav.selected@[before.nav.focus_section as int]->0 as int)
        },
    ensures
        after.nav.sections@ == before.nav.sections@,
        after.nav.selected@ == before.nav.selected@,
        after.nav.focus_section == before.nav.focus_section,
        after.nav.subtitle == before.nav.subtitle,
        after.nav.scroll_x == before.nav.scroll_x,
{
}

} // verus!

//! The navigation sidebar: sections of items, one cursor per section, and the section that has
//! the focus.
use vstd::prelude::*;
use crate::text::str_eq;

verus! {

/// One entry of the sidebar: what it is called and the API view it opens, if any.
#[derive(Debug)]
pub struct NavItem {
    pub name: String,
    pub api: Option<String>,
}

/// A section of the sidebar.
#[derive(Debug)]
pub struct NavSection {
    pub name: String,
    pub items: Vec<NavItem>,
}

/// Whether `item` opens the view `api`.
pub open spec fn opens(item: NavItem, api: Seq<char>) -> bool {
    item.api matches Some(a) && a@ == api
}

/// Whether section `s` has an item that opens `api`.
pub open spec fn section_has(s: NavSection, api: Seq<char>) -> bool {
    exists|i: int| 0 <= i < s.items@.len() && opens(#[trigger] s.items@[i], api)
}

/// The first item of `s` that opens `api`.
pub open spec fn first_item(s: NavSection, api: Seq<char>, i: int) -> bool {
    &&& 0 <= i < s.items@.len()
    &&& opens(s.items@[i], api)
    &&& forall|j: int| 0 <= j < i ==> !opens(#[trigger] s.items@[j], api)
}

/// The first section that has an item opening `api`.
pub open spec fn first_section(sections: Seq<NavSection>, api: Seq<char>, s: int) -> bool {
    &&& 0 <= s < sections.len()
    &&& section_has(sections[s], api)
    &&& forall|k: int| 0 <= k < s ==> !section_has(#[trigger] sections[k], api)
}

/// The sidebar's state.
#[derive(Debug)]
pub struct NavState {
    pub sections: Vec<NavSection>,
    /// The cursor of each section, by position: `None` in an empty section.
    pub selected: Vec<Option<usize>>,
    pub focus_section: usize,
    pub subtitle: Option<String>,
    /// Horizontal scroll offset, in cells, of the top navigation mode.
    pub scroll_x: u16,
}

impl NavState {
    /// One cursor per section.
    pub open spec fn wf(&self) -> bool {
        self.selected@.len() == self.sections@.len()
    }

    /// The sidebar for the configured sections, or for `defaults` when none are configured;
    /// each section's cursor starts on its first item, when it has one.
    pub fn from_config(sections: Vec<NavSection>, defaults: Vec<NavSection>) -> (r: Self)
        ensures
            r.wf(),
            r.sections@ == (if sections@.len() == 0 { defaults@ } else { sections@ }),
            forall|k: int| 0 <= k < r.sections@.len() ==> #[trigger] r.selected@[k]
                == (if r.sections@[k].items@.len() > 0 { Some(0usize) } else { None::<usize> }),
            r.focus_section == 0,
            r.subtitle.is_none(),
            r.scroll_x == 0,
    {
        let sections = if sections.len() == 0 { defaults } else { sections };
        let mut selected: Vec<Option<usize>> = Vec::new();
        let mut k: usize = 0;
        while k < sections.len()
            invariant
                k <= sections.len(),
                selected@.len() == k,
                forall|j: int| 0 <= j < k ==> #[trigger] selected@[j]
                    == (if sections@[j].items@.len() > 0 { Some(0usize) } else { None::<usize> }),
            decreases sections.len() - k,
        {
            if sections[k].items.len() > 0 {
                selected.push(Some(0));
            } else {
                selected.push(None);
            }
            k = k + 1;
        }
        NavState { sections, selected, focus_section: 0, subtitle: None, scroll_x: 0 }
    }

    /// Put the focus back on the item that opens `api`: the first section holding one, and the
    /// first such item in it. Nothing changes when no item opens it.
    pub fn restore_focus_by_api(&mut self, api: &str)
        requires
            old(self).wf(),
        ensures
            final(self).wf(),
            final(self).sections@ == old(self).sections@,
            final(self).subtitle == old(self).subtitle,
            final(self).scroll_x == old(self).scroll_x,
            (forall|k: int| 0 <= k < old(self).sections@.len() ==> !section_has(#[trigger] old(self).sections@[k], api@))
                ==> *final(self) == *old(self),
            forall|s: int| first_section(old(self).sections@, api@, s) ==> {
                &&& final(self).focus_section == s
                &&& exists|i: int| first_item(old(self).sections@[s], api@, i)
                    && final(self).selected@ == old(self).selected@.update(s, Some(i as usize))
            },
    {
        let mut s: usize = 0;
        while s < self.sections.len()
            invariant
                self.wf(),
                s <= self.sections@.len(),
                *self == *old(self),
                forall|k: int| 0 <= k < s ==> !section_has(#[trigger] self.sections@[k], api@),
            decreases self.sections@.len() - s,
        {
            let mut i: usize = 0;
            while i < self.sections[s].items.len()
                invariant
                    self.wf(),
                    s < self.sections@.len(),
                    i <= self.sections@[s as int].items@.len(),
                    *self == *old(self),
                    forall|k: int| 0 <= k < s ==> !section_has(#[trigger] self.sections@[k], api@),
                    forall|j: int| 0 <= j < i ==> !opens(#[trigger] self.sections@[s as int].items@[j], api@),
                decreases self.sections@[s as int].items@.len() - i,
            {
                let hit = match &self.sections[s].items[i].api {
                    Some(a) => str_eq(a.as_str(), api),
                    None => false,
                };
                if hit {
                    proof {
                        assert(opens(self.sections@[s as int].items@[i as int], api@));
                        assert(section_has(self.sections@[s as int], api@));
                        assert(first_section(old(self).sections@, api@, s as int));
                        assert(first_item(old(self).sections@[s as int], api@, i as int));
                        assert forall|t: int| first_section(old(self).sections@, api@, t) implies t == s by {
                            if t < s {
                                assert(!section_has(old(self).sections@[t], api@));
                            } else if t > s {
                                assert(!section_has(old(self).sections@[s as int], api@));
                            }
                        }
                    }
                    self.focus_section = s;
                    self.selected.set(s, Some(i));
                    return;
                }
                i = i + 1;
            }
            proof {
                assert forall|j: int| 0 <= j < self.sections@[s as int].items@.len()
                    implies !opens(#[trigger] self.sections@[s as int].items@[j], api@) by {}
            }
            s = s + 1;
        }
    }

    /// The focused section, if the focus is on one.
    pub fn focused_section(&self) -> (r: Option<&NavSection>)
        ensures
            r == (if self.focus_section < self.sections@.len() {
                Some(&self.sections@[self.focus_section as int])
            } else {
                None::<&NavSection>
            }),
    {
        if self.focus_section < self.sections.len() {
            Some(&self.sections[self.focus_section])
        } else {
            None
        }
    }

    /// The cursor of the focused section.
    pub fn selected_index(&self) -> (r: Option<usize>)
        ensures
            r == (if self.focus_section < self.selected@.len() {
                self.selected@[self.focus_section as int]
            } else {
                None::<usize>
            }),
    {
        if self.focus_section < self.selected.len() {
            self.selected[self.focus_section]
        } else {
            None
        }
    }

    /// The item the focused section's cursor is on, if any.
    pub open spec fn spec_selected_item(&self) -> Option<NavItem> {
        if self.focus_section < self.sections@.len() && self.focus_section < self.selected@.len() {
            match self.selected@[self.focus_section as int] {
                Some(i) => if i < self.sections@[self.focus_section as int].items@.len() {
                    Some(self.sections@[self.focus_section as int].items@[i as int])
                } else {
                    None
                },
                None => None,
            }
        } else {
            None
        }
    }

    /// The focused and selected item, if any.
    pub fn selected_item(&self) -> (r: Option<&NavItem>)
        ensures
            r == match self.spec_selected_item() {
                Some(item) => Some(&item),
                None => None::<&NavItem>,
            },
    {
        match self.focused_section() {
            Some(section) => match self.selected_index() {
                Some(i) => if i < section.items.len() { Some(&section.items[i]) } else { None },
                None => None,
            },
            None => None,
        }
    }

    /// The API view of the focused item, if it opens one.
    pub fn selected_api(&self) -> (r: Option<&str>)
        ensures
            r matches Some(a) ==> (self.spec_selected_item() matches Some(item) && (item.api matches Some(x) && x@ == a@)),
            r is None ==> (self.spec_selected_item() is None || self.spec_selected_item()->0.api is None),
    {
        match self.selected_item() {
            Some(item) => match &item.api {
                Some(a) => Some(a.as_str()),
                None => None,
            },
            None => None,
        }
    }

    /// The name of the focused item, if any.
    pub fn selected_name(&self) -> (r: Option<&str>)
        ensures
            r matches Some(n) ==> (self.spec_selected_item() matches Some(item) && item.name@ == n@),
            r is None ==> self.spec_selected_item() is None,
    {
        match self.selected_item() {
            Some(item) => Some(item.name.as_str()),
            None => None,
        }
    }
}

} // verus!

//! A popup's state: whether it is up, where the reader is in it, and how far it goes.
use vstd::prelude::*;

verus! {

/// Whether a popup is up, and where in it the reader is.
pub struct PopupState {
    pub open: bool,
    pub scroll: usize,
    /// Scroll limit of the last rendered popup, refreshed on every draw.
    pub max_scroll: usize,
}

impl Default for PopupState {
    /// Closed, at the top, with nothing to scroll.
    fn default() -> (r: Self)
        ensures
            !r.open,
            r.scroll == 0,
            r.max_scroll == 0,
    {
        PopupState { open: false, scroll: 0, max_scroll: 0 }
    }
}

impl PopupState {
    /// Bring the popup up at its first line.
    pub fn open(&mut self)
        ensures
            *final(self) == old(self).opened(),
    {
        self.open = true;
        self.scroll = 0;
    }

    /// Close an open popup, open a closed one (at its first line).
    pub fn toggle(&mut self)
        ensures
            *final(self) == old(self).toggled(),
    {
        if self.open {
            self.close();
        } else {
            self.open();
        }
    }

    /// Take the popup down; where the reader was is kept.
    pub fn close(&mut self)
        ensures
            *final(self) == old(self).closed(),
    {
        self.open = false;
    }

    /// One line up; there is nothing above the first line.
    pub fn scroll_up(&mut self)
        ensures
            final(self).scroll == if old(self).scroll == 0 { 0 } else { old(self).scroll - 1 },
            final(self).open == old(self).open,
            final(self).max_scroll == old(self).max_scroll,
    {
        self.scroll = self.scroll.saturating_sub(1);
    }

    /// One line down, stopping at the limit the last draw reported.
    pub fn scroll_down(&mut self)
        requires
            old(self).scroll < usize::MAX,
        ensures
            *final(self) == old(self).scrolled_down(),
    {
        let next = self.scroll + 1;
        self.scroll = if next < self.max_scroll { next } else { self.max_scroll };
    }

    /// The first line.
    pub fn scroll_top(&mut self)
        ensures
            final(self).scroll == 0,
            final(self).open == old(self).open,
            final(self).max_scroll == old(self).max_scroll,
    {
        self.scroll = 0;
    }

    /// The last place the view can reach.
    pub fn scroll_bottom(&mut self)
        ensures
            final(self).scroll == old(self).max_scroll,
            final(self).open == old(self).open,
            final(self).max_scroll == old(self).max_scroll,
    {
        self.scroll = self.max_scroll;
    }
}

impl PopupState {
    /// The popup after `open`.
    pub open spec fn opened(self) -> PopupState {
        PopupState { open: true, scroll: 0, ..self }
    }

    /// The popup after `close`.
    pub open spec fn closed(self) -> PopupState {
        PopupState { open: false, ..self }
    }

    /// The popup after `toggle`.
    pub open spec fn toggled(self) -> PopupState {
        if self.open { self.closed() } else { self.opened() }
    }

    /// The popup after `scroll_down`.
    pub open spec fn scrolled_down(self) -> PopupState {
        PopupState {
            scroll: if self.scroll + 1 < self.max_scroll { (self.scroll + 1) as usize } else { self.max_scroll },
            ..self
        }
    }
}

/// Scrolling down from anywhere within the reported limit stays within it, and at the limit it
/// stays put: the reader never has to scroll back through empty space.
pub proof fn scrolling_down_stops_at_the_limit(p: PopupState)
    requires
        p.scroll <= p.max_scroll,
    ensures
        p.scrolled_down().scroll <= p.max_scroll,
        p.scroll == p.max_scroll ==> p.scrolled_down() == p,
{
}

/// Toggling twice leaves the popup up or down as it was, and one that was up comes back at its
/// first line.
pub proof fn toggling_twice_restores_the_popup(p: PopupState)
    ensures
        p.toggled().toggled().open == p.open,
        p.open ==> p.toggled().toggled() == p.opened(),
        !p.open ==> p.toggled().toggled() == p.opened().closed(),
{
}

} // verus!

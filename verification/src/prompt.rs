//! The vim-style `:` command line and the lines that ran on it.
use vstd::prelude::*;
use crate::text::str_eq;
use crate::text_input::TextInput;

verus! {

/// Single-line ex prompt: `:` opens it, `Enter` runs the line, `Esc` drops it.
pub struct PromptState {
    pub active: bool,
    pub input: TextInput,
    /// Lines that ran, most recent last.
    pub history: Vec<String>,
    /// Where in `history` the line being edited came from; `None` while it is a fresh draft.
    pub history_index: Option<usize>,
}

impl Default for PromptState {
    /// Closed, with an empty line and no history.
    fn default() -> (r: Self)
        ensures
            !r.active,
            r.input.value@ == Seq::<char>::empty(),
            r.lines() == Seq::<Seq<char>>::empty(),
            r.history_index is None,
    {
        let r = PromptState { active: false, input: TextInput::new(), history: Vec::new(), history_index: None };
        assert(r.lines() =~= Seq::<Seq<char>>::empty());
        r
    }
}

impl PromptState {
    /// The lines that ran, oldest first.
    pub open spec fn lines(&self) -> Seq<Seq<char>> {
        self.history@.map_values(|s: String| s@)
    }

    /// The walk through the history points into it, when it points anywhere.
    pub open spec fn wf(&self) -> bool {
        self.history_index matches Some(i) ==> i < self.history.len()
    }

    /// Whether `remember(line)` keeps `line`: not empty, and not the line right before it.
    pub open spec fn keeps(&self, line: Seq<char>) -> bool {
        line.len() > 0 && !(self.lines().len() > 0 && self.lines().last() == line)
    }

    /// Where `Up` lands, if anywhere.
    pub open spec fn previous_index(&self) -> Option<usize> {
        match self.history_index {
            None => if self.history.len() > 0 { Some((self.history.len() - 1) as usize) } else { None },
            Some(i) => if i == 0 { None } else { Some((i - 1) as usize) },
        }
    }

    /// Remember a line that ran: vim's `:` history, minus repeats of the line right before.
    pub fn remember(&mut self, line: &str)
        ensures
            old(self).keeps(line@) ==> {
                &&& final(self).lines() == old(self).lines().push(line@)
                &&& final(self).history_index is None
            },
            !old(self).keeps(line@) ==> final(self).lines() == old(self).lines()
                && final(self).history_index == old(self).history_index,
            final(self).active == old(self).active,
            final(self).input == old(self).input,
            old(self).wf() ==> final(self).wf(),
    {
        if line.is_empty() {
            return;
        }
        let n = self.history.len();
        if n > 0 && str_eq(self.history[n - 1].as_str(), line) {
            return;
        }
        self.history.push(line.to_owned());
        self.history_index = None;
        assert(self.lines() =~= old(self).lines().push(line@));
    }

    /// `Up`: step towards older lines, stopping at the oldest.
    pub fn recall_previous(&mut self)
        requires
            old(self).wf(),
        ensures
            final(self).wf(),
            final(self).history == old(self).history,
            final(self).active == old(self).active,
            match old(self).previous_index() {
                Some(k) => {
                    &&& final(self).history_index == Some(k)
                    &&& final(self).input.value@ == old(self).lines()[k as int]
                    &&& final(self).input.caret() == old(self).lines()[k as int].len()
                },
                None => final(self).history_index == old(self).history_index
                    && final(self).input == old(self).input,
            },
    {
        let index = match self.history_index {
            None => if self.history.len() > 0 { Some(self.history.len() - 1) } else { None },
            Some(i) => if i == 0 { None } else { Some(i - 1) },
        };
        if let Some(index) = index {
            self.history_index = Some(index);
            let line = self.history[index].clone();
            self.set_input(line.as_str());
        }
    }

    /// `Down`: step towards newer lines, and past the newest back to an empty draft.
    pub fn recall_next(&mut self)
        requires
            old(self).wf(),
        ensures
            final(self).wf(),
            final(self).history == old(self).history,
            final(self).active == old(self).active,
            match old(self).history_index {
                None => final(self).history_index is None && final(self).input == old(self).input,
                Some(i) => if i + 1 < old(self).history.len() {
                    &&& final(self).history_index == Some((i + 1) as usize)
                    &&& final(self).input.value@ == old(self).lines()[i + 1]
                    &&& final(self).input.caret() == old(self).lines()[i + 1].len()
                } else {
                    &&& final(self).history_index is None
                    &&& final(self).input.value@ == Seq::<char>::empty()
                    &&& final(self).input.caret() == 0
                },
            },
    {
        proof { reveal_strlit(""); }
        let index = match self.history_index {
            None => return,
            Some(i) => if i + 1 < self.history.len() { Some(i + 1) } else { None },
        };
        self.history_index = index;
        match index {
            Some(k) => {
                let line = self.history[k].clone();
                self.set_input(line.as_str());
            },
            None => self.set_input(""),
        }
    }

    /// Typing leaves the history walk, so the next `Up` starts from the newest line again.
    pub fn leave_history(&mut self)
        ensures
            final(self).history_index is None,
            final(self).history == old(self).history,
            final(self).input == old(self).input,
            final(self).active == old(self).active,
    {
        self.history_index = None;
    }

    /// Replace the line being edited with `line`, caret at the end.
    fn set_input(&mut self, line: &str)
        ensures
            final(self).input.value@ == line@,
            final(self).input.caret() == line@.len(),
            final(self).history == old(self).history,
            final(self).history_index == old(self).history_index,
            final(self).active == old(self).active,
    {
        self.input = TextInput::typed(line);
    }
}

/// Walking back with `Up` and forward again with `Down` returns to the line it started from:
/// from any line but the oldest, one step back and one step forward is the same line.
pub proof fn up_then_down_returns(p: PromptState, i: usize)
    requires
        p.wf(),
        p.history_index == Some(i),
        i > 0,
    ensures
        p.previous_index() == Some((i - 1) as usize),
        (i - 1) + 1 < p.history.len(),
{
}

/// A line is never remembered twice in a row: after `remember(line)` the newest line is `line`
/// whether it was kept or not, unless it was empty.
pub proof fn the_newest_line_is_the_last_remembered(p: PromptState, line: Seq<char>)
    requires
        line.len() > 0,
    ensures
        p.keeps(line) ==> p.lines().push(line).last() == line,
        !p.keeps(line) ==> p.lines().last() == line,
{
}

} // verus!

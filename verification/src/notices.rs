//! The notices the app has raised: what a toast says, and what `:messages` lists.
use vstd::prelude::*;
use std::collections::VecDeque;
use std::time::Instant;
use crate::clock::{elapsed_ms, instant_now};

verus! {

/// How bad a notice is: it decides what the toast looks like, and nothing else.
#[derive(Debug, Clone, Copy, PartialEq, Eq, Structural)]
pub enum Level {
    Info,
    Warn,
    Error,
}

/// How long a notice of each level stays on screen, in milliseconds.
pub open spec fn linger_ms(level: Level) -> u64 {
    match level {
        Level::Info => 3000,
        Level::Warn => 5000,
        Level::Error => 8000,
    }
}

impl Level {
    /// How long a notice of this level stays on screen, in milliseconds. A failure is worth
    /// reading for longer than a confirmation.
    pub fn linger(self) -> (r: u64)
        ensures
            r == linger_ms(self),
    {
        match self {
            Level::Info => 3000,
            Level::Warn => 5000,
            Level::Error => 8000,
        }
    }
}

/// One notice.
pub struct Notice {
    pub level: Level,
    pub text: String,
    /// When it was raised, in milliseconds on the list's clock.
    pub at: u64,
}

/// How many notices are kept for `:messages`.
pub const KEEP: usize = 100;

/// The notices, oldest first, capped: what is dropped is the oldest.
pub struct Notices {
    entries: VecDeque<Notice>,
    /// Where the list's clock starts.
    start: Instant,
}

/// Whether a notice raised at `at` is still worth reading at `now`.
pub open spec fn still_shown(notice: Notice, now: u64) -> bool {
    (if now >= notice.at { now - notice.at } else { 0 }) < linger_ms(notice.level)
}

impl Default for Notices {
    /// No notice yet.
    fn default() -> (r: Self)
        ensures
            r.notices() == Seq::<Notice>::empty(),
    {
        Notices { entries: VecDeque::new(), start: instant_now() }
    }
}

impl Notices {
    /// Every notice kept, oldest first.
    pub closed spec fn notices(&self) -> Seq<Notice> {
        self.entries@
    }

    /// The list never holds more than [`KEEP`] notices.
    pub open spec fn wf(&self) -> bool {
        self.notices().len() <= KEEP
    }

    /// Raise a notice, stamped with the time it was raised.
    pub fn push(&mut self, level: Level, text: &str)
        requires
            old(self).wf(),
        ensures
            final(self).wf(),
            final(self).notices().len() > 0,
            final(self).notices().last().level == level,
            final(self).notices().last().text@ == text@,
            ({
                let pushed = old(self).notices().push(final(self).notices().last());
                final(self).notices() == if pushed.len() > KEEP { pushed.skip(1) } else { pushed }
            }),
    {
        let at = elapsed_ms(&self.start);
        self.push_at(level, text, at);
    }

    /// The time now on the list's clock, in milliseconds: what [`Notices::latest`] compares a
    /// notice's stamp with.
    pub fn clock_ms(&self) -> u64 {
        elapsed_ms(&self.start)
    }

    /// Raise a notice stamped with `at`.
    pub fn push_at(&mut self, level: Level, text: &str, at: u64)
        requires
            old(self).wf(),
        ensures
            final(self).wf(),
            ({
                let pushed = old(self).notices().push(final(self).notices().last());
                &&& final(self).notices().len() > 0
                &&& final(self).notices().last().level == level
                &&& final(self).notices().last().text@ == text@
                &&& final(self).notices().last().at == at
                &&& final(self).notices() == if pushed.len() > KEEP { pushed.skip(1) } else { pushed }
            }),
    {
        broadcast use vstd::std_specs::vecdeque::group_vec_dequeue_axioms;
        let notice = Notice { level, text: text.to_owned(), at };
        let ghost before = self.entries@;
        self.entries.push_back(notice);
        if self.entries.len() > KEEP {
            let _ = self.entries.pop_front();
            assert(self.entries@ =~= before.push(notice).skip(1));
        }
    }

    /// The notice the toast shows: the newest, while it is still worth reading.
    pub fn latest(&self, now: u64) -> (r: Option<&Notice>)
        ensures
            match r {
                Some(n) => self.notices().len() > 0 && *n == self.notices().last()
                    && still_shown(self.notices().last(), now),
                None => self.notices().len() == 0 || !still_shown(self.notices().last(), now),
            },
    {
        broadcast use vstd::std_specs::vecdeque::group_vec_dequeue_axioms;
        let n = self.entries.len();
        if n == 0 {
            return None;
        }
        let notice = &self.entries[n - 1];
        if now.saturating_sub(notice.at) < notice.level.linger() {
            Some(notice)
        } else {
            None
        }
    }

    /// Every notice kept, oldest first, for `:messages`.
    pub fn all(&self) -> (r: std::collections::vec_deque::Iter<'_, Notice>)
        ensures
            vstd::std_specs::vecdeque::into_iter_elts(r).len() == self.notices().len(),
            forall|i: int| 0 <= i < self.notices().len() ==>
                *#[trigger] vstd::std_specs::vecdeque::into_iter_elts(r)[i] == self.notices()[i],
    {
        broadcast use vstd::std_specs::vecdeque::group_vec_dequeue_axioms;
        self.entries.iter()
    }

    /// Forget every notice.
    pub fn clear(&mut self)
        ensures
            final(self).notices() == Seq::<Notice>::empty(),
    {
        self.entries.clear();
    }

    pub fn is_empty(&self) -> (r: bool)
        ensures
            r == (self.notices().len() == 0),
    {
        broadcast use vstd::std_specs::vecdeque::group_vec_dequeue_axioms;
        self.entries.len() == 0
    }
}

/// The newest notice replaces the one before it on screen: after a push, whatever the list held,
/// the notice the toast would show is the new one, and it is shown exactly while its level lasts
/// from the moment it was raised.
pub proof fn the_toast_is_the_newest_notice(kept: Seq<Notice>, new: Notice, now: u64)
    requires
        kept.len() <= KEEP,
    ensures
        ({
            let pushed = kept.push(new);
            let after = if pushed.len() > KEEP { pushed.skip(1) } else { pushed };
            &&& after.len() > 0
            &&& after.last() == new
            &&& (still_shown(after.last(), now) <==> (if now >= new.at { now - new.at } else { 0 }) < linger_ms(new.level))
        }),
{
}

/// An error is worth reading for longer than a warning, and a warning longer than a confirmation.
pub proof fn an_error_lingers_longest()
    ensures
        linger_ms(Level::Error) > linger_ms(Level::Warn) > linger_ms(Level::Info),
{
}

/// The history keeps the newest: once full, a push drops exactly the oldest notice and keeps the
/// rest in order, with the new one last.
pub proof fn the_history_drops_only_the_oldest(kept: Seq<Notice>, new: Notice)
    requires
        kept.len() == KEEP,
    ensures
        kept.push(new).skip(1).len() == KEEP,
        kept.push(new).skip(1).last() == new,
        forall|i: int| 0 <= i < KEEP - 1 ==> #[trigger] kept.push(new).skip(1)[i] == kept[i + 1],
{
}

} // verus!

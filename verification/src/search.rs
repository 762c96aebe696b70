//! The search prompt's state: whether it is open, what has been typed, and — when it filters the
//! queue rather than searching the catalogue — the songs the filter started from.
use vstd::prelude::*;
use std::sync::Arc;
use crate::song::SongInfo;
use crate::text_input::TextInput;

verus! {

#[derive(Debug)]
pub struct SearchState {
    pub active: bool,
    pub input: TextInput,
    /// The prompt filters the queue instead of searching the catalogue.
    pub filter_queue_only: bool,
    /// The songs before the filter narrowed them, to put back when it is cleared.
    pub unfiltered_songs: Option<Vec<Arc<SongInfo>>>,
}

impl Default for SearchState {
    /// A closed prompt with nothing typed.
    fn default() -> (r: Self)
        ensures
            !r.active,
            r.input.value@ == Seq::<char>::empty(),
            r.input.caret() == 0,
            !r.filter_queue_only,
            r.unfiltered_songs.is_none(),
    {
        SearchState { active: false, input: TextInput::default(), filter_queue_only: false, unfiltered_songs: None }
    }
}

} // verus!

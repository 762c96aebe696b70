//! What the player does with an error the audio stream reports.
use vstd::prelude::*;
use crate::source::{contains_run, contains_str};

verus! {

/// Whether a stream error is one the audio backend recovers from by itself: a buffer underrun
/// or overrun is a hiccup, not a reason to put an error on the player bar.
pub open spec fn spec_is_transient(err: Seq<char>) -> bool {
    contains_run(err, "buffer underrun"@) || contains_run(err, "overrun"@)
}

/// Whether the player should let `err` pass without showing it.
pub fn is_transient_error(err: &str) -> (r: bool)
    ensures
        r == spec_is_transient(err@),
{
    contains_str(err, "buffer underrun") || contains_str(err, "overrun")
}

} // verus!

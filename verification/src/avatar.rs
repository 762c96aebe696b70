//! The signed-in user's own portrait, drawn at the topbar's right end.
//!
//! One portrait per session: it is fetched when a login lands and dropped when the session ends.
//! The download runs elsewhere, so a load carries the session it was started for, and a load
//! that lands after its session ended is dropped instead of putting that session's face back.
use vstd::prelude::*;
use crate::text::{append, decimal, decimal_string, owned};

verus! {

/// Pixels the API is asked for, through its own `?param=` resize parameter.
pub const PIXELS: u32 = 120;

/// `url` with the API's resize parameter asking for a `pixels`-square picture.
pub open spec fn spec_resized_url(url: Seq<char>, pixels: nat) -> Seq<char> {
    url + "?param="@ + decimal(pixels) + seq!['y'] + decimal(pixels)
}

/// The address a picture is downloaded from, asking the API to resize it; `None` for an empty
/// URL, which has nothing behind it to download.
pub fn resized_url(url: &str, pixels: u32) -> (r: Option<String>)
    ensures
        url@.len() == 0 ==> r.is_none(),
        url@.len() > 0 ==> (r matches Some(u) && u@ == spec_resized_url(url@, pixels as nat)),
{
    if url.is_empty() {
        return None;
    }
    let n = decimal_string(pixels as u64);
    let mut out = owned(url);
    append(&mut out, "?param=");
    append(&mut out, n.as_str());
    append(&mut out, "y");
    append(&mut out, n.as_str());
    proof {
        reveal_strlit("y");
        assert(out@ =~= spec_resized_url(url@, pixels as nat));
    }
    Some(out)
}

/// The portrait slot: the session it belongs to, and the portrait once it has landed.
pub struct PortraitSlot<P> {
    session: u64,
    portrait: Option<P>,
}

impl<P> PortraitSlot<P> {
    /// The session loads are started for now.
    pub closed spec fn current(&self) -> u64 {
        self.session
    }

    /// The portrait the bar draws, if one has landed.
    pub closed spec fn shown(&self) -> Option<P> {
        self.portrait
    }

    /// The slot once its session has ended: the next session, and no portrait.
    pub closed spec fn cleared(self) -> Self {
        PortraitSlot { session: (self.session + 1) as u64, portrait: None }
    }

    /// The slot after a load for `session` landed with `portrait`, and whether it went in.
    pub closed spec fn installed(self, session: u64, portrait: P) -> (Self, bool) {
        if self.session == session {
            (PortraitSlot { session: self.session, portrait: Some(portrait) }, true)
        } else {
            (self, false)
        }
    }

    /// An empty slot for the first session.
    pub fn new() -> (r: Self)
        ensures
            r.current() == 0,
            r.shown().is_none(),
    {
        PortraitSlot { session: 0, portrait: None }
    }

    /// The portrait for the frame that is being drawn; `None` until the download has landed,
    /// and when it failed.
    pub fn portrait(&self) -> (r: Option<&P>)
        ensures
            r == match self.shown() {
                Some(p) => Some(&p),
                None => None::<&P>,
            },
    {
        match &self.portrait {
            Some(p) => Some(p),
            None => None,
        }
    }

    /// Forget the portrait: its session is over. A load already in flight is dropped when it
    /// lands, because it carries the session it was started for.
    pub fn clear(&mut self)
        requires
            old(self).current() < u64::MAX,
        ensures
            *final(self) == old(self).cleared(),
            final(self).current() == old(self).current() + 1,
            final(self).shown().is_none(),
    {
        self.session = self.session + 1;
        self.portrait = None;
    }

    /// The session a load belongs to: taken before the load starts, checked when it lands.
    pub fn session(&self) -> (r: u64)
        ensures
            r == self.current(),
    {
        self.session
    }

    /// Install a portrait that just finished loading, unless the session it was fetched for is
    /// over. Returns whether it went in, which is what the caller repaints for.
    pub fn install(&mut self, session: u64, portrait: P) -> (r: bool)
        ensures
            (*final(self), r) == old(self).installed(session, portrait),
            r == (session == old(self).current()),
            final(self).current() == old(self).current(),
            final(self).shown() == (if r { Some(portrait) } else { old(self).shown() }),
    {
        if self.session != session {
            return false;
        }
        self.portrait = Some(portrait);
        true
    }
}

/// Logging out forgets the portrait, and a load that was on its way when it happened lands in
/// the empty slot without going in; a load for the session that is current does go in.
pub proof fn a_load_from_a_finished_session_is_dropped<P>(slot: PortraitSlot<P>, portrait: P)
    requires
        slot.current() < u64::MAX,
    ensures
        slot.cleared().installed(slot.current(), portrait) == (slot.cleared(), false),
        slot.cleared().shown().is_none(),
        slot.installed(slot.current(), portrait).1,
        slot.installed(slot.current(), portrait).0.shown() == Some(portrait),
{
}

} // verus!

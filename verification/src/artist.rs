//! The artist page: who it shows, what has loaded for them, and the cursor over their hot songs.
//!
//! The page loads on its own rather than as table content: a profile must not replace what the
//! main page shows. Each load is numbered, and what a load reports is taken in only while it is
//! the page's latest one, so the answer to a load the reader has already moved past never lands.
use vstd::prelude::*;
use crate::song::SongInfo;

verus! {

/// Edge of the portrait request, in pixels.
pub const ARTIST_PORTRAIT_PIXELS: u32 = 240;

/// How many albums the page asks for: one API page is the whole pane.
pub const ARTIST_ALBUM_LIMIT: u16 = 50;

/// The profile the API returns for an artist.
#[derive(Debug)]
pub struct ArtistDetail {
    pub id: u64,
    pub name: String,
    pub pic_url: String,
    pub alias: Vec<String>,
    pub brief_desc: String,
    pub music_size: u64,
    pub album_size: u64,
    pub hot_songs: Vec<SongInfo>,
}

/// One of an artist's albums.
#[derive(Debug)]
pub struct ArtistAlbum {
    pub id: u64,
    pub name: String,
    pub size: u64,
    /// Release time, in milliseconds since the epoch.
    pub publish_time: u64,
}

/// What the artist page has to draw.
#[derive(Debug)]
pub enum ArtistData {
    /// The profile request is out.
    Loading,
    /// Profile and hot songs are in; the album list is a second request, and when it fails only
    /// the album pane says so.
    Ready { detail: ArtistDetail, albums: Result<Vec<ArtistAlbum>, String> },
    /// The profile request itself failed.
    Failed(String),
}

/// What a running load reports back to the page; `P` is the decoded portrait.
#[derive(Debug)]
pub enum ArtistMsg<P> {
    Ready { detail: ArtistDetail, albums: Result<Vec<ArtistAlbum>, String> },
    Failed(String),
    Avatar(P),
}

/// The artist page's own state; `P` is the portrait decoded for the terminal's image protocol.
#[derive(Debug)]
pub struct ArtistState<P> {
    /// The artist the page is showing; 0 before the first open.
    pub id: u64,
    /// Name and portrait URL from the list row that opened the page, until the profile lands.
    pub name: String,
    pub pic_url: String,
    pub data: ArtistData,
    /// Cursor over the hot songs of a loaded profile.
    pub song_selected: usize,
    /// The portrait, once it arrives; it stays `None` when its download failed.
    pub avatar: Option<P>,
    /// The number of the latest load, 0 before the first.
    pub load: u64,
}

/// The hot songs of a loaded profile; none while loading and after a failure.
pub open spec fn hot_songs_of(data: ArtistData) -> Seq<SongInfo> {
    match data {
        ArtistData::Ready { detail, .. } => detail.hot_songs@,
        _ => Seq::empty(),
    }
}

/// Whether a report of load `load` is taken in by `page`: only the latest load's are.
pub open spec fn lands<P>(page: ArtistState<P>, load: u64) -> bool {
    load == page.load
}

impl<P> ArtistState<P> {
    /// A page that has shown nobody yet.
    pub fn new() -> (r: Self)
        ensures
            r.id == 0,
            r.name@ == Seq::<char>::empty(),
            r.pic_url@ == Seq::<char>::empty(),
            r.data is Loading,
            r.song_selected == 0,
            r.avatar.is_none(),
            r.load == 0,
    {
        ArtistState {
            id: 0,
            name: String::new(),
            pic_url: String::new(),
            data: ArtistData::Loading,
            song_selected: 0,
            avatar: None,
            load: 0,
        }
    }

    /// Start a load: the page waits for the profile again, with the cursor at the top and no
    /// portrait. Returns the load's number, which its reports carry.
    fn start_load(&mut self) -> (r: u64)
        requires
            old(self).load < u64::MAX,
        ensures
            r == old(self).load + 1,
            final(self).load == r,
            final(self).data is Loading,
            final(self).song_selected == 0,
            final(self).avatar.is_none(),
            final(self).id == old(self).id,
            final(self).name == old(self).name,
            final(self).pic_url == old(self).pic_url,
    {
        self.data = ArtistData::Loading;
        self.song_selected = 0;
        self.avatar = None;
        self.load = self.load + 1;
        self.load
    }

    /// Show one artist and start loading its profile. `name` and `pic_url` come from the row
    /// that opened the page and carry the header until the profile arrives.
    pub fn open(&mut self, id: u64, name: String, pic_url: String) -> (r: u64)
        requires
            old(self).load < u64::MAX,
        ensures
            final(self).id == id,
            final(self).name == name,
            final(self).pic_url == pic_url,
            final(self).data is Loading,
            final(self).song_selected == 0,
            final(self).avatar.is_none(),
            r == old(self).load + 1,
            final(self).load == r,
    {
        self.id = id;
        self.name = name;
        self.pic_url = pic_url;
        self.start_load()
    }

    /// Load the artist again, for a failed page; nothing to retry before the first open.
    pub fn reload(&mut self) -> (r: Option<u64>)
        requires
            old(self).load < u64::MAX,
        ensures
            old(self).id == 0 ==> r.is_none() && *final(self) == *old(self),
            old(self).id != 0 ==> {
                &&& r == Some((old(self).load + 1) as u64)
                &&& final(self).load == old(self).load + 1
                &&& final(self).data is Loading
                &&& final(self).song_selected == 0
                &&& final(self).avatar.is_none()
                &&& final(self).id == old(self).id
                &&& final(self).name == old(self).name
                &&& final(self).pic_url == old(self).pic_url
            },
    {
        if self.id != 0 {
            Some(self.start_load())
        } else {
            None
        }
    }

    /// Take in what load `load` reported. A report of an earlier load is dropped. The profile is
    /// the better source for the header, so it replaces the row's name, and its portrait URL
    /// when it has one.
    pub fn apply(&mut self, load: u64, msg: ArtistMsg<P>)
        ensures
            !lands(*old(self), load) ==> *final(self) == *old(self),
            lands(*old(self), load) ==> match msg {
                ArtistMsg::Ready { detail, albums } => {
                    &&& final(self).name == detail.name
                    &&& final(self).pic_url == (if detail.pic_url@.len() > 0 { detail.pic_url } else { old(self).pic_url })
                    &&& final(self).data == (ArtistData::Ready { detail, albums })
                    &&& final(self).avatar == old(self).avatar
                    &&& final(self).song_selected == old(self).song_selected
                    &&& final(self).id == old(self).id
                    &&& final(self).load == old(self).load
                },
                ArtistMsg::Failed(error) => *final(self) == (ArtistState { data: ArtistData::Failed(error), ..*old(self) }),
                ArtistMsg::Avatar(p) => *final(self) == (ArtistState { avatar: Some(p), ..*old(self) }),
            },
    {
        if load != self.load {
            return;
        }
        match msg {
            ArtistMsg::Ready { detail, albums } => {
                self.name = copy_string(&detail.name);
                if !detail.pic_url.as_str().is_empty() {
                    self.pic_url = copy_string(&detail.pic_url);
                }
                self.data = ArtistData::Ready { detail, albums };
            },
            ArtistMsg::Failed(error) => {
                self.data = ArtistData::Failed(error);
            },
            ArtistMsg::Avatar(p) => {
                self.avatar = Some(p);
            },
        }
    }

    /// The hot songs of the loaded profile; empty while loading and after a failure.
    pub fn hot_songs(&self) -> (r: &[SongInfo])
        ensures
            r@ == hot_songs_of(self.data),
    {
        match &self.data {
            ArtistData::Ready { detail, .. } => detail.hot_songs.as_slice(),
            _ => &[],
        }
    }

    /// The song the cursor is on.
    pub fn selected_song(&self) -> (r: Option<&SongInfo>)
        ensures
            r == (if self.song_selected < hot_songs_of(self.data).len() {
                Some(&hot_songs_of(self.data)[self.song_selected as int])
            } else {
                None::<&SongInfo>
            }),
    {
        let songs = self.hot_songs();
        if self.song_selected < songs.len() {
            Some(&songs[self.song_selected])
        } else {
            None
        }
    }

    /// Move the cursor down the hot songs, from the last back to the first.
    pub fn select_next(&mut self)
        requires
            old(self).song_selected < usize::MAX,
        ensures
            final(self).song_selected == (if hot_songs_of(old(self).data).len() > 0 {
                (old(self).song_selected + 1) % (hot_songs_of(old(self).data).len() as int)
            } else {
                old(self).song_selected as int
            }),
            final(self).data == old(self).data,
    {
        let count = self.hot_songs().len();
        if count > 0 {
            self.song_selected = (self.song_selected + 1) % count;
        }
    }

    /// Move the cursor up, from the first back to the last.
    pub fn select_prev(&mut self)
        requires
            old(self).song_selected + hot_songs_of(old(self).data).len() <= usize::MAX,
        ensures
            final(self).song_selected == (if hot_songs_of(old(self).data).len() > 0 {
                (old(self).song_selected + hot_songs_of(old(self).data).len() - 1) % (hot_songs_of(old(self).data).len() as int)
            } else {
                old(self).song_selected as int
            }),
            final(self).data == old(self).data,
    {
        let count = self.hot_songs().len();
        if count > 0 {
            self.song_selected = (self.song_selected + count - 1) % count;
        }
    }

    /// Put the cursor on the first hot song.
    pub fn select_first(&mut self)
        ensures
            final(self).song_selected == 0,
            final(self).data == old(self).data,
    {
        self.song_selected = 0;
    }

    /// Put the cursor on the last hot song (the first when there are none).
    pub fn select_last(&mut self)
        ensures
            final(self).song_selected == (if hot_songs_of(old(self).data).len() > 0 {
                hot_songs_of(old(self).data).len() - 1
            } else {
                0
            }),
            final(self).data == old(self).data,
    {
        let count = self.hot_songs().len();
        self.song_selected = if count > 0 { count - 1 } else { 0 };
    }
}

fn copy_string(s: &String) -> (r: String)
    ensures
        r == *s,
{
    let r = s.clone();
    proof { assert(r@ == s@); }
    r
}

/// The cursor stays on a song: from any song, a step down and a step up each land on one, and a
/// step up undoes a step down.
pub proof fn the_cursor_wraps_and_steps_back(sel: int, count: int)
    requires
        0 <= sel < count,
    ensures
        0 <= (sel + 1) % count < count,
        0 <= (sel + count - 1) % count < count,
        (((sel + 1) % count) + count - 1) % count == sel,
{
    let next = (sel + 1) % count;
    if sel + 1 < count {
        vstd::arithmetic::div_mod::lemma_small_mod((sel + 1) as nat, count as nat);
        assert(next == sel + 1);
        vstd::arithmetic::div_mod::lemma_mod_add_multiples_vanish(sel, count);
        vstd::arithmetic::div_mod::lemma_small_mod(sel as nat, count as nat);
        assert(next + count - 1 == count + sel);
    } else {
        vstd::arithmetic::div_mod::lemma_mod_add_multiples_vanish(0, count);
        vstd::arithmetic::div_mod::lemma_small_mod(0, count as nat);
        assert(next == 0);
        vstd::arithmetic::div_mod::lemma_small_mod((count - 1) as nat, count as nat);
    }
    if sel > 0 {
        vstd::arithmetic::div_mod::lemma_mod_add_multiples_vanish(sel - 1, count);
        vstd::arithmetic::div_mod::lemma_small_mod((sel - 1) as nat, count as nat);
        assert(sel + count - 1 == count + (sel - 1));
    } else {
        vstd::arithmetic::div_mod::lemma_small_mod((count - 1) as nat, count as nat);
    }
}

/// A load the reader has moved past never lands: every load started before the latest open or
/// reload carries a number `apply` drops, since opening and reloading number the new load past
/// all the earlier ones.
pub proof fn a_superseded_load_never_lands<P>(before: ArtistState<P>, after: ArtistState<P>, earlier: u64)
    requires
        earlier <= before.load,
        after.load == before.load + 1,
    ensures
        !lands(after, earlier),
{
}

/// What `time` writes for the moment `secs` seconds after the Unix epoch, seen at `offset`
/// seconds east of UTC, by the format description `description`: the result of
/// `OffsetDateTime::from_unix_timestamp`, `UtcOffset::from_whole_seconds`,
/// `OffsetDateTime::checked_to_offset`, `format_description::parse_borrowed` and
/// `OffsetDateTime::format` in turn, or `None` where one of them fails.
pub uninterp spec fn formatted_moment(secs: int, offset: int, description: Seq<char>) -> Option<Seq<char>>;

/// The calendar work of the `time` crate, from a timestamp and an offset to the text that
/// `description` asks for; `None` where the timestamp, the offset or the shifted date is out of
/// the range `time` handles, or the description does not parse. What the text holds is not
/// restated here: it is named by `formatted_moment`.
#[verifier::external_body]
fn format_moment(secs: i64, offset: i32, description: &str) -> (r: Option<String>)
    ensures
        match r {
            Some(text) => formatted_moment(secs as int, offset as int, description@) == Some(text@),
            None => formatted_moment(secs as int, offset as int, description@) is None,
        },
{
    let items = time::format_description::parse_borrowed::<1>(description).ok()?;
    let offset = time::UtcOffset::from_whole_seconds(offset).ok()?;
    let moment = time::OffsetDateTime::from_unix_timestamp(secs).ok()?;
    moment.checked_to_offset(offset)?.format(&items).ok()
}

/// The album pane's text for a release time of `publish_time_ms` milliseconds since the epoch,
/// read at `offset_seconds` east of UTC: the dash for a time the API left at 0, else the date
/// as `[year]-[month]-[day]`, or the dash where `time` cannot give that date.
pub open spec fn release_date_text(publish_time_ms: u64, offset_seconds: i32) -> Seq<char> {
    if publish_time_ms == 0 {
        "\u{2014}"@
    } else {
        match formatted_moment((publish_time_ms / 1000) as int, offset_seconds as int, "[year]-[month]-[day]"@) {
            Some(text) => text,
            None => "\u{2014}"@,
        }
    }
}

/// An album's release date. The API sends midnight China time, so the timestamp is read in the
/// reader's own offset (`offset_seconds` east of UTC) before it is cut down to a date: otherwise
/// every album released just after midnight would be listed a day early.
pub fn release_date(publish_time_ms: u64, offset_seconds: i32) -> (r: String)
    ensures
        r@ == release_date_text(publish_time_ms, offset_seconds),
{
    if publish_time_ms == 0 {
        return crate::text::owned("\u{2014}");
    }
    match format_moment((publish_time_ms / 1000) as i64, offset_seconds, "[year]-[month]-[day]") {
        Some(text) => text,
        None => crate::text::owned("\u{2014}"),
    }
}

/// The parts of `parts` joined with `sep` between each two.
pub open spec fn joined(parts: Seq<Seq<char>>, sep: Seq<char>) -> Seq<char>
    decreases parts.len(),
{
    if parts.len() == 0 {
        Seq::empty()
    } else if parts.len() == 1 {
        parts[0]
    } else {
        joined(parts.drop_last(), sep) + sep + parts.last()
    }
}

/// What the profile writes after the artist's name: three spaces and the aliases joined by
/// ` / `, or nothing when the artist has none.
pub open spec fn spec_alias_text(alias: Seq<String>) -> Option<Seq<char>> {
    if alias.len() == 0 {
        None
    } else {
        Some("   "@ + joined(alias.map_values(|a: String| a@), " / "@))
    }
}

/// The text after the artist's name on the profile.
pub fn alias_text(alias: &Vec<String>) -> (r: Option<String>)
    ensures
        crate::scan::opt_view(r) == spec_alias_text(alias@),
{
    if alias.len() == 0 {
        return None;
    }
    let ghost views = alias@.map_values(|a: String| a@);
    let mut out = crate::text::owned("   ");
    crate::text::append(&mut out, alias[0].as_str());
    let mut i: usize = 1;
    proof {
        reveal_strlit("   ");
        assert(views.take(1).drop_last() =~= Seq::<Seq<char>>::empty());
        assert(joined(views.take(1), " / "@) == views[0]);
    }
    while i < alias.len()
        invariant
            1 <= i <= alias.len(),
            views == alias@.map_values(|a: String| a@),
            out@ == "   "@ + joined(views.take(i as int), " / "@),
        decreases alias.len() - i,
    {
        proof {
            assert(views.take(i + 1).drop_last() =~= views.take(i as int));
            assert(views.take(i + 1).last() == alias@[i as int]@);
        }
        crate::text::append(&mut out, " / ");
        crate::text::append(&mut out, alias[i].as_str());
        i = i + 1;
        proof {
            assert(out@ =~= "   "@ + joined(views.take(i as int), " / "@));
        }
    }
    proof {
        assert(views.take(alias.len() as int) =~= views);
    }
    Some(out)
}

/// The profile's line of counts: `歌曲 <songs> · 专辑 <albums>`.
pub open spec fn spec_counts_text(music_size: u64, album_size: u64) -> Seq<char> {
    "\u{6b4c}\u{66f2} "@ + crate::text::decimal(music_size as nat) + " \u{b7} \u{4e13}\u{8f91} "@ + crate::text::decimal(album_size as nat)
}

/// The profile's line of counts, how many songs and albums the artist has.
pub fn counts_text(music_size: u64, album_size: u64) -> (r: String)
    ensures
        r@ == spec_counts_text(music_size, album_size),
{
    let mut out = crate::text::owned("\u{6b4c}\u{66f2} ");
    let songs = crate::text::decimal_string(music_size);
    crate::text::append(&mut out, songs.as_str());
    crate::text::append(&mut out, " \u{b7} \u{4e13}\u{8f91} ");
    let albums = crate::text::decimal_string(album_size);
    crate::text::append(&mut out, albums.as_str());
    out
}

/// The profile's biography: the artist's description trimmed, or `（暂无简介）` when it is blank.
pub open spec fn spec_blurb_text(brief_desc: Seq<char>) -> Seq<char> {
    match crate::scan::spec_tag_text(Some(brief_desc)) {
        Some(text) => text,
        None => "\u{ff08}\u{6682}\u{65e0}\u{7b80}\u{4ecb}\u{ff09}"@,
    }
}

/// The biography the profile shows.
pub fn blurb_text(brief_desc: &str) -> (r: String)
    ensures
        r@ == spec_blurb_text(brief_desc@),
{
    match crate::scan::tag_text(Some(brief_desc)) {
        Some(text) => text,
        None => crate::text::owned("\u{ff08}\u{6682}\u{65e0}\u{7b80}\u{4ecb}\u{ff09}"),
    }
}

} // verus!

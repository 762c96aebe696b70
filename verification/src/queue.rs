//! The play queue: the songs in play order, which one is playing, the songs that played before
//! it, and a version number consumers cache on.
use vstd::prelude::*;
use std::collections::HashMap;
use std::sync::Arc;
use crate::song::SongInfo;

verus! {

broadcast use vstd::std_specs::hash::group_hash_axioms;

/// How many played songs the history keeps.
pub const MAX_HISTORY: usize = 200;

/// Where queue versions come from. One source serves every queue the app builds, so a queue
/// that replaces another never hands a consumer a version it has already seen.
pub struct VersionSource {
    next: u64,
}

impl VersionSource {
    /// The next version this source hands out.
    pub closed spec fn upcoming(&self) -> u64 {
        self.next
    }

    /// A source that has handed out nothing yet.
    pub fn new() -> (r: Self)
        ensures
            r.upcoming() == 1,
    {
        VersionSource { next: 1 }
    }

    /// A version no queue built from this source has had before.
    pub fn fresh(&mut self) -> (r: u64)
        requires
            old(self).upcoming() < u64::MAX,
        ensures
            r == old(self).upcoming(),
            final(self).upcoming() == old(self).upcoming() + 1,
    {
        let v = self.next;
        self.next = self.next + 1;
        v
    }
}

/// The ids of `songs`, in order.
pub open spec fn ids(songs: Seq<Arc<SongInfo>>) -> Seq<u64> {
    songs.map_values(|s: Arc<SongInfo>| s.id)
}

/// Whether `i` is the first place `id` occurs in `s`.
pub open spec fn first_place(s: Seq<u64>, id: u64, i: int) -> bool {
    0 <= i < s.len() && s[i] == id && forall|j: int| 0 <= j < i ==> s[j] != id
}

/// The id→index lookup agrees with a scan of `s` from the front.
pub open spec fn index_agrees(m: Map<u64, usize>, s: Seq<u64>) -> bool {
    &&& forall|id: u64| #[trigger] m.contains_key(id) <==> s.contains(id)
    &&& forall|id: u64| #[trigger] m.contains_key(id) ==> first_place(s, id, m[id] as int)
}

/// The first index of `id` in `s`, when it occurs.
pub open spec fn first_index(s: Seq<u64>, id: u64) -> Option<int> {
    if s.contains(id) { Some(choose|i: int| first_place(s, id, i)) } else { None }
}

/// `history` with `id` pushed and the oldest entries dropped past the cap.
pub open spec fn pushed_history(history: Seq<u64>, id: u64) -> Seq<u64> {
    let h = history.push(id);
    if h.len() > MAX_HISTORY { h.skip(h.len() - MAX_HISTORY) } else { h }
}

/// The play queue.
pub struct PlaylistQueue {
    pub songs: Vec<Arc<SongInfo>>,
    id_index: HashMap<u64, usize>,
    pub history: Vec<u64>,
    pub current_index: Option<usize>,
    /// Bumped on every queue mutation; consumers rebuild only when it changes.
    version: u64,
}

impl PlaylistQueue {
    pub closed spec fn song_seq(&self) -> Seq<Arc<SongInfo>> {
        self.songs@
    }

    pub closed spec fn history_seq(&self) -> Seq<u64> {
        self.history@
    }

    pub closed spec fn current(&self) -> Option<usize> {
        self.current_index
    }

    pub closed spec fn version_of(&self) -> u64 {
        self.version
    }

    /// The lookup agrees with the songs.
    pub closed spec fn wf(&self) -> bool {
        index_agrees(self.id_index@, ids(self.songs@))
    }

    /// An empty queue.
    pub fn new(versions: &mut VersionSource) -> (r: Self)
        requires
            old(versions).upcoming() < u64::MAX,
        ensures
            r.wf(),
            r.song_seq() == Seq::<Arc<SongInfo>>::empty(),
            r.history_seq() == Seq::<u64>::empty(),
            r.current() is None,
            r.version_of() == old(versions).upcoming(),
            final(versions).upcoming() == old(versions).upcoming() + 1,
    {
        let version = versions.fresh();
        let r = PlaylistQueue { songs: Vec::new(), id_index: HashMap::new(), history: Vec::new(), current_index: None, version };
        assert(ids(r.songs@) =~= Seq::<u64>::empty());
        r
    }

    /// The version consumers cache on.
    pub fn version(&self) -> (r: u64)
        ensures
            r == self.version_of(),
    {
        self.version
    }

    /// Mark the queue as changed.
    pub fn bump(&mut self, versions: &mut VersionSource)
        requires
            old(versions).upcoming() < u64::MAX,
        ensures
            final(self).version_of() == old(versions).upcoming(),
            final(versions).upcoming() == old(versions).upcoming() + 1,
            final(self).song_seq() == old(self).song_seq(),
            final(self).history_seq() == old(self).history_seq(),
            final(self).current() == old(self).current(),
            final(self).wf() == old(self).wf(),
    {
        self.version = versions.fresh();
    }

    /// A queue playing `songs` from `index`.
    pub fn from_songs(songs: Vec<Arc<SongInfo>>, index: usize, versions: &mut VersionSource) -> (r: Self)
        requires
            old(versions).upcoming() < u64::MAX,
        ensures
            r.wf(),
            r.song_seq() == songs@,
            r.history_seq() == Seq::<u64>::empty(),
            r.current() == Some(index),
            r.version_of() == old(versions).upcoming(),
            final(versions).upcoming() == old(versions).upcoming() + 1,
    {
        let version = versions.fresh();
        let mut q = PlaylistQueue { songs, id_index: HashMap::new(), history: Vec::new(), current_index: Some(index), version };
        q.rebuild_index();
        q
    }

    /// Reconstruct the id→index lookup from the songs: the first (lowest) index of an id wins.
    pub fn rebuild_index(&mut self)
        ensures
            final(self).wf(),
            final(self).song_seq() == old(self).song_seq(),
            final(self).history_seq() == old(self).history_seq(),
            final(self).current() == old(self).current(),
            final(self).version_of() == old(self).version_of(),
    {
        self.id_index.clear();
        let ghost s = ids(self.songs@);
        let mut i: usize = 0;
        while i < self.songs.len()
            invariant
                s == ids(self.songs@),
                self.songs@ == old(self).songs@,
                self.history@ == old(self).history@,
                self.current_index == old(self).current_index,
                self.version == old(self).version,
                i <= self.songs.len(),
                index_agrees(self.id_index@, s.take(i as int)),
            decreases self.songs.len() - i,
        {
            let id = self.songs[i].id;
            let ghost before = self.id_index@;
            let ghost t = s.take(i + 1);
            assert(t =~= s.take(i as int).push(id));
            if !self.id_index.contains_key(&id) {
                self.id_index.insert(id, i);
                assert forall|x: u64| #[trigger] self.id_index@.contains_key(x) <==> t.contains(x) by {
                    if t.contains(x) && x != id {
                        let k = t.index_of(x);
                        assert(s.take(i as int)[k] == x);
                    }
                    if s.take(i as int).contains(x) {
                        let k = s.take(i as int).index_of(x);
                        assert(t[k] == x);
                    }
                    assert(t[i as int] == id);
                }
                assert forall|x: u64| #[trigger] self.id_index@.contains_key(x) implies first_place(t, x, self.id_index@[x] as int) by {
                    if x == id {
                        assert forall|j: int| 0 <= j < i implies t[j] != id by {
                            assert(t[j] == s.take(i as int)[j]);
                        }
                    }
                }
            } else {
                assert forall|x: u64| #[trigger] self.id_index@.contains_key(x) <==> t.contains(x) by {
                    if t.contains(x) && x != id {
                        let k = t.index_of(x);
                        assert(s.take(i as int)[k] == x);
                    }
                    if s.take(i as int).contains(x) {
                        let k = s.take(i as int).index_of(x);
                        assert(t[k] == x);
                    }
                }
            }
            i = i + 1;
        }
        assert(s.take(self.songs.len() as int) =~= s);
    }

    /// Build a queue from restored parts, rebuilding the lookup afterwards.
    pub fn from_parts(songs: Vec<Arc<SongInfo>>, history: Vec<u64>, current_index: Option<usize>, versions: &mut VersionSource) -> (r: Self)
        requires
            old(versions).upcoming() < u64::MAX,
        ensures
            r.wf(),
            r.song_seq() == songs@,
            r.history_seq() == history@,
            r.current() == current_index,
            r.version_of() == old(versions).upcoming(),
            final(versions).upcoming() == old(versions).upcoming() + 1,
    {
        let version = versions.fresh();
        let mut q = PlaylistQueue { songs, id_index: HashMap::new(), history, current_index, version };
        q.rebuild_index();
        q
    }

    /// Replace the song list, rebuilding the lookup.
    pub fn set_songs(&mut self, songs: Vec<Arc<SongInfo>>, versions: &mut VersionSource)
        requires
            old(versions).upcoming() < u64::MAX,
        ensures
            final(self).wf(),
            final(self).song_seq() == songs@,
            final(self).history_seq() == old(self).history_seq(),
            final(self).current() == old(self).current(),
            final(self).version_of() == old(versions).upcoming(),
            final(versions).upcoming() == old(versions).upcoming() + 1,
    {
        self.songs = songs;
        self.rebuild_index();
        self.bump(versions);
    }

    pub fn is_empty(&self) -> (r: bool)
        ensures
            r == (self.song_seq().len() == 0),
    {
        self.songs.len() == 0
    }

    pub fn len(&self) -> (r: usize)
        ensures
            r == self.song_seq().len(),
    {
        self.songs.len()
    }

    /// The song under the current index, when the index points into the queue.
    pub fn current_song(&self) -> (r: Option<&Arc<SongInfo>>)
        ensures
            match self.current() {
                Some(i) => if i < self.song_seq().len() { r == Some(&self.song_seq()[i as int]) } else { r is None },
                None => r is None,
            },
    {
        match self.current_index {
            Some(i) => if i < self.songs.len() { Some(&self.songs[i]) } else { None },
            None => None,
        }
    }

    /// Record the song that is playing as played, dropping the oldest record past the cap.
    pub fn push_to_history(&mut self)
        ensures
            match old(self).current() {
                Some(i) => if i < old(self).song_seq().len() {
                    final(self).history_seq() == pushed_history(old(self).history_seq(), old(self).song_seq()[i as int].id)
                } else {
                    final(self).history_seq() == old(self).history_seq()
                },
                None => final(self).history_seq() == old(self).history_seq(),
            },
            final(self).song_seq() == old(self).song_seq(),
            final(self).current() == old(self).current(),
            final(self).version_of() == old(self).version_of(),
            final(self).wf() == old(self).wf(),
    {
        if let Some(i) = self.current_index {
            if i < self.songs.len() {
                let id = self.songs[i].id;
                let ghost h = self.history@.push(id);
                self.history.push(id);
                if self.history.len() > MAX_HISTORY {
                    let drain = self.history.len() - MAX_HISTORY;
                    let mut kept: Vec<u64> = Vec::new();
                    let mut k = drain;
                    while k < self.history.len()
                        invariant
                            drain <= k <= self.history.len(),
                            self.history@ == h,
                            kept@ == h.subrange(drain as int, k as int),
                        decreases self.history.len() - k,
                    {
                        kept.push(self.history[k]);
                        k = k + 1;
                        assert(kept@ =~= h.subrange(drain as int, k as int));
                    }
                    self.history = kept;
                    assert(self.history@ =~= h.skip(h.len() - MAX_HISTORY));
                }
            }
        }
    }

    /// The most recently played song's id, removed from the history.
    pub fn pop_history(&mut self) -> (r: Option<u64>)
        ensures
            old(self).history_seq().len() == 0 ==> r is None && final(self).history_seq() == old(self).history_seq(),
            old(self).history_seq().len() > 0 ==> r == Some(old(self).history_seq().last())
                && final(self).history_seq() == old(self).history_seq().drop_last(),
            final(self).song_seq() == old(self).song_seq(),
            final(self).current() == old(self).current(),
            final(self).version_of() == old(self).version_of(),
            final(self).wf() == old(self).wf(),
    {
        let r = self.history.pop();
        proof {
            if old(self).history@.len() > 0 {
                assert(self.history@ =~= old(self).history@.drop_last());
            }
        }
        r
    }

    /// Append the songs the queue does not hold yet (an id already queued is skipped), and
    /// return where the appended songs start.
    pub fn append(&mut self, songs: &[Arc<SongInfo>], versions: &mut VersionSource) -> (r: usize)
        requires
            old(self).wf(),
            old(versions).upcoming() < u64::MAX,
        ensures
            r == old(self).song_seq().len(),
            final(self).wf(),
            final(self).song_seq() == old(self).song_seq() + songs@.filter(|s: Arc<SongInfo>| !ids(old(self).song_seq()).contains(s.id)),
            final(self).history_seq() == old(self).history_seq(),
            final(self).current() == old(self).current(),
            final(self).version_of() == old(versions).upcoming(),
            final(versions).upcoming() == old(versions).upcoming() + 1,
    {
        let offset = self.songs.len();
        let ghost queued = ids(self.songs@);
        let ghost before = self.songs@;
        let mut i: usize = 0;
        while i < songs.len()
            invariant
                i <= songs.len(),
                queued == ids(before),
                index_agrees(self.id_index@, queued),
                self.songs@ == before + songs@.take(i as int).filter(|s: Arc<SongInfo>| !queued.contains(s.id)),
                self.history@ == old(self).history@,
                self.current_index == old(self).current_index,
                self.version == old(self).version,
                before == old(self).songs@,
            decreases songs.len() - i,
        {
            let song = &songs[i];
            let ghost t = songs@.take(i + 1);
            assert(t.drop_last() =~= songs@.take(i as int));
            assert(t.last() == songs@[i as int]);
            reveal(Seq::filter);
            if !self.id_index.contains_key(&song.id) {
                self.songs.push(song.clone());
                assert(self.songs@ =~= before + t.filter(|s: Arc<SongInfo>| !queued.contains(s.id)));
            } else {
                assert(self.songs@ =~= before + t.filter(|s: Arc<SongInfo>| !queued.contains(s.id)));
            }
            i = i + 1;
        }
        assert(songs@.take(songs.len() as int) =~= songs@);
        self.rebuild_index();
        self.bump(versions);
        offset
    }

    /// Insert `songs` right after the song that is playing, so they play next (at the front when
    /// nothing is playing). Returns where the first inserted song landed.
    pub fn insert_next(&mut self, songs: Vec<Arc<SongInfo>>, versions: &mut VersionSource) -> (r: usize)
        requires
            old(versions).upcoming() < u64::MAX,
            match old(self).current() {
                Some(i) => i < old(self).song_seq().len(),
                None => true,
            },
        ensures
            r == match old(self).current() { Some(i) => i + 1, None => 0 },
            final(self).wf(),
            final(self).song_seq() == old(self).song_seq().take(r as int) + songs@ + old(self).song_seq().skip(r as int),
            final(self).history_seq() == old(self).history_seq(),
            final(self).current() == old(self).current(),
            final(self).version_of() == old(versions).upcoming(),
            final(versions).upcoming() == old(versions).upcoming() + 1,
    {
        let insert_at: usize = match self.current_index {
            Some(i) => if i < self.songs.len() { i + 1 } else { 0 },
            None => 0,
        };
        let ghost before = self.songs@;
        let ghost incoming = songs@;
        let total = songs.len();
        let mut n: usize = 0;
        for song in it: songs.into_iter()
            invariant
                insert_at <= before.len(),
                it.seq() == incoming,
                incoming.len() == total,
                n == it.index(),
                self.songs@ == before.take(insert_at as int) + incoming.take(n as int) + before.skip(insert_at as int),
                self.history@ == old(self).history@,
                self.current_index == old(self).current_index,
                self.version == old(self).version,
        {
            assert(incoming[n as int] == song);
            let len = self.songs.len();
            assert(insert_at + n <= len);
            self.songs.insert(insert_at + n, song);
            assert(self.songs@ =~= before.take(insert_at as int) + incoming.take(n + 1) + before.skip(insert_at as int));
            n = n + 1;
        }
        assert(incoming.take(incoming.len() as int) =~= incoming);
        self.rebuild_index();
        self.bump(versions);
        insert_at
    }

    /// Where `song_id` first occurs in the queue.
    pub fn find_song_index(&self, song_id: u64) -> (r: Option<usize>)
        requires
            self.wf(),
        ensures
            match r {
                Some(i) => first_place(ids(self.song_seq()), song_id, i as int),
                None => !ids(self.song_seq()).contains(song_id),
            },
    {
        match self.id_index.get(&song_id) {
            Some(i) => Some(*i),
            None => None,
        }
    }

    /// Make `index` the song that is playing, recording the one it replaces as played.
    pub fn advance_to(&mut self, index: usize, versions: &mut VersionSource)
        requires
            old(versions).upcoming() < u64::MAX,
        ensures
            final(self).current() == Some(index),
            final(self).history_seq() == if old(self).current() != Some(index) {
                match old(self).current() {
                    Some(i) => if i < old(self).song_seq().len() {
                        pushed_history(old(self).history_seq(), old(self).song_seq()[i as int].id)
                    } else {
                        old(self).history_seq()
                    },
                    None => old(self).history_seq(),
                }
            } else {
                old(self).history_seq()
            },
            final(self).song_seq() == old(self).song_seq(),
            final(self).wf() == old(self).wf(),
            final(self).version_of() == old(versions).upcoming(),
            final(versions).upcoming() == old(versions).upcoming() + 1,
    {
        let same = match self.current_index {
            Some(i) => i == index,
            None => false,
        };
        if !same {
            self.push_to_history();
        }
        self.current_index = Some(index);
        self.bump(versions);
    }
}

/// Every mutation advances the version, and queues built from one source never share a version:
/// whatever a consumer has seen, the next version handed out is newer.
pub proof fn versions_only_grow(before: VersionSource, after: VersionSource, seen: u64)
    requires
        seen < before.upcoming(),
        after.upcoming() == before.upcoming() + 1,
    ensures
        before.upcoming() > seen,
        after.upcoming() > before.upcoming(),
{
}

/// The history never grows past its cap: a push onto a full history drops exactly the oldest
/// entry and ends with the song that was playing.
pub proof fn the_history_is_capped(history: Seq<u64>, id: u64)
    requires
        history.len() <= MAX_HISTORY,
    ensures
        pushed_history(history, id).len() <= MAX_HISTORY,
        pushed_history(history, id).last() == id,
        history.len() == MAX_HISTORY ==> pushed_history(history, id) == history.skip(1).push(id),
{
    if history.len() == MAX_HISTORY {
        assert(history.push(id).skip(1) =~= history.skip(1).push(id));
    }
}

/// The lookup answers what a scan from the front answers: if an id is in the queue, the index
/// it names is its first occurrence, whatever duplicates follow.
pub proof fn the_lookup_agrees_with_a_scan(m: Map<u64, usize>, s: Seq<u64>, id: u64, i: int)
    requires
        index_agrees(m, s),
        0 <= i < s.len(),
        s[i] == id,
    ensures
        m.contains_key(id),
        m[id] <= i,
        s[m[id] as int] == id,
{
    assert(s.contains(id));
    assert(m.contains_key(id));
    assert(first_place(s, id, m[id] as int));
    if m[id] > i {
        assert(s[i] != id);
    }
}

} // verus!

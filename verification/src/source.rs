//! How a song becomes a playable stream: which source is asked, in what order, which failure is
//! retried, which error the caller sees, and how an upload on the user's own cloud disk is
//! matched to the catalogue entry being played.
use vstd::prelude::*;
use std::sync::atomic::{AtomicBool, Ordering};
use crate::song::SongInfo;
use crate::text::{owned, push_char};

verus! {

/// Why a song could not be turned into a playable stream. The class drives behaviour: only
/// [`SourceError::Network`] is retried.
#[derive(Debug)]
pub enum SourceError {
    /// Transient transport failure while talking to a source; worth one retry.
    Network(String),
    /// The source answered but cannot provide a stream for this song.
    Unavailable(String),
    /// The stream could not be prepared locally.
    Stream(String),
    /// A third-party provider could not resolve the song or hand out a play URL.
    Provider(String),
    /// Internal state is inconsistent.
    Internal(String),
}

/// What the UI shows for an error.
pub open spec fn error_message(e: SourceError) -> Seq<char> {
    match e {
        SourceError::Network(m) => "网络错误: "@ + m@,
        SourceError::Unavailable(m) => m@,
        SourceError::Stream(m) => m@,
        SourceError::Provider(m) => m@,
        SourceError::Internal(m) => m@,
    }
}

impl SourceError {
    /// The message the UI shows: a transport failure says so, every other class is its text.
    pub fn message(&self) -> (r: String)
        ensures
            r@ == error_message(*self),
    {
        proof { reveal_strlit("网络错误: "); }
        match self {
            SourceError::Network(m) => {
                let mut s = owned("网络错误: ");
                s.append(m.as_str());
                s
            },
            SourceError::Unavailable(m) => m.clone(),
            SourceError::Stream(m) => m.clone(),
            SourceError::Provider(m) => m.clone(),
            SourceError::Internal(m) => m.clone(),
        }
    }
}

/// Whether a failed NCM attempt should be retried instead of falling back to the other sources:
/// only a transport failure is worth a second try, and only once.
pub fn should_retry_ncm(error: &SourceError, attempt: u32) -> (r: bool)
    ensures
        r == (error is Network && attempt < 1),
{
    matches!(error, SourceError::Network(_)) && attempt < 1
}

/// Whether a stream's progress callback records the download-cache entry now: only when the
/// entry is wanted, the file is complete, and it has not been recorded for this stream yet.
pub fn records_cache(mark_cache: bool, complete: bool, already_sent: bool) -> (r: bool)
    ensures
        r == (mark_cache && complete && !already_sent),
{
    mark_cache && complete && !already_sent
}

/// Decide whether the stream progress callback should record the download-cache entry, marking
/// `sent` when it does. The entry is only written once the file is complete, and only once per
/// stream: `sent` is swapped to `true` by the first call that gets this far.
pub fn should_record_cache(mark_cache: bool, complete: bool, sent: &AtomicBool) -> (r: bool)
    ensures
        r ==> mark_cache && complete,
        !(mark_cache && complete) ==> !r,
{
    if !(mark_cache && complete) {
        return false;
    }
    let already_sent = sent.swap(true, Ordering::SeqCst);
    records_cache(mark_cache, complete, already_sent)
}

/// Bytes a stream has to have buffered before playback starts, so a slow download does not
/// underrun at the start.
pub const PREBUFFER_BYTES: u64 = 524_288;

/// How long playback waits for that head start, in milliseconds, before it starts anyway.
pub const PREBUFFER_TIMEOUT_MS: u64 = 8_000;

/// What waiting for the head start decides on one look at the download.
#[derive(Debug, Clone, Copy, PartialEq, Eq, Structural)]
pub enum Prebuffer {
    /// Enough is buffered, or the download is complete: play.
    Ready,
    /// The wait is over without the head start: play anyway, better a stutter than silence.
    TimedOut,
    /// Look again shortly.
    Wait,
}

/// What one look at the download decides, `waited_ms` into the wait.
pub open spec fn spec_prebuffer(completed: bool, buffered: u64, waited_ms: u64) -> Prebuffer {
    if completed || buffered >= PREBUFFER_BYTES {
        Prebuffer::Ready
    } else if waited_ms >= PREBUFFER_TIMEOUT_MS {
        Prebuffer::TimedOut
    } else {
        Prebuffer::Wait
    }
}

/// Decide, `waited_ms` into the wait, whether playback starts: as soon as the download is
/// complete or [`PREBUFFER_BYTES`] are in, and at the latest once [`PREBUFFER_TIMEOUT_MS`] have
/// passed.
pub fn prebuffer_step(completed: bool, buffered: u64, waited_ms: u64) -> (r: Prebuffer)
    ensures
        r == spec_prebuffer(completed, buffered, waited_ms),
{
    if completed || buffered >= PREBUFFER_BYTES {
        Prebuffer::Ready
    } else if waited_ms >= PREBUFFER_TIMEOUT_MS {
        Prebuffer::TimedOut
    } else {
        Prebuffer::Wait
    }
}

/// The wait for a head start is bounded and never outlasts the download: from the timeout on,
/// and as soon as the file is complete, every look says to start.
pub proof fn the_head_start_wait_is_bounded(completed: bool, buffered: u64, waited_ms: u64)
    ensures
        waited_ms >= PREBUFFER_TIMEOUT_MS ==> spec_prebuffer(completed, buffered, waited_ms) != Prebuffer::Wait,
        completed ==> spec_prebuffer(completed, buffered, waited_ms) == Prebuffer::Ready,
{
}

/// The file a `Free` song plays from: `local_path` when it has one, else `album`, where songs
/// from before local files carried tags still keep their path.
pub fn local_file_path(song: &SongInfo) -> (r: &str)
    ensures
        r@ == match song.local_path {
            Some(p) => p@,
            None => song.album@,
        },
{
    match &song.local_path {
        Some(p) => p.as_str(),
        None => song.album.as_str(),
    }
}

/// What `char::to_lowercase` yields for `c`: the Unicode lowercase mapping, one to three
/// characters.
pub uninterp spec fn lowercase_of(c: char) -> Seq<char>;

/// What `char::is_alphanumeric` answers for `c`: whether Unicode files it under letters or
/// numbers.
pub uninterp spec fn alphanumeric(c: char) -> bool;

/// Whether `c` is an ASCII character.
pub open spec fn is_ascii(c: char) -> bool {
    (c as u32) < 0x80
}

/// The ASCII lowercase of an ASCII character: an upper-case letter becomes its lower-case
/// letter, anything else stays.
pub open spec fn ascii_lower(c: char) -> char {
    if 'A' <= c <= 'Z' { ((c as u32) + 32) as char } else { c }
}

/// Whether `c` is an ASCII letter or digit.
pub open spec fn ascii_alphanumeric(c: char) -> bool {
    ('a' <= c <= 'z') || ('A' <= c <= 'Z') || ('0' <= c <= '9')
}

/// `std`'s `char::to_lowercase`, collected: the characters `c` lowercases to. Unicode's mapping
/// takes an ASCII character to the single ASCII character `ascii_lower` gives.
#[verifier::external_body]
fn lowercase(c: char) -> (r: Vec<char>)
    ensures
        r@ == lowercase_of(c),
        is_ascii(c) ==> r@ == seq![ascii_lower(c)],
{
    c.to_lowercase().collect()
}

/// `std`'s `char::is_alphanumeric`: among ASCII characters, exactly the letters and digits.
#[verifier::external_body]
fn is_alphanumeric(c: char) -> (r: bool)
    ensures
        r == alphanumeric(c),
        is_ascii(c) ==> r == ascii_alphanumeric(c),
{
    c.is_alphanumeric()
}

/// `s` lowercased, character by character.
pub open spec fn lowered(s: Seq<char>) -> Seq<char>
    decreases s.len(),
{
    if s.len() == 0 { Seq::empty() } else { lowered(s.drop_last()) + lowercase_of(s.last()) }
}

pub open spec fn opens_bracket(c: char) -> bool {
    c == '(' || c == '[' || c == '（' || c == '【'
}

pub open spec fn closes_bracket(c: char) -> bool {
    c == ')' || c == ']' || c == '）' || c == '】'
}

/// The letters and digits of `s` outside brackets, scanning from the front at bracket depth
/// `depth`; an unmatched closing bracket is ignored.
pub open spec fn key_scan(s: Seq<char>, depth: nat) -> Seq<char>
    decreases s.len(),
{
    if s.len() == 0 {
        Seq::empty()
    } else {
        let c = s[0];
        if opens_bracket(c) {
            key_scan(s.skip(1), depth + 1)
        } else if closes_bracket(c) {
            key_scan(s.skip(1), if depth > 0 { (depth - 1) as nat } else { 0 })
        } else if depth == 0 && alphanumeric(c) {
            seq![c] + key_scan(s.skip(1), depth)
        } else {
            key_scan(s.skip(1), depth)
        }
    }
}

/// The normalized form two titles (or singers) are compared in.
pub open spec fn match_key(text: Seq<char>) -> Seq<char> {
    key_scan(lowered(text), 0)
}

/// Normalize a title/singer for the cloud-disk match: drop bracketed segments, ignore case, and
/// keep letters and digits only, so `"Hello, World!"` and `"hello world"` compare equal.
pub fn cloud_match_key(text: &str) -> (r: String)
    ensures
        r@ == match_key(text@),
{
    let mut chars: Vec<char> = Vec::new();
    for c in it: text.chars()
        invariant
            it.seq() == text@,
            chars@ == lowered(text@.take(it.index() as int)),
    {
        let lower = lowercase(c);
        let mut k: usize = 0;
        let ghost before = chars@;
        while k < lower.len()
            invariant
                k <= lower.len(),
                chars@ == before + lower@.take(k as int),
            decreases lower.len() - k,
        {
            chars.push(lower[k]);
            k = k + 1;
            assert(chars@ =~= before + lower@.take(k as int));
        }
        assert(lower@.take(lower.len() as int) =~= lower@);
        assert(text@.take(it.index() + 1).drop_last() =~= text@.take(it.index() as int));
    }
    assert(text@.take(text@.len() as int) =~= text@);

    let mut key = String::new();
    let mut depth: u64 = 0;
    let mut i: usize = 0;
    assert(chars@.skip(0) =~= chars@);
    while i < chars.len()
        invariant
            i <= chars.len(),
            depth <= i,
            key@ + key_scan(chars@.skip(i as int), depth as nat) == key_scan(chars@, 0),
        decreases chars.len() - i,
    {
        let c = chars[i];
        let ghost rest = chars@.skip(i as int);
        assert(rest.skip(1) =~= chars@.skip(i + 1));
        assert(rest[0] == c);
        if c == '(' || c == '[' || c == '（' || c == '【' {
            depth = depth + 1;
        } else if c == ')' || c == ']' || c == '）' || c == '】' {
            depth = if depth > 0 { depth - 1 } else { 0 };
        } else if depth == 0 && is_alphanumeric(c) {
            let ghost before = key@;
            push_char(&mut key, c);
            assert(key@ + key_scan(chars@.skip(i + 1), depth as nat) =~= before + (seq![c] + key_scan(chars@.skip(i + 1), depth as nat)));
        }
        i = i + 1;
    }
    assert(chars@.skip(i as int) =~= Seq::<char>::empty());
    assert(key@ + key_scan(Seq::<char>::empty(), depth as nat) =~= key@);
    key
}

/// Whether `needle` occurs in `hay` as a run of consecutive characters.
pub open spec fn contains_run(hay: Seq<char>, needle: Seq<char>) -> bool {
    exists|i: int| 0 <= i && i + needle.len() <= hay.len() && #[trigger] hay.subrange(i, i + needle.len()) == needle
}

/// `str::contains` for a string pattern.
pub fn contains_str(hay: &str, needle: &str) -> (r: bool)
    ensures
        r == contains_run(hay@, needle@),
{
    let h = crate::text::chars_of(hay);
    let n = crate::text::chars_of(needle);
    if n.len() > h.len() {
        return false;
    }
    let mut i: usize = 0;
    while i <= h.len() - n.len()
        invariant
            n.len() <= h.len(),
            i <= h.len() - n.len() + 1,
            h@ == hay@,
            n@ == needle@,
            forall|j: int| 0 <= j < i ==> #[trigger] h@.subrange(j, j + n@.len()) != n@,
        decreases h.len() - n.len() + 1 - i,
    {
        let mut k: usize = 0;
        let mut same = true;
        while k < n.len()
            invariant
                i + n.len() <= h.len(),
                k <= n.len(),
                same == forall|m: int| 0 <= m < k ==> h@[i + m] == n@[m],
            decreases n.len() - k,
        {
            if h[i + k] != n[k] {
                same = false;
            }
            k = k + 1;
        }
        if same {
            assert(h@.subrange(i as int, i + n@.len()) =~= n@);
            return true;
        }
        assert(h@.subrange(i as int, i + n@.len()) != n@) by {
            let m = choose|m: int| 0 <= m < n.len() && h@[i + m] != n@[m];
            assert(h@.subrange(i as int, i + n@.len())[m] != n@[m]);
        }
        i = i + 1;
    }
    false
}

/// How far an upload's duration (ms) may differ from the catalogue entry's and still be the same
/// recording.
pub const CLOUD_MATCH_DURATION_MS: u64 = 5_000;

/// How well an upload matches the song: `None` when it is not the song at all, otherwise the
/// duration difference, or `u64::MAX` when one side does not know its duration.
pub open spec fn match_score(song: SongInfo, entry: SongInfo) -> Option<u64> {
    let name = match_key(song.name@);
    let singer = match_key(song.singer@);
    let entry_singer = match_key(entry.singer@);
    if match_key(entry.name@) != name {
        None
    } else if !(singer.len() == 0 || entry_singer.len() == 0 || contains_run(entry_singer, singer) || contains_run(singer, entry_singer)) {
        None
    } else if entry.duration != 0 && song.duration != 0 {
        let difference = if entry.duration >= song.duration { entry.duration - song.duration } else { song.duration - entry.duration };
        if difference > CLOUD_MATCH_DURATION_MS { None } else { Some(difference as u64) }
    } else {
        Some(u64::MAX)
    }
}

/// The best match among `disk` as (difference, id): the smallest difference, the earliest entry
/// among equals.
pub open spec fn best_match(song: SongInfo, disk: Seq<SongInfo>) -> Option<(u64, u64)>
    decreases disk.len(),
{
    if disk.len() == 0 {
        None
    } else {
        let before = best_match(song, disk.drop_last());
        match match_score(song, disk.last()) {
            None => before,
            Some(d) => match before {
                Some((best, id)) => if d < best { Some((d, disk.last().id)) } else { Some((best, id)) },
                None => Some((d, disk.last().id)),
            },
        }
    }
}

/// The cloud-disk entry that is the user's upload of `song`, if the disk holds one.
pub open spec fn cloud_match(song: SongInfo, disk: Seq<SongInfo>) -> Option<u64> {
    if song.name@.len() == 0 || match_key(song.name@).len() == 0 {
        None
    } else {
        match best_match(song, disk) {
            Some((_, id)) => Some(id),
            None => None,
        }
    }
}

fn score(song: &SongInfo, name: &String, singer: &String, entry: &SongInfo) -> (r: Option<u64>)
    requires
        name@ == match_key(song.name@),
        singer@ == match_key(song.singer@),
    ensures
        r == match_score(*song, *entry),
{
    let entry_name = cloud_match_key(entry.name.as_str());
    if !crate::text::str_eq(entry_name.as_str(), name.as_str()) {
        return None;
    }
    let entry_singer = cloud_match_key(entry.singer.as_str());
    let singers_agree = singer.as_str().is_empty()
        || entry_singer.as_str().is_empty()
        || contains_str(entry_singer.as_str(), singer.as_str())
        || contains_str(singer.as_str(), entry_singer.as_str());
    if !singers_agree {
        return None;
    }
    if entry.duration != 0 && song.duration != 0 {
        let difference = if entry.duration >= song.duration { entry.duration - song.duration } else { song.duration - entry.duration };
        if difference > CLOUD_MATCH_DURATION_MS {
            return None;
        }
        Some(difference)
    } else {
        Some(u64::MAX)
    }
}

/// Find the cloud-disk entry that is the user's upload of `song`: the title must agree once
/// normalized, the singer must overlap, and the duration decides between candidates.
pub fn pick_cloud_match(song: &SongInfo, disk: &Vec<SongInfo>) -> (r: Option<u64>)
    ensures
        r == cloud_match(*song, disk@),
{
    let name = cloud_match_key(song.name.as_str());
    if name.as_str().is_empty() {
        return None;
    }
    let singer = cloud_match_key(song.singer.as_str());

    let mut best: Option<(u64, u64)> = None;
    let mut i: usize = 0;
    while i < disk.len()
        invariant
            i <= disk.len(),
            name@ == match_key(song.name@),
            singer@ == match_key(song.singer@),
            best == best_match(*song, disk@.take(i as int)),
        decreases disk.len() - i,
    {
        assert(disk@.take(i + 1).drop_last() =~= disk@.take(i as int));
        assert(disk@.take(i + 1).last() == disk@[i as int]);
        match score(song, &name, &singer, &disk[i]) {
            None => {},
            Some(difference) => {
                best = match best {
                    Some((best_difference, id)) => if difference < best_difference { Some((difference, disk[i].id)) } else { Some((best_difference, id)) },
                    None => Some((difference, disk[i].id)),
                };
            },
        }
        i = i + 1;
    }
    assert(disk@.take(disk.len() as int) =~= disk@);
    match best {
        Some((_, id)) => Some(id),
        None => None,
    }
}

/// The duration only decides between uploads that already match: a matching upload whose
/// duration is unknown still beats no match at all, and a timed match beats an untimed one.
pub proof fn a_timed_match_beats_an_untimed_one(song: SongInfo, timed: SongInfo, untimed: SongInfo)
    requires
        match_score(song, timed) matches Some(d) && d < u64::MAX,
        match_score(song, untimed) == Some(u64::MAX),
    ensures
        best_match(song, seq![untimed, timed]) == Some((match_score(song, timed)->0, timed.id)),
        best_match(song, seq![timed, untimed]) == Some((match_score(song, timed)->0, timed.id)),
{
    reveal_with_fuel(best_match, 3);
    assert(seq![untimed, timed].last() == timed);
    assert(seq![timed, untimed].last() == untimed);
    assert(seq![untimed].last() == untimed);
    assert(seq![timed].last() == timed);
    assert(seq![untimed, timed].drop_last() =~= seq![untimed]);
    assert(seq![untimed].drop_last() =~= Seq::<SongInfo>::empty());
    assert(seq![timed, untimed].drop_last() =~= seq![timed]);
    assert(seq![timed].drop_last() =~= Seq::<SongInfo>::empty());
}

/// The sources a song can be streamed from when neither the cache nor a local file has it.
#[derive(Debug, Clone, Copy, PartialEq, Eq, Structural)]
pub enum Source {
    /// NCM's own player URLs.
    Ncm,
    /// The third-party providers.
    Sonar,
    /// The user's own uploads on their cloud disk.
    Cloud,
}

/// What the chain asks the player to do next.
#[derive(Debug)]
pub enum ChainAction {
    /// Try this source and report back.
    Ask(Source),
    /// This source produced a stream: play it.
    Play(Source),
    /// Nothing can play the song: report this error.
    Fail(SourceError),
}

/// What a source reported.
#[derive(Debug)]
pub enum ChainEvent {
    /// NCM produced a stream, or failed with this error.
    Ncm(Result<(), SourceError>),
    /// The third-party sources produced a stream, or failed with this error.
    Sonar(Result<(), SourceError>),
    /// Whether the cloud disk produced a stream; its failures are silent.
    Cloud(bool),
}

/// Where the chain is.
#[derive(Debug)]
pub enum ChainPhase {
    /// Waiting for NCM's answer; `attempt` tries have failed before this one.
    Ncm { attempt: u32 },
    /// Waiting for the third-party sources; NCM failed with `ncm_error`.
    Sonar { ncm_error: SourceError },
    /// Waiting for the cloud disk; `error` is what the caller sees if it has nothing.
    Cloud { error: SourceError },
    /// Played or failed: nothing more to ask.
    Over,
}

/// The streaming chain for a song whose cached copy and local file cannot be used: NCM player
/// URLs (one retry, only for a transport failure), then the third-party sources when they are
/// enabled, then the user's own cloud disk.
#[derive(Debug)]
pub struct StreamingChain {
    pub sonar_enabled: bool,
    pub phase: ChainPhase,
}

/// Whether `event` answers the question the chain is waiting on.
pub open spec fn answers(phase: ChainPhase, event: ChainEvent) -> bool {
    match (phase, event) {
        (ChainPhase::Ncm { .. }, ChainEvent::Ncm(_)) => true,
        (ChainPhase::Sonar { .. }, ChainEvent::Sonar(_)) => true,
        (ChainPhase::Cloud { .. }, ChainEvent::Cloud(_)) => true,
        _ => false,
    }
}

/// The chain's next phase and what it asks for, given what the source it asked reported.
pub open spec fn chain_step(sonar_enabled: bool, phase: ChainPhase, event: ChainEvent) -> (ChainPhase, ChainAction) {
    match (phase, event) {
        (ChainPhase::Ncm { attempt }, ChainEvent::Ncm(result)) => match result {
            Ok(()) => (ChainPhase::Over, ChainAction::Play(Source::Ncm)),
            Err(e) => if e is Network && attempt < 1 {
                (ChainPhase::Ncm { attempt: (attempt + 1) as u32 }, ChainAction::Ask(Source::Ncm))
            } else if sonar_enabled {
                (ChainPhase::Sonar { ncm_error: e }, ChainAction::Ask(Source::Sonar))
            } else {
                (ChainPhase::Cloud { error: e }, ChainAction::Ask(Source::Cloud))
            },
        },
        (ChainPhase::Sonar { .. }, ChainEvent::Sonar(result)) => match result {
            Ok(()) => (ChainPhase::Over, ChainAction::Play(Source::Sonar)),
            // The third-party failure is the more informative one: it is what the caller sees
            // when the cloud disk has nothing either.
            Err(e) => (ChainPhase::Cloud { error: e }, ChainAction::Ask(Source::Cloud)),
        },
        (ChainPhase::Cloud { error }, ChainEvent::Cloud(found)) => if found {
            (ChainPhase::Over, ChainAction::Play(Source::Cloud))
        } else {
            (ChainPhase::Over, ChainAction::Fail(error))
        },
        (phase, _) => (phase, ChainAction::Fail(SourceError::Internal(arbitrary()))),
    }
}

impl StreamingChain {
    /// A chain for one song; the first thing it asks for is NCM.
    pub fn new(sonar_enabled: bool) -> (r: (StreamingChain, ChainAction))
        ensures
            r.0.sonar_enabled == sonar_enabled,
            r.0.phase == (ChainPhase::Ncm { attempt: 0 }),
            r.1 == ChainAction::Ask(Source::Ncm),
    {
        (StreamingChain { sonar_enabled, phase: ChainPhase::Ncm { attempt: 0 } }, ChainAction::Ask(Source::Ncm))
    }

    /// Take in what the source that was asked reported, and say what to do next.
    pub fn step(&mut self, event: ChainEvent) -> (r: ChainAction)
        requires
            answers(old(self).phase, event),
        ensures
            final(self).sonar_enabled == old(self).sonar_enabled,
            (final(self).phase, r) == chain_step(old(self).sonar_enabled, old(self).phase, event),
    {
        let mut phase = ChainPhase::Over;
        std::mem::swap(&mut phase, &mut self.phase);
        match (phase, event) {
            (ChainPhase::Ncm { attempt }, ChainEvent::Ncm(result)) => match result {
                Ok(()) => ChainAction::Play(Source::Ncm),
                Err(e) => {
                    if should_retry_ncm(&e, attempt) {
                        self.phase = ChainPhase::Ncm { attempt: attempt + 1 };
                        ChainAction::Ask(Source::Ncm)
                    } else if self.sonar_enabled {
                        self.phase = ChainPhase::Sonar { ncm_error: e };
                        ChainAction::Ask(Source::Sonar)
                    } else {
                        self.phase = ChainPhase::Cloud { error: e };
                        ChainAction::Ask(Source::Cloud)
                    }
                },
            },
            (ChainPhase::Sonar { .. }, ChainEvent::Sonar(result)) => match result {
                Ok(()) => ChainAction::Play(Source::Sonar),
                Err(e) => {
                    self.phase = ChainPhase::Cloud { error: e };
                    ChainAction::Ask(Source::Cloud)
                },
            },
            (ChainPhase::Cloud { error }, ChainEvent::Cloud(found)) => {
                if found {
                    ChainAction::Play(Source::Cloud)
                } else {
                    ChainAction::Fail(error)
                }
            },
            (_, _) => {
                proof { assert(false); }
                ChainAction::Ask(Source::Ncm)
            },
        }
    }
}

/// NCM is asked at most twice, and the second time only after a transport failure: from the
/// retry, any failure moves on to the fallbacks.
pub proof fn ncm_is_retried_once_and_only_for_the_network(sonar_enabled: bool, e: SourceError)
    ensures
        (chain_step(sonar_enabled, ChainPhase::Ncm { attempt: 0 }, ChainEvent::Ncm(Err(e))).1 == ChainAction::Ask(Source::Ncm)) <==> e is Network,
        chain_step(sonar_enabled, ChainPhase::Ncm { attempt: 1 }, ChainEvent::Ncm(Err(e))).1 != ChainAction::Ask(Source::Ncm),
{
}

/// The cloud disk is the last resort: it is never asked while NCM can still play the song, and
/// after a failed NCM attempt it is asked only once the third-party sources (when enabled) failed.
pub proof fn the_cloud_disk_is_asked_last(sonar_enabled: bool, attempt: u32, e: SourceError)
    ensures
        chain_step(sonar_enabled, ChainPhase::Ncm { attempt }, ChainEvent::Ncm(Ok(()))).1 == ChainAction::Play(Source::Ncm),
        sonar_enabled ==> chain_step(sonar_enabled, ChainPhase::Ncm { attempt }, ChainEvent::Ncm(Err(e))).1 != ChainAction::Ask(Source::Cloud),
{
}

/// When nothing can play the song the caller sees the error it saw before the cloud disk existed:
/// the third-party failure when that step ran, NCM's failure otherwise.
pub proof fn a_miss_on_the_cloud_disk_reports_the_earlier_error(sonar_enabled: bool, ncm: SourceError, sonar: SourceError)
    ensures
        !(ncm is Network) && !sonar_enabled ==> ({
            let (p1, a1) = chain_step(sonar_enabled, ChainPhase::Ncm { attempt: 0 }, ChainEvent::Ncm(Err(ncm)));
            &&& a1 == ChainAction::Ask(Source::Cloud)
            &&& chain_step(sonar_enabled, p1, ChainEvent::Cloud(false)).1 == ChainAction::Fail(ncm)
        }),
        sonar_enabled ==> ({
            let (p1, a1) = chain_step(sonar_enabled, ChainPhase::Ncm { attempt: 1 }, ChainEvent::Ncm(Err(ncm)));
            let (p2, a2) = chain_step(sonar_enabled, p1, ChainEvent::Sonar(Err(sonar)));
            &&& a1 == ChainAction::Ask(Source::Sonar)
            &&& a2 == ChainAction::Ask(Source::Cloud)
            &&& chain_step(sonar_enabled, p2, ChainEvent::Cloud(false)).1 == ChainAction::Fail(sonar)
        }),
{
}

/// The path of `url` once the `url` crate has parsed it, or `None` when it does not parse.
pub uninterp spec fn parsed_url_path(url: Seq<char>) -> Option<Seq<char>>;

/// `url::Url::parse`, keeping the parsed URL's path (`Url::path`): `None` when `url` is not a
/// URL. What the path is for a given text is the crate's WHATWG parser, which this names rather
/// than restates.
#[verifier::external_body]
fn url_path(url: &str) -> (r: Option<String>)
    ensures
        match r {
            Some(p) => parsed_url_path(url@) == Some(p@),
            None => parsed_url_path(url@) is None,
        },
{
    url::Url::parse(url).ok().map(|parsed| parsed.path().to_string())
}

/// What follows the last `c` in `s`; all of `s` when `c` does not occur in it.
pub open spec fn after_last(s: Seq<char>, c: char) -> Seq<char>
    decreases s.len(),
{
    if s.len() == 0 {
        Seq::empty()
    } else if s.last() == c {
        Seq::empty()
    } else {
        after_last(s.drop_last(), c).push(s.last())
    }
}

fn after_last_of(s: &Vec<char>, c: char) -> (r: Vec<char>)
    ensures
        r@ == after_last(s@, c),
{
    let mut start: usize = s.len();
    assert(s@.take(s.len() as int) =~= s@);
    assert(s@.skip(s.len() as int) =~= Seq::<char>::empty());
    assert(after_last(s@, c) + Seq::<char>::empty() =~= after_last(s@, c));
    while start > 0 && s[start - 1] != c
        invariant
            start <= s.len(),
            after_last(s@, c) == after_last(s@.take(start as int), c) + s@.skip(start as int),
        decreases start,
    {
        let ghost t = s@.take(start as int);
        assert(t.drop_last() =~= s@.take(start - 1));
        assert(t.last() == s@[start - 1]);
        assert(s@.skip(start - 1) =~= seq![s@[start - 1]] + s@.skip(start as int));
        assert(after_last(t, c) == after_last(s@.take(start - 1), c).push(s@[start - 1]));
        assert(after_last(s@.take(start - 1), c).push(s@[start - 1]) + s@.skip(start as int)
            =~= after_last(s@.take(start - 1), c) + s@.skip(start - 1));
        start = start - 1;
    }
    proof {
        let t = s@.take(start as int);
        if start > 0 {
            assert(t.last() == c);
        }
        assert(after_last(t, c) =~= Seq::<char>::empty());
        assert(after_last(s@, c) =~= s@.skip(start as int));
    }
    let mut out: Vec<char> = Vec::new();
    let mut i = start;
    while i < s.len()
        invariant
            start <= i <= s.len(),
            out@ == s@.subrange(start as int, i as int),
        decreases s.len() - i,
    {
        out.push(s[i]);
        i = i + 1;
        assert(out@ =~= s@.subrange(start as int, i as int));
    }
    assert(out@ =~= s@.skip(start as int));
    out
}

/// The last segment of a URL path (`Url::path_segments().next_back()`); `None` when the path is
/// not a hierarchical one (it does not start with `/`).
pub open spec fn last_segment(path: Seq<char>) -> Option<Seq<char>> {
    if path.len() > 0 && path[0] == '/' { Some(after_last(path.skip(1), '/')) } else { None }
}

/// The extension of a file name: what follows its last dot; nothing when it has no dot.
pub open spec fn extension_of(file: Seq<char>) -> Seq<char> {
    if file.contains('.') { after_last(file, '.') } else { Seq::empty() }
}

/// What follows the last `c` is shorter than `s` exactly when `c` occurs in `s`.
proof fn lemma_after_last_shorter(s: Seq<char>, c: char)
    ensures
        after_last(s, c).len() <= s.len(),
        (after_last(s, c).len() < s.len()) == s.contains(c),
    decreases s.len(),
{
    if s.len() > 0 {
        lemma_after_last_shorter(s.drop_last(), c);
        if s.last() == c {
            assert(s[s.len() - 1] == c);
        } else {
            assert(s.contains(c) ==> s.drop_last().contains(c)) by {
                if s.contains(c) {
                    let k = choose|k: int| 0 <= k < s.len() && s[k] == c;
                    assert(s.drop_last()[k] == c);
                }
            }
            assert(s.drop_last().contains(c) ==> s.contains(c)) by {
                if s.drop_last().contains(c) {
                    let k = choose|k: int| 0 <= k < s.drop_last().len() && s.drop_last()[k] == c;
                    assert(s[k] == c);
                }
            }
        }
    }
}

/// The extension a streamed file is cached under, from the extension in its URL.
pub open spec fn extension_for(url: Seq<char>) -> Seq<char> {
    let file = match parsed_url_path(url) {
        Some(path) => match last_segment(path) {
            Some(segment) => segment,
            None => Seq::empty(),
        },
        None => Seq::empty(),
    };
    let ext = extension_of(file);
    if ext == "flac"@ {
        "flac"@
    } else if ext == "ogg"@ {
        "ogg"@
    } else if ext == "wav"@ {
        "wav"@
    } else if ext == "m4a"@ || ext == "mp4"@ {
        "m4a"@
    } else {
        "mp3"@
    }
}

/// Derive a file extension from a streaming URL: the extension of the last path segment (what
/// follows its last dot) when it is one the cache knows, `mp3` otherwise.
pub fn ext_from_url(url: &str) -> (r: &'static str)
    ensures
        r@ == extension_for(url@),
{
    proof {
        reveal_strlit("flac");
        reveal_strlit("ogg");
        reveal_strlit("wav");
        reveal_strlit("m4a");
        reveal_strlit("mp4");
        reveal_strlit("mp3");
    }
    let file: Vec<char> = match url_path(url) {
        Some(path) => {
            let p = crate::text::chars_of(path.as_str());
            if p.len() > 0 && p[0] == '/' {
                let mut rest: Vec<char> = Vec::new();
                let mut i: usize = 1;
                while i < p.len()
                    invariant
                        1 <= i <= p.len(),
                        rest@ == p@.subrange(1, i as int),
                    decreases p.len() - i,
                {
                    rest.push(p[i]);
                    i = i + 1;
                    assert(rest@ =~= p@.subrange(1, i as int));
                }
                assert(rest@ =~= p@.skip(1));
                after_last_of(&rest, '/')
            } else {
                Vec::new()
            }
        },
        None => Vec::new(),
    };
    let tail = after_last_of(&file, '.');
    proof { lemma_after_last_shorter(file@, '.'); }
    let ext = if tail.len() < file.len() { tail } else { Vec::new() };
    let text = crate::text::string_of_chars(&ext);
    let e = text.as_str();
    if crate::text::str_eq(e, "flac") {
        "flac"
    } else if crate::text::str_eq(e, "ogg") {
        "ogg"
    } else if crate::text::str_eq(e, "wav") {
        "wav"
    } else if crate::text::str_eq(e, "m4a") || crate::text::str_eq(e, "mp4") {
        "m4a"
    } else {
        "mp3"
    }
}

/// The quality levels NCM streams at.
#[derive(Debug, Clone, Copy, PartialEq, Eq, Structural)]
pub enum SongQuality {
    Standard,
    Higher,
    ExHigh,
    Lossless,
    HiRes,
    Surround,
    Master,
    AudioVivid,
}

/// The quality levels the third-party sources offer.
#[derive(Debug, Clone, Copy, PartialEq, Eq, Structural)]
pub enum SonarQuality {
    Standard,
    High,
    Lossless,
}

/// The third-party level closest to an NCM level: the lossless family maps to lossless, the
/// standard level to standard, and everything between to high.
pub fn to_sonar_quality(quality: SongQuality) -> (r: SonarQuality)
    ensures
        r == match quality {
            SongQuality::Lossless | SongQuality::HiRes | SongQuality::Surround | SongQuality::Master
            | SongQuality::AudioVivid => SonarQuality::Lossless,
            SongQuality::Standard => SonarQuality::Standard,
            _ => SonarQuality::High,
        },
{
    match quality {
        SongQuality::Lossless | SongQuality::HiRes | SongQuality::Surround | SongQuality::Master
        | SongQuality::AudioVivid => SonarQuality::Lossless,
        SongQuality::Standard => SonarQuality::Standard,
        _ => SonarQuality::High,
    }
}

/// The ways a song is resolved into a stream, in the order they are tried.
#[derive(Debug, Clone, Copy, PartialEq, Eq, Structural)]
pub enum ResolveStep {
    /// A previously cached copy; it wins for every source.
    Cache,
    /// A third-party search result, through the provider that found it.
    ByProvider,
    /// The third-party sources searched again, across providers.
    Providers,
    /// The local file of a `Free` song.
    Local,
    /// One of the streaming chain's sources.
    Stream(Source),
}

/// What resolving asks the player to do next.
#[derive(Debug)]
pub enum ResolveAction {
    /// Try this step and report back.
    Ask(ResolveStep),
    /// This step produced the input: play it.
    Play(ResolveStep),
    /// Nothing can play the song: report this error.
    Fail(SourceError),
}

/// What a step reported.
#[derive(Debug)]
pub enum ResolveEvent {
    /// Whether a cached copy could be opened.
    Cache(bool),
    /// The provider that found the song produced a stream, or failed.
    ByProvider(Result<(), SourceError>),
    /// The cross-provider search produced a stream, or failed.
    Providers(Result<(), SourceError>),
    /// Whether the local file could be opened.
    Local(bool),
    /// What a source of the streaming chain reported.
    Stream(ChainEvent),
}

/// Where resolving is.
#[derive(Debug)]
pub enum ResolvePhase {
    Cache,
    ByProvider,
    Providers,
    Local,
    Streaming(StreamingChain),
    Over,
}

/// The resolution of one song: the cache, then either the third-party path (for a song that came
/// from a third-party search) or the local file and the streaming chain.
#[derive(Debug)]
pub struct Resolver {
    /// Whether the song's id is one a third-party search handed out.
    pub third_party_song: bool,
    pub sonar_enabled: bool,
    pub phase: ResolvePhase,
}

/// The error a third-party song gets when the third-party sources are switched off.
pub open spec fn sonar_disabled_message() -> Seq<char> {
    "sonar 未启用，第三方音源无法解析"@
}

/// The provider that found a third-party song failed, and there is no search to fall back to.
pub open spec fn provider_failure_without_sonar(r: Resolver, event: ResolveEvent) -> bool {
    &&& r.phase is ByProvider
    &&& !r.sonar_enabled
    &&& event matches ResolveEvent::ByProvider(result)
    &&& result is Err
}

/// Whether `event` answers the step the resolver is waiting on.
pub open spec fn resolve_answers(phase: ResolvePhase, event: ResolveEvent) -> bool {
    match (phase, event) {
        (ResolvePhase::Cache, ResolveEvent::Cache(_)) => true,
        (ResolvePhase::ByProvider, ResolveEvent::ByProvider(_)) => true,
        (ResolvePhase::Providers, ResolveEvent::Providers(_)) => true,
        (ResolvePhase::Local, ResolveEvent::Local(_)) => true,
        (ResolvePhase::Streaming(chain), ResolveEvent::Stream(e)) => answers(chain.phase, e),
        _ => false,
    }
}

/// The chain's action as a resolver action.
pub open spec fn lift(a: ChainAction) -> ResolveAction {
    match a {
        ChainAction::Ask(s) => ResolveAction::Ask(ResolveStep::Stream(s)),
        ChainAction::Play(s) => ResolveAction::Play(ResolveStep::Stream(s)),
        ChainAction::Fail(e) => ResolveAction::Fail(e),
    }
}

/// The resolver's next phase and action, given what the step it asked reported. The error of
/// the failed third-party route is the only one built here; `msg` is its text.
pub open spec fn resolve_step(r: Resolver, event: ResolveEvent) -> (ResolvePhase, ResolveAction) {
    match (r.phase, event) {
        (ResolvePhase::Cache, ResolveEvent::Cache(found)) => if found {
            (ResolvePhase::Over, ResolveAction::Play(ResolveStep::Cache))
        } else if r.third_party_song {
            (ResolvePhase::ByProvider, ResolveAction::Ask(ResolveStep::ByProvider))
        } else {
            (ResolvePhase::Local, ResolveAction::Ask(ResolveStep::Local))
        },
        (ResolvePhase::ByProvider, ResolveEvent::ByProvider(result)) => match result {
            Ok(()) => (ResolvePhase::Over, ResolveAction::Play(ResolveStep::ByProvider)),
            Err(_) => if r.sonar_enabled {
                (ResolvePhase::Providers, ResolveAction::Ask(ResolveStep::Providers))
            } else {
                (ResolvePhase::Over, ResolveAction::Fail(SourceError::Provider(arbitrary())))
            },
        },
        (ResolvePhase::Providers, ResolveEvent::Providers(result)) => match result {
            Ok(()) => (ResolvePhase::Over, ResolveAction::Play(ResolveStep::Providers)),
            Err(e) => (ResolvePhase::Over, ResolveAction::Fail(e)),
        },
        (ResolvePhase::Local, ResolveEvent::Local(found)) => if found {
            (ResolvePhase::Over, ResolveAction::Play(ResolveStep::Local))
        } else {
            (
                ResolvePhase::Streaming(StreamingChain { sonar_enabled: r.sonar_enabled, phase: ChainPhase::Ncm { attempt: 0 } }),
                ResolveAction::Ask(ResolveStep::Stream(Source::Ncm)),
            )
        },
        (ResolvePhase::Streaming(chain), ResolveEvent::Stream(e)) => {
            let (next, action) = chain_step(chain.sonar_enabled, chain.phase, e);
            (
                match next {
                    ChainPhase::Over => ResolvePhase::Over,
                    _ => ResolvePhase::Streaming(StreamingChain { sonar_enabled: chain.sonar_enabled, phase: next }),
                },
                lift(action),
            )
        },
        (phase, _) => (phase, ResolveAction::Fail(SourceError::Internal(arbitrary()))),
    }
}

impl Resolver {
    /// Resolution of one song; the first thing it asks for is the cache.
    pub fn new(third_party_song: bool, sonar_enabled: bool) -> (r: (Resolver, ResolveAction))
        ensures
            r.0.third_party_song == third_party_song,
            r.0.sonar_enabled == sonar_enabled,
            r.0.phase == ResolvePhase::Cache,
            r.1 == ResolveAction::Ask(ResolveStep::Cache),
    {
        (Resolver { third_party_song, sonar_enabled, phase: ResolvePhase::Cache }, ResolveAction::Ask(ResolveStep::Cache))
    }

    /// Take in what the step that was asked reported, and say what to do next.
    pub fn step(&mut self, event: ResolveEvent) -> (r: ResolveAction)
        requires
            resolve_answers(old(self).phase, event),
        ensures
            final(self).third_party_song == old(self).third_party_song,
            final(self).sonar_enabled == old(self).sonar_enabled,
            provider_failure_without_sonar(*old(self), event) ==> {
                &&& final(self).phase is Over
                &&& r matches ResolveAction::Fail(SourceError::Provider(m)) && m@ == sonar_disabled_message()
            },
            !provider_failure_without_sonar(*old(self), event) ==>
                (final(self).phase, r) == resolve_step(*old(self), event),
    {
        proof { reveal_strlit("sonar 未启用，第三方音源无法解析"); }
        let mut phase = ResolvePhase::Over;
        std::mem::swap(&mut phase, &mut self.phase);
        match (phase, event) {
            (ResolvePhase::Cache, ResolveEvent::Cache(found)) => {
                if found {
                    ResolveAction::Play(ResolveStep::Cache)
                } else if self.third_party_song {
                    self.phase = ResolvePhase::ByProvider;
                    ResolveAction::Ask(ResolveStep::ByProvider)
                } else {
                    self.phase = ResolvePhase::Local;
                    ResolveAction::Ask(ResolveStep::Local)
                }
            },
            (ResolvePhase::ByProvider, ResolveEvent::ByProvider(result)) => match result {
                Ok(()) => ResolveAction::Play(ResolveStep::ByProvider),
                Err(_) => {
                    if self.sonar_enabled {
                        self.phase = ResolvePhase::Providers;
                        ResolveAction::Ask(ResolveStep::Providers)
                    } else {
                        ResolveAction::Fail(SourceError::Provider(owned("sonar 未启用，第三方音源无法解析")))
                    }
                },
            },
            (ResolvePhase::Providers, ResolveEvent::Providers(result)) => match result {
                Ok(()) => ResolveAction::Play(ResolveStep::Providers),
                Err(e) => ResolveAction::Fail(e),
            },
            (ResolvePhase::Local, ResolveEvent::Local(found)) => {
                if found {
                    ResolveAction::Play(ResolveStep::Local)
                } else {
                    let (chain, action) = StreamingChain::new(self.sonar_enabled);
                    self.phase = ResolvePhase::Streaming(chain);
                    match action {
                        ChainAction::Ask(s) => ResolveAction::Ask(ResolveStep::Stream(s)),
                        ChainAction::Play(s) => ResolveAction::Play(ResolveStep::Stream(s)),
                        ChainAction::Fail(e) => ResolveAction::Fail(e),
                    }
                }
            },
            (ResolvePhase::Streaming(mut chain), ResolveEvent::Stream(e)) => {
                let action = chain.step(e);
                match chain.phase {
                    ChainPhase::Over => {},
                    _ => self.phase = ResolvePhase::Streaming(chain),
                }
                match action {
                    ChainAction::Ask(s) => ResolveAction::Ask(ResolveStep::Stream(s)),
                    ChainAction::Play(s) => ResolveAction::Play(ResolveStep::Stream(s)),
                    ChainAction::Fail(e) => ResolveAction::Fail(e),
                }
            },
            (_, _) => {
                proof { assert(false); }
                ResolveAction::Ask(ResolveStep::Cache)
            },
        }
    }
}

/// A cached copy wins for every source: when the cache has the song nothing else is asked.
pub proof fn the_cache_wins(r: Resolver)
    requires
        r.phase is Cache,
    ensures
        resolve_step(r, ResolveEvent::Cache(true)) == (ResolvePhase::Over, ResolveAction::Play(ResolveStep::Cache)),
{
}

/// A song from a third-party search never reaches NCM or the local file: after the cache it
/// goes to its provider, and only from there to the cross-provider search.
pub proof fn a_third_party_song_stays_with_the_providers(r: Resolver)
    requires
        r.phase is Cache,
        r.third_party_song,
    ensures
        resolve_step(r, ResolveEvent::Cache(false)).1 == ResolveAction::Ask(ResolveStep::ByProvider),
{
}

/// A catalogue song whose local file cannot be opened starts the streaming chain at NCM.
pub proof fn a_catalogue_song_falls_through_to_streaming(r: Resolver)
    requires
        r.phase is Local,
    ensures
        resolve_step(r, ResolveEvent::Local(false)).1 == ResolveAction::Ask(ResolveStep::Stream(Source::Ncm)),
{
}

/// A local file that opens is what plays: once the cache has missed, a song whose local file
/// can be opened ends resolution there, and no streaming source is asked.
pub proof fn an_opened_local_file_is_played(r: Resolver)
    requires
        r.phase is Local,
    ensures
        resolve_step(r, ResolveEvent::Local(true)) == (ResolvePhase::Over, ResolveAction::Play(ResolveStep::Local)),
{
}

/// Whatever step produces an input is the one played, and resolution is over: the cache, the
/// provider that found a third-party song, the cross-provider search, and the local file.
pub proof fn a_found_input_ends_resolution(r: Resolver)
    ensures
        r.phase is Cache ==> resolve_step(r, ResolveEvent::Cache(true))
            == (ResolvePhase::Over, ResolveAction::Play(ResolveStep::Cache)),
        r.phase is ByProvider ==> resolve_step(r, ResolveEvent::ByProvider(Ok(())))
            == (ResolvePhase::Over, ResolveAction::Play(ResolveStep::ByProvider)),
        r.phase is Providers ==> resolve_step(r, ResolveEvent::Providers(Ok(())))
            == (ResolvePhase::Over, ResolveAction::Play(ResolveStep::Providers)),
        r.phase is Local ==> resolve_step(r, ResolveEvent::Local(true))
            == (ResolvePhase::Over, ResolveAction::Play(ResolveStep::Local)),
{
}

/// A miss moves resolution down the order: a catalogue song the cache lacks goes to its local
/// file, and one whose local file cannot be opened starts the streaming chain at NCM's first
/// attempt, keeping whether the third-party sources are on.
pub proof fn a_miss_moves_down_the_order(r: Resolver)
    ensures
        r.phase is Cache && !r.third_party_song ==> resolve_step(r, ResolveEvent::Cache(false))
            == (ResolvePhase::Local, ResolveAction::Ask(ResolveStep::Local)),
        r.phase is Local ==> resolve_step(r, ResolveEvent::Local(false)) == (
            ResolvePhase::Streaming(StreamingChain { sonar_enabled: r.sonar_enabled, phase: ChainPhase::Ncm { attempt: 0 } }),
            ResolveAction::Ask(ResolveStep::Stream(Source::Ncm)),
        ),
{
}

/// What the best match found: no entry of `disk` matches when it finds none; otherwise the
/// entry at `k` holds the id it names, with the smallest difference of every matching entry,
/// and every earlier matching entry is strictly further off.
pub open spec fn best_of(song: SongInfo, disk: Seq<SongInfo>, found: Option<(u64, u64)>) -> bool {
    match found {
        None => forall|j: int| 0 <= j < disk.len() ==> match_score(song, #[trigger] disk[j]) is None,
        Some((best, id)) => exists|k: int| {
            &&& 0 <= k < disk.len()
            &&& #[trigger] disk[k].id == id
            &&& match_score(song, disk[k]) == Some(best)
            &&& forall|j: int| 0 <= j < disk.len() ==> (match_score(song, #[trigger] disk[j]) matches Some(d) ==> best <= d)
            &&& forall|j: int| 0 <= j < k ==> (match_score(song, #[trigger] disk[j]) matches Some(d) ==> best < d)
        },
    }
}

proof fn lemma_best_match(song: SongInfo, disk: Seq<SongInfo>)
    ensures
        best_of(song, disk, best_match(song, disk)),
    decreases disk.len(),
{
    if disk.len() > 0 {
        let rest = disk.drop_last();
        lemma_best_match(song, rest);
        let n = disk.len() - 1;
        assert forall|j: int| 0 <= j < rest.len() implies #[trigger] disk[j] == rest[j] by {}
        match best_match(song, rest) {
            None => {
                match match_score(song, disk.last()) {
                    None => {
                        assert forall|j: int| 0 <= j < disk.len() implies match_score(song, #[trigger] disk[j]) is None by {
                            if j < n { assert(disk[j] == rest[j]); }
                        }
                    },
                    Some(d) => {
                        assert(disk[n].id == disk.last().id);
                        assert forall|j: int| 0 <= j < disk.len() implies (match_score(song, #[trigger] disk[j]) matches Some(e) ==> d <= e) by {
                            if j < n { assert(disk[j] == rest[j]); }
                        }
                        assert forall|j: int| 0 <= j < n implies (match_score(song, #[trigger] disk[j]) matches Some(e) ==> d < e) by {
                            assert(disk[j] == rest[j]);
                        }
                    },
                }
            },
            Some((best, id)) => {
                let k = choose|k: int| {
                    &&& 0 <= k < rest.len()
                    &&& #[trigger] rest[k].id == id
                    &&& match_score(song, rest[k]) == Some(best)
                    &&& forall|j: int| 0 <= j < rest.len() ==> (match_score(song, #[trigger] rest[j]) matches Some(d) ==> best <= d)
                    &&& forall|j: int| 0 <= j < k ==> (match_score(song, #[trigger] rest[j]) matches Some(d) ==> best < d)
                };
                match match_score(song, disk.last()) {
                    Some(d) => if d < best {
                        assert(disk[n].id == disk.last().id);
                        assert forall|j: int| 0 <= j < disk.len() implies (match_score(song, #[trigger] disk[j]) matches Some(e) ==> d <= e) by {
                            if j < n {
                                assert(disk[j] == rest[j]);
                                assert(match_score(song, rest[j]) matches Some(e) ==> best <= e);
                            }
                        }
                        assert forall|j: int| 0 <= j < n implies (match_score(song, #[trigger] disk[j]) matches Some(e) ==> d < e) by {
                            assert(disk[j] == rest[j]);
                            assert(match_score(song, rest[j]) matches Some(e) ==> best <= e);
                        }
                    } else {
                        assert(disk[k] == rest[k]);
                        assert forall|j: int| 0 <= j < disk.len() implies (match_score(song, #[trigger] disk[j]) matches Some(e) ==> best <= e) by {
                            if j < n {
                                assert(disk[j] == rest[j]);
                                assert(match_score(song, rest[j]) matches Some(e) ==> best <= e);
                            }
                        }
                        assert forall|j: int| 0 <= j < k implies (match_score(song, #[trigger] disk[j]) matches Some(e) ==> best < e) by {
                            assert(disk[j] == rest[j]);
                            assert(match_score(song, rest[j]) matches Some(e) ==> best < e);
                        }
                    },
                    None => {
                        assert(disk[k] == rest[k]);
                        assert forall|j: int| 0 <= j < disk.len() implies (match_score(song, #[trigger] disk[j]) matches Some(e) ==> best <= e) by {
                            if j < n {
                                assert(disk[j] == rest[j]);
                                assert(match_score(song, rest[j]) matches Some(e) ==> best <= e);
                            }
                        }
                        assert forall|j: int| 0 <= j < k implies (match_score(song, #[trigger] disk[j]) matches Some(e) ==> best < e) by {
                            assert(disk[j] == rest[j]);
                            assert(match_score(song, rest[j]) matches Some(e) ==> best < e);
                        }
                    },
                }
            },
        }
    }
}

/// The upload picked is the closest one: when the song has a title and some upload matches it,
/// an upload is picked; the one picked matches, no matching upload is closer in duration, and
/// among equally close ones the first on the disk wins. When none matches, none is picked.
pub proof fn the_closest_upload_is_picked(song: SongInfo, disk: Seq<SongInfo>)
    ensures
        (song.name@.len() == 0 || match_key(song.name@).len() == 0) ==> cloud_match(song, disk) is None,
        (forall|j: int| 0 <= j < disk.len() ==> match_score(song, #[trigger] disk[j]) is None) ==> cloud_match(song, disk) is None,
        cloud_match(song, disk) matches Some(x) ==> exists|k: int| {
            &&& 0 <= k < disk.len()
            &&& #[trigger] disk[k].id == x
            &&& match_score(song, disk[k]) matches Some(dk)
            &&& forall|j: int| 0 <= j < disk.len() ==> (match_score(song, #[trigger] disk[j]) matches Some(d) ==> dk <= d)
            &&& forall|j: int| 0 <= j < k ==> (match_score(song, #[trigger] disk[j]) matches Some(d) ==> dk < d)
        },
        (song.name@.len() > 0 && match_key(song.name@).len() > 0
            && exists|j: int| 0 <= j < disk.len() && match_score(song, #[trigger] disk[j]) is Some)
            ==> cloud_match(song, disk) is Some,
{
    lemma_best_match(song, disk);
    if exists|j: int| 0 <= j < disk.len() && match_score(song, #[trigger] disk[j]) is Some {
        let j = choose|j: int| 0 <= j < disk.len() && match_score(song, #[trigger] disk[j]) is Some;
        assert(best_match(song, disk) is Some);
    }
}

} // verus!

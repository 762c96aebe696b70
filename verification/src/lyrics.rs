//! Where the song is in its lyrics: the line being sung, how much of it has been sung, and how
//! long each line lasts. Positions are whole milliseconds into the song.
use vstd::prelude::*;
use crate::text::char_count;

verus! {

/// What the last line is given when the song's own length is unknown, in milliseconds.
pub const LAST_LINE_FALLBACK_MS: u64 = 4_000;

/// One timed line of a lyrics file.
#[derive(Debug, Clone)]
pub struct LyricLine {
    /// When the line starts, in milliseconds into the song.
    pub time_ms: u64,
    pub text: String,
}

/// The index of the last line in `s[..n]` that has started at `ms`, or -1 when none has.
pub open spec fn last_started_before(s: Seq<LyricLine>, n: int, ms: int) -> int
    decreases n,
{
    if n <= 0 {
        -1
    } else if s[n - 1].time_ms <= ms {
        n - 1
    } else {
        last_started_before(s, n - 1, ms)
    }
}

/// The line a scan from the top finds at `ms`: the last one that has started, and the first one
/// while the intro plays.
pub open spec fn scanned_line(s: Seq<LyricLine>, ms: int) -> int {
    let i = last_started_before(s, s.len() as int, ms);
    if i < 0 { 0 } else { i }
}

/// Walk forward from `cur` while the next line has started.
pub open spec fn walk_forward(s: Seq<LyricLine>, cur: int, ms: int) -> int
    decreases s.len() - cur,
{
    if 0 <= cur && cur + 1 < s.len() && s[cur + 1].time_ms <= ms {
        walk_forward(s, cur + 1, ms)
    } else {
        cur
    }
}

/// The line `hint_line` answers: the hint when it still fits, walked forward; a scan when the song
/// has gone back past it.
pub open spec fn hinted_line(s: Seq<LyricLine>, hint: Option<usize>, ms: int) -> int {
    if s.len() == 0 {
        0
    } else {
        let cur: int = match hint {
            Some(h) => if h < s.len() { h as int } else { 0 },
            None => 0,
        };
        if s[cur].time_ms > ms { scanned_line(s, ms) } else { walk_forward(s, cur, ms) }
    }
}

/// Lines start in order.
pub open spec fn in_order(s: Seq<LyricLine>) -> bool {
    forall|i: int, j: int| 0 <= i <= j < s.len() ==> s[i].time_ms <= s[j].time_ms
}

/// How long the line at `i` lasts: until the next one starts (at least a millisecond), the rest
/// of the song for the last line, or the fallback when even that is unknown.
pub open spec fn spec_line_duration(s: Seq<LyricLine>, i: int, total_ms: Option<u64>) -> int {
    if i < 0 || i >= s.len() {
        LAST_LINE_FALLBACK_MS as int
    } else if i + 1 < s.len() {
        if s[i + 1].time_ms > s[i].time_ms { s[i + 1].time_ms - s[i].time_ms } else { 1 }
    } else {
        match total_ms {
            Some(total) => if total > s[i].time_ms { total - s[i].time_ms } else { LAST_LINE_FALLBACK_MS as int },
            None => LAST_LINE_FALLBACK_MS as int,
        }
    }
}

/// How many of the line's characters have been sung at `ms`: the elapsed share of its duration,
/// rounded down, and never below none or above all of them.
pub open spec fn spec_fill(s: Seq<LyricLine>, i: int, ms: int, total_ms: Option<u64>) -> int {
    if i < 0 || i >= s.len() {
        0
    } else {
        let start = s[i].time_ms as int;
        let count = s[i].text@.len() as int;
        let duration = spec_line_duration(s, i, total_ms);
        if ms <= start {
            0
        } else if ms - start >= duration {
            count
        } else {
            count * (ms - start) / duration
        }
    }
}

/// The line at `cur_ms`, scanned from `hint`: forward from the hint, which is where a song spends
/// its time; a scan from the top only when the song has gone back past it. An intro before the
/// first line belongs to the first line.
pub fn hint_line(lyrics: &[LyricLine], hint: Option<usize>, cur_ms: u64) -> (r: usize)
    ensures
        r == hinted_line(lyrics@, hint, cur_ms as int),
        lyrics@.len() > 0 ==> r < lyrics@.len(),
{
    let len = lyrics.len();
    if len == 0 {
        return 0;
    }
    let mut cur: usize = match hint {
        Some(h) => if h < len { h } else { 0 },
        None => 0,
    };
    if lyrics[cur].time_ms > cur_ms {
        assert(hinted_line(lyrics@, hint, cur_ms as int) == scanned_line(lyrics@, cur_ms as int));
        let mut n: usize = len;
        while n > 0
            invariant
                n <= len,
                len == lyrics@.len(),
                last_started_before(lyrics@, len as int, cur_ms as int) == last_started_before(lyrics@, n as int, cur_ms as int),
                hinted_line(lyrics@, hint, cur_ms as int) == scanned_line(lyrics@, cur_ms as int),
            decreases n,
        {
            if lyrics[n - 1].time_ms <= cur_ms {
                assert(last_started_before(lyrics@, n as int, cur_ms as int) == n - 1);
                return n - 1;
            }
            n = n - 1;
        }
        assert(last_started_before(lyrics@, 0, cur_ms as int) == -1);
        return 0;
    }
    while cur + 1 < len && lyrics[cur + 1].time_ms <= cur_ms
        invariant
            cur < len,
            len == lyrics@.len(),
            walk_forward(lyrics@, cur as int, cur_ms as int) == hinted_line(lyrics@, hint, cur_ms as int),
        decreases len - cur,
    {
        cur = cur + 1;
    }
    cur
}

/// How long the line at `i` lasts, in milliseconds: always at least one, so the animations that
/// follow a line have a speed to move at.
pub fn line_duration(lyrics: &[LyricLine], i: usize, total_ms: Option<u64>) -> (r: u64)
    ensures
        r == spec_line_duration(lyrics@, i as int, total_ms),
        r >= 1,
{
    if i >= lyrics.len() {
        return LAST_LINE_FALLBACK_MS;
    }
    let start = lyrics[i].time_ms;
    if i + 1 < lyrics.len() {
        let next = lyrics[i + 1].time_ms;
        return if next > start { next - start } else { 1 };
    }
    match total_ms {
        Some(total) => if total > start { total - start } else { LAST_LINE_FALLBACK_MS },
        None => LAST_LINE_FALLBACK_MS,
    }
}

/// How many characters of the line at `i` have been sung at `cur_ms`, measured against the line's
/// own duration so a line with no known end does not fill up the moment it starts.
pub fn fill(lyrics: &[LyricLine], i: usize, cur_ms: u64, total_ms: Option<u64>) -> (r: usize)
    ensures
        r == spec_fill(lyrics@, i as int, cur_ms as int, total_ms),
        i < lyrics@.len() ==> r <= lyrics@[i as int].text@.len(),
{
    if i >= lyrics.len() {
        return 0;
    }
    let start = lyrics[i].time_ms;
    let count = char_count(lyrics[i].text.as_str());
    let duration = line_duration(lyrics, i, total_ms);
    if cur_ms <= start {
        return 0;
    }
    let elapsed = cur_ms - start;
    if elapsed >= duration {
        return count;
    }
    let c: u128 = count as u128;
    let e: u128 = elapsed as u128;
    assert(c * e <= 0xffff_ffff_ffff_ffffu128 * 0xffff_ffff_ffff_ffffu128) by (nonlinear_arith)
        requires c <= 0xffff_ffff_ffff_ffffu128, e <= 0xffff_ffff_ffff_ffffu128;
    let sung: u128 = c * e / (duration as u128);
    assert(sung <= count) by (nonlinear_arith)
        requires
            sung == (c as int) * (e as int) / (duration as int),
            c == count,
            e < duration,
            duration >= 1,
    {
        assert((c as int) * (e as int) <= (c as int) * (duration as int));
    }
    sung as usize
}

/// The song's own length, when the API reported one: a zero is a missing length, not a song of
/// no length.
pub fn song_duration_ms(duration_ms: u64) -> (r: Option<u64>)
    ensures
        r == (if duration_ms > 0 { Some(duration_ms) } else { None::<u64> }),
{
    if duration_ms > 0 { Some(duration_ms) } else { None }
}

/// The line the song was on last frame: a hint that keeps finding the current line a step
/// rather than a scan.
#[derive(Debug)]
pub struct LyricsState {
    pub last_line: Option<usize>,
}

impl Default for LyricsState {
    fn default() -> (r: Self)
        ensures
            r.last_line == None::<usize>,
    {
        LyricsState { last_line: None }
    }
}

impl LyricsState {
    /// The line the song is on at `cur_ms`, remembered for the next frame.
    pub fn current_line(&mut self, lyrics: &[LyricLine], cur_ms: u64) -> (r: usize)
        ensures
            r == hinted_line(lyrics@, old(self).last_line, cur_ms as int),
            final(self).last_line == Some(r),
    {
        let line = hint_line(lyrics, self.last_line, cur_ms);
        self.last_line = Some(line);
        line
    }

    /// How many characters of the line at `i` have been sung at `cur_ms`.
    pub fn fill(&self, lyrics: &[LyricLine], i: usize, cur_ms: u64, total_ms: Option<u64>) -> (r: usize)
        ensures
            r == spec_fill(lyrics@, i as int, cur_ms as int, total_ms),
    {
        fill(lyrics, i, cur_ms, total_ms)
    }
}

proof fn lemma_last_started_is_last(s: Seq<LyricLine>, n: int, ms: int)
    requires
        0 <= n <= s.len(),
    ensures
        last_started_before(s, n, ms) < n,
        last_started_before(s, n, ms) >= -1,
        last_started_before(s, n, ms) >= 0 ==> s[last_started_before(s, n, ms)].time_ms <= ms,
        forall|k: int| last_started_before(s, n, ms) < k < n ==> s[k].time_ms > ms,
    decreases n,
{
    if n > 0 {
        lemma_last_started_is_last(s, n - 1, ms);
    }
}

proof fn lemma_walk_stops_at_the_boundary(s: Seq<LyricLine>, cur: int, ms: int)
    requires
        0 <= cur < s.len(),
        s[cur].time_ms <= ms,
    ensures
        cur <= walk_forward(s, cur, ms) < s.len(),
        s[walk_forward(s, cur, ms)].time_ms <= ms,
        walk_forward(s, cur, ms) + 1 < s.len() ==> s[walk_forward(s, cur, ms) + 1].time_ms > ms,
    decreases s.len() - cur,
{
    if cur + 1 < s.len() && s[cur + 1].time_ms <= ms {
        lemma_walk_stops_at_the_boundary(s, cur + 1, ms);
    }
}

/// With lines in order the hint is only a shortcut: whatever the previous frame remembered, the
/// line found is the one a scan from the top finds — the last line that has started, or the
/// first line during the intro.
pub proof fn the_hint_never_changes_the_answer(s: Seq<LyricLine>, hint: Option<usize>, ms: int)
    requires
        in_order(s),
        s.len() > 0,
    ensures
        hinted_line(s, hint, ms) == scanned_line(s, ms),
{
    let cur: int = match hint {
        Some(h) => if h < s.len() { h as int } else { 0 },
        None => 0,
    };
    lemma_last_started_is_last(s, s.len() as int, ms);
    if s[cur].time_ms <= ms {
        lemma_walk_stops_at_the_boundary(s, cur, ms);
        let w = walk_forward(s, cur, ms);
        let l = last_started_before(s, s.len() as int, ms);
        if l < w {
            assert(s[w].time_ms > ms);
        } else if l > w {
            assert(s[w + 1].time_ms <= s[l].time_ms);
        }
    }
}

/// The line being sung, found from any hint, with lines in order: during the intro, before any
/// line has started, it is the first line; afterwards it is a line that has started and whose
/// next line, if any, has not.
pub proof fn the_line_found_is_the_one_being_sung(s: Seq<LyricLine>, hint: Option<usize>, ms: int)
    requires
        in_order(s),
        s.len() > 0,
    ensures
        0 <= hinted_line(s, hint, ms) < s.len(),
        ms < s[0].time_ms ==> hinted_line(s, hint, ms) == 0,
        ms >= s[0].time_ms ==> {
            let i = hinted_line(s, hint, ms);
            &&& s[i].time_ms <= ms
            &&& i + 1 < s.len() ==> s[i + 1].time_ms > ms
        },
{
    the_hint_never_changes_the_answer(s, hint, ms);
    lemma_last_started_is_last(s, s.len() as int, ms);
    let l = last_started_before(s, s.len() as int, ms);
    if ms < s[0].time_ms {
        if l >= 0 {
            assert(s[0].time_ms <= s[l].time_ms);
        }
    } else {
        if l < 0 {
            assert(s[0].time_ms > ms);
        }
    }
}

/// The fill never runs past either end: nothing is sung before the line starts, all of it once
/// the line is over, and it only grows while the song plays on.
pub proof fn the_fill_grows_and_stays_in_bounds(s: Seq<LyricLine>, i: int, a: int, b: int, total_ms: Option<u64>)
    requires
        0 <= i < s.len(),
        a <= b,
    ensures
        0 <= spec_fill(s, i, a, total_ms) <= spec_fill(s, i, b, total_ms) <= s[i].text@.len(),
        b <= s[i].time_ms ==> spec_fill(s, i, b, total_ms) == 0,
        b >= s[i].time_ms + spec_line_duration(s, i, total_ms) ==> spec_fill(s, i, b, total_ms) == s[i].text@.len(),
{
    let start = s[i].time_ms as int;
    let count = s[i].text@.len() as int;
    let d = spec_line_duration(s, i, total_ms);
    assert(d >= 1);
    if a > start && a - start < d {
        let ea = a - start;
        assert(0 <= count * ea / d <= count) by (nonlinear_arith)
            requires ea >= 0, ea < d, d >= 1, count >= 0;
        if b - start < d {
            let eb = b - start;
            assert(count * ea / d <= count * eb / d) by (nonlinear_arith)
                requires 0 <= ea <= eb, d >= 1, count >= 0;
        }
    }
    if b > start && b - start < d {
        let eb = b - start;
        assert(0 <= count * eb / d <= count) by (nonlinear_arith)
            requires eb >= 0, eb < d, d >= 1, count >= 0;
    }
}

/// A lyric line's text as it is drawn: a dot stands in for an instrumental gap.
pub fn shown_text(text: &str) -> (r: &str)
    ensures
        r@ == (if text@.len() == 0 { "·"@ } else { text@ }),
{
    if text.is_empty() { "·" } else { text }
}

/// The first line of a window of `height` rows centred on line `cur`, each lyric taking
/// `lines_per_lyric` rows (two when its translation is drawn under it).
pub fn window_start(cur: usize, height: usize, lines_per_lyric: usize) -> (r: usize)
    requires
        lines_per_lyric > 0,
    ensures
        r == (if cur > (height / lines_per_lyric) / 2 { cur - (height / lines_per_lyric) / 2 } else { 0 }),
{
    let half = (height / lines_per_lyric) / 2;
    if cur > half { cur - half } else { 0 }
}

/// Lines a window of `height` rows shows from `start`: as many whole lyrics as fit, and no line
/// past the end of the file.
pub fn window_end(start: usize, height: usize, lines_per_lyric: usize, len: usize) -> (r: usize)
    requires
        lines_per_lyric > 0,
    ensures
        r == (if start + height / lines_per_lyric < len { start + height / lines_per_lyric } else { len as int }),
{
    let fit = height / lines_per_lyric;
    if start < len && fit < len - start { start + fit } else { len }
}

} // verus!

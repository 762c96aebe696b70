//! The local music library: what a file's tags make of a track, and the album order the scan
//! hands the songs out in. Walking the directories and reading the tags are the caller's.
use vstd::prelude::*;
use crate::song::{SongCopyright, SongInfo};
use crate::text::{chars_of, owned, str_eq, string_of_range};
use vstd::multiset::Multiset;

verus! {

broadcast use vstd::seq_lib::group_to_multiset_ensures;

/// Whether `a` comes before `b` from position `i` on, comparing characters by code point and a
/// string before its own extensions. UTF-8 keeps code point order byte by byte, so this is the
/// order `String`'s `Ord` puts them in.
pub open spec fn lt_from(a: Seq<char>, b: Seq<char>, i: int) -> bool
    decreases a.len() - i,
{
    if i < 0 {
        false
    } else if i >= a.len() {
        i < b.len()
    } else if i >= b.len() {
        false
    } else if a[i] != b[i] {
        a[i] < b[i]
    } else {
        lt_from(a, b, i + 1)
    }
}

/// Whether `a` sorts before `b`.
pub open spec fn text_lt(a: Seq<char>, b: Seq<char>) -> bool {
    lt_from(a, b, 0)
}

proof fn lemma_lt_from_irreflexive(a: Seq<char>, i: int)
    requires
        0 <= i,
    ensures
        !lt_from(a, a, i),
    decreases a.len() - i,
{
    if i < a.len() {
        lemma_lt_from_irreflexive(a, i + 1);
    }
}

proof fn lemma_lt_from_transitive(a: Seq<char>, b: Seq<char>, c: Seq<char>, i: int)
    requires
        0 <= i,
        lt_from(a, b, i),
        lt_from(b, c, i),
    ensures
        lt_from(a, c, i),
    decreases a.len() - i,
{
    if i < a.len() && i < b.len() && i < c.len() && a[i] == b[i] && b[i] == c[i] {
        lemma_lt_from_transitive(a, b, c, i + 1);
    }
}

proof fn lemma_lt_from_total(a: Seq<char>, b: Seq<char>, i: int)
    requires
        0 <= i <= a.len(),
        i <= b.len(),
        !lt_from(a, b, i),
        !lt_from(b, a, i),
    ensures
        a.len() == b.len(),
        forall|k: int| i <= k < a.len() ==> a[k] == b[k],
    decreases a.len() - i,
{
    if i < a.len() && i < b.len() {
        if a[i] == b[i] {
            lemma_lt_from_total(a, b, i + 1);
        }
    }
}

/// `text_lt` is a strict total order.
pub proof fn text_order_is_total(a: Seq<char>, b: Seq<char>, c: Seq<char>)
    ensures
        !text_lt(a, a),
        text_lt(a, b) && text_lt(b, c) ==> text_lt(a, c),
        a != b ==> text_lt(a, b) || text_lt(b, a),
{
    lemma_lt_from_irreflexive(a, 0);
    if text_lt(a, b) && text_lt(b, c) {
        lemma_lt_from_transitive(a, b, c, 0);
    }
    if !text_lt(a, b) && !text_lt(b, a) {
        lemma_lt_from_total(a, b, 0);
        assert(a =~= b);
    }
}

/// A file's place in its album: disc and track, each unknown when its tag is missing.
#[derive(Debug, Clone, Copy, PartialEq, Eq, Structural)]
pub struct TrackPosition {
    pub disc: Option<u32>,
    pub track: Option<u32>,
}

/// An unknown number sorts before every known one.
pub open spec fn number_lt(a: Option<u32>, b: Option<u32>) -> bool {
    match (a, b) {
        (None, Some(_)) => true,
        (Some(x), Some(y)) => x < y,
        _ => false,
    }
}

/// An absent path sorts before every present one.
pub open spec fn path_lt(a: Option<Seq<char>>, b: Option<Seq<char>>) -> bool {
    match (a, b) {
        (None, Some(_)) => true,
        (Some(x), Some(y)) => text_lt(x, y),
        _ => false,
    }
}

/// A file the scan found: its place in its album and the song made of it.
#[derive(Debug)]
pub struct ScannedFile {
    pub position: TrackPosition,
    pub song: SongInfo,
}

/// What a scanned file is ordered by: album, disc, track, path.
pub struct ScanKey {
    pub album: Seq<char>,
    pub disc: Option<u32>,
    pub track: Option<u32>,
    pub path: Option<Seq<char>>,
}

pub open spec fn key_of(f: ScannedFile) -> ScanKey {
    ScanKey {
        album: f.song.album@,
        disc: f.position.disc,
        track: f.position.track,
        path: match f.song.local_path {
            Some(p) => Some(p@),
            None => None,
        },
    }
}

/// Album order: the album a file belongs to, then its disc and track in it, then its path.
pub open spec fn key_lt(a: ScanKey, b: ScanKey) -> bool {
    ||| text_lt(a.album, b.album)
    ||| (a.album == b.album && number_lt(a.disc, b.disc))
    ||| (a.album == b.album && a.disc == b.disc && number_lt(a.track, b.track))
    ||| (a.album == b.album && a.disc == b.disc && a.track == b.track && path_lt(a.path, b.path))
}

pub open spec fn file_lt(a: ScannedFile, b: ScannedFile) -> bool {
    key_lt(key_of(a), key_of(b))
}

proof fn lemma_key_order(a: ScanKey, b: ScanKey, c: ScanKey)
    ensures
        !key_lt(a, a),
        key_lt(a, b) && key_lt(b, c) ==> key_lt(a, c),
        !key_lt(a, b) && !key_lt(b, a) ==> a == b,
{
    text_order_is_total(a.album, b.album, c.album);
    text_order_is_total(b.album, a.album, c.album);
    text_order_is_total(a.album, c.album, b.album);
    if let Some(x) = a.path {
        text_order_is_total(x, x, x);
        if let Some(y) = b.path {
            text_order_is_total(x, y, y);
            if let Some(z) = c.path {
                text_order_is_total(x, y, z);
            }
        }
    }
}

/// Files in album order: none comes after one that sorts after it.
pub open spec fn in_album_order(s: Seq<ScannedFile>) -> bool {
    forall|i: int, j: int| 0 <= i < j < s.len() ==> !file_lt(#[trigger] s[j], #[trigger] s[i])
}

/// The songs of `s`, in order.
pub open spec fn songs_of(s: Seq<ScannedFile>) -> Seq<SongInfo> {
    s.map_values(|f: ScannedFile| f.song)
}

fn text_less(a: &str, b: &str) -> (r: bool)
    ensures
        r == text_lt(a@, b@),
{
    let x = chars_of(a);
    let y = chars_of(b);
    let mut i: usize = 0;
    while i < x.len() && i < y.len() && x[i] == y[i]
        invariant
            i <= x.len(),
            i <= y.len(),
            x@ == a@,
            y@ == b@,
            lt_from(x@, y@, i as int) == lt_from(x@, y@, 0),
        decreases x.len() - i,
    {
        i = i + 1;
    }
    if i >= x.len() {
        i < y.len()
    } else if i >= y.len() {
        false
    } else {
        x[i] < y[i]
    }
}

fn number_less(a: Option<u32>, b: Option<u32>) -> (r: bool)
    ensures
        r == number_lt(a, b),
{
    match (a, b) {
        (None, Some(_)) => true,
        (Some(x), Some(y)) => x < y,
        _ => false,
    }
}

fn file_less(a: &ScannedFile, b: &ScannedFile) -> (r: bool)
    ensures
        r == file_lt(*a, *b),
{
    let albums_less = text_less(a.song.album.as_str(), b.song.album.as_str());
    if albums_less {
        return true;
    }
    let albums_greater = text_less(b.song.album.as_str(), a.song.album.as_str());
    proof { text_order_is_total(a.song.album@, b.song.album@, b.song.album@); }
    if albums_greater {
        return false;
    }
    if number_less(a.position.disc, b.position.disc) {
        return true;
    }
    if a.position.disc != b.position.disc {
        return false;
    }
    if number_less(a.position.track, b.position.track) {
        return true;
    }
    if a.position.track != b.position.track {
        return false;
    }
    match (&a.song.local_path, &b.song.local_path) {
        (None, Some(_)) => true,
        (Some(x), Some(y)) => text_less(x.as_str(), y.as_str()),
        _ => false,
    }
}

/// `sorted` is `entries` rearranged, with `from[i]` the place in `entries` that `sorted[i]` came
/// from, and files that tie on every key in the order they were found in.
pub open spec fn stable_rearrangement(entries: Seq<ScannedFile>, sorted: Seq<ScannedFile>, from: Seq<int>) -> bool {
    &&& sorted.len() == entries.len()
    &&& from.len() == sorted.len()
    &&& forall|i: int| 0 <= i < sorted.len() ==> 0 <= #[trigger] from[i] < entries.len() && sorted[i] == entries[from[i]]
    &&& forall|i: int, j: int| 0 <= i < j < sorted.len() ==> #[trigger] from[i] != #[trigger] from[j]
    &&& forall|i: int, j: int| 0 <= i < j < sorted.len() && !file_lt(#[trigger] sorted[i], #[trigger] sorted[j])
        ==> from[i] < from[j]
}

/// Put the scanned files in album order and hand out their songs. Sorting on the title alone
/// played a CD rip out of order; the path is the tiebreak for a library with no tags at all, so
/// the order is the same on every machine whatever order the directories were read in. Files
/// that tie on all four keys keep the order they were found in.
pub fn sort_scanned(entries: Vec<ScannedFile>) -> (r: Vec<SongInfo>)
    ensures
        exists|sorted: Seq<ScannedFile>, from: Seq<int>|
            #![trigger stable_rearrangement(entries@, sorted, from)]
            stable_rearrangement(entries@, sorted, from)
            && in_album_order(sorted)
            && r@ == songs_of(sorted),
{
    let ghost all = entries@;
    let mut rest = entries;
    let mut out: Vec<ScannedFile> = Vec::new();
    let ghost mut from: Seq<int> = Seq::empty();
    while rest.len() > 0
        invariant
            rest@ == all.take(rest.len() as int),
            rest.len() <= all.len(),
            out@.len() == all.len() - rest.len(),
            from.len() == out@.len(),
            forall|i: int| 0 <= i < out@.len() ==> rest.len() <= #[trigger] from[i] < all.len() && out@[i] == all[from[i]],
            forall|i: int, j: int| 0 <= i < j < out@.len() ==> #[trigger] from[i] != #[trigger] from[j],
            forall|i: int, j: int| 0 <= i < j < out@.len() && !file_lt(#[trigger] out@[i], #[trigger] out@[j])
                ==> from[i] < from[j],
            in_album_order(out@),
        decreases rest.len(),
    {
        let ghost before_out = out@;
        let ghost before_from = from;
        let ghost k = rest.len() as int;
        let e = rest.pop().unwrap();
        proof {
            assert(e == all[k - 1]);
            assert(rest@ =~= all.take(k - 1));
        }
        let mut p: usize = 0;
        while p < out.len() && file_less(&out[p], &e)
            invariant
                out@ == before_out,
                p <= out.len(),
                forall|m: int| 0 <= m < p ==> file_lt(#[trigger] out@[m], e),
            decreases out.len() - p,
        {
            p = p + 1;
        }
        out.insert(p, e);
        proof {
            from = before_from.take(p as int).push(k - 1) + before_from.skip(p as int);
            let s = out@;
            assert(s.remove(p as int) =~= before_out);
            assert(s[p as int] == e);
            assert forall|i: int| 0 <= i < s.len() implies k - 1 <= #[trigger] from[i] < all.len() && s[i] == all[from[i]] by {
                if i < p {
                    assert(from[i] == before_from[i] && s[i] == before_out[i]);
                } else if i > p {
                    assert(from[i] == before_from[i - 1] && s[i] == before_out[i - 1]);
                }
            }
            assert forall|i: int, j: int| 0 <= i < j < s.len() implies #[trigger] from[i] != #[trigger] from[j] by {
                if i < p && j < p {
                    assert(from[i] == before_from[i] && from[j] == before_from[j]);
                } else if i < p && j > p {
                    assert(from[i] == before_from[i] && from[j] == before_from[j - 1]);
                } else if i > p {
                    assert(from[i] == before_from[i - 1] && from[j] == before_from[j - 1]);
                } else if i == p {
                    assert(from[j] == before_from[j - 1]);
                } else {
                    assert(from[i] == before_from[i]);
                }
            }
            assert forall|i: int, j: int| 0 <= i < j < s.len() && !file_lt(#[trigger] s[i], #[trigger] s[j])
                implies from[i] < from[j] by {
                if j < p {
                    assert(from[i] == before_from[i] && from[j] == before_from[j]);
                    assert(s[i] == before_out[i] && s[j] == before_out[j]);
                } else if j == p {
                    assert(s[i] == before_out[i]);
                    assert(file_lt(before_out[i], e));
                } else if i == p {
                    assert(from[j] == before_from[j - 1]);
                } else if i < p {
                    assert(from[i] == before_from[i] && from[j] == before_from[j - 1]);
                    assert(s[i] == before_out[i] && s[j] == before_out[j - 1]);
                } else {
                    assert(from[i] == before_from[i - 1] && from[j] == before_from[j - 1]);
                    assert(s[i] == before_out[i - 1] && s[j] == before_out[j - 1]);
                }
            }
            assert forall|i: int, j: int| 0 <= i < j < s.len() implies !file_lt(#[trigger] s[j], #[trigger] s[i]) by {
                if j < p {
                    assert(s[i] == before_out[i] && s[j] == before_out[j]);
                } else if j == p {
                    assert(s[i] == before_out[i]);
                    lemma_key_order(key_of(e), key_of(s[i]), key_of(e));
                } else if i == p {
                    assert(s[j] == before_out[j - 1]);
                    if p < before_out.len() {
                        assert(!file_lt(before_out[p as int], e));
                        if j - 1 > p {
                            assert(!file_lt(before_out[j - 1], before_out[p as int]));
                        }
                        lemma_key_order(key_of(before_out[j - 1]), key_of(before_out[p as int]), key_of(e));
                        lemma_key_order(key_of(before_out[p as int]), key_of(e), key_of(before_out[j - 1]));
                        lemma_key_order(key_of(before_out[j - 1]), key_of(e), key_of(before_out[p as int]));
                    }
                } else if i < p {
                    assert(s[i] == before_out[i] && s[j] == before_out[j - 1]);
                } else {
                    assert(s[i] == before_out[i - 1] && s[j] == before_out[j - 1]);
                }
            }
        }
    }
    let ghost sorted = out@;
    proof {
        assert(stable_rearrangement(all, sorted, from));
    }
    let mut songs: Vec<SongInfo> = Vec::new();
    let mut remaining = out;
    let mut taken: Vec<SongInfo> = Vec::new();
    while remaining.len() > 0
        invariant
            songs_of(sorted) == songs_of(remaining@) + taken@.reverse(),
        decreases remaining.len(),
    {
        let ghost before = remaining@;
        let f = remaining.pop().unwrap();
        proof {
            assert(before =~= remaining@.push(f));
        }
        let ghost taken_before = taken@;
        taken.push(f.song);
        proof {
            assert(songs_of(before) =~= songs_of(remaining@).push(f.song));
            assert(taken@.reverse() =~= seq![f.song] + taken_before.reverse());
            assert(songs_of(remaining@) + taken@.reverse() =~= songs_of(before) + taken_before.reverse());
        }
    }
    while taken.len() > 0
        invariant
            songs_of(sorted) == songs@ + taken@.reverse(),
        decreases taken.len(),
    {
        let ghost before = taken@;
        let s = taken.pop().unwrap();
        proof {
            assert(before =~= taken@.push(s));
            assert(before.reverse() =~= seq![s] + taken@.reverse());
        }
        songs.push(s);
        proof {
            assert(songs@ + taken@.reverse() =~= songs@.drop_last() + before.reverse());
        }
    }
    proof {
        assert(songs_of(remaining@) =~= Seq::<SongInfo>::empty());
        assert(songs@ + taken@.reverse() =~= songs@);
    }
    songs
}

/// Whether Unicode gives `c` the `White_Space` property (PropList.txt), which is what
/// `char::is_whitespace` and `str::trim` go by: the controls from tab to carriage return, the
/// space, next line, the no-break space, the Ogham space mark, the spaces from en quad to hair
/// space, the line and paragraph separators, the narrow no-break space, the medium mathematical
/// space and the ideographic space.
pub open spec fn white_space(c: char) -> bool {
    let v = c as u32;
    ||| 0x09 <= v <= 0x0d
    ||| v == 0x20 || v == 0x85 || v == 0xa0 || v == 0x1680
    ||| 0x2000 <= v <= 0x200a
    ||| v == 0x2028 || v == 0x2029 || v == 0x202f || v == 0x205f || v == 0x3000
}

/// Whether `c` is white space.
fn is_whitespace(c: char) -> (r: bool)
    ensures
        r == white_space(c),
{
    let v = c as u32;
    (0x09 <= v && v <= 0x0d)
        || v == 0x20 || v == 0x85 || v == 0xa0 || v == 0x1680
        || (0x2000 <= v && v <= 0x200a)
        || v == 0x2028 || v == 0x2029 || v == 0x202f || v == 0x205f || v == 0x3000
}

/// The index of the first character of `s` that is not white space, from `i` on.
pub open spec fn first_kept(s: Seq<char>, i: int) -> int
    decreases s.len() - i,
{
    if i >= s.len() || !white_space(s[i]) { i } else { first_kept(s, i + 1) }
}

/// One past the last character of `s[..j]` that is not white space, no lower than `lo`.
pub open spec fn last_kept(s: Seq<char>, lo: int, j: int) -> int
    decreases j - lo,
{
    if j <= lo || !white_space(s[j - 1]) { j } else { last_kept(s, lo, j - 1) }
}

/// `s` with the white space at both ends removed, as `str::trim` does.
pub open spec fn trimmed(s: Seq<char>) -> Seq<char> {
    let lo = first_kept(s, 0);
    s.subrange(lo, last_kept(s, lo, s.len() as int))
}

proof fn lemma_first_kept(s: Seq<char>, i: int)
    requires
        0 <= i <= s.len(),
    ensures
        i <= first_kept(s, i) <= s.len(),
    decreases s.len() - i,
{
    if i < s.len() && white_space(s[i]) {
        lemma_first_kept(s, i + 1);
    }
}

proof fn lemma_last_kept(s: Seq<char>, lo: int, j: int)
    requires
        0 <= lo <= j <= s.len(),
    ensures
        lo <= last_kept(s, lo, j) <= j,
    decreases j - lo,
{
    if j > lo && white_space(s[j - 1]) {
        lemma_last_kept(s, lo, j - 1);
    }
}

fn trim_chars(s: &Vec<char>, from: usize, to: usize) -> (r: (usize, usize))
    requires
        from == 0,
        to == s.len(),
    ensures
        r.0 == first_kept(s@, 0),
        r.1 == last_kept(s@, r.0 as int, s.len() as int),
        r.0 <= r.1 <= s.len(),
{
    let mut lo = from;
    while lo < to && is_whitespace(s[lo])
        invariant
            lo <= to == s.len(),
            first_kept(s@, lo as int) == first_kept(s@, 0),
        decreases to - lo,
    {
        lo = lo + 1;
    }
    let mut hi = to;
    while hi > lo && is_whitespace(s[hi - 1])
        invariant
            lo <= hi <= s.len(),
            last_kept(s@, lo as int, hi as int) == last_kept(s@, lo as int, s.len() as int),
        decreases hi - lo,
    {
        hi = hi - 1;
    }
    (lo, hi)
}

/// A tag's text as the scan uses it: trimmed, and only when something is left. A blank frame
/// is as good as a missing one, so an ID3 field of spaces cannot displace the filename.
pub open spec fn spec_tag_text(raw: Option<Seq<char>>) -> Option<Seq<char>> {
    match raw {
        Some(t) => if trimmed(t).len() > 0 { Some(trimmed(t)) } else { None },
        None => None,
    }
}

/// The view of an optional string.
pub open spec fn opt_view(s: Option<String>) -> Option<Seq<char>> {
    match s {
        Some(t) => Some(t@),
        None => None,
    }
}

/// The view of an optional string slice.
pub open spec fn opt_str_view(s: Option<&str>) -> Option<Seq<char>> {
    match s {
        Some(t) => Some(t@),
        None => None,
    }
}

/// Read a tag's text: trimmed, `None` when blank or missing.
pub fn tag_text(raw: Option<&str>) -> (r: Option<String>)
    ensures
        opt_view(r) == spec_tag_text(opt_str_view(raw)),
{
    match raw {
        None => None,
        Some(t) => {
            let chars = chars_of(t);
            let (lo, hi) = trim_chars(&chars, 0, chars.len());
            if lo < hi {
                Some(string_of_range(&chars, lo, hi))
            } else {
                None
            }
        },
    }
}

/// The part of `s` before its first `/` or space: taggers write `3/13` and `1 of 2`.
pub open spec fn before_separator(s: Seq<char>) -> Seq<char> {
    s.take(separator_at(s, 0))
}

pub open spec fn separator_at(s: Seq<char>, i: int) -> int
    decreases s.len() - i,
{
    if i >= s.len() || s[i] == '/' || s[i] == ' ' { i } else { separator_at(s, i + 1) }
}

/// The value of the ASCII decimal digits `s`.
pub open spec fn digits_value(s: Seq<char>) -> int
    decreases s.len(),
{
    if s.len() == 0 { 0 } else { digits_value(s.drop_last()) * 10 + (s.last() as int - '0' as int) }
}

pub open spec fn is_digit(c: char) -> bool {
    '0' <= c && c <= '9'
}

/// `s` without the `+` it may start with.
pub open spec fn unsigned_body(s: Seq<char>) -> Seq<char> {
    if s.len() > 0 && s[0] == '+' { s.skip(1) } else { s }
}

/// The value of one or more ASCII digits that fits in 32 bits.
pub open spec fn parsed_digits(body: Seq<char>) -> Option<u32> {
    if body.len() > 0 && (forall|i: int| 0 <= i < body.len() ==> is_digit(#[trigger] body[i]))
        && digits_value(body) <= u32::MAX {
        Some(digits_value(body) as u32)
    } else {
        None
    }
}

/// What `u32`'s `FromStr` makes of `s`: an optional `+`, then one or more ASCII digits whose
/// value fits in 32 bits; anything else is an error.
pub open spec fn parsed_u32(s: Seq<char>) -> Option<u32> {
    parsed_digits(unsigned_body(s))
}

proof fn lemma_digits_nonneg(s: Seq<char>)
    requires
        forall|i: int| 0 <= i < s.len() ==> is_digit(#[trigger] s[i]),
    ensures
        digits_value(s) >= 0,
    decreases s.len(),
{
    if s.len() > 0 {
        lemma_digits_nonneg(s.drop_last());
    }
}

proof fn lemma_digits_grow(s: Seq<char>, k: int)
    requires
        0 <= k <= s.len(),
        forall|i: int| 0 <= i < s.len() ==> is_digit(#[trigger] s[i]),
    ensures
        digits_value(s.take(k)) <= digits_value(s),
    decreases s.len(),
{
    if k < s.len() {
        let d = s.drop_last();
        assert forall|i: int| 0 <= i < d.len() implies is_digit(#[trigger] d[i]) by {
            assert(d[i] == s[i]);
        }
        lemma_digits_grow(d, k);
        assert(d.take(k) =~= s.take(k));
        lemma_digits_nonneg(d);
        assert(is_digit(s.last()));
    } else {
        assert(s.take(k) =~= s);
    }
}

/// Parse a decimal `u32`, as `str::parse::<u32>` does.
pub fn parse_u32(s: &Vec<char>, from: usize, to: usize) -> (r: Option<u32>)
    requires
        from <= to <= s.len(),
    ensures
        r == parsed_u32(s@.subrange(from as int, to as int)),
{
    let ghost text = s@.subrange(from as int, to as int);
    let start = if from < to && s[from] == '+' { from + 1 } else { from };
    let ghost body = s@.subrange(start as int, to as int);
    proof {
        assert(body =~= unsigned_body(text));
    }
    if start == to {
        return None;
    }
    let mut value: u64 = 0;
    let mut i: usize = start;
    while i < to
        invariant
            start <= i <= to <= s.len(),
            body == s@.subrange(start as int, to as int),
            body == unsigned_body(s@.subrange(from as int, to as int)),
            forall|k: int| start <= k < i ==> is_digit(#[trigger] s@[k]),
            value == digits_value(s@.subrange(start as int, i as int)),
            value <= u32::MAX,
        decreases to - i,
    {
        let c = s[i];
        if !('0' <= c && c <= '9') {
            proof {
                assert(body[i - start] == c);
                assert(!is_digit(body[i - start]));
            }
            return None;
        }
        let d = (c as u32 - '0' as u32) as u64;
        proof {
            assert(s@.subrange(start as int, i + 1).drop_last() =~= s@.subrange(start as int, i as int));
        }
        let next = value * 10 + d;
        if next > 0xffff_ffff {
            proof {
                assert(digits_value(s@.subrange(start as int, i + 1)) == next);
                if forall|k: int| 0 <= k < body.len() ==> is_digit(#[trigger] body[k]) {
                    assert(body.take(i + 1 - start) =~= s@.subrange(start as int, i + 1));
                    lemma_digits_grow(body, i + 1 - start);
                    assert(digits_value(body) > u32::MAX);
                }
            }
            return None;
        }
        value = next;
        i = i + 1;
    }
    proof {
        assert(s@.subrange(start as int, i as int) =~= body);
        assert forall|k: int| 0 <= k < body.len() implies is_digit(#[trigger] body[k]) by {
            assert(body[k] == s@[start + k]);
        }
    }
    Some(value as u32)
}

/// A disc or track number as taggers write it (`03`, `3/13`, `1 of 2`): the number up to the
/// first separator, and `None` for anything that does not parse rather than a guess.
pub open spec fn spec_tag_number(raw: Option<Seq<char>>) -> Option<u32> {
    match spec_tag_text(raw) {
        Some(t) => parsed_u32(trimmed(before_separator(t))),
        None => None,
    }
}

/// Read a disc or track number from its tag text.
pub fn tag_number(raw: Option<&str>) -> (r: Option<u32>)
    ensures
        r == spec_tag_number(opt_str_view(raw)),
{
    match tag_text(raw) {
        None => None,
        Some(t) => {
            let chars = chars_of(t.as_str());
            let mut end: usize = 0;
            while end < chars.len() && chars[end] != '/' && chars[end] != ' '
                invariant
                    end <= chars.len(),
                    separator_at(chars@, end as int) == separator_at(chars@, 0),
                decreases chars.len() - end,
            {
                end = end + 1;
            }
            let head = string_of_range(&chars, 0, end);
            proof { assert(head@ =~= before_separator(t@)); }
            let head_chars = chars_of(head.as_str());
            let (lo, hi) = trim_chars(&head_chars, 0, head_chars.len());
            proof { lemma_first_kept(head_chars@, 0); }
            parse_u32(&head_chars, lo, hi)
        },
    }
}

/// What `str::to_lowercase` makes of `s`: its Unicode lowercase form.
pub uninterp spec fn lowercased(s: Seq<char>) -> Seq<char>;

/// `std`'s `str::to_lowercase`.
#[verifier::external_body]
fn to_lowercase(s: &str) -> (r: String)
    ensures
        r@ == lowercased(s@),
{
    s.to_lowercase()
}

/// The extensions indexed as local audio: what the decoder behind the app can open.
pub open spec fn audio_extensions() -> Seq<Seq<char>> {
    seq!["mp3"@, "flac"@, "wav"@, "ogg"@, "aac"@, "m4a"@, "wma"@]
}

/// Whether a file with extension `ext` is local audio, whatever its case.
pub fn is_audio_extension(ext: &str) -> (r: bool)
    ensures
        r == audio_extensions().contains(lowercased(ext@)),
{
    let lower = to_lowercase(ext);
    let known: [&str; 7] = ["mp3", "flac", "wav", "ogg", "aac", "m4a", "wma"];
    let ghost names = audio_extensions();
    let mut i: usize = 0;
    while i < 7
        invariant
            i <= 7,
            names == audio_extensions(),
            names.len() == 7,
            forall|k: int| 0 <= k < 7 ==> (#[trigger] known@[k])@ == names[k],
            forall|k: int| 0 <= k < i ==> names[k] != lower@,
            lower@ == lowercased(ext@),
        decreases 7 - i,
    {
        if str_eq(known[i], lower.as_str()) {
            assert(names[i as int] == lower@);
            return true;
        }
        i = i + 1;
    }
    assert(!names.contains(lower@)) by {
        if names.contains(lower@) {
            let k = choose|k: int| 0 <= k < names.len() && names[k] == lower@;
        }
    }
    false
}

/// What a file's tags say about its track. Every field may be missing: a file with no tags, or
/// tags that cannot be read, still makes an entry from its name and its decoder.
#[derive(Debug)]
pub struct LocalTags {
    pub title: Option<String>,
    pub artist: Option<String>,
    pub album: Option<String>,
    /// Milliseconds, from the container's header.
    pub duration: Option<u64>,
    pub disc: Option<u32>,
    pub track: Option<u32>,
}

impl LocalTags {
    /// The tags as the scan reads them from the raw tag texts: each text trimmed and dropped
    /// when blank, the track artist before the album artist, a zero length as none, and the
    /// numbers as [`tag_number`] reads them.
    pub fn from_raw(
        title: Option<&str>,
        track_artist: Option<&str>,
        album_artist: Option<&str>,
        album: Option<&str>,
        duration_ms: u64,
        disc: Option<&str>,
        track: Option<&str>,
    ) -> (r: Self)
        ensures
            opt_view(r.title) == spec_tag_text(opt_str_view(title)),
            opt_view(r.artist) == (match spec_tag_text(opt_str_view(track_artist)) {
                Some(a) => Some(a),
                None => spec_tag_text(opt_str_view(album_artist)),
            }),
            opt_view(r.album) == spec_tag_text(opt_str_view(album)),
            r.duration == (if duration_ms > 0 { Some(duration_ms) } else { None::<u64> }),
            r.disc == spec_tag_number(opt_str_view(disc)),
            r.track == spec_tag_number(opt_str_view(track)),
    {
        let artist = match tag_text(track_artist) {
            Some(a) => Some(a),
            None => tag_text(album_artist),
        };
        LocalTags {
            title: tag_text(title),
            artist,
            album: tag_text(album),
            duration: if duration_ms > 0 { Some(duration_ms) } else { None },
            disc: tag_number(disc),
            track: tag_number(track),
        }
    }

    /// Whether the file has to be decoded for its length: only when the tags carry none.
    pub fn needs_decoding(&self) -> (r: bool)
        ensures
            r == self.duration.is_none(),
    {
        self.duration.is_none()
    }
}

/// The id a local file gets: its path's hash with the top bit cleared. The masked values are
/// already in the queue files on disk, so dropping the mask would orphan their saved queues.
pub fn local_id(path_hash: u64) -> (r: u64)
    ensures
        r == path_hash % 0x8000_0000_0000_0000,
        r < 0x8000_0000_0000_0000,
{
    let r = path_hash & 0x7fff_ffff_ffff_ffff;
    assert(path_hash & 0x7fff_ffff_ffff_ffff == path_hash % 0x8000_0000_0000_0000) by (bit_vector);
    r
}

/// The entry the scan makes of one audio file: the tags where they speak, the file's name for
/// a missing title (`unknown` when the name is not text), `本地` for a missing artist, the path
/// for a missing album, and the decoder's length for a missing one. The file it plays from
/// travels in `local_path`, whatever the album says.
pub fn local_song(tags: LocalTags, stem: Option<&str>, path_text: &str, decoded_ms: u64, path_hash: u64) -> (r: ScannedFile)
    ensures
        r.position == (TrackPosition { disc: tags.disc, track: tags.track }),
        r.song.id == path_hash % 0x8000_0000_0000_0000,
        r.song.name@ == (match opt_view(tags.title) {
            Some(t) => t,
            None => match opt_str_view(stem) {
                Some(n) => n,
                None => "unknown"@,
            },
        }),
        r.song.singer@ == (match opt_view(tags.artist) {
            Some(a) => a,
            None => "本地"@,
        }),
        r.song.album@ == (match opt_view(tags.album) {
            Some(a) => a,
            None => path_text@,
        }),
        r.song.duration == (match tags.duration {
            Some(d) => d,
            None => decoded_ms,
        }),
        r.song.artist_id == 0,
        r.song.album_id == 0,
        r.song.pic_url@ == Seq::<char>::empty(),
        r.song.mv == 0,
        r.song.copyright == SongCopyright::Free,
        opt_view(r.song.local_path) == Some(path_text@),
{
    let name = match tags.title {
        Some(t) => t,
        None => match stem {
            Some(n) => owned(n),
            None => owned("unknown"),
        },
    };
    let singer = match tags.artist {
        Some(a) => a,
        None => owned("本地"),
    };
    let album = match tags.album {
        Some(a) => a,
        None => owned(path_text),
    };
    let duration = match tags.duration {
        Some(d) => d,
        None => decoded_ms,
    };
    ScannedFile {
        position: TrackPosition { disc: tags.disc, track: tags.track },
        song: SongInfo {
            id: local_id(path_hash),
            name,
            singer,
            artist_id: 0,
            album,
            album_id: 0,
            pic_url: String::new(),
            duration,
            mv: 0,
            copyright: SongCopyright::Free,
            local_path: Some(owned(path_text)),
        },
    }
}

} // verus!

//! Character-level helpers shared by the state modules: equality of string slices, appending a
//! single character, decimal numerals, and the left-to-right substitution the title templates use.
use vstd::prelude::*;

verus! {

/// Whether two string slices hold the same characters.
pub(crate) fn str_eq(a: &str, b: &str) -> (r: bool)
    ensures
        r == (a@ == b@),
{
    let x = chars_of(a);
    let y = chars_of(b);
    if x.len() != y.len() {
        return false;
    }
    let mut i: usize = 0;
    while i < x.len()
        invariant
            x@ == a@,
            y@ == b@,
            x.len() == y.len(),
            i <= x.len(),
            forall|j: int| 0 <= j < i ==> x@[j] == y@[j],
        decreases x.len() - i,
    {
        if x[i] != y[i] {
            return false;
        }
        i = i + 1;
    }
    assert(x@ =~= y@);
    true
}

/// `std`'s `String::push`: the character is appended at the end.
#[verifier::external_body]
pub(crate) fn push_char(s: &mut String, c: char)
    ensures
        final(s)@ == old(s)@.push(c),
{
    s.push(c)
}

/// A fresh string holding the characters of `s`.
pub fn owned(s: &str) -> (r: String)
    ensures
        r@ == s@,
{
    s.to_owned()
}

/// A string holding the characters of `s`.
pub fn string_of_chars(s: &Vec<char>) -> (r: String)
    ensures
        r@ == s@,
{
    let mut out = String::new();
    let mut i: usize = 0;
    while i < s.len()
        invariant
            i <= s.len(),
            out@ == s@.take(i as int),
        decreases s.len() - i,
    {
        push_char(&mut out, s[i]);
        i = i + 1;
        assert(out@ =~= s@.take(i as int));
    }
    assert(s@.take(s.len() as int) =~= s@);
    out
}

/// Append the characters of `t` to `s`.
pub fn append(s: &mut String, t: &str)
    ensures
        final(s)@ == old(s)@ + t@,
{
    let ghost start = s@;
    for c in it: t.chars()
        invariant
            it.seq() == t@,
            s@ == start + it.seq().take(it.index() as int),
    {
        push_char(s, c);
        assert(s@ =~= start + it.seq().take(it.index() + 1));
    }
    assert(t@.take(t@.len() as int) =~= t@);
}

/// A string holding the characters of `s` from `from` up to `to`.
pub fn string_of_range(s: &Vec<char>, from: usize, to: usize) -> (r: String)
    requires
        from <= to <= s.len(),
    ensures
        r@ == s@.subrange(from as int, to as int),
{
    let mut out = String::new();
    let mut i: usize = from;
    while i < to
        invariant
            from <= i <= to <= s.len(),
            out@ == s@.subrange(from as int, i as int),
        decreases to - i,
    {
        push_char(&mut out, s[i]);
        i = i + 1;
        assert(out@ =~= s@.subrange(from as int, i as int));
    }
    out
}

/// The characters of `s`, one per element.
pub fn chars_of(s: &str) -> (r: Vec<char>)
    ensures
        r@ == s@,
{
    let mut out: Vec<char> = Vec::new();
    for c in it: s.chars()
        invariant
            it.seq() == s@,
            out@ == it.seq().take(it.index() as int),
    {
        out.push(c);
        assert(out@ =~= it.seq().take(it.index() + 1));
    }
    assert(out@ =~= s@);
    out
}

/// How many characters `s` holds.
pub fn char_count(s: &str) -> (r: usize)
    ensures
        r == s@.len(),
{
    chars_of(s).len()
}

/// The decimal digit for `d < 10`.
pub open spec fn digit_char(d: nat) -> char {
    if d == 0 { '0' }
    else if d == 1 { '1' }
    else if d == 2 { '2' }
    else if d == 3 { '3' }
    else if d == 4 { '4' }
    else if d == 5 { '5' }
    else if d == 6 { '6' }
    else if d == 7 { '7' }
    else if d == 8 { '8' }
    else { '9' }
}

/// The decimal numeral of `n`, without sign or leading zeros (`0` is written `0`).
pub open spec fn decimal(n: nat) -> Seq<char>
    decreases n,
{
    if n < 10 {
        seq![digit_char(n)]
    } else {
        decimal(n / 10).push(digit_char(n % 10))
    }
}

fn digit(d: u64) -> (c: char)
    requires
        d < 10,
    ensures
        c == digit_char(d as nat),
{
    if d == 0 { '0' }
    else if d == 1 { '1' }
    else if d == 2 { '2' }
    else if d == 3 { '3' }
    else if d == 4 { '4' }
    else if d == 5 { '5' }
    else if d == 6 { '6' }
    else if d == 7 { '7' }
    else if d == 8 { '8' }
    else { '9' }
}

/// The decimal numeral of `n`, the way `to_string` writes an unsigned integer.
pub fn decimal_string(n: u64) -> (r: String)
    ensures
        r@ == decimal(n as nat),
    decreases n,
{
    if n < 10 {
        let mut s = String::new();
        push_char(&mut s, digit(n));
        assert(s@ =~= seq![digit_char(n as nat)]);
        s
    } else {
        let mut s = decimal_string(n / 10);
        push_char(&mut s, digit(n % 10));
        s
    }
}

/// Every occurrence of `pat` in `s`, scanned left to right without overlap, replaced by `with` —
/// what `str::replace` does for a non-empty pattern.
pub open spec fn replace_all(s: Seq<char>, pat: Seq<char>, with: Seq<char>) -> Seq<char>
    decreases s.len(),
{
    if pat.len() == 0 || s.len() < pat.len() {
        s
    } else if s.take(pat.len() as int) == pat {
        with + replace_all(s.skip(pat.len() as int), pat, with)
    } else {
        seq![s[0]] + replace_all(s.skip(1), pat, with)
    }
}

/// Whether `pat` occurs in `s` starting at `at`.
pub open spec fn occurs_at(s: Seq<char>, pat: Seq<char>, at: int) -> bool {
    0 <= at && at + pat.len() <= s.len() && s.subrange(at, at + pat.len()) == pat
}

fn matches_at(s: &Vec<char>, pat: &Vec<char>, at: usize) -> (r: bool)
    requires
        at + pat.len() <= s.len(),
    ensures
        r == (s@.subrange(at as int, at + pat.len()) == pat@),
{
    let mut k: usize = 0;
    while k < pat.len()
        invariant
            at + pat.len() <= s.len(),
            k <= pat.len(),
            forall|j: int| 0 <= j < k ==> s@[at + j] == pat@[j],
        decreases pat.len() - k,
    {
        if s[at + k] != pat[k] {
            assert(s@.subrange(at as int, at + pat.len())[k as int] != pat@[k as int]);
            return false;
        }
        k = k + 1;
    }
    assert(s@.subrange(at as int, at + pat.len()) =~= pat@);
    true
}

proof fn lemma_replace_step(s: Seq<char>, pat: Seq<char>, with: Seq<char>, at: int)
    requires
        pat.len() > 0,
        0 <= at <= s.len(),
    ensures
        at + pat.len() <= s.len() && s.skip(at).take(pat.len() as int) == pat ==>
            replace_all(s.skip(at), pat, with) == with + replace_all(s.skip(at + pat.len()), pat, with),
        !(at + pat.len() <= s.len() && s.skip(at).take(pat.len() as int) == pat) && at + pat.len() <= s.len() ==>
            replace_all(s.skip(at), pat, with) == seq![s[at]] + replace_all(s.skip(at + 1), pat, with),
        at + pat.len() > s.len() ==> replace_all(s.skip(at), pat, with) == s.skip(at),
{
    let t = s.skip(at);
    if at + pat.len() <= s.len() {
        assert(t.skip(pat.len() as int) =~= s.skip(at + pat.len()));
        assert(t.skip(1) =~= s.skip(at + 1));
    }
}

/// `s` with every occurrence of `pat` replaced by `with`.
pub fn replace(s: &str, pat: &str, with: &str) -> (r: String)
    requires
        pat@.len() > 0,
    ensures
        r@ == replace_all(s@, pat@, with@),
{
    let sv = chars_of(s);
    let pv = chars_of(pat);
    let wv = chars_of(with);
    let mut out: Vec<char> = Vec::new();
    let mut i: usize = 0;
    assert(sv@.skip(0) =~= sv@);
    while i < sv.len()
        invariant
            pv@ == pat@,
            wv@ == with@,
            pv@.len() > 0,
            i <= sv.len(),
            out@ + replace_all(sv@.skip(i as int), pv@, wv@) == replace_all(sv@, pv@, wv@),
        decreases sv.len() - i,
    {
        proof { lemma_replace_step(sv@, pv@, wv@, i as int); }
        if pv.len() <= sv.len() - i && matches_at(&sv, &pv, i) {
            assert(sv@.skip(i as int).take(pv@.len() as int) =~= sv@.subrange(i as int, i + pv@.len()));
            let ghost before = out@;
            let mut k: usize = 0;
            while k < wv.len()
                invariant
                    k <= wv.len(),
                    out@ == before + wv@.take(k as int),
                decreases wv.len() - k,
            {
                out.push(wv[k]);
                k = k + 1;
                assert(out@ =~= before + wv@.take(k as int));
            }
            assert(wv@.take(wv.len() as int) =~= wv@);
            assert(out@ + replace_all(sv@.skip(i + pv@.len()), pv@, wv@) =~= before + (wv@ + replace_all(sv@.skip(i + pv@.len()), pv@, wv@)));
            i = i + pv.len();
        } else {
            if pv.len() <= sv.len() - i {
                assert(sv@.skip(i as int).take(pv@.len() as int) =~= sv@.subrange(i as int, i + pv@.len()));
                let ghost before = out@;
                out.push(sv[i]);
                assert(out@ + replace_all(sv@.skip(i + 1), pv@, wv@) =~= before + (seq![sv@[i as int]] + replace_all(sv@.skip(i + 1), pv@, wv@)));
                i = i + 1;
            } else {
                // Too short for another match: the rest is copied as it stands.
                let ghost before = out@;
                let ghost start = i;
                while i < sv.len()
                    invariant
                        start <= i <= sv.len(),
                        out@ == before + sv@.subrange(start as int, i as int),
                    decreases sv.len() - i,
                {
                    out.push(sv[i]);
                    i = i + 1;
                    assert(out@ =~= before + sv@.subrange(start as int, i as int));
                }
                assert(sv@.subrange(start as int, i as int) =~= sv@.skip(start as int));
                assert(sv@.skip(i as int) =~= Seq::<char>::empty());
                assert(replace_all(Seq::<char>::empty(), pv@, wv@) =~= Seq::<char>::empty());
                assert(out@ + replace_all(sv@.skip(i as int), pv@, wv@) =~= out@);
            }
        }
    }
    assert(sv@.skip(i as int) =~= Seq::<char>::empty());
    assert(replace_all(Seq::<char>::empty(), pv@, wv@) =~= Seq::<char>::empty());
    assert(out@ =~= out@ + replace_all(sv@.skip(i as int), pv@, wv@));
    string_of_chars(&out)
}

/// Whether `c` occurs in `s`.
pub fn contains_char(s: &str, c: char) -> (r: bool)
    ensures
        r == s@.contains(c),
{
    for x in it: s.chars()
        invariant
            it.seq() == s@,
            forall|j: int| 0 <= j < it.index() ==> s@[j] != c,
    {
        if x == c {
            assert(s@[it.index() as int] == c);
            return true;
        }
    }
    false
}

} // verus!

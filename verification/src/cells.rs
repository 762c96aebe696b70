//! Text measured in terminal cells: a wide glyph takes the two cells it draws, and text is clipped
//! or scrolled by cells without ever cutting a glyph in half.
use vstd::prelude::*;
use crate::text::{chars_of, push_char};
use crate::text_input::TextInput;

verus! {

/// What `unicode_width`'s `UnicodeWidthChar::width` answers for `c`: its displayed width in
/// columns by UAX #11 (ambiguous characters narrow), or `None` for a control character.
pub uninterp spec fn display_width(c: char) -> Option<usize>;

/// `unicode_width::UnicodeWidthChar::width`. Its source answers `None` for the control codes
/// below U+0020 and from U+007F up to U+00A0, `Some(1)` for the printable ASCII between, and a
/// table entry, a `u8`, for everything from U+00A0 on.
#[verifier::external_body]
fn char_width(c: char) -> (r: Option<usize>)
    ensures
        r == display_width(c),
        (c as u32) < 0x20 || (0x7f <= (c as u32) && (c as u32) < 0xa0) ==> r is None,
        0x20 <= (c as u32) && (c as u32) < 0x7f ==> r == Some(1usize),
        r matches Some(w) ==> w <= 255,
{
    unicode_width::UnicodeWidthChar::width(c)
}

/// The cells `c` takes, counting a control character as `control` cells.
pub open spec fn cells(c: char, control: nat) -> nat {
    match display_width(c) {
        Some(w) => w as nat,
        None => control,
    }
}

/// The longest start of `s` that fits in `budget` cells, a control character counted as one.
pub open spec fn clip(s: Seq<char>, budget: int) -> Seq<char>
    decreases s.len(),
{
    if s.len() == 0 {
        Seq::empty()
    } else if cells(s[0], 1) > budget {
        Seq::empty()
    } else {
        seq![s[0]] + clip(s.skip(1), budget - cells(s[0], 1))
    }
}

/// The character drawn for `c`: a bullet when the field is masked.
pub open spec fn drawn(c: char, masked: bool) -> char {
    if masked { '•' } else { c }
}

/// What a form box shows of `input` in `width` cells: the value, or as many bullets when it is
/// masked, clipped to the box. The characters of a masked value never reach the screen.
pub fn masked_text(input: &TextInput, masked: bool, width: usize) -> (r: String)
    ensures
        r@ == clip(input.value@.map_values(|c: char| drawn(c, masked)), width as int),
{
    let chars = chars_of(input.value.as_str());
    let ghost shown = input.value@.map_values(|c: char| drawn(c, masked));
    let mut out = String::new();
    let mut used: usize = 0;
    let mut i: usize = 0;
    assert(shown.skip(0) =~= shown);
    while i < chars.len()
        invariant
            chars@ == input.value@,
            shown == input.value@.map_values(|c: char| drawn(c, masked)),
            i <= chars.len(),
            used <= width,
            out@ + clip(shown.skip(i as int), width - used) == clip(shown, width as int),
        decreases chars.len() - i,
    {
        let ch = if masked { '•' } else { chars[i] };
        let w = match char_width(ch) {
            Some(w) => w,
            None => 1,
        };
        let ghost rest = shown.skip(i as int);
        assert(rest[0] == ch);
        assert(rest.skip(1) =~= shown.skip(i + 1));
        if w > width - used {
            assert(clip(rest, width - used) =~= Seq::<char>::empty());
            assert(out@ + clip(rest, width - used) =~= out@);
            return out;
        }
        let ghost before = out@;
        push_char(&mut out, ch);
        used = used + w;
        i = i + 1;
        assert(out@ + clip(shown.skip(i as int), width - used) =~= before + clip(rest, width - (used - w)));
    }
    assert(shown.skip(i as int) =~= Seq::<char>::empty());
    assert(out@ + clip(Seq::<char>::empty(), width - used) =~= out@);
    out
}

/// The cells of all of `s`, a control character counted as none.
pub open spec fn total_cells(s: Seq<char>) -> nat
    decreases s.len(),
{
    if s.len() == 0 { 0 } else { total_cells(s.drop_last()) + cells(s.last(), 0) }
}

/// The marquee from step `i` on: the characters of `s` taken cyclically from `start`, while the
/// window is not full and the next one fits, for at most `max` steps.
pub open spec fn window(s: Seq<char>, start: int, width: int, used: int, i: int, max: int) -> Seq<char>
    decreases max - i,
{
    if i >= max || used >= width || s.len() == 0 {
        Seq::empty()
    } else {
        let c = s[(start + i) % (s.len() as int)];
        if used + cells(c, 0) > width {
            Seq::empty()
        } else {
            seq![c] + window(s, start, width, used + cells(c, 0), i + 1, max)
        }
    }
}

/// A window of `width` cells into `text` repeated end to end, starting `offset` cells in, cut
/// where the next glyph would not fit; the walk is bounded so a text of zero-width characters
/// cannot spin.
pub open spec fn spec_scroll_text(s: Seq<char>, offset: int, width: int) -> Seq<char> {
    let total = total_cells(s);
    if total == 0 || width == 0 {
        Seq::empty()
    } else {
        window(s, offset % (total as int), width, 0, 0, 2 * s.len() + width)
    }
}

/// A marquee window of `width` cells into `text`, starting `offset` cells in and wrapping
/// around; a wide glyph occupies the two cells it draws and the window never ends mid-glyph.
pub fn scroll_text(text: &str, offset: usize, width: usize) -> (r: String)
    requires
        text@.len() * 256 <= usize::MAX,
        width <= usize::MAX / 2,
    ensures
        r@ == spec_scroll_text(text@, offset as int, width as int),
{
    let chars = chars_of(text);
    let n = chars.len();
    let mut total: usize = 0;
    let mut k: usize = 0;
    while k < n
        invariant
            n == chars@.len(),
            chars@ == text@,
            n * 256 <= usize::MAX,
            k <= n,
            total == total_cells(chars@.take(k as int)),
            total <= 255 * k,
        decreases n - k,
    {
        let w = match char_width(chars[k]) {
            Some(w) => w,
            None => 0,
        };
        assert(chars@.take(k + 1).drop_last() =~= chars@.take(k as int));
        total = total + w;
        k = k + 1;
    }
    assert(chars@.take(n as int) =~= chars@);
    if total == 0 || width == 0 {
        return String::new();
    }
    let start = offset % total;
    let max_steps = n * 2 + width;
    let ghost goal = window(chars@, start as int, width as int, 0, 0, max_steps as int);
    let mut out = String::new();
    let mut used: usize = 0;
    let mut index: usize = 0;
    let mut full = false;
    while !full && used < width && index < max_steps
        invariant
            n == chars@.len(),
            n > 0,
            start < total,
            total <= 255 * n,
            n * 256 <= usize::MAX,
            max_steps == n * 2 + width,
            used <= width,
            index <= max_steps,
            goal == window(chars@, start as int, width as int, 0, 0, max_steps as int),
            out@ + window(chars@, start as int, width as int, used as int, index as int, max_steps as int) == goal,
            full ==> window(chars@, start as int, width as int, used as int, index as int, max_steps as int) =~= Seq::<char>::empty(),
        decreases max_steps - index, (if full { 0int } else { 1int }),
    {
        let at = ((start as u128 + index as u128) % (n as u128)) as usize;
        let ch = chars[at];
        let w = match char_width(ch) {
            Some(w) => w,
            None => 0,
        };
        if w > width - used {
            full = true;
        } else {
            let ghost before = out@;
            push_char(&mut out, ch);
            used = used + w;
            index = index + 1;
            assert(out@ + window(chars@, start as int, width as int, used as int, index as int, max_steps as int)
                =~= before + window(chars@, start as int, width as int, (used - w) as int, (index - 1) as int, max_steps as int));
        }
    }
    assert(window(chars@, start as int, width as int, used as int, index as int, max_steps as int) =~= Seq::<char>::empty());
    assert(out@ + Seq::<char>::empty() =~= out@);
    out
}

} // verus!

//! The `<tag>text</tag>` markup that titles, breadcrumbs and headers are written in, read into
//! the pieces a renderer styles: text, a tag that opens, a tag that closes, and a gradient run.
//!
//! Tags: `<b>`, `<i>`, `<dim>`, theme colours such as `<accent>`, literal colours such as
//! `<#rrggbb>`, and `<gradient:preset>text</gradient>` (or `<grad:preset>text</grad>`), whose text
//! is coloured character by character. Text without tags is plain.
use vstd::prelude::*;
use crate::text::{chars_of, string_of_range};

verus! {

/// A piece of markup.
#[derive(Debug)]
pub enum Markup {
    /// Text drawn in the current style.
    Text(String),
    /// `<tag>`: the current style is saved and the tag applied to it.
    Open(String),
    /// `</...>`: the style saved by the latest open tag comes back.
    Close,
    /// A gradient run: `text` is coloured character by character along `preset`, on top of the
    /// current style.
    Gradient { preset: String, text: String },
}

/// A piece of markup as characters.
pub enum MarkupView {
    Text(Seq<char>),
    Open(Seq<char>),
    Close,
    Gradient { preset: Seq<char>, text: Seq<char> },
}

impl View for Markup {
    type V = MarkupView;

    open spec fn view(&self) -> MarkupView {
        match self {
            Markup::Text(t) => MarkupView::Text(t@),
            Markup::Open(t) => MarkupView::Open(t@),
            Markup::Close => MarkupView::Close,
            Markup::Gradient { preset, text } => MarkupView::Gradient { preset: preset@, text: text@ },
        }
    }
}

/// The views of a list of pieces.
pub open spec fn pieces(s: Seq<Markup>) -> Seq<MarkupView> {
    s.map_values(|m: Markup| m@)
}

/// The first index at or after `from` holding `c`, or the length when there is none.
pub open spec fn next_index_of(s: Seq<char>, c: char, from: int) -> int
    decreases s.len() - from,
{
    if from >= s.len() {
        s.len() as int
    } else if s[from] == c {
        from
    } else {
        next_index_of(s, c, from + 1)
    }
}

/// Whether `pat` occurs in `s` at `at`.
pub open spec fn run_at(s: Seq<char>, pat: Seq<char>, at: int) -> bool {
    0 <= at && at + pat.len() <= s.len() && s.subrange(at, at + pat.len()) == pat
}

/// The first index at or after `from` where `pat` occurs, or -1 when it does not.
pub open spec fn next_run(s: Seq<char>, pat: Seq<char>, from: int) -> int
    decreases s.len() + 1 - from,
{
    if from < 0 || from + pat.len() > s.len() {
        -1
    } else if run_at(s, pat, from) {
        from
    } else {
        next_run(s, pat, from + 1)
    }
}

/// Whether `s` starts with `pat`.
pub open spec fn begins_with(s: Seq<char>, pat: Seq<char>) -> bool {
    pat.len() <= s.len() && s.take(pat.len() as int) == pat
}

pub proof fn lemma_next_index_of(s: Seq<char>, c: char, from: int)
    requires
        0 <= from <= s.len(),
    ensures
        from <= next_index_of(s, c, from) <= s.len(),
        next_index_of(s, c, from) < s.len() ==> s[next_index_of(s, c, from)] == c,
        forall|k: int| from <= k < next_index_of(s, c, from) ==> s[k] != c,
    decreases s.len() - from,
{
    if from < s.len() && s[from] != c {
        lemma_next_index_of(s, c, from + 1);
    }
}

pub proof fn lemma_next_run(s: Seq<char>, pat: Seq<char>, from: int)
    ensures
        next_run(s, pat, from) == -1 || (from <= next_run(s, pat, from) && run_at(s, pat, next_run(s, pat, from))),
    decreases s.len() + 1 - from,
{
    if !(from < 0 || from + pat.len() > s.len()) && !run_at(s, pat, from) {
        lemma_next_run(s, pat, from + 1);
    }
}

/// The pieces of `s` from `pos` on, with `gradient` and `grad` the two gradient prefixes and
/// `gradient_end` and `grad_end` their closing tags.
pub open spec fn parse_from(
    s: Seq<char>,
    pos: int,
    gradient: Seq<char>,
    grad: Seq<char>,
    gradient_end: Seq<char>,
    grad_end: Seq<char>,
) -> Seq<MarkupView>
    decreases s.len() - pos,
{
    if pos < 0 || pos >= s.len() {
        Seq::empty()
    } else if s[pos] == '<' {
        let close = next_index_of(s, '>', pos + 1);
        proof { lemma_next_index_of(s, '>', pos + 1); }
        if close >= s.len() {
            seq![MarkupView::Text(seq!['<'])] + parse_from(s, pos + 1, gradient, grad, gradient_end, grad_end)
        } else {
            let tag = s.subrange(pos + 1, close);
            let next = close + 1;
            if tag.len() > 0 && tag[0] == '/' {
                seq![MarkupView::Close] + parse_from(s, next, gradient, grad, gradient_end, grad_end)
            } else if begins_with(tag, gradient) || begins_with(tag, grad) {
                let long = begins_with(tag, gradient);
                let preset = if long { tag.skip(gradient.len() as int) } else { tag.skip(grad.len() as int) };
                let closer = if long { gradient_end } else { grad_end };
                let found = next_run(s, closer, next);
                proof { lemma_next_run(s, closer, next); }
                if found < 0 {
                    Seq::empty()
                } else {
                    seq![MarkupView::Gradient { preset, text: s.subrange(next, found) }]
                        + parse_from(s, found + closer.len(), gradient, grad, gradient_end, grad_end)
                }
            } else {
                seq![MarkupView::Open(tag)] + parse_from(s, next, gradient, grad, gradient_end, grad_end)
            }
        }
    } else {
        let end = next_index_of(s, '<', pos);
        proof { lemma_next_index_of(s, '<', pos); }
        seq![MarkupView::Text(s.subrange(pos, end))] + parse_from(s, end, gradient, grad, gradient_end, grad_end)
    }
}

/// The pieces of a whole markup string.
pub open spec fn markup(s: Seq<char>) -> Seq<MarkupView> {
    parse_from(s, 0, "gradient:"@, "grad:"@, "</gradient>"@, "</grad>"@)
}

fn index_of(s: &Vec<char>, c: char, from: usize) -> (r: usize)
    requires
        from <= s.len(),
    ensures
        r == next_index_of(s@, c, from as int),
{
    let mut i = from;
    while i < s.len() && s[i] != c
        invariant
            from <= i <= s.len(),
            next_index_of(s@, c, i as int) == next_index_of(s@, c, from as int),
        decreases s.len() - i,
    {
        i = i + 1;
    }
    i
}

fn occurs_at(s: &Vec<char>, pat: &Vec<char>, at: usize) -> (r: bool)
    ensures
        r == run_at(s@, pat@, at as int),
{
    if at > s.len() || pat.len() > s.len() - at {
        return false;
    }
    let mut k: usize = 0;
    while k < pat.len()
        invariant
            at + pat.len() <= s.len(),
            k <= pat.len(),
            forall|j: int| 0 <= j < k ==> s@[at + j] == pat@[j],
        decreases pat.len() - k,
    {
        if s[at + k] != pat[k] {
            assert(s@.subrange(at as int, at + pat.len())[k as int] != pat@[k as int]);
            return false;
        }
        k = k + 1;
    }
    assert(s@.subrange(at as int, at + pat.len()) =~= pat@);
    true
}

fn find_run(s: &Vec<char>, pat: &Vec<char>, from: usize) -> (r: Option<usize>)
    ensures
        match r {
            Some(i) => i as int == next_run(s@, pat@, from as int),
            None => next_run(s@, pat@, from as int) == -1,
        },
{
    let mut i = from;
    while i <= s.len() && pat.len() <= s.len() - i
        invariant
            from <= i,
            next_run(s@, pat@, i as int) == next_run(s@, pat@, from as int),
        decreases s.len() + 1 - i,
    {
        if occurs_at(s, pat, i) {
            return Some(i);
        }
        if i == s.len() {
            assert(next_run(s@, pat@, i + 1) == -1);
            return None;
        }
        i = i + 1;
    }
    None
}

fn starts_with_at(s: &Vec<char>, from: usize, to: usize, pat: &Vec<char>) -> (r: bool)
    requires
        from <= to <= s.len(),
    ensures
        r == begins_with(s@.subrange(from as int, to as int), pat@),
{
    if pat.len() > to - from {
        return false;
    }
    let r = occurs_at(s, pat, from);
    assert(s@.subrange(from as int, to as int).take(pat.len() as int) =~= s@.subrange(from as int, from + pat.len()));
    r
}

/// Read `text` into the pieces a renderer styles.
///
/// A `<` with no `>` after it is text of its own; `</...>` closes whatever tag is open; a gradient
/// whose closing tag never comes drops everything after it.
pub fn parse_markup(text: &str) -> (r: Vec<Markup>)
    ensures
        pieces(r@) == markup(text@),
{
    let s = chars_of(text);
    let gradient = chars_of("gradient:");
    let grad = chars_of("grad:");
    let gradient_end = chars_of("</gradient>");
    let grad_end = chars_of("</grad>");
    let ghost spec_of = |p: int| parse_from(s@, p, gradient@, grad@, gradient_end@, grad_end@);
    let mut out: Vec<Markup> = Vec::new();
    let mut pos: usize = 0;
    while pos < s.len()
        invariant
            pos <= s.len(),
            pieces(out@) + parse_from(s@, pos as int, gradient@, grad@, gradient_end@, grad_end@)
                == parse_from(s@, 0, gradient@, grad@, gradient_end@, grad_end@),
        decreases s.len() - pos,
    {
        let ghost before = pieces(out@);
        if s[pos] == '<' {
            let close = index_of(&s, '>', pos + 1);
            proof { lemma_next_index_of(s@, '>', pos + 1); }
            if close >= s.len() {
                out.push(Markup::Text(string_of_range(&s, pos, pos + 1)));
                proof {
                    assert(s@.subrange(pos as int, pos + 1) =~= seq!['<']);
                    assert(pieces(out@) =~= before.push(MarkupView::Text(seq!['<'])));
                }
                pos = pos + 1;
            } else {
                let next = close + 1;
                let ghost tag = s@.subrange(pos + 1, close as int);
                if close > pos + 1 && s[pos + 1] == '/' {
                    out.push(Markup::Close);
                    proof { assert(pieces(out@) =~= before.push(MarkupView::Close)); }
                    pos = next;
                } else {
                    let long = starts_with_at(&s, pos + 1, close, &gradient);
                    let short = starts_with_at(&s, pos + 1, close, &grad);
                    proof {
                        if close > pos + 1 {
                            assert(tag[0] == s@[pos + 1]);
                        }
                    }
                    if long || short {
                        let skip = if long { gradient.len() } else { grad.len() };
                        let closer = if long { &gradient_end } else { &grad_end };
                        let preset = string_of_range(&s, pos + 1 + skip, close);
                        proof {
                            assert(s@.subrange(pos + 1 + skip, close as int) =~= tag.skip(skip as int));
                        }
                        match find_run(&s, closer, next) {
                            Some(found) => {
                                proof { lemma_next_run(s@, closer@, next as int); }
                                let inner = string_of_range(&s, next, found);
                                out.push(Markup::Gradient { preset, text: inner });
                                proof {
                                    assert(pieces(out@) =~= before.push(MarkupView::Gradient {
                                        preset: tag.skip(skip as int),
                                        text: s@.subrange(next as int, found as int),
                                    }));
                                }
                                pos = found + closer.len();
                            },
                            None => {
                                proof { assert(before + Seq::<MarkupView>::empty() =~= before); }
                                pos = s.len();
                                proof {
                                    assert(parse_from(s@, pos as int, gradient@, grad@, gradient_end@, grad_end@) =~= Seq::<MarkupView>::empty());
                                    assert(pieces(out@) + Seq::<MarkupView>::empty() =~= pieces(out@));
                                }
                            },
                        }
                    } else {
                        out.push(Markup::Open(string_of_range(&s, pos + 1, close)));
                        proof { assert(pieces(out@) =~= before.push(MarkupView::Open(tag))); }
                        pos = next;
                    }
                }
            }
        } else {
            let end = index_of(&s, '<', pos);
            proof { lemma_next_index_of(s@, '<', pos as int); }
            out.push(Markup::Text(string_of_range(&s, pos, end)));
            proof { assert(pieces(out@) =~= before.push(MarkupView::Text(s@.subrange(pos as int, end as int)))); }
            pos = end;
        }
    }
    out
}

/// Whether a text piece is free of markup: it holds no `<`, or it is a `<` that opened no tag.
pub open spec fn plain_text(m: MarkupView) -> bool {
    match m {
        MarkupView::Text(t) => t == seq!['<'] || !t.contains('<'),
        _ => true,
    }
}

proof fn lemma_cons_plain(x: MarkupView, rest: Seq<MarkupView>)
    requires
        plain_text(x),
        forall|i: int| 0 <= i < rest.len() ==> plain_text(#[trigger] rest[i]),
    ensures
        forall|i: int| 0 <= i < (seq![x] + rest).len() ==> plain_text(#[trigger] (seq![x] + rest)[i]),
{
    assert forall|i: int| 0 <= i < (seq![x] + rest).len() implies plain_text(#[trigger] (seq![x] + rest)[i]) by {
        if i > 0 {
            assert((seq![x] + rest)[i] == rest[i - 1]);
        }
    }
}

proof fn lemma_text_is_plain(
    s: Seq<char>,
    pos: int,
    gradient: Seq<char>,
    grad: Seq<char>,
    gradient_end: Seq<char>,
    grad_end: Seq<char>,
)
    ensures
        forall|i: int| 0 <= i < parse_from(s, pos, gradient, grad, gradient_end, grad_end).len()
            ==> plain_text(#[trigger] parse_from(s, pos, gradient, grad, gradient_end, grad_end)[i]),
    decreases s.len() - pos,
{
    if pos < 0 || pos >= s.len() {
    } else if s[pos] == '<' {
        lemma_next_index_of(s, '>', pos + 1);
        let close = next_index_of(s, '>', pos + 1);
        if close >= s.len() {
            lemma_text_is_plain(s, pos + 1, gradient, grad, gradient_end, grad_end);
            lemma_cons_plain(MarkupView::Text(seq!['<']), parse_from(s, pos + 1, gradient, grad, gradient_end, grad_end));
        } else {
            let tag = s.subrange(pos + 1, close);
            if tag.len() > 0 && tag[0] == '/' {
                lemma_text_is_plain(s, close + 1, gradient, grad, gradient_end, grad_end);
                lemma_cons_plain(MarkupView::Close, parse_from(s, close + 1, gradient, grad, gradient_end, grad_end));
            } else if begins_with(tag, gradient) || begins_with(tag, grad) {
                let long = begins_with(tag, gradient);
                let preset = if long { tag.skip(gradient.len() as int) } else { tag.skip(grad.len() as int) };
                let closer = if long { gradient_end } else { grad_end };
                lemma_next_run(s, closer, close + 1);
                let found = next_run(s, closer, close + 1);
                if found >= 0 {
                    lemma_text_is_plain(s, found + closer.len(), gradient, grad, gradient_end, grad_end);
                    lemma_cons_plain(
                        MarkupView::Gradient { preset, text: s.subrange(close + 1, found) },
                        parse_from(s, found + closer.len(), gradient, grad, gradient_end, grad_end),
                    );
                }
            } else {
                lemma_text_is_plain(s, close + 1, gradient, grad, gradient_end, grad_end);
                lemma_cons_plain(MarkupView::Open(tag), parse_from(s, close + 1, gradient, grad, gradient_end, grad_end));
            }
        }
    } else {
        lemma_next_index_of(s, '<', pos);
        let end = next_index_of(s, '<', pos);
        lemma_text_is_plain(s, end, gradient, grad, gradient_end, grad_end);
        let t = s.subrange(pos, end);
        assert(!t.contains('<')) by {
            if t.contains('<') {
                let k = choose|k: int| 0 <= k < t.len() && t[k] == '<';
                assert(s[pos + k] == '<');
            }
        }
        lemma_cons_plain(MarkupView::Text(t), parse_from(s, end, gradient, grad, gradient_end, grad_end));
    }
}

/// Markup never leaks into the text a renderer draws: every text piece is free of tags, save a
/// `<` that no `>` follows.
pub proof fn tags_never_reach_the_text(s: Seq<char>)
    ensures
        forall|i: int| 0 <= i < markup(s).len() ==> plain_text(#[trigger] markup(s)[i]),
{
    lemma_text_is_plain(s, 0, "gradient:"@, "grad:"@, "</gradient>"@, "</grad>"@);
}

/// Text without tags is one plain piece, drawn in the caller's style.
pub proof fn text_without_tags_is_one_piece(s: Seq<char>)
    requires
        s.len() > 0,
        !s.contains('<'),
    ensures
        markup(s) == seq![MarkupView::Text(s)],
{
    lemma_next_index_of(s, '<', 0);
    let end = next_index_of(s, '<', 0);
    if end < s.len() {
        assert(s.contains('<'));
    }
    assert(s.subrange(0, s.len() as int) =~= s);
    assert(parse_from(s, s.len() as int, "gradient:"@, "grad:"@, "</gradient>"@, "</grad>"@) =~= Seq::<MarkupView>::empty());
    assert(markup(s) =~= seq![MarkupView::Text(s)]);
}

} // verus!

//! A single-line text box: the characters typed so far and the caret among them.
use vstd::prelude::*;
use crate::text::{chars_of, string_of_chars};

verus! {

/// `s` with `c` inserted before position `at`.
pub open spec fn insert_at(s: Seq<char>, at: int, c: char) -> Seq<char> {
    s.take(at) + seq![c] + s.skip(at)
}

/// The characters of a single-line input and the caret, counted in characters.
#[derive(Debug)]
pub struct TextInput {
    pub value: String,
    /// The caret, in characters from the start.
    pub cursor: usize,
}

impl TextInput {
    /// The caret, in characters from the start.
    pub open spec fn caret(&self) -> nat {
        self.cursor as nat
    }

    /// Where the next character goes: the caret, or the end when the text was cut shorter
    /// than the caret behind its back.
    pub open spec fn insertion_point(&self) -> int {
        if self.caret() <= self.value@.len() { self.caret() as int } else { self.value@.len() as int }
    }

    /// An empty box, caret at the start.
    pub fn new() -> (r: Self)
        ensures
            r.value@ == Seq::<char>::empty(),
            r.caret() == 0,
    {
        TextInput { value: String::new(), cursor: 0 }
    }

    /// The caret position, in characters.
    pub fn cursor(&self) -> (r: usize)
        ensures
            r == self.caret(),
    {
        self.cursor
    }

    /// Type `c` at the caret, which moves past it.
    pub fn enter_char(&mut self, c: char)
        requires
            old(self).value@.len() < usize::MAX,
        ensures
            final(self).value@ == insert_at(old(self).value@, old(self).insertion_point(), c),
            final(self).caret() == old(self).insertion_point() + 1,
    {
        let chars = chars_of(self.value.as_str());
        let at = if self.cursor <= chars.len() { self.cursor } else { chars.len() };
        let mut out: Vec<char> = Vec::new();
        let mut i: usize = 0;
        while i < at
            invariant
                at <= chars.len(),
                i <= at,
                out@ == chars@.take(i as int),
            decreases at - i,
        {
            out.push(chars[i]);
            i = i + 1;
            assert(out@ =~= chars@.take(i as int));
        }
        out.push(c);
        let ghost head = out@;
        while i < chars.len()
            invariant
                at <= i <= chars.len(),
                out@ == head + chars@.subrange(at as int, i as int),
            decreases chars.len() - i,
        {
            out.push(chars[i]);
            i = i + 1;
            assert(out@ =~= head + chars@.subrange(at as int, i as int));
        }
        assert(out@ =~= insert_at(chars@, at as int, c));
        self.value = string_of_chars(&out);
        self.cursor = at + 1;
    }

    /// A box holding `text`, caret at the end: what typing `text` into an empty box leaves.
    pub fn typed(text: &str) -> (r: Self)
        ensures
            r.value@ == text@,
            r.caret() == text@.len(),
    {
        let n = chars_of(text).len();
        TextInput { value: text.to_owned(), cursor: n }
    }
}

/// Typing a character into a box whose caret is at the end appends it there: typing a text into
/// an empty box leaves exactly that text, caret at the end, which is what [`TextInput::typed`]
/// hands back.
pub proof fn typing_at_the_end_appends(s: Seq<char>, c: char)
    ensures
        insert_at(s, s.len() as int, c) == s.push(c),
{
    assert(insert_at(s, s.len() as int, c) =~= s.push(c));
}

impl Default for TextInput {
    /// An empty box.
    fn default() -> (r: Self)
        ensures
            r.value@ == Seq::<char>::empty(),
            r.caret() == 0,
    {
        TextInput::new()
    }
}

} // verus!

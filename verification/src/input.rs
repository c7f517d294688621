//! The input edit buffer: the in-progress numeric token being typed.
//!
//! The buffer only ever holds ASCII digits and decimal points; whether the
//! token as a whole is a well-formed literal is decided later, by the
//! numeric parser, when the buffer is committed.
use vstd::prelude::*;

verus! {

/// Whether `c` may enter the edit buffer: an ASCII digit or a decimal
/// point.
pub open spec fn is_numeric_char(c: char) -> bool {
    (48 <= c as u32 && c as u32 <= 57) || c == '.'
}

/// Whether every character of `s` may stand in the edit buffer.
pub open spec fn all_numeric(s: Seq<char>) -> bool {
    forall|i: int| 0 <= i < s.len() ==> is_numeric_char(#[trigger] s[i])
}

/// Whether `input` is a character the edit buffer accepts: an ASCII digit
/// or a decimal point.
pub fn is_numeric(input: char) -> (r: bool)
    ensures
        r == is_numeric_char(input),
{
    match input {
        '0'..='9' => true,
        '.' => true,
        _ => false,
    }
}

/// Relies on `String`'s `FromIterator<char>` impl: collecting characters
/// yields the string made of exactly those characters, in order.
#[verifier::external_body]
pub(crate) fn chars_to_string(v: &Vec<char>) -> (s: String)
    ensures
        s@ == v@,
{
    v.iter().collect()
}

/// The not-yet-committed numeric token.  The view is the typed text; the
/// buffer is empty exactly when the view is.
pub struct EditBuffer {
    chars: Vec<char>,
}

impl View for EditBuffer {
    type V = Seq<char>;

    closed spec fn view(&self) -> Seq<char> {
        self.chars@
    }
}

impl EditBuffer {
    /// An empty edit buffer.
    pub fn new() -> (r: EditBuffer)
        ensures
            r@ == Seq::<char>::empty(),
    {
        EditBuffer { chars: Vec::new() }
    }

    /// Whether nothing has been typed yet.
    pub fn is_empty(&self) -> (r: bool)
        ensures
            r == (self@.len() == 0),
    {
        self.chars.len() == 0
    }

    /// Append one typed character to the token.
    pub fn append(&mut self, c: char)
        requires
            is_numeric_char(c),
        ensures
            final(self)@ == old(self)@.push(c),
            all_numeric(old(self)@) ==> all_numeric(final(self)@),
    {
        self.chars.push(c);
    }

    /// Remove the last character; with nothing typed this is a no-op.
    pub fn backspace(&mut self)
        ensures
            old(self)@.len() == 0 ==> final(self)@ == old(self)@,
            old(self)@.len() > 0 ==> final(self)@ == old(self)@.drop_last(),
    {
        if self.chars.len() > 0 {
            self.chars.pop();
            proof {
                assert(self.chars@ =~= old(self)@.drop_last());
            }
        }
    }

    /// The typed text.
    pub fn text(&self) -> (s: String)
        ensures
            s@ == self@,
    {
        chars_to_string(&self.chars)
    }

    /// Reset the buffer to empty, as a commit attempt or a clear does.
    pub fn clear(&mut self)
        ensures
            final(self)@ == Seq::<char>::empty(),
    {
        self.chars.clear();
    }
}

} // verus!

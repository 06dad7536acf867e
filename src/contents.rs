//! The output buffer that one frame is composed in before it is written out.
use vstd::prelude::*;
use vstd::string::StringExecFns;
use crate::text::push_char;

verus! {

/// Text accumulated for one frame.
pub struct EditorContents {
    content: String,
}

impl View for EditorContents {
    type V = Seq<char>;

    closed spec fn view(&self) -> Seq<char> {
        self.content@
    }
}

impl EditorContents {
    /// An empty buffer.
    pub fn new() -> (r: EditorContents)
        ensures
            r@ == Seq::<char>::empty(),
    {
        EditorContents { content: String::new() }
    }

    /// Appends one character.
    pub fn push(&mut self, ch: char)
        ensures
            final(self)@ == old(self)@.push(ch),
    {
        push_char(&mut self.content, ch)
    }

    /// Appends a string.
    pub fn push_str(&mut self, string: &str)
        ensures
            final(self)@ == old(self)@ + string@,
    {
        self.content.append(string)
    }

    /// The text accumulated so far.
    pub fn as_str(&self) -> (r: &str)
        ensures
            r@ == self@,
    {
        self.content.as_str()
    }

    /// Hands out the accumulated text and leaves the buffer empty.
    pub fn take(&mut self) -> (r: String)
        ensures
            r@ == old(self)@,
            final(self)@ == Seq::<char>::empty(),
    {
        let mut out = String::new();
        std::mem::swap(&mut out, &mut self.content);
        out
    }
}

} // verus!

//! The emitter: it collects lines of code and indents them.

use vstd::prelude::*;
use vstd::string::*;
use crate::utils::text::push_char;

verus! {

/// The number of spaces of one level of indentation.
pub const INDENT_SPACES: u8 = 3;

/// `n` spaces.
pub open spec fn spaces(n: nat) -> Seq<char> {
    Seq::new(n, |i: int| ' ')
}

/// The text after one more line: the line, indented, and a line feed.
pub open spec fn with_line(code: Seq<char>, indent: u8, line: Seq<char>) -> Seq<char> {
    code + spaces(indent as nat) + line + seq!['\n']
}

/// The text emitted so far and the current indentation.
pub struct Emitter {
    pub code: String,
    pub indent_level: u8,
}

impl Emitter {
    /// An emitter with no text and no indentation.
    pub fn new() -> (r: Emitter)
        ensures
            r.code@ == Seq::<char>::empty(),
            r.indent_level == 0,
    {
        Emitter { code: String::new(), indent_level: 0 }
    }

    /// Indents the lines that follow by one more level.
    pub fn indent(&mut self)
        requires
            old(self).indent_level <= u8::MAX - INDENT_SPACES,
        ensures
            final(self).indent_level == old(self).indent_level + INDENT_SPACES,
            final(self).code == old(self).code,
    {
        self.indent_level = self.indent_level + INDENT_SPACES;
    }

    /// Indents the lines that follow by one level less.
    pub fn unindent(&mut self)
        requires
            old(self).indent_level >= INDENT_SPACES,
        ensures
            final(self).indent_level == old(self).indent_level - INDENT_SPACES,
            final(self).code == old(self).code,
    {
        self.indent_level = self.indent_level - INDENT_SPACES;
    }

    /// Adds a line of code at the current indentation.
    pub fn add(&mut self, code: String)
        ensures
            final(self).code@ == with_line(old(self).code@, old(self).indent_level, code@),
            final(self).indent_level == old(self).indent_level,
    {
        let mut i: u8 = 0;
        while i < self.indent_level
            invariant
                i <= self.indent_level,
                self.indent_level == old(self).indent_level,
                self.code@ == old(self).code@ + spaces(i as nat),
            decreases self.indent_level - i,
        {
            push_char(&mut self.code, ' ');
            assert(self.code@ =~= old(self).code@ + spaces((i + 1) as nat));
            i = i + 1;
        }
        self.code.append(code.as_str());
        push_char(&mut self.code, '\n');
        assert(self.code@ =~= with_line(old(self).code@, old(self).indent_level, code@));
    }

    /// The text emitted so far.
    pub fn get_code(&self) -> (r: &String)
        ensures
            r@ == self.code@,
    {
        &self.code
    }

    /// Ends the text. Nothing is added to it.
    pub fn finalize(&mut self)
        ensures
            *final(self) == *old(self),
    {
    }

    /// Discards the text. The indentation stays.
    pub fn reset(&mut self)
        ensures
            final(self).code@ == Seq::<char>::empty(),
            final(self).indent_level == old(self).indent_level,
    {
        self.code = String::new();
    }
}

} // verus!

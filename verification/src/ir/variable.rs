//! Program variables.

use vstd::prelude::*;
use vstd::string::*;
use crate::utils::text::{decimal, push_decimal};

verus! {

/// A variable of a program: an identifier that is never reused.
#[derive(Clone, Copy, Debug, PartialEq, Eq, Structural)]
pub struct Variable(pub u32);

impl Variable {
    /// The name under which the variable appears in JavaScript text: the
    /// letter `v` and the identifier in decimal.
    pub open spec fn name(self) -> Seq<char> {
        seq!['v'] + decimal(self.0 as nat)
    }

    /// Appends the variable's name to `s`.
    pub fn push_name(&self, s: &mut String)
        ensures
            final(s)@ == old(s)@ + self.name(),
    {
        s.append("v");
        proof {
            reveal_strlit("v");
            assert("v"@ =~= seq!['v']);
        }
        push_decimal(s, self.0 as u128);
        assert(s@ =~= old(s)@ + self.name());
    }

    /// The variable's name as text.
    pub fn print(&self) -> (r: String)
        ensures
            r@ == self.name(),
    {
        let mut s = String::new();
        s.append("v");
        proof {
            reveal_strlit("v");
            assert("v"@ =~= seq!['v']);
        }
        push_decimal(&mut s, self.0 as u128);
        assert(s@ =~= self.name());
        s
    }
}

} // verus!

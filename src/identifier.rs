//! Identifiers as they appear in Rust source, and their case conversion.
use vstd::prelude::*;

use crate::text::{ascii_upper, push_char, to_ascii_upper};

verus! {

/// Identifier as it appears in Rust: type names are in (upper) camel case and
/// variable names are in snake case.
#[derive(Debug, Clone, PartialEq, Eq, Hash)]
pub struct Identifier(pub String);

/// The letter case of the first character of a camel-case name.
#[derive(Debug, Clone, Copy, PartialEq, Eq)]
pub enum LetterCase {
    UpperCase,
    LowerCase,
}

/// The `i`-th character of `s` as it appears in the camel-case form of `s`:
/// underscores vanish, and a character that follows an underscore (or opens
/// the name, when `upper` is set) is upper-cased.
pub open spec fn camel_piece(s: Seq<char>, i: int, upper: bool) -> Seq<char> {
    if s[i] == '_' {
        Seq::empty()
    } else if (i == 0 && upper) || (i > 0 && s[i - 1] == '_') {
        seq![ascii_upper(s[i])]
    } else {
        seq![s[i]]
    }
}

/// The camel-case form of the snake-case name `s`.
pub open spec fn camel_of(s: Seq<char>, upper: bool) -> Seq<char>
    decreases s.len(),
{
    if s.len() == 0 {
        Seq::empty()
    } else {
        camel_of(s.drop_last(), upper) + camel_piece(s, s.len() - 1, upper)
    }
}

impl View for Identifier {
    type V = Seq<char>;

    open spec fn view(&self) -> Seq<char> {
        self.0@
    }
}

impl Identifier {
    /// The identifier with the given name.
    pub fn new(name: &str) -> (r: Identifier)
        ensures
            r@ == name@,
    {
        Identifier(name.to_owned())
    }

    /// Converts the snake-case name held by the identifier to camel case,
    /// starting with the given letter case.
    pub fn camel_case(&self, case: LetterCase) -> (r: String)
        ensures
            r@ == camel_of(self@, case == LetterCase::UpperCase),
    {
        let ghost upper = case == LetterCase::UpperCase;
        let name = self.0.as_str();
        let n = name.unicode_len();
        let mut result = String::new();
        let mut next_uppercase = match case {
            LetterCase::UpperCase => true,
            LetterCase::LowerCase => false,
        };
        let mut i: usize = 0;
        while i < n
            invariant
                n == self@.len(),
                name@ == self@,
                i <= n,
                result@ == camel_of(self@.take(i as int), upper),
                next_uppercase == ((i == 0 && upper) || (i > 0 && self@[i - 1] == '_')),
            decreases n - i,
        {
            let c = name.get_char(i);
            let ghost prefix = self@.take(i as int + 1);
            assert(prefix.drop_last() =~= self@.take(i as int));
            if c == '_' {
                next_uppercase = true;
            } else if next_uppercase {
                push_char(&mut result, to_ascii_upper(c));
                next_uppercase = false;
            } else {
                push_char(&mut result, c);
            }
            assert(camel_piece(prefix, i as int, upper) == camel_piece(self@, i as int, upper));
            i = i + 1;
        }
        assert(self@.take(n as int) =~= self@);
        result
    }
}

} // verus!

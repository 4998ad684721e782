//! What can be appended to a builder: anything with a textual form.

use crate::decimal::{decimal, signed_chars, signed_decimal, unsigned_chars};
use vstd::prelude::*;

verus! {

/// A value with a textual form: a fixed sequence of Unicode scalar values.
///
/// Implement it for a type of your own to make its values appendable.
pub trait Vcharsable {
    /// The textual form of the value. A type states its own; where it does
    /// not, nothing is known of the form.
    open spec fn text(&self) -> Seq<char> {
        arbitrary()
    }

    /// The textual form, as scalar values in order.
    fn vechars(&self) -> (chars: Vec<char>)
        ensures
            chars@ == self.text(),
    ;
}

/// The scalar values of `s`, in order.
pub fn str_chars(s: &str) -> (chars: Vec<char>)
    ensures
        chars@ == s@,
{
    let mut chars: Vec<char> = Vec::new();
    for c in it: s.chars()
        invariant
            chars@ == it.seq().take(it.index()),
    {
        chars.push(c);
    }
    chars
}

impl Vcharsable for String {
    open spec fn text(&self) -> Seq<char> {
        self@
    }

    fn vechars(&self) -> (chars: Vec<char>) {
        str_chars(self.as_str())
    }
}

impl<'a> Vcharsable for &'a str {
    open spec fn text(&self) -> Seq<char> {
        self@
    }

    fn vechars(&self) -> (chars: Vec<char>) {
        str_chars(*self)
    }
}

impl Vcharsable for char {
    open spec fn text(&self) -> Seq<char> {
        seq![*self]
    }

    fn vechars(&self) -> (chars: Vec<char>) {
        let mut chars: Vec<char> = Vec::with_capacity(1);
        chars.push(*self);
        chars
    }
}

impl Vcharsable for bool {
    open spec fn text(&self) -> Seq<char> {
        if *self {
            seq!['t', 'r', 'u', 'e']
        } else {
            seq!['f', 'a', 'l', 's', 'e']
        }
    }

    fn vechars(&self) -> (chars: Vec<char>) {
        if *self {
            let mut chars: Vec<char> = Vec::with_capacity(4);
            chars.push('t');
            chars.push('r');
            chars.push('u');
            chars.push('e');
            return chars;
        }
        let mut chars: Vec<char> = Vec::with_capacity(5);
        chars.push('f');
        chars.push('a');
        chars.push('l');
        chars.push('s');
        chars.push('e');
        chars
    }
}

impl Vcharsable for usize {
    open spec fn text(&self) -> Seq<char> {
        decimal(*self as nat)
    }

    fn vechars(&self) -> (chars: Vec<char>) {
        unsigned_chars(*self as u128)
    }
}

impl Vcharsable for u8 {
    open spec fn text(&self) -> Seq<char> {
        decimal(*self as nat)
    }

    fn vechars(&self) -> (chars: Vec<char>) {
        unsigned_chars(*self as u128)
    }
}

impl Vcharsable for u16 {
    open spec fn text(&self) -> Seq<char> {
        decimal(*self as nat)
    }

    fn vechars(&self) -> (chars: Vec<char>) {
        unsigned_chars(*self as u128)
    }
}

impl Vcharsable for u32 {
    open spec fn text(&self) -> Seq<char> {
        decimal(*self as nat)
    }

    fn vechars(&self) -> (chars: Vec<char>) {
        unsigned_chars(*self as u128)
    }
}

impl Vcharsable for u64 {
    open spec fn text(&self) -> Seq<char> {
        decimal(*self as nat)
    }

    fn vechars(&self) -> (chars: Vec<char>) {
        unsigned_chars(*self as u128)
    }
}

impl Vcharsable for u128 {
    open spec fn text(&self) -> Seq<char> {
        decimal(*self as nat)
    }

    fn vechars(&self) -> (chars: Vec<char>) {
        unsigned_chars(*self)
    }
}

impl Vcharsable for isize {
    open spec fn text(&self) -> Seq<char> {
        signed_decimal(*self as int)
    }

    fn vechars(&self) -> (chars: Vec<char>) {
        signed_chars(*self as i128)
    }
}

impl Vcharsable for i8 {
    open spec fn text(&self) -> Seq<char> {
        signed_decimal(*self as int)
    }

    fn vechars(&self) -> (chars: Vec<char>) {
        signed_chars(*self as i128)
    }
}

impl Vcharsable for i16 {
    open spec fn text(&self) -> Seq<char> {
        signed_decimal(*self as int)
    }

    fn vechars(&self) -> (chars: Vec<char>) {
        signed_chars(*self as i128)
    }
}

impl Vcharsable for i32 {
    open spec fn text(&self) -> Seq<char> {
        signed_decimal(*self as int)
    }

    fn vechars(&self) -> (chars: Vec<char>) {
        signed_chars(*self as i128)
    }
}

impl Vcharsable for i64 {
    open spec fn text(&self) -> Seq<char> {
        signed_decimal(*self as int)
    }

    fn vechars(&self) -> (chars: Vec<char>) {
        signed_chars(*self as i128)
    }
}

impl Vcharsable for i128 {
    open spec fn text(&self) -> Seq<char> {
        signed_decimal(*self as int)
    }

    fn vechars(&self) -> (chars: Vec<char>) {
        signed_chars(*self)
    }
}

} // verus!

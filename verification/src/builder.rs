//! The buffer itself: construction, deletion, clearing and reading back.

use crate::error::{checked_range, DeleteError};
use crate::vcharsable::Vcharsable;
use vstd::prelude::*;

verus! {

/// The capacity that [`StringBuilder::new`] reserves.
pub const DEFAULT_CAPACITY: usize = 392;

/// What is left of `s` once the positions `start..end` are taken out.
pub open spec fn without_range(s: Seq<char>, start: int, end: int) -> Seq<char> {
    s.subrange(0, start) + s.subrange(end, s.len() as int)
}

/// `String::push` of std puts the given scalar value at the end of the string
/// and leaves what was there in place.
pub assume_specification[ String::push ](s: &mut String, ch: char)
    ensures
        final(s)@ == old(s)@.push(ch),
;

/// A growable sequence of Unicode scalar values.
#[derive(Debug)]
pub struct StringBuilder {
    chars: Vec<char>,
}

impl View for StringBuilder {
    type V = Seq<char>;

    /// The scalar values held, first to last.
    closed spec fn view(&self) -> Seq<char> {
        self.chars@
    }
}

impl StringBuilder {
    /// An empty builder with room reserved for [`DEFAULT_CAPACITY`] scalar values.
    ///
    /// The reservation only spares later allocations: no operation's result
    /// depends on it, so the contract speaks of the content alone.
    pub fn new() -> (builder: StringBuilder)
        ensures
            builder@ == Seq::<char>::empty(),
    {
        StringBuilder::with_capacity(DEFAULT_CAPACITY)
    }

    /// An empty builder with room reserved for `size` scalar values.
    ///
    /// The reservation only spares later allocations: no operation's result
    /// depends on it, so the content is empty whatever `size` is.
    pub fn with_capacity(size: usize) -> (builder: StringBuilder)
        ensures
            builder@ == Seq::<char>::empty(),
    {
        StringBuilder { chars: Vec::with_capacity(size) }
    }

    /// Puts the textual form of `buff` at the end.
    pub fn append<T: Vcharsable>(&mut self, buff: T) -> (builder: &mut StringBuilder)
        ensures
            builder@ == old(self)@ + buff.text(),
            *final(self) == *final(builder),
    {
        let mut chars = buff.vechars();
        self.chars.append(&mut chars);
        self
    }

    /// The number of scalar values held.
    pub fn len(&self) -> (n: usize)
        ensures
            n == self@.len(),
    {
        self.chars.len()
    }

    /// Removes the scalar value at position `start` and closes the gap.
    pub fn delete_at(&mut self, start: usize) -> (builder: &mut StringBuilder)
        requires
            start < old(self)@.len(),
        ensures
            builder@ == without_range(old(self)@, start as int, start + 1),
            builder@ == old(self)@.remove(start as int),
            *final(self) == *final(builder),
    {
        assert(start < self.chars.len());
        self.delete(start, start + 1)
    }

    /// Removes the scalar values at positions `start..end` and closes the gap.
    pub fn delete(&mut self, start: usize, end: usize) -> (builder: &mut StringBuilder)
        requires
            start < end <= old(self)@.len(),
        ensures
            builder@ == without_range(old(self)@, start as int, end as int),
            builder@.len() == old(self)@.len() - (end - start),
            *final(self) == *final(builder),
    {
        let ghost before = self.chars@;
        let mut removed: usize = 0;
        while removed < end - start
            invariant
                start < end <= before.len(),
                removed <= end - start,
                self.chars@ == without_range(before, start as int, start + removed),
            decreases end - start - removed,
        {
            self.chars.remove(start);
            removed = removed + 1;
        }
        self
    }

    /// Removes the scalar values at positions `start..end` if that range can
    /// be deleted, and otherwise says why not and leaves the content alone.
    pub fn try_delete(&mut self, start: usize, end: usize) -> (outcome: Result<(), DeleteError>)
        ensures
            outcome == checked_range(old(self)@.len(), start, end),
            outcome is Ok ==> final(self)@ == without_range(old(self)@, start as int, end as int),
            outcome is Err ==> final(self)@ == old(self)@,
    {
        if end == 0 {
            return Err(DeleteError::EndIsZero);
        }
        if end <= start {
            return Err(DeleteError::EndNotAfterStart { start, end });
        }
        if end > self.chars.len() {
            return Err(DeleteError::EndOutOfRange { end });
        }
        self.delete(start, end);
        Ok(())
    }

    /// Removes every scalar value.
    pub fn clear(&mut self) -> (builder: &mut StringBuilder)
        ensures
            builder@ == Seq::<char>::empty(),
            *final(self) == *final(builder),
    {
        self.chars.clear();
        self
    }

    /// The content as a `String`; the builder is left as it is.
    pub fn string(&self) -> (s: String)
        ensures
            s@ == self@,
    {
        let mut s = String::new();
        let mut i: usize = 0;
        while i < self.chars.len()
            invariant
                i <= self.chars@.len(),
                s@ == self.chars@.subrange(0, i as int),
            decreases self.chars@.len() - i,
        {
            s.push(self.chars[i]);
            i = i + 1;
        }
        s
    }
}

impl PartialEq for StringBuilder {
    /// Two builders are equal when they hold the same scalar values in the
    /// same order.
    fn eq(&self, other: &StringBuilder) -> (same: bool) {
        if self.chars.len() != other.chars.len() {
            return false;
        }
        let mut i: usize = 0;
        while i < self.chars.len()
            invariant
                self.chars@.len() == other.chars@.len(),
                i <= self.chars@.len(),
                self.chars@.subrange(0, i as int) == other.chars@.subrange(0, i as int),
            decreases self.chars@.len() - i,
        {
            if self.chars[i] != other.chars[i] {
                return false;
            }
            i = i + 1;
        }
        proof {
            assert(self.chars@ == self.chars@.subrange(0, i as int));
            assert(other.chars@ == other.chars@.subrange(0, i as int));
        }
        true
    }
}

impl vstd::std_specs::cmp::PartialEqSpecImpl for StringBuilder {
    open spec fn obeys_eq_spec() -> bool {
        true
    }

    open spec fn eq_spec(&self, other: &StringBuilder) -> bool {
        self@ == other@
    }
}

impl ToString for StringBuilder {
    fn to_string(&self) -> (s: String)
        ensures
            s@ == self@,
    {
        self.string()
    }
}

} // verus!

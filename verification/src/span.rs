//! Windows into a text, counted in characters.

use vstd::prelude::*;
use crate::chars::string_from_chars;

verus! {

/// A half-open window `[start, end)` into a sequence of characters.
///
/// Both ends are character indices, never byte indices.
#[derive(Debug, Clone, Copy, PartialEq, Eq, Structural)]
pub struct Span {
    pub start: usize,
    pub end: usize,
}

impl Span {
    /// The span does not end before it starts.
    pub open spec fn well_formed(self) -> bool {
        self.start <= self.end
    }

    /// The span is well formed and lies inside a source of `len` characters.
    pub open spec fn fits(self, len: nat) -> bool {
        self.start <= self.end && self.end <= len
    }

    /// The characters of `source` that the span covers.
    pub open spec fn content(self, source: Seq<char>) -> Seq<char>
        recommends
            self.fits(source.len()),
    {
        source.subrange(self.start as int, self.end as int)
    }

    /// Touching spans count as overlapping: the test is inclusive at the
    /// boundary.
    pub open spec fn overlaps(self, other: Span) -> bool {
        let low = if self.start >= other.start { self.start } else { other.start };
        let high = if self.end <= other.end { self.end } else { other.end };
        low <= high
    }

    pub fn new(start: usize, end: usize) -> (span: Self)
        ensures
            span.start == start,
            span.end == end,
    {
        Self { start, end }
    }

    pub fn len(&self) -> (len: usize)
        requires
            self.well_formed(),
        ensures
            len == self.end - self.start,
    {
        self.end - self.start
    }

    pub fn is_empty(&self) -> (empty: bool)
        requires
            self.well_formed(),
        ensures
            empty == (self.start == self.end),
    {
        self.len() == 0
    }

    pub fn overlaps_with(&self, other: Self) -> (overlap: bool)
        ensures
            overlap == self.overlaps(other),
    {
        let low: usize = if self.start >= other.start { self.start } else { other.start };
        let high: usize = if self.end <= other.end { self.end } else { other.end };
        low <= high
    }

    /// Whether the span can be applied to `source`.
    pub fn fits_in(&self, source: &[char]) -> (fits: bool)
        ensures
            fits == self.fits(source@.len()),
    {
        self.start <= self.end && self.end <= source.len()
    }

    pub fn get_content<'a>(&self, source: &'a [char]) -> (content: &'a [char])
        requires
            self.fits(source@.len()),
        ensures
            content@ == self.content(source@),
    {
        &source[self.start..self.end]
    }

    pub fn get_content_string(&self, source: &[char]) -> (text: String)
        requires
            self.fits(source@.len()),
        ensures
            text@ == self.content(source@),
    {
        string_from_chars(self.get_content(source))
    }

    pub fn set_len(&mut self, length: usize)
        requires
            old(self).start + length <= usize::MAX,
        ensures
            final(self).start == old(self).start,
            final(self).end == old(self).start + length,
    {
        self.end = self.start + length;
    }

    pub fn with_len(&self, length: usize) -> (span: Self)
        requires
            self.start + length <= usize::MAX,
        ensures
            span.start == self.start,
            span.end == self.start + length,
    {
        let mut cloned = *self;
        cloned.set_len(length);
        cloned
    }

    /// Moves the whole window `by` characters to the right.
    pub fn push_by(&mut self, by: usize)
        requires
            old(self).start + by <= usize::MAX,
            old(self).end + by <= usize::MAX,
        ensures
            final(self).start == old(self).start + by,
            final(self).end == old(self).end + by,
    {
        self.start = self.start + by;
        self.end = self.end + by;
    }
}

} // verus!

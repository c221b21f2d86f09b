//! Translation between byte offsets and character indices of a source.

use vstd::prelude::*;
use crate::chars::{char_utf8_width, utf8_len, utf8_width};

verus! {

/// The byte offset, in UTF-8, at which character `index` of the source
/// starts.
pub open spec fn byte_of_char(source: Seq<char>, index: int) -> nat {
    utf8_len(source.take(index))
}

/// Whether a character of the source starts at the byte offset, or the
/// source ends there.
pub open spec fn is_boundary(source: Seq<char>, byte: int) -> bool {
    exists|index: int| 0 <= index <= source.len() && #[trigger] byte_of_char(source, index) == byte
}

/// The index of the character that starts at the byte offset.
pub open spec fn char_of_byte(source: Seq<char>, byte: int) -> int
    recommends
        is_boundary(source, byte),
{
    choose|index: int| 0 <= index <= source.len() && #[trigger] byte_of_char(source, index) == byte
}

/// Later characters start at later bytes.
pub proof fn lemma_byte_of_char_increases(source: Seq<char>, i: int, j: int)
    requires
        0 <= i <= j <= source.len(),
    ensures
        byte_of_char(source, i) <= byte_of_char(source, j),
        i < j ==> byte_of_char(source, i) < byte_of_char(source, j),
        byte_of_char(source, 0) == 0,
    decreases j - i,
{
    assert(source.take(0) =~= Seq::<char>::empty());
    if i < j {
        lemma_byte_of_char_increases(source, i, j - 1);
        assert(source.take(j).drop_last() =~= source.take(j - 1));
    }
}

/// A byte offset is the start of at most one character.
pub proof fn lemma_char_of_byte(source: Seq<char>, index: int)
    requires
        0 <= index <= source.len(),
    ensures
        is_boundary(source, byte_of_char(source, index) as int),
        char_of_byte(source, byte_of_char(source, index) as int) == index,
{
    let byte = byte_of_char(source, index) as int;
    let found = char_of_byte(source, byte);
    if found < index {
        lemma_byte_of_char_increases(source, found, index);
    } else if index < found {
        lemma_byte_of_char_increases(source, index, found);
    }
}

/// A place in a source: the same place as a character index and as a
/// byte offset in UTF-8.
pub struct Cursor {
    pub source: Seq<char>,
    pub char: usize,
    pub byte: usize,
}

impl Cursor {
    /// The cursor stands on a character of the source, or at its end, and
    /// `byte` is where that character starts.
    pub open spec fn well_formed(self) -> bool {
        self.char <= self.source.len() && self.byte == byte_of_char(self.source, self.char as int)
    }

    /// Whether the cursor can move to the byte offset: it lies at or
    /// after the cursor, at the start of a character or at the end.
    pub open spec fn reaches(self, byte: int) -> bool {
        self.byte <= byte && is_boundary(self.source, byte)
    }

    /// The cursor moved to the byte offset.
    pub open spec fn moved_to(self, byte: int) -> Cursor
        recommends
            self.reaches(byte),
    {
        Cursor {
            source: self.source,
            char: char_of_byte(self.source, byte) as usize,
            byte: byte as usize,
        }
    }

    /// The cursor moved to the byte offset, where it can.
    pub open spec fn try_moved_to(self, byte: int) -> Option<Cursor> {
        if self.reaches(byte) {
            Some(self.moved_to(byte))
        } else {
            None
        }
    }
}

/// Translates byte offsets of a source into character indices. It holds
/// a cursor into the source and only ever moves it forward.
#[derive(Debug, Clone, Copy)]
pub struct Offset<'a> {
    pub source: &'a [char],
    pub char: usize,
    pub byte: usize,
}

impl<'a> View for Offset<'a> {
    type V = Cursor;

    open spec fn view(&self) -> Cursor {
        Cursor { source: self.source@, char: self.char, byte: self.byte }
    }
}

impl<'a> Offset<'a> {
    pub fn new(source: &'a [char]) -> (offset: Self)
        ensures
            offset@ == (Cursor { source: source@, char: 0, byte: 0 }),
            offset@.well_formed(),
    {
        proof {
            lemma_byte_of_char_increases(source@, 0, 0);
        }
        Offset { source, char: 0, byte: 0 }
    }

    /// Moves the cursor forward to a byte offset, where a character
    /// starts there.
    pub fn try_push_to(self, new_byte: usize) -> (moved: Option<Self>)
        requires
            self@.well_formed(),
        ensures
            match moved {
                Some(moved) => self@.try_moved_to(new_byte as int) == Some(moved@)
                    && moved@.well_formed() && self.char <= moved.char,
                None => self@.try_moved_to(new_byte as int) is None,
            },
    {
        if new_byte < self.byte {
            return None;
        }
        let mut char: usize = self.char;
        let mut byte: usize = self.byte;
        while byte < new_byte && char < self.source.len()
            invariant
                self.char <= char <= self.source@.len(),
                byte == byte_of_char(self.source@, char as int),
                byte <= new_byte,
            decreases self.source@.len() - char,
        {
            let width = char_utf8_width(self.source[char]);
            proof {
                assert(self.source@.take(char + 1).drop_last() =~= self.source@.take(char as int));
            }
            if width > new_byte - byte {
                proof {
                    assert forall|index: int| 0 <= index <= self.source@.len() implies byte_of_char(
                        self.source@,
                        index,
                    ) != new_byte by {
                        if index <= char {
                            lemma_byte_of_char_increases(self.source@, index, char as int);
                        } else {
                            lemma_byte_of_char_increases(self.source@, char + 1, index);
                        }
                    }
                }
                return None;
            }
            byte = byte + width;
            char = char + 1;
        }
        if byte == new_byte {
            proof {
                lemma_char_of_byte(self.source@, char as int);
            }
            Some(Offset { source: self.source, char, byte })
        } else {
            proof {
                assert forall|index: int| 0 <= index <= self.source@.len() implies byte_of_char(
                    self.source@,
                    index,
                ) != new_byte by {
                    lemma_byte_of_char_increases(self.source@, index, char as int);
                }
            }
            None
        }
    }

    /// Moves the cursor forward to a byte offset.
    pub fn push_to(self, new_byte: usize) -> (moved: Self)
        requires
            self@.well_formed(),
            self@.reaches(new_byte as int),
        ensures
            moved@ == self@.moved_to(new_byte as int),
            moved@.well_formed(),
            self.char <= moved.char,
    {
        match self.try_push_to(new_byte) {
            Some(moved) => moved,
            None => self,
        }
    }

    /// Moves the cursor forward by a number of bytes.
    pub fn push_by(self, relative_bytes: usize) -> (moved: Self)
        requires
            self@.well_formed(),
            self.byte + relative_bytes <= usize::MAX,
            self@.reaches(self.byte + relative_bytes),
        ensures
            moved@ == self@.moved_to(self.byte + relative_bytes),
            moved@.well_formed(),
            self.char <= moved.char,
    {
        self.push_to(self.byte + relative_bytes)
    }
}

} // verus!

//! Small fixed-capacity containers and the letter model the game shares.

use vstd::prelude::*;

verus! {

/// A vector with a fixed compile-time capacity and no heap growth beyond it.
pub struct ArrayVec<T, const N: usize> {
    data: Vec<T>,
}

impl<T, const N: usize> View for ArrayVec<T, N> {
    type V = Seq<T>;

    closed spec fn view(&self) -> Seq<T> {
        self.data@
    }
}

impl<T, const N: usize> ArrayVec<T, N> {
    /// The container invariant: never more than `N` elements.
    pub open spec fn wf(self) -> bool {
        self@.len() <= N
    }

    /// An empty container.
    pub fn new() -> (r: Self)
        ensures
            r@.len() == 0,
            r.wf(),
    {
        ArrayVec { data: Vec::new() }
    }

    /// The number of elements currently held.
    pub fn len(&self) -> (r: usize)
        ensures
            r == self@.len(),
    {
        self.data.len()
    }

    /// The fixed capacity `N`.
    pub fn capacity(&self) -> (r: usize)
        ensures
            r == N,
    {
        N
    }

    /// The element at position `n`, or `None` past the end.
    pub fn nth(&self, n: usize) -> (r: Option<&T>)
        ensures
            match r {
                Some(v) => n < self@.len() && *v == self@[n as int],
                None => n >= self@.len(),
            },
    {
        if n < self.data.len() {
            Some(&self.data[n])
        } else {
            None
        }
    }

    /// Replaces the element at position `n`.
    pub fn set_nth(&mut self, n: usize, value: T)
        requires
            n < old(self)@.len(),
        ensures
            final(self)@ == old(self)@.update(n as int, value),
    {
        self.data.set(n, value);
    }

    /// Appends `value`; the container must not be full.
    pub fn push(&mut self, value: T)
        requires
            old(self)@.len() < N,
        ensures
            final(self)@ == old(self)@.push(value),
    {
        self.data.push(value);
    }

    /// Appends `value`, or hands it back unchanged when the container is
    /// full.
    pub fn try_push(&mut self, value: T) -> (r: Result<(), T>)
        ensures
            old(self)@.len() < N ==> {
                &&& final(self)@ == old(self)@.push(value)
                &&& r is Ok
            },
            old(self)@.len() >= N ==> {
                &&& final(self)@ == old(self)@
                &&& r == Err::<(), T>(value)
            },
    {
        if self.data.len() < N {
            self.data.push(value);
            Ok(())
        } else {
            Err(value)
        }
    }
}

/// What [`AsciiChar::from_u8`] makes of a byte: upper-case letters pass
/// through, lower-case letters fold to upper case, anything else becomes the
/// null letter.
pub open spec fn ascii_from_u8(b: u8) -> u8 {
    if 65 <= b <= 90 {
        b
    } else if 97 <= b <= 122 {
        (b - 32) as u8
    } else {
        0
    }
}

/// Position of an upper-case letter in the alphabet, or 26 for anything
/// that is not one.
pub open spec fn letter_index_spec(c: u8) -> u16 {
    if 65 <= c <= 90 {
        (c - 65) as u16
    } else {
        26
    }
}

/// A normalized letter: an upper-case ASCII letter, or the null letter 0.
#[derive(Debug, Clone, Copy, PartialEq, Eq, Hash, PartialOrd, Ord, Structural)]
pub struct AsciiChar(pub u8);

impl AsciiChar {
    /// The null letter, marking an empty cell.
    pub fn null() -> (r: Self)
        ensures
            r.0 == 0,
    {
        Self(0)
    }

    /// Normalizes a byte: letters fold to upper case, anything else becomes
    /// the null letter.
    pub fn from_u8(byte: u8) -> (r: Self)
        ensures
            r.0 == ascii_from_u8(byte),
    {
        if byte >= 65 && byte <= 90 {
            Self(byte)
        } else if byte >= 97 && byte <= 122 {
            Self(65 + (byte - 97))
        } else {
            Self(0)
        }
    }

    /// Position in the alphabet for an upper-case letter, 26 otherwise.
    pub fn letter_index(self) -> (r: u16)
        ensures
            r == letter_index_spec(self.0),
    {
        if self.0 >= 65 && self.0 <= 90 {
            (self.0 - 65) as u16
        } else {
            26
        }
    }

    /// The 16x16 sprite tile base for this letter on the sheet: each glyph
    /// owns four contiguous 8x8 tiles, with tile 0 reserved.
    pub fn tile_index(self) -> (r: u16)
        ensures
            r == letter_index_spec(self.0) * 4 + 1,
    {
        self.letter_index() * 4 + 1
    }
}

/// Index of the first empty cell of a guess buffer, or 5 when none is.
pub open spec fn first_null(s: Seq<AsciiChar>) -> int
    recommends
        s.len() == 5,
{
    if s[0].0 == 0 {
        0int
    } else if s[1].0 == 0 {
        1int
    } else if s[2].0 == 0 {
        2int
    } else if s[3].0 == 0 {
        3int
    } else if s[4].0 == 0 {
        4int
    } else {
        5int
    }
}

/// Index of the last filled cell of a guess buffer, or -1 when none is.
pub open spec fn last_filled(s: Seq<AsciiChar>) -> int
    recommends
        s.len() == 5,
{
    if s[4].0 != 0 {
        4int
    } else if s[3].0 != 0 {
        3int
    } else if s[2].0 != 0 {
        2int
    } else if s[1].0 != 0 {
        1int
    } else if s[0].0 != 0 {
        0int
    } else {
        -1int
    }
}

/// A five-letter word under construction: letters fill the cells left to
/// right, empty cells hold the null letter.
#[derive(Debug, Clone, Copy, PartialEq, Eq, Hash, PartialOrd, Ord)]
pub struct WordBuffer(pub [AsciiChar; 5]);

impl WordBuffer {
    /// Whether every cell is filled.
    pub open spec fn full(self) -> bool {
        forall|i: int| 0 <= i < 5 ==> (#[trigger] self.0@[i]).0 != 0
    }

    /// A buffer of five empty cells.
    pub fn empty() -> (r: Self)
        ensures
            forall|i: int| 0 <= i < 5 ==> (#[trigger] r.0@[i]).0 == 0,
    {
        Self([AsciiChar(0), AsciiChar(0), AsciiChar(0), AsciiChar(0), AsciiChar(0)])
    }

    /// Builds a buffer by normalizing five bytes.
    pub fn from_u8s(value: [u8; 5]) -> (r: Self)
        ensures
            forall|i: int| 0 <= i < 5 ==> (#[trigger] r.0@[i]).0 == ascii_from_u8(value@[i]),
    {
        Self(
            [
                AsciiChar::from_u8(value[0]),
                AsciiChar::from_u8(value[1]),
                AsciiChar::from_u8(value[2]),
                AsciiChar::from_u8(value[3]),
                AsciiChar::from_u8(value[4]),
            ],
        )
    }

    /// The five cells as a slice.
    pub fn as_slice(&self) -> (r: &[AsciiChar])
        ensures
            r@ == self.0@,
    {
        &self.0
    }

    /// Whether every cell is filled.
    pub fn is_full(&self) -> (r: bool)
        ensures
            r == self.full(),
    {
        let r = self.0[0].0 != 0 && self.0[1].0 != 0 && self.0[2].0 != 0 && self.0[3].0 != 0
            && self.0[4].0 != 0;
        proof {
            if r {
                assert forall|i: int| 0 <= i < 5 implies (#[trigger] self.0@[i]).0 != 0 by {
                }
            }
        }
        r
    }

    /// Puts `letter` into the first empty cell; a full buffer is left
    /// unchanged.
    pub fn push(&mut self, letter: AsciiChar)
        ensures
            old(self).full() ==> *final(self) == *old(self),
            !old(self).full() ==> final(self).0@ == old(self).0@.update(
                first_null(old(self).0@),
                letter,
            ),
    {
        if self.0[0].0 == 0 {
            self.0[0] = letter;
        } else if self.0[1].0 == 0 {
            self.0[1] = letter;
        } else if self.0[2].0 == 0 {
            self.0[2] = letter;
        } else if self.0[3].0 == 0 {
            self.0[3] = letter;
        } else if self.0[4].0 == 0 {
            self.0[4] = letter;
        } else {
            proof {
                assert(old(self).full());
            }
        }
    }

    /// Takes the letter out of the last filled cell, or `None` from an
    /// empty buffer.
    pub fn pop(&mut self) -> (r: Option<AsciiChar>)
        ensures
            last_filled(old(self).0@) < 0 ==> {
                &&& *final(self) == *old(self)
                &&& r is None
            },
            last_filled(old(self).0@) >= 0 ==> {
                &&& final(self).0@ == old(self).0@.update(
                    last_filled(old(self).0@),
                    AsciiChar(0),
                )
                &&& r == Some(old(self).0@[last_filled(old(self).0@)])
            },
    {
        if self.0[4].0 != 0 {
            let letter = self.0[4];
            self.0[4] = AsciiChar(0);
            Some(letter)
        } else if self.0[3].0 != 0 {
            let letter = self.0[3];
            self.0[3] = AsciiChar(0);
            Some(letter)
        } else if self.0[2].0 != 0 {
            let letter = self.0[2];
            self.0[2] = AsciiChar(0);
            Some(letter)
        } else if self.0[1].0 != 0 {
            let letter = self.0[1];
            self.0[1] = AsciiChar(0);
            Some(letter)
        } else if self.0[0].0 != 0 {
            let letter = self.0[0];
            self.0[0] = AsciiChar(0);
            Some(letter)
        } else {
            None
        }
    }

    /// Empties every cell.
    pub fn clear(&mut self)
        ensures
            forall|i: int| 0 <= i < 5 ==> (#[trigger] final(self).0@[i]).0 == 0,
    {
        self.0 = [AsciiChar(0), AsciiChar(0), AsciiChar(0), AsciiChar(0), AsciiChar(0)];
    }
}

} // verus!

//! Decoding of the key-input hardware register.
//!
//! The register is a 16-bit bitmask in which bit `n` is *cleared* while the
//! corresponding key is held (active-low). Bits 0 through 9 are, in order:
//! A, B, Select, Start, Right, Left, Up, Down, R, L.

use vstd::prelude::*;

verus! {

/// One sample of the key-input register.
#[derive(Debug, Clone, Copy, PartialEq, Eq, Structural)]
pub struct KeyInput(pub u16);

impl KeyInput {
    /// Whether the A button is held in this sample.
    pub fn a(self) -> (r: bool)
        ensures
            r == (self.0 & 0x0001 == 0),
    {
        (self.0 & 0x0001u16) == 0
    }

    /// Whether A went down between `prev` and this sample.
    pub fn a_once(self, prev: Self) -> (r: bool)
        ensures
            r == ((self.0 & 0x0001 == 0) && !(prev.0 & 0x0001 == 0)),
    {
        self.a() && !prev.a()
    }

    /// Whether the B button is held in this sample.
    pub fn b(self) -> (r: bool)
        ensures
            r == (self.0 & 0x0002 == 0),
    {
        (self.0 & 0x0002u16) == 0
    }

    /// Whether B went down between `prev` and this sample.
    pub fn b_once(self, prev: Self) -> (r: bool)
        ensures
            r == ((self.0 & 0x0002 == 0) && !(prev.0 & 0x0002 == 0)),
    {
        self.b() && !prev.b()
    }

    /// Whether Select is held in this sample.
    pub fn select(self) -> (r: bool)
        ensures
            r == (self.0 & 0x0004 == 0),
    {
        (self.0 & 0x0004u16) == 0
    }

    /// Whether Select went down between `prev` and this sample.
    pub fn select_once(self, prev: Self) -> (r: bool)
        ensures
            r == ((self.0 & 0x0004 == 0) && !(prev.0 & 0x0004 == 0)),
    {
        self.select() && !prev.select()
    }

    /// Whether Start is held in this sample.
    pub fn start(self) -> (r: bool)
        ensures
            r == (self.0 & 0x0008 == 0),
    {
        (self.0 & 0x0008u16) == 0
    }

    /// Whether Start went down between `prev` and this sample.
    pub fn start_once(self, prev: Self) -> (r: bool)
        ensures
            r == ((self.0 & 0x0008 == 0) && !(prev.0 & 0x0008 == 0)),
    {
        self.start() && !prev.start()
    }

    /// Whether Right is held in this sample.
    pub fn right(self) -> (r: bool)
        ensures
            r == (self.0 & 0x0010 == 0),
    {
        (self.0 & 0x0010u16) == 0
    }

    /// Whether Right went down between `prev` and this sample.
    pub fn right_once(self, prev: Self) -> (r: bool)
        ensures
            r == ((self.0 & 0x0010 == 0) && !(prev.0 & 0x0010 == 0)),
    {
        self.right() && !prev.right()
    }

    /// Whether Left is held in this sample.
    pub fn left(self) -> (r: bool)
        ensures
            r == (self.0 & 0x0020 == 0),
    {
        (self.0 & 0x0020u16) == 0
    }

    /// Whether Left went down between `prev` and this sample.
    pub fn left_once(self, prev: Self) -> (r: bool)
        ensures
            r == ((self.0 & 0x0020 == 0) && !(prev.0 & 0x0020 == 0)),
    {
        self.left() && !prev.left()
    }

    /// Whether Up is held in this sample.
    pub fn up(self) -> (r: bool)
        ensures
            r == (self.0 & 0x0040 == 0),
    {
        (self.0 & 0x0040u16) == 0
    }

    /// Whether Up went down between `prev` and this sample.
    pub fn up_once(self, prev: Self) -> (r: bool)
        ensures
            r == ((self.0 & 0x0040 == 0) && !(prev.0 & 0x0040 == 0)),
    {
        self.up() && !prev.up()
    }

    /// Whether Down is held in this sample.
    pub fn down(self) -> (r: bool)
        ensures
            r == (self.0 & 0x0080 == 0),
    {
        (self.0 & 0x0080u16) == 0
    }

    /// Whether Down went down between `prev` and this sample.
    pub fn down_once(self, prev: Self) -> (r: bool)
        ensures
            r == ((self.0 & 0x0080 == 0) && !(prev.0 & 0x0080 == 0)),
    {
        self.down() && !prev.down()
    }

    /// Whether the R shoulder button is held in this sample.
    pub fn r(self) -> (r: bool)
        ensures
            r == (self.0 & 0x0100 == 0),
    {
        (self.0 & 0x0100u16) == 0
    }

    /// Whether R went down between `prev` and this sample.
    pub fn r_once(self, prev: Self) -> (r: bool)
        ensures
            r == ((self.0 & 0x0100 == 0) && !(prev.0 & 0x0100 == 0)),
    {
        self.r() && !prev.r()
    }

    /// Whether the L shoulder button is held in this sample.
    pub fn l(self) -> (r: bool)
        ensures
            r == (self.0 & 0x0200 == 0),
    {
        (self.0 & 0x0200u16) == 0
    }

    /// Whether L went down between `prev` and this sample.
    pub fn l_once(self, prev: Self) -> (r: bool)
        ensures
            r == ((self.0 & 0x0200 == 0) && !(prev.0 & 0x0200 == 0)),
    {
        self.l() && !prev.l()
    }
}

} // verus!

//! Gesture types: the flag set that enables gestures and the decoding of a
//! detected gesture.
//!
//! The native library takes the set of enabled gestures as one integer, one
//! reserved bit per gesture, and reports the latest detected gesture as a
//! single integer that is either one such bit or zero for none. Folding the
//! enable set and decoding a detection are both stated exactly and proved
//! inverse to the bit assignment.

use vstd::prelude::*;

verus! {

/// Touch gestures, one reserved bit each.
#[derive(Debug, Copy, Clone, PartialEq, Eq, Hash, Structural)]
pub enum Gesture {
    Tap,
    DoubleTap,
    Hold,
    Drag,
    SwipeRight,
    SwipeLeft,
    SwipeUp,
    SwipeDown,
    PinchIn,
    PinchOut,
}

/// Every bit a gesture can occupy.
pub const GESTURES_MASK: u32 = 0x3FF;

/// The reserved bit of each gesture.
pub open spec fn gesture_bit(g: Gesture) -> u32 {
    match g {
        Gesture::Tap => 1,
        Gesture::DoubleTap => 2,
        Gesture::Hold => 4,
        Gesture::Drag => 8,
        Gesture::SwipeRight => 16,
        Gesture::SwipeLeft => 32,
        Gesture::SwipeUp => 64,
        Gesture::SwipeDown => 128,
        Gesture::PinchIn => 256,
        Gesture::PinchOut => 512,
    }
}

/// The gesture a native detection integer decodes to: exactly one known
/// gesture's bit names that gesture, and any other integer — zero for no
/// detection included — names none.
pub open spec fn gesture_of_raw(v: i32) -> Option<Gesture> {
    if v == 1 {
        Some(Gesture::Tap)
    } else if v == 2 {
        Some(Gesture::DoubleTap)
    } else if v == 4 {
        Some(Gesture::Hold)
    } else if v == 8 {
        Some(Gesture::Drag)
    } else if v == 16 {
        Some(Gesture::SwipeRight)
    } else if v == 32 {
        Some(Gesture::SwipeLeft)
    } else if v == 64 {
        Some(Gesture::SwipeUp)
    } else if v == 128 {
        Some(Gesture::SwipeDown)
    } else if v == 256 {
        Some(Gesture::PinchIn)
    } else if v == 512 {
        Some(Gesture::PinchOut)
    } else {
        None
    }
}

impl Gesture {
    /// The reserved bit of this gesture in the native integer.
    pub fn bit(self) -> (b: u32)
        ensures
            b == gesture_bit(self),
    {
        match self {
            Gesture::Tap => 1,
            Gesture::DoubleTap => 2,
            Gesture::Hold => 4,
            Gesture::Drag => 8,
            Gesture::SwipeRight => 16,
            Gesture::SwipeLeft => 32,
            Gesture::SwipeUp => 64,
            Gesture::SwipeDown => 128,
            Gesture::PinchIn => 256,
            Gesture::PinchOut => 512,
        }
    }

    /// The native integer a single gesture is passed as, as in a detection
    /// query.
    pub fn to_raw(self) -> (v: i32)
        ensures
            v == gesture_bit(self) as i32,
    {
        self.bit() as i32
    }

    /// Decodes a native detection integer; an integer that is not exactly
    /// one known gesture's bit yields nothing.
    pub fn from_raw(v: i32) -> (r: Option<Gesture>)
        ensures
            r == gesture_of_raw(v),
    {
        if v == 1 {
            Some(Gesture::Tap)
        } else if v == 2 {
            Some(Gesture::DoubleTap)
        } else if v == 4 {
            Some(Gesture::Hold)
        } else if v == 8 {
            Some(Gesture::Drag)
        } else if v == 16 {
            Some(Gesture::SwipeRight)
        } else if v == 32 {
            Some(Gesture::SwipeLeft)
        } else if v == 64 {
            Some(Gesture::SwipeUp)
        } else if v == 128 {
            Some(Gesture::SwipeDown)
        } else if v == 256 {
            Some(Gesture::PinchIn)
        } else if v == 512 {
            Some(Gesture::PinchOut)
        } else {
            None
        }
    }
}

/// Passing a gesture as its native integer and decoding that integer
/// yields the gesture it started from.
pub proof fn lemma_gesture_round_trip(g: Gesture)
    ensures
        gesture_of_raw(gesture_bit(g) as i32) == Some(g),
{
}

/// A set of gestures to enable, held as the bitwise or of the members'
/// reserved bits.
#[derive(Debug, Copy, Clone, PartialEq, Eq, Hash, Structural)]
pub struct Gestures {
    /// The folded native integer: the bitwise or of the members' bits.
    pub bits: u32,
}

/// The gesture set a native integer decodes to: the set with exactly those
/// bits when every bit is a known gesture's, and nothing otherwise.
pub open spec fn gestures_of_bits(bits: u32) -> Option<Gestures> {
    if bits & GESTURES_MASK == bits {
        Some(Gestures { bits })
    } else {
        None
    }
}

impl Gestures {
    /// The set carries no bit outside the known gestures.
    pub open spec fn wf(self) -> bool {
        self.bits & GESTURES_MASK == self.bits
    }

    /// The native integer this set folds to.
    pub open spec fn spec_bits(self) -> u32 {
        self.bits
    }

    /// Whether the set holds the given gesture.
    pub open spec fn has(self, g: Gesture) -> bool {
        self.bits & gesture_bit(g) != 0
    }

    /// The set with no gesture in it.
    pub fn empty() -> (s: Gestures)
        ensures
            s.wf(),
            s.spec_bits() == 0,
    {
        proof {
            assert(0u32 & GESTURES_MASK == 0u32) by (bit_vector);
        }
        Gestures { bits: 0 }
    }

    /// The set with every known gesture in it.
    pub fn all() -> (s: Gestures)
        ensures
            s.wf(),
            s.spec_bits() == GESTURES_MASK,
    {
        proof {
            assert(GESTURES_MASK & GESTURES_MASK == GESTURES_MASK) by (bit_vector);
        }
        Gestures { bits: GESTURES_MASK }
    }

    /// This set with one more gesture in it.
    pub fn with(self, g: Gesture) -> (s: Gestures)
        requires
            self.wf(),
        ensures
            s.wf(),
            s.spec_bits() == self.spec_bits() | gesture_bit(g),
    {
        proof {
            lemma_gesture_bit_in_mask(g);
            lemma_u32_or_stays_in_mask(self.bits, gesture_bit(g), GESTURES_MASK);
        }
        Gestures { bits: self.bits | g.bit() }
    }

    /// The union of two gesture sets.
    pub fn union(self, other: Gestures) -> (s: Gestures)
        requires
            self.wf(),
            other.wf(),
        ensures
            s.wf(),
            s.spec_bits() == self.spec_bits() | other.spec_bits(),
    {
        proof {
            lemma_u32_or_stays_in_mask(self.bits, other.bits, GESTURES_MASK);
        }
        Gestures { bits: self.bits | other.bits }
    }

    /// Whether the set holds the given gesture.
    pub fn contains(self, g: Gesture) -> (r: bool)
        ensures
            r == self.has(g),
    {
        self.bits & g.bit() != 0
    }

    /// Folds the set to the native integer: the bitwise or of the members'
    /// reserved bits.
    pub fn bits(self) -> (b: u32)
        ensures
            b == self.spec_bits(),
    {
        self.bits
    }

    /// Decodes a native integer back to a gesture set; an integer with a
    /// bit no known gesture occupies yields nothing.
    pub fn from_bits(bits: u32) -> (r: Option<Gestures>)
        ensures
            r == gestures_of_bits(bits),
    {
        if bits & GESTURES_MASK == bits {
            Some(Gestures { bits })
        } else {
            None
        }
    }
}

/// Folding a set of known gestures to the native integer and decoding that
/// integer yields the set it started from.
pub proof fn lemma_gestures_round_trip(s: Gestures)
    requires
        s.wf(),
    ensures
        gestures_of_bits(s.spec_bits()) == Some(s),
{
}

/// Decoding a native integer made only of known gesture bits and folding
/// the set again yields the integer it started from.
pub proof fn lemma_gesture_bits_round_trip(bits: u32)
    requires
        bits & GESTURES_MASK == bits,
    ensures
        gestures_of_bits(bits) == Some(Gestures { bits }),
        (Gestures { bits }).spec_bits() == bits,
{
}

/// Two well-formed gesture sets with the same members are the same set:
/// the folded bit pattern is determined by membership alone.
pub proof fn lemma_gestures_extensional(a: Gestures, b: Gestures)
    requires
        a.wf(),
        b.wf(),
        forall|g: Gesture| a.has(g) == b.has(g),
    ensures
        a == b,
{
    let x = a.bits;
    let y = b.bits;
    assert(a.has(Gesture::Tap) == b.has(Gesture::Tap));
    assert(a.has(Gesture::DoubleTap) == b.has(Gesture::DoubleTap));
    assert(a.has(Gesture::Hold) == b.has(Gesture::Hold));
    assert(a.has(Gesture::Drag) == b.has(Gesture::Drag));
    assert(a.has(Gesture::SwipeRight) == b.has(Gesture::SwipeRight));
    assert(a.has(Gesture::SwipeLeft) == b.has(Gesture::SwipeLeft));
    assert(a.has(Gesture::SwipeUp) == b.has(Gesture::SwipeUp));
    assert(a.has(Gesture::SwipeDown) == b.has(Gesture::SwipeDown));
    assert(a.has(Gesture::PinchIn) == b.has(Gesture::PinchIn));
    assert(a.has(Gesture::PinchOut) == b.has(Gesture::PinchOut));
    assert(x == y) by (bit_vector)
        requires
            x & GESTURES_MASK == x,
            y & GESTURES_MASK == y,
            (x & 1 != 0) == (y & 1 != 0),
            (x & 2 != 0) == (y & 2 != 0),
            (x & 4 != 0) == (y & 4 != 0),
            (x & 8 != 0) == (y & 8 != 0),
            (x & 16 != 0) == (y & 16 != 0),
            (x & 32 != 0) == (y & 32 != 0),
            (x & 64 != 0) == (y & 64 != 0),
            (x & 128 != 0) == (y & 128 != 0),
            (x & 256 != 0) == (y & 256 != 0),
            (x & 512 != 0) == (y & 512 != 0),
    ;
}

/// The empty set holds no gesture.
pub proof fn lemma_gestures_empty_members(g: Gesture)
    ensures
        !(Gestures { bits: 0 }).has(g),
{
    let b = gesture_bit(g);
    assert(0u32 & b == 0) by (bit_vector);
}

/// The full set holds every gesture.
pub proof fn lemma_gestures_all_members(g: Gesture)
    ensures
        (Gestures { bits: GESTURES_MASK }).has(g),
{
    let b = gesture_bit(g);
    assert(b == 1 || b == 2 || b == 4 || b == 8 || b == 16 || b == 32 || b == 64 || b == 128 || b == 256 || b == 512);
    assert(GESTURES_MASK & b != 0) by (bit_vector)
        requires
            b == 1 || b == 2 || b == 4 || b == 8 || b == 16 || b == 32 || b == 64 || b == 128 || b == 256 || b == 512,
    ;
}

/// Adding a gesture to a set adds that gesture and nothing else.
pub proof fn lemma_gestures_with_members(s: Gestures, g: Gesture, h: Gesture)
    ensures
        (Gestures { bits: s.spec_bits() | gesture_bit(g) }).has(h) == (s.has(h) || h == g),
{
    let x = s.bits;
    let gb = gesture_bit(g);
    let hb = gesture_bit(h);
    assert(gb == 1 || gb == 2 || gb == 4 || gb == 8 || gb == 16 || gb == 32 || gb == 64 || gb == 128 || gb == 256 || gb == 512);
    assert(hb == 1 || hb == 2 || hb == 4 || hb == 8 || hb == 16 || hb == 32 || hb == 64 || hb == 128 || hb == 256 || hb == 512);
    if g == h {
        assert((x | gb) & gb != 0) by (bit_vector)
            requires
                gb == 1 || gb == 2 || gb == 4 || gb == 8 || gb == 16 || gb == 32 || gb == 64 || gb == 128 || gb == 256 || gb == 512,
        ;
    } else {
        assert(gb != hb);
        assert(((x | gb) & hb != 0) == (x & hb != 0)) by (bit_vector)
            requires
                gb != hb,
                gb == 1 || gb == 2 || gb == 4 || gb == 8 || gb == 16 || gb == 32 || gb == 64 || gb == 128 || gb == 256 || gb == 512,
                hb == 1 || hb == 2 || hb == 4 || hb == 8 || hb == 16 || hb == 32 || hb == 64 || hb == 128 || hb == 256 || hb == 512,
        ;
    }
}

/// Every gesture's bit lies inside the known mask.
proof fn lemma_gesture_bit_in_mask(g: Gesture)
    ensures
        gesture_bit(g) & GESTURES_MASK == gesture_bit(g),
{
    let b = gesture_bit(g);
    assert(b == 1 || b == 2 || b == 4 || b == 8 || b == 16 || b == 32 || b == 64 || b == 128
        || b == 256 || b == 512);
    assert(b & GESTURES_MASK == b) by (bit_vector)
        requires
            b == 1 || b == 2 || b == 4 || b == 8 || b == 16 || b == 32 || b == 64 || b == 128
                || b == 256 || b == 512,
    ;
}

/// Bits that each lie inside a mask still lie inside it after a bitwise or.
proof fn lemma_u32_or_stays_in_mask(x: u32, y: u32, m: u32)
    by (bit_vector)
    requires
        x & m == x,
        y & m == y,
    ensures
        (x | y) & m == (x | y),
{
}

} // verus!

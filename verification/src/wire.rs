//! Bits that boolean gates can be evaluated on.
use vstd::prelude::*;

verus! {

/// A bit that the gates of a circuit operate on.
///
/// `plain` is the boolean value the bit stands for: the bit itself for `bool`,
/// the encrypted plaintext for a ciphertext.
pub trait Wire: Sized {
    spec fn plain(&self) -> bool;

    fn and(&self, other: &Self) -> (r: Self)
        ensures
            r.plain() == (self.plain() && other.plain()),
    ;

    fn or(&self, other: &Self) -> (r: Self)
        ensures
            r.plain() == (self.plain() || other.plain()),
    ;

    fn xor(&self, other: &Self) -> (r: Self)
        ensures
            r.plain() == (self.plain() != other.plain()),
    ;

    fn not(&self) -> (r: Self)
        ensures
            r.plain() == !self.plain(),
    ;
}

impl Wire for bool {
    open spec fn plain(&self) -> bool {
        *self
    }

    fn and(&self, other: &Self) -> (r: Self) {
        *self && *other
    }

    fn or(&self, other: &Self) -> (r: Self) {
        *self || *other
    }

    fn xor(&self, other: &Self) -> (r: Self) {
        *self != *other
    }

    fn not(&self) -> (r: Self) {
        !*self
    }
}

/// The plain values of a sequence of bits.
pub open spec fn plains<W: Wire>(s: Seq<W>) -> Seq<bool> {
    s.map_values(|w: W| w.plain())
}

/// Two-input AND cell.
pub fn and2<W: Wire>(a: &W, b: &W) -> (r: W)
    ensures
        r.plain() == (a.plain() && b.plain()),
{
    a.and(b)
}

/// Two-input NAND cell.
pub fn nand2<W: Wire>(a: &W, b: &W) -> (r: W)
    ensures
        r.plain() == !(a.plain() && b.plain()),
{
    a.and(b).not()
}

/// Two-input OR cell.
pub fn or2<W: Wire>(a: &W, b: &W) -> (r: W)
    ensures
        r.plain() == (a.plain() || b.plain()),
{
    a.or(b)
}

/// Two-input NOR cell.
pub fn nor2<W: Wire>(a: &W, b: &W) -> (r: W)
    ensures
        r.plain() == !(a.plain() || b.plain()),
{
    a.or(b).not()
}

/// Two-input XOR cell.
pub fn xor2<W: Wire>(a: &W, b: &W) -> (r: W)
    ensures
        r.plain() == (a.plain() != b.plain()),
{
    a.xor(b)
}

/// Two-input XNOR (equivalence) cell.
pub fn xnor2<W: Wire>(a: &W, b: &W) -> (r: W)
    ensures
        r.plain() == (a.plain() == b.plain()),
{
    a.xor(b).not()
}

/// Evaluates an inverter cell.
pub fn inv<W: Wire>(a: &W) -> (r: W)
    ensures
        r.plain() == !a.plain(),
{
    a.not()
}

} // verus!

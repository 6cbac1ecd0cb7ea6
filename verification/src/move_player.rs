//! Moving a player one cell on the 4 x 4 board.
use vstd::prelude::*;
use crate::wire::{Wire, and2, nand2, or2, xor2, xnor2, inv, plains};
use crate::board::{moved, coord_x, coord_y};

verus! {

/// Moves the player at `coords` one step in `direction` on the 4 x 4 board,
/// wrapping around at the edges; returns the new position.
///
/// Positions are 16 bits (row in bits 0..8, column in bits 8..16); the move is
/// given by the two low bits of `direction` (see [`moved`]). Bits of
/// `direction` past the second are not read.
#[verifier::rlimit(100)]
pub fn move_player<W: Wire>(coords: &Vec<W>, direction: &Vec<W>) -> (out: Vec<W>)
    requires
        coords.len() >= 16,
        direction.len() >= 2,
    ensures
        out.len() == 16,
        coord_x(plains(out@)) == moved(plains(coords@), plains(direction@), 4).0,
        coord_y(plains(out@)) == moved(plains(coords@), plains(direction@), 4).1,
{
    let c0 = &coords[0];
    let c1 = &coords[1];
    let c2 = &coords[2];
    let c3 = &coords[3];
    let c4 = &coords[4];
    let c5 = &coords[5];
    let c6 = &coords[6];
    let c7 = &coords[7];
    let c8 = &coords[8];
    let c9 = &coords[9];
    let c10 = &coords[10];
    let c11 = &coords[11];
    let c12 = &coords[12];
    let c13 = &coords[13];
    let c14 = &coords[14];
    let c15 = &coords[15];
    let d0 = &direction[0];
    let d1 = &direction[1];
    // level 0
    let t2 = inv(d1);
    // level 1
    let t1 = inv(c0);
    let t4 = nand2(&t2, d0);
    let t5 = or2(d1, d0);
    // level 2
    let t6 = nand2(&t1, &t5);
    let t7 = nand2(c0, &t4);
    let t9 = xnor2(d0, c8);
    // level 3
    let t0 = inv(c1);
    let t3 = inv(c9);
    let t8 = and2(&t6, &t7);
    let t10 = and2(d1, &t9);
    // level 4
    let o0 = xnor2(c0, d1);
    let o1 = xnor2(&t0, &t8);
    let o2 = and2(d1, c2);
    let o3 = and2(d1, c3);
    let o4 = and2(d1, c4);
    let o5 = and2(d1, c5);
    let o6 = and2(d1, c6);
    let o7 = and2(d1, c7);
    let o8 = xor2(d1, c8);
    let o9 = xnor2(&t3, &t10);
    let o10 = and2(&t2, c10);
    let o11 = and2(&t2, c11);
    let o12 = and2(&t2, c12);
    let o13 = and2(&t2, c13);
    let o14 = and2(&t2, c14);
    let o15 = and2(&t2, c15);
    let mut out: Vec<W> = Vec::new();
    out.push(o0);
    out.push(o1);
    out.push(o2);
    out.push(o3);
    out.push(o4);
    out.push(o5);
    out.push(o6);
    out.push(o7);
    out.push(o8);
    out.push(o9);
    out.push(o10);
    out.push(o11);
    out.push(o12);
    out.push(o13);
    out.push(o14);
    out.push(o15);
    out
}

} // verus!

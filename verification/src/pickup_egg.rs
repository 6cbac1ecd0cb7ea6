//! Picking up the egg on the player's cell.
use vstd::prelude::*;
use crate::wire::{Wire, and2, nand2, nor2, inv, plains};
use crate::board::picked;

verus! {

/// Picks up the egg at the player's position: output bit `i` is the egg state
/// of cell `i` afterwards (see [`picked`]).
///
/// `coords` holds the player's position (row in bits 0..8, column in bits
/// 8..16) and `eggs` one bit per cell, cell `4 * row + column` at index
/// `4 * row + column`.
pub fn pickup_egg<W: Wire>(coords: &Vec<W>, eggs: &Vec<W>) -> (out: Vec<W>)
    requires
        coords.len() >= 16,
        eggs.len() >= 16,
    ensures
        out.len() == 16,
        plains(out@) == picked(plains(eggs@).take(16), plains(coords@).take(16)),
{
    let e0 = &eggs[0];
    let e1 = &eggs[1];
    let e2 = &eggs[2];
    let e3 = &eggs[3];
    let e4 = &eggs[4];
    let e5 = &eggs[5];
    let e6 = &eggs[6];
    let e7 = &eggs[7];
    let e8 = &eggs[8];
    let e9 = &eggs[9];
    let e10 = &eggs[10];
    let e11 = &eggs[11];
    let e12 = &eggs[12];
    let e13 = &eggs[13];
    let e14 = &eggs[14];
    let e15 = &eggs[15];
    let c0 = &coords[0];
    let c1 = &coords[1];
    let c2 = &coords[2];
    let c3 = &coords[3];
    let c4 = &coords[4];
    let c5 = &coords[5];
    let c6 = &coords[6];
    let c7 = &coords[7];
    let c8 = &coords[8];
    let c9 = &coords[9];
    let c10 = &coords[10];
    let c11 = &coords[11];
    let c12 = &coords[12];
    let c13 = &coords[13];
    let c14 = &coords[14];
    let c15 = &coords[15];
    // level 0
    let t11 = nor2(c6, c7);
    let t12 = nor2(c4, c5);
    let t18 = nor2(c12, c13);
    let t19 = nor2(c14, c15);
    // level 1
    let t5 = inv(c8);
    let t6 = inv(c9);
    let t7 = inv(c0);
    let t8 = inv(c1);
    let t9 = nor2(c2, c3);
    let t13 = and2(&t11, &t12);
    let t16 = nor2(c10, c11);
    let t20 = and2(&t18, &t19);
    // level 2
    let t10 = and2(&t7, &t9);
    let t14 = and2(&t8, &t13);
    let t17 = and2(&t5, &t16);
    let t21 = and2(&t6, &t20);
    let t24 = and2(c8, &t16);
    let t27 = and2(c9, &t20);
    let t32 = and2(c0, &t9);
    let t38 = and2(c1, &t13);
    // level 3
    let t15 = and2(&t10, &t14);
    let t22 = and2(&t17, &t21);
    let t25 = and2(&t21, &t24);
    let t28 = and2(&t17, &t27);
    let t30 = and2(&t24, &t27);
    let t33 = and2(&t14, &t32);
    let t39 = and2(&t10, &t38);
    let t0 = and2(&t32, &t38);
    // level 4
    let t23 = nand2(&t15, &t22);
    let t26 = nand2(&t15, &t25);
    let t29 = nand2(&t15, &t28);
    let t31 = nand2(&t15, &t30);
    let t34 = nand2(&t22, &t33);
    let t35 = nand2(&t25, &t33);
    let t36 = nand2(&t28, &t33);
    let t37 = nand2(&t30, &t33);
    let t40 = nand2(&t22, &t39);
    let t41 = nand2(&t25, &t39);
    let t42 = nand2(&t28, &t39);
    let t43 = nand2(&t30, &t39);
    let t1 = nand2(&t22, &t0);
    let t2 = nand2(&t25, &t0);
    let t3 = nand2(&t28, &t0);
    let t4 = nand2(&t30, &t0);
    // level 5
    let o0 = and2(e0, &t23);
    let o1 = and2(e1, &t26);
    let o2 = and2(e2, &t29);
    let o3 = and2(e3, &t31);
    let o4 = and2(e4, &t34);
    let o5 = and2(e5, &t35);
    let o6 = and2(e6, &t36);
    let o7 = and2(e7, &t37);
    let o8 = and2(e8, &t40);
    let o9 = and2(e9, &t41);
    let o10 = and2(e10, &t42);
    let o11 = and2(e11, &t43);
    let o12 = and2(e12, &t1);
    let o13 = and2(e13, &t2);
    let o14 = and2(e14, &t3);
    let o15 = and2(e15, &t4);
    let mut out: Vec<W> = Vec::new();
    out.push(o0);
    out.push(o1);
    out.push(o2);
    out.push(o3);
    out.push(o4);
    out.push(o5);
    out.push(o6);
    out.push(o7);
    out.push(o8);
    out.push(o9);
    out.push(o10);
    out.push(o11);
    out.push(o12);
    out.push(o13);
    out.push(o14);
    out.push(o15);
    proof {
        assert(plains(out@) =~= picked(plains(eggs@).take(16), plains(coords@).take(16)));
    }
    out
}

} // verus!

//! Laying an egg on the player's cell.
use vstd::prelude::*;
use crate::wire::{Wire, and2, nand2, nor2, inv, plains};
use crate::board::laid;

verus! {

/// Lays an egg at the player's position: output bit `i` is the egg state of
/// cell `i` afterwards (see [`laid`]).
///
/// `coords` holds the player's position (row in bits 0..8, column in bits
/// 8..16) and `eggs` one bit per cell, cell `4 * row + column` at index
/// `4 * row + column`.
pub fn lay_egg<W: Wire>(coords: &Vec<W>, eggs: &Vec<W>) -> (out: Vec<W>)
    requires
        coords.len() >= 16,
        eggs.len() >= 16,
    ensures
        out.len() == 16,
        plains(out@) == laid(plains(eggs@).take(16), plains(coords@).take(16)),
{
    let e0 = &eggs[0];
    let e1 = &eggs[1];
    let e2 = &eggs[2];
    let e3 = &eggs[3];
    let e4 = &eggs[4];
    let e5 = &eggs[5];
    let e6 = &eggs[6];
    let e7 = &eggs[7];
    let e8 = &eggs[8];
    let e9 = &eggs[9];
    let e10 = &eggs[10];
    let e11 = &eggs[11];
    let e12 = &eggs[12];
    let e13 = &eggs[13];
    let e14 = &eggs[14];
    let e15 = &eggs[15];
    let c0 = &coords[0];
    let c1 = &coords[1];
    let c2 = &coords[2];
    let c3 = &coords[3];
    let c4 = &coords[4];
    let c5 = &coords[5];
    let c6 = &coords[6];
    let c7 = &coords[7];
    let c8 = &coords[8];
    let c9 = &coords[9];
    let c10 = &coords[10];
    let c11 = &coords[11];
    let c12 = &coords[12];
    let c13 = &coords[13];
    let c14 = &coords[14];
    let c15 = &coords[15];
    // level 0
    let t36 = nor2(c6, c7);
    let t37 = nor2(c4, c5);
    let t43 = nor2(c12, c13);
    let t44 = nor2(c14, c15);
    // level 1
    let t14 = inv(c8);
    let t15 = inv(c9);
    let t16 = inv(c0);
    let t17 = inv(c1);
    let t34 = nor2(c2, c3);
    let t38 = and2(&t36, &t37);
    let t41 = nor2(c10, c11);
    let t45 = and2(&t43, &t44);
    // level 2
    let t35 = and2(&t16, &t34);
    let t39 = and2(&t17, &t38);
    let t42 = and2(&t14, &t41);
    let t46 = and2(&t15, &t45);
    let t49 = and2(c8, &t41);
    let t52 = and2(c9, &t45);
    let t57 = and2(c0, &t34);
    let t3 = and2(c1, &t38);
    // level 3
    let t40 = and2(&t35, &t39);
    let t47 = and2(&t42, &t46);
    let t50 = and2(&t46, &t49);
    let t53 = and2(&t42, &t52);
    let t55 = and2(&t49, &t52);
    let t58 = and2(&t39, &t57);
    let t4 = and2(&t35, &t3);
    let t9 = and2(&t57, &t3);
    // level 4
    let t18 = inv(e0);
    let t19 = inv(e1);
    let t20 = inv(e2);
    let t21 = inv(e3);
    let t22 = inv(e4);
    let t23 = inv(e5);
    let t24 = inv(e6);
    let t25 = inv(e7);
    let t26 = inv(e8);
    let t27 = inv(e9);
    let t28 = inv(e10);
    let t29 = inv(e11);
    let t30 = inv(e12);
    let t31 = inv(e13);
    let t32 = inv(e14);
    let t33 = inv(e15);
    let t48 = nand2(&t40, &t47);
    let t51 = nand2(&t40, &t50);
    let t54 = nand2(&t40, &t53);
    let t56 = nand2(&t40, &t55);
    let t59 = nand2(&t47, &t58);
    let t0 = nand2(&t50, &t58);
    let t1 = nand2(&t53, &t58);
    let t2 = nand2(&t55, &t58);
    let t5 = nand2(&t47, &t4);
    let t6 = nand2(&t50, &t4);
    let t7 = nand2(&t53, &t4);
    let t8 = nand2(&t55, &t4);
    let t10 = nand2(&t47, &t9);
    let t11 = nand2(&t50, &t9);
    let t12 = nand2(&t53, &t9);
    let t13 = nand2(&t55, &t9);
    // level 5
    let o0 = nand2(&t18, &t48);
    let o1 = nand2(&t19, &t51);
    let o2 = nand2(&t20, &t54);
    let o3 = nand2(&t21, &t56);
    let o4 = nand2(&t22, &t59);
    let o5 = nand2(&t23, &t0);
    let o6 = nand2(&t24, &t1);
    let o7 = nand2(&t25, &t2);
    let o8 = nand2(&t26, &t5);
    let o9 = nand2(&t27, &t6);
    let o10 = nand2(&t28, &t7);
    let o11 = nand2(&t29, &t8);
    let o12 = nand2(&t30, &t10);
    let o13 = nand2(&t31, &t11);
    let o14 = nand2(&t32, &t12);
    let o15 = nand2(&t33, &t13);
    let mut out: Vec<W> = Vec::new();
    out.push(o0);
    out.push(o1);
    out.push(o2);
    out.push(o3);
    out.push(o4);
    out.push(o5);
    out.push(o6);
    out.push(o7);
    out.push(o8);
    out.push(o9);
    out.push(o10);
    out.push(o11);
    out.push(o12);
    out.push(o13);
    out.push(o14);
    out.push(o15);
    proof {
        assert(plains(out@) =~= laid(plains(eggs@).take(16), plains(coords@).take(16)));
    }
    out
}

} // verus!

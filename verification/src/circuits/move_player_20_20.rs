//! Moving a player one cell on a 20 x 20 board.
use vstd::prelude::*;
use crate::wire::{Wire, and2, nand2, or2, nor2, xor2, xnor2, inv, plains};
use crate::board::{moved, coord_x, coord_y, lemma_moved_by_values};
use crate::encoding::b2n;

verus! {

/// Evaluates the netlist; the new row and column are stated over the bits.
#[verifier::spinoff_prover]
#[verifier::rlimit(100)]
fn netlist<W: Wire>(coords: &Vec<W>, direction: &Vec<W>) -> (out: Vec<W>)
    requires
        coords.len() >= 16,
        direction.len() >= 2,
    ensures
        out.len() == 16,
        1 * b2n(out@[0].plain()) + 2 * b2n(out@[1].plain()) + 4 * b2n(out@[2].plain()) + 8 * b2n(out@[3].plain()) + 16 * b2n(out@[4].plain()) + 32 * b2n(out@[5].plain()) + 64 * b2n(out@[6].plain()) + 128 * b2n(out@[7].plain()) == (if !direction@[1].plain() {
            if direction@[0].plain() { ((1 * b2n(coords@[0].plain()) + 2 * b2n(coords@[1].plain()) + 4 * b2n(coords@[2].plain()) + 8 * b2n(coords@[3].plain()) + 16 * b2n(coords@[4].plain()) + 32 * b2n(coords@[5].plain()) + 64 * b2n(coords@[6].plain()) + 128 * b2n(coords@[7].plain())) + 1) % 20 } else { ((1 * b2n(coords@[0].plain()) + 2 * b2n(coords@[1].plain()) + 4 * b2n(coords@[2].plain()) + 8 * b2n(coords@[3].plain()) + 16 * b2n(coords@[4].plain()) + 32 * b2n(coords@[5].plain()) + 64 * b2n(coords@[6].plain()) + 128 * b2n(coords@[7].plain())) + 19) % 20 }
        } else {
            1 * b2n(coords@[0].plain()) + 2 * b2n(coords@[1].plain()) + 4 * b2n(coords@[2].plain()) + 8 * b2n(coords@[3].plain()) + 16 * b2n(coords@[4].plain()) + 32 * b2n(coords@[5].plain()) + 64 * b2n(coords@[6].plain()) + 128 * b2n(coords@[7].plain())
        }),
        1 * b2n(out@[8].plain()) + 2 * b2n(out@[9].plain()) + 4 * b2n(out@[10].plain()) + 8 * b2n(out@[11].plain()) + 16 * b2n(out@[12].plain()) + 32 * b2n(out@[13].plain()) + 64 * b2n(out@[14].plain()) + 128 * b2n(out@[15].plain()) == (if direction@[1].plain() {
            if direction@[0].plain() { ((1 * b2n(coords@[8].plain()) + 2 * b2n(coords@[9].plain()) + 4 * b2n(coords@[10].plain()) + 8 * b2n(coords@[11].plain()) + 16 * b2n(coords@[12].plain()) + 32 * b2n(coords@[13].plain()) + 64 * b2n(coords@[14].plain()) + 128 * b2n(coords@[15].plain())) + 1) % 20 } else { ((1 * b2n(coords@[8].plain()) + 2 * b2n(coords@[9].plain()) + 4 * b2n(coords@[10].plain()) + 8 * b2n(coords@[11].plain()) + 16 * b2n(coords@[12].plain()) + 32 * b2n(coords@[13].plain()) + 64 * b2n(coords@[14].plain()) + 128 * b2n(coords@[15].plain())) + 19) % 20 }
        } else {
            1 * b2n(coords@[8].plain()) + 2 * b2n(coords@[9].plain()) + 4 * b2n(coords@[10].plain()) + 8 * b2n(coords@[11].plain()) + 16 * b2n(coords@[12].plain()) + 32 * b2n(coords@[13].plain()) + 64 * b2n(coords@[14].plain()) + 128 * b2n(coords@[15].plain())
        }),
{
    let c0 = &coords[0];
    let c1 = &coords[1];
    let c2 = &coords[2];
    let c3 = &coords[3];
    let c4 = &coords[4];
    let c5 = &coords[5];
    let c6 = &coords[6];
    let c7 = &coords[7];
    let c8 = &coords[8];
    let c9 = &coords[9];
    let c10 = &coords[10];
    let c11 = &coords[11];
    let c12 = &coords[12];
    let c13 = &coords[13];
    let c14 = &coords[14];
    let c15 = &coords[15];
    let d0 = &direction[0];
    let d1 = &direction[1];
    // level 0
    let t249 = inv(c2);
    let t252 = inv(c10);
    let t16 = nor2(c1, c0);
    let t101 = nor2(c9, c8);
    let t163 = and2(c9, c8);
    // level 1
    let t263 = and2(c1, c0);
    let t17 = nor2(&t249, &t16);
    let t102 = nor2(&t252, &t101);
    let t164 = and2(c10, &t163);
    // level 2
    let t243 = inv(c4);
    let t246 = inv(c12);
    let t264 = and2(c2, &t263);
    let t20 = nand2(c3, &t17);
    let t104 = nand2(c11, &t102);
    let t167 = and2(c11, &t164);
    // level 3
    let t250 = inv(c5);
    let t253 = inv(c13);
    let t266 = and2(c3, &t264);
    let t21 = and2(&t243, &t20);
    let t105 = and2(&t246, &t104);
    let t168 = and2(c12, &t167);
    // level 4
    let t251 = inv(c7);
    let t255 = inv(c15);
    let t267 = and2(c4, &t266);
    let t269 = nor2(c5, c6);
    let t23 = nor2(&t250, &t21);
    let t24 = and2(&t250, &t21);
    let t107 = nand2(c14, c15);
    let t108 = nor2(&t253, &t105);
    let t110 = and2(&t253, &t105);
    let t170 = nor2(c13, &t168);
    let t171 = and2(c13, &t168);
    // level 5
    let t254 = inv(c14);
    let t272 = and2(c5, &t267);
    let t273 = xnor2(c5, &t267);
    let t25 = xnor2(c5, &t21);
    let t27 = or2(&t251, &t269);
    let t32 = and2(&t251, &t23);
    let t35 = nand2(c7, &t24);
    let t109 = nand2(&t255, &t108);
    let t111 = nand2(&t107, &t110);
    let t113 = xnor2(c13, &t105);
    let t172 = xnor2(&t253, &t168);
    let t174 = and2(&t255, &t171);
    let t175 = and2(&t107, &t170);
    // level 6
    let t274 = and2(c7, &t273);
    let t279 = nand2(c6, &t272);
    let t26 = nand2(&t251, &t25);
    let t28 = or2(&t25, &t27);
    let t33 = nand2(c6, &t32);
    let t36 = and2(c6, &t35);
    let t112 = and2(&t109, &t111);
    let t114 = nand2(c15, &t113);
    let t119 = nand2(&t254, &t109);
    let t120 = nand2(c15, &t110);
    let t173 = nand2(c15, &t172);
    let t176 = nor2(&t174, &t175);
    let t181 = nand2(c15, &t170);
    let t182 = xnor2(&t254, &t174);
    // level 7
    let t270 = nand2(c7, &t269);
    let t280 = nand2(&t274, &t279);
    let t282 = or2(c7, &t279);
    let t22 = xnor2(c4, &t20);
    let t29 = and2(&t26, &t28);
    let t34 = inv(&t33);
    let t37 = nor2(&t32, &t36);
    let t106 = xnor2(c12, &t104);
    let t115 = nand2(&t112, &t114);
    let t118 = or2(&t254, &t109);
    let t121 = and2(&t119, &t120);
    let t169 = xnor2(c12, &t167);
    let t177 = nand2(&t173, &t176);
    let t183 = nand2(&t181, &t182);
    // level 8
    let t271 = or2(&t267, &t270);
    let t275 = xnor2(c7, &t273);
    let t281 = or2(c6, &t272);
    let t283 = and2(&t280, &t282);
    let t31 = nand2(&t22, &t29);
    let t38 = nor2(&t34, &t37);
    let t40 = or2(c6, &t35);
    let t117 = nand2(&t106, &t115);
    let t123 = and2(&t118, &t121);
    let t125 = or2(c14, &t120);
    let t179 = nand2(&t169, &t177);
    let t180 = nand2(c14, &t174);
    let t184 = inv(&t183);
    let t186 = or2(c14, &t181);
    // level 9
    let t268 = xnor2(c4, &t266);
    let t276 = nand2(&t271, &t275);
    let t284 = nand2(&t281, &t283);
    let t39 = nand2(&t31, &t38);
    let t41 = and2(&t33, &t40);
    let t122 = nand2(&t119, &t120);
    let t124 = nand2(&t117, &t123);
    let t126 = and2(&t118, &t125);
    let t185 = nand2(&t179, &t184);
    let t187 = and2(&t180, &t186);
    // level 10
    let t278 = nand2(&t268, &t276);
    let t285 = inv(&t284);
    let t42 = nand2(&t39, &t41);
    let t44 = nand2(&t37, &t41);
    let t127 = nand2(&t124, &t126);
    let t129 = nand2(&t122, &t125);
    let t188 = nand2(&t185, &t187);
    let t190 = nand2(&t183, &t187);
    // level 11
    let t286 = nand2(&t278, &t285);
    let t287 = and2(&t271, &t282);
    let t30 = inv(&t29);
    let t43 = nand2(&t22, &t42);
    let t45 = or2(&t22, &t44);
    let t116 = inv(&t115);
    let t128 = nand2(&t106, &t127);
    let t130 = or2(&t106, &t129);
    let t178 = inv(&t177);
    let t189 = nand2(&t169, &t188);
    let t191 = or2(&t169, &t190);
    // level 12
    let t288 = nand2(&t286, &t287);
    let t290 = nand2(&t284, &t287);
    let t46 = and2(&t43, &t45);
    let t48 = xnor2(c3, &t17);
    let t49 = nand2(&t30, &t43);
    let t50 = or2(&t31, &t41);
    let t131 = and2(&t128, &t130);
    let t133 = xnor2(c11, &t102);
    let t134 = nand2(&t116, &t128);
    let t135 = or2(&t117, &t126);
    let t192 = and2(&t189, &t191);
    let t194 = xnor2(c11, &t164);
    let t195 = or2(&t179, &t187);
    let t196 = nand2(&t178, &t189);
    // level 13
    let t277 = inv(&t276);
    let t289 = nand2(&t268, &t288);
    let t291 = or2(&t268, &t290);
    let t51 = and2(&t49, &t50);
    let t52 = and2(&t46, &t48);
    let t54 = and2(&t39, &t50);
    let t136 = and2(&t134, &t135);
    let t137 = and2(&t131, &t133);
    let t139 = and2(&t124, &t129);
    let t197 = and2(&t195, &t196);
    let t198 = and2(&t192, &t194);
    let t200 = and2(&t185, &t195);
    // level 14
    let t292 = and2(&t289, &t291);
    let t294 = xnor2(c3, &t264);
    let t295 = nand2(&t277, &t289);
    let t296 = or2(&t278, &t287);
    let t53 = or2(&t51, &t52);
    let t55 = nand2(&t44, &t54);
    let t138 = or2(&t136, &t137);
    let t140 = nand2(&t124, &t129);
    let t142 = nand2(&t135, &t139);
    let t199 = or2(&t197, &t198);
    let t201 = nand2(&t190, &t200);
    // level 15
    let t297 = and2(&t295, &t296);
    let t298 = and2(&t292, &t294);
    let t300 = and2(&t286, &t290);
    let t57 = nand2(&t53, &t55);
    let t62 = nand2(&t51, &t55);
    let t143 = nand2(&t138, &t142);
    let t148 = nand2(&t136, &t140);
    let t203 = nand2(&t199, &t201);
    let t208 = nand2(&t197, &t201);
    // level 16
    let t299 = or2(&t297, &t298);
    let t301 = nand2(&t286, &t290);
    let t303 = nand2(&t296, &t300);
    let t47 = inv(&t46);
    let t56 = inv(&t55);
    let t58 = nand2(&t48, &t57);
    let t68 = or2(&t48, &t62);
    let t132 = inv(&t131);
    let t141 = and2(&t135, &t139);
    let t144 = nand2(&t133, &t143);
    let t154 = or2(&t133, &t148);
    let t193 = inv(&t192);
    let t202 = inv(&t201);
    let t204 = nand2(&t194, &t203);
    let t214 = or2(&t194, &t208);
    // level 17
    let t304 = nand2(&t299, &t303);
    let t3 = nand2(&t295, &t301);
    let t18 = xnor2(&t249, &t16);
    let t59 = nand2(&t47, &t58);
    let t60 = nand2(&t52, &t56);
    let t69 = and2(&t58, &t68);
    let t103 = xnor2(&t252, &t101);
    let t145 = nand2(&t132, &t144);
    let t146 = nand2(&t137, &t141);
    let t155 = and2(&t144, &t154);
    let t165 = xnor2(c10, &t163);
    let t205 = nand2(&t193, &t204);
    let t206 = nand2(&t198, &t202);
    let t215 = and2(&t204, &t214);
    // level 18
    let t293 = inv(&t292);
    let t302 = and2(&t296, &t300);
    let t305 = nand2(&t294, &t304);
    let t8 = or2(&t294, &t3);
    let t61 = and2(&t59, &t60);
    let t63 = and2(&t53, &t62);
    let t71 = and2(&t18, &t69);
    let t147 = and2(&t145, &t146);
    let t149 = and2(&t138, &t148);
    let t157 = and2(&t103, &t155);
    let t207 = and2(&t205, &t206);
    let t209 = and2(&t199, &t208);
    let t217 = and2(&t165, &t215);
    // level 19
    let t265 = xnor2(c2, &t263);
    let t0 = nand2(&t293, &t305);
    let t1 = nand2(&t298, &t302);
    let t9 = and2(&t305, &t8);
    let t64 = nand2(&t60, &t63);
    let t72 = or2(&t61, &t71);
    let t150 = nand2(&t146, &t149);
    let t158 = or2(&t147, &t157);
    let t210 = nand2(&t206, &t209);
    let t218 = or2(&t207, &t217);
    // level 20
    let t2 = and2(&t0, &t1);
    let t4 = and2(&t299, &t3);
    let t10 = and2(&t265, &t9);
    let t73 = nand2(&t64, &t72);
    let t159 = nand2(&t150, &t158);
    let t219 = nand2(&t210, &t218);
    // level 21
    let t248 = inv(d0);
    let t258 = nor2(d1, d0);
    let t5 = nand2(&t1, &t4);
    let t11 = or2(&t2, &t10);
    let t19 = inv(&t18);
    let t65 = inv(&t64);
    let t66 = and2(&t61, &t64);
    let t70 = inv(&t69);
    let t74 = nand2(&t18, &t73);
    let t151 = inv(&t150);
    let t152 = nand2(&t147, &t150);
    let t156 = inv(&t155);
    let t160 = nand2(&t103, &t159);
    let t166 = inv(&t165);
    let t211 = inv(&t210);
    let t212 = and2(&t207, &t210);
    let t216 = inv(&t215);
    let t220 = nand2(&t165, &t219);
    // level 22
    let t245 = inv(d1);
    let t259 = inv(&t258);
    let t6 = nand2(&t2, &t5);
    let t12 = nand2(&t5, &t11);
    let t67 = nand2(&t19, &t66);
    let t83 = nand2(&t65, &t71);
    let t84 = nand2(&t70, &t74);
    let t98 = and2(d1, &t248);
    let t153 = or2(&t103, &t152);
    let t213 = nand2(&t166, &t212);
    let t225 = nand2(&t156, &t160);
    let t226 = nand2(&t151, &t157);
    let t229 = nand2(&t216, &t220);
    let t230 = nand2(&t211, &t217);
    // level 23
    let t247 = inv(c8);
    let t256 = nand2(&t245, c0);
    let t262 = and2(&t245, d0);
    let t7 = nor2(&t265, &t6);
    let t13 = and2(&t265, &t12);
    let t75 = nand2(&t67, &t74);
    let t85 = nand2(&t83, &t84);
    let t88 = and2(&t6, &t11);
    let t92 = nor2(&t259, &t66);
    let t93 = and2(&t72, &t83);
    let t96 = and2(d1, d0);
    let t161 = nand2(&t153, &t160);
    let t221 = nand2(&t213, &t220);
    let t227 = nand2(&t225, &t226);
    let t231 = nand2(&t229, &t230);
    let t235 = and2(&t98, &t152);
    let t236 = and2(&t158, &t226);
    let t238 = and2(&t218, &t230);
    // level 24
    let t257 = nand2(&t248, c0);
    let t260 = nand2(&t256, &t259);
    let t14 = or2(&t7, &t13);
    let t76 = nand2(&t258, &t75);
    let t77 = nand2(d1, c2);
    let t79 = nand2(&t9, &t13);
    let t80 = xnor2(&t9, &t13);
    let t82 = nand2(d1, c3);
    let t86 = nand2(&t258, &t85);
    let t89 = and2(&t262, &t88);
    let t91 = nand2(c4, d1);
    let t94 = nand2(&t92, &t93);
    let t97 = nand2(c8, &t96);
    let t99 = nand2(&t247, &t98);
    let t162 = nand2(&t98, &t161);
    let t222 = nand2(&t96, &t221);
    let t228 = nand2(&t98, &t227);
    let t232 = nand2(&t96, &t231);
    let t237 = nand2(&t235, &t236);
    let t239 = nand2(&t96, &t238);
    let t241 = nand2(&t245, c12);
    // level 25
    let t244 = inv(c1);
    let t261 = and2(&t257, &t260);
    let t15 = nand2(&t262, &t14);
    let t78 = and2(&t76, &t77);
    let t81 = nand2(&t262, &t80);
    let t87 = and2(&t82, &t86);
    let t90 = nand2(&t79, &t89);
    let t95 = and2(&t91, &t94);
    let t100 = and2(&t97, &t99);
    let t223 = nand2(&t245, c10);
    let t224 = and2(&t162, &t222);
    let t233 = nand2(&t245, c11);
    let t234 = and2(&t228, &t232);
    let t240 = or2(&t212, &t239);
    let t242 = and2(&t237, &t241);
    // level 26
    let o0 = xnor2(d1, c0);
    let o1 = xnor2(&t244, &t261);
    let o2 = nand2(&t15, &t78);
    let o3 = nand2(&t81, &t87);
    let o4 = nand2(&t90, &t95);
    let o5 = and2(d1, c5);
    let o6 = and2(d1, c6);
    let o7 = and2(d1, c7);
    let o8 = xor2(d1, c8);
    let o9 = xnor2(c9, &t100);
    let o10 = nand2(&t223, &t224);
    let o11 = nand2(&t233, &t234);
    let o12 = nand2(&t240, &t242);
    let o13 = and2(&t245, c13);
    let o14 = and2(&t245, c14);
    let o15 = and2(&t245, c15);
    let out: Vec<W> = vec![o0, o1, o2, o3, o4, o5, o6, o7, o8, o9, o10, o11, o12, o13, o14, o15];
    out
}

/// Moves the player at `coords` one step in `direction` on a 20 x 20 board,
/// wrapping around at the edges; returns the new position.
///
/// Positions are 16 bits (row in bits 0..8, column in bits 8..16); the move is
/// given by the two low bits of `direction` (see [`moved`]). Bits of
/// `direction` past the second are not read.
pub fn move_player<W: Wire>(coords: &Vec<W>, direction: &Vec<W>) -> (out: Vec<W>)
    requires
        coords.len() >= 16,
        direction.len() >= 2,
    ensures
        out.len() == 16,
        coord_x(plains(out@)) == moved(plains(coords@), plains(direction@), 20).0,
        coord_y(plains(out@)) == moved(plains(coords@), plains(direction@), 20).1,
{
    let out = netlist(coords, direction);
    proof {
        let c = plains(coords@);
        let d = plains(direction@);
        let o = plains(out@);
        assert forall|k: int| 0 <= k < 16 implies o[k] == out@[k].plain() && c[k] == coords@[k].plain() by {}
        assert(d[0] == direction@[0].plain() && d[1] == direction@[1].plain());
        lemma_moved_by_values(c, d, o, 20);
    }
    out
}

} // verus!

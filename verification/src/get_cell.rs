//! Looking at the player's cell.
use vstd::prelude::*;
use crate::wire::{Wire, and2, nand2, nor2, xnor2, inv, plains};
use crate::board::{cell_report, player_at, on_board, cell_index, lemma_on_board_bits, lemma_player_at_bits};

verus! {

/// Reports what is on the cell at `coords`: bit `j < 4` tells whether player
/// `j` stands there, bit 4 whether the cell holds an egg.
///
/// `players` is the concatenation of the four players' 16-bit positions,
/// `eggs` one bit per cell.
#[verifier::rlimit(50)]
pub fn get_cell<W: Wire>(coords: &Vec<W>, eggs: &Vec<W>, players: &Vec<W>) -> (out: Vec<W>)
    requires
        coords.len() >= 16,
        eggs.len() >= 16,
        players.len() >= 64,
    ensures
        out.len() == 5,
        plains(out@) == cell_report(
            plains(players@).take(64),
            plains(eggs@).take(16),
            plains(coords@).take(16),
        ),
{
    let p0 = &players[0];
    let p1 = &players[1];
    let p2 = &players[2];
    let p3 = &players[3];
    let p4 = &players[4];
    let p5 = &players[5];
    let p6 = &players[6];
    let p7 = &players[7];
    let p8 = &players[8];
    let p9 = &players[9];
    let p10 = &players[10];
    let p11 = &players[11];
    let p12 = &players[12];
    let p13 = &players[13];
    let p14 = &players[14];
    let p15 = &players[15];
    let p16 = &players[16];
    let p17 = &players[17];
    let p18 = &players[18];
    let p19 = &players[19];
    let p20 = &players[20];
    let p21 = &players[21];
    let p22 = &players[22];
    let p23 = &players[23];
    let p24 = &players[24];
    let p25 = &players[25];
    let p26 = &players[26];
    let p27 = &players[27];
    let p28 = &players[28];
    let p29 = &players[29];
    let p30 = &players[30];
    let p31 = &players[31];
    let p32 = &players[32];
    let p33 = &players[33];
    let p34 = &players[34];
    let p35 = &players[35];
    let p36 = &players[36];
    let p37 = &players[37];
    let p38 = &players[38];
    let p39 = &players[39];
    let p40 = &players[40];
    let p41 = &players[41];
    let p42 = &players[42];
    let p43 = &players[43];
    let p44 = &players[44];
    let p45 = &players[45];
    let p46 = &players[46];
    let p47 = &players[47];
    let p48 = &players[48];
    let p49 = &players[49];
    let p50 = &players[50];
    let p51 = &players[51];
    let p52 = &players[52];
    let p53 = &players[53];
    let p54 = &players[54];
    let p55 = &players[55];
    let p56 = &players[56];
    let p57 = &players[57];
    let p58 = &players[58];
    let p59 = &players[59];
    let p60 = &players[60];
    let p61 = &players[61];
    let p62 = &players[62];
    let p63 = &players[63];
    let e0 = &eggs[0];
    let e1 = &eggs[1];
    let e2 = &eggs[2];
    let e3 = &eggs[3];
    let e4 = &eggs[4];
    let e5 = &eggs[5];
    let e6 = &eggs[6];
    let e7 = &eggs[7];
    let e8 = &eggs[8];
    let e9 = &eggs[9];
    let e10 = &eggs[10];
    let e11 = &eggs[11];
    let e12 = &eggs[12];
    let e13 = &eggs[13];
    let e14 = &eggs[14];
    let e15 = &eggs[15];
    let c0 = &coords[0];
    let c1 = &coords[1];
    let c2 = &coords[2];
    let c3 = &coords[3];
    let c4 = &coords[4];
    let c5 = &coords[5];
    let c6 = &coords[6];
    let c7 = &coords[7];
    let c8 = &coords[8];
    let c9 = &coords[9];
    let c10 = &coords[10];
    let c11 = &coords[11];
    let c12 = &coords[12];
    let c13 = &coords[13];
    let c14 = &coords[14];
    let c15 = &coords[15];
    // level 0
    let t9 = nor2(c12, c13);
    let t10 = nor2(c14, c15);
    // level 1
    let t0 = inv(c9);
    let t1 = inv(c8);
    let t11 = and2(&t9, &t10);
    let t13 = nor2(c10, c11);
    let t17 = nor2(c4, c5);
    let t18 = nor2(c6, c7);
    // level 2
    let t12 = and2(&t1, &t11);
    let t14 = and2(c9, &t13);
    let t16 = nor2(c2, c3);
    let t19 = and2(&t17, &t18);
    let t32 = and2(&t0, &t13);
    let t36 = and2(c8, &t11);
    // level 3
    let t2 = inv(c1);
    let t15 = and2(&t12, &t14);
    let t20 = and2(&t16, &t19);
    let t33 = and2(&t12, &t32);
    let t37 = and2(&t14, &t36);
    let t40 = and2(&t32, &t36);
    // level 4
    let t3 = inv(c0);
    let t4 = inv(c5);
    let t5 = inv(p5);
    let t6 = inv(p21);
    let t7 = inv(p37);
    let t8 = inv(p53);
    let t21 = and2(&t2, &t20);
    let t39 = nand2(e14, &t15);
    let t41 = nand2(e13, &t40);
    let t45 = nand2(e8, &t33);
    let t47 = nand2(e9, &t40);
    let t48 = nand2(e11, &t37);
    let t54 = nand2(e3, &t37);
    let t55 = nand2(e0, &t33);
    let t60 = nand2(e4, &t33);
    let t61 = nand2(e5, &t40);
    // level 5
    let t24 = and2(c0, &t21);
    let t26 = and2(c1, &t20);
    let t27 = and2(&t3, e10);
    let t34 = nand2(e12, &t33);
    let t38 = nand2(e15, &t37);
    let t42 = and2(&t39, &t41);
    let t46 = and2(&t3, &t45);
    let t49 = and2(&t47, &t48);
    let t53 = nand2(e1, &t40);
    let t56 = and2(&t54, &t55);
    let t59 = nand2(e7, &t37);
    let t62 = and2(&t60, &t61);
    let t67 = xnor2(c3, p3);
    let t68 = xnor2(c4, p4);
    let t70 = xnor2(c13, p13);
    let t71 = xnor2(c6, p6);
    let t72 = xnor2(c7, p7);
    let t73 = xnor2(c12, p12);
    let t75 = xnor2(c15, p15);
    let t79 = nand2(&t4, p5);
    let t80 = nand2(c5, &t5);
    let t82 = xnor2(c8, p8);
    let t90 = xnor2(c2, p2);
    let t92 = xnor2(c9, p9);
    let t99 = xnor2(c15, p31);
    let t100 = nand2(c5, &t6);
    let t101 = xnor2(c12, p28);
    let t103 = xnor2(c6, p22);
    let t105 = xnor2(c13, p29);
    let t107 = nand2(&t4, p21);
    let t108 = xnor2(c8, p24);
    let t109 = xnor2(c4, p20);
    let t112 = xnor2(c3, p19);
    let t114 = xnor2(c7, p23);
    let t122 = xnor2(c2, p18);
    let t124 = xnor2(c9, p25);
    let t131 = nand2(c5, &t7);
    let t133 = xnor2(c7, p39);
    let t134 = xnor2(c9, p41);
    let t135 = xnor2(c12, p44);
    let t136 = nand2(&t4, p37);
    let t138 = xnor2(c6, p38);
    let t139 = xnor2(c3, p35);
    let t140 = xnor2(c13, p45);
    let t141 = xnor2(c4, p36);
    let t142 = xnor2(c14, p46);
    let t144 = xnor2(c15, p47);
    let t145 = xnor2(c11, p43);
    let t146 = xnor2(c8, p40);
    let t155 = xnor2(c2, p34);
    let t164 = xnor2(c7, p55);
    let t165 = xnor2(c15, p63);
    let t166 = nand2(&t4, p53);
    let t167 = nand2(c5, &t8);
    let t168 = xnor2(c6, p54);
    let t170 = xnor2(c13, p61);
    let t171 = xnor2(c2, p50);
    let t172 = xnor2(c3, p51);
    let t174 = xnor2(c4, p52);
    let t176 = xnor2(c8, p56);
    let t179 = xnor2(c12, p60);
    let t188 = xnor2(c9, p57);
    // level 6
    let t22 = and2(&t3, &t21);
    let t25 = nand2(e6, &t24);
    let t28 = nand2(&t26, &t27);
    let t35 = and2(c0, &t34);
    let t43 = and2(&t38, &t42);
    let t50 = nand2(&t46, &t49);
    let t57 = nand2(&t53, &t56);
    let t63 = nand2(&t59, &t62);
    let t76 = xnor2(c14, p14);
    let t77 = xnor2(c1, p1);
    let t81 = and2(&t67, &t71);
    let t83 = and2(&t68, &t73);
    let t85 = and2(&t70, &t72);
    let t91 = and2(&t79, &t90);
    let t93 = and2(&t82, &t92);
    let t95 = and2(&t75, &t80);
    let t106 = xnor2(c1, p17);
    let t110 = xnor2(c14, p30);
    let t113 = and2(&t103, &t112);
    let t115 = and2(&t101, &t109);
    let t117 = and2(&t105, &t114);
    let t123 = and2(&t107, &t122);
    let t125 = and2(&t108, &t124);
    let t127 = and2(&t99, &t100);
    let t132 = xnor2(c1, p33);
    let t148 = and2(&t138, &t139);
    let t149 = and2(&t135, &t141);
    let t151 = and2(&t133, &t140);
    let t152 = and2(&t142, &t145);
    let t156 = and2(&t136, &t155);
    let t157 = and2(&t134, &t146);
    let t159 = and2(&t131, &t144);
    let t173 = xnor2(c14, p62);
    let t177 = xnor2(c1, p49);
    let t178 = and2(&t168, &t172);
    let t180 = and2(&t174, &t179);
    let t182 = and2(&t164, &t170);
    let t187 = and2(&t166, &t171);
    let t189 = and2(&t176, &t188);
    let t191 = and2(&t165, &t167);
    // level 7
    let t23 = nand2(e2, &t22);
    let t29 = and2(&t25, &t28);
    let t44 = nand2(&t35, &t43);
    let t51 = and2(&t26, &t50);
    let t58 = nand2(&t22, &t57);
    let t64 = nand2(&t24, &t63);
    let t69 = xnor2(c0, p0);
    let t74 = xnor2(c10, p10);
    let t84 = and2(&t81, &t83);
    let t86 = and2(&t76, &t85);
    let t94 = and2(&t91, &t93);
    let t96 = and2(&t77, &t95);
    let t104 = xnor2(c0, p16);
    let t111 = xnor2(c10, p26);
    let t116 = and2(&t113, &t115);
    let t118 = and2(&t110, &t117);
    let t126 = and2(&t123, &t125);
    let t128 = and2(&t106, &t127);
    let t150 = and2(&t148, &t149);
    let t153 = and2(&t151, &t152);
    let t158 = and2(&t156, &t157);
    let t160 = and2(&t132, &t159);
    let t163 = xnor2(c10, p58);
    let t169 = xnor2(c0, p48);
    let t181 = and2(&t178, &t180);
    let t183 = and2(&t173, &t182);
    let t190 = and2(&t187, &t189);
    let t192 = and2(&t177, &t191);
    // level 8
    let t30 = nand2(&t23, &t29);
    let t52 = nand2(&t44, &t51);
    let t65 = and2(&t58, &t64);
    let t78 = xnor2(c11, p11);
    let t87 = and2(&t84, &t86);
    let t88 = and2(&t69, &t74);
    let t97 = and2(&t94, &t96);
    let t102 = xnor2(c11, p27);
    let t119 = and2(&t116, &t118);
    let t120 = and2(&t104, &t111);
    let t129 = and2(&t126, &t128);
    let t137 = xnor2(c0, p32);
    let t143 = xnor2(c10, p42);
    let t154 = and2(&t150, &t153);
    let t161 = and2(&t158, &t160);
    let t175 = xnor2(c11, p59);
    let t184 = and2(&t181, &t183);
    let t185 = and2(&t163, &t169);
    let t193 = and2(&t190, &t192);
    // level 9
    let t31 = nand2(&t15, &t30);
    let t66 = and2(&t52, &t65);
    let t89 = and2(&t87, &t88);
    let t98 = and2(&t78, &t97);
    let t121 = and2(&t119, &t120);
    let t130 = and2(&t102, &t129);
    let t147 = and2(&t137, &t143);
    let t162 = and2(&t154, &t161);
    let t186 = and2(&t184, &t185);
    let t194 = and2(&t175, &t193);
    // level 10
    let o4 = nand2(&t31, &t66);
    let o0 = and2(&t89, &t98);
    let o1 = and2(&t121, &t130);
    let o2 = and2(&t147, &t162);
    let o3 = and2(&t186, &t194);
    let mut out: Vec<W> = Vec::new();
    out.push(o0);
    out.push(o1);
    out.push(o2);
    out.push(o3);
    out.push(o4);
    proof {
        let p = plains(players@).take(64);
        let e = plains(eggs@).take(16);
        let c = plains(coords@).take(16);
        assert forall|k: int| 0 <= k < 64 implies p[k] == players@[k].plain() by {}
        assert forall|k: int| 0 <= k < 16 implies c[k] == coords@[k].plain() by {}
        assert(plains(out@)[0] == player_at(p, 0, c)) by {
            lemma_player_at_bits(p, 0, c);
        }
        assert(plains(out@)[1] == player_at(p, 1, c)) by {
            lemma_player_at_bits(p, 1, c);
        }
        assert(plains(out@)[2] == player_at(p, 2, c)) by {
            lemma_player_at_bits(p, 2, c);
        }
        assert(plains(out@)[3] == player_at(p, 3, c)) by {
            lemma_player_at_bits(p, 3, c);
        }
        lemma_on_board_bits(c);
        assert(plains(out@)[4] == (on_board(c) && e[cell_index(c)]));
        assert(plains(out@) =~= cell_report(p, e, c));
    }
    out
}

} // verus!

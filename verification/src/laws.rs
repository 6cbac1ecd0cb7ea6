//! Properties of the game that hold across operations.
use vstd::prelude::*;
use crate::board::{Direction, direction_code, opposite, moved, coord_x, coord_y, laid, picked, on_board, cell_index, cell_report, player_at, lemma_on_board_bits, BOARD_SIZE, N_PLAYERS, COORD_BITS};
use crate::encoding::{bit, bits_value, lemma_bit_window};
use vstd::arithmetic::power2::{pow2, lemma2_to64};
use vstd::arithmetic::div_mod::lemma_small_mod;

verus! {

proof fn lemma_step_undone(v: int, dim: int)
    requires
        dim > 0,
    ensures
        ((v + 1) % dim - 1) % dim == v % dim,
        ((v - 1) % dim + 1) % dim == v % dim,
{
    assert(((v + 1) % dim - 1) % dim == v % dim) by (nonlinear_arith)
        requires
            dim > 0,
    ;
    assert(((v - 1) % dim + 1) % dim == v % dim) by (nonlinear_arith)
        requires
            dim > 0,
    ;
}

/// Moving in one direction and then in the opposite one (same axis bit,
/// flipped sense bit) brings a player on a `dim` x `dim` board back to where
/// it started.
pub proof fn law_move_then_back(c: Seq<bool>, d: Seq<bool>, o: Seq<bool>, back: Seq<bool>, dim: int)
    requires
        dim > 0,
        c.len() >= 16,
        d.len() >= 2,
        o.len() >= 16,
        back.len() >= 2,
        0 <= coord_x(c) < dim,
        0 <= coord_y(c) < dim,
        coord_x(o) == moved(c, d, dim).0,
        coord_y(o) == moved(c, d, dim).1,
        back[1] == d[1],
        back[0] == !d[0],
    ensures
        moved(o, back, dim) == (coord_x(c), coord_y(c)),
{
    let x = coord_x(c);
    let y = coord_y(c);
    lemma_step_undone(x, dim);
    lemma_step_undone(y, dim);
    vstd::arithmetic::div_mod::lemma_small_mod(x as nat, dim as nat);
    vstd::arithmetic::div_mod::lemma_small_mod(y as nat, dim as nat);
}

/// A move keeps a player on a `dim` x `dim` board on it; the coordinate
/// that moves always lands in `0..dim`, the other one is kept.
pub proof fn law_move_stays_on_board(c: Seq<bool>, d: Seq<bool>, dim: int)
    requires
        dim > 0,
        c.len() >= 16,
        d.len() >= 2,
    ensures
        !d[1] ==> 0 <= moved(c, d, dim).0 < dim && moved(c, d, dim).1 == coord_y(c),
        d[1] ==> 0 <= moved(c, d, dim).1 < dim && moved(c, d, dim).0 == coord_x(c),
        0 <= coord_x(c) < dim && 0 <= coord_y(c) < dim ==> 0 <= moved(c, d, dim).0 < dim && 0
            <= moved(c, d, dim).1 < dim,
{
}

/// The direction bits of a direction's code (bit 0: sense, bit 1: axis)
/// and those of its opposite differ exactly in the sense bit.
pub proof fn law_opposite_direction_bits(d: Direction)
    ensures
        bit(direction_code(opposite(d)), 1) == bit(direction_code(d), 1),
        bit(direction_code(opposite(d)), 0) == !bit(direction_code(d), 0),
        opposite(opposite(d)) == d,
{
    assert(bit(0, 0) == false && bit(0, 1) == false) by (bit_vector);
    assert(bit(1, 0) == true && bit(1, 1) == false) by (bit_vector);
    assert(bit(2, 0) == false && bit(2, 1) == true) by (bit_vector);
    assert(bit(3, 0) == true && bit(3, 1) == true) by (bit_vector);
}

/// Picking up the egg just laid leaves the board as picking up alone does.
pub proof fn law_pickup_after_lay(eggs: Seq<bool>, c: Seq<bool>)
    requires
        eggs.len() == BOARD_SIZE,
        c.len() >= 16,
    ensures
        picked(laid(eggs, c), c) == picked(eggs, c),
{
    assert(picked(laid(eggs, c), c) =~= picked(eggs, c));
}

/// Laying an egg on a cell just emptied leaves the board as laying alone
/// does.
pub proof fn law_lay_after_pickup(eggs: Seq<bool>, c: Seq<bool>)
    requires
        eggs.len() == BOARD_SIZE,
        c.len() >= 16,
    ensures
        laid(picked(eggs, c), c) == laid(eggs, c),
{
    assert(laid(picked(eggs, c), c) =~= laid(eggs, c));
}

/// Laying twice at the same place is laying once; picking up twice is
/// picking up once.
pub proof fn law_egg_ops_idempotent(eggs: Seq<bool>, c: Seq<bool>)
    requires
        eggs.len() == BOARD_SIZE,
        c.len() >= 16,
    ensures
        laid(laid(eggs, c), c) == laid(eggs, c),
        picked(picked(eggs, c), c) == picked(eggs, c),
{
    assert(laid(laid(eggs, c), c) =~= laid(eggs, c));
    assert(picked(picked(eggs, c), c) =~= picked(eggs, c));
}

/// Egg operations by two players commute: two lays always, two pickups
/// always, a lay and a pickup when they are on different cells.
pub proof fn law_egg_ops_commute(eggs: Seq<bool>, c1: Seq<bool>, c2: Seq<bool>)
    requires
        eggs.len() == BOARD_SIZE,
        c1.len() >= 16,
        c2.len() >= 16,
    ensures
        laid(laid(eggs, c1), c2) == laid(laid(eggs, c2), c1),
        picked(picked(eggs, c1), c2) == picked(picked(eggs, c2), c1),
        !(on_board(c1) && on_board(c2) && cell_index(c1) == cell_index(c2)) ==> laid(
            picked(eggs, c2),
            c1,
        ) == picked(laid(eggs, c1), c2),
{
    assert(laid(laid(eggs, c1), c2) =~= laid(laid(eggs, c2), c1));
    assert(picked(picked(eggs, c1), c2) =~= picked(picked(eggs, c2), c1));
    if !(on_board(c1) && on_board(c2) && cell_index(c1) == cell_index(c2)) {
        assert(laid(picked(eggs, c2), c1) =~= picked(laid(eggs, c1), c2));
    }
}

/// A lay or pickup from a position off the board changes nothing.
pub proof fn law_off_board_no_change(eggs: Seq<bool>, c: Seq<bool>)
    requires
        eggs.len() == BOARD_SIZE,
        c.len() >= 16,
        !on_board(c),
    ensures
        laid(eggs, c) == eggs,
        picked(eggs, c) == eggs,
{
    assert(laid(eggs, c) =~= eggs);
    assert(picked(eggs, c) =~= eggs);
}

/// After laying an egg, the player's cell shows an egg; after picking it
/// up, it shows none. Both keep what the cell shows of the players.
pub proof fn law_cell_shows_egg_ops(players: Seq<bool>, eggs: Seq<bool>, c: Seq<bool>)
    requires
        eggs.len() == BOARD_SIZE,
        c.len() >= 16,
    ensures
        cell_report(players, laid(eggs, c), c)[4] == on_board(c),
        !cell_report(players, picked(eggs, c), c)[4],
        forall|j: int|
            0 <= j < N_PLAYERS ==> cell_report(players, laid(eggs, c), c)[j] == cell_report(
                players,
                eggs,
                c,
            )[j] && cell_report(players, picked(eggs, c), c)[j] == cell_report(players, eggs, c)[j],
{
    if on_board(c) {
        lemma_on_board_bits(c);
        assert(0 <= cell_index(c) < BOARD_SIZE);
    }
}

/// A player looking at its own position sees itself there.
pub proof fn law_cell_shows_self(players: Seq<bool>, eggs: Seq<bool>, j: int)
    requires
        0 <= j < N_PLAYERS,
        players.len() >= COORD_BITS * N_PLAYERS,
    ensures
        cell_report(players, eggs, players.subrange(COORD_BITS * j, COORD_BITS * j + COORD_BITS))[j],
{
    let c = players.subrange(COORD_BITS * j, COORD_BITS * j + COORD_BITS);
    assert(player_at(players, j, c));
}

/// Reading back the bits of a number gives the number: the value of the
/// bits that `u8_to_binary` produces for `v` is `v`.
pub proof fn law_binary_value(n: nat, v: u8, r: Seq<bool>)
    requires
        n <= 8,
        (v as nat) < pow2(n),
        r.len() == n,
        forall|i: int| 0 <= i < n ==> r[i] == bit(v, i),
    ensures
        bits_value(r) == v,
{
    lemma_bit_window(v, 0, n);
    assert(r =~= Seq::new(n, |i: int| bit(v, 0 + i)));
    lemma2_to64();
    lemma_small_mod(v as nat, pow2(n));
}

/// Decoding what `coords_to_binary` produces: the first value comes back
/// as `x` modulo `2^(n/2)`; the second as the bits `n/2..n` of `y`, that is
/// `y` shifted right by `n/2`, modulo `2^(n - n/2)`.
pub proof fn law_coords_round_trip(n: nat, x: u8, y: u8, r: Seq<bool>)
    requires
        n <= 8,
        r.len() == n,
        forall|i: int| 0 <= i < n / 2 ==> r[i] == bit(x, i),
        forall|i: int| n / 2 <= i < n ==> r[i] == bit(y, i),
    ensures
        bits_value(r.subrange(0, (n / 2) as int)) % 256 == (x as nat) % pow2(n / 2),
        bits_value(r.subrange((n / 2) as int, n as int)) % 256 == (y as nat / pow2(n / 2)) % pow2(
            (n - n / 2) as nat,
        ),
{
    let h = n / 2;
    lemma2_to64();
    lemma_bit_window(x, 0, h);
    assert(r.subrange(0, h as int) =~= Seq::new(h, |i: int| bit(x, 0 + i)));
    lemma_bit_window(y, h, (n - h) as nat);
    assert(r.subrange(h as int, n as int) =~= Seq::new((n - h) as nat, |i: int| bit(y, h + i)));
    let vx = (x as nat / pow2(0)) % pow2(h);
    let vy = (y as nat / pow2(h)) % pow2((n - h) as nat);
    assert(h <= 4 && n - h <= 4);
    assert(pow2(h) <= 16 && pow2((n - h) as nat) <= 16);
    lemma_small_mod(vx, 256);
    lemma_small_mod(vy, 256);
}

} // verus!

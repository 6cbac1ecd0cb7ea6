//! The game board: how coordinates are laid out in bits, and what each move
//! and egg operation does to the plain values.
use vstd::prelude::*;
use crate::encoding::b2n;

verus! {

/// A move on the board: `Up` and `Down` change the row, `Left` and `Right`
/// the column.
#[derive(Copy, Clone)]
pub enum Direction {
    Up,
    Down,
    Left,
    Right,
}

/// The number a direction is sent as: its two low bits are the direction
/// bits that the move circuits read (see [`moved`]).
pub open spec fn direction_code(d: Direction) -> u8 {
    match d {
        Direction::Up => 0,
        Direction::Down => 1,
        Direction::Left => 2,
        Direction::Right => 3,
    }
}

/// The direction that undoes a move.
pub open spec fn opposite(d: Direction) -> Direction {
    match d {
        Direction::Up => Direction::Down,
        Direction::Down => Direction::Up,
        Direction::Left => Direction::Right,
        Direction::Right => Direction::Left,
    }
}

impl Direction {
    /// The number this direction is sent as.
    pub fn code(&self) -> (r: u8)
        ensures
            r == direction_code(*self),
    {
        match self {
            Direction::Up => 0,
            Direction::Down => 1,
            Direction::Left => 2,
            Direction::Right => 3,
        }
    }
}

/// Number of players.
pub const N_PLAYERS: usize = 4;

/// The board has `BOARD_DIM * BOARD_DIM` cells.
pub const BOARD_DIM: usize = 4;

/// Number of cells on the board.
pub const BOARD_SIZE: usize = 16;

/// Bits in the encoding of a position: x in bits 0..8, y in bits 8..16.
pub const COORD_BITS: usize = 16;

/// The little-endian value of the 8 bits of `s` starting at `off`.
pub open spec fn byte_at(s: Seq<bool>, off: int) -> int {
    (b2n(s[off]) + 2 * b2n(s[off + 1]) + 4 * b2n(s[off + 2]) + 8 * b2n(s[off + 3])
        + 16 * b2n(s[off + 4]) + 32 * b2n(s[off + 5]) + 64 * b2n(s[off + 6])
        + 128 * b2n(s[off + 7])) as int
}

/// Row of an encoded position.
pub open spec fn coord_x(c: Seq<bool>) -> int {
    byte_at(c, 0)
}

/// Column of an encoded position.
pub open spec fn coord_y(c: Seq<bool>) -> int {
    byte_at(c, 8)
}

/// The position lies on the `BOARD_DIM` x `BOARD_DIM` board.
pub open spec fn on_board(c: Seq<bool>) -> bool {
    coord_x(c) < BOARD_DIM && coord_y(c) < BOARD_DIM
}

/// Index of the cell at an on-board position in the egg vector.
pub open spec fn cell_index(c: Seq<bool>) -> int {
    coord_x(c) * BOARD_DIM + coord_y(c)
}

/// The eggs after laying one at position `c`: the cell at `c` gets an egg when
/// `c` is on the board; every other cell keeps its state.
pub open spec fn laid(eggs: Seq<bool>, c: Seq<bool>) -> Seq<bool> {
    Seq::new(BOARD_SIZE as nat, |i: int| eggs[i] || (on_board(c) && cell_index(c) == i))
}

/// The eggs after picking up the one at position `c`: the cell at `c` is
/// emptied when `c` is on the board; every other cell keeps its state.
pub open spec fn picked(eggs: Seq<bool>, c: Seq<bool>) -> Seq<bool> {
    Seq::new(BOARD_SIZE as nat, |i: int| eggs[i] && !(on_board(c) && cell_index(c) == i))
}

/// Player `j` of the concatenated player positions stands at `c`.
pub open spec fn player_at(players: Seq<bool>, j: int, c: Seq<bool>) -> bool {
    forall|k: int| 0 <= k < COORD_BITS ==> players[COORD_BITS * j + k] == c[k]
}

/// `player_at` spelled out bit by bit.
pub proof fn lemma_player_at_bits(players: Seq<bool>, j: int, c: Seq<bool>)
    ensures
        player_at(players, j, c) <==> (players[COORD_BITS * j + 0] == c[0] && players[COORD_BITS * j + 1] == c[1] && players[COORD_BITS * j + 2] == c[2] && players[COORD_BITS * j + 3] == c[3] && players[COORD_BITS * j + 4] == c[4] && players[COORD_BITS * j + 5] == c[5] && players[COORD_BITS * j + 6] == c[6] && players[COORD_BITS * j + 7] == c[7] && players[COORD_BITS * j + 8] == c[8] && players[COORD_BITS * j + 9] == c[9] && players[COORD_BITS * j + 10] == c[10] && players[COORD_BITS * j + 11] == c[11] && players[COORD_BITS * j + 12] == c[12] && players[COORD_BITS * j + 13] == c[13] && players[COORD_BITS * j + 14] == c[14] && players[COORD_BITS * j + 15] == c[15]),
{
    if players[COORD_BITS * j + 0] == c[0] && players[COORD_BITS * j + 1] == c[1] && players[COORD_BITS * j + 2] == c[2] && players[COORD_BITS * j + 3] == c[3] && players[COORD_BITS * j + 4] == c[4] && players[COORD_BITS * j + 5] == c[5] && players[COORD_BITS * j + 6] == c[6] && players[COORD_BITS * j + 7] == c[7] && players[COORD_BITS * j + 8] == c[8] && players[COORD_BITS * j + 9] == c[9] && players[COORD_BITS * j + 10] == c[10] && players[COORD_BITS * j + 11] == c[11] && players[COORD_BITS * j + 12] == c[12] && players[COORD_BITS * j + 13] == c[13] && players[COORD_BITS * j + 14] == c[14] && players[COORD_BITS * j + 15] == c[15] {
        assert forall|k: int| 0 <= k < COORD_BITS implies #[trigger] players[COORD_BITS * j + k]
            == c[k] by {
            assert(k == 0 || k == 1 || k == 2 || k == 3 || k == 4 || k == 5 || k == 6 || k == 7 || k == 8 || k == 9 || k == 10 || k == 11 || k == 12 || k == 13 || k == 14 || k == 15);
        }
    }
}

/// What a player at `c` sees in its cell: bit `j < 4` tells whether player
/// `j` stands there, bit 4 whether the cell holds an egg (never for a
/// position off the board).
pub open spec fn cell_report(players: Seq<bool>, eggs: Seq<bool>, c: Seq<bool>) -> Seq<bool> {
    Seq::new(
        5,
        |j: int|
            if j < N_PLAYERS {
                player_at(players, j, c)
            } else {
                on_board(c) && eggs[cell_index(c)]
            },
    )
}

/// On the board, the row and column are given by their two low bits, and
/// every other bit of the position is clear.
pub proof fn lemma_on_board_bits(c: Seq<bool>)
    requires
        c.len() >= 16,
    ensures
        on_board(c) <==> (!c[2] && !c[3] && !c[4] && !c[5] && !c[6] && !c[7] && !c[10] && !c[11]
            && !c[12] && !c[13] && !c[14] && !c[15]),
        on_board(c) ==> coord_x(c) == b2n(c[0]) + 2 * b2n(c[1]) && coord_y(c) == b2n(c[8]) + 2
            * b2n(c[9]),
{
}

/// One step along an axis of a `dim`-wide torus: forward adds one, backward
/// subtracts one, both wrapping around modulo `dim`.
pub open spec fn wrap_step(v: int, forward: bool, dim: int) -> int {
    if forward {
        (v + 1) % dim
    } else {
        (v - 1) % dim
    }
}

/// The position after a move on a `dim` x `dim` torus. Direction bit 1 picks
/// the axis (clear: the row, set: the column) and bit 0 the sense (clear:
/// backward, set: forward); the other coordinate is kept as it is.
pub open spec fn moved(c: Seq<bool>, dir: Seq<bool>, dim: int) -> (int, int) {
    if !dir[1] {
        (wrap_step(coord_x(c), dir[0], dim), coord_y(c))
    } else {
        (coord_x(c), wrap_step(coord_y(c), dir[0], dim))
    }
}

/// `moved` in terms of the row and column values, with backward steps
/// written as adding `dim - 1`.
pub proof fn lemma_moved_by_values(c: Seq<bool>, d: Seq<bool>, o: Seq<bool>, dim: int)
    requires
        dim > 0,
        c.len() >= 16,
        d.len() >= 2,
        o.len() >= 16,
        coord_x(o) == (if !d[1] {
            if d[0] {
                (coord_x(c) + 1) % dim
            } else {
                (coord_x(c) + dim - 1) % dim
            }
        } else {
            coord_x(c)
        }),
        coord_y(o) == (if d[1] {
            if d[0] {
                (coord_y(c) + 1) % dim
            } else {
                (coord_y(c) + dim - 1) % dim
            }
        } else {
            coord_y(c)
        }),
    ensures
        coord_x(o) == moved(c, d, dim).0,
        coord_y(o) == moved(c, d, dim).1,
{
    vstd::arithmetic::div_mod::lemma_mod_add_multiples_vanish(coord_x(c) - 1, dim);
    vstd::arithmetic::div_mod::lemma_mod_add_multiples_vanish(coord_y(c) - 1, dim);
}

} // verus!

use fhe_game::circuits::move_player_20_20;
use fhe_game::get_cell::get_cell;
use fhe_game::lay_egg::lay_egg;
use fhe_game::move_player::move_player;
use fhe_game::pickup_egg::pickup_egg;

fn position(x: u8, y: u8) -> Vec<bool> {
    (0..16).map(|i| if i < 8 { (x >> i) & 1 == 1 } else { (y >> (i - 8)) & 1 == 1 }).collect()
}

fn decode(bits: &[bool]) -> (u8, u8) {
    let mut x = 0u8;
    let mut y = 0u8;
    for i in 0..8 {
        x |= (bits[i] as u8) << i;
        y |= (bits[8 + i] as u8) << i;
    }
    (x, y)
}

fn direction(code: u8) -> Vec<bool> {
    vec![code & 1 == 1, code & 2 == 2]
}

fn expected_move(x: u8, y: u8, code: u8, dim: i32) -> (u8, u8) {
    let step = |v: u8| -> u8 {
        let d = if code & 1 == 1 { 1 } else { -1 };
        (v as i32 + d).rem_euclid(dim) as u8
    };
    if code & 2 == 0 { (step(x), y) } else { (x, step(y)) }
}

#[test]
fn move_player_small_board_every_cell_and_direction() {
    for x in 0..4u8 {
        for y in 0..4u8 {
            for code in 0..4u8 {
                let out = move_player(&position(x, y), &direction(code));
                assert_eq!(out.len(), 16);
                assert_eq!(decode(&out), expected_move(x, y, code, 4), "x={} y={} code={}", x, y, code);
            }
        }
    }
}

#[test]
fn move_player_small_board_wraps_at_edges() {
    assert_eq!(decode(&move_player(&position(0, 2), &direction(0))), (3, 2));
    assert_eq!(decode(&move_player(&position(3, 2), &direction(1))), (0, 2));
    assert_eq!(decode(&move_player(&position(1, 0), &direction(2))), (1, 3));
    assert_eq!(decode(&move_player(&position(1, 3), &direction(3))), (1, 0));
}

#[test]
fn move_player_small_board_off_board_positions() {
    // The moving coordinate is reduced modulo 4, the other one is kept.
    assert_eq!(decode(&move_player(&position(19, 200), &direction(0))), (2, 200));
    assert_eq!(decode(&move_player(&position(255, 7), &direction(1))), (0, 7));
    assert_eq!(decode(&move_player(&position(9, 255), &direction(3))), (9, 0));
}

#[test]
fn move_player_reads_only_two_direction_bits() {
    let mut dir = direction(1);
    dir.extend([true, false, true, true, false, true]);
    assert_eq!(decode(&move_player(&position(2, 2), &dir)), (3, 2));
}

#[test]
fn move_player_large_board_samples() {
    for &(x, y) in &[(0u8, 0u8), (1, 18), (19, 19), (10, 0), (19, 5), (20, 20), (255, 3), (7, 254)] {
        for code in 0..4u8 {
            let out = move_player_20_20::move_player(&position(x, y), &direction(code));
            assert_eq!(decode(&out), expected_move(x, y, code, 20), "x={} y={} code={}", x, y, code);
        }
    }
}

#[test]
fn move_player_large_board_every_row_step() {
    for x in 0..=255u8 {
        for code in [0u8, 1] {
            let out = move_player_20_20::move_player(&position(x, 4), &direction(code));
            assert_eq!(decode(&out), expected_move(x, 4, code, 20));
        }
    }
}

fn eggs_from(mask: u16) -> Vec<bool> {
    (0..16).map(|i| (mask >> i) & 1 == 1).collect()
}

#[test]
fn lay_egg_sets_the_players_cell() {
    for mask in [0u16, 0xffff, 0b1010_0110_0001_1000] {
        for x in 0..4u8 {
            for y in 0..4u8 {
                let out = lay_egg(&position(x, y), &eggs_from(mask));
                let cell = (4 * x + y) as usize;
                let want: Vec<bool> = (0..16).map(|i| (mask >> i) & 1 == 1 || i == cell).collect();
                assert_eq!(out, want);
            }
        }
    }
}

#[test]
fn lay_egg_cell_layout_is_row_major() {
    let out = lay_egg(&position(1, 2), &eggs_from(0));
    assert_eq!(out, eggs_from(1 << 6));
    let out = lay_egg(&position(3, 0), &eggs_from(0));
    assert_eq!(out, eggs_from(1 << 12));
}

#[test]
fn lay_egg_off_board_changes_nothing() {
    let eggs = eggs_from(0b0101_0000_1111_0001);
    assert_eq!(lay_egg(&position(4, 0), &eggs), eggs);
    assert_eq!(lay_egg(&position(0, 4), &eggs), eggs);
    assert_eq!(lay_egg(&position(200, 9), &eggs), eggs);
}

#[test]
fn pickup_egg_clears_the_players_cell() {
    for mask in [0u16, 0xffff, 0b0111_0011_1100_0101] {
        for x in 0..4u8 {
            for y in 0..4u8 {
                let out = pickup_egg(&position(x, y), &eggs_from(mask));
                let cell = (4 * x + y) as usize;
                let want: Vec<bool> = (0..16).map(|i| (mask >> i) & 1 == 1 && i != cell).collect();
                assert_eq!(out, want);
            }
        }
    }
}

#[test]
fn pickup_egg_off_board_changes_nothing() {
    let eggs = eggs_from(0xffff);
    assert_eq!(pickup_egg(&position(5, 1), &eggs), eggs);
    assert_eq!(pickup_egg(&position(1, 16), &eggs), eggs);
}

#[test]
fn pickup_after_lay_empties_the_cell() {
    let eggs = eggs_from(0b0000_0000_0000_0010);
    let c = position(2, 3);
    let laid = lay_egg(&c, &eggs);
    assert!(laid[11]);
    let picked = pickup_egg(&c, &laid);
    assert_eq!(picked, eggs);
}

fn players(ps: &[(u8, u8)]) -> Vec<bool> {
    ps.iter().flat_map(|&(x, y)| position(x, y)).collect()
}

#[test]
fn get_cell_reports_players_and_egg() {
    let ps = players(&[(0, 0), (2, 0), (1, 1), (1, 1)]);
    let eggs = eggs_from(1 << 5);
    let out = get_cell(&position(1, 1), &eggs, &ps);
    assert_eq!(out, vec![false, false, true, true, true]);
    let out = get_cell(&position(0, 0), &eggs, &ps);
    assert_eq!(out, vec![true, false, false, false, false]);
    let out = get_cell(&position(3, 3), &eggs_from(1 << 15), &ps);
    assert_eq!(out, vec![false, false, false, false, true]);
}

#[test]
fn get_cell_matches_whole_positions() {
    // Player 1 is off the board at the same position as the viewer.
    let ps = players(&[(0, 0), (40, 7), (40, 6), (1, 1)]);
    let out = get_cell(&position(40, 7), &eggs_from(0xffff), &ps);
    assert_eq!(out, vec![false, true, false, false, false]);
}

#[test]
fn get_cell_sees_laid_egg() {
    let ps = players(&[(3, 1), (2, 0), (1, 1), (0, 2)]);
    let me = position(3, 1);
    let eggs = lay_egg(&me, &eggs_from(0));
    let out = get_cell(&me, &eggs, &ps);
    assert_eq!(out, vec![true, false, false, false, true]);
    let eggs = pickup_egg(&me, &eggs);
    let out = get_cell(&me, &eggs, &ps);
    assert_eq!(out, vec![true, false, false, false, false]);
}

#[test]
fn move_then_back_returns_home() {
    for x in 0..4u8 {
        for y in 0..4u8 {
            for (code, back) in [(0u8, 1u8), (1, 0), (2, 3), (3, 2)] {
                let there = move_player(&position(x, y), &direction(code));
                let home = move_player(&there, &direction(back));
                assert_eq!(decode(&home), (x, y));
            }
        }
    }
}

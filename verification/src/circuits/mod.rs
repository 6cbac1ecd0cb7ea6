pub mod move_player_20_20;

//! Encrypted board game: player movement and egg bookkeeping evaluated as
//! boolean circuits over encrypted bits.
//!
//! Each game operation is a fixed netlist of two-input gates, listed level by
//! level (the gates of one level only read inputs and earlier levels). The
//! circuits are generic over [`wire::Wire`]: over `bool` they compute on plain
//! bits, over [`fhe::EncBit`] on phantom-zone ciphertexts. Their contracts
//! state, in terms of the plaintext bits, what every output bit is.
pub mod wire;
pub mod fhe;
pub mod board;
pub mod encoding;
pub mod lay_egg;
pub mod move_player;
pub mod pickup_egg;
pub mod get_cell;
pub mod circuits;
pub mod laws;

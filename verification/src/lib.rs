//! The simulation core of a side-scrolling arcade game: a crab that jumps
//! against gravity through a stream of pipes.
//!
//! Every length, position and velocity is a 64-bit fixed-point number (see
//! [`fixed`]); nothing here draws, plays sound or reads input. A host feeds
//! each frame's input to [`game_state::GameState::update`] and renders the
//! commands that [`game_state::GameState::draw`] returns.

pub mod fixed;
pub mod config;
pub mod geometry;
pub mod atlas;
pub mod noise;
pub mod pipe;
pub mod entity;
pub mod crab;
pub mod tile;
pub mod game_state;

//! Core of a three-peg tower puzzle game: the stacks of disks with their
//! legal-move rules, the recursive auto-solver, the key-press protocol that
//! selects moves, and the single-slot animator that tweens a disk towards its
//! target position.
//!
//! Positions are carried in milliunits (thousandths of a world unit), so the
//! whole game state stays in integers; the rendering layer converts them to
//! floating point when it builds its matrices.

pub mod animator;
pub mod donut_mesh;
pub mod game_master;
pub mod pegs;
pub mod solver;
pub mod stick_mesh;

//! A block-breaker game for the terminal: the simulation engine and the
//! decisions of its front end, with every rule stated as a contract.

pub mod ball;
pub mod bar;
pub mod block;
pub mod config;
pub mod game;
pub mod geometry;
pub mod input;
pub mod laws;
pub mod random;
pub mod widget;

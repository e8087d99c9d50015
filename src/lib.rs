//! A toroidal life-like cellular automaton: a catalog of birth/survival rules,
//! a catalog of seed patterns, and an engine that advances a grid one
//! synchronous generation at a time.

pub mod args;
pub mod config;
pub mod patterns;
pub mod rules;
pub mod state;
pub mod systems;
pub mod theorems;

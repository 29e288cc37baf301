//! The logic of a brick-breaking arcade game, on integers.
//!
//! Lengths are whole numbers of steps, `fixed::UNIT` steps to one world
//! unit; times are whole microseconds; angles are whole millidegrees.
//! Nothing in this crate draws, plays sound or reads a device: the
//! program around it hands in plain values and acts on what comes back.

pub mod app_state;
pub mod blink;
pub mod breakout;
pub mod bricks;
pub mod fixed;
pub mod game;
pub mod geometry;
pub mod health;
pub mod physics;
pub mod scoreboard;
pub mod sound;
pub mod ui;
pub mod walls;
pub mod world;

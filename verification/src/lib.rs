//! Turn-based simulation core of the Lurhook fishing game.
//!
//! The core owns no window, no files and no speakers. A host feeds it one
//! input per turn, reads what there is to draw, and carries out the
//! [`game::Effect`]s that the session leaves for it.
//!
//! - [`mapgen`] turns a noise field into terrain, [`ecology`] spawns and
//!   moves the fish, [`fishing`] plays the tension mini-game.
//! - [`game`] holds the session; [`ai`], [`angling`], [`gear`] and
//!   [`input`] are what a turn does to it, [`view`] what of it is on
//!   screen, and [`app`] the menu round it.
//! - [`codex`], [`keys`], [`data`] and [`save`] are what outlives a
//!   session, with their texts in [`codex_text`], [`keys_text`],
//!   [`data_text`] and [`save`], read by the scanner in [`scan`].
//!
//! Fractions are fixed-point numbers throughout: thousandths for rarity
//! weights, reel factors and probabilities, ten-thousandths for noise.

pub mod ai;
pub mod angling;
pub mod app;
pub mod audio;
pub mod codex;
pub mod codex_text;
pub mod common;
pub mod data;
pub mod data_text;
pub mod ecology;
pub mod fishing;
pub mod game;
pub mod gear;
pub mod input;
pub mod keys;
pub mod keys_text;
pub mod line;
pub mod mapgen;
pub mod random;
pub mod save;
pub mod scan;
pub mod text;
pub mod types;
pub mod ui;
pub mod view;

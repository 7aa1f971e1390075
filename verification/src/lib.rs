//! RATATUI OPEN: a tennis match for the terminal, player against computer.
//!
//! This library holds what the game decides and draws. The rules of play are in
//! [`score`], [`game`], [`keys`] and [`effects`]; what each step of play does is told in
//! [`play_laws`], and what holds of a match as a whole in [`laws`]; [`noise`] has its
//! pseudo-random numbers. The screen is drawn into a grid of
//! cells ([`screen`], [`panel`], [`style`], [`text`]): the scenery ([`backdrop`]), the
//! court and what moves on it ([`court`]), what is written over the picture ([`hud`]) and
//! what stands around it ([`board`]). What is seen and read there is told in
//! [`picture_laws`] and [`sign_laws`].
//!
//! The motion of ball and players, and the view of the court in perspective, are computed
//! by the program around the library and reach it as plain facts: that the ball bounced
//! out, or in which cell a point of the court is seen.

pub mod backdrop;
pub mod board;
pub mod court;
pub mod effects;
pub mod game;
pub mod hud;
pub mod keys;
pub mod laws;
pub mod noise;
pub mod panel;
pub mod picture_laws;
pub mod play_laws;
pub mod score;
pub mod screen;
pub mod sign_laws;
pub mod style;
pub mod text;

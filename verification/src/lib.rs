//! A terminal compositor for a small timeline client.
//!
//! The heart of the crate is the compositor: widgets submit styled character
//! cells into a per-redraw [`Frame`](frame::Frame), the row reconstructor
//! turns that unordered collection into dense, gap-filled rows, the encoder
//! folds the rows into styled runs, and the terminal session owns the
//! device's raw-mode and alternate-screen state for as long as it lives.

pub mod account;
pub mod cell;
pub mod color;
pub mod digits;
pub mod encode;
pub mod frame;
pub mod requests;
pub mod rows;
pub mod session;
pub mod state;
pub mod timeline;
pub mod tweet;

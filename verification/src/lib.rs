//! A single-user task board: three ordered columns of tasks, the operations
//! that change them, and the transient state of selecting and dragging.
//!
//! [`board::Board`] holds the columns and is changed only through its own
//! operations. [`controller::Controller`] owns a board and handles what the
//! user asks for, one [`controller::Intent`] at a time; what each intent
//! makes of the state is written down as mathematics in [`protocol`], and
//! what holds whatever the user does is proved in [`laws`]. The library does
//! no input or output: [`store`] says what to make of the store's content
//! and what to write to it, and each operation says whether the board is to
//! be written.

pub mod board;
pub mod clock;
pub mod controller;
pub mod laws;
pub mod look;
pub mod model;
pub mod protocol;
pub mod store;
pub mod task;

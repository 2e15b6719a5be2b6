//! The non-visual core of a terminal emulator.
//!
//! Bytes that a child shell writes are decoded by the escape sequence
//! interpreter ([`interpreter::Interpreter`]) into [`action::Action`] values.
//! The reducer ([`update::update`]) turns each action into a change of the
//! character grid ([`state::State`]), and the coordinator
//! ([`coordinator::Session`]) takes the actions of all producers in one
//! order and stops at `Close`. What the user types goes the other way,
//! through [`handlers::DisplayHandler`] and [`pty::Pty`], to the child.
//!
//! The contracts are stated over mathematical values: [`grid::Grid`] for the
//! character grid, [`action::ActionView`] for an action, and byte sequences
//! for what the interpreter has consumed.

pub mod action;
pub mod coordinator;
pub mod grid;
pub mod handlers;
pub mod interpreter;
pub mod pty;
pub mod state;
pub mod store;
pub mod term;
pub mod update;

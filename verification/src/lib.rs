//! A small terminal menu: a fixed, cyclic set of three actions, a keyboard
//! driven state machine that selects and runs one of them, and a renderer
//! that maps each state to the content of a full-screen frame.
//!
//! The crate is the verified core of such a program: it owns the menu
//! entries, the application state, the transition rules, and the frame
//! content. Reading key events and drawing frames on a real terminal is left
//! to the surrounding binary, which feeds plain key values in and takes
//! plain frame descriptions out.

pub mod actions;
pub mod keys;
pub mod menu;
pub mod render;
pub mod state;

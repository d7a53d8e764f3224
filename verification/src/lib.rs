//! Interactive shell for a falling-block puzzle game suite: a main menu with a
//! single-selection list, and the application-mode state machine that drives
//! navigation between the menu and the (not yet implemented) game modes.
//!
//! The crate holds the parts of the program with genuine state and transition
//! logic. Terminal setup, event reading and drawing live outside it; they hand
//! the library plain key events and receive the next mode back.

pub mod keys;
pub mod menu;
pub mod tui;

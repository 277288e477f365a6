//! What comes in from the keyboard.

pub mod key;

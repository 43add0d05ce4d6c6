//! Controls: what they are asked to be, and what is decided from it.
//!
//! Callbacks, and what the painter draws, are named by numbers that the painter
//! resolves.
pub mod button;
pub mod controls;
pub mod field;
pub mod look_laws;
pub mod menu;
pub mod popover;
pub mod word;

//! The terminal drawer.
pub mod cell_laws;
pub mod drawer;
pub mod grid;
pub mod key_bar;
pub mod layout;
pub mod model;
pub mod paint_laws;
pub mod paste;
pub mod selection;

pub mod command;
pub mod conversation_ui;
pub mod geometry;
pub mod keyed;
pub mod listing;
pub mod protocol;
pub mod store;
pub mod terminal;
pub mod text;
pub mod theme;
pub mod thread_export;
pub mod time;
pub mod toast;
pub mod touch_scroll;
pub mod utf16;
pub mod widgets;
pub mod window_seam;
pub mod zoom;

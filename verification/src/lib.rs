//! Core of a terminal-style portfolio interface: input-driven UI state
//! (tab selection and scroll offset) and a pure frame renderer that maps
//! that state onto a partitioned canvas as a list of draw commands.
//!
//! The hosting environment owns the event loop and the paint surface; it
//! feeds key events to [`state::App::handle_event`] and, on each repaint,
//! turns the commands from [`render::render`] into pixels.

pub mod layout;
pub mod render;
pub mod state;

//! The input and redraw bridge between a GUI widget and a terminal backend.
pub mod bridge;
pub mod dropped;
pub mod event;
pub mod font;
pub mod keys;
pub mod notifier;

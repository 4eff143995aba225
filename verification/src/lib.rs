//! Rendering of a pixel grid inside a text terminal.
//!
//! The library turns a grid of RGB pixels into the escape sequences of the
//! terminal's inline graphics protocol, keeps a fixed region of the terminal
//! free for log lines and a help overlay, and rewrites captured input events
//! so that a host sees pixel rows instead of character rows.
//!
//! Nothing here touches the terminal. Every operation returns the commands
//! that a caller has to perform, in order.

pub mod command;
pub mod encoder;
pub mod encoding;
pub mod event;
pub mod frame;
pub mod geometry;
pub mod pixel;
pub mod pump;
pub mod text;
pub mod window;

//! A pure client-side core of the X11 wire protocol and of the ICCCM clipboard protocol.
//!
//! The library holds no socket and starts no thread: it builds the bytes of every request,
//! numbers requests and routes the server's records back to them, decodes replies and events,
//! and runs the clipboard's transfer and handover state machines. The program around it moves
//! the bytes and runs the loops.

pub mod clipboard;
pub mod display;
pub mod ewmh;
pub mod extension;
pub mod keyboard;
pub mod proto;
pub mod window;

//! The rendering and input core of a terminal text viewer.
//!
//! The core never touches the host terminal. Every screen operation is
//! recorded as a [`editor::terminal::Command`] in the order in which it was
//! asked for, and every input comes in as a plain value: a key or resize
//! [`editor::event::Event`], the size the host reported, the contents of a
//! file. A driver around the core performs the recorded commands on the real
//! device and feeds the inputs back.

pub mod editor;

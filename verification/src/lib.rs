//! The logic of a small graphical shell, apart from everything that talks
//! to a server or a device.
//!
//! Most of it is canvas layout. A canvas is a rectangle of the screen with a
//! trust level and a clip rectangle. Canvases live in a registry of fixed
//! capacity, keyed by an opaque identifier. A layout owns a few canvases,
//! places them on the screen when it is made, and moves their clip rectangles
//! when it is resized. Nothing here draws: a layout answers with the fill
//! commands that its caller has to carry out.
//!
//! Beside it stand the numbers by which the shell and its input method name
//! their messages, and the grammar of the shell's `net` command.

pub mod canvas;
pub mod chat;
pub mod geometry;
pub mod ime;
pub mod layout;
pub mod menu;
pub mod netcmd;
pub mod registry;

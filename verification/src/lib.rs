//! Core of a line-driven map-rendering daemon: command protocol, renderer
//! lifecycle state machine, style-source resolution, batch rendering and the
//! image-encoding boundary. The rendering engine itself, JSON wire coding and
//! all I/O live outside this crate; the logic here is verified.
pub mod batch;
pub mod codec;
pub mod decimal;
pub mod dispatch;
pub mod protocol;
pub mod renderer;
pub mod style;

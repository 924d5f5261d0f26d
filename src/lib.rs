//! A bridge that turns a declarative chart specification, given as JSON text,
//! into an SVG rendering.
//!
//! The library holds the bridge's decisions: it checks the specification text
//! before any rendering is done, fixes what the renderer is asked for, and maps
//! what the renderer answers to a two-kind result and to the reply that a host
//! receives. Running the rendering engine itself is left to the caller.
pub mod conversion;
pub mod json;
pub mod options;
pub mod reply;

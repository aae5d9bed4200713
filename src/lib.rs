pub mod animation;
pub mod client;
pub mod geometry;
pub mod interop;
pub mod program;

//! Translation core of a retained-mode UI render backend.
//!
//! The library turns a list of abstract draw commands (geometry range,
//! clip rectangle, texture reference) into the exact resource bindings,
//! scissor rectangles and indexed draw calls that a rasterizer executes.
//! All coordinate arithmetic is carried out over integers and exact
//! rational factors, so every step of the translation is verified.

pub mod clip;
pub mod command;
pub mod drawer;
pub mod layout;
pub mod numeric;
pub mod options;
pub mod projection;
pub mod scale;

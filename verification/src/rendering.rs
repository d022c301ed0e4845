//! Rendering support: row-alignment arithmetic, screenshot values, and the
//! headless compositor model.

pub mod alignment;
pub mod capture;
pub mod compositor;
pub mod headless;
pub mod screenshot;

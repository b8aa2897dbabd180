//! An indexed-colour framebuffer: a grid of RGB cells, a sixteen-entry
//! palette, rectangle rasterisation and a blit to packed RGBA bytes.
pub mod cell;
pub mod laws;
pub mod screen;

pub use cell::{default_palette, Cell};
pub use screen::Screen;

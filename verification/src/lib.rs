pub mod canvas;
pub mod layout;
pub(crate) mod rng;
pub mod scaling;
pub mod transformation;

pub use canvas::Canvas;
pub use canvas::Px;
pub use layout::layout_paragraph;
pub use scaling::crop_and_resize;

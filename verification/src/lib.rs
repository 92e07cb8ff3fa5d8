//! Open Graph image synthesis engine.
//!
//! Given a small record describing a page (title, author, canonical URL,
//! avatar photo reference, visual theme), the library deterministically
//! produces a 1200x630 vector document and, on demand, a rasterized PNG
//! suitable for use as a social-media preview card.

pub mod error;
pub mod ident;
pub mod layout;
pub mod palette;
pub mod photo;
pub mod raster;
pub mod render;
pub mod utils;

pub use error::AppError;
pub use error::Res;
pub use palette::OGTheme;
pub use palette::Palette;
pub use photo::FetchError;
pub use render::OGImage;
pub use render::RenderError;
pub use utils::str_or_val;

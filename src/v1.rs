pub use crate::anitable::{AnimeData, Anitable, CaptionData};
pub use crate::types::Tabletype;

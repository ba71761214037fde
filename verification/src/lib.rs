//! Marksman: a verified static-site content pipeline.
//!
//! Converts a tree of markdown articles (each optionally carrying a
//! front-matter block) and media files into a mirrored tree of rendered
//! HTML pages plus a JSON digest of article metadata.

pub mod errors;
pub mod front_matter;
pub mod json;
pub mod paths;
pub mod pipeline;
pub mod render;

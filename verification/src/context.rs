//! What is known of pixel formats, textures and the pipelines that draw them.
pub mod layout;
pub mod pipeline_cache;

//! Image resizing edge service core: output-format resolution, the
//! decode / resize / encode transform, and the cache-aside request pipeline.
pub mod format;
pub mod transform;
pub mod query;
pub mod pipeline;

//! A transform plugin for a host bundler: one immutable configuration per
//! build, and two stateless operations, `transform` for each module and
//! `render_chunk` for each emitted chunk, each handing back code and an
//! optional source map.

mod source_map;
pub mod plugin;
pub mod laws;

pub use plugin::{FakeJsPlugin, TransformResult};

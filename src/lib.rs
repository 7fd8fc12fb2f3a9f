pub mod geometry;
pub mod sampler;
pub mod session;
pub mod query;
pub mod shortcut;

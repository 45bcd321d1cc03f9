//! A spatial map engine for a star-map viewer: a point cloud indexed for
//! radius queries, a pan/zoom viewport with clamping, a lazily recomputed
//! visibility cache, pure world/screen projection, and time-bounded pulse
//! animations on individual points.
//!
//! All coordinates are corrected integer world coordinates (see `sde`), so
//! every rule of the engine is stated and proved exactly over integers.

pub mod cache;
pub mod data;
pub mod engine;
pub mod geom;
pub mod index;
pub mod messages;
pub mod sde;
pub mod store;
pub mod table;
pub mod tracker;
pub mod viewport;

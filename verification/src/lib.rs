//! Decisions behind a textured-quad material: what its shader bindings are,
//! when its GPU resources can be built, and when the debug inspector is shown.

pub mod inspector;
pub mod layout;
pub mod material;

//! A fixed box mesh and the vertex buffer layout that a GPU pipeline binds it with.

pub mod geometry;
pub mod layout;
pub mod mesh;
pub mod vertex;

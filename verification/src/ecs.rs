//! Entities, their components and the world that stores them.

pub mod entity;
pub mod world;

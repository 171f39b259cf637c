//! Core of a temporal rendering pipeline.
//!
//! Once per display refresh a scene is projected through a jittered camera
//! with an infinite far plane and reversed depth, resolved against the
//! history of earlier frames, bloomed, composed and presented. This crate
//! holds what that takes beyond the graphics device itself:
//!
//! - [`gpu`]: the render targets and their sizes, the passes of a frame and
//!   the pipelines they are recorded with, and the bookkeeping of a tick;
//! - [`camera`], [`stereo_camera`], [`view`], [`jitter`], [`xr`]: camera
//!   state, the pairing of each frame's matrices with those of the frame
//!   before, the jitter sequence, and the view states handed downstream;
//! - [`app`], [`handoff`]: the frame loop's own state;
//! - [`chunk`], [`mesh`]: voxel chunks and their greedy meshes;
//! - [`ecs`], [`fast_rand`], [`static_geometry`], [`fullscreen_buffers`],
//!   [`shaders`], [`gl_sys`]: what the scenes are built from.
//!
//! The code works on integers, booleans and opaque matrices. Numbers with
//! a fractional part are carried as bit patterns or as exact fractions and
//! are never computed with here; [`math`] and [`scalar`] say how.

pub mod app;
pub mod camera;
pub mod chunk;
pub mod ecs;
pub mod fast_rand;
pub mod fullscreen_buffers;
pub mod gl_sys;
pub mod gpu;
pub mod handoff;
pub mod jitter;
pub mod math;
pub mod mesh;
pub mod scalar;
pub mod shaders;
pub mod static_geometry;
pub mod stereo_camera;
pub mod view;
pub mod xr;

//! A scene container that keeps mesh geometry, a material table and a
//! uniform bundle, and memoizes the GPU buffers derived from the geometry.

pub mod scene;

//! An adapter between a backend-agnostic 2D drawing interface and the canvas
//! of a vector renderer.
//!
//! Every drawing call is turned into the canvas operations that realise it.
//! Coordinates are never inspected, so all geometry is generic over the scalar
//! type `T`; the caller chooses the precision.

pub mod brush;
pub mod canvas;
pub mod context;
pub mod error;
pub mod font_source;
pub mod geometry;
pub mod image_bridge;
pub mod path;
pub mod text;
pub mod transform;

//! Two-dimensional points and vectors, as stored values.
//!
//! A [`Vector2D`] is a directed segment: an `origin` point of the plane and a
//! `target` that is the offset from that origin to the vector's end, never an
//! absolute coordinate.
//!
//! Coordinates are IEEE 754 doubles. This crate never computes with them: it
//! holds each one as its 64-bit pattern, builds points and vectors, replaces
//! their parts, and lays out a vector's text form. Arithmetic, and the
//! conversion between a number and its bit pattern or its text, belong to
//! the caller.
pub mod point;
pub mod text;
pub mod vector;

pub use point::Point2D;
pub use text::format_vector;
pub use vector::Vector2D;

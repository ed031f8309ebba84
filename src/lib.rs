//! An SVG drawing backend: turns immediate-mode drawing calls (circles,
//! lines, polylines, polygons, rectangles, rotated text and multi-contour
//! paths) into the lines of a well-formed SVG document.
//!
//! Coordinates, lengths and angles are fixed-point values in thousandths,
//! so that every number is written with exactly three decimals.
use vstd::prelude::*;

pub mod text;
pub mod number;
pub mod color;
pub mod element;
pub mod canvas;

verus! {

} // verus!

//! A verified core for a physically-based renderer.
//!
//! The library ingests a parsed scene document into renderable geometry,
//! deduplicates textures, memoizes shader variants, and turns a frame into a
//! sequence of graphics commands. Everything that touches the graphics API
//! itself is expressed as plain command data; an unverified shell executes it.

pub mod doc;
pub mod error;
pub mod glconst;
pub mod mat;
pub mod material;
pub mod mesh;
pub mod renderer;
pub mod shaders;
pub mod texture;

use vstd::prelude::*;

verus! {

/// Origin and extent of a viewport rectangle, in pixels.
#[derive(Clone, Copy, PartialEq, Eq, Structural, Debug)]
pub struct Viewport {
    pub min_x: u32,
    pub min_y: u32,
    pub width: u32,
    pub height: u32,
}

} // verus!

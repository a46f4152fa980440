//! Texture handles.
//!
//! A `Texture` is the id of an image already decoded and uploaded by the
//! texture-loader collaborator outside the library; entities only carry
//! and compare the handle, and the draw plan names which unit it binds to.
use vstd::prelude::*;

verus! {

/// Handle of one uploaded texture.
#[derive(Clone, Copy, Debug, PartialEq, Eq, Structural)]
pub struct Texture {
    pub id: u32,
}

/// The texture unit every entity texture binds to.
pub const DIFFUSE_UNIT: u32 = 0;

} // verus!

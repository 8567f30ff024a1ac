//! Labels of the rendering groups. The renderer itself lives outside the
//! library; these name which mesh group an entity belongs to and which
//! shader program draws a group.

use vstd::prelude::*;

verus! {

/// The shader program a group is drawn with.
#[derive(Clone, Copy, Debug, Eq, PartialEq, Structural)]
pub enum ProgramKind {
    /// Flat shading, no lighting.
    Simple,
    /// Shading with normals and point lights.
    Normal,
}

/// The mesh/material group of an instanced entity.
#[derive(Clone, Copy, Debug, Eq, Hash, PartialEq, Structural)]
pub enum InstanceKind {
    /// A cube without normals, drawn flat.
    SimpleCube,
    /// A cube with per-face normals, drawn lit.
    NormalCube,
}

/// The shader program that draws each group: plain cubes are drawn flat,
/// normal cubes are drawn lit.
pub fn program_for(kind: InstanceKind) -> (r: ProgramKind)
    ensures
        kind is SimpleCube <==> r is Simple,
        kind is NormalCube <==> r is Normal,
{
    match kind {
        InstanceKind::SimpleCube => ProgramKind::Simple,
        InstanceKind::NormalCube => ProgramKind::Normal,
    }
}

} // verus!

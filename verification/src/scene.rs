//! The kind-level logic of the scene's light derivation.
//!
//! Before rendering, the scene derives its light list from the objects
//! that carry an emissive material: an emissive sphere or plane
//! contributes its centre, an emissive mesh one sample point per
//! triangle with an emissive material.  Which materials and triangles
//! qualify is decided here; the sample points themselves are floating
//! point and are computed by the caller.

use vstd::prelude::*;

use crate::mesh::Triangle;

verus! {

/// The closed set of scattering behaviours a material can have,
/// stripped of its colours and coefficients.
#[derive(Clone, Copy, Debug, PartialEq, Eq, Structural)]
pub enum MaterialKind {
    /// Diffuse scattering.
    Lambertian,
    /// Metallic reflection.
    Metal,
    /// Refraction and reflection.
    Dielectric,
    /// Pure emission: such a material makes its object a light.
    Emissive,
}

/// Whether any material of the list is emissive, which is what makes a
/// mesh a light source.
pub fn has_emissive(kinds: &Vec<MaterialKind>) -> (b: bool)
    ensures
        b == exists|i: int| 0 <= i < kinds@.len() && (#[trigger] kinds@[i]) is Emissive,
{
    let mut i: usize = 0;
    while i < kinds.len()
        invariant
            0 <= i <= kinds@.len(),
            forall|k: int| 0 <= k < i ==> !((#[trigger] kinds@[k]) is Emissive),
        decreases kinds@.len() - i,
    {
        if matches!(kinds[i], MaterialKind::Emissive) {
            return true;
        }
        i = i + 1;
    }
    false
}

/// The triangle positions that contribute a light sample: those whose
/// material is emissive, in order.
pub open spec fn emissive_indices(kinds: Seq<MaterialKind>, triangles: Seq<Triangle>) -> Seq<usize>
    decreases triangles.len(),
{
    if triangles.len() == 0 {
        Seq::empty()
    } else {
        let prefix = emissive_indices(kinds, triangles.drop_last());
        if kinds[triangles.last().material_idx as int] is Emissive {
            prefix.push((triangles.len() - 1) as usize)
        } else {
            prefix
        }
    }
}

/// Selects the triangles of a mesh that contribute a light sample:
/// exactly those whose material is emissive, in order.  Every triangle
/// must name a material of the list; a triangle without one is a
/// malformed scene, which the caller rejects.
pub fn emissive_triangle_indices(kinds: &Vec<MaterialKind>, triangles: &Vec<Triangle>) -> (r: Vec<
    usize,
>)
    requires
        forall|k: int|
            0 <= k < triangles@.len() ==> (#[trigger] triangles@[k]).material_idx < kinds@.len(),
    ensures
        r@ == emissive_indices(kinds@, triangles@),
{
    let mut r: Vec<usize> = Vec::new();
    let mut i: usize = 0;
    while i < triangles.len()
        invariant
            0 <= i <= triangles@.len(),
            forall|k: int|
                0 <= k < triangles@.len() ==> (#[trigger] triangles@[k]).material_idx
                    < kinds@.len(),
            r@ == emissive_indices(kinds@, triangles@.take(i as int)),
        decreases triangles@.len() - i,
    {
        proof {
            assert(triangles@.take(i + 1).drop_last() =~= triangles@.take(i as int));
            assert(triangles@.take(i + 1).last() == triangles@[i as int]);
        }
        if matches!(kinds[triangles[i].material_idx], MaterialKind::Emissive) {
            r.push(i);
        }
        i = i + 1;
    }
    proof {
        assert(triangles@.take(triangles@.len() as int) =~= triangles@);
    }
    r
}

} // verus!

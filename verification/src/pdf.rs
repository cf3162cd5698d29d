use vstd::prelude::*;

verus! {

/// The uniform density over the whole sphere of directions, used by
/// volumetric scattering.  It carries no state: the constant density and the
/// direction draws are numeric work the rendering layer performs.
#[derive(Clone, Copy, PartialEq, Eq, Structural, Debug)]
pub struct SpherePdf {}

impl SpherePdf {
    pub fn blank() -> (r: SpherePdf)
        ensures
            r == (SpherePdf {  }),
    {
        SpherePdf {  }
    }
}

} // verus!

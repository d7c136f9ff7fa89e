use vstd::prelude::*;

verus! {

/// A rigid 2D transform (a rotation followed by a translation), the placement
/// value supplied by the collaborator geometry code.
///
/// The registry never interprets a placement: the four words carry the raw
/// encodings of the collaborator's rotation (a unit complex number) and
/// translation components. The collaborator encodes a transform before
/// handing it to the registry and decodes whatever the registry returns; two
/// placements are the same exactly when all four words agree.
#[derive(Clone, Copy, Debug, PartialEq, Eq, Structural)]
pub struct Transform {
    /// Encoded real part of the rotation.
    pub rot_re: u32,
    /// Encoded imaginary part of the rotation.
    pub rot_im: u32,
    /// Encoded x component of the translation.
    pub pos_x: u32,
    /// Encoded y component of the translation.
    pub pos_y: u32,
}

impl Transform {
    /// Bundle four encoded components into a placement value.
    pub fn new(rot_re: u32, rot_im: u32, pos_x: u32, pos_y: u32) -> (r: Transform)
        ensures
            r == (Transform { rot_re, rot_im, pos_x, pos_y }),
    {
        Transform { rot_re, rot_im, pos_x, pos_y }
    }
}

} // verus!

//! Names of the bind-group layouts that the passes share.

use vstd::prelude::*;

verus! {

/// One logical resource set. A pipeline layout is an ordered list of these,
/// and the position of a name in that list is the slot its bind group is
/// bound at.
#[derive(Clone, Copy, Debug, PartialEq, Eq, Structural)]
pub enum BindGroupLayoutKind {
    /// Light uniform data.
    Light,
    /// Camera uniform data: view-projection matrix and position.
    Camera,
    /// The g-buffer attachments filled by the geometry pass.
    GBuffer,
    /// The depth texture written by the shadow pass.
    ShadowDepthTexture,
    /// The pair of textures the compute passes read and write in turn.
    ComputePingPong,
}

impl BindGroupLayoutKind {
    /// Whether the bind group is backed by an intermediate texture that is
    /// sized with the output, as opposed to a uniform buffer.
    pub open spec fn spec_is_intermediate_texture(self) -> bool {
        self is GBuffer || self is ShadowDepthTexture || self is ComputePingPong
    }

    #[verifier::when_used_as_spec(spec_is_intermediate_texture)]
    pub fn is_intermediate_texture(self) -> (r: bool)
        ensures
            r == self.spec_is_intermediate_texture(),
    {
        match self {
            BindGroupLayoutKind::Light => false,
            BindGroupLayoutKind::Camera => false,
            BindGroupLayoutKind::GBuffer => true,
            BindGroupLayoutKind::ShadowDepthTexture => true,
            BindGroupLayoutKind::ComputePingPong => true,
        }
    }
}

} // verus!

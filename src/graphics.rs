use vstd::prelude::*;

verus! {

/// OpenGL ES version a rendering surface was created with.
#[derive(Clone, Copy, Debug, PartialEq, Eq, Structural)]
pub enum GlesVersion {
    Gles3,
    Gles2,
}

/// The version launch settles on: the preferred ES 3 where the device offers
/// it, else ES 2, else none.
pub open spec fn negotiated(gles3_available: bool, gles2_available: bool) -> Option<GlesVersion> {
    if gles3_available {
        Some(GlesVersion::Gles3)
    } else if gles2_available {
        Some(GlesVersion::Gles2)
    } else {
        None
    }
}

/// Picks the rendering API from what the device reported it could create.
pub fn negotiate_api(gles3_available: bool, gles2_available: bool) -> (r: Option<GlesVersion>)
    ensures
        r == negotiated(gles3_available, gles2_available),
{
    if gles3_available {
        Some(GlesVersion::Gles3)
    } else if gles2_available {
        Some(GlesVersion::Gles2)
    } else {
        None
    }
}

/// Handle to the rendering backend, created once a drawable surface exists.
/// It records which API version the surface was negotiated with, so that the
/// application can see it.
pub struct GraphicsContext {
    api: GlesVersion,
}

impl View for GraphicsContext {
    type V = GlesVersion;

    closed spec fn view(&self) -> GlesVersion {
        self.api
    }
}

impl GraphicsContext {
    pub fn new(api: GlesVersion) -> (g: GraphicsContext)
        ensures
            g@ == api,
    {
        GraphicsContext { api }
    }

    pub fn api(&self) -> (r: GlesVersion)
        ensures
            r == self@,
    {
        self.api
    }
}

} // verus!

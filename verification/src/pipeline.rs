//! The fixed render-pipeline description: one vertex and one fragment entry
//! point from the static shader, a triangle-list topology, replace blending,
//! no depth/stencil, no multisampling, and a single color target that must
//! match the surface's negotiated format.  The GPU layer compiles this
//! description once at startup.

use vstd::prelude::*;

use crate::surface::SurfaceFormat;

verus! {

/// What the pipeline is built from, as the core decides it.
pub struct PipelineDesc {
    /// Entry point of the vertex stage in the static shader.
    pub vertex_entry: String,
    /// Entry point of the fragment stage in the static shader.
    pub fragment_entry: String,
    /// The single color target's format; must equal the surface's format.
    pub target_format: SurfaceFormat,
    /// Vertices are assembled as a triangle list.
    pub triangle_list: bool,
    /// Color and alpha are written by replacement, without blending.
    pub blend_replace: bool,
    /// Samples per pixel; one means no multisampling.
    pub sample_count: u32,
    /// Whether a depth/stencil attachment exists; none does.
    pub depth_stencil: bool,
}

/// The pipeline description for a surface of the given format.
pub fn pipeline_desc(surface_format: SurfaceFormat) -> (r: PipelineDesc)
    ensures
        r.vertex_entry@ == "vs_main"@,
        r.fragment_entry@ == "fs_main"@,
        r.target_format == surface_format,
        r.triangle_list,
        r.blend_replace,
        r.sample_count == 1,
        !r.depth_stencil,
{
    PipelineDesc {
        vertex_entry: String::from_str("vs_main"),
        fragment_entry: String::from_str("fs_main"),
        target_format: surface_format,
        triangle_list: true,
        blend_replace: true,
        sample_count: 1,
        depth_stencil: false,
    }
}

} // verus!

//! Staged construction of the one graphics pipeline: a builder that fixes
//! the shader asset, the two entry points and the target pixel format, and
//! a build step that validates the shader asset and pins every remaining
//! pipeline setting.

use vstd::prelude::*;
use crate::surface::PixelFormat;

verus! {

/// How triangles read their vertices: three consecutive vertices per
/// triangle, no strips.
#[derive(Clone, Copy, PartialEq, Eq, Structural, Debug)]
pub enum Topology {
    TriangleList,
    TriangleStrip,
}

/// Which winding order counts as the front of a triangle.
#[derive(Clone, Copy, PartialEq, Eq, Structural, Debug)]
pub enum FrontFace {
    CounterClockwise,
    Clockwise,
}

/// The complete, plain description of the graphics pipeline the embedder
/// is to create: the shader program, its two entry points, the color
/// target, and every fixed-function setting.
#[derive(Clone, PartialEq, Eq, Debug)]
pub struct PipelineDescriptor {
    /// The shader source text, compiled by the GPU driver.
    pub shader_source: String,
    /// Entry point of the vertex stage.
    pub vertex_entry: String,
    /// Entry point of the fragment stage.
    pub fragment_entry: String,
    /// Pixel format of the single color target; must equal the format of
    /// the surface the pipeline draws to.
    pub pixel_format: PixelFormat,
    /// Number of bind group layouts: the pipeline binds no external data.
    pub bind_group_count: u32,
    /// Number of push constant ranges: none.
    pub push_constant_count: u32,
    /// Number of vertex buffers: the geometry is synthesized in-shader.
    pub vertex_buffer_count: u32,
    pub topology: Topology,
    pub front_face: FrontFace,
    /// Back faces are culled.
    pub cull_back_faces: bool,
    /// Polygons are filled, not drawn as lines or points.
    pub fill_polygons: bool,
    /// Color and alpha replace the target without blending.
    pub blend_replace: bool,
    /// All color channels are written.
    pub write_all_channels: bool,
    /// No depth or stencil attachment.
    pub has_depth_stencil: bool,
    /// No multisampling.
    pub sample_count: u32,
    /// No multiview rendering.
    pub has_multiview: bool,
}

/// Why the pipeline could not be built.
#[derive(Clone, PartialEq, Eq, Debug)]
pub enum PipelineError {
    /// The shader asset was not found at the named path; startup cannot
    /// proceed without it.
    ShaderAssetMissing { path: String },
}

impl PipelineError {
    /// A human-readable diagnostic, naming the missing path.
    pub fn message(&self) -> (m: String)
        ensures
            m@ == "shader asset does not exist: "@ + self->path@,
    {
        match self {
            PipelineError::ShaderAssetMissing { path } => {
                let head: String = "shader asset does not exist: ".to_owned();
                head.concat(path.as_str())
            },
        }
    }
}

/// The builder for the one graphics pipeline: the shader asset name, the
/// two entry points, and the pixel format of the color target. Configured
/// by chained calls, then built once.
pub struct Pipeline {
    pub shader_filename: String,
    pub vertex_entry: String,
    pub fragment_entry: String,
    pub pixel_format: PixelFormat,
}

/// The pixel format a builder starts from before the surface's negotiated
/// format is set: the embedder's default swapchain format, an sRGB one.
pub open spec fn placeholder_format() -> PixelFormat {
    PixelFormat { code: 0, srgb: true }
}

/// What `build_pipeline` promises of the descriptor it produces from a
/// builder and the shader source: every fixed-function setting is pinned.
pub open spec fn descriptor_matches(d: PipelineDescriptor, p: Pipeline, source: Seq<char>) -> bool {
    &&& d.shader_source@ == source
    &&& d.vertex_entry@ == p.vertex_entry@
    &&& d.fragment_entry@ == p.fragment_entry@
    &&& d.pixel_format == p.pixel_format
    &&& d.bind_group_count == 0
    &&& d.push_constant_count == 0
    &&& d.vertex_buffer_count == 0
    &&& d.topology == Topology::TriangleList
    &&& d.front_face == FrontFace::CounterClockwise
    &&& d.cull_back_faces
    &&& d.fill_polygons
    &&& d.blend_replace
    &&& d.write_all_channels
    &&& !d.has_depth_stencil
    &&& d.sample_count == 1
    &&& !d.has_multiview
}

impl Default for Pipeline {
    /// An unconfigured builder: empty names and the placeholder format.
    fn default() -> (p: Self)
        ensures
            p.shader_filename@ == Seq::<char>::empty(),
            p.vertex_entry@ == Seq::<char>::empty(),
            p.fragment_entry@ == Seq::<char>::empty(),
            p.pixel_format == placeholder_format(),
    {
        Pipeline {
            shader_filename: String::new(),
            vertex_entry: String::new(),
            fragment_entry: String::new(),
            pixel_format: PixelFormat { code: 0, srgb: true },
        }
    }
}

impl Pipeline {
    /// Starts a builder for a pipeline over the named shader asset and its
    /// vertex and fragment entry points, with the placeholder format until
    /// `set_pixel_format` supplies the negotiated one.
    pub fn new(shader_filename: &str, vertex_entry: &str, fragment_entry: &str) -> (p: Self)
        ensures
            p.shader_filename@ == shader_filename@,
            p.vertex_entry@ == vertex_entry@,
            p.fragment_entry@ == fragment_entry@,
            p.pixel_format == placeholder_format(),
    {
        Pipeline {
            shader_filename: shader_filename.to_owned(),
            vertex_entry: vertex_entry.to_owned(),
            fragment_entry: fragment_entry.to_owned(),
            pixel_format: PixelFormat { code: 0, srgb: true },
        }
    }

    /// Replaces the color target's pixel format; the other settings stand.
    pub fn set_pixel_format(self, pixel_format: PixelFormat) -> (p: Self)
        ensures
            p.pixel_format == pixel_format,
            p.shader_filename == self.shader_filename,
            p.vertex_entry == self.vertex_entry,
            p.fragment_entry == self.fragment_entry,
    {
        Pipeline { pixel_format, ..self }
    }

    /// Builds the pipeline description from the shader source the embedder
    /// read for this builder's asset, `None` standing for an asset that
    /// does not exist. A missing asset is fatal to startup: the error
    /// names the missing path and no pipeline is produced. With the source
    /// in hand the build always succeeds and pins every setting of the
    /// descriptor.
    pub fn build_pipeline(&self, shader_source: Option<String>) -> (r: Result<
        PipelineDescriptor,
        PipelineError,
    >)
        ensures
            match r {
                Ok(d) => shader_source matches Some(s) && descriptor_matches(d, *self, s@),
                Err(e) => {
                    &&& shader_source is None
                    &&& e matches PipelineError::ShaderAssetMissing { path }
                    &&& path@ == self.shader_filename@
                },
            },
    {
        match shader_source {
            None => Err(
                PipelineError::ShaderAssetMissing { path: self.shader_filename.clone() },
            ),
            Some(source) => Ok(
                PipelineDescriptor {
                    shader_source: source,
                    vertex_entry: self.vertex_entry.clone(),
                    fragment_entry: self.fragment_entry.clone(),
                    pixel_format: self.pixel_format,
                    bind_group_count: 0,
                    push_constant_count: 0,
                    vertex_buffer_count: 0,
                    topology: Topology::TriangleList,
                    front_face: FrontFace::CounterClockwise,
                    cull_back_faces: true,
                    fill_polygons: true,
                    blend_replace: true,
                    write_all_channels: true,
                    has_depth_stencil: false,
                    sample_count: 1,
                    has_multiview: false,
                },
            ),
        }
    }
}

} // verus!

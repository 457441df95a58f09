use vstd::prelude::*;

use crate::color::Rgba;
use crate::transform::ViewportTransform;

verus! {

// The frame compositor. Each frame it lays out one render pass over the
// presented target with two ordered subpasses sharing the color
// attachment: subpass 0 draws the simulation image as a textured quad
// inside a caller-supplied sub-rectangle of the target, subpass 1 runs
// the externally produced overlay over the full target. `render` records
// that layout as a frame plan; the device executes it.

/// One corner of the textured screen-space quad. Positions are -1 or 1,
/// texture coordinates 0 or 1.
#[derive(Clone, Copy, PartialEq, Eq, Structural, Debug)]
pub struct QuadVertex {
    pub position_x: i32,
    pub position_y: i32,
    pub tex_u: i32,
    pub tex_v: i32,
}

/// The four corners of the unit quad, in order: bottom-left, top-left,
/// top-right, bottom-right, with texture coordinates at the matching
/// corners of the image.
pub open spec fn quad_vertices() -> Seq<QuadVertex> {
    seq![
        (QuadVertex { position_x: -1i32, position_y: -1i32, tex_u: 0i32, tex_v: 0i32 }),
        (QuadVertex { position_x: -1i32, position_y: 1i32, tex_u: 0i32, tex_v: 1i32 }),
        (QuadVertex { position_x: 1i32, position_y: 1i32, tex_u: 1i32, tex_v: 1i32 }),
        (QuadVertex { position_x: 1i32, position_y: -1i32, tex_u: 1i32, tex_v: 0i32 }),
    ]
}

/// The six indices drawing the quad as two triangles.
pub open spec fn quad_indices() -> Seq<u32> {
    seq![0u32, 2u32, 1u32, 0u32, 3u32, 2u32]
}

/// A sub-rectangle of the target, in device pixels: where subpass 0
/// draws.
#[derive(Clone, Copy, PartialEq, Eq, Structural, Debug)]
pub struct ViewportRect {
    pub x: u32,
    pub y: u32,
    pub width: u32,
    pub height: u32,
}

/// The fixed render-pass layout: one color attachment cleared on load and
/// stored on completion, shared by two ordered subpasses.
#[derive(Clone, Copy, PartialEq, Eq, Structural, Debug)]
pub struct RenderPassPlan {
    pub load_clear: bool,
    pub store_store: bool,
    pub subpass_count: u32,
}

/// The per-frame descriptor contents of subpass 0: the uniform transform,
/// and the simulation image sampled with linear filtering and
/// clamp-to-border addressing.
#[derive(Clone, Copy, PartialEq, Eq, Structural, Debug)]
pub struct DescriptorSetPlan {
    pub transform: ViewportTransform,
    pub linear_filter: bool,
    pub clamp_to_border: bool,
}

/// What subpass 0 does: draw the quad, through the descriptor set, with
/// the given sub-rectangle as the active viewport.
#[derive(Clone, Copy, PartialEq, Eq, Structural, Debug)]
pub struct ViewportPassPlan {
    pub subpass: u32,
    pub viewport: ViewportRect,
    pub descriptor_set: DescriptorSetPlan,
    pub index_count: u32,
}

/// What subpass 1 does: execute the overlay's pre-recorded commands over
/// the full target.
#[derive(Clone, Copy, PartialEq, Eq, Structural, Debug)]
pub struct GuiPassPlan {
    pub subpass: u32,
    pub target_width: u32,
    pub target_height: u32,
}

/// One frame's recorded command layout, in execution order.
#[derive(Clone, Copy, PartialEq, Eq, Structural, Debug)]
pub struct FramePlan {
    pub clear_color: Rgba,
    pub viewport_pass: ViewportPassPlan,
    pub gui_pass: GuiPassPlan,
}

pub struct FinalRenderPass {
    pub vertex_buffer: Vec<QuadVertex>,
    pub index_buffer: Vec<u32>,
    pub render_pass: RenderPassPlan,
}

impl FinalRenderPass {
    /// Well-formed: the quad geometry is exactly the unit quad, and the
    /// render pass has the fixed two-subpass layout.
    pub open spec fn wf(self) -> bool {
        &&& self.vertex_buffer@ == quad_vertices()
        &&& self.index_buffer@ == quad_indices()
        &&& self.render_pass == (RenderPassPlan {
            load_clear: true,
            store_store: true,
            subpass_count: 2,
        })
    }

    /// A compositor holding the immutable quad geometry and the fixed
    /// render-pass layout.
    pub fn new() -> (s: Self)
        ensures
            s.wf(),
    {
        let (vertex_buffer, index_buffer) = Self::create_viewport_quad();
        let render_pass = Self::create_render_pass();
        FinalRenderPass { vertex_buffer, index_buffer, render_pass }
    }

    /// The vertex and index buffers of the unit screen-space quad: four
    /// corners at [-1,-1]..[1,1] and six indices forming two triangles.
    pub fn create_viewport_quad() -> (r: (Vec<QuadVertex>, Vec<u32>))
        ensures
            r.0@ == quad_vertices(),
            r.1@ == quad_indices(),
    {
        let mut vertices: Vec<QuadVertex> = Vec::new();
        vertices.push(QuadVertex { position_x: -1, position_y: -1, tex_u: 0, tex_v: 0 });
        vertices.push(QuadVertex { position_x: -1, position_y: 1, tex_u: 0, tex_v: 1 });
        vertices.push(QuadVertex { position_x: 1, position_y: 1, tex_u: 1, tex_v: 1 });
        vertices.push(QuadVertex { position_x: 1, position_y: -1, tex_u: 1, tex_v: 0 });
        let mut indices: Vec<u32> = Vec::new();
        indices.push(0);
        indices.push(2);
        indices.push(1);
        indices.push(0);
        indices.push(3);
        indices.push(2);
        proof {
            assert(vertices@ =~= quad_vertices());
            assert(indices@ =~= quad_indices());
        }
        (vertices, indices)
    }

    /// The fixed render-pass layout: clear on load, store on completion,
    /// two ordered subpasses over one color attachment.
    pub fn create_render_pass() -> (p: RenderPassPlan)
        ensures
            p == (RenderPassPlan { load_clear: true, store_store: true, subpass_count: 2 }),
    {
        RenderPassPlan { load_clear: true, store_store: true, subpass_count: 2 }
    }

    /// The fresh per-frame descriptor contents: the given transform as
    /// the uniform, and the simulation image behind a linear-filtered,
    /// clamp-to-border sampler.
    pub fn create_descriptor_set(&self, transform: ViewportTransform) -> (p: DescriptorSetPlan)
        ensures
            p.transform == transform,
            p.linear_filter,
            p.clamp_to_border,
    {
        DescriptorSetPlan { transform, linear_filter: true, clamp_to_border: true }
    }

    /// The subpass that draws the simulation image.
    pub fn viewport_subpass(&self) -> (r: u32)
        ensures
            r == 0,
    {
        0
    }

    /// The subpass that executes the overlay's commands.
    pub fn gui_subpass(&self) -> (r: u32)
        ensures
            r == 1,
    {
        1
    }

    /// Record one frame: clear the target to opaque black, then in
    /// subpass 0 draw the quad with the given sub-rectangle as the active
    /// viewport and the given transform in the descriptor set, then in
    /// subpass 1 run the overlay over the full target. The overlay always
    /// covers the whole target; the simulation image is confined to the
    /// caller's sub-rectangle.
    pub fn render(
        &self,
        target_width: u32,
        target_height: u32,
        viewport_bounds: ViewportRect,
        viewport_transform: ViewportTransform,
    ) -> (p: FramePlan)
        requires
            self.wf(),
        ensures
            p.clear_color == (Rgba { r: 0, g: 0, b: 0, a: 255 }),
            p.viewport_pass.subpass == 0,
            p.viewport_pass.viewport == viewport_bounds,
            p.viewport_pass.descriptor_set.transform == viewport_transform,
            p.viewport_pass.descriptor_set.linear_filter,
            p.viewport_pass.descriptor_set.clamp_to_border,
            p.viewport_pass.index_count == quad_indices().len(),
            p.gui_pass.subpass == 1,
            p.gui_pass.target_width == target_width,
            p.gui_pass.target_height == target_height,
    {
        let descriptor_set = self.create_descriptor_set(viewport_transform);
        let index_count = self.index_buffer.len() as u32;
        let viewport_pass = ViewportPassPlan {
            subpass: self.viewport_subpass(),
            viewport: viewport_bounds,
            descriptor_set,
            index_count,
        };
        let gui_pass = GuiPassPlan { subpass: self.gui_subpass(), target_width, target_height };
        FramePlan { clear_color: Rgba::black(), viewport_pass, gui_pass }
    }
}

} // verus!

use game_of_life::color::Rgba;
use game_of_life::final_render_pass::{FinalRenderPass, QuadVertex, ViewportRect};
use game_of_life::transform::{apply_transform, ViewportTransform, FX_ONE};

#[test]
fn quad_geometry_is_the_unit_quad() {
    let (vertices, indices) = FinalRenderPass::create_viewport_quad();
    let corners = [
        (-1, -1, 0, 0),
        (-1, 1, 0, 1),
        (1, 1, 1, 1),
        (1, -1, 1, 0),
    ];
    assert_eq!(vertices.len(), 4);
    for (v, (px, py, tu, tv)) in vertices.iter().zip(corners) {
        assert_eq!(
            *v,
            QuadVertex { position_x: px, position_y: py, tex_u: tu, tex_v: tv }
        );
    }
    assert_eq!(indices, vec![0, 2, 1, 0, 3, 2]);
}

#[test]
fn default_transform_is_identity() {
    let t = ViewportTransform::default();
    assert_eq!(t.offset_x, 0);
    assert_eq!(t.offset_y, 0);
    assert_eq!(t.scale, FX_ONE);
    assert_eq!(t.aspect_ratio, FX_ONE);
}

#[test]
fn identity_transform_maps_quad_to_unit_square() {
    // offset (0,0), scale 1, aspect 1: corners map exactly to
    // [-1,1] x [-1,1] in fixed point.
    let t = ViewportTransform::default();
    assert_eq!(apply_transform(&t, -1, -1), (-FX_ONE, -FX_ONE));
    assert_eq!(apply_transform(&t, 1, 1), (FX_ONE, FX_ONE));
    assert_eq!(apply_transform(&t, -1, 1), (-FX_ONE, FX_ONE));
    assert_eq!(apply_transform(&t, 1, -1), (FX_ONE, -FX_ONE));
}

#[test]
fn double_scale_maps_quad_to_double_square() {
    // scale 2: corners map to [-2,2] x [-2,2] before clipping.
    let t = ViewportTransform {
        offset_x: 0,
        offset_y: 0,
        scale: 2 * FX_ONE,
        aspect_ratio: FX_ONE,
    };
    assert_eq!(apply_transform(&t, -1, -1), (-2 * FX_ONE, -2 * FX_ONE));
    assert_eq!(apply_transform(&t, 1, 1), (2 * FX_ONE, 2 * FX_ONE));
}

#[test]
fn transform_applies_offset_and_aspect() {
    // scale 1, aspect 1/2, offset (100, -50):
    // x = px + 100, y = py/2 - 50 in fixed point.
    let t = ViewportTransform {
        offset_x: 100,
        offset_y: -50,
        scale: FX_ONE,
        aspect_ratio: FX_ONE / 2,
    };
    assert_eq!(apply_transform(&t, 1, 1), (FX_ONE + 100, FX_ONE / 2 - 50));
    assert_eq!(apply_transform(&t, -1, -1), (-FX_ONE + 100, -(FX_ONE / 2) - 50));
}

#[test]
fn render_confines_viewport_and_covers_target_with_overlay() {
    // A reported available rectangle narrower than the target: subpass 0
    // gets exactly that rectangle as its viewport, subpass 1 still covers
    // the whole target.
    let pass = FinalRenderPass::new();
    let bounds = ViewportRect { x: 300, y: 0, width: 500, height: 600 };
    let t = ViewportTransform::default();
    let plan = pass.render(800, 600, bounds, t);
    assert_eq!(plan.viewport_pass.viewport, bounds);
    assert_eq!(plan.viewport_pass.subpass, 0);
    assert_eq!(plan.gui_pass.subpass, 1);
    assert_eq!(plan.gui_pass.target_width, 800);
    assert_eq!(plan.gui_pass.target_height, 600);
    assert_eq!(plan.clear_color, Rgba { r: 0, g: 0, b: 0, a: 255 });
    assert_eq!(plan.viewport_pass.index_count, 6);
    assert_eq!(plan.viewport_pass.descriptor_set.transform, t);
    assert!(plan.viewport_pass.descriptor_set.linear_filter);
    assert!(plan.viewport_pass.descriptor_set.clamp_to_border);
}

#[test]
fn render_pass_layout_is_two_ordered_subpasses() {
    let pass = FinalRenderPass::new();
    assert!(pass.render_pass.load_clear);
    assert!(pass.render_pass.store_store);
    assert_eq!(pass.render_pass.subpass_count, 2);
    assert_eq!(pass.viewport_subpass(), 0);
    assert_eq!(pass.gui_subpass(), 1);
}

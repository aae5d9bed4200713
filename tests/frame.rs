use shape_render::animation::AnimationState;
use shape_render::client::{flat, gradient, DrawCall, MyClient, RenderCommand, Rgba, Shading, INSET_MARGIN};
use shape_render::geometry::{clip_transform, Rect};

fn draws(cmds: &[RenderCommand]) -> Vec<DrawCall> {
    cmds.iter()
        .filter_map(|c| match c {
            RenderCommand::Draw(d) => Some(*d),
            RenderCommand::Clear => None,
        })
        .collect()
}

#[test]
fn render_without_update_uses_initial_rectangle() {
    let c = MyClient::new();
    let cmds = c.render();
    assert_eq!(cmds.len(), 3);
    assert_eq!(cmds[0], RenderCommand::Clear);
    let d = draws(&cmds);
    assert_eq!(d[0].rect, Rect { bottom: 165, top: 503, left: 130, right: 603 });
    assert_eq!(c.state, AnimationState::new());
}

#[test]
fn frame_after_update_has_two_nested_draws() {
    let mut c = MyClient::new();
    c.update(0, 600, 800);
    let cmds = c.render();
    assert_eq!(cmds[0], RenderCommand::Clear);
    let d = draws(&cmds);
    assert_eq!(d.len(), 2);
    let (a, b) = (d[0].rect, d[1].rect);
    assert_eq!(b.bottom, a.bottom + 20);
    assert_eq!(b.top, a.top - 20);
    assert_eq!(b.left, a.left + 20);
    assert_eq!(b.right, a.right - 20);
    assert_eq!(d[0].shading, flat());
    assert_eq!(d[1].shading, gradient());
    assert_eq!((d[0].canvas_height, d[0].canvas_width), (600, 800));
    assert_eq!((d[1].canvas_height, d[1].canvas_width), (600, 800));
}

#[test]
fn inset_of_a_small_rectangle_turns_inside_out() {
    let mut c = MyClient::new();
    c.update(0, 2, 2);
    let d = draws(&c.render());
    assert_eq!(d[0].rect, Rect { bottom: 1, top: 2, left: 1, right: 2 });
    assert_eq!(d[1].rect, Rect { bottom: 21, top: -18, left: 21, right: -18 });
}

#[test]
fn inset_moves_each_edge() {
    let r = Rect { bottom: 10, top: 100, left: -5, right: 50 };
    assert_eq!(r.inset(INSET_MARGIN), Rect { bottom: 30, top: 80, left: 15, right: 30 });
    assert_eq!(r.inset(0), r);
}

#[test]
fn shadings_are_flat_then_gradient() {
    assert!(matches!(flat(), Shading::Flat { .. }));
    match gradient() {
        Shading::Gradient { from, to } => assert_ne!(from, to),
        Shading::Flat { .. } => panic!("expected a gradient"),
    }
    assert_eq!(flat(), Shading::Flat { color: Rgba { r: 128, g: 204, b: 51, a: 255 } });
}

#[test]
fn clip_transform_maps_unit_square_onto_rectangle() {
    let t = clip_transform(Rect { bottom: 150, top: 450, left: 200, right: 600 }, 600, 800);
    assert_eq!((t.denom_x, t.denom_y), (800, 600));
    assert_eq!((t.scale_x, t.translate_x), (800, -400));
    assert_eq!((t.scale_y, t.translate_y), (600, -300));
    // corners: left -> -0.5, right -> 0.5, bottom -> -0.5, top -> 0.5
    assert_eq!(t.translate_x * 2, -(t.denom_x as i128));
    assert_eq!((t.scale_x + t.translate_x) * 2, t.denom_x as i128);
}

#[test]
fn clip_transform_of_whole_canvas_is_identity_square() {
    let t = clip_transform(Rect { bottom: 0, top: 600, left: 0, right: 800 }, 600, 800);
    assert_eq!((t.scale_x, t.translate_x, t.denom_x), (1600, -800, 800));
    assert_eq!((t.scale_y, t.translate_y, t.denom_y), (1200, -600, 600));
}

#[test]
fn clip_transform_of_extreme_rectangle() {
    let t = clip_transform(Rect { bottom: i64::MIN, top: i64::MAX, left: i64::MIN, right: i64::MAX }, 1, 1);
    assert_eq!(t.scale_x, 2 * (i64::MAX as i128 - i64::MIN as i128));
    assert_eq!(t.translate_y, 2 * (i64::MIN as i128) - 1);
}

use vector_shapes::canvas::{Canvas, CanvasMode};
use vector_shapes::children::{spawn_extras, ShapeChildBuilder};
use vector_shapes::config::{PaintConfig, PipelineType};
use vector_shapes::flags::{pack_flags, Alignment, Cap, Flags, ThicknessType};
use vector_shapes::frame::{missing_targets, plan_frame};
use vector_shapes::matrix::{identity, scale, translation, ONE, ZERO};
use vector_shapes::painter::{ShapePainter, StackUnderflow};
use vector_shapes::quad_bezier::{vertex_layout, AttrFormat, QuadBezier};
use vector_shapes::record::{decode_transform, InvalidGeometry, Point3, QuadBezierData};

fn bits(v: f32) -> u32 {
    v.to_bits()
}

fn pt(x: f32, y: f32, z: f32) -> Point3 {
    Point3 { x: bits(x), y: bits(y), z: bits(z) }
}

#[test]
fn flags_pack_each_field() {
    let f = pack_flags(ThicknessType::Screen, Alignment::Billboard, Cap::Round);
    assert_eq!(f.0, 2 | (1 << 2) | (2 << 4));
    assert_eq!(f.thickness_type(), Some(ThicknessType::Screen));
    assert_eq!(f.alignment(), Some(Alignment::Billboard));
    assert_eq!(f.cap(), Some(Cap::Round));
}

#[test]
fn flags_setters_keep_other_bits() {
    let mut f = Flags(0xffff_ff00 | (3 << 4));
    f.set_thickness_type(ThicknessType::Pixels);
    assert_eq!(f.0, 0xffff_ff00 | (3 << 4) | 1);
    assert_eq!(f.cap(), None);
    f.set_cap(Cap::Square);
    assert_eq!(f.0, 0xffff_ff00 | (1 << 4) | 1);
    f.set_alignment(Alignment::Billboard);
    assert_eq!(f.0, 0xffff_ff00 | (1 << 4) | (1 << 2) | 1);
    f.set_alignment(Alignment::Flat);
    assert_eq!(f.alignment(), Some(Alignment::Flat));
    assert_eq!(f.thickness_type(), Some(ThicknessType::Pixels));
}

#[test]
fn save_restore_round_trip() {
    let mut p = ShapePainter::new();
    p.set_color([bits(1.0), 0, 0, ONE]);
    let before = p.config;
    p.save();
    p.set_thickness(bits(4.0), ThicknessType::Pixels);
    p.translate(bits(1.0), bits(2.0), 0);
    p.save();
    p.set_canvas(Some(7));
    assert_eq!(p.restore(), Ok(()));
    assert_eq!(p.restore(), Ok(()));
    assert_eq!(p.config.color, before.color);
    assert_eq!(p.config.thickness, before.thickness);
    assert_eq!(p.config.transform, before.transform);
    assert_eq!(p.config.canvas, None);
    assert_eq!(p.saved.len(), 0);
}

#[test]
fn restore_without_save_fails() {
    let mut p = ShapePainter::new();
    p.set_thickness(bits(3.0), ThicknessType::World);
    assert_eq!(p.restore(), Err(StackUnderflow));
    assert_eq!(p.config.thickness, bits(3.0));
}

#[test]
fn reset_restores_default() {
    let mut p = ShapePainter::new();
    p.set_canvas(Some(3));
    p.scale(bits(2.0), bits(2.0), ONE);
    p.reset();
    assert_eq!(p.config.canvas, None);
    assert_eq!(p.config.transform, identity());
    assert_eq!(p.config.thickness, ONE);
    assert_eq!(p.config.color, [ZERO, ZERO, ZERO, ONE]);
}

#[test]
fn translate_moves_later_draws() {
    let mut p = ShapePainter::new();
    p.translate(bits(1.0), bits(2.0), bits(3.0));
    p.translate(bits(1.0), 0, 0);
    assert_eq!(&p.config.transform[12..16], &[bits(2.0), bits(2.0), bits(3.0), ONE]);
    p.scale(bits(2.0), bits(3.0), ONE);
    assert_eq!(p.config.transform[0], bits(2.0));
    assert_eq!(p.config.transform[5], bits(3.0));
    assert_eq!(p.config.transform[12], bits(2.0));
}

#[test]
fn composition_order_is_local() {
    let config = PaintConfig::default_config();
    let shape = QuadBezier::new(&config, pt(0.0, 0.0, 0.0), pt(0.0, 0.0, 0.0), pt(0.0, 0.0, 0.0));
    let t = translation(bits(1.0), 0, 0);
    let s = scale(bits(2.0), bits(2.0), bits(2.0));
    let m = shape.data_under(&t, &s).transform;
    assert_eq!(m[0], bits(2.0));
    assert_eq!(m[12], bits(1.0));
    let n = shape.data_under(&s, &t).transform;
    assert_eq!(n[12], bits(2.0));
}

#[test]
fn rotation_quarter_turn() {
    let mut p = ShapePainter::new();
    p.rotate_z(bits(std::f32::consts::FRAC_PI_2));
    let m = p.config.transform;
    assert!((f32::from_bits(m[1]) - 1.0).abs() < 1e-6);
    assert!((f32::from_bits(m[4]) + 1.0).abs() < 1e-6);
    assert_eq!(m[10], ONE);
    assert_eq!(m[15], ONE);
    assert_eq!(m[0], m[5]);
    assert_eq!(m[4], m[1] ^ 0x8000_0000);
}

#[test]
fn drawn_record_takes_config_transform() {
    let mut p = ShapePainter::new();
    p.translate(bits(5.0), 0, 0);
    p.set_thickness(bits(2.0), ThicknessType::Screen);
    assert_eq!(p.quad_bezier(pt(0.0, 0.0, 0.0), pt(1.0, 1.0, 0.0), pt(2.0, 0.0, 0.0)), Ok(()));
    let d = p.queue[0].data;
    assert_eq!(d.transform, p.config.transform);
    assert_eq!(d.transform[12], bits(5.0));
    assert_eq!(d.thickness, bits(2.0));
    assert_eq!(d.flags, 2);
    assert_eq!(d.control, pt(1.0, 1.0, 0.0));
    assert_eq!(d.end, pt(2.0, 0.0, 0.0));
}

#[test]
fn entity_record_takes_world_transform() {
    let config = PaintConfig::default_config();
    let shape = QuadBezier::new(&config, pt(0.0, 0.0, 0.0), pt(2.0, 0.0, 0.0), pt(1.0, 1.0, 0.0));
    let world = translation(bits(3.0), bits(4.0), 0);
    let d = shape.into_data(&world);
    assert_eq!(d.transform, world);
    assert_eq!(d.end, pt(2.0, 0.0, 0.0));
    assert_eq!(d.control, pt(1.0, 1.0, 0.0));
}

#[test]
fn default_quad_bezier() {
    let q = QuadBezier::default();
    assert_eq!(q.thickness, ONE);
    assert_eq!(q.color, [ZERO, ZERO, ZERO, ONE]);
    assert_eq!(q.cap, Cap::Butt);
}

#[test]
fn encode_decode_transform_round_trip() {
    let mut config = PaintConfig::default_config();
    config.transform = translation(bits(-1.5), bits(0.25), bits(1e30));
    config.transform[3] = 0x7fc0_0001;
    let d = QuadBezierData::new(&config, pt(0.0, 0.0, 0.0), pt(1.0, 2.0, 3.0), pt(4.0, 5.0, 6.0));
    let bytes = d.encode();
    assert_eq!(bytes.len(), 124);
    assert_eq!(&bytes[0..4], &ONE.to_le_bytes());
    assert_eq!(&bytes[12..16], &[0x01, 0x00, 0xc0, 0x7f]);
    assert_eq!(decode_transform(&bytes), Some(config.transform));
    assert_eq!(decode_transform(&bytes[..63].to_vec()), None);
}

#[test]
fn record_words_in_layout_order() {
    let config = PaintConfig::default_config();
    let d = QuadBezierData::new(&config, pt(1.0, 2.0, 3.0), pt(4.0, 5.0, 6.0), pt(7.0, 8.0, 9.0));
    let w = d.to_words();
    assert_eq!(w.len(), 31);
    assert_eq!(w[19], ONE);
    assert_eq!(w[20], ONE);
    assert_eq!(&w[22..31], &[bits(1.0), bits(2.0), bits(3.0), bits(7.0), bits(8.0), bits(9.0), bits(4.0), bits(5.0), bits(6.0)]);
}

#[test]
fn vertex_layout_covers_record() {
    let l = vertex_layout();
    assert_eq!(l.len(), 10);
    let offsets: Vec<u64> = l.iter().map(|a| a.offset).collect();
    assert_eq!(offsets, vec![0, 16, 32, 48, 64, 80, 84, 88, 100, 112]);
    assert_eq!(l[6].format, AttrFormat::Uint32);
    assert_eq!(l[9].location, 9);
    assert_eq!(l[9].offset + 12, 124);
}

#[test]
fn persistent_canvas_draws_once() {
    let mut c = Canvas::new(1024, 1024, CanvasMode::Persistent);
    assert!(c.end_frame());
    for _ in 0..20 {
        assert!(!c.end_frame());
    }
}

#[test]
fn continuous_canvas_draws_every_frame() {
    let mut c = Canvas::new(64, 64, CanvasMode::Continuous);
    for _ in 0..20 {
        assert!(c.end_frame());
    }
}

#[test]
fn on_demand_canvas_draws_after_redraw() {
    let mut c = Canvas::new(64, 32, CanvasMode::OnDemand);
    for _ in 0..5 {
        assert!(!c.end_frame());
    }
    c.redraw();
    assert!(c.end_frame());
    assert!(!c.end_frame());
    c.redraw();
    assert!(c.should_render());
    assert!(c.end_frame());
    assert!(!c.should_render());
}

#[test]
fn set_mode_does_not_redraw() {
    let mut c = Canvas::new(8, 8, CanvasMode::Continuous);
    c.end_frame();
    c.set_mode(CanvasMode::Persistent);
    assert!(!c.end_frame());
    c.set_mode(CanvasMode::OnDemand);
    c.redraw();
    assert!(c.end_frame());
}

#[test]
fn persistent_canvas_image_stable() {
    let mut canvases = vec![(1u64, Canvas::new(1024, 1024, CanvasMode::Persistent))];
    let mut p = ShapePainter::new();
    p.set_canvas(Some(1));
    assert_eq!(p.quad_bezier(pt(0.0, 0.0, 0.0), pt(1.0, 1.0, 0.0), pt(2.0, 0.0, 0.0)), Ok(()));
    let calls = plan_frame(&p.take_queue(), &mut canvases);
    assert_eq!(calls.len(), 2);
    assert_eq!(calls[1].target, Some(1));
    assert_eq!(calls[1].records.len(), 1);
    for _ in 1..=10 {
        assert_eq!(p.quad_bezier(pt(0.0, 0.0, 0.0), pt(1.0, 1.0, 0.0), pt(2.0, 0.0, 0.0)), Ok(()));
        let calls = plan_frame(&p.take_queue(), &mut canvases);
        assert_eq!(calls.len(), 1);
        assert_eq!(calls[0].target, None);
    }
}

#[test]
fn on_demand_submits_only_at_redraw_frame() {
    let mut canvases = vec![(9u64, Canvas::new(256, 256, CanvasMode::OnDemand))];
    let mut p = ShapePainter::new();
    p.set_canvas(Some(9));
    for frame in 0..8 {
        if frame == 5 {
            canvases[0].1.redraw();
        }
        assert_eq!(p.quad_bezier(pt(0.0, 0.0, 0.0), pt(1.0, 1.0, 0.0), pt(2.0, 0.0, 0.0)), Ok(()));
        let calls = plan_frame(&p.take_queue(), &mut canvases);
        let to_canvas = calls.iter().filter(|c| c.target == Some(9)).count();
        assert_eq!(to_canvas, if frame == 5 { 1 } else { 0 });
    }
}

#[test]
fn batches_keep_order_and_drop_unknown_targets() {
    let mut canvases = vec![(2u64, Canvas::new(16, 16, CanvasMode::Continuous))];
    let mut p = ShapePainter::new();
    assert_eq!(p.quad_bezier(pt(1.0, 0.0, 0.0), pt(0.0, 0.0, 0.0), pt(0.0, 0.0, 0.0)), Ok(()));
    p.set_canvas(Some(2));
    assert_eq!(p.quad_bezier(pt(2.0, 0.0, 0.0), pt(0.0, 0.0, 0.0), pt(0.0, 0.0, 0.0)), Ok(()));
    p.set_canvas(Some(99));
    assert_eq!(p.quad_bezier(pt(3.0, 0.0, 0.0), pt(0.0, 0.0, 0.0), pt(0.0, 0.0, 0.0)), Ok(()));
    p.set_canvas(None);
    assert_eq!(p.quad_bezier(pt(4.0, 0.0, 0.0), pt(0.0, 0.0, 0.0), pt(0.0, 0.0, 0.0)), Ok(()));
    assert_eq!(p.batch(Some(99)).len(), 1);
    let calls = plan_frame(&p.take_queue(), &mut canvases);
    assert!(p.queue.is_empty());
    assert_eq!(calls.len(), 2);
    let main: Vec<u32> = calls[0].records.iter().map(|d| d.start.x).collect();
    assert_eq!(main, vec![bits(1.0), bits(4.0)]);
    assert_eq!(calls[1].records[0].start.x, bits(2.0));
    assert_eq!(calls[1].records.len(), 1);
}

#[test]
fn child_scope_links_three_children_at_close() {
    let mut config = PaintConfig::default_config();
    config.transform = translation(bits(10.0), 0, 0);
    config.pipeline = PipelineType::Shape3d;
    config.render_layers = Some(4);
    let mut b = ShapeChildBuilder::begin(100, &config);
    assert_eq!(b.config().transform, identity());
    assert_eq!(b.parent_entity(), 100);
    let s = b.quad_bezier(1, pt(0.0, 0.0, 0.0), pt(1.0, 1.0, 0.0), pt(2.0, 0.0, 0.0)).unwrap();
    assert_eq!(s.local, identity());
    assert!(s.extras.shape_3d);
    assert_eq!(s.extras.render_layers, Some(4));
    assert_eq!(s.shape.control, pt(1.0, 1.0, 0.0));
    b.spawn_shape(2);
    b.spawn(3);
    let cmd = b.finish();
    assert_eq!(cmd.parent, 100);
    assert_eq!(cmd.children, vec![1, 2, 3]);
}

#[test]
fn child_scope_many_children_spill() {
    let config = PaintConfig::default_config();
    let mut b = ShapeChildBuilder::begin(7, &config);
    for i in 0..20u64 {
        b.spawn(i);
    }
    let cmd = b.finish();
    assert_eq!(cmd.children, (0..20u64).collect::<Vec<u64>>());
}

#[test]
fn child_record_composes_parent_world() {
    let config = PaintConfig::default_config();
    let shape = QuadBezier::new(&config, pt(0.0, 0.0, 0.0), pt(2.0, 0.0, 0.0), pt(1.0, 1.0, 0.0));
    let parent = translation(bits(3.0), 0, 0);
    let local = translation(bits(1.0), bits(2.0), 0);
    let d = shape.data_under(&parent, &local);
    assert_eq!(&d.transform[12..16], &[bits(4.0), bits(2.0), 0, ONE]);
    assert_eq!(d.transform[0], ONE);
    assert_eq!(d.transform[1], 0);
}

#[test]
fn non_finite_curve_is_refused() {
    let mut p = ShapePainter::new();
    assert_eq!(p.quad_bezier(pt(f32::NAN, 0.0, 0.0), pt(0.0, 0.0, 0.0), pt(1.0, 0.0, 0.0)), Err(InvalidGeometry));
    assert_eq!(p.quad_bezier(pt(0.0, 0.0, 0.0), pt(0.0, f32::INFINITY, 0.0), pt(1.0, 0.0, 0.0)), Err(InvalidGeometry));
    assert_eq!(p.quad_bezier(pt(0.0, 0.0, 0.0), pt(0.0, 0.0, 0.0), pt(1.0, 0.0, f32::NEG_INFINITY)), Err(InvalidGeometry));
    assert!(p.queue.is_empty());
    assert_eq!(p.quad_bezier(pt(f32::MAX, -0.0, 1e-40), pt(0.0, 0.0, 0.0), pt(1.0, 0.0, 0.0)), Ok(()));
    assert_eq!(p.queue.len(), 1);
    let config = PaintConfig::default_config();
    let mut b = ShapeChildBuilder::begin(5, &config);
    assert!(b.quad_bezier(6, pt(0.0, 0.0, 0.0), pt(f32::NAN, 0.0, 0.0), pt(1.0, 0.0, 0.0)).is_err());
    assert!(b.finish().children.is_empty());
}

#[test]
fn missing_targets_reports_unknown_canvases() {
    let canvases = vec![(2u64, Canvas::new(16, 16, CanvasMode::Continuous))];
    let mut p = ShapePainter::new();
    for target in [None, Some(5), Some(2), Some(7), Some(5)] {
        p.set_canvas(target);
        assert_eq!(p.quad_bezier(pt(0.0, 0.0, 0.0), pt(0.0, 0.0, 0.0), pt(0.0, 0.0, 0.0)), Ok(()));
    }
    assert_eq!(missing_targets(&p.queue, &canvases), vec![5, 7, 5]);
    assert!(missing_targets(&p.queue, &Vec::new()).len() == 4);
}

#[test]
fn spawn_extras_follow_config() {
    let mut config = PaintConfig::default_config();
    let e = spawn_extras(&config);
    assert_eq!(e.render_layers, None);
    assert!(!e.shape_3d);
    config.pipeline = PipelineType::Shape3d;
    config.render_layers = Some(0b101);
    let e = spawn_extras(&config);
    assert_eq!(e.render_layers, Some(0b101));
    assert!(e.shape_3d);
}

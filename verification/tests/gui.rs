use ggegui::input::ButtonState;
use ggegui::input::Event;
use ggegui::input::HostState;
use ggegui::keys::KeyMods;
use ggegui::keys::Platform;
use ggegui::painter::ClipRect;
use ggegui::painter::ClippedPrimitive;
use ggegui::painter::Mesh;
use ggegui::painter::PainterError;
use ggegui::painter::Primitive;
use ggegui::painter::Vertex;
use ggegui::scalar::Logical;
use ggegui::scalar::Scalar;
use ggegui::scalar::Vec2;
use ggegui::textures::Color32;
use ggegui::textures::ColorImage;
use ggegui::textures::ImageData;
use ggegui::textures::TextureId;
use ggegui::textures::TexturesDelta;
use ggegui::FrameError;
use ggegui::FrameOutput;
use ggegui::Gui;
use std::time::Duration;
use std::time::Instant;

const WHITE: Color32 = Color32 { r: 255, g: 255, b: 255, a: 255 };

fn s(value: f32) -> Scalar {
    Scalar::from_bits(value.to_bits())
}

fn v(x: f32, y: f32) -> Vec2 {
    Vec2 { x: s(x), y: s(y) }
}

fn eval(l: Logical) -> (f32, f32) {
    let scale = f32::from_bits(l.scale.to_bits());
    (f32::from_bits(l.x.to_bits()) / scale, f32::from_bits(l.y.to_bits()) / scale)
}

fn host(x: f32, y: f32) -> HostState {
    let idle = ButtonState { just_pressed: false, just_released: false };
    HostState {
        pressed_keys: vec![],
        active_mods: KeyMods { bits: 0 },
        platform: Platform::Other,
        mouse_position: v(x, y),
        mouse_moved: false,
        left: idle,
        middle: idle,
        right: idle,
    }
}

fn moved(x: f32, y: f32) -> HostState {
    let mut tick = host(x, y);
    tick.mouse_moved = true;
    tick
}

fn quad(id: u64) -> ClippedPrimitive {
    let vertex = |x: f32, y: f32| Vertex { pos: v(x, y), uv: v(0.0, 0.0), color: WHITE };
    ClippedPrimitive {
        clip_rect: ClipRect { min: v(0.0, 0.0), max: v(10.0, 10.0) },
        primitive: Primitive::Mesh(Mesh {
            indices: vec![0, 1, 2, 0, 2, 3],
            vertices: vec![vertex(0.0, 0.0), vertex(1.0, 0.0), vertex(1.0, 1.0), vertex(0.0, 1.0)],
            texture_id: TextureId::Managed(id),
        }),
    }
}

fn white(id: u64) -> TexturesDelta {
    TexturesDelta {
        set: vec![(
            TextureId::Managed(id),
            ImageData::Color(ColorImage { width: 2, height: 2, pixels: vec![WHITE; 4] }),
        )],
        free: vec![],
    }
}

fn output(shapes: Vec<ClippedPrimitive>, textures_delta: TexturesDelta) -> FrameOutput {
    FrameOutput { shapes, textures_delta, copied_text: String::new() }
}

fn nothing() -> FrameOutput {
    output(vec![], TexturesDelta { set: vec![], free: vec![] })
}

#[test]
fn a_new_gui_announces_its_geometry() {
    let gui = Gui::new((s(800.0), s(600.0)));
    assert!(!gui.is_frame_open());
    assert_eq!(gui.clipboard(), &None);
    assert_eq!(gui.input().scale_factor(), s(1.0));
    assert_eq!(gui.input().pixels_per_point(), Some(s(1.0)));
    let rect = gui.input().screen_rect().unwrap();
    assert_eq!(rect.min, v(0.0, 0.0));
    assert_eq!(eval(rect.size), (800.0, 600.0));
    assert!(gui.input().events().is_empty());
    assert!(gui.painter().paint_jobs().is_empty());
    assert_eq!(gui.painter().pending_deltas(), 0);
}

#[test]
fn resize_updates_the_rectangle_exactly() {
    let mut gui = Gui::new((s(800.0), s(600.0)));
    gui.input_mut().resize_event(s(1024.0), s(768.0));
    let rect = gui.input().screen_rect().unwrap();
    assert_eq!(rect.min, v(0.0, 0.0));
    assert_eq!(eval(rect.size), (1024.0, 768.0));
}

#[test]
fn a_default_gui_has_no_geometry_yet() {
    let gui = Gui::default();
    assert!(!gui.is_frame_open());
    assert_eq!(gui.clipboard(), &None);
    assert_eq!(gui.input().scale_factor(), s(1.0));
    assert_eq!(gui.input().pixels_per_point(), None);
    assert_eq!(gui.input().screen_rect(), None);
    assert_eq!(gui.input().pointer_pos(), None);
    assert!(gui.input().events().is_empty());
    assert!(gui.painter().shapes().is_empty());
    assert!(gui.painter().paint_jobs().is_empty());
    assert_eq!(gui.painter().pending_deltas(), 0);
    assert_eq!(gui.painter().validate(), Ok(()));
}

#[test]
fn a_frame_stays_open_until_it_is_ended() {
    let mut gui = Gui::new((s(800.0), s(600.0)));
    assert!(!gui.is_frame_open());
    gui.input_mut().text_input_event('a');
    let ctx = gui.ctx();
    for _ in 0..3 {
        assert!(gui.is_frame_open());
    }
    gui.input_mut().text_input_event('b');
    assert!(gui.is_frame_open());
    assert_eq!(gui.input().events(), &vec![Event::Text('b')]);
    assert_eq!(gui.end_frame(ctx, nothing()), Ok(()));
    assert!(!gui.is_frame_open());
}

#[test]
fn a_frame_can_be_opened_again_after_it_ended() {
    let mut gui = Gui::new((s(800.0), s(600.0)));
    let ctx = gui.ctx();
    assert_eq!(gui.end_frame(ctx, nothing()), Ok(()));
    assert!(!gui.is_frame_open());
    let _again = gui.ctx();
    assert!(gui.is_frame_open());
}

#[test]
fn ending_a_frame_that_is_not_open_fails() {
    let mut gui = Gui::new((s(800.0), s(600.0)));
    let ctx = gui.ctx();
    assert_eq!(gui.end_frame(ctx, nothing()), Ok(()));

    let mut other = Gui::new((s(1.0), s(1.0)));
    let stray = other.ctx();
    assert_eq!(gui.end_frame(stray, output(vec![quad(7)], white(7))), Err(FrameError::NotOpen));
    assert_eq!(gui.painter().pending_deltas(), 1);
    assert!(gui.painter().shapes().is_empty());
}

#[test]
fn opening_a_frame_drains_the_input_once() {
    let mut gui = Gui::new((s(800.0), s(600.0)));
    gui.input_mut().text_input_event('a');
    gui.update(&host(10.0, 20.0));
    gui.update(&moved(10.0, 30.0));

    let ctx = gui.ctx();
    let raw = ctx.raw_input();
    assert_eq!(
        raw.events,
        vec![
            Event::Text('a'),
            Event::PointerMoved(Logical { x: s(10.0), y: s(30.0), scale: s(1.0) }),
        ]
    );
    assert_eq!(raw.pixels_per_point, Some(s(1.0)));
    assert_eq!(eval(raw.screen_rect.unwrap().size), (800.0, 600.0));
    assert!(gui.input().events().is_empty());
    assert_eq!(gui.input().screen_rect(), None);

    assert_eq!(gui.end_frame(ctx, nothing()), Ok(()));
    let next = gui.ctx();
    assert!(next.raw_input().events.is_empty());
    assert_eq!(next.raw_input().screen_rect, None);
    assert_eq!(next.raw_input().pixels_per_point, None);
}

#[test]
fn a_frame_is_stamped_with_the_time_it_is_given() {
    let mut gui = Gui::new((s(800.0), s(600.0)));
    gui.input_mut().set_scale_factor(s(2.0), (s(800.0), s(600.0)));
    gui.input_mut().mouse_wheel_event(s(1.0), s(2.0));

    let ctx = gui.ctx_with(Instant::now(), Duration::from_millis(16));
    let raw = ctx.raw_input();
    assert_eq!(raw.events, vec![Event::Scroll(v(1.0, 2.0))]);
    assert_eq!(raw.pixels_per_point, Some(s(2.0)));
    assert_eq!(eval(raw.screen_rect.unwrap().size), (400.0, 300.0));
    assert_eq!(raw.predicted_dt, Duration::from_millis(16));
    assert!(gui.is_frame_open());
    assert!(gui.input().events().is_empty());
    assert_eq!(gui.input().scale_factor(), s(2.0));
}

#[test]
fn the_time_of_a_frame_is_measured_from_the_frame_before() {
    let mut gui = Gui::new((s(800.0), s(600.0)));
    let ctx = gui.ctx();
    assert!(ctx.raw_input().predicted_dt < Duration::from_secs(60));
    assert_eq!(gui.end_frame(ctx, nothing()), Ok(()));

    let long_ago = Instant::now().checked_sub(Duration::from_secs(3600));
    if let Some(long_ago) = long_ago {
        let ctx = gui.ctx_with(long_ago, Duration::from_secs(0));
        assert_eq!(gui.end_frame(ctx, nothing()), Ok(()));
        let ctx = gui.ctx();
        assert!(ctx.raw_input().predicted_dt >= Duration::from_secs(3600));
        assert_eq!(gui.end_frame(ctx, nothing()), Ok(()));
        let ctx = gui.ctx();
        assert!(ctx.raw_input().predicted_dt < Duration::from_secs(3600));
        assert_eq!(gui.end_frame(ctx, nothing()), Ok(()));
    }
}

#[test]
fn a_frame_goes_from_output_to_draw_calls() {
    let mut gui = Gui::new((s(800.0), s(600.0)));
    gui.input_mut().set_scale_factor(s(2.0), (s(800.0), s(600.0)));
    let ctx = gui.ctx();
    assert_eq!(gui.end_frame(ctx, output(vec![quad(7)], white(7))), Ok(()));
    assert_eq!(gui.painter().pending_deltas(), 1);
    assert!(!gui.painter().textures().contains(TextureId::Managed(7)));

    assert_eq!(gui.painter().validate(), Ok(()));
    assert_eq!(gui.update(&host(0.0, 0.0)), vec![TextureId::Managed(7)]);
    assert!(gui.painter().textures().contains(TextureId::Managed(7)));
    assert_eq!(gui.painter().paint_jobs().len(), 1);

    let calls = gui.draw();
    assert_eq!(calls.len(), 1);
    assert_eq!(calls[0].job.texture_id, TextureId::Managed(7));
    assert_eq!(calls[0].scale, s(2.0));
    assert_eq!(calls[0].scale, gui.input().scale_factor());
    assert!(gui.draw().is_empty());
}

#[test]
fn a_new_frame_replaces_the_output_of_the_one_before() {
    let mut gui = Gui::new((s(800.0), s(600.0)));
    let ctx = gui.ctx();
    assert_eq!(gui.end_frame(ctx, output(vec![quad(7), quad(7)], white(7))), Ok(()));
    let ctx = gui.ctx();
    assert_eq!(gui.end_frame(ctx, output(vec![quad(7)], white(8))), Ok(()));
    assert_eq!(gui.painter().shapes().len(), 1);
    assert_eq!(gui.painter().pending_deltas(), 2);
    assert_eq!(gui.painter().validate(), Ok(()));
    assert_eq!(gui.update(&host(0.0, 0.0)), vec![TextureId::Managed(7), TextureId::Managed(8)]);
    assert_eq!(gui.painter().paint_jobs().len(), 1);
    assert!(gui.painter().textures().contains(TextureId::Managed(7)));
    assert!(gui.painter().textures().contains(TextureId::Managed(8)));
}

#[test]
fn a_callback_in_the_output_is_told_before_the_update() {
    let mut gui = Gui::new((s(800.0), s(600.0)));
    let ctx = gui.ctx();
    let callback = ClippedPrimitive {
        clip_rect: ClipRect { min: v(0.0, 0.0), max: v(1.0, 1.0) },
        primitive: Primitive::Callback,
    };
    assert_eq!(gui.end_frame(ctx, output(vec![callback], white(7))), Ok(()));
    assert_eq!(gui.painter().validate(), Err(PainterError::Callback));
    assert_eq!(gui.painter().pending_deltas(), 1);
    assert!(gui.draw().is_empty());
}

#[test]
fn copied_text_goes_to_the_clipboard_and_stays() {
    let mut gui = Gui::new((s(800.0), s(600.0)));
    let ctx = gui.ctx();
    let mut out = nothing();
    out.copied_text = String::from("hello");
    assert_eq!(gui.end_frame(ctx, out), Ok(()));
    assert_eq!(gui.clipboard(), &Some(String::from("hello")));

    let ctx = gui.ctx();
    assert_eq!(gui.end_frame(ctx, nothing()), Ok(()));
    assert_eq!(gui.clipboard(), &Some(String::from("hello")));

    let ctx = gui.ctx();
    let mut out = nothing();
    out.copied_text = String::from("again");
    assert_eq!(gui.end_frame(ctx, out), Ok(()));
    assert_eq!(gui.clipboard(), &Some(String::from("again")));
}

#[test]
fn what_is_divided_on_the_way_in_is_multiplied_on_the_way_out() {
    let mut gui = Gui::new((s(800.0), s(600.0)));
    gui.input_mut().set_scale_factor(s(2.5), (s(800.0), s(600.0)));
    let ctx = gui.ctx();
    assert_eq!(gui.end_frame(ctx, output(vec![quad(7)], white(7))), Ok(()));
    assert_eq!(gui.painter().validate(), Ok(()));
    gui.update(&host(100.0, 40.0));

    let logical = eval(gui.input().pointer_pos().unwrap());
    assert_eq!(logical, (40.0, 16.0));

    let calls = gui.draw();
    let factor = f32::from_bits(calls[0].scale.to_bits());
    assert!((logical.0 * factor - 100.0).abs() < 1e-4);
    assert!((logical.1 * factor - 40.0).abs() < 1e-4);
}

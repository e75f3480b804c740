//! An adapter between an immediate-mode GUI toolkit and a host application
//! that owns the window, the input pump and the renderer.
//!
//! Each tick the host's input is translated and queued ([`Input`]), a frame
//! is opened with what was queued ([`Gui::ctx`]), the toolkit's output is
//! taken in when the frame ends ([`Gui::end_frame`]), and the painter turns
//! it into draw calls for the host ([`Gui::update`], [`Gui::draw`]).

pub mod clock;
pub mod input;
pub mod keys;
pub mod painter;
pub mod scalar;
pub mod textures;

pub use input::Input;

use input::host_events;
use input::HostState;
use input::InputView;
use input::RawInput;
use input::screen_rect_of;
use painter::built_jobs;
use painter::calls_view;
use painter::deltas_match;
use painter::draw_calls;
use painter::has_callback;
use painter::ClippedPrimitive;
use painter::DrawCall;
use painter::Painter;
use painter::PainterView;
use scalar::to_logical;
use scalar::Scalar;
use scalar::ONE_BITS;
use std::time::Duration;
use std::time::Instant;
use textures::all_named_ids;
use textures::apply_deltas;
use textures::TextureId;
use textures::Textures;
use textures::TexturesDelta;
use vstd::prelude::*;

verus! {

/// What the toolkit hands back when a frame ends.
#[derive(Debug)]
pub struct FrameOutput {
    /// The tessellated primitives, in paint order.
    pub shapes: Vec<ClippedPrimitive>,
    /// The texture changes that the frame asks for.
    pub textures_delta: TexturesDelta,
    /// The text that the toolkit copied to the clipboard. Empty if it copied
    /// none.
    pub copied_text: String,
}

/// Why a frame could not be ended.
#[derive(Clone, Copy, Debug, PartialEq, Eq, Structural)]
pub enum FrameError {
    /// No frame is open.
    NotOpen,
}

/// The handle of an open frame. It holds what the frame was opened with,
/// and is given back when the frame ends.
#[derive(Debug)]
pub struct GuiContext {
    raw_input: RawInput,
}

impl GuiContext {
    /// What the frame was opened with.
    pub closed spec fn spec_raw_input(&self) -> RawInput {
        self.raw_input
    }

    /// What the frame was opened with.
    pub fn raw_input(&self) -> (raw_input: &RawInput)
        ensures
            *raw_input == self.spec_raw_input(),
    {
        &self.raw_input
    }
}

/// What a [`Gui`] holds, as contracts see it.
pub struct GuiView {
    pub input: InputView,
    pub painter: PainterView,
    /// Whether a frame is open.
    pub frame_open: bool,
    /// The text that the toolkit copied last, if it ever copied any.
    pub clipboard: Option<Seq<char>>,
}

/// The bridge between the host and the toolkit.
pub struct Gui {
    input: Input,
    painter: Painter,
    frame_open: bool,
    clipboard: Option<String>,
}

/// The characters of a text that may be absent.
pub open spec fn text_view(text: Option<String>) -> Option<Seq<char>> {
    match text {
        Some(s) => Some(s@),
        None => None,
    }
}

impl View for Gui {
    type V = GuiView;

    closed spec fn view(&self) -> GuiView {
        GuiView {
            input: self.input@,
            painter: self.painter@,
            frame_open: self.frame_open,
            clipboard: text_view(self.clipboard),
        }
    }
}

/// What a bridge holds before anything was fed to it: an empty queue at
/// scale factor one with the given pending geometry, a painter with
/// nothing to paint, no frame open and nothing copied.
pub open spec fn fresh(
    gui: GuiView,
    screen_rect: Option<input::Rect>,
    pixels_per_point: Option<Scalar>,
) -> bool {
    &&& gui.input == (InputView {
        pointer_pos: None,
        started: gui.input.started,
        events: Seq::empty(),
        screen_rect,
        pixels_per_point,
        scale_factor: Scalar { bits: ONE_BITS },
    })
    &&& gui.painter == (PainterView {
        shapes: Seq::empty(),
        textures_delta: Seq::empty(),
        paint_jobs: Seq::empty(),
        textures: Textures::empty(),
    })
    &&& !gui.frame_open
    &&& gui.clipboard is None
}

impl Default for Gui {
    /// A bridge at scale factor one that does not know its window yet: no
    /// geometry is pending until a size or a scale factor is set.
    fn default() -> (gui: Gui)
        ensures
            fresh(gui@, None, None),
    {
        Gui {
            input: Input::default(),
            painter: Painter::default(),
            frame_open: false,
            clipboard: None,
        }
    }
}

impl Gui {
    /// A bridge for a window of the given size in host pixels, at scale
    /// factor one, with no frame open.
    pub fn new(size: (Scalar, Scalar)) -> (gui: Gui)
        ensures
            fresh(
                gui@,
                Some(screen_rect_of(size.0, size.1, Scalar { bits: ONE_BITS })),
                Some(Scalar { bits: ONE_BITS }),
            ),
    {
        let mut input = Input::default();
        input.set_scale_factor(Scalar::one(), size);
        Gui { input, painter: Painter::default(), frame_open: false, clipboard: None }
    }

    /// The input side.
    pub fn input(&self) -> (input: &Input)
        ensures
            input@ == self@.input,
    {
        &self.input
    }

    /// The input side, to feed it: events, a resize, a scale factor.
    pub fn input_mut(&mut self) -> (input: &mut Input)
        ensures
            input@ == old(self)@.input,
            final(self)@ == (GuiView { input: final(input)@, ..old(self)@ }),
    {
        &mut self.input
    }

    /// The painter.
    pub fn painter(&self) -> (painter: &Painter)
        ensures
            painter@ == self@.painter,
    {
        &self.painter
    }

    /// Whether a frame is open.
    pub fn is_frame_open(&self) -> (open: bool)
        ensures
            open == self@.frame_open,
    {
        self.frame_open
    }

    /// The text that the toolkit copied last, if it ever copied any.
    pub fn clipboard(&self) -> (text: &Option<String>)
        ensures
            text_view(*text) == self@.clipboard,
    {
        &self.clipboard
    }

    /// Takes in one tick of the host's input, then brings the painter up to
    /// date with the last frame that ended.
    ///
    /// The result names the ids of the texture batches that were applied:
    /// the host's copy of every other texture is still good.
    ///
    /// A waiting image of the wrong size, or a rendering callback among the
    /// primitives, must not be there: test with [`Painter::validate`].
    pub fn update(&mut self, host: &HostState) -> (touched: Vec<TextureId>)
        requires
            deltas_match(old(self)@.painter.textures_delta),
            !has_callback(old(self)@.painter.shapes),
        ensures
            touched@ == all_named_ids(old(self)@.painter.textures_delta),
            final(self)@ == (GuiView {
                input: InputView {
                    pointer_pos: Some(
                        to_logical(host.mouse_position, old(self)@.input.scale_factor),
                    ),
                    events: old(self)@.input.events + host_events(
                        *host,
                        old(self)@.input.scale_factor,
                    ),
                    ..old(self)@.input
                },
                painter: PainterView {
                    shapes: old(self)@.painter.shapes,
                    textures_delta: Seq::empty(),
                    paint_jobs: old(self)@.painter.paint_jobs + built_jobs(
                        old(self)@.painter.shapes,
                        apply_deltas(
                            old(self)@.painter.textures,
                            old(self)@.painter.textures_delta,
                        ),
                    ),
                    textures: apply_deltas(
                        old(self)@.painter.textures,
                        old(self)@.painter.textures_delta,
                    ),
                },
                ..old(self)@
            }),
    {
        self.input.update(host);
        self.painter.update()
    }

    /// Opens a frame, given the clock: hands over the input that was
    /// queued, stamped with `elapsed` as the time since the frame before,
    /// leaves the queue empty, and stores `now` as the reading from which
    /// the time to the next frame is measured.
    ///
    /// Only one frame can be open at a time. While one is open, no second
    /// may be opened: test with [`Gui::is_frame_open`].
    pub fn ctx_with(&mut self, now: Instant, elapsed: Duration) -> (ctx: GuiContext)
        requires
            !old(self)@.frame_open,
        ensures
            ctx.spec_raw_input().events@ == old(self)@.input.events,
            ctx.spec_raw_input().screen_rect == old(self)@.input.screen_rect,
            ctx.spec_raw_input().pixels_per_point == old(self)@.input.pixels_per_point,
            ctx.spec_raw_input().predicted_dt == elapsed,
            final(self)@ == (GuiView {
                input: InputView {
                    events: Seq::empty(),
                    screen_rect: None,
                    pixels_per_point: None,
                    started: now,
                    ..old(self)@.input
                },
                frame_open: true,
                ..old(self)@
            }),
    {
        let raw_input = self.input.take_with(now, elapsed);
        self.frame_open = true;
        GuiContext { raw_input }
    }

    /// Opens a frame: hands over the input that was queued, stamped with
    /// the time measured since the frame before, and leaves the queue
    /// empty. The measurement starts anew.
    ///
    /// Only one frame can be open at a time. While one is open, no second
    /// may be opened: test with [`Gui::is_frame_open`].
    pub fn ctx(&mut self) -> (ctx: GuiContext)
        requires
            !old(self)@.frame_open,
        ensures
            ctx.spec_raw_input().events@ == old(self)@.input.events,
            ctx.spec_raw_input().screen_rect == old(self)@.input.screen_rect,
            ctx.spec_raw_input().pixels_per_point == old(self)@.input.pixels_per_point,
            final(self)@ == (GuiView {
                input: InputView {
                    events: Seq::empty(),
                    screen_rect: None,
                    pixels_per_point: None,
                    started: final(self)@.input.started,
                    ..old(self)@.input
                },
                frame_open: true,
                ..old(self)@
            }),
    {
        let raw_input = self.input.take();
        self.frame_open = true;
        GuiContext { raw_input }
    }

    /// Ends the open frame and takes in what the toolkit produced: its
    /// primitives replace those of the frame before, its texture batch
    /// joins the queue, and the text it copied, unless empty, goes to the
    /// clipboard.
    ///
    /// Without an open frame this fails and changes nothing.
    pub fn end_frame(&mut self, ctx: GuiContext, output: FrameOutput) -> (out: Result<
        (),
        FrameError,
    >)
        ensures
            match out {
                Ok(()) => {
                    &&& old(self)@.frame_open
                    &&& final(self)@ == (GuiView {
                        painter: PainterView {
                            shapes: output.shapes@,
                            textures_delta: old(self)@.painter.textures_delta.push(
                                output.textures_delta,
                            ),
                            ..old(self)@.painter
                        },
                        frame_open: false,
                        clipboard: if output.copied_text@.len() > 0 {
                            Some(output.copied_text@)
                        } else {
                            old(self)@.clipboard
                        },
                        ..old(self)@
                    })
                },
                Err(e) => {
                    &&& e == FrameError::NotOpen
                    &&& !old(self)@.frame_open
                    &&& final(self)@ == old(self)@
                },
            },
    {
        if !self.frame_open {
            return Err(FrameError::NotOpen);
        }
        let FrameOutput { shapes, textures_delta, copied_text } = output;
        self.painter.submit(shapes, textures_delta);
        if !copied_text.as_str().is_empty() {
            self.clipboard = Some(copied_text);
        }
        self.frame_open = false;
        Ok(())
    }

    /// Hands out the draw calls of the waiting jobs, in paint order, and
    /// forgets the jobs. Each call is scaled by the factor that the pointer
    /// positions of this tick were divided by.
    pub fn draw(&mut self) -> (calls: Vec<DrawCall>)
        ensures
            calls_view(calls@) == draw_calls(
                old(self)@.painter.paint_jobs,
                old(self)@.painter.textures,
                old(self)@.input.scale_factor,
            ),
            final(self)@ == (GuiView {
                painter: PainterView { paint_jobs: Seq::empty(), ..old(self)@.painter },
                ..old(self)@
            }),
    {
        let scale_factor = self.input.scale_factor();
        self.painter.draw(scale_factor)
    }
}

} // verus!

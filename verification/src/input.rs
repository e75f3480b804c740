//! The input side of the adapter: host events are translated and queued
//! between frames, and handed over once when a frame is opened.

use crate::clock;
use crate::keys::spec_translate_button;
use crate::keys::spec_translate_keycode;
use crate::keys::spec_translate_modifier;
use crate::keys::translate_button;
use crate::keys::translate_keycode;
use crate::keys::translate_modifier;
use crate::keys::Key;
use crate::keys::KeyCode;
use crate::keys::KeyMods;
use crate::keys::Modifiers;
use crate::keys::MouseButton;
use crate::keys::Platform;
use crate::keys::PointerButton;
use crate::scalar::to_logical;
use crate::scalar::Logical;
use crate::scalar::Scalar;
use crate::scalar::Vec2;
use crate::scalar::ONE_BITS;
use std::time::Duration;
use std::time::Instant;
use vstd::prelude::*;

verus! {

/// An input event in the toolkit's vocabulary.
#[derive(Clone, Copy, Debug, PartialEq, Eq, Structural)]
pub enum Event {
    /// The host detected a copy command.
    Copy,
    /// The host detected a cut command.
    Cut,
    /// A character was typed.
    Text(char),
    /// A key went down or is held down.
    Key { key: Key, pressed: bool, repeat: bool, modifiers: Modifiers },
    /// The pointer moved to a logical position.
    PointerMoved(Logical),
    /// A pointer button went down or up at a logical position.
    PointerButton { pos: Logical, button: PointerButton, pressed: bool, modifiers: Modifiers },
    /// The wheel turned by this much.
    Scroll(Vec2),
}

/// A key that is down, and whether it went down in this tick.
#[derive(Clone, Copy, Debug, PartialEq, Eq, Structural)]
pub struct PressedKey {
    pub key: KeyCode,
    pub just_pressed: bool,
}

/// What happened to one mouse button in this tick.
#[derive(Clone, Copy, Debug, PartialEq, Eq, Structural)]
pub struct ButtonState {
    pub just_pressed: bool,
    pub just_released: bool,
}

/// A snapshot of the host's keyboard and mouse for one tick.
#[derive(Debug, PartialEq, Eq)]
pub struct HostState {
    /// The keys that are down, in the order in which they are to be reported.
    pub pressed_keys: Vec<PressedKey>,
    /// The modifier keys that are down.
    pub active_mods: KeyMods,
    /// Which key the platform uses as its command key.
    pub platform: Platform,
    /// The pointer position in host pixels.
    pub mouse_position: Vec2,
    /// Whether the host reported a motion of the pointer in this tick.
    pub mouse_moved: bool,
    pub left: ButtonState,
    pub middle: ButtonState,
    pub right: ButtonState,
}

/// The screen rectangle in logical coordinates, given by its upper left
/// corner and its size.
#[derive(Clone, Copy, Debug, PartialEq, Eq, Structural)]
pub struct Rect {
    pub min: Vec2,
    pub size: Logical,
}

/// What a frame is opened with: the events queued since the last frame, in
/// the order in which they came, and the geometry in force.
#[derive(Debug)]
pub struct RawInput {
    pub screen_rect: Option<Rect>,
    pub pixels_per_point: Option<Scalar>,
    /// The time that passed since the previous batch was taken.
    pub predicted_dt: Duration,
    pub events: Vec<Event>,
}

/// Whether `chr` lies in one of the three Unicode private-use areas.
pub open spec fn is_in_private_use_area(chr: char) -> bool {
    ||| 0xe000 <= chr as u32 <= 0xf8ff
    ||| 0xf0000 <= chr as u32 <= 0xffffd
    ||| 0x100000 <= chr as u32 <= 0x10fffd
}

/// Whether `chr` is a control character: one of the first 32 characters,
/// or one from the delete character U+007F to U+009F.
pub open spec fn is_control(chr: char) -> bool {
    chr as u32 <= 0x1f || 0x7f <= chr as u32 <= 0x9f
}

/// Whether `chr` counts as typed text.
pub open spec fn spec_is_printable(chr: char) -> bool {
    !is_in_private_use_area(chr) && !is_control(chr)
}

/// Whether `chr` counts as typed text: control characters and the characters
/// of the private-use areas do not.
pub fn is_printable(chr: char) -> (b: bool)
    ensures
        b == spec_is_printable(chr),
{
    let is_in_private_use_area = '\u{e000}' <= chr && chr <= '\u{f8ff}'
        || '\u{f0000}' <= chr && chr <= '\u{ffffd}'
        || '\u{100000}' <= chr && chr <= '\u{10fffd}';
    let is_control = chr <= '\u{1f}' || '\u{7f}' <= chr && chr <= '\u{9f}';

    !is_in_private_use_area && !is_control
}

/// The key events that a tick's pressed keys give, in their order. A key
/// without a toolkit counterpart gives no event.
pub open spec fn key_events(keys: Seq<PressedKey>, modifiers: Modifiers) -> Seq<Event>
    decreases keys.len(),
{
    if keys.len() == 0 {
        Seq::empty()
    } else {
        let before = key_events(keys.drop_last(), modifiers);
        match spec_translate_keycode(keys.last().key) {
            Some(key) => before.push(
                Event::Key { key, pressed: keys.last().just_pressed, repeat: false, modifiers },
            ),
            None => before,
        }
    }
}

/// The events that one mouse button gives in a tick: one if it went down,
/// else one if it went up, else none. They carry the stored pointer position.
pub open spec fn button_events(
    button: MouseButton,
    state: ButtonState,
    pos: Logical,
    modifiers: Modifiers,
) -> Seq<Event> {
    if state.just_pressed {
        seq![
            Event::PointerButton {
                pos,
                button: spec_translate_button(button),
                pressed: true,
                modifiers,
            },
        ]
    } else if state.just_released {
        seq![
            Event::PointerButton {
                pos,
                button: spec_translate_button(button),
                pressed: false,
                modifiers,
            },
        ]
    } else {
        Seq::empty()
    }
}

/// The event that the pointer gives in a tick: a motion to its position
/// where the host reported one, else none.
pub open spec fn motion_events(moved: bool, pos: Logical) -> Seq<Event> {
    if moved {
        seq![Event::PointerMoved(pos)]
    } else {
        Seq::empty()
    }
}

/// The events that one tick of the host gives at scale factor `scale`: the
/// keys, then the pointer motion if there was one, then the left, middle
/// and right button.
pub open spec fn host_events(host: HostState, scale: Scalar) -> Seq<Event> {
    let modifiers = spec_translate_modifier(host.active_mods, host.platform);
    let pos = to_logical(host.mouse_position, scale);
    key_events(host.pressed_keys@, modifiers) + motion_events(host.mouse_moved, pos) + button_events(
        MouseButton::Left,
        host.left,
        pos,
        modifiers,
    ) + button_events(MouseButton::Middle, host.middle, pos, modifiers) + button_events(
        MouseButton::Right,
        host.right,
        pos,
        modifiers,
    )
}

/// The screen rectangle of a window of `w` by `h` host pixels at scale
/// factor `scale`: from the origin, with the size divided by the factor.
pub open spec fn screen_rect_of(w: Scalar, h: Scalar, scale: Scalar) -> Rect {
    Rect {
        min: Vec2 { x: Scalar { bits: 0 }, y: Scalar { bits: 0 } },
        size: to_logical(Vec2 { x: w, y: h }, scale),
    }
}

/// What an [`Input`] holds, as contracts see it.
pub struct InputView {
    /// The stored pointer position, which button events reuse. `None`
    /// until the host has reported one.
    pub pointer_pos: Option<Logical>,
    /// The clock reading from which the time to the next batch is measured.
    pub started: Instant,
    /// The events queued since the last batch was taken, oldest first.
    pub events: Seq<Event>,
    /// The screen rectangle, if it was set since the last batch was taken.
    pub screen_rect: Option<Rect>,
    /// The scale factor, if it was set since the last batch was taken.
    pub pixels_per_point: Option<Scalar>,
    /// The scale factor in force.
    pub scale_factor: Scalar,
}

impl InputView {
    /// The pending geometry was computed with the scale factor in force: a
    /// screen rectangle and a scale factor never disagree.
    pub open spec fn consistent(self) -> bool {
        &&& self.screen_rect matches Some(r) ==> r.size.scale == self.scale_factor
        &&& self.pixels_per_point matches Some(p) ==> p == self.scale_factor
    }
}

/// Holds everything that the toolkit is told at the start of a frame: the
/// queued events, the pointer position and the geometry.
pub struct Input {
    dt: Instant,
    pointer_pos: Option<Logical>,
    events: Vec<Event>,
    geometry: Geometry,
}

/// The scale factor in force and the geometry that waits to be announced.
/// Kept apart so that the three can only change together.
struct Geometry {
    screen_rect: Option<Rect>,
    pixels_per_point: Option<Scalar>,
    scale_factor: Scalar,
}

impl Geometry {
    #[verifier::type_invariant]
    spec fn inv(self) -> bool {
        &&& self.screen_rect matches Some(r) ==> r.size.scale == self.scale_factor
        &&& self.pixels_per_point matches Some(p) ==> p == self.scale_factor
    }
}

impl View for Input {
    type V = InputView;

    closed spec fn view(&self) -> InputView {
        InputView {
            pointer_pos: self.pointer_pos,
            started: self.dt,
            events: self.events@,
            screen_rect: self.geometry.screen_rect,
            pixels_per_point: self.geometry.pixels_per_point,
            scale_factor: self.geometry.scale_factor,
        }
    }
}

impl Default for Input {
    /// An empty queue at scale factor one, with the pointer not yet placed.
    /// The time to the first batch is measured from now.
    fn default() -> (input: Input)
        ensures
            input@ == (InputView {
                pointer_pos: None,
                started: input@.started,
                events: Seq::empty(),
                screen_rect: None,
                pixels_per_point: None,
                scale_factor: Scalar { bits: ONE_BITS },
            }),
    {
        Input {
            dt: clock::now(),
            pointer_pos: None,
            events: Vec::new(),
            geometry: Geometry {
                screen_rect: None,
                pixels_per_point: None,
                scale_factor: Scalar::one(),
            },
        }
    }
}

impl Input {
    /// The stored pointer position, once the host has reported one.
    pub fn pointer_pos(&self) -> (pos: Option<Logical>)
        ensures
            pos == self@.pointer_pos,
    {
        self.pointer_pos
    }

    /// The queued events, oldest first.
    pub fn events(&self) -> (events: &Vec<Event>)
        ensures
            events@ == self@.events,
    {
        &self.events
    }

    /// The pending screen rectangle. It was computed with the scale factor
    /// in force.
    pub fn screen_rect(&self) -> (rect: Option<Rect>)
        ensures
            rect == self@.screen_rect,
            self@.consistent(),
    {
        proof {
            use_type_invariant(&self.geometry);
        }
        self.geometry.screen_rect
    }

    /// The pending scale factor announcement.
    pub fn pixels_per_point(&self) -> (factor: Option<Scalar>)
        ensures
            factor == self@.pixels_per_point,
            self@.consistent(),
    {
        proof {
            use_type_invariant(&self.geometry);
        }
        self.geometry.pixels_per_point
    }

    /// The scale factor in force.
    pub fn scale_factor(&self) -> (factor: Scalar)
        ensures
            factor == self@.scale_factor,
    {
        self.geometry.scale_factor
    }

    /// Takes in one tick of the host's keyboard and mouse.
    ///
    /// Every pressed key that the toolkit knows gives a key event. The
    /// pointer position, divided by the scale factor in force, is stored;
    /// it gives a motion event where the host reported a motion. Each
    /// button that went down or up gives a button event at the stored
    /// position. Typed characters are not part of the snapshot: see
    /// [`Input::text_input_event`].
    pub fn update(&mut self, host: &HostState)
        ensures
            final(self)@ == (InputView {
                pointer_pos: Some(to_logical(host.mouse_position, old(self)@.scale_factor)),
                events: old(self)@.events + host_events(*host, old(self)@.scale_factor),
                ..old(self)@
            }),
    {
        let modifiers = translate_modifier(host.active_mods, host.platform);
        let ghost before = self.events@;
        let ghost keys = host.pressed_keys@;

        let mut i: usize = 0;
        while i < host.pressed_keys.len()
            invariant
                i <= host.pressed_keys.len(),
                keys == host.pressed_keys@,
                self.events@ == before + key_events(keys.take(i as int), modifiers),
                self.pointer_pos == old(self).pointer_pos,
                self.geometry == old(self).geometry,
                self.dt == old(self).dt,
            decreases host.pressed_keys.len() - i,
        {
            let pressed = host.pressed_keys[i];
            if let Some(key) = translate_keycode(pressed.key) {
                self.events.push(
                    Event::Key { key, pressed: pressed.just_pressed, repeat: false, modifiers },
                );
            }
            proof {
                assert(keys.take(i + 1).drop_last() == keys.take(i as int));
            }
            i += 1;
        }
        proof {
            assert(keys.take(i as int) == keys);
        }

        let pos = Logical::new(host.mouse_position, self.geometry.scale_factor);
        self.pointer_pos = Some(pos);
        if host.mouse_moved {
            self.events.push(Event::PointerMoved(pos));
        }

        self.push_button_events(MouseButton::Left, host.left, pos, modifiers);
        self.push_button_events(MouseButton::Middle, host.middle, pos, modifiers);
        self.push_button_events(MouseButton::Right, host.right, pos, modifiers);
        proof {
            assert(self.events@ =~= before + host_events(*host, old(self)@.scale_factor));
        }
    }

    /// Queues the event of one mouse button, if it went down or up.
    fn push_button_events(
        &mut self,
        button: MouseButton,
        state: ButtonState,
        pos: Logical,
        modifiers: Modifiers,
    )
        ensures
            final(self)@ == (InputView {
                events: old(self)@.events + button_events(button, state, pos, modifiers),
                ..old(self)@
            }),
    {
        if state.just_pressed {
            self.events.push(
                Event::PointerButton {
                    pos,
                    button: translate_button(button),
                    pressed: true,
                    modifiers,
                },
            );
        } else if state.just_released {
            self.events.push(
                Event::PointerButton {
                    pos,
                    button: translate_button(button),
                    pressed: false,
                    modifiers,
                },
            );
        }
        proof {
            assert(self.events@ =~= old(self)@.events + button_events(
                button,
                state,
                pos,
                modifiers,
            ));
        }
    }

    /// Sets the scale factor and recomputes the screen rectangle of a window
    /// of the given size with it. The two change together.
    pub fn set_scale_factor(&mut self, scale_factor: Scalar, size: (Scalar, Scalar))
        ensures
            final(self)@ == (InputView {
                scale_factor,
                pixels_per_point: Some(scale_factor),
                screen_rect: Some(screen_rect_of(size.0, size.1, scale_factor)),
                ..old(self)@
            }),
            final(self)@.consistent(),
    {
        self.geometry = Geometry {
            screen_rect: Some(
                Rect {
                    min: Vec2 { x: Scalar { bits: 0 }, y: Scalar { bits: 0 } },
                    size: Logical::new(Vec2 { x: size.0, y: size.1 }, scale_factor),
                },
            ),
            pixels_per_point: Some(scale_factor),
            scale_factor,
        };
    }

    /// Recomputes the screen rectangle for a window of `w` by `h` host
    /// pixels, with the scale factor in force.
    pub fn resize_event(&mut self, w: Scalar, h: Scalar)
        ensures
            final(self)@ == (InputView {
                screen_rect: Some(screen_rect_of(w, h, old(self)@.scale_factor)),
                ..old(self)@
            }),
            final(self)@.consistent(),
    {
        proof {
            use_type_invariant(&self.geometry);
        }
        let scale_factor = self.geometry.scale_factor;
        self.geometry = Geometry {
            screen_rect: Some(
                Rect {
                    min: Vec2 { x: Scalar { bits: 0 }, y: Scalar { bits: 0 } },
                    size: Logical::new(Vec2 { x: w, y: h }, scale_factor),
                },
            ),
            pixels_per_point: self.geometry.pixels_per_point,
            scale_factor,
        };
    }

    /// Queues a turn of the mouse wheel.
    pub fn mouse_wheel_event(&mut self, x: Scalar, y: Scalar)
        ensures
            final(self)@ == (InputView {
                events: old(self)@.events.push(Event::Scroll(Vec2 { x, y })),
                ..old(self)@
            }),
    {
        self.events.push(Event::Scroll(Vec2 { x, y }));
    }

    /// Queues a typed character, unless it is a control character or lies in
    /// a private-use area.
    pub fn text_input_event(&mut self, ch: char)
        ensures
            final(self)@ == (InputView {
                events: if spec_is_printable(ch) {
                    old(self)@.events.push(Event::Text(ch))
                } else {
                    old(self)@.events
                },
                ..old(self)@
            }),
    {
        if is_printable(ch) {
            self.events.push(Event::Text(ch));
        }
    }

    /// Hands over what was queued and leaves the queue empty, given the
    /// clock: `elapsed` is the time since the stored reading, with which the
    /// batch is stamped, and `now` is the new reading, which is stored in
    /// its place.
    ///
    /// The pending geometry goes with the batch, so a second call without
    /// new input gives an empty batch and repeats nothing.
    pub(crate) fn take_with(&mut self, now: Instant, elapsed: Duration) -> (batch: RawInput)
        ensures
            batch.events@ == old(self)@.events,
            batch.screen_rect == old(self)@.screen_rect,
            batch.pixels_per_point == old(self)@.pixels_per_point,
            batch.predicted_dt == elapsed,
            old(self)@.consistent(),
            final(self)@ == (InputView {
                events: Seq::empty(),
                screen_rect: None,
                pixels_per_point: None,
                started: now,
                ..old(self)@
            }),
    {
        proof {
            use_type_invariant(&self.geometry);
        }
        let mut events: Vec<Event> = Vec::new();
        std::mem::swap(&mut self.events, &mut events);
        let batch = RawInput {
            screen_rect: self.geometry.screen_rect,
            pixels_per_point: self.geometry.pixels_per_point,
            predicted_dt: elapsed,
            events,
        };
        self.geometry = Geometry {
            screen_rect: None,
            pixels_per_point: None,
            scale_factor: self.geometry.scale_factor,
        };
        self.dt = now;
        batch
    }

    /// Hands over what was queued and leaves the queue empty. The batch is
    /// stamped with the time measured since the stored clock reading, and a
    /// new reading is stored.
    pub(crate) fn take(&mut self) -> (batch: RawInput)
        ensures
            batch.events@ == old(self)@.events,
            batch.screen_rect == old(self)@.screen_rect,
            batch.pixels_per_point == old(self)@.pixels_per_point,
            old(self)@.consistent(),
            final(self)@ == (InputView {
                events: Seq::empty(),
                screen_rect: None,
                pixels_per_point: None,
                started: final(self)@.started,
                ..old(self)@
            }),
    {
        let elapsed = clock::elapsed(&self.dt);
        let now = clock::now();
        self.take_with(now, elapsed)
    }

    /// Appends one event to the queue.
    pub fn push(&mut self, event: Event)
        ensures
            final(self)@ == (InputView { events: old(self)@.events.push(event), ..old(self)@ }),
    {
        self.events.push(event);
    }
}

} // verus!

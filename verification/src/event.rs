//! Platform-agnostic input events, event batches and the event dispatcher
//! that tracks hover, press and focus.
//!
//! Pointer positions and deltas travel as the bits of an `f32`.

use vstd::prelude::*;

verus! {

/// Identifies a widget (the 64-bit FFI form of the widget tree's key).
#[derive(Clone, Copy, Debug, PartialEq, Eq, Structural)]
pub struct WidgetId {
    pub raw: u64,
}

impl WidgetId {
    /// The widget id whose FFI form is `raw`.
    pub fn from_ffi(raw: u64) -> (w: WidgetId)
        ensures
            w.raw == raw,
    {
        WidgetId { raw }
    }
}

/// Mouse button.
#[derive(Clone, Copy, Debug, PartialEq, Eq, Structural)]
pub enum MouseButton {
    Left,
    Right,
    Middle,
    Other(u8),
}

/// Keyboard key.
#[derive(Clone, Copy, Debug, PartialEq, Eq, Structural)]
pub enum Key {
    A,
    B,
    C,
    D,
    E,
    F,
    G,
    H,
    I,
    J,
    K,
    L,
    M,
    N,
    O,
    P,
    Q,
    R,
    S,
    T,
    U,
    V,
    W,
    X,
    Y,
    Z,
    Num0,
    Num1,
    Num2,
    Num3,
    Num4,
    Num5,
    Num6,
    Num7,
    Num8,
    Num9,
    Enter,
    Escape,
    Backspace,
    Tab,
    Space,
    ArrowUp,
    ArrowDown,
    ArrowLeft,
    ArrowRight,
    Shift,
    Control,
    Alt,
    Meta,
    Unknown,
}

/// Keyboard modifiers.
#[derive(Clone, Copy, Debug, PartialEq, Eq, Structural)]
pub struct Modifiers {
    pub shift: bool,
    pub ctrl: bool,
    pub alt: bool,
    pub meta: bool,
}

impl Default for Modifiers {
    /// No modifier held.
    fn default() -> (m: Modifiers)
        ensures
            !m.shift && !m.ctrl && !m.alt && !m.meta,
    {
        Modifiers { shift: false, ctrl: false, alt: false, meta: false }
    }
}

/// Platform-agnostic event.
#[derive(Clone, Debug)]
#[allow(inconsistent_fields)]
pub enum Event {
    /// Mouse moved to position (x, y)
    MouseMove { x_bits: u32, y_bits: u32, widget: Option<WidgetId> },
    /// Mouse button pressed
    MouseDown { x_bits: u32, y_bits: u32, button: MouseButton, widget: Option<WidgetId> },
    /// Mouse button released
    MouseUp { x_bits: u32, y_bits: u32, button: MouseButton, widget: Option<WidgetId> },
    /// Mouse wheel scrolled
    MouseWheel {
        x_bits: u32,
        y_bits: u32,
        delta_x_bits: u32,
        delta_y_bits: u32,
        widget: Option<WidgetId>,
    },
    /// Key pressed
    KeyDown { key: Key, modifiers: Modifiers },
    /// Key released
    KeyUp { key: Key, modifiers: Modifiers },
    /// Text input (composed characters, emoji, ...)
    TextInput { text: String },
    /// Widget gained focus
    FocusGained { widget: WidgetId },
    /// Widget lost focus
    FocusLost { widget: WidgetId },
    /// Window resized
    WindowResize { width: u32, height: u32 },
    /// Window close requested
    WindowClose,
    /// Application should quit
    Quit,
}

/// Events gathered during one frame.
pub struct EventBatch {
    pub events: Vec<Event>,
    pub frame_number: u64,
}

impl EventBatch {
    /// An empty batch for frame `frame_number`.
    pub fn new(frame_number: u64) -> (b: EventBatch)
        ensures
            b.events@ == Seq::<Event>::empty(),
            b.frame_number == frame_number,
    {
        EventBatch { events: Vec::new(), frame_number }
    }

    /// Appends an event.
    pub fn push(&mut self, event: Event)
        ensures
            final(self).events@ == old(self).events@.push(event),
            final(self).frame_number == old(self).frame_number,
    {
        self.events.push(event);
    }

    /// Whether the batch holds no event.
    pub fn is_empty(&self) -> (r: bool)
        ensures
            r == (self.events@.len() == 0),
    {
        self.events.len() == 0
    }

    /// The number of events in the batch.
    pub fn len(&self) -> (r: usize)
        ensures
            r == self.events@.len(),
    {
        self.events.len()
    }

    /// Removes every event, keeping the frame number.
    pub fn clear(&mut self)
        ensures
            final(self).events@ == Seq::<Event>::empty(),
            final(self).frame_number == old(self).frame_number,
    {
        self.events.clear();
    }
}

impl Default for EventBatch {
    /// An empty batch for frame 0.
    fn default() -> (b: EventBatch)
        ensures
            b.events@ == Seq::<Event>::empty(),
            b.frame_number == 0,
    {
        EventBatch::new(0)
    }
}

/// The state of an event dispatcher.
pub struct DispatcherView {
    pub batch_events: Seq<Event>,
    pub batch_frame: u64,
    pub frame_number: u64,
    pub hovered: Option<WidgetId>,
    pub focused: Option<WidgetId>,
    pub pressed: Option<WidgetId>,
}

/// The dispatcher state after `event` was pushed: hover, press and focus
/// follow the event, and the event joins the current batch.
pub open spec fn after_push(v: DispatcherView, event: Event) -> DispatcherView {
    let v2 = match event {
        Event::MouseMove { widget, .. } => DispatcherView { hovered: widget, ..v },
        Event::MouseDown { widget, .. } => DispatcherView { pressed: widget, ..v },
        Event::MouseUp { .. } => DispatcherView { pressed: None, ..v },
        Event::FocusGained { widget } => DispatcherView { focused: Some(widget), ..v },
        Event::FocusLost { .. } => DispatcherView { focused: None, ..v },
        _ => v,
    };
    DispatcherView { batch_events: v.batch_events.push(event), ..v2 }
}

/// The dispatcher state after focus was moved to `widget`: when the focus
/// changes, a `FocusLost` for the old widget and a `FocusGained` for the
/// new one (each when present) join the batch.
pub open spec fn after_set_focus(v: DispatcherView, widget: Option<WidgetId>) -> DispatcherView {
    if v.focused == widget {
        v
    } else {
        let lost = match v.focused {
            Some(old) => seq![Event::FocusLost { widget: old }],
            None => Seq::empty(),
        };
        let gained = match widget {
            Some(w) => seq![Event::FocusGained { widget: w }],
            None => Seq::empty(),
        };
        DispatcherView { batch_events: v.batch_events + lost + gained, focused: widget, ..v }
    }
}

/// Routes events and tracks hover, press and focus.
pub struct EventDispatcher {
    current_batch: EventBatch,
    frame_number: u64,
    hovered_widget: Option<WidgetId>,
    focused_widget: Option<WidgetId>,
    pressed_widget: Option<WidgetId>,
}

impl View for EventDispatcher {
    type V = DispatcherView;

    closed spec fn view(&self) -> DispatcherView {
        DispatcherView {
            batch_events: self.current_batch.events@,
            batch_frame: self.current_batch.frame_number,
            frame_number: self.frame_number,
            hovered: self.hovered_widget,
            focused: self.focused_widget,
            pressed: self.pressed_widget,
        }
    }
}

impl EventDispatcher {
    /// A dispatcher at frame 0 with an empty batch and nothing hovered,
    /// focused or pressed.
    pub fn new() -> (d: EventDispatcher)
        ensures
            d@ == (DispatcherView {
                batch_events: Seq::empty(),
                batch_frame: 0,
                frame_number: 0,
                hovered: None,
                focused: None,
                pressed: None,
            }),
    {
        EventDispatcher {
            current_batch: EventBatch::new(0),
            frame_number: 0,
            hovered_widget: None,
            focused_widget: None,
            pressed_widget: None,
        }
    }

    /// Starts a new frame: the frame number advances and the current batch
    /// is replaced by an empty one for the new frame.
    pub fn begin_frame(&mut self)
        requires
            old(self)@.frame_number < u64::MAX,
        ensures
            final(self)@ == (DispatcherView {
                batch_events: Seq::empty(),
                batch_frame: (old(self)@.frame_number + 1) as u64,
                frame_number: (old(self)@.frame_number + 1) as u64,
                ..old(self)@
            }),
    {
        self.frame_number = self.frame_number + 1;
        self.current_batch = EventBatch::new(self.frame_number);
    }

    /// Adds an event to the current batch, updating hover, press and focus.
    pub fn push_event(&mut self, event: Event)
        ensures
            final(self)@ == after_push(old(self)@, event),
    {
        match &event {
            Event::MouseMove { widget, .. } => {
                self.hovered_widget = *widget;
            },
            Event::MouseDown { widget, .. } => {
                self.pressed_widget = *widget;
            },
            Event::MouseUp { .. } => {
                self.pressed_widget = None;
            },
            Event::FocusGained { widget } => {
                self.focused_widget = Some(*widget);
            },
            Event::FocusLost { .. } => {
                self.focused_widget = None;
            },
            _ => {},
        }
        self.current_batch.push(event);
    }

    /// The current event batch.
    pub fn current_batch(&self) -> (b: &EventBatch)
        ensures
            b.events@ == self@.batch_events,
            b.frame_number == self@.batch_frame,
    {
        &self.current_batch
    }

    /// Hands out the current batch and starts an empty one for the current
    /// frame number.
    pub fn take_batch(&mut self) -> (b: EventBatch)
        ensures
            b.events@ == old(self)@.batch_events,
            b.frame_number == old(self)@.batch_frame,
            final(self)@ == (DispatcherView {
                batch_events: Seq::empty(),
                batch_frame: old(self)@.frame_number,
                ..old(self)@
            }),
    {
        let mut batch = EventBatch::new(self.frame_number);
        std::mem::swap(&mut batch, &mut self.current_batch);
        batch
    }

    /// The widget under the pointer.
    pub fn hovered_widget(&self) -> (w: Option<WidgetId>)
        ensures
            w == self@.hovered,
    {
        self.hovered_widget
    }

    /// The widget with keyboard focus.
    pub fn focused_widget(&self) -> (w: Option<WidgetId>)
        ensures
            w == self@.focused,
    {
        self.focused_widget
    }

    /// Moves keyboard focus to `widget`, emitting focus events on change.
    pub fn set_focused_widget(&mut self, widget: Option<WidgetId>)
        ensures
            final(self)@ == after_set_focus(old(self)@, widget),
    {
        let changed = match (self.focused_widget, widget) {
            (Some(a), Some(b)) => a.raw != b.raw,
            (None, None) => false,
            _ => true,
        };
        if changed {
            let ghost start = self@;
            if let Some(old_widget) = self.focused_widget {
                self.push_event(Event::FocusLost { widget: old_widget });
            }
            if let Some(new_widget) = widget {
                self.push_event(Event::FocusGained { widget: new_widget });
            }
            self.focused_widget = widget;
            proof {
                let lost = match start.focused {
                    Some(old) => seq![Event::FocusLost { widget: old }],
                    None => Seq::empty(),
                };
                let gained = match widget {
                    Some(w) => seq![Event::FocusGained { widget: w }],
                    None => Seq::empty(),
                };
                assert(self@.batch_events =~= start.batch_events + lost + gained);
            }
        }
    }

    /// The current frame number.
    pub fn frame_number(&self) -> (n: u64)
        ensures
            n == self@.frame_number,
    {
        self.frame_number
    }
}

impl Default for EventDispatcher {
    /// Same as [`EventDispatcher::new`].
    fn default() -> (d: EventDispatcher)
        ensures
            d@ == (DispatcherView {
                batch_events: Seq::empty(),
                batch_frame: 0,
                frame_number: 0,
                hovered: None,
                focused: None,
                pressed: None,
            }),
    {
        EventDispatcher::new()
    }
}

/// After focus is moved to a widget, that widget has the focus.
pub proof fn lemma_focus_is_where_it_was_set(v: DispatcherView, widget: Option<WidgetId>)
    ensures
        after_set_focus(v, widget).focused == widget,
{
}

/// Moving focus never changes hover, press or the frame numbers, and only
/// ever appends to the batch.
pub proof fn lemma_set_focus_keeps_the_rest(v: DispatcherView, widget: Option<WidgetId>)
    ensures
        after_set_focus(v, widget).hovered == v.hovered,
        after_set_focus(v, widget).pressed == v.pressed,
        after_set_focus(v, widget).frame_number == v.frame_number,
        after_set_focus(v, widget).batch_events.subrange(0, v.batch_events.len() as int)
            == v.batch_events,
{
    assert(after_set_focus(v, widget).batch_events.subrange(0, v.batch_events.len() as int)
        =~= v.batch_events);
}

/// Every pushed event ends up, in order, at the end of the current batch.
pub proof fn lemma_push_appends(v: DispatcherView, event: Event)
    ensures
        after_push(v, event).batch_events == v.batch_events.push(event),
        after_push(v, event).frame_number == v.frame_number,
{
}

/// Only a pointer move changes the hovered widget, to the widget under
/// the pointer; a press, a release or any other event leaves it as it was.
pub proof fn lemma_hover_follows_pointer_moves(v: DispatcherView, event: Event)
    ensures
        event matches Event::MouseMove { widget, .. } ==> after_push(v, event).hovered == widget,
        !(event is MouseMove) ==> after_push(v, event).hovered == v.hovered,
{
}

/// A press marks the widget it landed on as pressed, a release clears the
/// pressed widget, and no other event changes it.
pub proof fn lemma_press_follows_buttons(v: DispatcherView, event: Event)
    ensures
        event matches Event::MouseDown { widget, .. } ==> after_push(v, event).pressed == widget,
        event is MouseUp ==> after_push(v, event).pressed is None,
        !(event is MouseDown) && !(event is MouseUp) ==> after_push(v, event).pressed == v.pressed,
{
}

/// Gaining focus gives the focus to that widget, losing it leaves no
/// widget focused, and no other event changes the focus.
pub proof fn lemma_focus_follows_focus_events(v: DispatcherView, event: Event)
    ensures
        event matches Event::FocusGained { widget } ==> after_push(v, event).focused == Some(widget),
        event is FocusLost ==> after_push(v, event).focused is None,
        !(event is FocusGained) && !(event is FocusLost) ==> after_push(v, event).focused
            == v.focused,
{
}

/// The dispatcher state after each of `events` was pushed in turn.
pub open spec fn after_pushes(v: DispatcherView, events: Seq<Event>) -> DispatcherView
    decreases events.len(),
{
    if events.len() == 0 {
        v
    } else {
        after_push(after_pushes(v, events.drop_last()), events.last())
    }
}

/// The widget of the last pointer move among `events`; `before` when
/// none of them is a pointer move.
pub open spec fn last_pointer_widget(events: Seq<Event>, before: Option<WidgetId>) -> Option<
    WidgetId,
>
    decreases events.len(),
{
    if events.len() == 0 {
        before
    } else {
        match events.last() {
            Event::MouseMove { widget, .. } => widget,
            _ => last_pointer_widget(events.drop_last(), before),
        }
    }
}

/// Whatever events are pushed, the hovered widget is the widget of the
/// last pointer move among them (the one hovered before, when none
/// moved): clicks, keys and focus changes never change it.
pub proof fn lemma_hover_is_last_pointer_move(v: DispatcherView, events: Seq<Event>)
    ensures
        after_pushes(v, events).hovered == last_pointer_widget(events, v.hovered),
    decreases events.len(),
{
    if events.len() > 0 {
        lemma_hover_is_last_pointer_move(v, events.drop_last());
        lemma_hover_follows_pointer_moves(after_pushes(v, events.drop_last()), events.last());
    }
}

} // verus!

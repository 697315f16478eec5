//! The widget's interaction state and the event handler that turns input
//! events into terminal actions.
use vstd::prelude::*;
use crate::click::{ClickKind, ClickRecord, next_record, classify_press};
use crate::geometry::{
    Point, Rect, Padding, device_coord, div_toward_zero, in_area, relative_in, bounds_ok,
    rect_ok, rect_in_range, to_device, trunc_div, position_in,
};
use crate::keys::{
    Key, Modifiers, ScrollCommand, KeyAction, KeyActionModel, key_action, char_bytes,
    translate_key, translate_char,
};
use crate::wheel::{
    WheelDelta, CARRY_BOUND, wheel_spec, wheel_step, sum, pixel_run, lemma_pixel_run_balance,
};

verus! {

/// The scroll fraction that stands for 1.0; fractions are in millionths.
pub const FRACTION_ONE: i64 = 1_000_000;

/// Device coordinates stay strictly within this bound.
pub const DEVICE_BOUND: i64 = 0x100_0000_0000;

/// Logical coordinates handed to the mapper stay within this bound.
pub const LOGICAL_BOUND: i64 = 0x2_0000_0000;

/// A pointer button.
#[derive(Clone, Copy, Debug, PartialEq, Eq)]
pub enum Button {
    Left,
    Right,
    Middle,
    Other,
}

/// What a pointer drag is doing.
#[derive(Clone, Copy, Debug, PartialEq, Eq)]
pub enum Dragging {
    /// Selecting buffer content.
    Buffer,
    /// Moving the scrollbar thumb, anchored at the device y where the drag
    /// began and the scrollbar fractions at that moment.
    Scrollbar { start_y: i64, start_scroll: (i64, i64) },
}

/// The interaction state of one widget, kept across frames and events.
#[derive(Clone, Copy, Debug, PartialEq, Eq)]
pub struct State {
    pub modifiers: Modifiers,
    pub click: Option<ClickRecord>,
    pub dragging: Option<Dragging>,
    /// Scale factor of the last frame, in thousandths.
    pub scale_milli: u16,
    /// Wheel pixels carried over, in thousandths of a pixel.
    pub scroll_pixels: i64,
    /// The scrollbar thumb as last drawn, relative to the content origin.
    pub scrollbar_rect: Rect,
}

/// An input event, as delivered by the host.
#[derive(Clone, Copy, Debug, PartialEq, Eq)]
pub enum InputEvent {
    KeyPressed { key: Key, modifiers: Modifiers },
    ModifiersChanged(Modifiers),
    CharacterReceived(char),
    ButtonPressed(Button),
    ButtonReleased(Button),
    CursorMoved,
    WheelScrolled(WheelDelta),
    Other,
}

/// What the handler needs to know of the world at the time of an event.
#[derive(Clone, Copy, Debug, PartialEq, Eq)]
pub struct EventContext {
    /// The widget's bounds in window coordinates.
    pub bounds: Rect,
    /// The pointer in window coordinates, if it is known.
    pub cursor: Option<Point>,
    /// Width and height of the terminal's text area, in thousandths of a
    /// device pixel.
    pub buffer_size: (i64, i64),
    /// The scrollbar's start and end fractions as the terminal reports them.
    pub scrollbar: (i64, i64),
    /// Height of one line, in thousandths of a pixel.
    pub line_height: u32,
    /// The clock, in milliseconds.
    pub now_ms: u64,
}

/// A selection request for the terminal's buffer, in device coordinates.
#[derive(Clone, Copy, Debug, PartialEq, Eq)]
pub enum SelectionRequest {
    Click { kind: ClickKind, x: i64, y: i64 },
    Drag { x: i64, y: i64 },
}

/// What the host is asked to do with the terminal session.
#[derive(Debug, PartialEq, Eq)]
pub enum TerminalAction {
    Nothing,
    Input(Vec<u8>),
    Scroll(ScrollCommand),
    /// Scroll to an absolute fraction; the terminal clamps it.
    ScrollTo(i64),
    /// Scroll to an absolute fraction, then hand the scrollbar's new
    /// fractions to `State::anchor_scroll`.
    JumpTo(i64),
}

/// Model of a terminal action, with the bytes as a sequence.
pub enum ActionModel {
    Nothing,
    Input(Seq<u8>),
    Scroll(ScrollCommand),
    ScrollTo(i64),
    JumpTo(i64),
}

impl View for TerminalAction {
    type V = ActionModel;

    open spec fn view(&self) -> ActionModel {
        match self {
            TerminalAction::Nothing => ActionModel::Nothing,
            TerminalAction::Input(b) => ActionModel::Input(b@),
            TerminalAction::Scroll(c) => ActionModel::Scroll(*c),
            TerminalAction::ScrollTo(f) => ActionModel::ScrollTo(*f),
            TerminalAction::JumpTo(f) => ActionModel::JumpTo(*f),
        }
    }
}

/// The handler's answer to one event.
#[derive(Debug, PartialEq, Eq)]
pub struct EventOutcome {
    /// Whether the event was consumed.
    pub captured: bool,
    pub action: TerminalAction,
    pub selection: Option<SelectionRequest>,
    /// `Some` when the context-menu listener is to be told: the point where a
    /// menu opens, or `None` to close it.
    pub context_menu: Option<Option<Point>>,
}

/// Model of an event outcome.
pub struct OutcomeModel {
    pub captured: bool,
    pub action: ActionModel,
    pub selection: Option<SelectionRequest>,
    pub context_menu: Option<Option<Point>>,
}

impl View for EventOutcome {
    type V = OutcomeModel;

    open spec fn view(&self) -> OutcomeModel {
        OutcomeModel {
            captured: self.captured,
            action: self.action@,
            selection: self.selection,
            context_menu: self.context_menu,
        }
    }
}

/// The configuration of a terminal widget.
#[derive(Clone, Copy, Debug, PartialEq, Eq)]
pub struct TerminalBox {
    pub padding: Padding,
    pub click_timing_ms: u64,
    /// Where a context menu is shown, if one is.
    pub context_menu: Option<Point>,
    /// Whether the host listens for context-menu requests.
    pub notifies_context_menu: bool,
}

/// The pointer cursor a widget asks for.
#[derive(Clone, Copy, Debug, PartialEq, Eq)]
pub enum Interaction {
    Idle,
    Text,
}

impl TerminalBox {
    /// A widget with no padding, a click window of 500 ms, no context menu
    /// shown and no context-menu listener.
    pub fn new() -> (r: TerminalBox)
        ensures
            r.padding == (Padding { top: 0, right: 0, bottom: 0, left: 0 }),
            r.click_timing_ms == 500,
            r.context_menu is None,
            !r.notifies_context_menu,
    {
        TerminalBox {
            padding: Padding::uniform(0),
            click_timing_ms: 500,
            context_menu: None,
            notifies_context_menu: false,
        }
    }

    /// The same widget with `padding`.
    pub fn padding(self, padding: Padding) -> (r: TerminalBox)
        ensures
            r == (TerminalBox { padding, ..self }),
    {
        TerminalBox { padding, ..self }
    }

    /// The same widget with a click window of `click_timing_ms`.
    pub fn click_timing(self, click_timing_ms: u64) -> (r: TerminalBox)
        ensures
            r == (TerminalBox { click_timing_ms, ..self }),
    {
        TerminalBox { click_timing_ms, ..self }
    }

    /// The same widget with a context menu shown at `position`.
    pub fn context_menu(self, position: Point) -> (r: TerminalBox)
        ensures
            r == (TerminalBox { context_menu: Some(position), ..self }),
    {
        TerminalBox { context_menu: Some(position), ..self }
    }

    /// The same widget with a context-menu listener; the listener itself
    /// stays with the host, which is told through `EventOutcome::context_menu`.
    pub fn on_context_menu(self) -> (r: TerminalBox)
        ensures
            r == (TerminalBox { notifies_context_menu: true, ..self }),
    {
        TerminalBox { notifies_context_menu: true, ..self }
    }

    /// The cursor for the pointer: idle while the thumb is dragged, text over
    /// the text area, idle elsewhere.
    pub open spec fn interaction_spec(self, s: State, c: EventContext) -> Interaction {
        if s.dragging matches Some(Dragging::Scrollbar { .. }) {
            Interaction::Idle
        } else {
            match pointer_in(c) {
                Some(p) => if in_area(
                    device_coord(p.x as int, self.padding.left as int, s.scale_milli as int),
                    device_coord(p.y as int, self.padding.top as int, s.scale_milli as int),
                    c.buffer_size.0 as int,
                    c.buffer_size.1 as int,
                ) {
                    Interaction::Text
                } else {
                    Interaction::Idle
                },
                None => Interaction::Idle,
            }
        }
    }

    /// Tells which cursor the pointer should show.
    pub fn mouse_interaction(&self, state: &State, c: &EventContext) -> (r: Interaction)
        requires
            context_ok(*c),
        ensures
            r == self.interaction_spec(*state, *c),
    {
        if let Some(Dragging::Scrollbar { .. }) = state.dragging {
            return Interaction::Idle;
        }
        let rel = match c.cursor {
            Some(q) => position_in(&c.bounds, q),
            None => None,
        };
        match rel {
            Some(p) => {
                let x = to_device(p.x as i64, self.padding.left, state.scale_milli);
                let y = to_device(p.y as i64, self.padding.top, state.scale_milli);
                if 0 <= x && x < c.buffer_size.0 && 0 <= y && y < c.buffer_size.1 {
                    Interaction::Text
                } else {
                    Interaction::Idle
                }
            },
            None => Interaction::Idle,
        }
    }
}

/// A widget with the default configuration.
pub fn terminal_box() -> (r: TerminalBox)
    ensures
        r.padding == (Padding { top: 0, right: 0, bottom: 0, left: 0 }),
        r.click_timing_ms == 500,
        r.context_menu is None,
        !r.notifies_context_menu,
{
    TerminalBox::new()
}

/// The fraction `d / h` in millionths, rounded toward zero; zero when the
/// height is not positive.
pub open spec fn ratio_of(d: int, h: int) -> int {
    if h > 0 { div_toward_zero(d * FRACTION_ONE, h) } else { 0 }
}

fn ratio(d: i64, h: i64) -> (r: i64)
    requires
        -2 * DEVICE_BOUND <= d <= 2 * DEVICE_BOUND,
    ensures
        r == ratio_of(d as int, h as int),
        h > 0 && 0 <= d < h ==> 0 <= r <= FRACTION_ONE,
{
    if h > 0 {
        let r = trunc_div(d * FRACTION_ONE, h);
        proof {
            if 0 <= d < h {
                vstd::arithmetic::div_mod::lemma_div_pos_is_pos(d * FRACTION_ONE, h as int);
                assert(d * FRACTION_ONE <= h * FRACTION_ONE) by (nonlinear_arith)
                    requires 0 <= d < h;
                vstd::arithmetic::div_mod::lemma_div_is_ordered(d * FRACTION_ONE, h * FRACTION_ONE, h as int);
                vstd::arithmetic::div_mod::lemma_div_by_multiple(FRACTION_ONE as int, h as int);
                assert(h * FRACTION_ONE == FRACTION_ONE * h) by (nonlinear_arith);
            }
        }
        r
    } else {
        0
    }
}

/// A state whose carried values keep every later computation in range.
pub open spec fn state_ok(s: State) -> bool {
    &&& -CARRY_BOUND < s.scroll_pixels < CARRY_BOUND
    &&& rect_ok(s.scrollbar_rect)
    &&& match s.dragging {
        Some(Dragging::Scrollbar { start_y, start_scroll }) => -DEVICE_BOUND < start_y < DEVICE_BOUND
            && 0 <= start_scroll.0 <= FRACTION_ONE,
        _ => true,
    }
}

/// A context as the host can produce it.
pub open spec fn context_ok(c: EventContext) -> bool {
    &&& bounds_ok(c.bounds)
    &&& i32::MIN <= c.bounds.x <= i32::MAX
    &&& i32::MIN <= c.bounds.y <= i32::MAX
    &&& 0 <= c.scrollbar.0 <= FRACTION_ONE
    &&& c.line_height > 0
}

impl EventContext {
    /// Tells whether the context is one the handler accepts.
    pub fn in_range(&self) -> (r: bool)
        ensures
            r == context_ok(*self),
    {
        rect_in_range(&self.bounds)
            && 0 <= self.bounds.width && self.bounds.width <= i32::MAX as i64
            && 0 <= self.bounds.height && self.bounds.height <= i32::MAX as i64
            && i32::MIN as i64 <= self.bounds.x && self.bounds.x <= i32::MAX as i64
            && i32::MIN as i64 <= self.bounds.y && self.bounds.y <= i32::MAX as i64
            && 0 <= self.scrollbar.0 && self.scrollbar.0 <= FRACTION_ONE
            && self.line_height > 0
    }
}

impl State {
    /// The state of a widget that has seen no event yet.
    pub open spec fn initial() -> State {
        State {
            modifiers: Modifiers { shift: false, control: false, alt: false, logo: false },
            click: None,
            dragging: None,
            scale_milli: 1000,
            scroll_pixels: 0,
            scrollbar_rect: Rect { x: 0, y: 0, width: 0, height: 0 },
        }
    }

    /// Creates a new `State`: no modifiers, no click, no drag, scale 1.
    pub fn new() -> (r: State)
        ensures
            r == State::initial(),
            state_ok(r),
    {
        State {
            modifiers: Modifiers::empty(),
            click: None,
            dragging: None,
            scale_milli: 1000,
            scroll_pixels: 0,
            scrollbar_rect: Rect { x: 0, y: 0, width: 0, height: 0 },
        }
    }

    /// Tells whether the state keeps its values in range; every state that
    /// `new` and the handlers produce does.
    pub fn in_range(&self) -> (r: bool)
        ensures
            r == state_ok(*self),
    {
        -CARRY_BOUND < self.scroll_pixels && self.scroll_pixels < CARRY_BOUND
            && rect_in_range(&self.scrollbar_rect)
            && match self.dragging {
                Some(Dragging::Scrollbar { start_y, start_scroll }) => -DEVICE_BOUND < start_y
                    && start_y < DEVICE_BOUND && 0 <= start_scroll.0 && start_scroll.0 <= FRACTION_ONE,
                _ => true,
            }
    }

    /// The state after the scrollbar reports `scroll` following a jump: a
    /// scrollbar drag is re-anchored there.
    pub open spec fn anchored(self, scroll: (i64, i64)) -> State {
        match self.dragging {
            Some(Dragging::Scrollbar { start_y, start_scroll }) => State {
                dragging: Some(Dragging::Scrollbar { start_y, start_scroll: scroll }),
                ..self
            },
            _ => self,
        }
    }

    /// Anchors a scrollbar drag at the fractions the terminal reports after a
    /// jump; other states are left as they are.
    pub fn anchor_scroll(&mut self, scroll: (i64, i64))
        requires
            state_ok(*old(self)),
            0 <= scroll.0 <= FRACTION_ONE,
        ensures
            *final(self) == old(self).anchored(scroll),
            state_ok(*final(self)),
    {
        match self.dragging {
            Some(Dragging::Scrollbar { start_y, start_scroll: _ }) => {
                self.dragging = Some(Dragging::Scrollbar { start_y, start_scroll: scroll });
            },
            _ => {},
        }
    }
}

/// An outcome model from its parts.
pub open spec fn outcome(
    captured: bool,
    action: ActionModel,
    selection: Option<SelectionRequest>,
    context_menu: Option<Option<Point>>,
) -> OutcomeModel {
    OutcomeModel { captured, action, selection, context_menu }
}

/// An event that is passed over: nothing done, not consumed.
pub open spec fn passed_over() -> OutcomeModel {
    outcome(false, ActionModel::Nothing, None, None)
}

/// The pointer relative to the widget, when it lies on the widget.
pub open spec fn pointer_in(c: EventContext) -> Option<Point> {
    match c.cursor {
        Some(q) => relative_in(c.bounds, q),
        None => None,
    }
}

impl TerminalBox {
    /// What the context-menu listener is told on a press of `button` at `p`.
    pub open spec fn menu_notice(self, button: Button, p: Point) -> Option<Option<Point>> {
        if self.notifies_context_menu {
            Some(
                if self.context_menu.is_some() {
                    None
                } else if button == Button::Right {
                    Some(p)
                } else {
                    None
                },
            )
        } else {
            None
        }
    }

    /// A press of `button` at `p`, relative to the widget.
    pub open spec fn press_at(self, s: State, button: Button, p: Point, c: EventContext) -> (State, OutcomeModel) {
        let menu = self.menu_notice(button, p);
        let xl = p.x - self.padding.left;
        let yl = p.y - self.padding.top;
        let x = device_coord(p.x as int, self.padding.left as int, s.scale_milli as int);
        let y = device_coord(p.y as int, self.padding.top as int, s.scale_milli as int);
        let sr = s.scrollbar_rect;
        let drag = Dragging::Scrollbar { start_y: y as i64, start_scroll: c.scrollbar };
        if button != Button::Left {
            (s, outcome(true, ActionModel::Nothing, None, menu))
        } else if in_area(x, y, c.buffer_size.0 as int, c.buffer_size.1 as int) {
            let rec = next_record(s.click, c.now_ms, self.click_timing_ms);
            (
                State { click: Some(rec), dragging: Some(Dragging::Buffer), ..s },
                outcome(true, ActionModel::Nothing,
                    Some(SelectionRequest::Click { kind: rec.kind, x: x as i64, y: y as i64 }), menu),
            )
        } else if sr.holds(xl, yl) {
            (State { dragging: Some(drag), ..s }, outcome(true, ActionModel::Nothing, None, menu))
        } else if sr.x <= xl < sr.x + sr.width {
            (
                State { dragging: Some(drag), ..s },
                outcome(true, ActionModel::JumpTo(ratio_of(y, c.buffer_size.1 as int) as i64), None, menu),
            )
        } else {
            (s, outcome(true, ActionModel::Nothing, None, menu))
        }
    }

    /// A pointer move while a drag may be active.
    pub open spec fn moved(self, s: State, c: EventContext) -> (State, OutcomeModel) {
        match s.dragging {
            None => (s, passed_over()),
            Some(d) => match c.cursor {
                None => (s, outcome(true, ActionModel::Nothing, None, None)),
                Some(q) => {
                    let x = device_coord(q.x - c.bounds.x, self.padding.left as int, s.scale_milli as int);
                    let y = device_coord(q.y - c.bounds.y, self.padding.top as int, s.scale_milli as int);
                    match d {
                        Dragging::Buffer => (s, outcome(true, ActionModel::Nothing,
                            Some(SelectionRequest::Drag { x: x as i64, y: y as i64 }), None)),
                        Dragging::Scrollbar { start_y, start_scroll } => (s, outcome(true,
                            ActionModel::ScrollTo((start_scroll.0 + ratio_of(y - start_y, c.buffer_size.1 as int)) as i64),
                            None, None)),
                    }
                },
            },
        }
    }

    /// The state and outcome of handling `ev` in state `s`.
    pub open spec fn step(self, s: State, ev: InputEvent, c: EventContext) -> (State, OutcomeModel) {
        match ev {
            InputEvent::KeyPressed { key, modifiers } => match key_action(key, modifiers) {
                KeyActionModel::Input(b) => (s, outcome(true, ActionModel::Input(b), None, None)),
                KeyActionModel::Scroll(cmd) => (s, outcome(true, ActionModel::Scroll(cmd), None, None)),
                KeyActionModel::Ignored => (s, passed_over()),
            },
            InputEvent::ModifiersChanged(m) => (State { modifiers: m, ..s }, passed_over()),
            InputEvent::CharacterReceived(ch) => match char_bytes(ch, s.modifiers) {
                Some(b) => (s, outcome(true, ActionModel::Input(b), None, None)),
                None => (s, passed_over()),
            },
            InputEvent::ButtonPressed(button) => match pointer_in(c) {
                Some(p) => self.press_at(s, button, p, c),
                None => (s, passed_over()),
            },
            InputEvent::ButtonReleased(button) => if button == Button::Left {
                (State { dragging: None, ..s }, outcome(true, ActionModel::Nothing, None, None))
            } else {
                (s, passed_over())
            },
            InputEvent::CursorMoved => self.moved(s, c),
            InputEvent::WheelScrolled(delta) => match pointer_in(c) {
                Some(_) => {
                    let (carry, lines) = wheel_spec(s.scroll_pixels as int, delta, c.line_height as int);
                    (
                        State { scroll_pixels: carry as i64, ..s },
                        outcome(true,
                            if lines != 0 { ActionModel::Scroll(ScrollCommand::Delta((-lines) as i64)) } else { ActionModel::Nothing },
                            None, None),
                    )
                },
                None => (s, passed_over()),
            },
            InputEvent::Other => (s, passed_over()),
        }
    }

    fn on_press(&self, state: &mut State, button: Button, p: Point, c: &EventContext) -> (r: EventOutcome)
        requires
            state_ok(*old(state)),
            context_ok(*c),
            relative_in(c.bounds, c.cursor.unwrap()) == Some(p),
            c.cursor is Some,
        ensures
            (*final(state), r@) == self.press_at(*old(state), button, p, *c),
            state_ok(*final(state)),
    {
        let menu = if self.notifies_context_menu {
            Some(
                if self.context_menu.is_some() {
                    None
                } else if matches!(button, Button::Right) {
                    Some(p)
                } else {
                    None
                },
            )
        } else {
            None
        };
        if !matches!(button, Button::Left) {
            return EventOutcome { captured: true, action: TerminalAction::Nothing, selection: None, context_menu: menu };
        }
        let xl: i64 = p.x as i64 - self.padding.left as i64;
        let yl: i64 = p.y as i64 - self.padding.top as i64;
        let x = to_device(p.x as i64, self.padding.left, state.scale_milli);
        let y = to_device(p.y as i64, self.padding.top, state.scale_milli);
        let sr = state.scrollbar_rect;
        if 0 <= x && x < c.buffer_size.0 && 0 <= y && y < c.buffer_size.1 {
            let rec = classify_press(state.click, c.now_ms, self.click_timing_ms);
            state.click = Some(rec);
            state.dragging = Some(Dragging::Buffer);
            EventOutcome {
                captured: true,
                action: TerminalAction::Nothing,
                selection: Some(SelectionRequest::Click { kind: rec.kind, x, y }),
                context_menu: menu,
            }
        } else if sr.contains(xl, yl) {
            state.dragging = Some(Dragging::Scrollbar { start_y: y, start_scroll: c.scrollbar });
            EventOutcome { captured: true, action: TerminalAction::Nothing, selection: None, context_menu: menu }
        } else if sr.x <= xl && xl < sr.x + sr.width {
            let f = ratio(y, c.buffer_size.1);
            state.dragging = Some(Dragging::Scrollbar { start_y: y, start_scroll: c.scrollbar });
            EventOutcome { captured: true, action: TerminalAction::JumpTo(f), selection: None, context_menu: menu }
        } else {
            EventOutcome { captured: true, action: TerminalAction::Nothing, selection: None, context_menu: menu }
        }
    }

    fn on_move(&self, state: &State, c: &EventContext) -> (r: EventOutcome)
        requires
            state_ok(*state),
            context_ok(*c),
        ensures
            (*state, r@) == self.moved(*state, *c),
    {
        match state.dragging {
            None => EventOutcome { captured: false, action: TerminalAction::Nothing, selection: None, context_menu: None },
            Some(d) => match c.cursor {
                None => EventOutcome { captured: true, action: TerminalAction::Nothing, selection: None, context_menu: None },
                Some(q) => {
                    let x = to_device(q.x as i64 - c.bounds.x, self.padding.left, state.scale_milli);
                    let y = to_device(q.y as i64 - c.bounds.y, self.padding.top, state.scale_milli);
                    match d {
                        Dragging::Buffer => EventOutcome {
                            captured: true,
                            action: TerminalAction::Nothing,
                            selection: Some(SelectionRequest::Drag { x, y }),
                            context_menu: None,
                        },
                        Dragging::Scrollbar { start_y, start_scroll } => {
                            let off = ratio(y - start_y, c.buffer_size.1);
                            proof {
                                if c.buffer_size.1 > 0 {
                                    crate::geometry::lemma_trunc_remainder(
                                        (y - start_y) * FRACTION_ONE, c.buffer_size.1 as int);
                                    lemma_ratio_small(y - start_y, c.buffer_size.1 as int);
                                }
                            }
                            EventOutcome {
                                captured: true,
                                action: TerminalAction::ScrollTo(start_scroll.0 + off),
                                selection: None,
                                context_menu: None,
                            }
                        },
                    }
                },
            },
        }
    }

    /// Handles one input event: updates `state` and says what the host is to
    /// do with the terminal session and whether the event was consumed.
    pub fn on_event(&self, state: &mut State, event: InputEvent, c: &EventContext) -> (r: EventOutcome)
        requires
            state_ok(*old(state)),
            context_ok(*c),
        ensures
            (*final(state), r@) == self.step(*old(state), event, *c),
            state_ok(*final(state)),
    {
        match event {
            InputEvent::KeyPressed { key, modifiers } => match translate_key(key, modifiers) {
                KeyAction::Input(b) => EventOutcome {
                    captured: true, action: TerminalAction::Input(b), selection: None, context_menu: None,
                },
                KeyAction::Scroll(cmd) => EventOutcome {
                    captured: true, action: TerminalAction::Scroll(cmd), selection: None, context_menu: None,
                },
                KeyAction::Ignored => EventOutcome {
                    captured: false, action: TerminalAction::Nothing, selection: None, context_menu: None,
                },
            },
            InputEvent::ModifiersChanged(m) => {
                state.modifiers = m;
                EventOutcome { captured: false, action: TerminalAction::Nothing, selection: None, context_menu: None }
            },
            InputEvent::CharacterReceived(ch) => match translate_char(ch, state.modifiers) {
                Some(b) => EventOutcome {
                    captured: true, action: TerminalAction::Input(b), selection: None, context_menu: None,
                },
                None => EventOutcome {
                    captured: false, action: TerminalAction::Nothing, selection: None, context_menu: None,
                },
            },
            InputEvent::ButtonPressed(button) => {
                let rel = match c.cursor {
                    Some(q) => position_in(&c.bounds, q),
                    None => None,
                };
                match rel {
                    Some(p) => self.on_press(state, button, p, c),
                    None => EventOutcome {
                        captured: false, action: TerminalAction::Nothing, selection: None, context_menu: None,
                    },
                }
            },
            InputEvent::ButtonReleased(button) => if matches!(button, Button::Left) {
                state.dragging = None;
                EventOutcome { captured: true, action: TerminalAction::Nothing, selection: None, context_menu: None }
            } else {
                EventOutcome { captured: false, action: TerminalAction::Nothing, selection: None, context_menu: None }
            },
            InputEvent::CursorMoved => self.on_move(state, c),
            InputEvent::WheelScrolled(delta) => {
                let rel = match c.cursor {
                    Some(q) => position_in(&c.bounds, q),
                    None => None,
                };
                match rel {
                    Some(_) => {
                        let (carry, lines) = wheel_step(state.scroll_pixels, delta, c.line_height);
                        state.scroll_pixels = carry;
                        let action = if lines != 0 {
                            TerminalAction::Scroll(ScrollCommand::Delta(-lines))
                        } else {
                            TerminalAction::Nothing
                        };
                        EventOutcome { captured: true, action, selection: None, context_menu: None }
                    },
                    None => EventOutcome {
                        captured: false, action: TerminalAction::Nothing, selection: None, context_menu: None,
                    },
                }
            },
            InputEvent::Other => EventOutcome {
                captured: false, action: TerminalAction::Nothing, selection: None, context_menu: None,
            },
        }
    }
}

/// The state and the last outcome after pointer moves with the contexts
/// `cs`, one after another, starting from `s`.
pub open spec fn moves(tb: TerminalBox, s: State, cs: Seq<EventContext>) -> (State, OutcomeModel)
    decreases cs.len(),
{
    if cs.len() == 0 {
        (s, passed_over())
    } else {
        tb.step(moves(tb, s, cs.drop_last()).0, InputEvent::CursorMoved, cs.last())
    }
}

proof fn lemma_moves_keep_state(tb: TerminalBox, s: State, cs: Seq<EventContext>)
    ensures
        moves(tb, s, cs).0 == s,
    decreases cs.len(),
{
    if cs.len() > 0 {
        lemma_moves_keep_state(tb, s, cs.drop_last());
    }
}

/// The device y of the pointer in a move context.
pub open spec fn move_y(tb: TerminalBox, s: State, c: EventContext) -> int {
    device_coord(c.cursor.unwrap().y - c.bounds.y, tb.padding.top as int, s.scale_milli as int)
}

/// A press of the primary button in the scrollbar gutter but off the thumb
/// jumps to the fraction of the press; once the drag is anchored at the
/// scrollbar's reported position, any series of pointer moves leaves the
/// state as it is and asks last for that position plus the pointer's total
/// travel over the view height, whatever the moves in between.
pub proof fn lemma_jump_then_drag(
    tb: TerminalBox,
    s: State,
    c0: EventContext,
    p: Point,
    scroll: (i64, i64),
    cs: Seq<EventContext>,
)
    requires
        state_ok(s),
        context_ok(c0),
        pointer_in(c0) == Some(p),
        !in_area(
            device_coord(p.x as int, tb.padding.left as int, s.scale_milli as int),
            device_coord(p.y as int, tb.padding.top as int, s.scale_milli as int),
            c0.buffer_size.0 as int,
            c0.buffer_size.1 as int,
        ),
        !s.scrollbar_rect.holds(p.x - tb.padding.left, p.y - tb.padding.top),
        s.scrollbar_rect.x <= p.x - tb.padding.left < s.scrollbar_rect.x + s.scrollbar_rect.width,
        cs.len() > 0,
        forall|i: int| 0 <= i < cs.len() ==> (#[trigger] cs[i]).cursor is Some,
        forall|i: int| 0 <= i < cs.len() ==> context_ok(#[trigger] cs[i]),
    ensures
        ({
            let y0 = device_coord(p.y as int, tb.padding.top as int, s.scale_milli as int);
            let (s1, o1) = tb.step(s, InputEvent::ButtonPressed(Button::Left), c0);
            let s2 = s1.anchored(scroll);
            &&& o1.action == ActionModel::JumpTo(ratio_of(y0, c0.buffer_size.1 as int) as i64)
            &&& moves(tb, s2, cs).0 == s2
            &&& moves(tb, s2, cs).1.action == ActionModel::ScrollTo(
                (scroll.0 + ratio_of(move_y(tb, s, cs.last()) - y0, cs.last().buffer_size.1 as int)) as i64,
            )
        }),
{
    let y0 = device_coord(p.y as int, tb.padding.top as int, s.scale_milli as int);
    crate::geometry::lemma_device_coord_bound(p.y as int, tb.padding.top as int, s.scale_milli as int);
    let s1 = tb.step(s, InputEvent::ButtonPressed(Button::Left), c0).0;
    let s2 = s1.anchored(scroll);
    lemma_moves_keep_state(tb, s2, cs.drop_last());
    lemma_moves_keep_state(tb, s2, cs);
    assert(cs.last() == cs[cs.len() - 1]);
}

/// Lines an action asks the terminal to scroll toward the top: minus the
/// delta of a line scroll, zero for any other action.
pub open spec fn lines_requested(a: ActionModel) -> int {
    match a {
        ActionModel::Scroll(ScrollCommand::Delta(d)) => -(d as int),
        _ => 0,
    }
}

/// The state and the total of lines requested after pixel wheel events of
/// amounts `ys`, handled one after another in context `c`.
pub open spec fn pixel_events(tb: TerminalBox, s: State, ys: Seq<i32>, c: EventContext) -> (State, int)
    decreases ys.len(),
{
    if ys.len() == 0 {
        (s, 0)
    } else {
        let (s1, total) = pixel_events(tb, s, ys.drop_last(), c);
        let (s2, o) = tb.step(s1, InputEvent::WheelScrolled(WheelDelta::Pixels { y: ys.last() }), c);
        (s2, total + lines_requested(o.action))
    }
}

proof fn lemma_pixel_events_follow_run(tb: TerminalBox, s: State, ys: Seq<i32>, c: EventContext)
    requires
        pointer_in(c) is Some,
        c.line_height > 0,
        -(c.line_height as int) < s.scroll_pixels < c.line_height,
    ensures
        pixel_events(tb, s, ys, c).0.scroll_pixels == pixel_run(s.scroll_pixels as int, ys, c.line_height as int).0,
        pixel_events(tb, s, ys, c).1 == pixel_run(s.scroll_pixels as int, ys, c.line_height as int).1,
    decreases ys.len(),
{
    if ys.len() > 0 {
        let lh = c.line_height as int;
        lemma_pixel_events_follow_run(tb, s, ys.drop_last(), c);
        lemma_pixel_run_balance(s.scroll_pixels as int, ys.drop_last(), lh);
        let c1 = pixel_run(s.scroll_pixels as int, ys.drop_last(), lh).0;
        let a = c1 - (ys.last() as int) * 6;
        let lines = div_toward_zero(a, lh);
        crate::geometry::lemma_trunc_remainder(a, lh);
        if a >= 0 {
            assert(lines <= a) by (nonlinear_arith) requires 0 <= a - lines * lh, lines >= 0, lh > 0;
        } else {
            assert(lines >= a) by (nonlinear_arith) requires a - lines * lh <= 0, lines <= 0, lh > 0;
        }
    }
}

/// Pixel wheel events over the widget whose amounts add up to exactly `n`
/// line heights, starting with nothing carried, ask the terminal for exactly
/// `n` lines in all and leave nothing carried.
pub proof fn lemma_wheel_events_scroll_exactly(tb: TerminalBox, s: State, ys: Seq<i32>, c: EventContext, n: int)
    requires
        pointer_in(c) is Some,
        c.line_height > 0,
        s.scroll_pixels == 0,
        -6 * sum(ys) == n * c.line_height,
    ensures
        pixel_events(tb, s, ys, c).1 == n,
        pixel_events(tb, s, ys, c).0.scroll_pixels == 0,
{
    lemma_pixel_events_follow_run(tb, s, ys, c);
    crate::wheel::lemma_whole_lines_scroll_exactly(ys, c.line_height as int, n);
}

/// Releasing the primary button while no drag is active changes nothing and
/// is reported as consumed.
pub proof fn lemma_release_without_drag(tb: TerminalBox, s: State, c: EventContext)
    requires
        s.dragging is None,
    ensures
        tb.step(s, InputEvent::ButtonReleased(Button::Left), c).0 == s,
        tb.step(s, InputEvent::ButtonReleased(Button::Left), c).1.captured,
        tb.step(s, InputEvent::ButtonReleased(Button::Left), c).1.action == ActionModel::Nothing,
{
}

proof fn lemma_ratio_small(d: int, h: int)
    requires
        h > 0,
        -2 * DEVICE_BOUND <= d <= 2 * DEVICE_BOUND,
    ensures
        -2 * DEVICE_BOUND * FRACTION_ONE <= ratio_of(d, h) <= 2 * DEVICE_BOUND * FRACTION_ONE,
{
    let n = d * FRACTION_ONE;
    crate::geometry::lemma_trunc_remainder(n, h);
    let q = div_toward_zero(n, h);
    assert(-2 * DEVICE_BOUND * FRACTION_ONE <= n <= 2 * DEVICE_BOUND * FRACTION_ONE) by (nonlinear_arith)
        requires n == d * FRACTION_ONE, -2 * DEVICE_BOUND <= d <= 2 * DEVICE_BOUND;
    if n >= 0 {
        assert(q <= n) by (nonlinear_arith) requires 0 <= n - q * h, q >= 0, h > 0;
    } else {
        assert(q >= n) by (nonlinear_arith) requires n - q * h <= 0, q <= 0, h > 0;
    }
}

} // verus!

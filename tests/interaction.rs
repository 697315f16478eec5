use term_box::click::classify_press;
use term_box::keys::{translate_char, translate_key};
use term_box::render::{THUMB_ALPHA_DRAGGED, THUMB_ALPHA_RESTING};
use term_box::wheel::wheel_step;
use term_box::{
    terminal_box, Button, ClickKind, ClickRecord, DrawOp, Dragging, EventContext, GlyphCell,
    InputEvent, Interaction, Key, KeyAction, Modifiers, Padding, Point, Rect, ScrollCommand,
    SelectionRequest, State, TerminalAction, TerminalBox, ViewBox, WheelDelta,
};

const S: ClickKind = ClickKind::Single;
const D: ClickKind = ClickKind::Double;
const T: ClickKind = ClickKind::Triple;

fn mods(shift: bool, control: bool, alt: bool, logo: bool) -> Modifiers {
    Modifiers { shift, control, alt, logo }
}

fn bounds() -> Rect {
    Rect { x: 0, y: 0, width: 800_000, height: 600_000 }
}

fn ctx(cursor: Option<Point>, now_ms: u64) -> EventContext {
    EventContext {
        bounds: bounds(),
        cursor,
        buffer_size: (792_000, 600_000),
        scrollbar: (0, 500_000),
        line_height: 20_000,
        now_ms,
    }
}

fn at(x: i32, y: i32) -> Option<Point> {
    Some(Point { x, y })
}

/// A state after one frame of an 800 x 600 widget, thumb over the top half.
fn drawn_state() -> State {
    let tb = TerminalBox::new();
    let mut state = State::new();
    let view = tb.plan_view(&bounds(), &bounds());
    assert_eq!(view, Some(ViewBox { width: 792, height: 600 }));
    let ops = state.draw(view, 1000, 0xFF00_0000, &Vec::new(), 20_000, (0, 500_000));
    assert_eq!(ops.len(), 3);
    state
}

#[test]
fn click_kinds_cycle_within_window() {
    let mut rec: Option<ClickRecord> = None;
    let mut kinds = Vec::new();
    for t in [0u64, 100, 200, 300, 400, 450, 460] {
        let r = classify_press(rec, t, 500);
        kinds.push(r.kind);
        rec = Some(r);
    }
    assert_eq!(kinds, vec![S, D, T, S, D, T, S]);
}

#[test]
fn slow_press_resets_to_single() {
    let prev = ClickRecord { kind: ClickKind::Double, time_ms: 1000 };
    assert_eq!(classify_press(Some(prev), 1500, 500).kind, ClickKind::Single);
    assert_eq!(classify_press(Some(prev), 1499, 500).kind, ClickKind::Triple);
    let r = classify_press(Some(prev), 9000, 500);
    assert_eq!(r, ClickRecord { kind: ClickKind::Single, time_ms: 9000 });
    // A clock that reads earlier counts as no time passed.
    assert_eq!(classify_press(Some(prev), 10, 500).kind, ClickKind::Triple);
}

#[test]
fn key_table_without_shift() {
    let none = mods(false, false, false, false);
    let cases: Vec<(Key, &[u8])> = vec![
        (Key::Backspace, b"\x08"),
        (Key::Tab, b"\t"),
        (Key::Enter, b"\n"),
        (Key::Escape, b"\x1B"),
        (Key::Up, b"\x1B[A"),
        (Key::Down, b"\x1B[B"),
        (Key::Right, b"\x1B[C"),
        (Key::Left, b"\x1B[D"),
        (Key::End, b"\x1B[F"),
        (Key::Home, b"\x1B[H"),
        (Key::Insert, b"\x1B[2~"),
        (Key::Delete, b"\x1B[3~"),
        (Key::PageUp, b"\x1B[5~"),
        (Key::PageDown, b"\x1B[6~"),
    ];
    for (key, bytes) in cases {
        assert_eq!(translate_key(key, none), KeyAction::Input(bytes.to_vec()), "{:?}", key);
    }
    assert_eq!(translate_key(Key::Other, none), KeyAction::Ignored);
}

#[test]
fn key_table_with_shift() {
    let shift = mods(true, false, false, false);
    assert_eq!(translate_key(Key::Tab, shift), KeyAction::Input(b"\x1B[Z".to_vec()));
    assert_eq!(translate_key(Key::End, shift), KeyAction::Scroll(ScrollCommand::Bottom));
    assert_eq!(translate_key(Key::Home, shift), KeyAction::Scroll(ScrollCommand::Top));
    assert_eq!(translate_key(Key::PageUp, shift), KeyAction::Scroll(ScrollCommand::PageUp));
    assert_eq!(translate_key(Key::PageDown, shift), KeyAction::Scroll(ScrollCommand::PageDown));
    let same: Vec<(Key, &[u8])> = vec![
        (Key::Backspace, b"\x08"),
        (Key::Enter, b"\n"),
        (Key::Escape, b"\x1B"),
        (Key::Up, b"\x1B[A"),
        (Key::Down, b"\x1B[B"),
        (Key::Right, b"\x1B[C"),
        (Key::Left, b"\x1B[D"),
        (Key::Insert, b"\x1B[2~"),
        (Key::Delete, b"\x1B[3~"),
    ];
    for (key, bytes) in same {
        assert_eq!(translate_key(key, shift), KeyAction::Input(bytes.to_vec()), "{:?}", key);
    }
    assert_eq!(translate_key(Key::Other, shift), KeyAction::Ignored);
}

#[test]
fn typed_characters_follow_modifier_policy() {
    let none = mods(false, false, false, false);
    assert_eq!(translate_char('a', none), Some(b"a".to_vec()));
    assert_eq!(translate_char('\u{1}', none), None);
    assert_eq!(translate_char('a', mods(false, false, true, false)), Some(b"\x1Ba".to_vec()));
    assert_eq!(translate_char('\u{1}', mods(false, false, true, false)), None);
    assert_eq!(translate_char('\u{1}', mods(false, true, false, false)), Some(vec![0x01]));
    assert_eq!(translate_char('a', mods(false, true, false, false)), None);
    assert_eq!(translate_char('\u{1}', mods(false, true, true, false)), Some(vec![0x01]));
    assert_eq!(translate_char('a', mods(false, false, false, true)), None);
    assert_eq!(translate_char('\u{1}', mods(false, true, false, true)), None);
    assert_eq!(translate_char('A', mods(true, false, false, false)), Some(b"A".to_vec()));
    assert_eq!(translate_char('\u{9F}', none), None);
    assert_eq!(translate_char('\u{A0}', none), Some(vec![0xC2, 0xA0]));
}

#[test]
fn typed_characters_are_utf8_encoded() {
    let none = mods(false, false, false, false);
    for c in ['\u{E9}', '\u{20AC}', '\u{1F600}', '\u{DF}', '\u{7FF}', '\u{800}', '\u{FFFF}', '\u{10000}', '\u{10FFFF}'] {
        let mut buf = [0u8; 4];
        let expected = c.encode_utf8(&mut buf).as_bytes().to_vec();
        assert_eq!(translate_char(c, none), Some(expected.clone()), "{:?}", c);
        let mut with_esc = vec![0x1B];
        with_esc.extend_from_slice(&expected);
        assert_eq!(translate_char(c, mods(false, false, true, false)), Some(with_esc));
    }
    assert_eq!(translate_char('\u{20AC}', none), Some(vec![0xE2, 0x82, 0xAC]));
}

#[test]
fn pixel_wheel_events_totalling_whole_lines() {
    // 6 * (1000 + 2500 + 500) thousandths = 4 lines of 6 px.
    let mut carry = 0i64;
    let mut total = 0i64;
    for y in [-1000, -2500, -500] {
        let (c, lines) = wheel_step(carry, WheelDelta::Pixels { y }, 6000);
        assert!(c.abs() < 6000);
        carry = c;
        total += lines;
    }
    assert_eq!(total, 4);
    assert_eq!(carry, 0);
}

#[test]
fn wheel_carries_fractions_in_both_directions() {
    assert_eq!(wheel_step(0, WheelDelta::Pixels { y: -2500 }, 20_000), (15_000, 0));
    assert_eq!(wheel_step(15_000, WheelDelta::Pixels { y: -2500 }, 20_000), (10_000, 1));
    assert_eq!(wheel_step(0, WheelDelta::Pixels { y: 7000 }, 20_000), (-2_000, -2));
    assert_eq!(wheel_step(12_345, WheelDelta::Lines { y: 1000 }, 20_000), (0, -6));
    assert_eq!(wheel_step(0, WheelDelta::Lines { y: -500 }, 20_000), (0, 3));
    assert_eq!(wheel_step(0, WheelDelta::Lines { y: 100 }, 20_000), (0, -1));
    assert_eq!(wheel_step(0, WheelDelta::Lines { y: -300 }, 20_000), (0, 2));
    assert_eq!(wheel_step(0, WheelDelta::Lines { y: 250 }, 20_000), (0, -2));
    assert_eq!(wheel_step(0, WheelDelta::Lines { y: -250 }, 20_000), (0, 2));
    assert_eq!(wheel_step(0, WheelDelta::Lines { y: 50 }, 20_000), (0, 0));
}

#[test]
fn wheel_event_requests_whole_lines() {
    let tb = terminal_box();
    let mut state = State::new();
    let c = ctx(at(100_000, 100_000), 0);
    let o = tb.on_event(&mut state, InputEvent::WheelScrolled(WheelDelta::Pixels { y: -2500 }), &c);
    assert!(o.captured);
    assert_eq!(o.action, TerminalAction::Nothing);
    let o = tb.on_event(&mut state, InputEvent::WheelScrolled(WheelDelta::Pixels { y: -2500 }), &c);
    assert_eq!(o.action, TerminalAction::Scroll(ScrollCommand::Delta(-1)));
    assert_eq!(state.scroll_pixels, 10_000);
    let o = tb.on_event(&mut state, InputEvent::WheelScrolled(WheelDelta::Lines { y: 1000 }), &c);
    assert_eq!(o.action, TerminalAction::Scroll(ScrollCommand::Delta(6)));
    assert_eq!(state.scroll_pixels, 0);
    let o = tb.on_event(&mut state, InputEvent::WheelScrolled(WheelDelta::Lines { y: -300 }), &c);
    assert_eq!(o.action, TerminalAction::Scroll(ScrollCommand::Delta(-2)));
    let o = tb.on_event(&mut state, InputEvent::WheelScrolled(WheelDelta::Lines { y: 50 }), &c);
    assert!(o.captured);
    assert_eq!(o.action, TerminalAction::Nothing);
    let outside = ctx(at(900_000, 100_000), 0);
    let o = tb.on_event(&mut state, InputEvent::WheelScrolled(WheelDelta::Lines { y: 1000 }), &outside);
    assert!(!o.captured);
    assert_eq!(o.action, TerminalAction::Nothing);
}

#[test]
fn presses_in_buffer_classify_clicks_and_start_selection() {
    let tb = TerminalBox::new();
    let mut state = drawn_state();
    let left = InputEvent::ButtonPressed(Button::Left);
    let mut kinds = Vec::new();
    for t in [0u64, 100, 200, 300, 1000] {
        let o = tb.on_event(&mut state, left, &ctx(at(100_000, 50_000), t));
        assert!(o.captured);
        match o.selection {
            Some(SelectionRequest::Click { kind, x, y }) => {
                assert_eq!((x, y), (100_000, 50_000));
                kinds.push(kind);
            }
            other => panic!("unexpected selection {:?}", other),
        }
        assert_eq!(state.dragging, Some(Dragging::Buffer));
    }
    assert_eq!(kinds, vec![S, D, T, S, S]);
    let o = tb.on_event(&mut state, InputEvent::CursorMoved, &ctx(at(200_000, 60_000), 1100));
    assert!(o.captured);
    assert_eq!(o.selection, Some(SelectionRequest::Drag { x: 200_000, y: 60_000 }));
}

#[test]
fn padding_and_scale_map_pointer_to_device() {
    let tb = TerminalBox::new().padding(Padding::uniform(10_000));
    let mut state = State::new();
    let view = tb.plan_view(&bounds(), &bounds());
    assert_eq!(view, Some(ViewBox { width: 772, height: 580 }));
    state.draw(view, 2000, 0, &Vec::new(), 20_000, (0, 1_000_000));
    assert_eq!(state.scale_milli, 2000);
    let o = tb.on_event(&mut state, InputEvent::ButtonPressed(Button::Left), &ctx(at(15_000, 20_000), 0));
    assert_eq!(o.selection, Some(SelectionRequest::Click { kind: ClickKind::Single, x: 10_000, y: 20_000 }));
    let mut fresh = State::new();
    let o = tb.on_event(&mut fresh, InputEvent::ButtonPressed(Button::Left), &ctx(at(5_000, 5_000), 0));
    assert!(o.captured);
    assert_eq!(o.selection, None);
    assert_eq!(fresh.dragging, None);
}

#[test]
fn thumb_press_then_drag_is_anchored() {
    let tb = TerminalBox::new();
    let mut state = drawn_state();
    assert_eq!(state.scrollbar_rect, Rect { x: 792_000, y: 0, width: 8000, height: 300_000 });
    let o = tb.on_event(&mut state, InputEvent::ButtonPressed(Button::Left), &ctx(at(795_000, 100_000), 0));
    assert!(o.captured);
    assert_eq!(o.action, TerminalAction::Nothing);
    assert_eq!(state.dragging, Some(Dragging::Scrollbar { start_y: 100_000, start_scroll: (0, 500_000) }));
    let o = tb.on_event(&mut state, InputEvent::CursorMoved, &ctx(at(795_000, 160_000), 0));
    assert_eq!(o.action, TerminalAction::ScrollTo(100_000));
    let o = tb.on_event(&mut state, InputEvent::CursorMoved, &ctx(at(795_000, 40_000), 0));
    assert_eq!(o.action, TerminalAction::ScrollTo(-100_000));
}

#[test]
fn gutter_jump_then_drag_follows_total_travel() {
    let tb = TerminalBox::new();
    let mut state = drawn_state();
    let o = tb.on_event(&mut state, InputEvent::ButtonPressed(Button::Left), &ctx(at(795_000, 450_000), 0));
    assert_eq!(o.action, TerminalAction::JumpTo(750_000));
    state.anchor_scroll((700_000, 1_000_000));
    assert_eq!(state.dragging, Some(Dragging::Scrollbar { start_y: 450_000, start_scroll: (700_000, 1_000_000) }));
    let o = tb.on_event(&mut state, InputEvent::CursorMoved, &ctx(at(795_000, 480_000), 0));
    assert_eq!(o.action, TerminalAction::ScrollTo(750_000));
    let o = tb.on_event(&mut state, InputEvent::CursorMoved, &ctx(at(795_000, 510_000), 0));
    assert_eq!(o.action, TerminalAction::ScrollTo(800_000));
    // The same total travel in one move gives the same request.
    let mut other = drawn_state();
    tb.on_event(&mut other, InputEvent::ButtonPressed(Button::Left), &ctx(at(795_000, 450_000), 0));
    other.anchor_scroll((700_000, 1_000_000));
    let o = tb.on_event(&mut other, InputEvent::CursorMoved, &ctx(at(795_000, 510_000), 0));
    assert_eq!(o.action, TerminalAction::ScrollTo(800_000));
    let o = tb.on_event(&mut state, InputEvent::ButtonReleased(Button::Left), &ctx(None, 0));
    assert!(o.captured);
    assert_eq!(state.dragging, None);
}

#[test]
fn release_without_drag_is_captured_noop() {
    let tb = TerminalBox::new();
    let before = drawn_state();
    let mut state = before;
    let o = tb.on_event(&mut state, InputEvent::ButtonReleased(Button::Left), &ctx(at(10_000, 10_000), 0));
    assert!(o.captured);
    assert_eq!(o.action, TerminalAction::Nothing);
    assert_eq!(state, before);
    let o = tb.on_event(&mut state, InputEvent::ButtonReleased(Button::Right), &ctx(at(10_000, 10_000), 0));
    assert!(!o.captured);
}

#[test]
fn move_without_drag_passes_through() {
    let tb = TerminalBox::new();
    let mut state = State::new();
    let o = tb.on_event(&mut state, InputEvent::CursorMoved, &ctx(at(10_000, 10_000), 0));
    assert!(!o.captured);
    assert_eq!(o.selection, None);
}

#[test]
fn right_click_requests_and_dismisses_context_menu() {
    let mut state = State::new();
    let c = ctx(at(100_000, 200_000), 0);
    let tb = TerminalBox::new().on_context_menu();
    let o = tb.on_event(&mut state, InputEvent::ButtonPressed(Button::Right), &c);
    assert!(o.captured);
    assert_eq!(o.context_menu, Some(Some(Point { x: 100_000, y: 200_000 })));
    let o = tb.on_event(&mut state, InputEvent::ButtonPressed(Button::Middle), &c);
    assert_eq!(o.context_menu, Some(None));
    let shown = tb.context_menu(Point { x: 1, y: 2 });
    let o = shown.on_event(&mut state, InputEvent::ButtonPressed(Button::Right), &c);
    assert_eq!(o.context_menu, Some(None));
    let silent = TerminalBox::new();
    let o = silent.on_event(&mut state, InputEvent::ButtonPressed(Button::Right), &c);
    assert_eq!(o.context_menu, None);
}

#[test]
fn keyboard_events_through_handler() {
    let tb = TerminalBox::new();
    let mut state = State::new();
    let c = ctx(None, 0);
    let o = tb.on_event(&mut state, InputEvent::KeyPressed { key: Key::Delete, modifiers: mods(false, false, false, false) }, &c);
    assert!(o.captured);
    assert_eq!(o.action, TerminalAction::Input(b"\x1B[3~".to_vec()));
    let o = tb.on_event(&mut state, InputEvent::KeyPressed { key: Key::Other, modifiers: mods(false, false, false, false) }, &c);
    assert!(!o.captured);
    let o = tb.on_event(&mut state, InputEvent::ModifiersChanged(mods(false, true, false, false)), &c);
    assert!(!o.captured);
    assert!(state.modifiers.control);
    let o = tb.on_event(&mut state, InputEvent::CharacterReceived('\u{1}'), &c);
    assert_eq!(o.action, TerminalAction::Input(vec![0x01]));
    let o = tb.on_event(&mut state, InputEvent::CharacterReceived('a'), &c);
    assert!(!o.captured);
    assert_eq!(o.action, TerminalAction::Nothing);
    let o = tb.on_event(&mut state, InputEvent::Other, &c);
    assert!(!o.captured);
}

#[test]
fn pointer_cursor_kind() {
    let tb = TerminalBox::new();
    let mut state = drawn_state();
    assert_eq!(tb.mouse_interaction(&state, &ctx(at(100_000, 100_000), 0)), Interaction::Text);
    assert_eq!(tb.mouse_interaction(&state, &ctx(at(795_000, 100_000), 0)), Interaction::Idle);
    assert_eq!(tb.mouse_interaction(&state, &ctx(None, 0)), Interaction::Idle);
    tb.on_event(&mut state, InputEvent::ButtonPressed(Button::Left), &ctx(at(795_000, 100_000), 0));
    assert_eq!(tb.mouse_interaction(&state, &ctx(at(100_000, 100_000), 0)), Interaction::Idle);
}

#[test]
fn natural_size_counts_every_row() {
    let tb = TerminalBox::new();
    assert_eq!(tb.layout(640_000, &vec![1, 3, 0, 2], 20_000), (640_000, 120_000));
    assert_eq!(tb.layout(640_000, &Vec::new(), 20_000), (640_000, 0));
}

#[test]
fn degenerate_box_draws_nothing() {
    let tb = TerminalBox::new();
    let tiny = Rect { x: 0, y: 0, width: 5_000, height: 600_000 };
    assert_eq!(tb.plan_view(&tiny, &bounds()), None);
    let flat = Rect { x: 0, y: 0, width: 800_000, height: 0 };
    assert_eq!(tb.plan_view(&bounds(), &flat), None);
    let padded = TerminalBox::new().padding(Padding { top: 300_000, right: 0, bottom: 300_000, left: 0 });
    assert_eq!(padded.plan_view(&bounds(), &bounds()), None);
    let mut state = State::new();
    let before = state;
    let glyphs = vec![GlyphCell { x: 0, w: 8000, line_top: 0, metadata: 7 }];
    let ops = state.draw(None, 2000, 0, &glyphs, 20_000, (0, 1_000_000));
    assert!(ops.is_empty());
    assert_eq!(state, before);
}

#[test]
fn frame_is_drawn_back_to_front() {
    let tb = TerminalBox::new();
    let mut state = State::new();
    let view = tb.plan_view(&bounds(), &bounds());
    let bg = 0xFF00_0000usize;
    let glyphs = vec![
        GlyphCell { x: 0, w: 8000, line_top: 0, metadata: bg },
        GlyphCell { x: 8000, w: 8000, line_top: 0, metadata: 0xFF00_00FF },
        GlyphCell { x: 0, w: 8000, line_top: 20_000, metadata: 0x1_FF00_FF00 },
    ];
    let ops = state.draw(view, 1000, bg, &glyphs, 20_000, (250_000, 750_000));
    let content = Rect { x: 0, y: 0, width: 792_000, height: 600_000 };
    let thumb = Rect { x: 792_000, y: 150_000, width: 8000, height: 300_000 };
    assert_eq!(
        ops,
        vec![
            DrawOp::Fill { rect: content, color: 0xFF00_0000 },
            DrawOp::Fill { rect: Rect { x: 8000, y: 0, width: 8000, height: 20_000 }, color: 0xFF00_00FF },
            DrawOp::Fill { rect: Rect { x: 0, y: 20_000, width: 8000, height: 20_000 }, color: 0xFF00_FF00 },
            DrawOp::Text { clip: content },
            DrawOp::Thumb { rect: thumb, alpha: THUMB_ALPHA_RESTING },
        ]
    );
    assert_eq!(state.scrollbar_rect, thumb);
    tb.on_event(&mut state, InputEvent::ButtonPressed(Button::Left), &ctx(at(795_000, 200_000), 0));
    let ops = state.draw(view, 1000, bg, &Vec::new(), 20_000, (250_000, 750_000));
    assert_eq!(ops.last(), Some(&DrawOp::Thumb { rect: thumb, alpha: THUMB_ALPHA_DRAGGED }));
}

#[test]
fn click_window_is_configurable() {
    let tb = TerminalBox::new().click_timing(100);
    assert_eq!(tb.click_timing_ms, 100);
    let mut state = drawn_state();
    let left = InputEvent::ButtonPressed(Button::Left);
    let mut kinds = Vec::new();
    for t in [0u64, 99, 250, 300] {
        let o = tb.on_event(&mut state, left, &ctx(at(100_000, 50_000), t));
        if let Some(SelectionRequest::Click { kind, .. }) = o.selection {
            kinds.push(kind);
        }
    }
    assert_eq!(kinds, vec![S, D, S, D]);
}

#[test]
fn defaults_of_a_new_widget() {
    let tb = terminal_box();
    assert_eq!(tb, TerminalBox::new());
    assert_eq!(tb.click_timing_ms, 500);
    assert_eq!(tb.padding, Padding::uniform(0));
    assert_eq!(tb.context_menu, None);
    assert!(!tb.notifies_context_menu);
    let s = State::new();
    assert_eq!(s.modifiers, Modifiers::empty());
    assert_eq!(s.click, None);
    assert_eq!(s.dragging, None);
    assert_eq!(s.scale_milli, 1000);
    assert_eq!(s.scroll_pixels, 0);
}

#[test]
fn pixel_wheel_events_through_handler_total_whole_lines() {
    let tb = TerminalBox::new();
    let mut state = State::new();
    let c = ctx(at(100_000, 100_000), 0);
    // 6 * (1500 + 4000 + 1000 + 3500) thousandths = 3 lines of 20 px.
    let mut total = 0i64;
    for y in [-1500, -4000, -1000, -3500] {
        let o = tb.on_event(&mut state, InputEvent::WheelScrolled(WheelDelta::Pixels { y }), &c);
        assert!(o.captured);
        match o.action {
            TerminalAction::Scroll(ScrollCommand::Delta(d)) => total -= d,
            TerminalAction::Nothing => {}
            other => panic!("unexpected action {:?}", other),
        }
        assert!(state.scroll_pixels.abs() < 20_000);
    }
    assert_eq!(total, 3);
    assert_eq!(state.scroll_pixels, 0);
}

#[test]
fn range_checks_for_hosts() {
    assert!(State::new().in_range());
    assert!(ctx(None, 0).in_range());
    let mut bad = ctx(None, 0);
    bad.line_height = 0;
    assert!(!bad.in_range());
    let mut bad = ctx(None, 0);
    bad.scrollbar = (1_000_001, 1_000_001);
    assert!(!bad.in_range());
    let mut bad = ctx(None, 0);
    bad.bounds.x = i64::MAX;
    assert!(!bad.in_range());
    let mut s = State::new();
    s.scrollbar_rect = Rect { x: i64::MAX, y: 0, width: 1, height: 0 };
    assert!(!s.in_range());
}

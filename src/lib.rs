//! Interaction core of a terminal display widget: pointer and keyboard
//! decisions, wheel accumulation and frame composition, over integer units.
use vstd::prelude::*;

pub mod click;
pub mod geometry;
pub mod keys;
pub mod render;
pub mod state;
pub mod wheel;

pub use click::{ClickKind, ClickRecord};
pub use geometry::{Padding, Point, Rect};
pub use keys::{Key, KeyAction, Modifiers, ScrollCommand};
pub use render::{DrawOp, GlyphCell, ViewBox};
pub use state::{
    terminal_box, Button, Dragging, EventContext, EventOutcome, InputEvent, Interaction,
    SelectionRequest, State, TerminalAction, TerminalBox,
};
pub use wheel::WheelDelta;

verus! {

} // verus!

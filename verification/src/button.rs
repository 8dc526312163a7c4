//! The button widget: an interaction state machine driven by mouse
//! events, and the drawing capability it renders through.

use crate::event::{Event, MouseButton, MouseEvent};
use crate::graphics::{Color, Point, Rect};

use vstd::prelude::*;

verus! {

/// A button's private interaction state.
#[derive(Debug, Copy, Clone, PartialEq, Eq, Structural)]
pub enum ButtonState {
    Normal,
    Hovered,
    Pressed,
}

/// Holds a button's interaction state. The state inside is readable
/// through `spec_state` but cannot be assigned from outside this
/// module: it moves only through the button's own event handler.
#[derive(Debug, Copy, Clone, PartialEq, Eq, Structural)]
pub struct Interaction {
    state: ButtonState,
}

impl Interaction {
    /// The state held, for contracts.
    pub closed spec fn spec_state(&self) -> ButtonState {
        self.state
    }
}

/// The button state machine: the state after delivering `event` to a
/// button in `state` whose rectangle is `rect`.
///
/// A pointer move inside the rectangle hovers a normal button; a move
/// outside un-hovers or un-presses it. A left press inside arms it; a
/// left release while armed lands on hovered inside the rectangle and
/// on normal outside it. Everything else leaves the state unchanged.
pub open spec fn spec_transition(state: ButtonState, rect: Rect, event: Event) -> ButtonState {
    match event {
        Event::Mouse(MouseEvent::Moved { x, y }) => {
            if rect.spec_contains(Point { x, y }) {
                if state == ButtonState::Normal {
                    ButtonState::Hovered
                } else {
                    state
                }
            } else {
                ButtonState::Normal
            }
        },
        Event::Mouse(MouseEvent::ButtonPressed { button, x, y }) => {
            if button == MouseButton::Left && rect.spec_contains(Point { x, y }) {
                ButtonState::Pressed
            } else {
                state
            }
        },
        Event::Mouse(MouseEvent::ButtonReleased { button, x, y }) => {
            if button == MouseButton::Left && state == ButtonState::Pressed {
                if rect.spec_contains(Point { x, y }) {
                    ButtonState::Hovered
                } else {
                    ButtonState::Normal
                }
            } else {
                state
            }
        },
        _ => state,
    }
}

/// A click fires exactly on a qualifying release: a left release inside
/// the rectangle while the button is pressed.
pub open spec fn spec_click_fires(state: ButtonState, rect: Rect, event: Event) -> bool {
    match event {
        Event::Mouse(MouseEvent::ButtonReleased { button, x, y }) => {
            button == MouseButton::Left && state == ButtonState::Pressed && rect.spec_contains(
                Point { x, y },
            )
        },
        _ => false,
    }
}

/// Presses and releases of any button other than the left one neither
/// move the state machine nor fire a click.
pub proof fn lemma_non_left_button_immune(
    state: ButtonState,
    rect: Rect,
    button: MouseButton,
    x: i32,
    y: i32,
)
    requires
        button != MouseButton::Left,
    ensures
        spec_transition(state, rect, Event::Mouse(MouseEvent::ButtonPressed { button, x, y }))
            == state,
        spec_transition(state, rect, Event::Mouse(MouseEvent::ButtonReleased { button, x, y }))
            == state,
        !spec_click_fires(state, rect, Event::Mouse(MouseEvent::ButtonPressed { button, x, y })),
        !spec_click_fires(state, rect, Event::Mouse(MouseEvent::ButtonReleased { button, x, y })),
{
}

/// A click is gated on the press: it can fire only while the button
/// is pressed, and the release that fires it always lands in the
/// hovered state.
pub proof fn lemma_click_gating(state: ButtonState, rect: Rect, event: Event)
    requires
        spec_click_fires(state, rect, event),
    ensures
        state == ButtonState::Pressed,
        spec_transition(state, rect, event) == ButtonState::Hovered,
{
}

/// Events outside the mouse category never move the state machine and
/// never fire a click.
pub proof fn lemma_non_mouse_event_immune(state: ButtonState, rect: Rect, event: Event)
    requires
        !(event matches Event::Mouse(_)),
    ensures
        spec_transition(state, rect, event) == state,
        !spec_click_fires(state, rect, event),
{
}

/// One drawing operation issued through the capability surface.
#[derive(Debug, Clone, PartialEq)]
pub enum DrawCmd {
    FillRect { rect: Rect, color: Color },
    DrawText { text: String, position: Point, color: Color },
}

/// The abstract drawing capability: fill a rectangle, draw text at a
/// position. Implementations may batch, defer or rasterize at will;
/// the contract only says what was asked of them, as the ordered list
/// of issued operations.
pub trait Renderer {
    /// The operations issued through this renderer so far, oldest
    /// first.
    spec fn commands(&self) -> Seq<DrawCmd>;

    fn draw_rect(&mut self, rect: Rect, color: Color)
        ensures
            final(self).commands() == old(self).commands().push(
                DrawCmd::FillRect { rect, color },
            ),
    ;

    fn draw_text(&mut self, text: &str, position: Point, color: Color)
        ensures
            final(self).commands().len() == old(self).commands().len() + 1,
            forall|i: int|
                0 <= i < old(self).commands().len() ==> final(self).commands()[i] == old(
                    self,
                ).commands()[i],
            final(self).commands().last() matches DrawCmd::DrawText { text: t, position: p, color: c }
                && t@ == text@ && p == position && c == color,
    ;
}

/// A renderer that simply records every operation, in order.
#[derive(Debug, Clone, PartialEq)]
pub struct CommandRecorder {
    recorded: Vec<DrawCmd>,
}

impl CommandRecorder {
    pub fn new() -> (r: CommandRecorder)
        ensures
            r.commands() == Seq::<DrawCmd>::empty(),
    {
        let r = CommandRecorder { recorded: Vec::new() };
        proof {
            assert(r.commands() =~= Seq::<DrawCmd>::empty());
        }
        r
    }

    /// Hands the recorded operations out for inspection.
    pub fn recorded(&self) -> (cmds: &Vec<DrawCmd>)
        ensures
            cmds@ == self.commands(),
    {
        &self.recorded
    }
}

impl Renderer for CommandRecorder {
    closed spec fn commands(&self) -> Seq<DrawCmd> {
        self.recorded@
    }

    fn draw_rect(&mut self, rect: Rect, color: Color) {
        self.recorded.push(DrawCmd::FillRect { rect, color });
    }

    fn draw_text(&mut self, text: &str, position: Point, color: Color) {
        self.recorded.push(DrawCmd::DrawText { text: text.to_owned(), position, color });
    }
}

/// The fill color a button draws with: its own background when normal,
/// and fixed lighter and darker grays as hover and press feedback.
pub open spec fn spec_fill_color(state: ButtonState, background: Color) -> Color {
    match state {
        ButtonState::Normal => background,
        ButtonState::Hovered => Color { r: 230u8, g: 230u8, b: 230u8, a: 255u8 },
        ButtonState::Pressed => Color { r: 179u8, g: 179u8, b: 179u8, a: 255u8 },
    }
}

/// An interactive widget that owns its rectangle, label and colors.
/// Its interaction state is private: it moves only through
/// `handle_event`, never by outside assignment.
#[derive(Debug, Clone, PartialEq)]
pub struct Button {
    pub rect: Rect,
    pub label: String,
    pub background_color: Color,
    pub text_color: Color,
    pub interaction: Interaction,
}

impl Button {
    /// The current interaction state, for contracts.
    pub open spec fn spec_state(&self) -> ButtonState {
        self.interaction.spec_state()
    }

    /// A new button: light-gray background, black text, normal state.
    pub fn new(rect: Rect, label: String) -> (b: Button)
        ensures
            b.rect == rect,
            b.label == label,
            b.background_color == (Color { r: 204u8, g: 204u8, b: 204u8, a: 255u8 }),
            b.text_color == (Color { r: 0u8, g: 0u8, b: 0u8, a: 255u8 }),
            b.spec_state() == ButtonState::Normal,
    {
        Button {
            rect,
            label,
            background_color: Color::rgb(204, 204, 204),
            text_color: Color::rgb(0, 0, 0),
            interaction: Interaction { state: ButtonState::Normal },
        }
    }

    pub fn set_background_color(&mut self, color: Color)
        ensures
            final(self).background_color == color,
            final(self).rect == old(self).rect,
            final(self).label == old(self).label,
            final(self).text_color == old(self).text_color,
            final(self).spec_state() == old(self).spec_state(),
    {
        self.background_color = color;
    }

    pub fn set_text_color(&mut self, color: Color)
        ensures
            final(self).text_color == color,
            final(self).rect == old(self).rect,
            final(self).label == old(self).label,
            final(self).background_color == old(self).background_color,
            final(self).spec_state() == old(self).spec_state(),
    {
        self.text_color = color;
    }

    /// The current interaction state, for observation only.
    pub fn state(&self) -> (s: ButtonState)
        ensures
            s == self.spec_state(),
    {
        self.interaction.state
    }

    /// Delivers one event to the button. The new state is exactly the
    /// state machine's transition, everything else is unchanged, and
    /// the result says whether a click fired: true exactly on a
    /// qualifying release.
    pub fn handle_event(&mut self, event: &Event) -> (clicked: bool)
        ensures
            final(self).rect == old(self).rect,
            final(self).label == old(self).label,
            final(self).background_color == old(self).background_color,
            final(self).text_color == old(self).text_color,
            final(self).spec_state() == spec_transition(
                old(self).spec_state(),
                old(self).rect,
                *event,
            ),
            clicked == spec_click_fires(old(self).spec_state(), old(self).rect, *event),
    {
        match event {
            Event::Mouse(MouseEvent::Moved { x, y }) => {
                if self.rect.contains(Point::new(*x, *y)) {
                    if self.interaction.state == ButtonState::Normal {
                        self.interaction.state = ButtonState::Hovered;
                    }
                } else {
                    self.interaction.state = ButtonState::Normal;
                }
                false
            },
            Event::Mouse(MouseEvent::ButtonPressed { button, x, y }) => {
                if *button == MouseButton::Left && self.rect.contains(Point::new(*x, *y)) {
                    self.interaction.state = ButtonState::Pressed;
                }
                false
            },
            Event::Mouse(MouseEvent::ButtonReleased { button, x, y }) => {
                if *button == MouseButton::Left && self.interaction.state == ButtonState::Pressed {
                    if self.rect.contains(Point::new(*x, *y)) {
                        self.interaction.state = ButtonState::Hovered;
                        true
                    } else {
                        self.interaction.state = ButtonState::Normal;
                        false
                    }
                } else {
                    false
                }
            },
            _ => false,
        }
    }

    /// Draws the button: one rectangle fill whose color follows the
    /// interaction state, then the label anchored at the rectangle's
    /// geometric center.
    pub fn draw<R: Renderer>(&self, renderer: &mut R)
        requires
            self.rect.well_formed(),
        ensures
            final(renderer).commands().len() == old(renderer).commands().len() + 2,
            forall|i: int|
                0 <= i < old(renderer).commands().len() ==> final(renderer).commands()[i] == old(
                    renderer,
                ).commands()[i],
            final(renderer).commands()[final(renderer).commands().len() - 2] == (
            DrawCmd::FillRect {
                rect: self.rect,
                color: spec_fill_color(self.spec_state(), self.background_color),
            }),
            final(renderer).commands().last() matches DrawCmd::DrawText { text: t, position: p, color: c }
                && t@ == self.label@
                && p.x == self.rect.x + self.rect.width / 2
                && p.y == self.rect.y + self.rect.height / 2
                && c == self.text_color,
    {
        let color = match self.interaction.state {
            ButtonState::Normal => self.background_color,
            ButtonState::Hovered => Color::rgb(230, 230, 230),
            ButtonState::Pressed => Color::rgb(179, 179, 179),
        };
        renderer.draw_rect(self.rect, color);
        let center = self.rect.center();
        renderer.draw_text(self.label.as_str(), center, self.text_color);
    }
}

} // verus!

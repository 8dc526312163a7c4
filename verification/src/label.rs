//! The label widget: passive text that never reacts to input.

use crate::button::DrawCmd;
use crate::button::Renderer;
use crate::graphics::{Color, Rect};

use vstd::prelude::*;

verus! {

/// Horizontal placement of a label's text inside its rectangle.
#[derive(Debug, Copy, Clone, PartialEq, Eq, Structural)]
pub enum TextAlignment {
    Left,
    Center,
    Right,
}

/// The x coordinate a label anchors its text at: the rectangle's left
/// edge, horizontal middle, or right edge.
pub open spec fn spec_anchor_x(rect: Rect, alignment: TextAlignment) -> int {
    match alignment {
        TextAlignment::Left => rect.x as int,
        TextAlignment::Center => rect.x + rect.width / 2,
        TextAlignment::Right => rect.x + rect.width,
    }
}

/// A passive widget owning its rectangle, text, color and alignment.
/// It has no event handler: no input ever changes it.
#[derive(Debug, Clone, PartialEq)]
pub struct Label {
    pub rect: Rect,
    pub text: String,
    pub text_color: Color,
    pub alignment: TextAlignment,
}

impl Label {
    /// A new label: black text, aligned left.
    pub fn new(rect: Rect, text: String) -> (l: Label)
        ensures
            l.rect == rect,
            l.text == text,
            l.text_color == (Color { r: 0u8, g: 0u8, b: 0u8, a: 255u8 }),
            l.alignment == TextAlignment::Left,
    {
        Label { rect, text, text_color: Color::rgb(0, 0, 0), alignment: TextAlignment::Left }
    }

    pub fn set_text(&mut self, text: String)
        ensures
            final(self).text == text,
            final(self).rect == old(self).rect,
            final(self).text_color == old(self).text_color,
            final(self).alignment == old(self).alignment,
    {
        self.text = text;
    }

    pub fn set_text_color(&mut self, color: Color)
        ensures
            final(self).text_color == color,
            final(self).rect == old(self).rect,
            final(self).text == old(self).text,
            final(self).alignment == old(self).alignment,
    {
        self.text_color = color;
    }

    pub fn set_alignment(&mut self, alignment: TextAlignment)
        ensures
            final(self).alignment == alignment,
            final(self).rect == old(self).rect,
            final(self).text == old(self).text,
            final(self).text_color == old(self).text_color,
    {
        self.alignment = alignment;
    }

    /// Draws the label: one text draw, anchored horizontally by the
    /// alignment and centered vertically.
    pub fn draw<R: Renderer>(&self, renderer: &mut R)
        requires
            self.rect.well_formed(),
        ensures
            final(renderer).commands().len() == old(renderer).commands().len() + 1,
            forall|i: int|
                0 <= i < old(renderer).commands().len() ==> final(renderer).commands()[i] == old(
                    renderer,
                ).commands()[i],
            final(renderer).commands().last() matches DrawCmd::DrawText { text: t, position: p, color: c }
                && t@ == self.text@
                && p.x == spec_anchor_x(self.rect, self.alignment)
                && p.y == self.rect.y + self.rect.height / 2
                && c == self.text_color,
    {
        let text_x: i32 = match self.alignment {
            TextAlignment::Left => self.rect.x,
            TextAlignment::Center => self.rect.x + self.rect.width / 2,
            TextAlignment::Right => self.rect.x + self.rect.width,
        };
        let text_y: i32 = self.rect.y + self.rect.height / 2;
        renderer.draw_text(self.text.as_str(), crate::graphics::Point { x: text_x, y: text_y }, self.text_color);
    }
}

} // verus!

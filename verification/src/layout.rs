//! Linear layout containers: a vertical and a horizontal box that
//! divide an available rectangle equally among their children.

use crate::button::Button;
use crate::geometry::Rect;
use crate::label::Label;

use vstd::prelude::*;

verus! {

/// The capability a widget must expose to be placed in a container:
/// its rectangle can be read and replaced, and replacing it changes
/// nothing else about the widget.
pub trait LayoutItem {
    /// The widget's current rectangle, for contracts.
    spec fn rect_spec(&self) -> Rect;

    fn set_rect(&mut self, rect: Rect)
        ensures
            final(self).rect_spec() == rect,
    ;

    fn get_rect(&self) -> (r: Rect)
        ensures
            r == self.rect_spec(),
    ;
}

impl LayoutItem for Button {
    open spec fn rect_spec(&self) -> Rect {
        self.rect
    }

    fn set_rect(&mut self, rect: Rect)
        ensures
            final(self).label == old(self).label,
            final(self).background_color == old(self).background_color,
            final(self).text_color == old(self).text_color,
            final(self).interaction == old(self).interaction,
    {
        self.rect = rect;
    }

    fn get_rect(&self) -> (r: Rect) {
        self.rect
    }
}

impl LayoutItem for Label {
    open spec fn rect_spec(&self) -> Rect {
        self.rect
    }

    fn set_rect(&mut self, rect: Rect)
        ensures
            final(self).text == old(self).text,
            final(self).text_color == old(self).text_color,
            final(self).alignment == old(self).alignment,
    {
        self.rect = rect;
    }

    fn get_rect(&self) -> (r: Rect) {
        self.rect
    }
}

/// A closed union over the widget types a container can hold, so that
/// a button and a label can sit side by side in one child list.
#[derive(Debug, Clone, PartialEq)]
pub enum Widget {
    Button(Button),
    Label(Label),
}

/// Everything about the widget except its rectangle is the same in
/// `before` and `after`.
pub open spec fn unchanged_but_rect(before: Widget, after: Widget) -> bool {
    match (before, after) {
        (Widget::Button(a), Widget::Button(b)) => {
            &&& a.label == b.label
            &&& a.background_color == b.background_color
            &&& a.text_color == b.text_color
            &&& a.interaction == b.interaction
        },
        (Widget::Label(a), Widget::Label(b)) => {
            &&& a.text == b.text
            &&& a.text_color == b.text_color
            &&& a.alignment == b.alignment
        },
        _ => false,
    }
}

/// A widget is pinned down by its rectangle and everything else: two
/// widgets agreeing on both are equal.
pub proof fn lemma_widget_determined(a: Widget, b: Widget)
    requires
        unchanged_but_rect(a, b),
        a.rect_spec() == b.rect_spec(),
    ensures
        a == b,
{
}

impl LayoutItem for Widget {
    open spec fn rect_spec(&self) -> Rect {
        match self {
            Widget::Button(b) => b.rect,
            Widget::Label(l) => l.rect,
        }
    }

    fn set_rect(&mut self, rect: Rect)
        ensures
            unchanged_but_rect(*old(self), *final(self)),
    {
        match self {
            Widget::Button(b) => b.set_rect(rect),
            Widget::Label(l) => l.set_rect(rect),
        }
    }

    fn get_rect(&self) -> (r: Rect) {
        match self {
            Widget::Button(b) => b.get_rect(),
            Widget::Label(l) => l.get_rect(),
        }
    }
}

/// The extent each of `n` children receives along the primary axis
/// when gaps of `spacing` are reserved between neighbours and the rest
/// of `extent` is divided equally.
pub open spec fn equal_share(extent: int, spacing: int, n: int) -> int {
    (extent - spacing * (n - 1)) / n
}

/// The rectangle a vertical box assigns to its `i`-th child: full
/// width, an equal share of the height, stacked top to bottom with
/// `spacing` between neighbours.
pub open spec fn vbox_child_rect(avail: Rect, spacing: int, n: int, i: int) -> Rect {
    let share = equal_share(avail.height as int, spacing, n);
    Rect {
        x: avail.x,
        y: (avail.y + i * (share + spacing)) as i32,
        width: avail.width,
        height: share as i32,
    }
}

/// The rectangle a horizontal box assigns to its `i`-th child: full
/// height, an equal share of the width, laid out left to right with
/// `spacing` between neighbours.
pub open spec fn hbox_child_rect(avail: Rect, spacing: int, n: int, i: int) -> Rect {
    let share = equal_share(avail.width as int, spacing, n);
    Rect {
        x: (avail.x + i * (share + spacing)) as i32,
        y: avail.y,
        width: share as i32,
        height: avail.height,
    }
}

/// `after` is `before` with every child's rectangle replaced by the
/// one the vertical box computes; nothing else about any child
/// changed, and no child was skipped.
pub open spec fn vbox_layout_applied(
    before: Seq<Widget>,
    after: Seq<Widget>,
    avail: Rect,
    spacing: int,
) -> bool {
    &&& after.len() == before.len()
    &&& forall|i: int|
        0 <= i < before.len() ==> (#[trigger] after[i]).rect_spec() == vbox_child_rect(
            avail,
            spacing,
            before.len() as int,
            i,
        )
    &&& forall|i: int| 0 <= i < before.len() ==> unchanged_but_rect(before[i], #[trigger] after[i])
}

/// The horizontal counterpart of `vbox_layout_applied`.
pub open spec fn hbox_layout_applied(
    before: Seq<Widget>,
    after: Seq<Widget>,
    avail: Rect,
    spacing: int,
) -> bool {
    &&& after.len() == before.len()
    &&& forall|i: int|
        0 <= i < before.len() ==> (#[trigger] after[i]).rect_spec() == hbox_child_rect(
            avail,
            spacing,
            before.len() as int,
            i,
        )
    &&& forall|i: int| 0 <= i < before.len() ==> unchanged_but_rect(before[i], #[trigger] after[i])
}

/// The equal share is non-negative, and `n` shares plus the reserved
/// gaps still fit in the extent they were carved from.
proof fn lemma_equal_share_bounds(extent: int, spacing: int, n: int)
    requires
        0 <= extent,
        0 <= spacing,
        1 <= n,
        spacing * (n - 1) <= extent,
    ensures
        0 <= equal_share(extent, spacing, n),
        n * equal_share(extent, spacing, n) + spacing * (n - 1) <= extent,
{
    let num = extent - spacing * (n - 1);
    vstd::arithmetic::div_mod::lemma_div_pos_is_pos(num, n);
    vstd::arithmetic::div_mod::lemma_fundamental_div_mod(num, n);
    vstd::arithmetic::div_mod::lemma_mod_bound(num, n);
}

/// Every child of a box sits inside the span it divided: child `i`'s
/// offset plus its share stays within the extent.
proof fn lemma_child_offset_bounds(extent: int, spacing: int, n: int, i: int)
    requires
        0 <= extent,
        0 <= spacing,
        1 <= n,
        0 <= i < n,
        spacing * (n - 1) <= extent,
    ensures
        0 <= i * (equal_share(extent, spacing, n) + spacing),
        i * (equal_share(extent, spacing, n) + spacing) + equal_share(extent, spacing, n)
            <= extent,
{
    let share = equal_share(extent, spacing, n);
    lemma_equal_share_bounds(extent, spacing, n);
    vstd::arithmetic::mul::lemma_mul_nonnegative(i, share + spacing);
    assert(i * (share + spacing) + share <= extent) by (nonlinear_arith)
        requires
            0 <= i <= n - 1,
            0 <= share,
            0 <= spacing,
            n * share + spacing * (n - 1) <= extent,
    ;
}

/// Advancing the cursor one more step keeps it within the extent plus
/// a single gap.
proof fn lemma_cursor_step_bounds(extent: int, spacing: int, n: int, i: int)
    requires
        0 <= extent,
        0 <= spacing,
        1 <= n,
        0 <= i < n,
        spacing * (n - 1) <= extent,
    ensures
        0 <= (i + 1) * (equal_share(extent, spacing, n) + spacing) <= extent + spacing,
{
    let share = equal_share(extent, spacing, n);
    lemma_equal_share_bounds(extent, spacing, n);
    assert(0 <= (i + 1) * (share + spacing) <= extent + spacing) by (nonlinear_arith)
        requires
            0 <= i + 1 <= n,
            0 <= share,
            0 <= spacing,
            n * share + spacing * (n - 1) <= extent,
    ;
}

/// A vertical box: an ordered list of children it exclusively owns,
/// its own rectangle, and the gap it keeps between neighbours.
#[derive(Debug)]
pub struct VBox {
    pub rect: Rect,
    pub children: Vec<Widget>,
    pub spacing: i32,
}

impl VBox {
    /// A new box with no children and no spacing.
    pub fn new(rect: Rect) -> (v: VBox)
        ensures
            v.rect == rect,
            v.children@ == Seq::<Widget>::empty(),
            v.spacing == 0,
    {
        let v = VBox { rect, children: Vec::new(), spacing: 0 };
        proof {
            assert(v.children@ =~= Seq::<Widget>::empty());
        }
        v
    }

    /// Appends a child; it will take part in every later layout pass.
    pub fn add_child(&mut self, child: Widget)
        ensures
            final(self).children@ == old(self).children@.push(child),
            final(self).rect == old(self).rect,
            final(self).spacing == old(self).spacing,
    {
        self.children.push(child);
    }

    pub fn set_spacing(&mut self, spacing: i32)
        ensures
            final(self).spacing == spacing,
            final(self).rect == old(self).rect,
            final(self).children@ == old(self).children@,
    {
        self.spacing = spacing;
    }

    /// Adopts `available_rect` as the box's own rectangle and assigns
    /// every child its equal-division rectangle; with no children only
    /// the box's own rectangle changes.
    #[verifier::loop_isolation(false)]
    pub fn layout(&mut self, available_rect: Rect)
        requires
            available_rect.well_formed(),
            0 <= old(self).spacing,
            old(self).spacing * (old(self).children.len() - 1) <= available_rect.height,
        ensures
            final(self).rect == available_rect,
            final(self).spacing == old(self).spacing,
            vbox_layout_applied(
                old(self).children@,
                final(self).children@,
                available_rect,
                old(self).spacing as int,
            ),
            forall|i: int|
                0 <= i < final(self).children@.len()
                    ==> (#[trigger] final(self).children@[i]).rect_spec().well_formed(),
    {
        self.rect = available_rect;
        let n: usize = self.children.len();
        if n == 0 {
            return ;
        }
        let ghost spacing_g: int = self.spacing as int;
        let ghost share_g: int = equal_share(available_rect.height as int, spacing_g, n as int);
        proof {
            lemma_equal_share_bounds(available_rect.height as int, spacing_g, n as int);
        }
        let reserved: u128 = (self.spacing as u128) * ((n - 1) as u128);
        let remaining: u128 = (available_rect.height as u128) - reserved;
        let share: i32 = (remaining / (n as u128)) as i32;
        let ghost step_g: int = share_g + spacing_g;
        let mut cursor: i64 = available_rect.y as i64;
        for i in 0..n
            invariant
                self.children.len() == n,
                cursor == available_rect.y + i * step_g,
                forall|j: int|
                    0 <= j < i ==> (#[trigger] self.children@[j]).rect_spec() == vbox_child_rect(
                        available_rect,
                        spacing_g,
                        n as int,
                        j,
                    ),
                forall|j: int|
                    0 <= j < i ==> unchanged_but_rect(
                        old(self).children@[j],
                        #[trigger] self.children@[j],
                    ),
                forall|j: int|
                    0 <= j < i ==> (#[trigger] self.children@[j]).rect_spec().well_formed(),
                forall|j: int| i <= j < n ==> self.children@[j] == old(self).children@[j],
                self.rect == available_rect,
                self.spacing == old(self).spacing,
        {
            proof {
                lemma_child_offset_bounds(
                    available_rect.height as int,
                    spacing_g,
                    n as int,
                    i as int,
                );
                lemma_cursor_step_bounds(
                    available_rect.height as int,
                    spacing_g,
                    n as int,
                    i as int,
                );
                assert((i + 1) * step_g == i * step_g + step_g) by (nonlinear_arith);
            }
            let child_rect = Rect {
                x: available_rect.x,
                y: cursor as i32,
                width: available_rect.width,
                height: share,
            };
            let child: &mut Widget = &mut self.children[i];
            child.set_rect(child_rect);
            cursor = cursor + share as i64 + self.spacing as i64;
        }
    }
}

/// A horizontal box: the vertical box with its axes swapped.
#[derive(Debug)]
pub struct HBox {
    pub rect: Rect,
    pub children: Vec<Widget>,
    pub spacing: i32,
}

impl HBox {
    /// A new box with no children and no spacing.
    pub fn new(rect: Rect) -> (h: HBox)
        ensures
            h.rect == rect,
            h.children@ == Seq::<Widget>::empty(),
            h.spacing == 0,
    {
        let h = HBox { rect, children: Vec::new(), spacing: 0 };
        proof {
            assert(h.children@ =~= Seq::<Widget>::empty());
        }
        h
    }

    /// Appends a child; it will take part in every later layout pass.
    pub fn add_child(&mut self, child: Widget)
        ensures
            final(self).children@ == old(self).children@.push(child),
            final(self).rect == old(self).rect,
            final(self).spacing == old(self).spacing,
    {
        self.children.push(child);
    }

    pub fn set_spacing(&mut self, spacing: i32)
        ensures
            final(self).spacing == spacing,
            final(self).rect == old(self).rect,
            final(self).children@ == old(self).children@,
    {
        self.spacing = spacing;
    }

    /// Adopts `available_rect` as the box's own rectangle and assigns
    /// every child its equal-division rectangle; with no children only
    /// the box's own rectangle changes.
    #[verifier::loop_isolation(false)]
    pub fn layout(&mut self, available_rect: Rect)
        requires
            available_rect.well_formed(),
            0 <= old(self).spacing,
            old(self).spacing * (old(self).children.len() - 1) <= available_rect.width,
        ensures
            final(self).rect == available_rect,
            final(self).spacing == old(self).spacing,
            hbox_layout_applied(
                old(self).children@,
                final(self).children@,
                available_rect,
                old(self).spacing as int,
            ),
            forall|i: int|
                0 <= i < final(self).children@.len()
                    ==> (#[trigger] final(self).children@[i]).rect_spec().well_formed(),
    {
        self.rect = available_rect;
        let n: usize = self.children.len();
        if n == 0 {
            return ;
        }
        let ghost spacing_g: int = self.spacing as int;
        let ghost share_g: int = equal_share(available_rect.width as int, spacing_g, n as int);
        proof {
            lemma_equal_share_bounds(available_rect.width as int, spacing_g, n as int);
        }
        let reserved: u128 = (self.spacing as u128) * ((n - 1) as u128);
        let remaining: u128 = (available_rect.width as u128) - reserved;
        let share: i32 = (remaining / (n as u128)) as i32;
        let ghost step_g: int = share_g + spacing_g;
        let mut cursor: i64 = available_rect.x as i64;
        for i in 0..n
            invariant
                self.children.len() == n,
                cursor == available_rect.x + i * step_g,
                forall|j: int|
                    0 <= j < i ==> (#[trigger] self.children@[j]).rect_spec() == hbox_child_rect(
                        available_rect,
                        spacing_g,
                        n as int,
                        j,
                    ),
                forall|j: int|
                    0 <= j < i ==> unchanged_but_rect(
                        old(self).children@[j],
                        #[trigger] self.children@[j],
                    ),
                forall|j: int|
                    0 <= j < i ==> (#[trigger] self.children@[j]).rect_spec().well_formed(),
                forall|j: int| i <= j < n ==> self.children@[j] == old(self).children@[j],
                self.rect == available_rect,
                self.spacing == old(self).spacing,
        {
            proof {
                lemma_child_offset_bounds(
                    available_rect.width as int,
                    spacing_g,
                    n as int,
                    i as int,
                );
                lemma_cursor_step_bounds(
                    available_rect.width as int,
                    spacing_g,
                    n as int,
                    i as int,
                );
                assert((i + 1) * step_g == i * step_g + step_g) by (nonlinear_arith);
            }
            let child_rect = Rect {
                x: cursor as i32,
                y: available_rect.y,
                width: share,
                height: available_rect.height,
            };
            let child: &mut Widget = &mut self.children[i];
            child.set_rect(child_rect);
            cursor = cursor + share as i64 + self.spacing as i64;
        }
    }
}

/// Laying a vertical box out twice with the same rectangle is
/// idempotent: the second pass reproduces the first pass's children
/// exactly.
pub proof fn lemma_vbox_layout_idempotent(
    first: Seq<Widget>,
    second: Seq<Widget>,
    third: Seq<Widget>,
    avail: Rect,
    spacing: int,
)
    requires
        vbox_layout_applied(first, second, avail, spacing),
        vbox_layout_applied(second, third, avail, spacing),
    ensures
        third == second,
{
    assert forall|i: int| 0 <= i < second.len() implies third[i] == second[i] by {
        lemma_widget_determined(second[i], third[i]);
    }
    assert(third =~= second);
}

/// Laying a horizontal box out twice with the same rectangle is
/// idempotent: the second pass reproduces the first pass's children
/// exactly.
pub proof fn lemma_hbox_layout_idempotent(
    first: Seq<Widget>,
    second: Seq<Widget>,
    third: Seq<Widget>,
    avail: Rect,
    spacing: int,
)
    requires
        hbox_layout_applied(first, second, avail, spacing),
        hbox_layout_applied(second, third, avail, spacing),
    ensures
        third == second,
{
    assert forall|i: int| 0 <= i < second.len() implies third[i] == second[i] by {
        lemma_widget_determined(second[i], third[i]);
    }
    assert(third =~= second);
}

} // verus!

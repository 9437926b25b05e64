//! What to paint for a laid-out tree, and in which order.

use vstd::prelude::*;

use crate::element::Element;
use crate::geometry::Rect;
use crate::style::Color;

verus! {

/// One rectangle to fill with one colour.
#[derive(Clone, Copy, Debug, PartialEq, Eq)]
pub struct FilledRect {
    pub rect: Rect<i64>,
    pub color: Color,
}

impl Element {
    /// The two rectangles of this element: the border box in the padding
    /// colour, then the content box over it in the background colour.
    pub open spec fn own_paint(self) -> Seq<FilledRect> {
        seq![
            FilledRect { rect: self.computed_style.border_box, color: self.style.padding_color },
            FilledRect { rect: self.computed_style.content_box, color: self.style.background_color },
        ]
    }

    /// Everything to paint for this subtree, first painted first: the element
    /// itself, then its children in layout order, each with all that is
    /// below it.
    pub open spec fn paint_order(self) -> Seq<FilledRect>
        decreases self, 1nat, 0nat,
    {
        self.own_paint() + self.paint_order_of_children(self.children.len() as nat)
    }

    /// Everything to paint for the first `count` children.
    pub open spec fn paint_order_of_children(self, count: nat) -> Seq<FilledRect>
        decreases self, 0nat, count,
    {
        if count == 0 || count > self.children.len() {
            Seq::empty()
        } else {
            self.paint_order_of_children((count - 1) as nat) + self.children[count
                - 1].paint_order()
        }
    }
}

/// Lists the rectangles to fill for `elem` and everything below it, in the
/// order in which they are to be painted: a parent before its children.
pub fn render(elem: &Element) -> (list: Vec<FilledRect>)
    ensures
        list@ == elem.paint_order(),
{
    let mut list: Vec<FilledRect> = Vec::new();
    render_into(elem, &mut list);
    list
}

/// Appends to `list` the rectangles to fill for `elem` and everything below
/// it.
fn render_into(elem: &Element, list: &mut Vec<FilledRect>)
    ensures
        final(list)@ == old(list)@ + elem.paint_order(),
    decreases elem,
{
    list.push(FilledRect { rect: elem.computed_style.border_box, color: elem.style.padding_color });
    list.push(
        FilledRect { rect: elem.computed_style.content_box, color: elem.style.background_color },
    );
    let count: usize = elem.children.len();
    let mut i: usize = 0;
    while i < count
        invariant
            i <= count,
            count == elem.children.len(),
            list@ == old(list)@ + elem.own_paint() + elem.paint_order_of_children(i as nat),
        decreases count - i,
    {
        render_into(&elem.children[i], list);
        i = i + 1;
    }
}

} // verus!

//! Reflow: the pass that lays a tree out, and what a layout is.
//!
//! A layout is described here over the mathematical integers; the pass
//! computes it in layout units and is proved to arrive at exactly that.

use vstd::prelude::*;

use crate::element::Element;
use crate::geometry::Rect;
use crate::style::{DeclaredSize, SidesArray};

verus! {

/// The height, in layout units, that every border box gets. Height is not
/// derived from the declared height, the padding or the content.
pub const BORDER_BOX_HEIGHT: i64 = 100;

/// The rectangle left inside `border` once `padding` is taken off each side.
pub open spec fn shrink(border: Rect<int>, padding: SidesArray<DeclaredSize>) -> Rect<int> {
    Rect {
        left: border.left + padding.left.pixels(),
        top: border.top + padding.top.pixels(),
        width: border.width - padding.left.pixels() - padding.right.pixels(),
        height: border.height - padding.top.pixels() - padding.bottom.pixels(),
    }
}

/// The sum of the fixed widths of the first `i` elements of `row`.
pub open spec fn packed_offset(row: Seq<Element>, i: int) -> int
    decreases i,
{
    if i <= 0 {
        0
    } else {
        packed_offset(row, i - 1) + row[i - 1].fixed_width()
    }
}

/// The offsets in a row depend on the widths before them and on nothing else.
pub proof fn lemma_packed_offset_by_widths(a: Seq<Element>, b: Seq<Element>, i: int)
    requires
        0 <= i <= a.len(),
        a.len() == b.len(),
        forall|k: int| 0 <= k < i ==> (#[trigger] a[k]).fixed_width() == b[k].fixed_width(),
    ensures
        packed_offset(a, i) == packed_offset(b, i),
    decreases i,
{
    if i > 0 {
        lemma_packed_offset_by_widths(a, b, i - 1);
    }
}

impl Element {
    /// The declared width where it is fixed, else 0.
    pub open spec fn fixed_width(self) -> int {
        match self.style.width {
            DeclaredSize::Pixels(p) => p as int,
            _ => 0,
        }
    }

    /// How far right of the content box's left edge child `i` starts: the
    /// widths of the children before it, added up. Children are packed with
    /// no gap.
    pub open spec fn child_offset(self, i: int) -> int {
        packed_offset(self.children@, i)
    }

    /// The width that a pass gives the border box of the element on which it
    /// is started.
    ///
    /// An automatic width takes what is available. A fixed width is taken as
    /// declared on an element without a parent; an element that has a parent
    /// keeps the width that its border box already has, which is the one its
    /// parent gave it when the parent was laid out.
    pub open spec fn resolved_width(self, available_width: int) -> int {
        match self.style.width {
            DeclaredSize::Auto => available_width,
            DeclaredSize::Pixels(p) => if self.parent.is_null() {
                p as int
            } else {
                self.computed_style.border_box.width as int
            },
            DeclaredSize::Percent(_) => arbitrary(),
        }
    }

    /// The pass can resolve every declared size that it meets in this
    /// subtree, the width of this element aside: no padding is a percentage,
    /// and every child, at every depth, has a width in `Pixels`.
    pub open spec fn supported(self) -> bool
        decreases self,
    {
        &&& !(self.style.padding.top is Percent)
        &&& !(self.style.padding.right is Percent)
        &&& !(self.style.padding.bottom is Percent)
        &&& !(self.style.padding.left is Percent)
        &&& forall|i: int|
            0 <= i < self.children.len() ==> {
                &&& (#[trigger] self.children[i]).style.width is Pixels
                &&& self.children[i].supported()
            }
    }

    /// With the border box of this element at `left`, `top` and `width` wide,
    /// every coordinate of the subtree's layout can be stored.
    pub open spec fn fits(self, left: int, top: int, width: int) -> bool
        decreases self,
    {
        let border = Rect { left, top, width, height: BORDER_BOX_HEIGHT as int };
        let content = shrink(border, self.style.padding);
        &&& border.representable()
        &&& content.representable()
        &&& forall|i: int|
            0 <= i < self.children.len() ==> (#[trigger] self.children[i]).fits(
                content.left + self.child_offset(i),
                content.top,
                self.children[i].fixed_width(),
            )
    }

    /// A pass can be started on this element with `available_width`: the
    /// declared sizes are supported and the layout can be stored.
    pub open spec fn reflowable(self, available_width: int) -> bool {
        &&& !(self.style.width is Percent)
        &&& self.supported()
        &&& self.fits(
            self.computed_style.border_box.left as int,
            self.computed_style.border_box.top as int,
            self.resolved_width(available_width),
        )
    }

    /// The subtree is laid out with the border box of this element at `left`,
    /// `top` and `width` wide: the border box is that rectangle at the fixed
    /// height, the content box is the border box less the padding, and the
    /// children stand in the content box side by side from its left edge,
    /// each as wide as declared and laid out in turn.
    pub open spec fn laid_out(self, left: int, top: int, width: int) -> bool
        decreases self,
    {
        let border = Rect { left, top, width, height: BORDER_BOX_HEIGHT as int };
        let content = shrink(border, self.style.padding);
        &&& self.computed_style.border_box@ == border
        &&& self.computed_style.content_box@ == content
        &&& forall|i: int|
            0 <= i < self.children.len() ==> (#[trigger] self.children[i]).laid_out(
                content.left + self.child_offset(i),
                content.top,
                self.children[i].fixed_width(),
            )
    }

    /// The computed styles in this subtree are those in `other`, element by
    /// element.
    pub open spec fn same_layout(self, other: Element) -> bool
        decreases self,
    {
        &&& self.computed_style == other.computed_style
        &&& self.children.len() == other.children.len()
        &&& forall|i: int|
            0 <= i < self.children.len() ==> (#[trigger] self.children[i]).same_layout(
                other.children[i],
            )
    }

    /// The width of the border box of this element in a pass started on it.
    pub(crate) fn resolve_width(&self, available_width: i64) -> (width: i64)
        requires
            !(self.style.width is Percent),
        ensures
            width == self.resolved_width(available_width as int),
    {
        match self.style.width {
            DeclaredSize::Auto => available_width,
            DeclaredSize::Pixels(p) => {
                if self.parent.is_null() {
                    p
                } else {
                    self.computed_style.border_box.width
                }
            },
            DeclaredSize::Percent(_) => unreached(),
        }
    }

    /// Lays out this element and everything below it, in one pass from the
    /// top down.
    ///
    /// `available_width` is what an automatic width resolves to: for a root,
    /// the width of the viewport of its context; for an element that has a
    /// parent, the width of the parent's content box. The border box keeps
    /// the left and top that it has. Where this element has a parent and a
    /// width in `Pixels`, its border box also keeps the width that it has, so
    /// the parent must have been laid out before: see `resolved_width`.
    ///
    /// Declared styles are read and never written. Every computed style in
    /// the subtree is computed anew; nothing of an earlier pass remains.
    pub fn reflow(&mut self, available_width: i64)
        requires
            old(self).reflowable(available_width as int),
        ensures
            final(self).same_declarations(*old(self)),
            final(self).laid_out(
                old(self).computed_style.border_box.left as int,
                old(self).computed_style.border_box.top as int,
                old(self).resolved_width(available_width as int),
            ),
            old(self).style.width is Auto ==> final(self).computed_style.border_box.width
                == available_width,
            final(self).computed_style.border_box.height == BORDER_BOX_HEIGHT,
            final(self).computed_style.content_box@ == shrink(
                final(self).computed_style.border_box@,
                old(self).style.padding,
            ),
            old(self).wf() ==> final(self).wf(),
        decreases old(self).children,
    {
        let line_width: i64 = self.resolve_width(available_width);
        self.computed_style.border_box.width = line_width;
        self.computed_style.border_box.height = BORDER_BOX_HEIGHT;

        let padding_left: i64 = self.style.padding.left.unwrap_as_pixels();
        let padding_right: i64 = self.style.padding.right.unwrap_as_pixels();
        let padding_top: i64 = self.style.padding.top.unwrap_as_pixels();
        let padding_bottom: i64 = self.style.padding.bottom.unwrap_as_pixels();
        let border: Rect<i64> = self.computed_style.border_box;
        // The two paddings of an axis may exceed a layout unit together while
        // the box they leave does not.
        let content: Rect<i64> = Rect {
            left: border.left + padding_left,
            top: border.top + padding_top,
            width: (border.width as i128 - padding_left as i128 - padding_right as i128) as i64,
            height: (border.height as i128 - padding_top as i128 - padding_bottom as i128) as i64,
        };
        self.computed_style.content_box = content;

        // Likewise the offset in a row may pass a layout unit and come back.
        let count: usize = self.children.len();
        let mut current_offset: i128 = 0;
        let mut i: usize = 0;
        while i < count
            invariant
                i <= count,
                count == old(self).children.len(),
                self.children.len() == count,
                self.id == old(self).id,
                self.style == old(self).style,
                self.context == old(self).context,
                self.parent == old(self).parent,
                self.computed_style.border_box == border,
                self.computed_style.content_box == content,
                old(self).supported(),
                old(self).fits(border.left as int, border.top as int, border.width as int),
                content@ == shrink(border@, old(self).style.padding),
                border.height == BORDER_BOX_HEIGHT,
                current_offset == old(self).child_offset(i as int),
                forall|j: int|
                    0 <= j < i ==> {
                        &&& (#[trigger] self.children[j]).same_declarations(old(self).children[j])
                        &&& self.children[j].laid_out(
                            content.left + old(self).child_offset(j),
                            content.top as int,
                            old(self).children[j].fixed_width(),
                        )
                    },
                forall|j: int| i <= j < count ==> self.children[j] == old(self).children[j],
            decreases count - i,
        {
            proof {
                // What holds of the whole row holds of this child.
                let declared = old(self).children[i as int];
                assert(declared.style.width is Pixels && declared.supported());
                assert(declared.fits(
                    content.left + old(self).child_offset(i as int),
                    content.top as int,
                    declared.fixed_width(),
                ));
            }
            let child = &mut self.children[i];
            let width: i64 = match child.style.width {
                DeclaredSize::Pixels(p) => p,
                _ => unreached(),
            };
            child.computed_style.border_box.width = width;
            child.computed_style.border_box.left = (content.left as i128 + current_offset) as i64;
            child.computed_style.border_box.top = content.top;
            child.computed_style.content_box = child.computed_style.border_box;
            current_offset = current_offset + width as i128;
            child.reflow(content.width);
            i = i + 1;
        }
        proof {
            assert forall|j: int| 0 <= j < count implies (#[trigger] self.children[j]).laid_out(
                content.left + self.child_offset(j),
                content.top as int,
                self.children[j].fixed_width(),
            ) by {
                assert forall|k: int| 0 <= k < j implies (#[trigger] self.children@[k]).fixed_width()
                    == old(self).children@[k].fixed_width() by {
                    assert(self.children[k].same_declarations(old(self).children[k]));
                }
                lemma_packed_offset_by_widths(self.children@, old(self).children@, j);
            }
            if old(self).wf() {
                self.lemma_declarations_keep_wf(*old(self));
            }
        }
    }
}

} // verus!

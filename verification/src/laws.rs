//! What holds of every layout, proved from the definitions of the pass.

use vstd::prelude::*;

use crate::context::Context;
use crate::element::Element;
use crate::geometry::Rect;
use crate::reflow::{lemma_packed_offset_by_widths, shrink, BORDER_BOX_HEIGHT};
use crate::style::{DeclaredSize, DEFAULT_PADDING};
use crate::validate::ReflowError;

verus! {

/// Every element of a laid-out tree is itself laid out, at the place and
/// with the width that its border box has.
pub proof fn lemma_laid_out_throughout(
    root: Element,
    left: int,
    top: int,
    width: int,
    element: Element,
)
    requires
        root.laid_out(left, top, width),
        root.contains(element),
    ensures
        element.laid_out(
            element.computed_style.border_box.left as int,
            element.computed_style.border_box.top as int,
            element.computed_style.border_box.width as int,
        ),
    decreases root,
{
    if root != element {
        let i = choose|i: int|
            0 <= i < root.children.len() && (#[trigger] root.children[i]).contains(element);
        let content = shrink(
            Rect { left, top, width, height: BORDER_BOX_HEIGHT as int },
            root.style.padding,
        );
        lemma_laid_out_throughout(
            root.children[i],
            content.left + root.child_offset(i),
            content.top,
            root.children[i].fixed_width(),
            element,
        );
    }
}

/// In a laid-out tree the border box of every element has the fixed height,
/// whatever height the element declares.
pub proof fn law_height_is_constant(
    root: Element,
    left: int,
    top: int,
    width: int,
    element: Element,
)
    requires
        root.laid_out(left, top, width),
        root.contains(element),
    ensures
        element.computed_style.border_box.height == 100,
{
    lemma_laid_out_throughout(root, left, top, width, element);
}

/// In a laid-out tree the content box of every element is its border box
/// moved in by the padding of each side.
pub proof fn law_content_box_is_shrunk_border_box(
    root: Element,
    left: int,
    top: int,
    width: int,
    element: Element,
)
    requires
        root.laid_out(left, top, width),
        root.contains(element),
    ensures
        element.computed_style.content_box@ == shrink(
            element.computed_style.border_box@,
            element.style.padding,
        ),
{
    lemma_laid_out_throughout(root, left, top, width, element);
}

/// In a laid-out tree, where an element declares the same fixed padding `p`
/// on all four sides, its content box starts `p` right of and below its
/// border box and is `2p` less wide and less high.
pub proof fn law_uniform_padding(
    root: Element,
    left: int,
    top: int,
    width: int,
    element: Element,
    p: i64,
)
    requires
        root.laid_out(left, top, width),
        root.contains(element),
        element.style.padding.top == DeclaredSize::Pixels(p),
        element.style.padding.right == DeclaredSize::Pixels(p),
        element.style.padding.bottom == DeclaredSize::Pixels(p),
        element.style.padding.left == DeclaredSize::Pixels(p),
    ensures
        element.computed_style.content_box.left == element.computed_style.border_box.left + p,
        element.computed_style.content_box.top == element.computed_style.border_box.top + p,
        element.computed_style.content_box.width == element.computed_style.border_box.width - 2
            * p,
        element.computed_style.content_box.height == element.computed_style.border_box.height - 2
            * p,
{
    lemma_laid_out_throughout(root, left, top, width, element);
}

/// In a laid-out tree, a side of an element whose padding is declared
/// automatic is padded by the default, 16 layout units: the edge of the
/// content box is that far inside the edge of the border box.
pub proof fn law_default_padding(
    root: Element,
    left: int,
    top: int,
    width: int,
    element: Element,
)
    requires
        root.laid_out(left, top, width),
        root.contains(element),
    ensures
        DEFAULT_PADDING == 16,
        DeclaredSize::Auto.pixels() == 16,
        element.style.padding.left is Auto ==> element.computed_style.content_box.left
            == element.computed_style.border_box.left + 16,
        element.style.padding.top is Auto ==> element.computed_style.content_box.top
            == element.computed_style.border_box.top + 16,
        element.style.padding.right is Auto ==> element.computed_style.content_box.left
            + element.computed_style.content_box.width == element.computed_style.border_box.left
            + element.computed_style.border_box.width - 16,
        element.style.padding.bottom is Auto ==> element.computed_style.content_box.top
            + element.computed_style.content_box.height == element.computed_style.border_box.top
            + element.computed_style.border_box.height - 16,
{
    lemma_laid_out_throughout(root, left, top, width, element);
}

/// In a laid-out tree the children of every element are packed from the left
/// edge of its content box with no gap: child `i` starts where the widths of
/// the children before it end, at the top of the content box, and is as wide
/// as it declares.
pub proof fn law_sibling_packing(
    root: Element,
    left: int,
    top: int,
    width: int,
    parent: Element,
    i: int,
)
    requires
        root.laid_out(left, top, width),
        root.contains(parent),
        0 <= i < parent.children.len(),
    ensures
        parent.children[i].computed_style.border_box.left
            == parent.computed_style.content_box.left + parent.child_offset(i),
        parent.children[i].computed_style.border_box.top == parent.computed_style.content_box.top,
        parent.children[i].computed_style.border_box.width == parent.children[i].fixed_width(),
        i == 0 ==> parent.child_offset(i) == 0,
        i > 0 ==> parent.child_offset(i) == parent.child_offset(i - 1) + parent.children[i
            - 1].fixed_width(),
{
    lemma_laid_out_throughout(root, left, top, width, parent);
    assert(parent.children[i].laid_out(
        parent.computed_style.content_box.left + parent.child_offset(i),
        parent.computed_style.content_box.top as int,
        parent.children[i].fixed_width(),
    ));
}

/// Of two children of widths `w1` and `w2`, in that order, the first starts
/// at the left edge of the parent's content box and the second `w1` further
/// right; both start at the top of the content box.
pub proof fn law_two_siblings(
    root: Element,
    left: int,
    top: int,
    width: int,
    parent: Element,
    w1: i64,
    w2: i64,
)
    requires
        root.laid_out(left, top, width),
        root.contains(parent),
        parent.children.len() == 2,
        parent.children[0].style.width == DeclaredSize::Pixels(w1),
        parent.children[1].style.width == DeclaredSize::Pixels(w2),
    ensures
        parent.children[0].computed_style.border_box.left
            == parent.computed_style.content_box.left,
        parent.children[1].computed_style.border_box.left
            == parent.computed_style.content_box.left + w1,
        parent.children[0].computed_style.border_box.top == parent.computed_style.content_box.top,
        parent.children[1].computed_style.border_box.top == parent.computed_style.content_box.top,
        parent.children[0].computed_style.border_box.width == w1,
        parent.children[1].computed_style.border_box.width == w2,
{
    law_sibling_packing(root, left, top, width, parent, 0);
    law_sibling_packing(root, left, top, width, parent, 1);
}

/// A layout is determined by what the tree declares and by where its top
/// element is placed: nothing of the computed styles that were there before
/// remains in it.
pub proof fn law_layout_is_determined(a: Element, b: Element, left: int, top: int, width: int)
    requires
        a.same_declarations(b),
        a.laid_out(left, top, width),
        b.laid_out(left, top, width),
    ensures
        a.same_layout(b),
    decreases a,
{
    let content = shrink(
        Rect { left, top, width, height: BORDER_BOX_HEIGHT as int },
        a.style.padding,
    );
    assert forall|i: int| 0 <= i < a.children.len() implies (#[trigger] a.children[i]).same_layout(
        b.children[i],
    ) by {
        assert forall|k: int| 0 <= k < i implies (#[trigger] a.children@[k]).fixed_width()
            == b.children@[k].fixed_width() by {
            assert(a.children[k].same_declarations(b.children[k]));
        }
        lemma_packed_offset_by_widths(a.children@, b.children@, i);
        law_layout_is_determined(
            a.children[i],
            b.children[i],
            content.left + a.child_offset(i),
            content.top,
            a.children[i].fixed_width(),
        );
    }
}

/// The identifiers that a context issues one after the other grow: each is
/// greater than every one issued before it, and none is 0, the root's.
pub proof fn law_identifiers_increase(states: Seq<Context>, ids: Seq<u64>, i: int, j: int)
    requires
        states.len() == ids.len() + 1,
        forall|k: int| 0 <= k < ids.len() ==> (#[trigger] states[k]).issues(ids[k], states[k + 1]),
        0 <= i < j < ids.len(),
    ensures
        0 < ids[i] < ids[j],
    decreases j - i,
{
    assert(states[j - 1].issues(ids[j - 1], states[j]));
    if i < j - 1 {
        law_identifiers_increase(states, ids, i, j - 1);
    }
}

/// No pass can be started on an element whose width is a percentage: the
/// width is reported as unsupported.
pub proof fn law_percent_width_is_fatal(element: Element, available_width: int)
    requires
        element.style.width is Percent,
    ensures
        !element.reflowable(available_width),
        element.reflow_error(available_width) == Some(
            ReflowError::UnsupportedSize { id: element.id, size: element.style.width },
        ),
{
}

/// Where every declared size is supported, every element below the top one
/// has a width in `Pixels`, and no padding anywhere is a percentage.
pub proof fn lemma_supported_throughout(root: Element, element: Element)
    requires
        root.supported(),
        root.contains(element),
    ensures
        element.supported(),
        element != root ==> element.style.width is Pixels,
    decreases root,
{
    if root != element {
        let i = choose|i: int|
            0 <= i < root.children.len() && (#[trigger] root.children[i]).contains(element);
        lemma_supported_throughout(root.children[i], element);
    }
}

/// No pass can be started on or above an element that declares a size which
/// the pass does not resolve there: a width that is a percentage, a width
/// other than `Pixels` on an element below the top one, or a padding that is
/// a percentage. Some size is then reported as unsupported.
pub proof fn law_unsupported_size_is_fatal(root: Element, available_width: int, element: Element)
    requires
        root.contains(element),
        element.declares_unsupported(element == root),
    ensures
        !root.reflowable(available_width),
        root.reflow_error(available_width) is Some,
        (root.reflow_error(available_width)->Some_0) is UnsupportedSize,
{
    if root.supported() {
        lemma_supported_throughout(root, element);
    }
    root.lemma_first_unsupported();
}

} // verus!

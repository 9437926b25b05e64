//! Telling beforehand whether a pass can run, and if not, why not.

use vstd::prelude::*;

use crate::element::Element;
use crate::reflow::BORDER_BOX_HEIGHT;
use crate::style::DeclaredSize;

verus! {

/// Why a subtree cannot be laid out.
#[derive(Clone, Copy, Debug, PartialEq, Eq)]
pub enum ReflowError {
    /// The element `id` declares `size` where the pass does not resolve a
    /// size of that kind: a percentage, or a width other than `Pixels` on a
    /// child.
    UnsupportedSize { id: u64, size: DeclaredSize },
    /// Some coordinate of the layout is too large for a layout unit.
    OutOfRange,
}

/// Whether `value` can be stored in a layout unit.
fn in_unit_range(value: i128) -> (fits: bool)
    ensures
        fits == (i64::MIN <= value <= i64::MAX),
{
    -0x8000_0000_0000_0000 <= value && value <= 0x7fff_ffff_ffff_ffff
}

impl Element {
    /// This element declares a size that the pass does not resolve: a width
    /// that is a percentage or, on an element that is not the one on which
    /// the pass is started, any width but one in `Pixels`; or a padding that
    /// is a percentage.
    pub open spec fn declares_unsupported(self, top: bool) -> bool {
        ||| self.style.width is Percent
        ||| !top && !(self.style.width is Pixels)
        ||| self.style.padding.top is Percent
        ||| self.style.padding.right is Percent
        ||| self.style.padding.bottom is Percent
        ||| self.style.padding.left is Percent
    }

    /// The first declared size in this subtree that the pass cannot resolve,
    /// the width of this element aside, in the order in which the pass reads
    /// them: the paddings of an element (left, top, right, bottom), then for
    /// each child in turn its width and what is below it.
    pub open spec fn first_unsupported(self) -> Option<ReflowError>
        decreases self, 1nat, 0nat,
    {
        if self.style.padding.left is Percent {
            Some(ReflowError::UnsupportedSize { id: self.id, size: self.style.padding.left })
        } else if self.style.padding.top is Percent {
            Some(ReflowError::UnsupportedSize { id: self.id, size: self.style.padding.top })
        } else if self.style.padding.right is Percent {
            Some(ReflowError::UnsupportedSize { id: self.id, size: self.style.padding.right })
        } else if self.style.padding.bottom is Percent {
            Some(ReflowError::UnsupportedSize { id: self.id, size: self.style.padding.bottom })
        } else {
            self.first_unsupported_from(0)
        }
    }

    /// The first declared size that the pass cannot resolve in the children
    /// from index `start` on and below them.
    pub open spec fn first_unsupported_from(self, start: nat) -> Option<ReflowError>
        decreases self, 0nat, self.children.len() - start,
    {
        if start >= self.children.len() {
            None
        } else {
            let child = self.children[start as int];
            if !(child.style.width is Pixels) {
                Some(ReflowError::UnsupportedSize { id: child.id, size: child.style.width })
            } else if child.first_unsupported() is Some {
                child.first_unsupported()
            } else {
                self.first_unsupported_from(start + 1)
            }
        }
    }

    /// What stands in the way of a pass started on this element with
    /// `available_width`, if anything does: the first unsupported size, or,
    /// where all are supported, that the layout cannot be stored.
    pub open spec fn reflow_error(self, available_width: int) -> Option<ReflowError> {
        if self.style.width is Percent {
            Some(ReflowError::UnsupportedSize { id: self.id, size: self.style.width })
        } else if self.first_unsupported() is Some {
            self.first_unsupported()
        } else if !self.fits(
            self.computed_style.border_box.left as int,
            self.computed_style.border_box.top as int,
            self.resolved_width(available_width),
        ) {
            Some(ReflowError::OutOfRange)
        } else {
            None
        }
    }

    /// Nothing is unsupported exactly where everything is supported, and
    /// what is reported as unsupported is reported as that.
    pub proof fn lemma_first_unsupported(self)
        ensures
            self.first_unsupported() is None <==> self.supported(),
            self.first_unsupported() is Some ==> (self.first_unsupported()->Some_0)
                is UnsupportedSize,
        decreases self, 1nat, 0nat,
    {
        self.lemma_first_unsupported_from(0);
    }

    /// Nothing is unsupported from `start` on exactly where every child from
    /// there on has a fixed width and is supported.
    pub proof fn lemma_first_unsupported_from(self, start: nat)
        requires
            start <= self.children.len(),
        ensures
            self.first_unsupported_from(start) is None <==> (forall|i: int|
                start <= i < self.children.len() ==> {
                    &&& (#[trigger] self.children[i]).style.width is Pixels
                    &&& self.children[i].supported()
                }),
            self.first_unsupported_from(start) is Some ==> (self.first_unsupported_from(
                start,
            )->Some_0) is UnsupportedSize,
        decreases self, 0nat, self.children.len() - start,
    {
        if start < self.children.len() {
            self.children[start as int].lemma_first_unsupported();
            self.lemma_first_unsupported_from(start + 1);
        }
    }

    /// A pass can run exactly where nothing stands in its way.
    pub proof fn lemma_reflow_error(self, available_width: int)
        ensures
            self.reflow_error(available_width) is None <==> self.reflowable(available_width),
    {
        self.lemma_first_unsupported();
    }

    /// Finds the first declared size in this subtree that a pass cannot
    /// resolve, the width of this element aside.
    pub fn find_unsupported(&self) -> (found: Option<ReflowError>)
        ensures
            found == self.first_unsupported(),
            found is None <==> self.supported(),
        decreases self,
    {
        proof {
            self.lemma_first_unsupported();
        }
        if let DeclaredSize::Percent(_) = self.style.padding.left {
            return Some(ReflowError::UnsupportedSize { id: self.id, size: self.style.padding.left });
        }
        if let DeclaredSize::Percent(_) = self.style.padding.top {
            return Some(ReflowError::UnsupportedSize { id: self.id, size: self.style.padding.top });
        }
        if let DeclaredSize::Percent(_) = self.style.padding.right {
            return Some(ReflowError::UnsupportedSize { id: self.id, size: self.style.padding.right });
        }
        if let DeclaredSize::Percent(_) = self.style.padding.bottom {
            return Some(
                ReflowError::UnsupportedSize { id: self.id, size: self.style.padding.bottom },
            );
        }
        let count: usize = self.children.len();
        let mut i: usize = 0;
        while i < count
            invariant
                i <= count,
                count == self.children.len(),
                self.first_unsupported() == self.first_unsupported_from(i as nat),
            decreases count - i,
        {
            let child = &self.children[i];
            match child.style.width {
                DeclaredSize::Pixels(_) => {},
                _ => {
                    return Some(
                        ReflowError::UnsupportedSize { id: child.id, size: child.style.width },
                    );
                },
            }
            let below = child.find_unsupported();
            if below.is_some() {
                return below;
            }
            i = i + 1;
        }
        None
    }

    /// Tells whether the layout of this subtree can be stored with the border
    /// box of this element at `left`, `top` and `width` wide.
    pub fn fits_at(&self, left: i64, top: i64, width: i64) -> (fits: bool)
        requires
            self.supported(),
        ensures
            fits == self.fits(left as int, top as int, width as int),
        decreases self,
    {
        let padding_left: i128 = self.style.padding.left.unwrap_as_pixels() as i128;
        let padding_right: i128 = self.style.padding.right.unwrap_as_pixels() as i128;
        let padding_top: i128 = self.style.padding.top.unwrap_as_pixels() as i128;
        let padding_bottom: i128 = self.style.padding.bottom.unwrap_as_pixels() as i128;
        let content_left: i128 = left as i128 + padding_left;
        let content_top: i128 = top as i128 + padding_top;
        let content_width: i128 = width as i128 - padding_left - padding_right;
        let content_height: i128 = BORDER_BOX_HEIGHT as i128 - padding_top - padding_bottom;
        if !(in_unit_range(content_left) && in_unit_range(content_top) && in_unit_range(
            content_width,
        ) && in_unit_range(content_height)) {
            return false;
        }
        let count: usize = self.children.len();
        let mut current_offset: i128 = 0;
        let mut i: usize = 0;
        while i < count
            invariant
                i <= count,
                count == self.children.len(),
                self.supported(),
                content_left == left + self.style.padding.left.pixels(),
                content_top == top + self.style.padding.top.pixels(),
                i64::MIN <= content_left <= i64::MAX,
                i64::MIN <= content_top <= i64::MAX,
                current_offset == self.child_offset(i as int),
                forall|j: int|
                    0 <= j < i ==> (#[trigger] self.children[j]).fits(
                        content_left + self.child_offset(j),
                        content_top as int,
                        self.children[j].fixed_width(),
                    ),
            decreases count - i,
        {
            let child = &self.children[i];
            let child_width: i64 = match child.style.width {
                DeclaredSize::Pixels(p) => p,
                _ => unreached(),
            };
            let child_left: i128 = content_left + current_offset;
            if !in_unit_range(child_left) {
                assert(!child.fits(child_left as int, content_top as int, child.fixed_width()));
                return false;
            }
            if !child.fits_at(child_left as i64, content_top as i64, child_width) {
                return false;
            }
            current_offset = current_offset + child_width as i128;
            i = i + 1;
        }
        true
    }

    /// Tells whether a pass can be started on this element with
    /// `available_width`, and if not, what stands in its way.
    pub fn check_reflow(&self, available_width: i64) -> (result: Result<(), ReflowError>)
        ensures
            result is Ok <==> self.reflowable(available_width as int),
            result is Err ==> self.reflow_error(available_width as int) == Some(result->Err_0),
    {
        if let DeclaredSize::Percent(_) = self.style.width {
            return Err(ReflowError::UnsupportedSize { id: self.id, size: self.style.width });
        }
        match self.find_unsupported() {
            Some(error) => Err(error),
            None => {
                let width: i64 = self.resolve_width(available_width);
                let border = &self.computed_style.border_box;
                if self.fits_at(border.left, border.top, width) {
                    Ok(())
                } else {
                    Err(ReflowError::OutOfRange)
                }
            },
        }
    }
}

} // verus!

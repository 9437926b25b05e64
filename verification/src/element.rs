//! The layout tree: its nodes, how they are made and how they are attached.

use vstd::prelude::*;

use crate::context::{Context, CONTEXT_KEY};
use crate::geometry::Rect;
use crate::style::DeclaredStyle;
use crate::util::UnsafePtr;

verus! {

/// What layout computes for one element.
#[derive(Clone, Copy, Debug, PartialEq, Eq)]
pub struct ComputedStyle {
    /// The outer rectangle of the element.
    pub border_box: Rect<i64>,
    /// The border box shrunk by the padding: where the children go.
    pub content_box: Rect<i64>,
}

impl ComputedStyle {
    /// The computed style of an element that no pass has reached yet.
    pub open spec fn unresolved() -> ComputedStyle {
        ComputedStyle {
            border_box: Rect { left: 0, top: 0, width: 0, height: 0 },
            content_box: Rect { left: 0, top: 0, width: 0, height: 0 },
        }
    }
}

impl Default for ComputedStyle {
    fn default() -> (computed: ComputedStyle)
        ensures
            computed == ComputedStyle::unresolved(),
    {
        ComputedStyle {
            border_box: Rect { left: 0, top: 0, width: 0, height: 0 },
            content_box: Rect { left: 0, top: 0, width: 0, height: 0 },
        }
    }
}

/// A node of the layout tree. It owns its children, in layout order.
#[derive(Debug)]
pub struct Element {
    pub children: Vec<Element>,
    pub computed_style: ComputedStyle,
    /// Issued by the context; the root has 0.
    pub id: u64,
    /// The context that the element belongs to; null while it is bound to
    /// none.
    pub context: UnsafePtr,
    /// The element that holds this one among its children; null for a root
    /// and for an element not attached yet.
    pub parent: UnsafePtr,
    pub style: DeclaredStyle,
}

impl Element {
    /// `element` is this element or one below it.
    pub open spec fn contains(self, element: Element) -> bool
        decreases self,
    {
        ||| self == element
        ||| exists|i: int|
            0 <= i < self.children.len() && (#[trigger] self.children[i]).contains(element)
    }

    /// The back-references in the subtree are consistent: every child refers
    /// to its holder as its parent, all the way down.
    pub open spec fn wf(self) -> bool
        decreases self,
    {
        forall|i: int|
            0 <= i < self.children.len() ==> {
                &&& (#[trigger] self.children[i]).parent.target == Some(self.id)
                &&& self.children[i].wf()
            }
    }

    /// This element as it is once the element `parent` holds it.
    pub open spec fn attached_to(self, parent: u64) -> Element {
        Element { parent: UnsafePtr { target: Some(parent) }, ..self }
    }

    /// This subtree declares what `pre` declares: the same identifiers,
    /// styles and back-references in the same shape. Only computed styles may
    /// differ.
    pub open spec fn same_declarations(self, pre: Element) -> bool
        decreases self,
    {
        &&& self.id == pre.id
        &&& self.style == pre.style
        &&& self.context == pre.context
        &&& self.parent == pre.parent
        &&& self.children.len() == pre.children.len()
        &&& forall|i: int|
            0 <= i < self.children.len() ==> (#[trigger] self.children[i]).same_declarations(
                pre.children[i],
            )
    }

    /// Consistent back-references stay consistent where only computed styles
    /// change.
    pub proof fn lemma_declarations_keep_wf(self, pre: Element)
        requires
            self.same_declarations(pre),
            pre.wf(),
        ensures
            self.wf(),
        decreases self,
    {
        assert forall|i: int| 0 <= i < self.children.len() implies {
            &&& (#[trigger] self.children[i]).parent.target == Some(self.id)
            &&& self.children[i].wf()
        } by {
            self.children[i].lemma_declarations_keep_wf(pre.children[i]);
        }
    }

    /// A new element of `context` with the given style: no children, no
    /// parent, nothing computed yet, and the next identifier of the context.
    pub fn new(context: &mut Context, style: DeclaredStyle) -> (element: Element)
        requires
            old(context).counter < u64::MAX,
        ensures
            old(context).issues(element.id, *final(context)),
            element.id > 0,
            element.style == style,
            element.children@ == Seq::<Element>::empty(),
            element.computed_style == ComputedStyle::unresolved(),
            element.parent.is_null(),
            element.context == (UnsafePtr { target: Some(CONTEXT_KEY) }),
            element.wf(),
    {
        Element {
            computed_style: ComputedStyle::default(),
            children: Vec::new(),
            id: context.generate_element_id(),
            context: UnsafePtr::to(CONTEXT_KEY),
            parent: UnsafePtr::null(),
            style,
        }
    }

    /// Appends `element` to the children and makes this element its parent.
    /// Every element accepts children, so this always succeeds.
    pub fn add_child(&mut self, element: Element) -> (result: Result<(), ()>)
        ensures
            result is Ok,
            final(self).children@ == old(self).children@.push(element.attached_to(old(self).id)),
            final(self).computed_style == old(self).computed_style,
            final(self).id == old(self).id,
            final(self).context == old(self).context,
            final(self).parent == old(self).parent,
            final(self).style == old(self).style,
            old(self).wf() && element.wf() ==> final(self).wf(),
    {
        let ghost detached = element;
        let mut element = element;
        element.parent = UnsafePtr::to(self.id);
        self.children.push(element);
        proof {
            if old(self).wf() && detached.wf() {
                // The children before are as they were; the new one kept its
                // own children and refers to this element.
                assert forall|i: int| 0 <= i < self.children.len() implies {
                    &&& (#[trigger] self.children[i]).parent.target == Some(self.id)
                    &&& self.children[i].wf()
                } by {}
            }
        }
        Ok(())
    }
}

} // verus!

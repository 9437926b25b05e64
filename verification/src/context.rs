//! The layout context: what a layout session holds besides the tree.

use vstd::prelude::*;

use crate::element::{ComputedStyle, Element};
use crate::style::DeclaredStyle;
use crate::util::UnsafePtr;
use crate::validate::ReflowError;

verus! {

/// The key under which elements refer to their context. A session has one
/// context, so one key serves.
pub const CONTEXT_KEY: u64 = 0;

/// The state of one layout session: the viewport, the source of element
/// identifiers, and the root of the tree.
#[derive(Debug)]
pub struct Context {
    /// The greatest identifier issued so far; 0, the root's, at the start.
    pub counter: u64,
    /// The width of the viewport, in layout units.
    pub width: i64,
    /// The height of the viewport, in layout units.
    pub height: i64,
    pub root: Element,
}

impl Context {
    /// The root that a new context holds: identifier 0, nothing declared,
    /// nothing computed, no children, bound to nothing.
    pub open spec fn is_fresh_root(root: Element) -> bool {
        &&& root.id == 0
        &&& root.children@ == Seq::<Element>::empty()
        &&& root.computed_style == ComputedStyle::unresolved()
        &&& root.context.is_null()
        &&& root.parent.is_null()
        &&& root.style == DeclaredStyle::unset()
    }

    /// This context issues `id` next and is `after` once it has: the
    /// identifier is one more than the greatest issued so far, and nothing
    /// but the counter changes.
    pub open spec fn issues(self, id: u64, after: Context) -> bool {
        &&& id == self.counter + 1
        &&& after == (Context { counter: id, ..self })
    }

    /// A context for a viewport of the given size, with an empty root.
    pub fn new(width: i64, height: i64) -> (context: Context)
        ensures
            context.counter == 0,
            context.width == width,
            context.height == height,
            Self::is_fresh_root(context.root),
            context.root.wf(),
    {
        Context {
            counter: 0,
            width,
            height,
            root: Element {
                context: UnsafePtr::null(),
                id: 0,
                children: Vec::new(),
                computed_style: ComputedStyle::default(),
                parent: UnsafePtr::null(),
                style: DeclaredStyle::default(),
            },
        }
    }

    /// Issues an identifier greater than every one issued before.
    pub fn generate_element_id(&mut self) -> (id: u64)
        requires
            old(self).counter < u64::MAX,
        ensures
            old(self).issues(id, *final(self)),
            id > old(self).counter,
    {
        self.counter += 1;
        self.counter
    }

    /// Lays out the whole tree for the viewport: a pass on the root, to which
    /// the width of the viewport is available.
    ///
    /// Where a pass cannot run, nothing changes and the error says what
    /// stands in its way.
    pub fn reflow(&mut self) -> (result: Result<(), ReflowError>)
        ensures
            result is Ok <==> old(self).root.reflowable(old(self).width as int),
            result is Err ==> {
                &&& *final(self) == *old(self)
                &&& old(self).root.reflow_error(old(self).width as int) == Some(result->Err_0)
            },
            result is Ok ==> {
                &&& final(self).counter == old(self).counter
                &&& final(self).width == old(self).width
                &&& final(self).height == old(self).height
                &&& final(self).root.same_declarations(old(self).root)
                &&& final(self).root.laid_out(
                    old(self).root.computed_style.border_box.left as int,
                    old(self).root.computed_style.border_box.top as int,
                    old(self).root.resolved_width(old(self).width as int),
                )
                &&& old(self).root.style.width is Auto
                    ==> final(self).root.computed_style.border_box.width == old(self).width
                &&& old(self).root.wf() ==> final(self).root.wf()
            },
    {
        let width: i64 = self.width;
        match self.root.check_reflow(width) {
            Err(error) => Err(error),
            Ok(()) => {
                self.root.reflow(width);
                Ok(())
            },
        }
    }
}

} // verus!

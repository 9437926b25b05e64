use box_layout::context::CONTEXT_KEY;
use box_layout::{
    Color, ComputedStyle, Context, DeclaredSize, DeclaredStyle, Direction, Element, Rect, Side,
    SidesArray, UnsafePtr,
};

#[test]
fn a_new_context_holds_an_empty_root() {
    let context = Context::new(1280, 720);
    assert_eq!(context.counter, 0);
    assert_eq!(context.width, 1280);
    assert_eq!(context.height, 720);
    let root = &context.root;
    assert_eq!(root.id, 0);
    assert!(root.children.is_empty());
    assert!(root.parent.is_null());
    assert!(root.context.is_null());
    assert_eq!(root.computed_style, ComputedStyle::default());
    assert_eq!(root.style.width, DeclaredSize::Auto);
    assert_eq!(root.style.height, DeclaredSize::Auto);
    assert_eq!(root.style.background_color, Color::new(0, 0, 0, 0));
    assert_eq!(root.style.padding_color, Color::new(0, 0, 0, 0));
    assert_eq!(root.style.padding.top, DeclaredSize::Auto);
    assert_eq!(root.style.padding.right, DeclaredSize::Auto);
    assert_eq!(root.style.padding.bottom, DeclaredSize::Auto);
    assert_eq!(root.style.padding.left, DeclaredSize::Auto);
}

#[test]
fn identifiers_grow_by_one() {
    let mut context = Context::new(1, 1);
    assert_eq!(context.generate_element_id(), 1);
    assert_eq!(context.generate_element_id(), 2);
    assert_eq!(context.counter, 2);
    let element = Element::new(&mut context, DeclaredStyle::default());
    assert_eq!(element.id, 3);
    assert_eq!(context.generate_element_id(), 4);
    assert_eq!(context.counter, 4);
    assert_eq!(context.width, 1);
    assert_eq!(context.height, 1);
    assert!(context.root.children.is_empty());
}

#[test]
fn the_last_identifier_can_be_issued() {
    let mut context = Context::new(1, 1);
    context.counter = u64::MAX - 1;
    assert_eq!(context.generate_element_id(), u64::MAX);
    assert_eq!(context.counter, u64::MAX);
}

#[test]
fn a_new_element_is_detached_and_unresolved() {
    let mut context = Context::new(1280, 720);
    let style = DeclaredStyle {
        width: DeclaredSize::Pixels(128),
        height: DeclaredSize::Pixels(96),
        background_color: Color::new(255, 0, 255, 255),
        padding_color: Color::new(0, 0, 153, 255),
        ..DeclaredStyle::default()
    };
    let element = Element::new(&mut context, style);
    assert_eq!(element.id, 1);
    assert_eq!(context.counter, 1);
    assert!(element.children.is_empty());
    assert!(element.parent.is_null());
    assert!(!element.context.is_null());
    assert_eq!(element.context, UnsafePtr::to(CONTEXT_KEY));
    assert_eq!(element.computed_style.border_box, Rect::new(0, 0, 0, 0));
    assert_eq!(element.computed_style.content_box, Rect::new(0, 0, 0, 0));
    assert_eq!(element.style.width, DeclaredSize::Pixels(128));
    assert_eq!(element.style.height, DeclaredSize::Pixels(96));
    assert_eq!(element.style.background_color, Color::new(255, 0, 255, 255));
    assert_eq!(element.style.padding_color, Color::new(0, 0, 153, 255));
    assert_eq!(element.style.padding.left, DeclaredSize::Auto);
}

#[test]
fn add_child_appends_and_sets_the_parent() {
    let mut context = Context::new(1280, 720);
    let mut panel = Element::new(&mut context, DeclaredStyle::default());
    let mut first = Element::new(&mut context, DeclaredStyle::default());
    let inner = Element::new(&mut context, DeclaredStyle::default());
    let second = Element::new(&mut context, DeclaredStyle::default());
    assert_eq!(first.add_child(inner), Ok(()));
    assert_eq!(panel.add_child(first), Ok(()));
    assert_eq!(panel.add_child(second), Ok(()));

    assert_eq!(panel.id, 1);
    assert!(panel.parent.is_null());
    assert_eq!(panel.children.len(), 2);
    assert_eq!(panel.children[0].id, 2);
    assert_eq!(panel.children[1].id, 4);
    assert_eq!(panel.children[0].parent, UnsafePtr::to(1));
    assert_eq!(panel.children[1].parent, UnsafePtr::to(1));
    assert_eq!(panel.children[0].children.len(), 1);
    assert_eq!(panel.children[0].children[0].id, 3);
    assert_eq!(panel.children[0].children[0].parent, UnsafePtr::to(2));

    assert_eq!(context.root.add_child(panel), Ok(()));
    assert_eq!(context.root.children[0].parent, UnsafePtr::to(0));
    assert_eq!(context.root.children[0].children[0].parent, UnsafePtr::to(1));
    assert!(context.root.parent.is_null());
}

#[test]
fn add_child_keeps_what_the_child_holds() {
    let mut context = Context::new(1280, 720);
    let mut child = Element::new(
        &mut context,
        DeclaredStyle { width: DeclaredSize::Pixels(5), ..DeclaredStyle::default() },
    );
    child.computed_style.border_box = Rect::new(1, 2, 3, 4);
    let computed_before = context.root.computed_style;
    context.root.add_child(child).unwrap();
    let child = &context.root.children[0];
    assert_eq!(child.id, 1);
    assert_eq!(child.style.width, DeclaredSize::Pixels(5));
    assert_eq!(child.computed_style.border_box, Rect::new(1, 2, 3, 4));
    assert!(!child.context.is_null());
    assert_eq!(context.root.computed_style, computed_before);
    assert_eq!(context.root.id, 0);
}

#[test]
fn the_null_reference_is_null_and_no_other_is() {
    assert!(UnsafePtr::null().is_null());
    assert_eq!(UnsafePtr::null().target, None);
    assert!(!UnsafePtr::to(0).is_null());
    assert!(!UnsafePtr::to(7).is_null());
    assert_eq!(UnsafePtr::to(7).target, Some(7));
    assert_ne!(UnsafePtr::to(7), UnsafePtr::to(8));
    assert_ne!(UnsafePtr::to(0), UnsafePtr::null());
}

#[test]
fn plain_values_hold_what_they_are_given() {
    let rect = Rect::new(1, 2, 3, 4);
    assert_eq!((rect.left, rect.top, rect.width, rect.height), (1, 2, 3, 4));
    let color = Color::new(1, 2, 3, 4);
    assert_eq!((color.r, color.g, color.b, color.a), (1, 2, 3, 4));
    let sides = SidesArray { top: 1, right: 2, bottom: 3, left: 4 };
    assert_eq!((sides.top, sides.right, sides.bottom, sides.left), (1, 2, 3, 4));
    assert_ne!(Side::Top, Side::Left);
    assert_ne!(Side::Right, Side::Bottom);
}

#[test]
fn defaults() {
    assert_eq!(Direction::default(), Direction::Horizontal);
    assert_eq!(DeclaredSize::default(), DeclaredSize::Auto);
    assert_eq!(Rect::<i64>::default(), Rect::new(0, 0, 0, 0));
    assert_eq!(Color::default(), Color::new(0, 0, 0, 0));
    let computed = ComputedStyle::default();
    assert_eq!(computed.border_box, Rect::new(0, 0, 0, 0));
    assert_eq!(computed.content_box, Rect::new(0, 0, 0, 0));
}

#[test]
fn pixels_of_a_declared_size() {
    assert_eq!(DeclaredSize::Auto.unwrap_as_pixels(), 16);
    assert_eq!(DeclaredSize::Pixels(0).unwrap_as_pixels(), 0);
    assert_eq!(DeclaredSize::Pixels(128).unwrap_as_pixels(), 128);
    assert_eq!(DeclaredSize::Pixels(-3).unwrap_as_pixels(), -3);
    assert_eq!(DeclaredSize::Pixels(i64::MAX).unwrap_as_pixels(), i64::MAX);
}

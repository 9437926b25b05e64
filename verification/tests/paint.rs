use box_layout::{
    render, Color, Context, DeclaredSize, DeclaredStyle, Element, FilledRect, Rect,
};

fn coloured(width: i64, shade: u8) -> DeclaredStyle {
    DeclaredStyle {
        width: DeclaredSize::Pixels(width),
        background_color: Color::new(shade, 0, 0, 255),
        padding_color: Color::new(0, shade, 0, 255),
        ..DeclaredStyle::default()
    }
}

#[test]
fn a_lone_element_paints_its_border_box_then_its_content_box() {
    let mut context = Context::new(200, 200);
    context.root.style.background_color = Color::new(26, 26, 26, 255);
    context.root.style.padding_color = Color::new(13, 13, 13, 255);
    assert_eq!(context.reflow(), Ok(()));
    assert_eq!(
        render(&context.root),
        vec![
            FilledRect { rect: Rect::new(0, 0, 200, 100), color: Color::new(13, 13, 13, 255) },
            FilledRect { rect: Rect::new(16, 16, 168, 68), color: Color::new(26, 26, 26, 255) },
        ]
    );
}

#[test]
fn a_parent_is_painted_before_its_children_and_children_in_order() {
    let mut context = Context::new(1280, 720);
    let mut panel = Element::new(&mut context, coloured(300, 1));
    let inner = Element::new(&mut context, coloured(40, 2));
    panel.add_child(inner).unwrap();
    let last = Element::new(&mut context, coloured(50, 3));
    context.root.add_child(panel).unwrap();
    context.root.add_child(last).unwrap();
    assert_eq!(context.reflow(), Ok(()));

    let list = render(&context.root);
    let expected = vec![
        FilledRect { rect: Rect::new(0, 0, 1280, 100), color: Color::new(0, 0, 0, 0) },
        FilledRect { rect: Rect::new(16, 16, 1248, 68), color: Color::new(0, 0, 0, 0) },
        FilledRect { rect: Rect::new(16, 16, 300, 100), color: Color::new(0, 1, 0, 255) },
        FilledRect { rect: Rect::new(32, 32, 268, 68), color: Color::new(1, 0, 0, 255) },
        FilledRect { rect: Rect::new(32, 32, 40, 100), color: Color::new(0, 2, 0, 255) },
        FilledRect { rect: Rect::new(48, 48, 8, 68), color: Color::new(2, 0, 0, 255) },
        FilledRect { rect: Rect::new(316, 16, 50, 100), color: Color::new(0, 3, 0, 255) },
        FilledRect { rect: Rect::new(332, 32, 18, 68), color: Color::new(3, 0, 0, 255) },
    ];
    assert_eq!(list, expected);

    let of_panel = render(&context.root.children[0]);
    assert_eq!(of_panel, expected[2..6].to_vec());
}

#[test]
fn a_tree_that_was_never_laid_out_paints_what_it_holds() {
    let context = Context::new(10, 10);
    let list = render(&context.root);
    assert_eq!(list.len(), 2);
    assert_eq!(list[0].rect, Rect::new(0, 0, 0, 0));
    assert_eq!(list[1].rect, Rect::new(0, 0, 0, 0));
}

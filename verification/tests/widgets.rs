use script_ui::arena::{Arena, WidgetHandle};
use script_ui::builders::{
    container_style, new_col, new_container, new_row, new_space, new_space_h, new_space_w,
    new_text, text_color, text_size,
};
use script_ui::color::{
    default_container_style, into_bg, style_with_background, Background, Color, ContainerStyle,
};
use script_ui::convert::convert;
use script_ui::length::{length_fill, length_shrink, Length};
use script_ui::num::Num;
use script_ui::registry::{capability_arity, capability_name, registry, Capability};
use script_ui::tree::{seal, WidgetTree};
use script_ui::value::DynValue;

fn text_content(t: &WidgetTree) -> &str {
    match t {
        WidgetTree::Text { content, .. } => content,
        _ => panic!("expected a text leaf"),
    }
}

#[test]
fn seal_text_leaf() {
    let mut arena = Arena::new();
    let h = new_text(&mut arena, String::from("hello"));
    let t = seal(&arena, h);
    assert_eq!(text_content(&t), "hello");
}

#[test]
fn row_children_keep_their_order() {
    let mut arena = Arena::new();
    let a = new_text(&mut arena, String::from("a"));
    let b = new_text(&mut arena, String::from("b"));
    let c = new_text(&mut arena, String::from("c"));
    let row = new_row(
        &mut arena,
        vec![DynValue::Widget(a), DynValue::Widget(b), DynValue::Widget(c)],
    );
    let t = seal(&arena, row);
    match t {
        WidgetTree::Row { children } => {
            assert_eq!(children.len(), 3);
            assert_eq!(text_content(&children[0]), "a");
            assert_eq!(text_content(&children[1]), "b");
            assert_eq!(text_content(&children[2]), "c");
        },
        _ => panic!("expected a row"),
    }
}

#[test]
fn column_children_keep_their_order() {
    let mut arena = Arena::new();
    let a = new_text(&mut arena, String::from("top"));
    let b = new_text(&mut arena, String::from("bottom"));
    let col = new_col(&mut arena, vec![DynValue::Widget(a), DynValue::Widget(b)]);
    let t = seal(&arena, col);
    match t {
        WidgetTree::Column { children } => {
            assert_eq!(children.len(), 2);
            assert_eq!(text_content(&children[0]), "top");
            assert_eq!(text_content(&children[1]), "bottom");
        },
        _ => panic!("expected a column"),
    }
}

#[test]
fn non_widget_child_degrades_to_error_leaf() {
    let mut arena = Arena::new();
    let a = new_text(&mut arena, String::from("ok"));
    let row = new_row(
        &mut arena,
        vec![DynValue::Widget(a), DynValue::Num(Num::I64(5))],
    );
    let t = seal(&arena, row);
    match t {
        WidgetTree::Row { children } => {
            assert_eq!(children.len(), 2);
            assert_eq!(text_content(&children[0]), "ok");
            assert_eq!(text_content(&children[1]), "not supported: i64(5)");
        },
        _ => panic!("expected a row"),
    }
}

#[test]
fn convert_never_fails_on_unrecognized_tags() {
    let arena = Arena::new();
    let t = convert(&arena, &DynValue::Str(String::from("zzz")));
    assert_eq!(text_content(&t), "not supported: string(zzz)");
    let t = convert(&arena, &DynValue::Unit);
    assert_eq!(text_content(&t), "not supported: unit");
    let t = convert(&arena, &DynValue::List(vec![DynValue::Unit]));
    assert_eq!(text_content(&t), "not supported: array");
}

#[test]
fn dangling_handle_seals_to_error_leaf() {
    let arena = Arena::new();
    let t = seal(&arena, WidgetHandle { idx: 9 });
    assert_eq!(text_content(&t), "dangling widget handle");
}

#[test]
fn spacers_carry_their_lengths() {
    let mut arena = Arena::new();
    let s = new_space(&mut arena, Length::Units(10), Length::Fill);
    let sw = new_space_w(&mut arena, Length::FillPortion(2));
    let sh = new_space_h(&mut arena, Length::Units(4));
    assert_eq!(
        seal(&arena, s),
        WidgetTree::Space { width: Length::Units(10), height: Length::Fill },
    );
    assert_eq!(
        seal(&arena, sw),
        WidgetTree::Space { width: Length::FillPortion(2), height: Length::Shrink },
    );
    assert_eq!(
        seal(&arena, sh),
        WidgetTree::Space { width: Length::Shrink, height: Length::Units(4) },
    );
    assert_eq!(length_fill(), Length::Fill);
    assert_eq!(length_shrink(), Length::Shrink);
}

#[test]
fn container_owns_exactly_one_child_and_a_style() {
    let mut arena = Arena::new();
    let inner = new_text(&mut arena, String::from("in"));
    let cont = new_container(&mut arena, &DynValue::Widget(inner));
    let style = style_with_background(
        default_container_style(),
        into_bg(Color { r: 255, g: 0, b: 0, a: 255 }),
    );
    assert!(container_style(&mut arena, cont, style));
    let t = seal(&arena, cont);
    match t {
        WidgetTree::Container { child, style } => {
            assert_eq!(text_content(&child), "in");
            assert_eq!(
                style,
                Some(ContainerStyle {
                    background: Some(Background::Color(Color { r: 255, g: 0, b: 0, a: 255 })),
                }),
            );
        },
        _ => panic!("expected a container"),
    }
}

#[test]
fn style_setter_refuses_non_container() {
    let mut arena = Arena::new();
    let leaf = new_text(&mut arena, String::from("x"));
    assert!(!container_style(&mut arena, leaf, default_container_style()));
    assert!(!container_style(&mut arena, WidgetHandle { idx: 44 }, default_container_style()));
    assert_eq!(text_content(&seal(&arena, leaf)), "x");
}

#[test]
fn text_setters_update_in_place() {
    let mut arena = Arena::new();
    let h = new_text(&mut arena, String::from("styled"));
    assert!(text_color(&mut arena, h, Color { r: 1, g: 2, b: 3, a: 255 }));
    assert!(text_size(&mut arena, h, 24));
    let t = seal(&arena, h);
    match t {
        WidgetTree::Text { content, color, size, .. } => {
            assert_eq!(content, "styled");
            assert_eq!(color, Some(Color { r: 1, g: 2, b: 3, a: 255 }));
            assert_eq!(size, Some(24));
        },
        _ => panic!("expected a text leaf"),
    }
    let s = new_space(&mut arena, Length::Fill, Length::Fill);
    assert!(!text_color(&mut arena, s, Color { r: 0, g: 0, b: 0, a: 255 }));
}

#[test]
fn handles_stay_valid_after_seal() {
    let mut arena = Arena::new();
    let shared = new_text(&mut arena, String::from("shared"));
    let c1 = new_container(&mut arena, &DynValue::Widget(shared));
    let c2 = new_container(&mut arena, &DynValue::Widget(shared));
    let t1 = seal(&arena, c1);
    let t2 = seal(&arena, c2);
    match (&t1, &t2) {
        (
            WidgetTree::Container { child: a, .. },
            WidgetTree::Container { child: b, .. },
        ) => {
            assert_eq!(text_content(a), "shared");
            assert_eq!(text_content(b), "shared");
        },
        _ => panic!("expected two containers"),
    }
    // Sealing moved nothing out of the arena: the shared handle is
    // still usable afterwards.
    assert_eq!(text_content(&seal(&arena, shared)), "shared");
}

#[test]
fn registry_lists_the_whole_vocabulary() {
    let r = registry();
    assert_eq!(r.len(), 27);
    assert_eq!(r[0].cap, Capability::ToU8);
    assert_eq!(r[0].name, "to_u8");
    assert_eq!(r[0].arity, 1);
    for e in &r {
        assert_eq!(e.name, capability_name(e.cap));
        assert_eq!(e.arity, capability_arity(e.cap));
    }
    let rgb8_entry = r.iter().find(|e| e.cap == Capability::Rgb8).unwrap();
    assert_eq!(rgb8_entry.name, "rgb8");
    assert_eq!(rgb8_entry.arity, 3);
    let style_entry = r.iter().find(|e| e.cap == Capability::StyleContainer).unwrap();
    assert_eq!(style_entry.name, "style");
    assert_eq!(style_entry.arity, 2);
}

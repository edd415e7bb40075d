//! End-to-end tests: scripts evaluated by the real scripting runtime,
//! through host capabilities that call the library's builders, then
//! rendered by the library's converter.

use std::cell::RefCell;
use std::rc::Rc;

use rhai::{Array, Dynamic, Engine, EvalAltResult, ImmutableString};

use script_ui::app_loop::{init_state, render_outcome, update, Message};
use script_ui::arena::Arena;
use script_ui::builders::{container_style, new_col, new_container, new_row, new_text, rgb8};
use script_ui::color::{
    default_container_style, into_bg, style_background, style_with_background, Background, Color,
};
use script_ui::num::{to_u8, Num};
use script_ui::tree::WidgetTree;
use script_ui::value::DynValue;

/// The scripting runtime needs its custom types to be cloneable, which
/// the library's bare value type is not; scripts therefore hold values
/// behind a shared handle.
#[derive(Clone)]
struct Sv(Rc<DynValue>);

fn dv_clone(v: &DynValue) -> DynValue {
    match v {
        DynValue::Num(n) => DynValue::Num(*n),
        DynValue::Str(s) => DynValue::Str(s.clone()),
        DynValue::Color(c) => DynValue::Color(*c),
        DynValue::Length(l) => DynValue::Length(*l),
        DynValue::Style(s) => DynValue::Style(*s),
        DynValue::Background(b) => DynValue::Background(*b),
        DynValue::Widget(h) => DynValue::Widget(*h),
        DynValue::List(xs) => DynValue::List(xs.iter().map(dv_clone).collect()),
        DynValue::Unit => DynValue::Unit,
        DynValue::Other(s) => DynValue::Other(s.clone()),
    }
}

fn dyn_to_value(d: Dynamic) -> DynValue {
    if d.is_unit() {
        return DynValue::Unit;
    }
    let d = match d.try_cast_result::<Sv>() {
        Ok(sv) => return dv_clone(&sv.0),
        Err(d) => d,
    };
    let d = match d.try_cast_result::<i64>() {
        Ok(i) => return DynValue::Num(Num::I64(i)),
        Err(d) => d,
    };
    let d = match d.try_cast_result::<ImmutableString>() {
        Ok(s) => return DynValue::Str(s.to_string()),
        Err(d) => d,
    };
    let d = match d.try_cast_result::<Array>() {
        Ok(items) => return DynValue::List(items.into_iter().map(dyn_to_value).collect()),
        Err(d) => d,
    };
    DynValue::Other(format!("{:?}", d))
}

fn widget(h: script_ui::arena::WidgetHandle) -> Sv {
    Sv(Rc::new(DynValue::Widget(h)))
}

fn build_engine(arena: Rc<RefCell<Arena>>) -> Engine {
    let mut engine = Engine::new();
    engine.register_type_with_name::<Sv>("Value");
    {
        let ar = arena.clone();
        engine.register_fn("new_text", move |s: &str| -> Sv {
            widget(new_text(&mut ar.borrow_mut(), s.to_string()))
        });
    }
    {
        let ar = arena.clone();
        engine.register_fn("new_row", move |items: Array| -> Sv {
            let children: Vec<DynValue> = items.into_iter().map(dyn_to_value).collect();
            widget(new_row(&mut ar.borrow_mut(), children))
        });
    }
    {
        let ar = arena.clone();
        engine.register_fn("new_col", move |items: Array| -> Sv {
            let children: Vec<DynValue> = items.into_iter().map(dyn_to_value).collect();
            widget(new_col(&mut ar.borrow_mut(), children))
        });
    }
    {
        let ar = arena.clone();
        engine.register_fn("new_container", move |d: Dynamic| -> Sv {
            let v = dyn_to_value(d);
            widget(new_container(&mut ar.borrow_mut(), &v))
        });
    }
    {
        let ar = arena.clone();
        engine.register_fn("style", move |cont: Sv, st: Sv| -> Sv {
            match (&*cont.0, &*st.0) {
                (DynValue::Widget(h), DynValue::Style(s)) => {
                    container_style(&mut ar.borrow_mut(), *h, *s);
                },
                _ => {},
            }
            cont.clone()
        });
    }
    engine.register_fn(
        "rgb8",
        |r: Dynamic, g: Dynamic, b: Dynamic| -> Result<Sv, Box<EvalAltResult>> {
            match rgb8(&dyn_to_value(r), &dyn_to_value(g), &dyn_to_value(b)) {
                Ok(c) => Ok(Sv(Rc::new(DynValue::Color(c)))),
                Err(e) => Err(format!("number cannot be converted: {}", e.found).into()),
            }
        },
    );
    engine.register_fn("to_u8", |d: Dynamic| -> Result<Sv, Box<EvalAltResult>> {
        match to_u8(&dyn_to_value(d)) {
            Ok(b) => Ok(Sv(Rc::new(DynValue::Num(Num::U8(b))))),
            Err(e) => Err(format!("number cannot be converted: {}", e.found).into()),
        }
    });
    engine.register_fn("into_bg", |c: Sv| -> Sv {
        match &*c.0 {
            DynValue::Color(col) => Sv(Rc::new(DynValue::Background(into_bg(*col)))),
            _ => Sv(Rc::new(DynValue::Background(None))),
        }
    });
    engine.register_fn("default_container_style", || -> Sv {
        Sv(Rc::new(DynValue::Style(default_container_style())))
    });
    engine.register_get_set(
        "background",
        |s: &mut Sv| -> Sv {
            match &*s.0 {
                DynValue::Style(st) => Sv(Rc::new(DynValue::Background(style_background(st)))),
                _ => Sv(Rc::new(DynValue::Unit)),
            }
        },
        |s: &mut Sv, v: Sv| {
            let bg = match &*v.0 {
                DynValue::Background(b) => *b,
                DynValue::Color(c) => Some(Background::Color(*c)),
                _ => None,
            };
            let st = match &*s.0 {
                DynValue::Style(st) => *st,
                _ => default_container_style(),
            };
            s.0 = Rc::new(DynValue::Style(style_with_background(st, bg)));
        },
    );
    engine
}

fn eval_script(src: &str) -> (Arena, Result<DynValue, String>) {
    let arena = Rc::new(RefCell::new(Arena::new()));
    let engine = build_engine(arena.clone());
    let outcome = match engine.eval::<Dynamic>(src) {
        Ok(d) => Ok(dyn_to_value(d)),
        Err(e) => Err(e.to_string()),
    };
    drop(engine);
    let arena = Rc::try_unwrap(arena).ok().expect("no live handles").into_inner();
    (arena, outcome)
}

fn view_of(src: &str) -> WidgetTree {
    let (arena, outcome) = eval_script(src);
    render_outcome(&arena, &outcome)
}

fn text_of(t: &WidgetTree) -> &str {
    match t {
        WidgetTree::Text { content, .. } => content,
        _ => panic!("expected a text leaf"),
    }
}

#[test]
fn script_single_text_leaf() {
    let t = view_of("new_text(\"hi\")");
    assert_eq!(text_of(&t), "hi");
}

#[test]
fn script_row_of_two_texts_in_order() {
    let t = view_of("new_row([new_text(\"a\"), new_text(\"b\")])");
    match t {
        WidgetTree::Row { children } => {
            assert_eq!(children.len(), 2);
            assert_eq!(text_of(&children[0]), "a");
            assert_eq!(text_of(&children[1]), "b");
        },
        _ => panic!("expected a row"),
    }
}

#[test]
fn script_syntax_error_becomes_error_leaf() {
    let t = view_of("new_text(");
    let msg = text_of(&t);
    assert!(msg.starts_with("error evaluating: "));
    assert!(msg.contains("error"));
}

#[test]
fn script_coercion_mismatch_is_recoverable() {
    let t = view_of("rgb8(\"red\", 0, 0)");
    let msg = text_of(&t);
    assert!(msg.starts_with("error evaluating: "));
    assert!(msg.contains("number cannot be converted"));
    assert!(msg.contains("string(red)"));
}

#[test]
fn script_truncating_coercion() {
    let t = view_of("new_row([to_u8(300)])");
    match t {
        WidgetTree::Row { children } => {
            assert_eq!(text_of(&children[0]), "not supported: u8(44)");
        },
        _ => panic!("expected a row"),
    }
}

#[test]
fn script_may_reuse_a_handle() {
    let t = view_of("let x = new_text(\"dup\"); new_row([x, x])");
    match t {
        WidgetTree::Row { children } => {
            assert_eq!(children.len(), 2);
            assert_eq!(text_of(&children[0]), "dup");
            assert_eq!(text_of(&children[1]), "dup");
        },
        _ => panic!("expected a row"),
    }
}

#[test]
fn script_evaluated_twice_gives_identical_trees() {
    let src = "new_row([new_text(\"a\"), new_col([new_text(\"b\"), new_text(\"c\")])])";
    let t1 = view_of(src);
    let t2 = view_of(src);
    assert_eq!(t1, t2);
}

#[test]
fn reload_shows_new_content_only() {
    let mut state = init_state(String::from("new_text(\"before\")"));
    let t = view_of(&state.source);
    assert_eq!(text_of(&t), "before");
    update(&mut state, Message::NewCode(String::from("new_text(\"after\")")));
    let t = view_of(&state.source);
    assert_eq!(text_of(&t), "after");
}

#[test]
fn container_background_is_exact_red() {
    let t = view_of(
        "let s = default_container_style();\n\
         s.background = into_bg(rgb8(255, 0, 0));\n\
         style(new_container(new_text(\"x\")), s)",
    );
    match t {
        WidgetTree::Container { child, style } => {
            assert_eq!(text_of(&child), "x");
            let style = style.expect("style attached");
            let Some(Background::Color(c)) = style.background else {
                panic!("expected a color background");
            };
            assert_eq!(c, Color { r: 255, g: 0, b: 0, a: 255 });
            // The renderer's byte-to-normalized conversion of these
            // channels is exactly pure red.
            let normalized = [
                c.r as f32 / 255.0,
                c.g as f32 / 255.0,
                c.b as f32 / 255.0,
                c.a as f32 / 255.0,
            ];
            assert_eq!(normalized, [1.0f32, 0.0, 0.0, 1.0]);
        },
        _ => panic!("expected a container"),
    }
}

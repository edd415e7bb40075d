//! The dynamic value model: the closed set of tags a value produced by
//! the scripting runtime resolves to, and the textual description that
//! diagnostic error leaves embed.

use vstd::prelude::*;
use vstd::string::StringExecFns;

use crate::arena::WidgetHandle;
use crate::color::{Background, Color, ContainerStyle};
use crate::digits::{append_dec_i64, append_dec_u64, dec_digits, dec_int};
use crate::length::Length;
use crate::num::Num;

verus! {

/// A dynamically tagged value, as the scripting runtime hands it to
/// the bridge.  Every value reaching the converter resolves to exactly
/// one of these tags; a tag the bridge does not know arrives as
/// `Other`, carrying its textual rendering, and degrades to a visible
/// error leaf rather than being dropped.
#[derive(Debug, PartialEq)]
pub enum DynValue {
    Num(Num),
    Str(String),
    Color(Color),
    Length(Length),
    Style(ContainerStyle),
    Background(Option<Background>),
    Widget(WidgetHandle),
    List(Vec<DynValue>),
    Unit,
    Other(String),
}

/// The human-readable description of a value, as a diagnostic leaf
/// embeds it: numbers and strings carry their payload, composite and
/// opaque kinds their tag name.
pub open spec fn describe_spec(v: DynValue) -> Seq<char> {
    match v {
        DynValue::Num(n) => match n {
            Num::U8(x) => "u8("@ + dec_digits(x as nat) + ")"@,
            Num::U16(x) => "u16("@ + dec_digits(x as nat) + ")"@,
            Num::U32(x) => "u32("@ + dec_digits(x as nat) + ")"@,
            Num::U64(x) => "u64("@ + dec_digits(x as nat) + ")"@,
            Num::I32(x) => "i32("@ + dec_int(x as int) + ")"@,
            Num::I64(x) => "i64("@ + dec_int(x as int) + ")"@,
        },
        DynValue::Str(s) => "string("@ + s@ + ")"@,
        DynValue::Color(_) => "color"@,
        DynValue::Length(_) => "length"@,
        DynValue::Style(_) => "style"@,
        DynValue::Background(_) => "background"@,
        DynValue::Widget(_) => "widget"@,
        DynValue::List(_) => "array"@,
        DynValue::Unit => "unit"@,
        DynValue::Other(s) => s@,
    }
}

/// Renders the description of a value.
pub fn describe(v: &DynValue) -> (r: String)
    ensures
        r@ == describe_spec(*v),
{
    match v {
        DynValue::Num(n) => {
            match n {
                Num::U8(x) => {
                    let mut s = String::from_str("u8(");
                    append_dec_u64(&mut s, *x as u64);
                    s.append(")");
                    proof {
                        assert(s@ =~= describe_spec(*v));
                    }
                    s
                },
                Num::U16(x) => {
                    let mut s = String::from_str("u16(");
                    append_dec_u64(&mut s, *x as u64);
                    s.append(")");
                    proof {
                        assert(s@ =~= describe_spec(*v));
                    }
                    s
                },
                Num::U32(x) => {
                    let mut s = String::from_str("u32(");
                    append_dec_u64(&mut s, *x as u64);
                    s.append(")");
                    proof {
                        assert(s@ =~= describe_spec(*v));
                    }
                    s
                },
                Num::U64(x) => {
                    let mut s = String::from_str("u64(");
                    append_dec_u64(&mut s, *x);
                    s.append(")");
                    proof {
                        assert(s@ =~= describe_spec(*v));
                    }
                    s
                },
                Num::I32(x) => {
                    let mut s = String::from_str("i32(");
                    append_dec_i64(&mut s, *x as i64);
                    s.append(")");
                    proof {
                        assert(s@ =~= describe_spec(*v));
                    }
                    s
                },
                Num::I64(x) => {
                    let mut s = String::from_str("i64(");
                    append_dec_i64(&mut s, *x);
                    s.append(")");
                    proof {
                        assert(s@ =~= describe_spec(*v));
                    }
                    s
                },
            }
        },
        DynValue::Str(text) => {
            let mut s = String::from_str("string(");
            s.append(text.as_str());
            s.append(")");
            proof {
                assert(s@ =~= describe_spec(*v));
            }
            s
        },
        DynValue::Color(_) => String::from_str("color"),
        DynValue::Length(_) => String::from_str("length"),
        DynValue::Style(_) => String::from_str("style"),
        DynValue::Background(_) => String::from_str("background"),
        DynValue::Widget(_) => String::from_str("widget"),
        DynValue::List(_) => String::from_str("array"),
        DynValue::Unit => String::from_str("unit"),
        DynValue::Other(text) => text.clone(),
    }
}

} // verus!

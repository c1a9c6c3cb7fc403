//! Dispatch behaviour: which arm a value of a given type reaches, and what
//! its body evaluates to.
//!
//! The generated code routes a value through the host compiler's
//! specialization resolution; `select_arm` is the library's statement of
//! that routing. Each test parses a dispatch expression as written at a call
//! site, selects the arm for the dispatched value's type, and evaluates the
//! arm's body — here always a `format!`-shaped expression or a string
//! literal — against the value's text.

use proc_macro2::Delimiter;
use proc_macro2::Spacing;
use proc_macro2::TokenStream;
use proc_macro2::TokenTree;

use specialized_dispatch::Delim;
use specialized_dispatch::SpecializedDispatchExpr;
use specialized_dispatch::Tok;

fn tree_tok(t: TokenTree) -> Tok {
    match t {
        TokenTree::Ident(i) => Tok::Ident(i.to_string()),
        TokenTree::Punct(p) => Tok::Punct(p.as_char(), p.spacing() == Spacing::Joint),
        TokenTree::Literal(l) => Tok::Lit(l.to_string()),
        TokenTree::Group(g) => Tok::Group(
            match g.delimiter() {
                Delimiter::Parenthesis => Delim::Paren,
                Delimiter::Brace => Delim::Brace,
                Delimiter::Bracket => Delim::Bracket,
                Delimiter::None => panic!("written source has no bare groups"),
            },
            stream_toks(g.stream()),
        ),
    }
}

fn stream_toks(ts: TokenStream) -> Vec<Tok> {
    ts.into_iter().map(tree_tok).collect()
}

fn lex(src: &str) -> Vec<Tok> {
    stream_toks(src.parse::<TokenStream>().expect("source lexes"))
}

/// The text of a string literal token, unquoted.
fn lit_text(t: &Tok) -> String {
    match t {
        Tok::Lit(s) => s.trim_matches('"').to_string(),
        _ => panic!("expected a string literal"),
    }
}

/// What an arm body of the tests' shape evaluates to: either a bare string
/// literal, or `format!("...", ...)` with one `{}` per display argument.
fn eval_body(body: &[Tok], args: &[&str]) -> String {
    if body.len() == 1 {
        return lit_text(&body[0]);
    }
    match &body[2] {
        Tok::Group(Delim::Paren, inner) => {
            let fmt = lit_text(&inner[0]);
            let mut out = String::new();
            let mut parts = fmt.split("{}");
            out.push_str(parts.next().unwrap());
            for (i, part) in parts.enumerate() {
                out.push_str(args[i]);
                out.push_str(part);
            }
            out
        },
        _ => panic!("expected a format-shaped body"),
    }
}

/// Dispatches a value whose type is written `ty_src` and whose display texts
/// (the value first, then the extra arguments) are `args`.
fn dispatch(expr: &SpecializedDispatchExpr, ty_src: &str, args: &[&str]) -> String {
    let ty = lex(ty_src);
    let idx = expr.select_arm(&ty).expect("an arm fires");
    eval_body(&expr.arms[idx].body, args)
}

#[test]
fn test_example() {
    let toks = lex(
        r#"
        E -> String,
        default fn <T>(_: T) => format!("default value"),
        fn (v: u8) => format!("u8: {}", v),
        fn (v: u16) => format!("u16: {}", v),
        expr,
    "#,
    );
    let expr = SpecializedDispatchExpr::parse(&toks).expect("expression parses");
    assert_eq!(dispatch(&expr, "f64", &["1"]), "default value");
    assert_eq!(dispatch(&expr, "u8", &["5"]), "u8: 5");
    assert_eq!(dispatch(&expr, "u16", &["10"]), "u16: 10");
}

#[test]
fn test_example_different_order() {
    let toks = lex(
        r#"
        E -> String,
        fn (v: u8) => format!("u8: {}", v),
        fn (v: u16) => format!("u16: {}", v),
        default fn <T>(_: T) => format!("default value"),
        expr,
    "#,
    );
    let expr = SpecializedDispatchExpr::parse(&toks).expect("expression parses");
    assert_eq!(dispatch(&expr, "f64", &["1"]), "default value");
    assert_eq!(dispatch(&expr, "u8", &["5"]), "u8: 5");
    assert_eq!(dispatch(&expr, "u16", &["10"]), "u16: 10");
}

#[test]
fn test_multiple_calls_in_same_scope() {
    let toks1 = lex(
        r#"
        u8 -> &'static str,
        fn (_: u8) => "u8",
        fn (_: u16) => "u16",
        default fn <T>(_: T) => "other",
        0u8,
    "#,
    );
    let expr1 = SpecializedDispatchExpr::parse(&toks1).expect("expression parses");
    let toks2 = lex(
        r#"
        u16 -> &'static str,
        fn (_: u8) => "u8",
        fn (_: u16) => "u16",
        default fn <T>(_: T) => "other",
        0u16,
    "#,
    );
    let expr2 = SpecializedDispatchExpr::parse(&toks2).expect("expression parses");
    let s1 = dispatch(&expr1, "u8", &["0"]);
    let s2 = dispatch(&expr2, "u16", &["0"]);
    assert_eq!(format!("{}-{}", s1, s2), "u8-u16");
}

#[test]
fn test_bound_traits() {
    let toks = lex(
        r#"
        E -> String,
        default fn <T: Display + Debug>(v: T) => format!("default value: {}", v),
        fn (v: u8) => format!("u8: {}", v),
        fn (v: u16) => format!("u16: {}", v),
        expr,
    "#,
    );
    let expr = SpecializedDispatchExpr::parse(&toks).expect("expression parses");
    assert_eq!(dispatch(&expr, "f64", &["1.5"]), "default value: 1.5");
    assert_eq!(dispatch(&expr, "u8", &["5"]), "u8: 5");
    assert_eq!(dispatch(&expr, "u16", &["10"]), "u16: 10");
}

#[test]
fn test_bound_traits_with_generic() {
    let toks = lex(
        r#"
        E -> String,
        default fn <T: Display + GenericTrait<()>>(v: T) => format!("default value: {}", v),
        fn (v: u8) => format!("u8: {}", v),
        fn (v: u16) => format!("u16: {}", v),
        expr,
    "#,
    );
    let expr = SpecializedDispatchExpr::parse(&toks).expect("expression parses");
    assert_eq!(dispatch(&expr, "f32", &["1.5"]), "default value: 1.5");
    assert_eq!(dispatch(&expr, "u8", &["5"]), "u8: 5");
    assert_eq!(dispatch(&expr, "u16", &["10"]), "u16: 10");
}

#[test]
fn test_extra_args() {
    let toks = lex(
        r#"
        T -> String,
        default fn <T: Display>(v: T, arg: u8) => format!("default value: {}, arg: {}", v, arg),
        fn (v: u8, arg: u8) => format!("u8: {}, arg: {}", v, arg),
        fn (v: u16, arg: u8) => format!("u16: {}, arg: {}", v, arg),
        expr, arg,
    "#,
    );
    let expr = SpecializedDispatchExpr::parse(&toks).expect("expression parses");
    assert_eq!(
        dispatch(&expr, "f64", &["1.5", "123"]),
        "default value: 1.5, arg: 123"
    );
    assert_eq!(dispatch(&expr, "u8", &["5", "12"]), "u8: 5, arg: 12");
    assert_eq!(dispatch(&expr, "u16", &["10", "1"]), "u16: 10, arg: 1");
}

#[test]
fn test_extra_args_with_str_arg() {
    let toks = lex(
        r#"
        T -> String,
        default fn <T: Display>(v: T, arg: &str) => format!("default value: {}, arg: {}", v, arg),
        fn (v: u8, arg: &str) => format!("u8: {}, arg: {}", v, arg),
        fn (v: u16, arg: &str) => format!("u16: {}, arg: {}", v, arg),
        expr, arg,
    "#,
    );
    let expr = SpecializedDispatchExpr::parse(&toks).expect("expression parses");
    assert_eq!(
        dispatch(&expr, "f64", &["1.5", "ben bir"]),
        "default value: 1.5, arg: ben bir"
    );
    assert_eq!(dispatch(&expr, "u8", &["5", "ceviz"]), "u8: 5, arg: ceviz");
    assert_eq!(
        dispatch(&expr, "u16", &["10", "agaciyim"]),
        "u16: 10, arg: agaciyim"
    );
}

#[test]
fn dispatch_lifetime_parameterized_arm() {
    let toks = lex(
        r#"
        E -> String,
        default fn <T>(_: T) => format!("default value"),
        fn <'a>(v: Wrapper<'a>) => format!("wrapper"),
        fn (v: u8) => format!("u8: {}", v),
        expr,
    "#,
    );
    let expr = SpecializedDispatchExpr::parse(&toks).expect("expression parses");
    assert_eq!(dispatch(&expr, "Wrapper<'a>", &[]), "wrapper");
    assert_eq!(dispatch(&expr, "u8", &["5"]), "u8: 5");
    assert_eq!(dispatch(&expr, "f64", &[]), "default value");
}

#[test]
fn dispatch_without_default_arm_can_select_nothing() {
    let toks = lex(
        r#"
        E -> String,
        fn (v: u8) => format!("u8: {}", v),
        expr,
    "#,
    );
    let expr = SpecializedDispatchExpr::parse(&toks).expect("expression parses");
    assert_eq!(expr.select_arm(&lex("u8")), Some(0));
    assert_eq!(expr.select_arm(&lex("f64")), None);
}

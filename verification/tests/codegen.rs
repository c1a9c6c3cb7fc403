//! The generated declarations: one helper trait, one implementation per arm,
//! one dispatch call, in one block.
//!
//! Expansions are compared through a spacing-blind rendering, so that the
//! expected output can be written as source text.

use proc_macro2::Delimiter;
use proc_macro2::Spacing;
use proc_macro2::TokenStream;
use proc_macro2::TokenTree;

use specialized_dispatch::Delim;
use specialized_dispatch::SpecializedDispatchExpr;
use specialized_dispatch::Tok;
use specialized_dispatch::expand;
use specialized_dispatch::tok_eq;
use specialized_dispatch::toks_eq;

fn tree_tok(t: TokenTree) -> Tok {
    match t {
        TokenTree::Ident(i) => Tok::Ident(i.to_string()),
        TokenTree::Punct(p) => Tok::Punct(p.as_char(), p.spacing() == Spacing::Joint),
        TokenTree::Literal(l) => Tok::Lit(l.to_string()),
        TokenTree::Group(g) => Tok::Group(
            match g.delimiter() {
                Delimiter::Parenthesis => Delim::Paren,
                Delimiter::Brace => Delim::Brace,
                Delimiter::Bracket => Delim::Bracket,
                Delimiter::None => panic!("written source has no bare groups"),
            },
            stream_toks(g.stream()),
        ),
    }
}

fn stream_toks(ts: TokenStream) -> Vec<Tok> {
    ts.into_iter().map(tree_tok).collect()
}

fn lex(src: &str) -> Vec<Tok> {
    stream_toks(src.parse::<TokenStream>().expect("source lexes"))
}

/// A spacing-blind rendering: token texts separated by single spaces, group
/// contents between their delimiters.
fn show(toks: &[Tok]) -> String {
    let mut out = String::new();
    for t in toks {
        match t {
            Tok::Ident(s) => {
                out.push_str(s);
                out.push(' ');
            },
            Tok::Punct(c, _) => {
                out.push(*c);
                out.push(' ');
            },
            Tok::Lit(s) => {
                out.push_str(s);
                out.push(' ');
            },
            Tok::Group(d, inner) => {
                out.push(match d {
                    Delim::Paren => '(',
                    Delim::Brace => '{',
                    Delim::Bracket => '[',
                });
                out.push(' ');
                out.push_str(&show(inner));
                out.push(match d {
                    Delim::Paren => ')',
                    Delim::Brace => '}',
                    Delim::Bracket => ']',
                });
                out.push(' ');
            },
        }
    }
    out
}

#[test]
fn expand_simple_dispatch() {
    let toks = lex(
        r#"
        E -> String,
        default fn <T>(_: T) => format!("default value"),
        fn (v: u8) => format!("u8: {}", v),
        expr,
    "#,
    );
    let out = expand(&toks).expect("the invocation expands");
    let expected = lex(
        r#"{
        trait SpecializedDispatchCall<T> {
            fn dispatch(_: T) -> String;
        }
        impl<T> SpecializedDispatchCall<T> for T {
            default fn dispatch(_: T) -> String {
                format!("default value")
            }
        }
        impl SpecializedDispatchCall<u8> for u8 {
            fn dispatch(v: u8) -> String {
                format!("u8: {}", v)
            }
        }
        <E as SpecializedDispatchCall<E>>::dispatch(expr)
    }"#,
    );
    assert_eq!(show(&out), show(&expected));
}

#[test]
fn expand_forwards_extra_args() {
    let toks = lex(
        r#"
        E -> String,
        default fn <T>(_: T, a: u8, b: &str) => format!("default value: {}, {}, {}", v, a, b),
        fn (v: u8, a: u8, b: &str) => format!("u8: {}, {}, {}", v, a, b),
        expr, 7u8, "x",
    "#,
    );
    let out = expand(&toks).expect("the invocation expands");
    let expected = lex(
        r#"{
        trait SpecializedDispatchCall<T> {
            fn dispatch(_: T, a: u8, b: &str) -> String;
        }
        impl<T> SpecializedDispatchCall<T> for T {
            default fn dispatch(_: T, a: u8, b: &str) -> String {
                format!("default value: {}, {}, {}", v, a, b)
            }
        }
        impl SpecializedDispatchCall<u8> for u8 {
            fn dispatch(v: u8, a: u8, b: &str) -> String {
                format!("u8: {}, {}, {}", v, a, b)
            }
        }
        <E as SpecializedDispatchCall<E>>::dispatch(expr, 7u8, "x")
    }"#,
    );
    assert_eq!(show(&out), show(&expected));
}

#[test]
fn expand_bounded_default_arm() {
    let toks = lex(
        r#"
        E -> String,
        default fn <T: Display + Debug>(v: T) => format!("default value: {}", v),
        fn (v: u8) => format!("u8: {}", v),
        expr,
    "#,
    );
    let out = expand(&toks).expect("the invocation expands");
    let expected = lex(
        r#"{
        trait SpecializedDispatchCall<T> {
            fn dispatch(_: T) -> String;
        }
        impl<T: Display + Debug> SpecializedDispatchCall<T> for T {
            default fn dispatch(v: T) -> String {
                format!("default value: {}", v)
            }
        }
        impl SpecializedDispatchCall<u8> for u8 {
            fn dispatch(v: u8) -> String {
                format!("u8: {}", v)
            }
        }
        <E as SpecializedDispatchCall<E>>::dispatch(expr)
    }"#,
    );
    assert_eq!(show(&out), show(&expected));
}

#[test]
fn expand_zero_arms_still_generates_trait_and_call() {
    let toks = lex("E -> String, , expr");
    let out = expand(&toks).expect("the invocation expands");
    let expected = lex(
        r#"{
        trait SpecializedDispatchCall<T> {
            fn dispatch(_: T) -> String;
        }
        <E as SpecializedDispatchCall<E>>::dispatch(expr)
    }"#,
    );
    assert_eq!(show(&out), show(&expected));
}

#[test]
fn expand_rejects_malformed_invocation() {
    let toks = lex("E -> String");
    let err = expand(&toks).expect_err("no arm list or value expression");
    assert_eq!(err.msg, "expected `,`");
}

#[test]
fn expansion_arrow_tokens_are_joint() {
    let toks = lex(
        r#"
        E -> String,
        default fn <T>(_: T) => format!("default value"),
        expr,
    "#,
    );
    let out = expand(&toks).expect("the invocation expands");
    // The block holds the declarations; the `->` of the trait method must be
    // a joint `-` followed by `>`, or the emitted code would not read back.
    let block = match &out[0] {
        Tok::Group(Delim::Brace, inner) => inner,
        _ => panic!("the expansion is one block"),
    };
    let decl_body = block
        .iter()
        .find_map(|t| match t {
            Tok::Group(Delim::Brace, inner) => Some(inner),
            _ => None,
        })
        .expect("the trait declaration has a body");
    let arrow = decl_body
        .iter()
        .position(|t| matches!(t, Tok::Punct('-', _)))
        .expect("the method declares a return type");
    assert_eq!(decl_body[arrow], Tok::Punct('-', true));
    assert_eq!(decl_body[arrow + 1], Tok::Punct('>', false));
}

#[test]
fn token_equality_is_by_value() {
    let a = lex("foo (bar, [1u8])");
    let b = lex("foo (bar, [1u8])");
    let c = lex("foo (bar, [2u8])");
    assert!(toks_eq(&a, &b));
    assert!(!toks_eq(&a, &c));
    assert!(tok_eq(&a[0], &b[0]));
    assert!(!tok_eq(&a[0], &a[1]));
}

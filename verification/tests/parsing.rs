//! Parsing dispatch expressions from lexed token sequences.

use proc_macro2::Delimiter;
use proc_macro2::Spacing;
use proc_macro2::TokenStream;
use proc_macro2::TokenTree;

use specialized_dispatch::Delim;
use specialized_dispatch::DispatchArmExpr;
use specialized_dispatch::FnArg;
use specialized_dispatch::FnArgName;
use specialized_dispatch::SpecializedDispatchExpr;
use specialized_dispatch::Tok;

fn tree_tok(t: TokenTree) -> Tok {
    match t {
        TokenTree::Ident(i) => Tok::Ident(i.to_string()),
        TokenTree::Punct(p) => Tok::Punct(p.as_char(), p.spacing() == Spacing::Joint),
        TokenTree::Literal(l) => Tok::Lit(l.to_string()),
        TokenTree::Group(g) => Tok::Group(
            match g.delimiter() {
                Delimiter::Parenthesis => Delim::Paren,
                Delimiter::Brace => Delim::Brace,
                Delimiter::Bracket => Delim::Bracket,
                Delimiter::None => panic!("written source has no bare groups"),
            },
            stream_toks(g.stream()),
        ),
    }
}

fn stream_toks(ts: TokenStream) -> Vec<Tok> {
    ts.into_iter().map(tree_tok).collect()
}

fn lex(src: &str) -> Vec<Tok> {
    stream_toks(src.parse::<TokenStream>().expect("source lexes"))
}

#[test]
fn parse_arm_with_concrete_type() {
    let toks = lex(r#"fn (v: u8) => format!("u8: {}", v)"#);
    let (arm, end) = DispatchArmExpr::parse(&toks, 0).expect("arm parses");
    assert_eq!(end, toks.len());
    assert_eq!(
        arm,
        DispatchArmExpr {
            default: false,
            generic_params: None,
            input_expr: FnArg {
                name: FnArgName::Ident("v".to_string()),
                ty: lex("u8"),
            },
            extra_args: vec![],
            body: lex(r#"format!("u8: {}", v)"#),
        }
    );
}

#[test]
fn parse_arm_with_generic_type() {
    let toks = lex(r#"default fn <T>(_: T) => format!("default value")"#);
    let (arm, end) = DispatchArmExpr::parse(&toks, 0).expect("arm parses");
    assert_eq!(end, toks.len());
    assert_eq!(
        arm,
        DispatchArmExpr {
            default: true,
            generic_params: Some(lex("T")),
            input_expr: FnArg {
                name: FnArgName::Underscore,
                ty: lex("T"),
            },
            extra_args: vec![],
            body: lex(r#"format!("default value")"#),
        }
    );
}

#[test]
fn parse_specialized_dispatch_expr() {
    let toks = lex(
        r#"
        E -> String,
        default fn <T>(_: T) => format!("default value"),
        fn (v: u8) => format!("u8: {}", v),
        fn (v: u16) => format!("u16: {}", v),
        expr,
    "#,
    );
    let expr = SpecializedDispatchExpr::parse(&toks).expect("expression parses");
    assert_eq!(
        expr,
        SpecializedDispatchExpr {
            from_type: lex("E"),
            to_type: lex("String"),
            arms: vec![
                DispatchArmExpr {
                    default: true,
                    generic_params: Some(lex("T")),
                    input_expr: FnArg {
                        name: FnArgName::Underscore,
                        ty: lex("T"),
                    },
                    extra_args: vec![],
                    body: lex(r#"format!("default value")"#),
                },
                DispatchArmExpr {
                    default: false,
                    generic_params: None,
                    input_expr: FnArg {
                        name: FnArgName::Ident("v".to_string()),
                        ty: lex("u8"),
                    },
                    extra_args: vec![],
                    body: lex(r#"format!("u8: {}", v)"#),
                },
                DispatchArmExpr {
                    default: false,
                    generic_params: None,
                    input_expr: FnArg {
                        name: FnArgName::Ident("v".to_string()),
                        ty: lex("u16"),
                    },
                    extra_args: vec![],
                    body: lex(r#"format!("u16: {}", v)"#),
                },
            ],
            input_expr: lex("expr"),
            extra_args: vec![],
        }
    );
}

#[test]
fn parse_trailing_args() {
    let toks = lex(
        r#"
        E -> String,
        default fn <T>(_: T, arg1: u8, arg2: u16, arg3: &str) => format!("default value"),
        fn (v: u8, arg1: u8, arg2: u16, arg3: &str) => format!("u8: {}", v),
        fn (v: u16, arg1: u8, arg2: u16, arg3: &str) => format!("u16: {}", v),
        expr,
        1u8,
        2u16,
        "bugun_bayram_erken_kalkin_cocuklar",
    "#,
    );
    let expr = SpecializedDispatchExpr::parse(&toks).expect("expression parses");

    fn extra_params() -> Vec<FnArg> {
        vec![
            FnArg {
                name: FnArgName::Ident("arg1".to_string()),
                ty: lex("u8"),
            },
            FnArg {
                name: FnArgName::Ident("arg2".to_string()),
                ty: lex("u16"),
            },
            FnArg {
                name: FnArgName::Ident("arg3".to_string()),
                ty: lex("&str"),
            },
        ]
    }
    let extra = extra_params();
    let extra2 = extra_params();
    let extra3 = extra_params();
    assert_eq!(
        expr,
        SpecializedDispatchExpr {
            from_type: lex("E"),
            to_type: lex("String"),
            arms: vec![
                DispatchArmExpr {
                    default: true,
                    generic_params: Some(lex("T")),
                    input_expr: FnArg {
                        name: FnArgName::Underscore,
                        ty: lex("T"),
                    },
                    extra_args: extra,
                    body: lex(r#"format!("default value")"#),
                },
                DispatchArmExpr {
                    default: false,
                    generic_params: None,
                    input_expr: FnArg {
                        name: FnArgName::Ident("v".to_string()),
                        ty: lex("u8"),
                    },
                    extra_args: extra2,
                    body: lex(r#"format!("u8: {}", v)"#),
                },
                DispatchArmExpr {
                    default: false,
                    generic_params: None,
                    input_expr: FnArg {
                        name: FnArgName::Ident("v".to_string()),
                        ty: lex("u16"),
                    },
                    extra_args: extra3,
                    body: lex(r#"format!("u16: {}", v)"#),
                },
            ],
            input_expr: lex("expr"),
            extra_args: vec![
                lex("1u8"),
                lex("2u16"),
                lex(r#""bugun_bayram_erken_kalkin_cocuklar""#),
            ],
        }
    );
}

#[test]
fn parse_source_type_with_inner_comma() {
    let toks = lex(
        r#"
        HashMap<u8, u16> -> String,
        default fn <T>(_: T) => format!("default value"),
        expr,
    "#,
    );
    let expr = SpecializedDispatchExpr::parse(&toks).expect("expression parses");
    assert_eq!(expr.from_type, lex("HashMap<u8, u16>"));
    assert_eq!(expr.to_type, lex("String"));
    assert_eq!(expr.arms.len(), 1);
}

#[test]
fn parse_tuple_body() {
    let toks = lex("E -> (u8, u8), fn (v: u8) => (v, v), expr");
    let expr = SpecializedDispatchExpr::parse(&toks).expect("expression parses");
    assert_eq!(expr.to_type, lex("(u8, u8)"));
    assert_eq!(expr.arms[0].body, lex("(v, v)"));
    assert_eq!(expr.input_expr, lex("expr"));
}

#[test]
fn parse_twice_yields_identical_asts() {
    let src = r#"
        E -> String,
        default fn <T>(_: T) => format!("default value"),
        fn (v: u8) => format!("u8: {}", v),
        expr, 7u8,
    "#;
    let first = SpecializedDispatchExpr::parse(&lex(src)).expect("expression parses");
    let second = SpecializedDispatchExpr::parse(&lex(src)).expect("expression parses");
    assert_eq!(first, second);
}

#[test]
fn parse_zero_arms() {
    let toks = lex("E -> String, , expr");
    let expr = SpecializedDispatchExpr::parse(&toks).expect("expression parses");
    assert_eq!(expr.arms, vec![]);
    assert_eq!(expr.input_expr, lex("expr"));
}

#[test]
fn parse_rejects_missing_arrow() {
    let toks = lex(r#"E String, fn (v: u8) => format!("u8: {}", v), expr"#);
    let err = SpecializedDispatchExpr::parse(&toks).expect_err("no arrow after the source type");
    assert_eq!(err.msg, "expected `->`");
    assert_eq!(err.pos, 1);
}

#[test]
fn parse_rejects_keyword_binding() {
    let toks = lex("fn (match: u8) => 1u8");
    let err = DispatchArmExpr::parse(&toks, 0).expect_err("a keyword cannot name a binding");
    assert_eq!(err.msg, "expected identifier or underscore");
    // The error inside the parameter list is reported at the list itself.
    assert_eq!(err.pos, 1);
}

#[test]
fn parse_rejects_extra_args_without_comma() {
    let toks = lex(r#"E -> String, , expr "x""#);
    let err = SpecializedDispatchExpr::parse(&toks)
        .expect_err("extra arguments need a comma before each");
    assert_eq!(err.msg, "expected `,`");
    assert_eq!(err.pos, 7);
}

#[test]
fn parse_trailing_comma_after_value_expression() {
    let toks = lex("E -> String, , expr ,");
    let expr = SpecializedDispatchExpr::parse(&toks).expect("expression parses");
    assert_eq!(expr.extra_args, Vec::<Vec<Tok>>::new());
}

#[test]
fn parse_rejects_missing_fat_arrow() {
    let toks = lex("fn (v: u8) 1u8");
    let err = DispatchArmExpr::parse(&toks, 0).expect_err("no arrow before the body");
    assert_eq!(err.msg, "expected `=>`");
}

#[test]
fn parse_rejects_leftover_in_parameter_list() {
    let toks = lex("fn (v: u8 junk) => 1u8");
    let err = DispatchArmExpr::parse(&toks, 0).expect_err("leftover tokens in the parameters");
    assert_eq!(err.msg, "unexpected token");
}

#[test]
fn parse_rejects_trailing_comma_in_generics() {
    let toks = lex("default fn <T,>(_: T) => 1u8");
    assert!(DispatchArmExpr::parse(&toks, 0).is_err());
}

#[test]
fn parse_rejects_missing_value_expression() {
    let toks = lex(r#"E -> String, fn (v: u8) => format!("u8: {}", v)"#);
    let err = SpecializedDispatchExpr::parse(&toks).expect_err("no value expression");
    assert_eq!(err.msg, "expected `,`");
}

#[test]
fn parse_arm_with_trait_bounds() {
    let toks = lex(r#"default fn <T: Display + Clone>(v: T) => format!("{}", v)"#);
    let (arm, end) = DispatchArmExpr::parse(&toks, 0).expect("arm parses");
    assert_eq!(end, toks.len());
    assert!(arm.default);
    assert_eq!(arm.generic_params, Some(lex("T: Display + Clone")));
    assert_eq!(arm.input_expr.ty, lex("T"));
}

#[test]
fn parse_arm_with_nested_generic_bound() {
    let toks = lex(r#"default fn <T: Display + Into<u8>>(v: T) => format!("{}", v)"#);
    let (arm, end) = DispatchArmExpr::parse(&toks, 0).expect("arm parses");
    assert_eq!(end, toks.len());
    assert!(arm.default);
    assert_eq!(arm.generic_params.as_ref().map(|g| g.len()), Some(8));
    assert_eq!(arm.input_expr.ty, lex("T"));
}

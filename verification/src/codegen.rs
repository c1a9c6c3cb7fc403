//! Lowering a dispatch expression to declarations.
//!
//! One parsed dispatch expression becomes a single brace-delimited block
//! holding: a helper trait with one `dispatch` method; one implementation of
//! that trait per arm, the default arm's marked `default` so the host
//! compiler's specialization may override it; and one call of the method,
//! qualified by the source type. Every generated token sequence is pinned
//! down exactly by the spec functions here.

use vstd::prelude::*;
use vstd::string::StringExecFns;

use crate::ast::DispatchArmExprV;
use crate::ast::FnArg;
use crate::ast::FnArgName;
use crate::ast::FnArgNameV;
use crate::ast::FnArgV;
use crate::ast::SpecializedDispatchExpr;
use crate::ast::SpecializedDispatchExprV;
use crate::ast::arms_v;
use crate::ast::exprs_v;
use crate::ast::fn_args_v;
use crate::parse::ParseError;
use crate::parse::spec_parse_dispatch;
use crate::token::Delim;
use crate::token::Tok;
use crate::token::TokV;
use crate::token::lemma_toks_v_concat;
use crate::token::lemma_toks_v_index;
use crate::token::lemma_toks_v_len;
use crate::token::tok_v;
use crate::token::toks_clone;
use crate::token::toks_v;

verus! {

/// The name given to the generated helper trait. Every expansion uses the
/// same text; the caller that substitutes the tokens into the program is
/// expected to scope the name to the expansion site, so that two expansions
/// in one scope do not collide.
pub open spec fn trait_name_text() -> Seq<char> {
    "SpecializedDispatchCall"@
}

/// The tokens of a parameter name.
pub open spec fn arg_name_toks(n: FnArgNameV) -> Seq<TokV> {
    match n {
        FnArgNameV::Ident(s) => seq![TokV::Ident(s)],
        FnArgNameV::Underscore => seq![TokV::Ident("_"@)],
    }
}

/// The tokens of a formal parameter: its name, a colon, and its type.
pub open spec fn fn_arg_toks(a: FnArgV) -> Seq<TokV> {
    arg_name_toks(a.name) + seq![TokV::Punct(':', false)] + a.ty
}

/// A comma followed by a formal parameter, once per parameter.
pub open spec fn comma_args_toks(args: Seq<FnArgV>) -> Seq<TokV>
    decreases args.len(),
{
    if args.len() == 0 {
        Seq::empty()
    } else {
        comma_args_toks(args.drop_last()) + seq![TokV::Punct(',', false)] + fn_arg_toks(
            args.last(),
        )
    }
}

/// A comma followed by an argument expression, once per expression.
pub open spec fn comma_exprs_toks(es: Seq<Seq<TokV>>) -> Seq<TokV>
    decreases es.len(),
{
    if es.len() == 0 {
        Seq::empty()
    } else {
        comma_exprs_toks(es.drop_last()) + seq![TokV::Punct(',', false)] + es.last()
    }
}

/// The tokens of an arm's generic-parameter clause, if it has one.
pub open spec fn generics_toks(gps: Option<Seq<TokV>>) -> Seq<TokV> {
    match gps {
        Some(g) => seq![TokV::Punct('<', false)] + g + seq![TokV::Punct('>', false)],
        None => Seq::empty(),
    }
}

/// The helper trait declaration: one method `dispatch`, generic over the
/// matched type `T`, taking the value and the extra parameters, returning
/// the destination type.
pub open spec fn spec_gen_trait_decl(name: Seq<char>, extra: Seq<FnArgV>, ret: Seq<TokV>) -> Seq<
    TokV,
> {
    seq![
        TokV::Ident("trait"@),
        TokV::Ident(name),
        TokV::Punct('<', false),
        TokV::Ident("T"@),
        TokV::Punct('>', false),
        TokV::Group(
            Delim::Brace,
            seq![
                TokV::Ident("fn"@),
                TokV::Ident("dispatch"@),
                TokV::Group(
                    Delim::Paren,
                    seq![TokV::Ident("_"@), TokV::Punct(':', false), TokV::Ident("T"@)]
                        + comma_args_toks(extra),
                ),
                TokV::Punct('-', true),
                TokV::Punct('>', false),
            ] + ret + seq![TokV::Punct(';', false)],
        ),
    ]
}

/// One trait implementation: generic over the arm's parameters where it has
/// them, for the arm's bound type, its method body the arm's body verbatim,
/// marked `default` where the arm is the default one.
pub open spec fn spec_gen_trait_impl(name: Seq<char>, arm: DispatchArmExprV, ret: Seq<TokV>) -> Seq<
    TokV,
> {
    seq![TokV::Ident("impl"@)] + generics_toks(arm.generic_params) + seq![
        TokV::Ident(name),
        TokV::Punct('<', false),
    ] + arm.input_expr.ty + seq![TokV::Punct('>', false), TokV::Ident("for"@)] + arm.input_expr.ty
        + seq![
        TokV::Group(
            Delim::Brace,
            (if arm.default {
                seq![TokV::Ident("default"@)]
            } else {
                Seq::<TokV>::empty()
            }) + seq![
                TokV::Ident("fn"@),
                TokV::Ident("dispatch"@),
                TokV::Group(
                    Delim::Paren,
                    fn_arg_toks(arm.input_expr) + comma_args_toks(arm.extra_args),
                ),
                TokV::Punct('-', true),
                TokV::Punct('>', false),
            ] + ret + seq![TokV::Group(Delim::Brace, arm.body)],
        ),
    ]
}

/// The implementations of all arms, in arm order.
pub open spec fn spec_gen_impls(name: Seq<char>, arms: Seq<DispatchArmExprV>, ret: Seq<TokV>) -> Seq<
    TokV,
>
    decreases arms.len(),
{
    if arms.len() == 0 {
        Seq::empty()
    } else {
        spec_gen_impls(name, arms.drop_last(), ret) + spec_gen_trait_impl(name, arms.last(), ret)
    }
}

/// The extra formal parameters of the last arm marked `default`, or none
/// where no arm is so marked: they shape the trait method's parameter list.
pub open spec fn spec_default_extra_args(arms: Seq<DispatchArmExprV>) -> Seq<FnArgV>
    decreases arms.len(),
{
    if arms.len() == 0 {
        Seq::empty()
    } else if arms.last().default {
        arms.last().extra_args
    } else {
        spec_default_extra_args(arms.drop_last())
    }
}

/// The dispatch call: the trait method, qualified by the source type as both
/// the self type and the trait's type argument, applied to the value
/// expression and the extra arguments, positionally and verbatim.
pub open spec fn spec_gen_dispatch_call(
    name: Seq<char>,
    from: Seq<TokV>,
    input: Seq<TokV>,
    extras: Seq<Seq<TokV>>,
) -> Seq<TokV> {
    seq![TokV::Punct('<', false)] + from + seq![
        TokV::Ident("as"@),
        TokV::Ident(name),
        TokV::Punct('<', false),
    ] + from + seq![
        TokV::Punct('>', false),
        TokV::Punct('>', false),
        TokV::Punct(':', true),
        TokV::Punct(':', false),
        TokV::Ident("dispatch"@),
        TokV::Group(Delim::Paren, input + comma_exprs_toks(extras)),
    ]
}

/// The whole expansion: one brace-delimited block holding the trait
/// declaration, the implementations in arm order, and the dispatch call.
pub open spec fn spec_to_tokens(e: SpecializedDispatchExprV) -> Seq<TokV> {
    seq![
        TokV::Group(
            Delim::Brace,
            spec_gen_trait_decl(trait_name_text(), spec_default_extra_args(e.arms), e.to_type)
                + spec_gen_impls(trait_name_text(), e.arms, e.to_type) + spec_gen_dispatch_call(
                trait_name_text(),
                e.from_type,
                e.input_expr,
                e.extra_args,
            ),
        ),
    ]
}

/// LAW. Extra arguments are forwarded positionally and unmodified: the last
/// token of the generated block is the dispatch call's argument group, and
/// that group holds the value expression followed, for each extra argument
/// in order, by a comma and that argument's tokens verbatim
/// (`comma_exprs_toks`).
pub proof fn lemma_extra_args_forwarded(e: SpecializedDispatchExprV)
    ensures
        ({
            let out = spec_to_tokens(e);
            &&& out.len() == 1
            &&& out[0] matches TokV::Group(Delim::Brace, block)
            &&& out[0]->Group_1.len() > 0
            &&& out[0]->Group_1.last() == TokV::Group(
                Delim::Paren,
                e.input_expr + comma_exprs_toks(e.extra_args),
            )
        }),
{
    let call = spec_gen_dispatch_call(trait_name_text(), e.from_type, e.input_expr, e.extra_args);
    let block = spec_gen_trait_decl(trait_name_text(), spec_default_extra_args(e.arms), e.to_type)
        + spec_gen_impls(trait_name_text(), e.arms, e.to_type) + call;
    assert(call.last() == TokV::Group(Delim::Paren, e.input_expr + comma_exprs_toks(e.extra_args)));
    assert(block.last() == call.last());
}

/// LAW. An arm's body is spliced verbatim: the last token of the trait
/// implementation generated for an arm is the implementation's brace block,
/// and that block ends with the method body, which is the arm's body, token
/// for token.
pub proof fn lemma_arm_body_preserved(name: Seq<char>, arm: DispatchArmExprV, ret: Seq<TokV>)
    ensures
        ({
            let impl_toks = spec_gen_trait_impl(name, arm, ret);
            &&& impl_toks.len() > 0
            &&& impl_toks.last() matches TokV::Group(Delim::Brace, method)
            &&& impl_toks.last()->Group_1.len() > 0
            &&& impl_toks.last()->Group_1.last() == TokV::Group(Delim::Brace, arm.body)
        }),
{
}

/// One token, appended.
fn push_tok(out: &mut Vec<Tok>, t: Tok)
    ensures
        toks_v(final(out)@) == toks_v(old(out)@) + seq![tok_v(t)],
{
    let ghost t0 = t@;
    out.push(t);
    proof {
        lemma_toks_v_len(out@);
        lemma_toks_v_len(old(out)@);
        assert forall|k: int| 0 <= k < out@.len() implies toks_v(out@)[k] == (toks_v(old(out)@)
            + seq![t0])[k] by {
            lemma_toks_v_index(out@, k);
            if k < old(out)@.len() {
                lemma_toks_v_index(old(out)@, k);
            }
        }
        assert(toks_v(out@) =~= toks_v(old(out)@) + seq![t0]);
    }
}

/// An identifier token.
fn ident_tok(w: &str) -> (t: Tok)
    ensures
        tok_v(t) == TokV::Ident(w@),
{
    Tok::Ident(String::from_str(w))
}

/// The tokens of `src`, appended.
fn append_toks(out: &mut Vec<Tok>, src: &Vec<Tok>)
    ensures
        toks_v(final(out)@) == toks_v(old(out)@) + toks_v(src@),
{
    let mut one = toks_clone(src);
    let ghost mid = out@;
    let ghost one_v = one@;
    out.append(&mut one);
    proof {
        lemma_toks_v_concat(mid, one_v);
    }
}

impl FnArgName {
    /// The tokens of this parameter name, appended.
    pub fn to_tokens(&self, out: &mut Vec<Tok>)
        ensures
            toks_v(final(out)@) == toks_v(old(out)@) + arg_name_toks(self@),
    {
        match self {
            FnArgName::Ident(s) => push_tok(out, Tok::Ident(s.clone())),
            FnArgName::Underscore => push_tok(out, ident_tok("_")),
        }
    }
}

impl FnArg {
    /// The tokens of this parameter, appended: its name, a colon, its type.
    pub fn to_tokens(&self, out: &mut Vec<Tok>)
        ensures
            toks_v(final(out)@) == toks_v(old(out)@) + fn_arg_toks(self@),
    {
        self.name.to_tokens(out);
        push_tok(out, Tok::Punct(':', false));
        append_toks(out, &self.ty);
        proof {
            assert(toks_v(out@) =~= toks_v(old(out)@) + fn_arg_toks(self@));
        }
    }
}

/// A comma and a parameter, appended, once per parameter of `args`.
fn append_comma_args(out: &mut Vec<Tok>, args: &Vec<FnArg>)
    ensures
        toks_v(final(out)@) == toks_v(old(out)@) + comma_args_toks(fn_args_v(args@)),
{
    let n: usize = args.len();
    let mut i: usize = 0;
    proof {
        assert(fn_args_v(args@).take(0) =~= Seq::<FnArgV>::empty());
        assert(toks_v(out@) =~= toks_v(out@) + comma_args_toks(Seq::<FnArgV>::empty()));
    }
    while i < n
        invariant
            i <= n,
            n == args@.len(),
            toks_v(out@) == toks_v(old(out)@) + comma_args_toks(fn_args_v(args@).take(i as int)),
        decreases n - i,
    {
        push_tok(out, Tok::Punct(',', false));
        args[i].to_tokens(out);
        proof {
            let av = fn_args_v(args@);
            assert(av.take(i + 1).drop_last() =~= av.take(i as int));
            assert(av.take(i + 1).last() == av[i as int]);
            assert(toks_v(out@) =~= toks_v(old(out)@) + comma_args_toks(av.take(i + 1)));
        }
        i += 1;
    }
    proof {
        assert(fn_args_v(args@).take(n as int) =~= fn_args_v(args@));
    }
}

/// A comma and an argument expression, appended, once per entry of `es`.
fn append_comma_exprs(out: &mut Vec<Tok>, es: &Vec<Vec<Tok>>)
    ensures
        toks_v(final(out)@) == toks_v(old(out)@) + comma_exprs_toks(exprs_v(es@)),
{
    let n: usize = es.len();
    let mut i: usize = 0;
    proof {
        assert(exprs_v(es@).take(0) =~= Seq::<Seq<TokV>>::empty());
        assert(toks_v(out@) =~= toks_v(out@) + comma_exprs_toks(Seq::<Seq<TokV>>::empty()));
    }
    while i < n
        invariant
            i <= n,
            n == es@.len(),
            toks_v(out@) == toks_v(old(out)@) + comma_exprs_toks(exprs_v(es@).take(i as int)),
        decreases n - i,
    {
        push_tok(out, Tok::Punct(',', false));
        append_toks(out, &es[i]);
        proof {
            let ev = exprs_v(es@);
            assert(ev.take(i + 1).drop_last() =~= ev.take(i as int));
            assert(ev.take(i + 1).last() == ev[i as int]);
            assert(toks_v(out@) =~= toks_v(old(out)@) + comma_exprs_toks(ev.take(i + 1)));
        }
        i += 1;
    }
    proof {
        assert(exprs_v(es@).take(n as int) =~= exprs_v(es@));
    }
}

/// The helper trait declaration for one dispatch expression.
pub fn generate_trait_declaration(
    trait_name: &String,
    extra_args: &Vec<FnArg>,
    return_type: &Vec<Tok>,
) -> (r: Vec<Tok>)
    ensures
        toks_v(r@) == spec_gen_trait_decl(trait_name@, fn_args_v(extra_args@), toks_v(
            return_type@,
        )),
{
    let mut params: Vec<Tok> = Vec::new();
    push_tok(&mut params, ident_tok("_"));
    push_tok(&mut params, Tok::Punct(':', false));
    push_tok(&mut params, ident_tok("T"));
    append_comma_args(&mut params, extra_args);
    proof {
        assert(toks_v(params@) =~= seq![
            TokV::Ident("_"@),
            TokV::Punct(':', false),
            TokV::Ident("T"@),
        ] + comma_args_toks(fn_args_v(extra_args@)));
    }
    let mut inner: Vec<Tok> = Vec::new();
    push_tok(&mut inner, ident_tok("fn"));
    push_tok(&mut inner, ident_tok("dispatch"));
    push_tok(&mut inner, Tok::Group(Delim::Paren, params));
    push_tok(&mut inner, Tok::Punct('-', true));
    push_tok(&mut inner, Tok::Punct('>', false));
    append_toks(&mut inner, return_type);
    push_tok(&mut inner, Tok::Punct(';', false));
    proof {
        assert(toks_v(inner@) =~= seq![
            TokV::Ident("fn"@),
            TokV::Ident("dispatch"@),
            TokV::Group(
                Delim::Paren,
                seq![TokV::Ident("_"@), TokV::Punct(':', false), TokV::Ident("T"@)]
                    + comma_args_toks(fn_args_v(extra_args@)),
            ),
            TokV::Punct('-', true),
            TokV::Punct('>', false),
        ] + toks_v(return_type@) + seq![TokV::Punct(';', false)]);
    }
    let mut out: Vec<Tok> = Vec::new();
    push_tok(&mut out, ident_tok("trait"));
    push_tok(&mut out, Tok::Ident(trait_name.clone()));
    push_tok(&mut out, Tok::Punct('<', false));
    push_tok(&mut out, ident_tok("T"));
    push_tok(&mut out, Tok::Punct('>', false));
    push_tok(&mut out, Tok::Group(Delim::Brace, inner));
    proof {
        assert(toks_v(out@) =~= spec_gen_trait_decl(trait_name@, fn_args_v(extra_args@), toks_v(
            return_type@,
        )));
    }
    out
}

/// One trait implementation, for one arm.
pub fn generate_trait_implementation(
    default: bool,
    trait_name: &String,
    generic_params: &Option<Vec<Tok>>,
    input_expr: &FnArg,
    extra_args: &Vec<FnArg>,
    return_type: &Vec<Tok>,
    body: &Vec<Tok>,
) -> (r: Vec<Tok>)
    ensures
        toks_v(r@) == spec_gen_trait_impl(
            trait_name@,
            DispatchArmExprV {
                default: default,
                generic_params: match generic_params {
                    Some(g) => Some(toks_v(g@)),
                    None => None,
                },
                input_expr: input_expr@,
                extra_args: fn_args_v(extra_args@),
                body: toks_v(body@),
            },
            toks_v(return_type@),
        ),
{
    let mut params: Vec<Tok> = Vec::new();
    input_expr.to_tokens(&mut params);
    append_comma_args(&mut params, extra_args);
    proof {
        assert(toks_v(params@) =~= fn_arg_toks(input_expr@) + comma_args_toks(
            fn_args_v(extra_args@),
        ));
    }
    let mut inner: Vec<Tok> = Vec::new();
    if default {
        push_tok(&mut inner, ident_tok("default"));
    }
    push_tok(&mut inner, ident_tok("fn"));
    push_tok(&mut inner, ident_tok("dispatch"));
    push_tok(&mut inner, Tok::Group(Delim::Paren, params));
    push_tok(&mut inner, Tok::Punct('-', true));
    push_tok(&mut inner, Tok::Punct('>', false));
    append_toks(&mut inner, return_type);
    let body_copy = toks_clone(body);
    push_tok(&mut inner, Tok::Group(Delim::Brace, body_copy));
    proof {
        assert(toks_v(inner@) =~= (if default {
            seq![TokV::Ident("default"@)]
        } else {
            Seq::<TokV>::empty()
        }) + seq![
            TokV::Ident("fn"@),
            TokV::Ident("dispatch"@),
            TokV::Group(
                Delim::Paren,
                fn_arg_toks(input_expr@) + comma_args_toks(fn_args_v(extra_args@)),
            ),
            TokV::Punct('-', true),
            TokV::Punct('>', false),
        ] + toks_v(return_type@) + seq![TokV::Group(Delim::Brace, toks_v(body@))]);
    }
    let mut out: Vec<Tok> = Vec::new();
    push_tok(&mut out, ident_tok("impl"));
    match generic_params {
        Some(g) => {
            push_tok(&mut out, Tok::Punct('<', false));
            append_toks(&mut out, g);
            push_tok(&mut out, Tok::Punct('>', false));
        },
        None => {},
    }
    push_tok(&mut out, Tok::Ident(trait_name.clone()));
    push_tok(&mut out, Tok::Punct('<', false));
    append_toks(&mut out, &input_expr.ty);
    push_tok(&mut out, Tok::Punct('>', false));
    push_tok(&mut out, ident_tok("for"));
    append_toks(&mut out, &input_expr.ty);
    push_tok(&mut out, Tok::Group(Delim::Brace, inner));
    proof {
        let gv: Option<Seq<TokV>> = match generic_params {
            Some(g) => Some(toks_v(g@)),
            None => None,
        };
        assert(toks_v(out@) =~= spec_gen_trait_impl(
            trait_name@,
            DispatchArmExprV {
                default: default,
                generic_params: gv,
                input_expr: input_expr@,
                extra_args: fn_args_v(extra_args@),
                body: toks_v(body@),
            },
            toks_v(return_type@),
        ));
    }
    out
}

/// The dispatch call for one dispatch expression.
pub fn generate_dispatch_call(
    from_type: &Vec<Tok>,
    trait_name: &String,
    input_expr: &Vec<Tok>,
    extra_args: &Vec<Vec<Tok>>,
) -> (r: Vec<Tok>)
    ensures
        toks_v(r@) == spec_gen_dispatch_call(trait_name@, toks_v(from_type@), toks_v(input_expr@),
            exprs_v(extra_args@),
        ),
{
    let mut args: Vec<Tok> = toks_clone(input_expr);
    append_comma_exprs(&mut args, extra_args);
    let mut out: Vec<Tok> = Vec::new();
    push_tok(&mut out, Tok::Punct('<', false));
    append_toks(&mut out, from_type);
    push_tok(&mut out, ident_tok("as"));
    push_tok(&mut out, Tok::Ident(trait_name.clone()));
    push_tok(&mut out, Tok::Punct('<', false));
    append_toks(&mut out, from_type);
    push_tok(&mut out, Tok::Punct('>', false));
    push_tok(&mut out, Tok::Punct('>', false));
    push_tok(&mut out, Tok::Punct(':', true));
    push_tok(&mut out, Tok::Punct(':', false));
    push_tok(&mut out, ident_tok("dispatch"));
    push_tok(&mut out, Tok::Group(Delim::Paren, args));
    proof {
        assert(toks_v(out@) =~= spec_gen_dispatch_call(trait_name@, toks_v(from_type@), toks_v(
            input_expr@,
        ), exprs_v(extra_args@)));
    }
    out
}

impl SpecializedDispatchExpr {
    /// The expansion of this dispatch expression, as one block.
    pub fn to_tokens(&self) -> (r: Vec<Tok>)
        ensures
            toks_v(r@) == spec_to_tokens(self@),
    {
        let trait_name = String::from_str("SpecializedDispatchCall");
        proof {
            assert(trait_name@ == trait_name_text());
        }
        // The extra parameters of the last default arm shape the trait
        // method's parameter list.
        let n: usize = self.arms.len();
        let mut dflt_idx: Option<usize> = None;
        let mut i: usize = 0;
        proof {
            assert(arms_v(self.arms@).take(0) =~= Seq::<DispatchArmExprV>::empty());
        }
        while i < n
            invariant
                i <= n,
                n == self.arms@.len(),
                match dflt_idx {
                    Some(k) => k < i && self.arms@[k as int]@.default && spec_default_extra_args(
                        arms_v(self.arms@).take(i as int),
                    ) == self.arms@[k as int]@.extra_args,
                    None => spec_default_extra_args(arms_v(self.arms@).take(i as int))
                        == Seq::<FnArgV>::empty(),
                },
            decreases n - i,
        {
            if self.arms[i].default {
                dflt_idx = Some(i);
            }
            proof {
                let av = arms_v(self.arms@);
                assert(av.take(i + 1).drop_last() =~= av.take(i as int));
                assert(av.take(i + 1).last() == av[i as int]);
            }
            i += 1;
        }
        proof {
            assert(arms_v(self.arms@).take(n as int) =~= arms_v(self.arms@));
        }
        let no_args: Vec<FnArg> = Vec::new();
        let extra_ref: &Vec<FnArg> = match dflt_idx {
            Some(k) => &self.arms[k].extra_args,
            None => &no_args,
        };
        proof {
            assert(fn_args_v(no_args@) =~= Seq::<FnArgV>::empty());
            assert(fn_args_v(extra_ref@) == spec_default_extra_args(arms_v(self.arms@)));
        }
        let mut block = generate_trait_declaration(&trait_name, extra_ref, &self.to_type);
        let ghost decl = toks_v(block@);
        let mut j: usize = 0;
        proof {
            assert(arms_v(self.arms@).take(0) =~= Seq::<DispatchArmExprV>::empty());
            assert(decl + Seq::<TokV>::empty() =~= decl);
        }
        while j < n
            invariant
                j <= n,
                n == self.arms@.len(),
                trait_name@ == trait_name_text(),
                decl == spec_gen_trait_decl(
                    trait_name_text(),
                    spec_default_extra_args(arms_v(self.arms@)),
                    toks_v(self.to_type@),
                ),
                toks_v(block@) == decl + spec_gen_impls(
                    trait_name_text(),
                    arms_v(self.arms@).take(j as int),
                    toks_v(self.to_type@),
                ),
            decreases n - j,
        {
            let arm = &self.arms[j];
            let mut one = generate_trait_implementation(
                arm.default,
                &trait_name,
                &arm.generic_params,
                &arm.input_expr,
                &arm.extra_args,
                &self.to_type,
                &arm.body,
            );
            let ghost pre = block@;
            let ghost one_v = one@;
            block.append(&mut one);
            proof {
                lemma_toks_v_concat(pre, one_v);
                let av = arms_v(self.arms@);
                assert(av.take(j + 1).drop_last() =~= av.take(j as int));
                assert(av.take(j + 1).last() == av[j as int]);
                assert(toks_v(one_v) == spec_gen_trait_impl(
                    trait_name_text(),
                    av[j as int],
                    toks_v(self.to_type@),
                ));
                assert(toks_v(block@) =~= decl + spec_gen_impls(
                    trait_name_text(),
                    av.take(j + 1),
                    toks_v(self.to_type@),
                ));
            }
            j += 1;
        }
        proof {
            assert(arms_v(self.arms@).take(n as int) =~= arms_v(self.arms@));
        }
        let mut call = generate_dispatch_call(
            &self.from_type,
            &trait_name,
            &self.input_expr,
            &self.extra_args,
        );
        let ghost pre2 = block@;
        let ghost call_v = call@;
        block.append(&mut call);
        proof {
            lemma_toks_v_concat(pre2, call_v);
        }
        let mut r: Vec<Tok> = Vec::new();
        push_tok(&mut r, Tok::Group(Delim::Brace, block));
        proof {
            assert(toks_v(r@) =~= spec_to_tokens(self@));
        }
        r
    }
}

/// One dispatch expression, parsed and lowered: the library's whole work.
pub fn expand(toks: &Vec<Tok>) -> (r: Result<Vec<Tok>, ParseError>)
    ensures
        match r {
            Ok(out) => spec_parse_dispatch(crate::token::toks_v(toks@)) matches Ok(parsed)
                && toks_v(out@) == spec_to_tokens(parsed),
            Err(e) => spec_parse_dispatch(crate::token::toks_v(toks@)) == Err::<
                SpecializedDispatchExprV,
                _,
            >(e@),
        },
{
    match SpecializedDispatchExpr::parse(toks) {
        Ok(e) => Ok(e.to_tokens()),
        Err(err) => Err(err),
    }
}

} // verus!

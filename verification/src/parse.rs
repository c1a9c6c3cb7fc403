//! The grammar of a dispatch expression.
//!
//! The accepted shape is
//!
//! ```text
//! DispatchExpr := SourceType '->' DestType ',' ArmList ',' ValueExpr (',' ExtraArg)* ','?
//! ArmList      := (Arm (',' Arm)*)?
//! Arm          := 'default'? 'fn' GenericParams? '(' InputBinding (',' ExtraParam)* ')' '=>' BodyExpr
//! InputBinding := (Identifier | '_') ':' Type
//! ```
//!
//! Types, expressions and generic parameters follow the host language's own
//! grammar; how far each of those sub-terms reaches into the token sequence
//! is decided by the host grammar's parsers (see `type_prefix`,
//! `expr_prefix` and `generic_param_prefix`). Everything else about the
//! grammar is defined here, as a function of the token values, and each
//! parsing function is proved to return exactly what that function says —
//! on success the parsed form, on failure the offending token's position
//! and an expected-token message. The sub-term parsers are recursive
//! descent, so input nested deeply enough can exhaust the stack, as it
//! would in any parser of that shape.

use vstd::prelude::*;
use vstd::string::StrSliceExecFns;
use vstd::string::StringExecFns;

use crate::ast::DispatchArmExpr;
use crate::ast::DispatchArmExprV;
use crate::ast::FnArg;
use crate::ast::FnArgName;
use crate::ast::FnArgNameV;
use crate::ast::FnArgV;
use crate::ast::SpecializedDispatchExpr;
use crate::ast::SpecializedDispatchExprV;
use crate::ast::arms_v;
use crate::ast::exprs_v;
use crate::ast::fn_args_v;
use crate::token::Delim;
use crate::token::Tok;
use crate::token::TokV;
use crate::token::lemma_toks_v_index;
use crate::token::lemma_toks_v_len;
use crate::token::lemma_vec_elem_decreases;
use crate::token::tok_clone;
use crate::token::tok_v;
use crate::token::toks_v;

verus! {

/// A structural parse error: the position of the offending token and what
/// was expected there. The position counts tokens from the start of the
/// invocation, a group counting as one; an error inside an arm's
/// parenthesized parameter list is reported at the list itself, with the
/// inner expectation as its message.
#[derive(Clone, Copy, PartialEq, Eq, Debug)]
pub struct ParseError {
    pub pos: usize,
    pub msg: &'static str,
}

/// The value of a parse error.
pub struct ParseErrorV {
    pub pos: int,
    pub msg: Seq<char>,
}

impl View for ParseError {
    type V = ParseErrorV;

    open spec fn view(&self) -> ParseErrorV {
        ParseErrorV { pos: self.pos as int, msg: self.msg@ }
    }
}

// How many leading tokens the host grammar's type parser consumes from a
// token sequence; nothing where no type can be read. Named only: what a type
// may look like is the host language's affair, not this crate's. The count
// is fixed through the sequence's textual form (`toks_text`): on a sequence
// that lexing a written invocation can produce it is exactly how many
// leading tokens the type takes, and on any other value it is still one
// fixed number, which the guards in the grammar below bound before use.
pub uninterp spec fn type_prefix(s: Seq<TokV>) -> Option<int>;

// How many leading tokens the host grammar's expression parser consumes.
pub uninterp spec fn expr_prefix(s: Seq<TokV>) -> Option<int>;

// How many leading tokens the host grammar's generic-parameter parser
// consumes (one parameter, with its bounds).
pub uninterp spec fn generic_param_prefix(s: Seq<TokV>) -> Option<int>;

/// There is a token at `i` and it is the identifier `w`.
pub open spec fn is_ident_at(s: Seq<TokV>, i: int, w: Seq<char>) -> bool {
    0 <= i < s.len() && s[i] == TokV::Ident(w)
}

/// There is a token at `i` and it is the punctuation character `c`, with
/// either spacing.
pub open spec fn is_punct_at(s: Seq<TokV>, i: int, c: char) -> bool {
    0 <= i < s.len() && (s[i] matches TokV::Punct(cc, _) && cc == c)
}

/// There is a token at `i` and it is the punctuation character `c`, joined
/// to the next token (the first character of a two-character operator).
pub open spec fn is_joint_at(s: Seq<TokV>, i: int, c: char) -> bool {
    0 <= i < s.len() && s[i] == TokV::Punct(c, true)
}

/// The words the host language reserves: none of them can name a binding.
pub open spec fn is_rust_keyword(s: Seq<char>) -> bool {
    ||| s == "abstract"@
    ||| s == "as"@
    ||| s == "async"@
    ||| s == "await"@
    ||| s == "become"@
    ||| s == "box"@
    ||| s == "break"@
    ||| s == "const"@
    ||| s == "continue"@
    ||| s == "crate"@
    ||| s == "do"@
    ||| s == "dyn"@
    ||| s == "else"@
    ||| s == "enum"@
    ||| s == "ext"@ + "ern"@
    ||| s == "false"@
    ||| s == "final"@
    ||| s == "fn"@
    ||| s == "for"@
    ||| s == "if"@
    ||| s == "impl"@
    ||| s == "in"@
    ||| s == "let"@
    ||| s == "loop"@
    ||| s == "macro"@
    ||| s == "match"@
    ||| s == "mod"@
    ||| s == "move"@
    ||| s == "mut"@
    ||| s == "override"@
    ||| s == "priv"@
    ||| s == "pub"@
    ||| s == "ref"@
    ||| s == "return"@
    ||| s == "Self"@
    ||| s == "self"@
    ||| s == "static"@
    ||| s == "struct"@
    ||| s == "super"@
    ||| s == "trait"@
    ||| s == "true"@
    ||| s == "try"@
    ||| s == "type"@
    ||| s == "typeof"@
    ||| s == "unsafe"@
    ||| s == "unsized"@
    ||| s == "use"@
    ||| s == "virtual"@
    ||| s == "where"@
    ||| s == "while"@
    ||| s == "yield"@
}

/// A parameter name: an identifier that is no keyword, or `_`.
pub open spec fn spec_parse_arg_name(s: Seq<TokV>, i: int) -> Result<(FnArgNameV, int), ParseErrorV> {
    let fail = ParseErrorV { pos: i, msg: "expected identifier or underscore"@ };
    if 0 <= i < s.len() {
        match s[i] {
            TokV::Ident(name) => {
                if name == "_"@ {
                    Ok((FnArgNameV::Underscore, i + 1))
                } else if is_rust_keyword(name) {
                    Err(fail)
                } else {
                    Ok((FnArgNameV::Ident(name), i + 1))
                }
            },
            _ => Err(fail),
        }
    } else {
        Err(fail)
    }
}

/// A formal parameter: a name, a colon, and a type.
pub open spec fn spec_parse_fn_arg(s: Seq<TokV>, i: int) -> Result<(FnArgV, int), ParseErrorV> {
    match spec_parse_arg_name(s, i) {
        Ok((name, j)) => {
            if is_punct_at(s, j, ':') {
                match type_prefix(s.skip(j + 1)) {
                    Some(n) => {
                        if 1 <= n <= s.len() - (j + 1) {
                            Ok((FnArgV { name: name, ty: s.subrange(j + 1, j + 1 + n) }, j + 1 + n))
                        } else {
                            Err(ParseErrorV { pos: j + 1, msg: "expected a type"@ })
                        }
                    },
                    None => Err(ParseErrorV { pos: j + 1, msg: "expected a type"@ }),
                }
            } else {
                Err(ParseErrorV { pos: j, msg: "expected `:`"@ })
            }
        },
        Err(e) => Err(e),
    }
}

/// One or more formal parameters, separated by commas, no trailing comma.
/// (The position guard under `Ok` always holds — a parsed parameter ends
/// past where it began — and serves the termination measure.)
pub open spec fn spec_parse_args_tail(s: Seq<TokV>, i: int) -> Result<
    (Seq<FnArgV>, int),
    ParseErrorV,
>
    decreases s.len() - i,
{
    match spec_parse_fn_arg(s, i) {
        Ok((a, j)) => {
            if i < j <= s.len() {
                if is_punct_at(s, j, ',') {
                    match spec_parse_args_tail(s, j + 1) {
                        Ok((rest, end)) => Ok((seq![a] + rest, end)),
                        Err(e) => Err(e),
                    }
                } else {
                    Ok((seq![a], j))
                }
            } else {
                Err(ParseErrorV { pos: j, msg: "expected a type"@ })
            }
        },
        Err(e) => Err(e),
    }
}

/// The whole content of an arm's parenthesized parameter list: the input
/// binding, then optionally a comma and further parameters, and nothing
/// after them. Error positions count from the start of the list.
pub open spec fn spec_parse_arm_params(inner: Seq<TokV>) -> Result<
    (FnArgV, Seq<FnArgV>),
    ParseErrorV,
> {
    match spec_parse_fn_arg(inner, 0) {
        Ok((input, j)) => {
            if is_punct_at(inner, j, ',') {
                match spec_parse_args_tail(inner, j + 1) {
                    Ok((args, end)) => {
                        if end == inner.len() {
                            Ok((input, args))
                        } else {
                            Err(ParseErrorV { pos: end, msg: "unexpected token"@ })
                        }
                    },
                    Err(e) => Err(e),
                }
            } else if j == inner.len() {
                Ok((input, Seq::empty()))
            } else {
                Err(ParseErrorV { pos: j, msg: "unexpected token"@ })
            }
        },
        Err(e) => Err(e),
    }
}

/// One or more generic parameters, separated by commas, no trailing comma;
/// the position after the last one.
pub open spec fn spec_parse_generics_tail(s: Seq<TokV>, i: int) -> Result<int, ParseErrorV>
    decreases s.len() - i,
{
    let fail = ParseErrorV { pos: i, msg: "expected a generic parameter"@ };
    match generic_param_prefix(s.skip(i)) {
        Some(n) => {
            if 0 <= i && 1 <= n <= s.len() - i {
                if is_punct_at(s, i + n, ',') {
                    spec_parse_generics_tail(s, i + n + 1)
                } else {
                    Ok(i + n)
                }
            } else {
                Err(fail)
            }
        },
        None => Err(fail),
    }
}

/// An arm's optional generic-parameter clause: nothing, or `<`, a non-empty
/// parameter list, and `>`. The kept tokens are those between the brackets.
pub open spec fn spec_parse_arm_generics(s: Seq<TokV>, i: int) -> Result<
    (Option<Seq<TokV>>, int),
    ParseErrorV,
> {
    if is_punct_at(s, i, '<') {
        match spec_parse_generics_tail(s, i + 1) {
            Ok(k) => {
                if i + 1 <= k <= s.len() && is_punct_at(s, k, '>') {
                    Ok((Some(s.subrange(i + 1, k)), k + 1))
                } else {
                    Err(ParseErrorV { pos: k, msg: "expected `>`"@ })
                }
            },
            Err(e) => Err(e),
        }
    } else {
        Ok((None, i))
    }
}

/// A token at `i` begins an arm: it is the word `default` or the word `fn`.
pub open spec fn spec_arm_start(s: Seq<TokV>, i: int) -> bool {
    is_ident_at(s, i, "default"@) || is_ident_at(s, i, "fn"@)
}

/// One arm: `default`? `fn` GenericParams? `( params )` `=>` BodyExpr. An
/// error inside the parameter list is reported at the list's own position,
/// with the inner expectation as its message.
pub open spec fn spec_parse_arm(s: Seq<TokV>, i: int) -> Result<
    (DispatchArmExprV, int),
    ParseErrorV,
> {
    let dflt = is_ident_at(s, i, "default"@);
    let i1 = if dflt {
        i + 1
    } else {
        i
    };
    if is_ident_at(s, i1, "fn"@) {
        match spec_parse_arm_generics(s, i1 + 1) {
            Ok((gps, i3)) => {
                if 0 <= i3 < s.len() && (s[i3] matches TokV::Group(d, inner) && d == Delim::Paren) {
                    match spec_parse_arm_params(s[i3]->Group_1) {
                        Ok((input, extra)) => {
                            let i4 = i3 + 1;
                            if is_joint_at(s, i4, '=') && is_punct_at(s, i4 + 1, '>') {
                                match expr_prefix(s.skip(i4 + 2)) {
                                    Some(n) => {
                                        if 1 <= n <= s.len() - (i4 + 2) {
                                            Ok((DispatchArmExprV {
                                                default: dflt,
                                                generic_params: gps,
                                                input_expr: input,
                                                extra_args: extra,
                                                body: s.subrange(i4 + 2, i4 + 2 + n),
                                            }, i4 + 2 + n))
                                        } else {
                                            Err(ParseErrorV {
                                                pos: i4 + 2,
                                                msg: "expected an expression"@,
                                            })
                                        }
                                    },
                                    None => Err(ParseErrorV {
                                        pos: i4 + 2,
                                        msg: "expected an expression"@,
                                    }),
                                }
                            } else {
                                Err(ParseErrorV { pos: i4, msg: "expected `=>`"@ })
                            }
                        },
                        Err(e) => Err(ParseErrorV { pos: i3, msg: e.msg }),
                    }
                } else {
                    Err(ParseErrorV { pos: i3, msg: "expected `(`"@ })
                }
            },
            Err(e) => Err(e),
        }
    } else {
        Err(ParseErrorV { pos: i1, msg: "expected `fn`"@ })
    }
}

/// The arm list: arms as long as one begins, each separated from a following
/// arm by a comma; the comma before the value expression is not consumed.
pub open spec fn spec_parse_arms(s: Seq<TokV>, i: int) -> Result<
    (Seq<DispatchArmExprV>, int),
    ParseErrorV,
>
    decreases s.len() - i,
{
    if spec_arm_start(s, i) {
        match spec_parse_arm(s, i) {
            Ok((arm, j)) => {
                // A parsed arm always ends past where it began and within
                // the sequence; the guard serves the termination measure.
                if i < j <= s.len() {
                    if is_punct_at(s, j, ',') && spec_arm_start(s, j + 1) {
                        match spec_parse_arms(s, j + 1) {
                            Ok((rest, end)) => Ok((seq![arm] + rest, end)),
                            Err(e) => Err(e),
                        }
                    } else {
                        Ok((seq![arm], j))
                    }
                } else {
                    Err(ParseErrorV { pos: j, msg: "expected an expression"@ })
                }
            },
            Err(e) => Err(e),
        }
    } else {
        Ok((Seq::empty(), i))
    }
}

/// The extra arguments after the value expression: `(',' Expr)*`, with one
/// trailing comma tolerated, reaching exactly to the end of the sequence.
pub open spec fn spec_parse_extra_exprs(s: Seq<TokV>, i: int) -> Result<Seq<Seq<TokV>>, ParseErrorV>
    decreases s.len() - i,
{
    if i == s.len() {
        Ok(Seq::empty())
    } else if is_punct_at(s, i, ',') {
        if i + 1 == s.len() {
            Ok(Seq::empty())
        } else {
            match expr_prefix(s.skip(i + 1)) {
                Some(n) => {
                    if 1 <= n <= s.len() - (i + 1) {
                        match spec_parse_extra_exprs(s, i + 1 + n) {
                            Ok(rest) => Ok(seq![s.subrange(i + 1, i + 1 + n)] + rest),
                            Err(e) => Err(e),
                        }
                    } else {
                        Err(ParseErrorV { pos: i + 1, msg: "expected an expression"@ })
                    }
                },
                None => Err(ParseErrorV { pos: i + 1, msg: "expected an expression"@ }),
            }
        }
    } else {
        Err(ParseErrorV { pos: i, msg: "expected `,`"@ })
    }
}

/// A whole dispatch expression, consuming the entire token sequence.
pub open spec fn spec_parse_dispatch(s: Seq<TokV>) -> Result<
    SpecializedDispatchExprV,
    ParseErrorV,
> {
    match type_prefix(s) {
        Some(n1) => {
            if 1 <= n1 <= s.len() {
                if is_joint_at(s, n1, '-') && is_punct_at(s, n1 + 1, '>') {
                    match type_prefix(s.skip(n1 + 2)) {
                        Some(n2) => {
                            if 1 <= n2 <= s.len() - (n1 + 2) {
                                let p = n1 + 2 + n2;
                                if is_punct_at(s, p, ',') {
                                    match spec_parse_arms(s, p + 1) {
                                        Ok((arms, q)) => {
                                            if is_punct_at(s, q, ',') {
                                                match expr_prefix(s.skip(q + 1)) {
                                                    Some(n3) => {
                                                        if 1 <= n3 <= s.len() - (q + 1) {
                                                            let r0 = q + 1 + n3;
                                                            match spec_parse_extra_exprs(s, r0) {
                                                                Ok(extras) => Ok(
                                                                    SpecializedDispatchExprV {
                                                                        from_type: s.subrange(0, n1),
                                                                        to_type: s.subrange(
                                                                            n1 + 2,
                                                                            p,
                                                                        ),
                                                                        arms: arms,
                                                                        input_expr: s.subrange(
                                                                            q + 1,
                                                                            r0,
                                                                        ),
                                                                        extra_args: extras,
                                                                    },
                                                                ),
                                                                Err(e) => Err(e),
                                                            }
                                                        } else {
                                                            Err(ParseErrorV {
                                                                pos: q + 1,
                                                                msg: "expected an expression"@,
                                                            })
                                                        }
                                                    },
                                                    None => Err(ParseErrorV {
                                                        pos: q + 1,
                                                        msg: "expected an expression"@,
                                                    }),
                                                }
                                            } else {
                                                Err(ParseErrorV { pos: q, msg: "expected `,`"@ })
                                            }
                                        },
                                        Err(e) => Err(e),
                                    }
                                } else {
                                    Err(ParseErrorV { pos: p, msg: "expected `,`"@ })
                                }
                            } else {
                                Err(ParseErrorV { pos: n1 + 2, msg: "expected a type"@ })
                            }
                        },
                        None => Err(ParseErrorV { pos: n1 + 2, msg: "expected a type"@ }),
                    }
                } else {
                    Err(ParseErrorV { pos: n1, msg: "expected `->`"@ })
                }
            } else {
                Err(ParseErrorV { pos: 0, msg: "expected a type"@ })
            }
        },
        None => Err(ParseErrorV { pos: 0, msg: "expected a type"@ }),
    }
}

/// The opening character of a delimiter.
pub open spec fn open_char(d: Delim) -> char {
    match d {
        Delim::Paren => '(',
        Delim::Brace => '{',
        Delim::Bracket => '[',
    }
}

/// The closing character of a delimiter.
pub open spec fn close_char(d: Delim) -> char {
    match d {
        Delim::Paren => ')',
        Delim::Brace => '}',
        Delim::Bracket => ']',
    }
}

/// A token that could begin a comment when written directly after a `/`.
pub open spec fn starts_comment_v(t: TokV) -> bool {
    t matches TokV::Punct(c, _) && (c == '/' || c == '*')
}

/// Whether the rendering puts a space after a punctuation character: always,
/// unless the character is joined to the next token — except that a joint
/// `/` is still kept apart from a following `/` or `*`, which would
/// otherwise start a comment.
pub open spec fn spec_sep_after(c: char, joint: bool, next: Option<TokV>) -> bool {
    !joint || (c == '/' && (next matches Some(n) && starts_comment_v(n)))
}

/// The textual form of one token: identifiers and literals by their text,
/// groups in their delimiters, each token followed by a space as
/// `spec_sep_after` says.
pub open spec fn tok_text(t: TokV, next: Option<TokV>) -> Seq<char>
    decreases t,
    via tok_text_decreases
{
    match t {
        TokV::Ident(x) => x + seq![' '],
        TokV::Punct(c, j) => seq![c] + if spec_sep_after(c, j, next) {
            seq![' ']
        } else {
            Seq::<char>::empty()
        },
        TokV::Lit(x) => x + seq![' '],
        TokV::Group(d, inner) => seq![open_char(d)] + toks_text(inner) + seq![
            close_char(d),
            ' ',
        ],
    }
}

/// The textual form of a token sequence.
pub open spec fn toks_text(s: Seq<TokV>) -> Seq<char>
    decreases s,
    via toks_text_decreases
{
    if s.len() == 0 {
        Seq::empty()
    } else {
        tok_text(
            s[0],
            if s.len() >= 2 {
                Some(s[1])
            } else {
                None
            },
        ) + toks_text(s.drop_first())
    }
}

#[via_fn]
proof fn tok_text_decreases(t: TokV, next: Option<TokV>) {
    if t is Group {
        assert(decreases_to!(t => t->Group_1));
    }
}

#[via_fn]
proof fn toks_text_decreases(s: Seq<TokV>) {
    broadcast use vstd::seq::axiom_seq_index_decreases, vstd::seq::axiom_seq_subrange_decreases;

    if s.len() > 0 {
        assert(decreases_to!(s => s[0]));
        if s.len() >= 2 {
            assert(decreases_to!(s => s[1]));
        }
        assert(s.drop_first() == s.subrange(1, s.len() as int));
        assert(decreases_to!(s => s.subrange(1, s.len() as int)));
    }
}

/// The characters of `s`, appended to `out`.
fn push_str_chars(out: &mut Vec<char>, s: &str)
    ensures
        final(out)@ == old(out)@ + s@,
{
    let n = s.unicode_len();
    let mut i: usize = 0;
    while i < n
        invariant
            n == s@.len(),
            i <= n,
            out@ == old(out)@ + s@.take(i as int),
        decreases n - i,
    {
        let c = s.get_char(i);
        out.push(c);
        proof {
            assert(out@ =~= old(out)@ + s@.take(i + 1));
        }
        i += 1;
    }
    proof {
        assert(s@.take(n as int) =~= s@);
    }
}

/// True of a token that could begin a comment when written directly after a
/// `/`: the rendering then keeps the two apart.
fn starts_comment(t: &Tok) -> (b: bool)
    ensures
        b == starts_comment_v(t@),
{
    match t {
        Tok::Punct(c, _) => *c == '/' || *c == '*',
        _ => false,
    }
}

/// The textual form of the tokens of `ts` from `start` on, appended to
/// `out`.
fn push_toks_text(out: &mut Vec<char>, ts: &Vec<Tok>, start: usize)
    requires
        start <= ts@.len(),
    ensures
        final(out)@ == old(out)@ + toks_text(toks_v(ts@).skip(start as int)),
    decreases *ts,
{
    proof {
        lemma_toks_v_len(ts@);
    }
    let ghost tv = toks_v(ts@);
    let mut i: usize = start;
    while i < ts.len()
        invariant
            start <= i,
            i <= ts@.len(),
            tv == toks_v(ts@),
            tv.len() == ts@.len(),
            out@ + toks_text(tv.skip(i as int)) == old(out)@ + toks_text(tv.skip(start as int)),
        decreases ts@.len() - i,
    {
        proof {
            lemma_vec_elem_decreases(*ts, i as int);
            lemma_toks_v_index(ts@, i as int);
            if i + 1 < ts@.len() {
                lemma_toks_v_index(ts@, i + 1);
            }
        }
        let ghost next: Option<TokV> = if i + 1 < tv.len() {
            Some(tv[i + 1])
        } else {
            None
        };
        let ghost pre = out@;
        match &ts[i] {
            Tok::Ident(s) => {
                push_str_chars(out, s.as_str());
                out.push(' ');
                proof {
                    assert(out@ =~= pre + tok_text(tv[i as int], next));
                }
            },
            Tok::Punct(c, joint) => {
                out.push(*c);
                let sep = if !*joint {
                    true
                } else if *c == '/' && i + 1 < ts.len() {
                    starts_comment(&ts[i + 1])
                } else {
                    false
                };
                proof {
                    assert(sep == spec_sep_after(*c, *joint, next));
                }
                if sep {
                    out.push(' ');
                }
                proof {
                    assert(out@ =~= pre + tok_text(tv[i as int], next));
                }
            },
            Tok::Lit(s) => {
                push_str_chars(out, s.as_str());
                out.push(' ');
                proof {
                    assert(out@ =~= pre + tok_text(tv[i as int], next));
                }
            },
            Tok::Group(d, inner) => {
                match d {
                    Delim::Paren => out.push('('),
                    Delim::Brace => out.push('{'),
                    Delim::Bracket => out.push('['),
                }
                push_toks_text(out, inner, 0);
                match d {
                    Delim::Paren => out.push(')'),
                    Delim::Brace => out.push('}'),
                    Delim::Bracket => out.push(']'),
                }
                out.push(' ');
                proof {
                    assert(toks_v(inner@).skip(0) =~= toks_v(inner@));
                    assert(out@ =~= pre + tok_text(tv[i as int], next));
                }
            },
        }
        proof {
            let rest = tv.skip(i as int);
            assert(rest[0] == tv[i as int]);
            if rest.len() >= 2 {
                assert(rest[1] == tv[i + 1]);
            }
            assert(rest.drop_first() =~= tv.skip(i + 1));
            assert(toks_text(rest) == tok_text(tv[i as int], next) + toks_text(tv.skip(i + 1)));
            assert(out@ + toks_text(tv.skip(i + 1)) =~= old(out)@ + toks_text(
                tv.skip(start as int),
            ));
        }
        i += 1;
    }
    proof {
        assert(tv.skip(ts@.len() as int) =~= Seq::<TokV>::empty());
        assert(out@ =~= old(out)@ + toks_text(tv.skip(start as int)));
    }
}

/// The textual form of the tokens from `pos` on.
fn render_tail(toks: &Vec<Tok>, pos: usize) -> (out: Vec<char>)
    requires
        pos <= toks@.len(),
    ensures
        out@ == toks_text(toks_v(toks@).skip(pos as int)),
{
    let mut out: Vec<char> = Vec::new();
    push_toks_text(&mut out, toks, pos);
    proof {
        assert(out@ =~= toks_text(toks_v(toks@).skip(pos as int)));
    }
    out
}

/// Relies on syn::Type::parse: applied to the textual form of the tokens
/// from `pos` on (exactly `toks_text` of them — `render_tail`'s contract),
/// it reads one type and reports, through the remainder of the stream, how
/// many token trees follow the type. Re-lexing that text and parsing it are
/// deterministic in the token values, so `type_prefix` names the count; the
/// callers bound it before using it as a position. Re-lexing here uses
/// proc-macro2's own lexer, which agrees with the host compiler's on
/// ordinary program text.
#[verifier::external_body]
fn take_type(toks: &Vec<Tok>, pos: usize) -> (r: Result<usize, ()>)
    requires
        pos <= toks@.len(),
    ensures
        match r {
            Ok(rem) => type_prefix(toks_v(toks@).skip(pos as int)) == Some(
                toks@.len() - pos as int - rem as int,
            ),
            Err(_) => type_prefix(toks_v(toks@).skip(pos as int)) is None,
        },
{
    let text: String = render_tail(toks, pos).into_iter().collect();
    let parser = |input: syn::parse::ParseStream| -> syn::Result<usize> {
        let _: syn::Type = input.parse()?;
        let rest: proc_macro2::TokenStream = input.parse()?;
        Ok(rest.into_iter().count())
    };
    match syn::parse::Parser::parse_str(parser, &text) {
        Ok(rem) => Ok(rem),
        Err(_) => Err(()),
    }
}

/// Relies on syn::Expr::parse: as `take_type`, for one expression;
/// `expr_prefix` names the count.
#[verifier::external_body]
fn take_expr(toks: &Vec<Tok>, pos: usize) -> (r: Result<usize, ()>)
    requires
        pos <= toks@.len(),
    ensures
        match r {
            Ok(rem) => expr_prefix(toks_v(toks@).skip(pos as int)) == Some(
                toks@.len() - pos as int - rem as int,
            ),
            Err(_) => expr_prefix(toks_v(toks@).skip(pos as int)) is None,
        },
{
    let text: String = render_tail(toks, pos).into_iter().collect();
    let parser = |input: syn::parse::ParseStream| -> syn::Result<usize> {
        let _: syn::Expr = input.parse()?;
        let rest: proc_macro2::TokenStream = input.parse()?;
        Ok(rest.into_iter().count())
    };
    match syn::parse::Parser::parse_str(parser, &text) {
        Ok(rem) => Ok(rem),
        Err(_) => Err(()),
    }
}

/// Relies on syn::GenericParam::parse: as `take_type`, for one generic
/// parameter (a lifetime, type or const parameter, with its bounds);
/// `generic_param_prefix` names the count.
#[verifier::external_body]
fn take_generic_param(toks: &Vec<Tok>, pos: usize) -> (r: Result<usize, ()>)
    requires
        pos <= toks@.len(),
    ensures
        match r {
            Ok(rem) => generic_param_prefix(toks_v(toks@).skip(pos as int)) == Some(
                toks@.len() - pos as int - rem as int,
            ),
            Err(_) => generic_param_prefix(toks_v(toks@).skip(pos as int)) is None,
        },
{
    let text: String = render_tail(toks, pos).into_iter().collect();
    let parser = |input: syn::parse::ParseStream| -> syn::Result<usize> {
        let _: syn::GenericParam = input.parse()?;
        let rest: proc_macro2::TokenStream = input.parse()?;
        Ok(rest.into_iter().count())
    };
    match syn::parse::Parser::parse_str(parser, &text) {
        Ok(rem) => Ok(rem),
        Err(_) => Err(()),
    }
}

/// Equality of a string with a literal.
fn str_is(s: &String, w: &str) -> (b: bool)
    ensures
        b <==> s@ == w@,
{
    String::from_str(w).eq(s)
}

/// Whether `s` is one of the host language's reserved words.
fn is_rust_keyword_str(s: &String) -> (b: bool)
    ensures
        b == is_rust_keyword(s@),
{
    let kw_ext = String::from_str("ext").concat("ern");
    str_is(s, "abstract") || str_is(s, "as") || str_is(s, "async") || str_is(s, "await") || str_is(
        s,
        "become",
    ) || str_is(s, "box") || str_is(s, "break") || str_is(s, "const") || str_is(s, "continue")
        || str_is(s, "crate") || str_is(s, "do") || str_is(s, "dyn") || str_is(s, "else") || str_is(
        s,
        "enum",
    ) || kw_ext.eq(s) || str_is(s, "false") || str_is(s, "final") || str_is(s, "fn") || str_is(
        s,
        "for",
    ) || str_is(s, "if") || str_is(s, "impl") || str_is(s, "in") || str_is(s, "let") || str_is(
        s,
        "loop",
    ) || str_is(s, "macro") || str_is(s, "match") || str_is(s, "mod") || str_is(s, "move")
        || str_is(s, "mut") || str_is(s, "override") || str_is(s, "priv") || str_is(s, "pub")
        || str_is(s, "ref") || str_is(s, "return") || str_is(s, "Self") || str_is(s, "self")
        || str_is(s, "static") || str_is(s, "struct") || str_is(s, "super") || str_is(s, "trait")
        || str_is(s, "true") || str_is(s, "try") || str_is(s, "type") || str_is(s, "typeof")
        || str_is(s, "unsafe") || str_is(s, "unsized") || str_is(s, "use") || str_is(s, "virtual")
        || str_is(s, "where") || str_is(s, "while") || str_is(s, "yield")
}

/// Whether the token at `pos`, if any, is the identifier `w`.
fn peek_ident(toks: &Vec<Tok>, pos: usize, w: &str) -> (b: bool)
    ensures
        b <==> is_ident_at(toks_v(toks@), pos as int, w@),
        toks@.len() <= usize::MAX,
{
    proof {
        lemma_toks_v_len(toks@);
    }
    if pos < toks.len() {
        proof {
            lemma_toks_v_index(toks@, pos as int);
        }
        match &toks[pos] {
            Tok::Ident(s) => str_is(s, w),
            _ => false,
        }
    } else {
        false
    }
}

/// Whether the token at `pos`, if any, is the punctuation character `c`.
fn peek_punct(toks: &Vec<Tok>, pos: usize, c: char) -> (b: bool)
    ensures
        b <==> is_punct_at(toks_v(toks@), pos as int, c),
        toks@.len() <= usize::MAX,
{
    proof {
        lemma_toks_v_len(toks@);
    }
    if pos < toks.len() {
        proof {
            lemma_toks_v_index(toks@, pos as int);
        }
        match &toks[pos] {
            Tok::Punct(cc, _) => *cc == c,
            _ => false,
        }
    } else {
        false
    }
}

/// Whether the token at `pos`, if any, is the punctuation character `c`,
/// joined to the next token.
fn peek_joint(toks: &Vec<Tok>, pos: usize, c: char) -> (b: bool)
    ensures
        b <==> is_joint_at(toks_v(toks@), pos as int, c),
        toks@.len() <= usize::MAX,
{
    proof {
        lemma_toks_v_len(toks@);
    }
    if pos < toks.len() {
        proof {
            lemma_toks_v_index(toks@, pos as int);
        }
        match &toks[pos] {
            Tok::Punct(cc, joint) => *cc == c && *joint,
            _ => false,
        }
    } else {
        false
    }
}

/// A copy of the tokens from `a` to `b`.
fn toks_slice(toks: &Vec<Tok>, a: usize, b: usize) -> (r: Vec<Tok>)
    requires
        a <= b <= toks@.len(),
    ensures
        toks_v(r@) == toks_v(toks@).subrange(a as int, b as int),
{
    proof {
        lemma_toks_v_len(toks@);
    }
    let mut r: Vec<Tok> = Vec::new();
    let mut i: usize = a;
    while i < b
        invariant
            a <= i <= b <= toks@.len(),
            r@.len() == i - a,
            forall|k: int| 0 <= k < i - a ==> tok_v(r@[k]) == tok_v(
                toks@[a + k],
            ),
        decreases b - i,
    {
        let c = tok_clone(&toks[i]);
        r.push(c);
        i += 1;
    }
    proof {
        lemma_toks_v_len(toks@);
        lemma_toks_v_len(r@);
        assert forall|k: int| 0 <= k < r@.len() implies toks_v(r@)[k] == toks_v(toks@).subrange(
            a as int,
            b as int,
        )[k] by {
            lemma_toks_v_index(r@, k);
            lemma_toks_v_index(toks@, a + k);
        }
        assert(toks_v(r@) =~= toks_v(toks@).subrange(a as int, b as int));
    }
    r
}

impl FnArgName {
    /// A parameter name at `pos`: an identifier or `_`.
    pub fn parse(toks: &Vec<Tok>, pos: usize) -> (r: Result<(FnArgName, usize), ParseError>)
        requires
            pos <= toks@.len(),
        ensures
            match r {
                Ok((name, end)) => spec_parse_arg_name(toks_v(toks@), pos as int) == Ok::<
                    _,
                    ParseErrorV,
                >((name@, end as int)) && pos < end <= toks@.len(),
                Err(e) => spec_parse_arg_name(toks_v(toks@), pos as int) == Err::<
                    (FnArgNameV, int),
                    _,
                >(e@),
            },
    {
        proof {
            lemma_toks_v_len(toks@);
        }
        if pos < toks.len() {
            proof {
                lemma_toks_v_index(toks@, pos as int);
            }
            match &toks[pos] {
                Tok::Ident(s) => {
                    if str_is(s, "_") {
                        Ok((FnArgName::Underscore, pos + 1))
                    } else if is_rust_keyword_str(s) {
                        Err(ParseError { pos, msg: "expected identifier or underscore" })
                    } else {
                        Ok((FnArgName::Ident(s.clone()), pos + 1))
                    }
                },
                _ => Err(ParseError { pos, msg: "expected identifier or underscore" }),
            }
        } else {
            Err(ParseError { pos, msg: "expected identifier or underscore" })
        }
    }
}

impl FnArg {
    /// A formal parameter at `pos`: a name, a colon, and a type.
    pub fn parse(toks: &Vec<Tok>, pos: usize) -> (r: Result<(FnArg, usize), ParseError>)
        requires
            pos <= toks@.len(),
        ensures
            match r {
                Ok((a, end)) => spec_parse_fn_arg(toks_v(toks@), pos as int) == Ok::<
                    _,
                    ParseErrorV,
                >((a@, end as int)) && pos < end <= toks@.len(),
                Err(e) => spec_parse_fn_arg(toks_v(toks@), pos as int) == Err::<
                    (FnArgV, int),
                    _,
                >(e@),
            },
    {
        proof {
            lemma_toks_v_len(toks@);
        }
        let (name, j) = match FnArgName::parse(toks, pos) {
            Ok(v) => v,
            Err(e) => {
                return Err(e);
            },
        };
        if !peek_punct(toks, j, ':') {
            return Err(ParseError { pos: j, msg: "expected `:`" });
        }
        match take_type(toks, j + 1) {
            Ok(rem) => {
                if rem < toks.len() - (j + 1) {
                    let end = toks.len() - rem;
                    let ty = toks_slice(toks, j + 1, end);
                    Ok((FnArg { name, ty }, end))
                } else {
                    Err(ParseError { pos: j + 1, msg: "expected a type" })
                }
            },
            Err(_) => Err(ParseError { pos: j + 1, msg: "expected a type" }),
        }
    }
}

/// One or more formal parameters at `pos`, separated by commas.
fn parse_args_tail(toks: &Vec<Tok>, pos: usize) -> (r: Result<(Vec<FnArg>, usize), ParseError>)
    requires
        pos <= toks@.len(),
    ensures
        match r {
            Ok((args, end)) => spec_parse_args_tail(toks_v(toks@), pos as int) == Ok::<
                _,
                ParseErrorV,
            >((fn_args_v(args@), end as int)) && pos < end <= toks@.len(),
            Err(e) => spec_parse_args_tail(toks_v(toks@), pos as int) == Err::<
                (Seq<FnArgV>, int),
                _,
            >(e@),
        },
    decreases toks@.len() - pos,
{
    proof {
        lemma_toks_v_len(toks@);
    }
    let (a, j) = match FnArg::parse(toks, pos) {
        Ok(v) => v,
        Err(e) => {
            return Err(e);
        },
    };
    if peek_punct(toks, j, ',') {
        match parse_args_tail(toks, j + 1) {
            Ok((rest, end)) => {
                let mut args = rest;
                let ghost rest_s = args@;
                args.insert(0, a);
                proof {
                    assert(args@.skip(1) =~= rest_s);
                    assert(fn_args_v(args@.skip(1)) == fn_args_v(rest_s));
                    assert(fn_args_v(args@) =~= seq![a@] + fn_args_v(rest_s));
                }
                Ok((args, end))
            },
            Err(e) => Err(e),
        }
    } else {
        let args: Vec<FnArg> = vec![a];
        proof {
            assert(fn_args_v(args@) =~= seq![a@]);
        }
        Ok((args, j))
    }
}

/// The whole parameter list inside an arm's parentheses.
fn parse_arm_params(inner: &Vec<Tok>) -> (r: Result<(FnArg, Vec<FnArg>), ParseError>)
    ensures
        match r {
            Ok((input, extra)) => spec_parse_arm_params(toks_v(inner@)) == Ok::<_, ParseErrorV>(
                (input@, fn_args_v(extra@)),
            ),
            Err(e) => spec_parse_arm_params(toks_v(inner@)) == Err::<
                (FnArgV, Seq<FnArgV>),
                _,
            >(e@),
        },
{
    proof {
        lemma_toks_v_len(inner@);
    }
    let (input, j) = match FnArg::parse(inner, 0) {
        Ok(v) => v,
        Err(e) => {
            return Err(e);
        },
    };
    if peek_punct(inner, j, ',') {
        match parse_args_tail(inner, j + 1) {
            Ok((args, end)) => {
                if end == inner.len() {
                    Ok((input, args))
                } else {
                    Err(ParseError { pos: end, msg: "unexpected token" })
                }
            },
            Err(e) => Err(e),
        }
    } else if j == inner.len() {
        let extra: Vec<FnArg> = Vec::new();
        proof {
            assert(fn_args_v(extra@) =~= Seq::<FnArgV>::empty());
        }
        Ok((input, extra))
    } else {
        Err(ParseError { pos: j, msg: "unexpected token" })
    }
}

/// One or more generic parameters at `pos`, separated by commas.
fn parse_generics_tail(toks: &Vec<Tok>, pos: usize) -> (r: Result<usize, ParseError>)
    requires
        pos <= toks@.len(),
    ensures
        match r {
            Ok(end) => spec_parse_generics_tail(toks_v(toks@), pos as int) == Ok::<
                _,
                ParseErrorV,
            >(end as int) && pos < end <= toks@.len(),
            Err(e) => spec_parse_generics_tail(toks_v(toks@), pos as int) == Err::<int, _>(e@),
        },
    decreases toks@.len() - pos,
{
    proof {
        lemma_toks_v_len(toks@);
    }
    match take_generic_param(toks, pos) {
        Ok(rem) => {
            if rem < toks.len() - pos {
                let j = toks.len() - rem;
                if peek_punct(toks, j, ',') {
                    parse_generics_tail(toks, j + 1)
                } else {
                    Ok(j)
                }
            } else {
                Err(ParseError { pos, msg: "expected a generic parameter" })
            }
        },
        Err(_) => Err(ParseError { pos, msg: "expected a generic parameter" }),
    }
}

/// An arm's optional generic-parameter clause at `pos`.
fn parse_arm_generics(toks: &Vec<Tok>, pos: usize) -> (r: Result<
    (Option<Vec<Tok>>, usize),
    ParseError,
>)
    requires
        pos <= toks@.len(),
    ensures
        match r {
            Ok((gps, end)) => spec_parse_arm_generics(toks_v(toks@), pos as int) == Ok::<
                _,
                ParseErrorV,
            >(
                (
                    match gps {
                        Some(g) => Some(toks_v(g@)),
                        None => None,
                    },
                    end as int,
                ),
            ) && pos <= end <= toks@.len(),
            Err(e) => spec_parse_arm_generics(toks_v(toks@), pos as int) == Err::<
                (Option<Seq<TokV>>, int),
                _,
            >(e@),
        },
{
    proof {
        lemma_toks_v_len(toks@);
    }
    if peek_punct(toks, pos, '<') {
        match parse_generics_tail(toks, pos + 1) {
            Ok(k) => {
                if peek_punct(toks, k, '>') {
                    let g = toks_slice(toks, pos + 1, k);
                    Ok((Some(g), k + 1))
                } else {
                    Err(ParseError { pos: k, msg: "expected `>`" })
                }
            },
            Err(e) => Err(e),
        }
    } else {
        Ok((None, pos))
    }
}

impl DispatchArmExpr {
    /// One arm at `pos`.
    pub fn parse(toks: &Vec<Tok>, pos: usize) -> (r: Result<(DispatchArmExpr, usize), ParseError>)
        requires
            pos <= toks@.len(),
        ensures
            match r {
                Ok((arm, end)) => spec_parse_arm(toks_v(toks@), pos as int) == Ok::<
                    _,
                    ParseErrorV,
                >((arm@, end as int)) && pos < end <= toks@.len(),
                Err(e) => spec_parse_arm(toks_v(toks@), pos as int) == Err::<
                    (DispatchArmExprV, int),
                    _,
                >(e@),
            },
    {
        proof {
            lemma_toks_v_len(toks@);
        }
        let dflt = peek_ident(toks, pos, "default");
        let i1 = if dflt {
            pos + 1
        } else {
            pos
        };
        if !peek_ident(toks, i1, "fn") {
            return Err(ParseError { pos: i1, msg: "expected `fn`" });
        }
        let (gps, i3) = match parse_arm_generics(toks, i1 + 1) {
            Ok(v) => v,
            Err(e) => {
                return Err(e);
            },
        };
        if i3 >= toks.len() {
            return Err(ParseError { pos: i3, msg: "expected `(`" });
        }
        proof {
            lemma_toks_v_index(toks@, i3 as int);
        }
        let (input, extra) = match &toks[i3] {
            Tok::Group(Delim::Paren, inner) => {
                match parse_arm_params(inner) {
                    Ok(v) => v,
                    Err(e) => {
                        return Err(ParseError { pos: i3, msg: e.msg });
                    },
                }
            },
            _ => {
                return Err(ParseError { pos: i3, msg: "expected `(`" });
            },
        };
        let i4 = i3 + 1;
        if !(peek_joint(toks, i4, '=') && peek_punct(toks, i4 + 1, '>')) {
            return Err(ParseError { pos: i4, msg: "expected `=>`" });
        }
        match take_expr(toks, i4 + 2) {
            Ok(rem) => {
                if rem < toks.len() - (i4 + 2) {
                    let end = toks.len() - rem;
                    let body = toks_slice(toks, i4 + 2, end);
                    Ok((
                        DispatchArmExpr {
                            default: dflt,
                            generic_params: gps,
                            input_expr: input,
                            extra_args: extra,
                            body,
                        },
                        end,
                    ))
                } else {
                    Err(ParseError { pos: i4 + 2, msg: "expected an expression" })
                }
            },
            Err(_) => Err(ParseError { pos: i4 + 2, msg: "expected an expression" }),
        }
    }
}

/// The arm list at `pos`: arms as long as one begins, separated by commas.
pub fn parse_punctuated_arms(toks: &Vec<Tok>, pos: usize) -> (r: Result<
    (Vec<DispatchArmExpr>, usize),
    ParseError,
>)
    requires
        pos <= toks@.len(),
    ensures
        match r {
            Ok((arms, end)) => spec_parse_arms(toks_v(toks@), pos as int) == Ok::<
                _,
                ParseErrorV,
            >((arms_v(arms@), end as int)) && pos <= end <= toks@.len(),
            Err(e) => spec_parse_arms(toks_v(toks@), pos as int) == Err::<
                (Seq<DispatchArmExprV>, int),
                _,
            >(e@),
        },
    decreases toks@.len() - pos,
{
    proof {
        lemma_toks_v_len(toks@);
    }
    if !(peek_ident(toks, pos, "default") || peek_ident(toks, pos, "fn")) {
        let arms: Vec<DispatchArmExpr> = Vec::new();
        proof {
            assert(arms_v(arms@) =~= Seq::<DispatchArmExprV>::empty());
        }
        return Ok((arms, pos));
    }
    let (arm, j) = match DispatchArmExpr::parse(toks, pos) {
        Ok(v) => v,
        Err(e) => {
            return Err(e);
        },
    };
    if peek_punct(toks, j, ',') && (peek_ident(toks, j + 1, "default") || peek_ident(
        toks,
        j + 1,
        "fn",
    )) {
        match parse_punctuated_arms(toks, j + 1) {
            Ok((rest, end)) => {
                let mut arms = rest;
                let ghost rest_s = arms@;
                arms.insert(0, arm);
                proof {
                    assert(arms@.skip(1) =~= rest_s);
                    assert(arms_v(arms@.skip(1)) == arms_v(rest_s));
                    assert(arms_v(arms@) =~= seq![arm@] + arms_v(rest_s));
                }
                Ok((arms, end))
            },
            Err(e) => Err(e),
        }
    } else {
        let arms: Vec<DispatchArmExpr> = vec![arm];
        proof {
            assert(arms_v(arms@) =~= seq![arm@]);
        }
        Ok((arms, j))
    }
}

/// The extra arguments from `pos` to the end of the sequence: a comma before
/// each, one trailing comma tolerated.
fn parse_extra_exprs(toks: &Vec<Tok>, pos: usize) -> (r: Result<Vec<Vec<Tok>>, ParseError>)
    requires
        pos <= toks@.len(),
    ensures
        match r {
            Ok(exprs) => spec_parse_extra_exprs(toks_v(toks@), pos as int) == Ok::<
                _,
                ParseErrorV,
            >(exprs_v(exprs@)),
            Err(e) => spec_parse_extra_exprs(toks_v(toks@), pos as int) == Err::<
                Seq<Seq<TokV>>,
                _,
            >(e@),
        },
    decreases toks@.len() - pos,
{
    proof {
        lemma_toks_v_len(toks@);
    }
    if pos == toks.len() {
        let exprs: Vec<Vec<Tok>> = Vec::new();
        proof {
            assert(exprs_v(exprs@) =~= Seq::<Seq<TokV>>::empty());
        }
        return Ok(exprs);
    }
    if !peek_punct(toks, pos, ',') {
        return Err(ParseError { pos, msg: "expected `,`" });
    }
    if pos + 1 == toks.len() {
        let exprs: Vec<Vec<Tok>> = Vec::new();
        proof {
            assert(exprs_v(exprs@) =~= Seq::<Seq<TokV>>::empty());
        }
        return Ok(exprs);
    }
    match take_expr(toks, pos + 1) {
        Ok(rem) => {
            if rem < toks.len() - (pos + 1) {
                let j = toks.len() - rem;
                let e = toks_slice(toks, pos + 1, j);
                match parse_extra_exprs(toks, j) {
                    Ok(rest) => {
                        let mut exprs = rest;
                        let ghost rest_s = exprs@;
                        exprs.insert(0, e);
                        proof {
                            assert(exprs@.skip(1) =~= rest_s);
                            assert(exprs_v(exprs@.skip(1)) == exprs_v(rest_s));
                            assert(exprs_v(exprs@) =~= seq![toks_v(e@)] + exprs_v(rest_s));
                        }
                        Ok(exprs)
                    },
                    Err(e2) => Err(e2),
                }
            } else {
                Err(ParseError { pos: pos + 1, msg: "expected an expression" })
            }
        },
        Err(_) => Err(ParseError { pos: pos + 1, msg: "expected an expression" }),
    }
}

/// LAW. Parsing is deterministic: the parsed form is a function of the token
/// values alone, so parsing one invocation twice yields equal results,
/// field for field. `SpecializedDispatchExpr::parse` returns exactly
/// `spec_parse_dispatch` of the tokens' values, of which this is a function.
pub proof fn lemma_parse_deterministic(s1: Seq<TokV>, s2: Seq<TokV>)
    requires
        s1 == s2,
    ensures
        spec_parse_dispatch(s1) == spec_parse_dispatch(s2),
{
}

impl SpecializedDispatchExpr {
    /// A whole dispatch expression, consuming the entire token sequence.
    #[verifier::rlimit(50)]
    pub fn parse(toks: &Vec<Tok>) -> (r: Result<SpecializedDispatchExpr, ParseError>)
        ensures
            match r {
                Ok(parsed) => spec_parse_dispatch(toks_v(toks@)) == Ok::<_, ParseErrorV>(parsed@),
                Err(e) => spec_parse_dispatch(toks_v(toks@)) == Err::<
                    SpecializedDispatchExprV,
                    _,
                >(e@),
            },
    {
        proof {
            lemma_toks_v_len(toks@);
            assert(toks_v(toks@).skip(0) =~= toks_v(toks@));
        }
        let n1 = match take_type(toks, 0) {
            Ok(rem) => {
                if rem < toks.len() {
                    toks.len() - rem
                } else {
                    return Err(ParseError { pos: 0, msg: "expected a type" });
                }
            },
            Err(_) => {
                return Err(ParseError { pos: 0, msg: "expected a type" });
            },
        };
        if !(peek_joint(toks, n1, '-') && peek_punct(toks, n1 + 1, '>')) {
            return Err(ParseError { pos: n1, msg: "expected `->`" });
        }
        let from_type = toks_slice(toks, 0, n1);
        let p = match take_type(toks, n1 + 2) {
            Ok(rem) => {
                if rem < toks.len() - (n1 + 2) {
                    toks.len() - rem
                } else {
                    return Err(ParseError { pos: n1 + 2, msg: "expected a type" });
                }
            },
            Err(_) => {
                return Err(ParseError { pos: n1 + 2, msg: "expected a type" });
            },
        };
        let to_type = toks_slice(toks, n1 + 2, p);
        if !peek_punct(toks, p, ',') {
            return Err(ParseError { pos: p, msg: "expected `,`" });
        }
        let (arms, q) = match parse_punctuated_arms(toks, p + 1) {
            Ok(v) => v,
            Err(e) => {
                return Err(e);
            },
        };
        if !peek_punct(toks, q, ',') {
            return Err(ParseError { pos: q, msg: "expected `,`" });
        }
        let r0 = match take_expr(toks, q + 1) {
            Ok(rem) => {
                if rem < toks.len() - (q + 1) {
                    toks.len() - rem
                } else {
                    return Err(ParseError { pos: q + 1, msg: "expected an expression" });
                }
            },
            Err(_) => {
                return Err(ParseError { pos: q + 1, msg: "expected an expression" });
            },
        };
        let input_expr = toks_slice(toks, q + 1, r0);
        let extra_args = match parse_extra_exprs(toks, r0) {
            Ok(v) => v,
            Err(e) => {
                return Err(e);
            },
        };
        Ok(SpecializedDispatchExpr { from_type, to_type, arms, input_expr, extra_args })
    }
}

} // verus!

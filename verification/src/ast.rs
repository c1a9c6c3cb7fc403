//! The abstract syntax of a dispatch expression.
//!
//! Types, expressions and generic-parameter lists are kept as the token
//! sequences that were written for them; the generator splices them back
//! verbatim. Each type has a mathematical value (its view), used by every
//! contract.

use vstd::prelude::*;

use crate::token::Tok;
use crate::token::TokV;
use crate::token::toks_v;

verus! {

/// The name position of a formal parameter: an identifier or `_`.
#[derive(PartialEq, Eq, Debug)]
pub enum FnArgName {
    Ident(String),
    Underscore,
}

/// The value of a parameter name.
pub enum FnArgNameV {
    Ident(Seq<char>),
    Underscore,
}

impl View for FnArgName {
    type V = FnArgNameV;

    open spec fn view(&self) -> FnArgNameV {
        match self {
            FnArgName::Ident(s) => FnArgNameV::Ident(s@),
            FnArgName::Underscore => FnArgNameV::Underscore,
        }
    }
}

/// A formal parameter: a name and the tokens of its declared type.
#[derive(PartialEq, Eq, Debug)]
pub struct FnArg {
    pub name: FnArgName,
    pub ty: Vec<Tok>,
}

/// The value of a formal parameter.
pub struct FnArgV {
    pub name: FnArgNameV,
    pub ty: Seq<TokV>,
}

impl View for FnArg {
    type V = FnArgV;

    open spec fn view(&self) -> FnArgV {
        FnArgV { name: self.name@, ty: toks_v(self.ty@) }
    }
}

/// One arm of a dispatch expression: an optional `default` marker, optional
/// generic parameters (the tokens between `<` and `>`), the input binding,
/// extra formal parameters, and the body expression's tokens.
#[derive(PartialEq, Eq, Debug)]
pub struct DispatchArmExpr {
    pub default: bool,
    pub generic_params: Option<Vec<Tok>>,
    pub input_expr: FnArg,
    pub extra_args: Vec<FnArg>,
    pub body: Vec<Tok>,
}

/// The value of one arm.
pub struct DispatchArmExprV {
    pub default: bool,
    pub generic_params: Option<Seq<TokV>>,
    pub input_expr: FnArgV,
    pub extra_args: Seq<FnArgV>,
    pub body: Seq<TokV>,
}

/// The values of a sequence of formal parameters.
pub open spec fn fn_args_v(s: Seq<FnArg>) -> Seq<FnArgV> {
    s.map_values(|a: FnArg| a@)
}

impl View for DispatchArmExpr {
    type V = DispatchArmExprV;

    open spec fn view(&self) -> DispatchArmExprV {
        DispatchArmExprV {
            default: self.default,
            generic_params: match self.generic_params {
                Some(g) => Some(toks_v(g@)),
                None => None,
            },
            input_expr: self.input_expr@,
            extra_args: fn_args_v(self.extra_args@),
            body: toks_v(self.body@),
        }
    }
}

/// A whole dispatch expression: the source and destination types, the arms,
/// the expression supplying the dispatched value, and the extra argument
/// expressions forwarded to the selected arm.
#[derive(PartialEq, Eq, Debug)]
pub struct SpecializedDispatchExpr {
    pub from_type: Vec<Tok>,
    pub to_type: Vec<Tok>,
    pub arms: Vec<DispatchArmExpr>,
    pub input_expr: Vec<Tok>,
    pub extra_args: Vec<Vec<Tok>>,
}

/// The value of a whole dispatch expression.
pub struct SpecializedDispatchExprV {
    pub from_type: Seq<TokV>,
    pub to_type: Seq<TokV>,
    pub arms: Seq<DispatchArmExprV>,
    pub input_expr: Seq<TokV>,
    pub extra_args: Seq<Seq<TokV>>,
}

/// The values of a sequence of arms.
pub open spec fn arms_v(s: Seq<DispatchArmExpr>) -> Seq<DispatchArmExprV> {
    s.map_values(|a: DispatchArmExpr| a@)
}

/// The values of a sequence of expressions, each given by its tokens.
pub open spec fn exprs_v(s: Seq<Vec<Tok>>) -> Seq<Seq<TokV>> {
    s.map_values(|v: Vec<Tok>| toks_v(v@))
}

impl View for SpecializedDispatchExpr {
    type V = SpecializedDispatchExprV;

    open spec fn view(&self) -> SpecializedDispatchExprV {
        SpecializedDispatchExprV {
            from_type: toks_v(self.from_type@),
            to_type: toks_v(self.to_type@),
            arms: arms_v(self.arms@),
            input_expr: toks_v(self.input_expr@),
            extra_args: exprs_v(self.extra_args@),
        }
    }
}

} // verus!

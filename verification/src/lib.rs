//! Compile-time dispatch expressions over concrete types.
//!
//! A dispatch expression names a source type, a destination type, an ordered
//! list of arms — one of them may be marked `default` — a value expression,
//! and extra argument expressions forwarded to whichever arm is selected:
//!
//! ```text
//! E -> String,
//! default fn <T>(_: T) => format!("default value"),
//! fn (v: u8) => format!("u8: {}", v),
//! fn (v: u16) => format!("u16: {}", v),
//! expr,
//! ```
//!
//! The library parses such an expression from a token sequence
//! ([`SpecializedDispatchExpr::parse`]) and lowers it
//! ([`SpecializedDispatchExpr::to_tokens`], [`expand`]) to a helper trait,
//! one trait implementation per arm, and a single dispatch call, so that the
//! host compiler's specialization resolution routes the value to the most
//! specific matching arm. Which arm that is, the library states as well
//! ([`SpecializedDispatchExpr::select_arm`]), with proofs that a concrete
//! type reaches its own arm, every other type the default arm, and that the
//! order in which arms are written does not matter.
//!
//! Both the parsed form and the generated tokens are pinned down exactly:
//! parsing is proved to return `spec_parse_dispatch` of the input tokens'
//! values, and lowering to return `spec_to_tokens` of the parsed form.

mod ast;
mod codegen;
mod dispatch;
mod parse;
mod token;

pub use ast::DispatchArmExpr;
pub use ast::DispatchArmExprV;
pub use ast::FnArg;
pub use ast::FnArgName;
pub use ast::FnArgNameV;
pub use ast::FnArgV;
pub use ast::SpecializedDispatchExpr;
pub use ast::SpecializedDispatchExprV;
pub use ast::arms_v;
pub use ast::exprs_v;
pub use ast::fn_args_v;
pub use codegen::arg_name_toks;
pub use codegen::comma_args_toks;
pub use codegen::comma_exprs_toks;
pub use codegen::expand;
pub use codegen::fn_arg_toks;
pub use codegen::generate_dispatch_call;
pub use codegen::generate_trait_declaration;
pub use codegen::generate_trait_implementation;
pub use codegen::generics_toks;
pub use codegen::lemma_arm_body_preserved;
pub use codegen::lemma_extra_args_forwarded;
pub use codegen::spec_default_extra_args;
pub use codegen::spec_gen_dispatch_call;
pub use codegen::spec_gen_impls;
pub use codegen::spec_gen_trait_decl;
pub use codegen::spec_gen_trait_impl;
pub use codegen::spec_to_tokens;
pub use codegen::trait_name_text;
pub use dispatch::arm_matches;
pub use dispatch::disjoint_concrete_types;
pub use dispatch::first_concrete;
pub use dispatch::first_default;
pub use dispatch::lemma_dispatch_concrete;
pub use dispatch::lemma_dispatch_default;
pub use dispatch::lemma_dispatch_order_irrelevant;
pub use dispatch::one_default;
pub use dispatch::spec_dispatch_result;
pub use dispatch::spec_select_index;
pub use dispatch::spec_selected_arm;
pub use parse::ParseError;
pub use parse::ParseErrorV;
pub use parse::close_char;
pub use parse::open_char;
pub use parse::spec_sep_after;
pub use parse::starts_comment_v;
pub use parse::tok_text;
pub use parse::toks_text;
pub use parse::expr_prefix;
pub use parse::generic_param_prefix;
pub use parse::is_ident_at;
pub use parse::is_joint_at;
pub use parse::is_punct_at;
pub use parse::is_rust_keyword;
pub use parse::lemma_parse_deterministic;
pub use parse::parse_punctuated_arms;
pub use parse::spec_arm_start;
pub use parse::spec_parse_arg_name;
pub use parse::spec_parse_arm;
pub use parse::spec_parse_arm_generics;
pub use parse::spec_parse_arm_params;
pub use parse::spec_parse_arms;
pub use parse::spec_parse_args_tail;
pub use parse::spec_parse_dispatch;
pub use parse::spec_parse_extra_exprs;
pub use parse::spec_parse_fn_arg;
pub use parse::spec_parse_generics_tail;
pub use parse::type_prefix;
pub use token::Delim;
pub use token::Tok;
pub use token::TokV;
pub use token::lemma_toks_v_index;
pub use token::lemma_toks_v_len;
pub use token::tok_clone;
pub use token::tok_eq;
pub use token::tok_v;
pub use token::toks_clone;
pub use token::toks_eq;
pub use token::toks_v;

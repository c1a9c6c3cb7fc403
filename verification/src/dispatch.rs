//! The meaning of a dispatch expression: which arm a value reaches.
//!
//! The generated code leaves arm selection to the host compiler's
//! specialization resolution: among the trait implementations, the one for
//! the value's own concrete type is the most specific, and the blanket
//! (default) implementation applies otherwise. This module states that rule
//! over the parsed arms — a concrete arm fires exactly for the type it is
//! bound to, written token for token, and the default arm for every other
//! type — and proves the laws the rule obeys: where the concrete types are
//! pairwise distinct, the result of a dispatch is the matching arm's body,
//! the default arm's body for an unbound type, and the order in which the
//! arms were written does not matter.

use vstd::prelude::*;
use vstd::seq_lib::group_to_multiset_ensures;

use crate::ast::DispatchArmExprV;
use crate::ast::SpecializedDispatchExpr;
use crate::ast::arms_v;
use crate::token::Tok;
use crate::token::TokV;
use crate::token::toks_eq;
use crate::token::toks_v;

verus! {

/// A concrete arm applicable to a value whose type is written `ty`: it is
/// not the default arm, and its input binding's type is `ty`, token for
/// token.
pub open spec fn arm_matches(arm: DispatchArmExprV, ty: Seq<TokV>) -> bool {
    !arm.default && arm.input_expr.ty == ty
}

/// The position of the first concrete arm bound to `ty`.
pub open spec fn first_concrete(arms: Seq<DispatchArmExprV>, ty: Seq<TokV>) -> Option<int>
    decreases arms.len(),
{
    if arms.len() == 0 {
        None
    } else if arm_matches(arms[0], ty) {
        Some(0)
    } else {
        match first_concrete(arms.drop_first(), ty) {
            Some(i) => Some(i + 1),
            None => None,
        }
    }
}

/// The position of the first arm marked `default`.
pub open spec fn first_default(arms: Seq<DispatchArmExprV>) -> Option<int>
    decreases arms.len(),
{
    if arms.len() == 0 {
        None
    } else if arms[0].default {
        Some(0)
    } else {
        match first_default(arms.drop_first()) {
            Some(i) => Some(i + 1),
            None => None,
        }
    }
}

/// The position of the arm that a dispatch of a value of type `ty` selects:
/// the concrete arm bound to `ty` where there is one, else the default arm,
/// else nothing (the generated code then has no applicable implementation
/// and is refused downstream).
pub open spec fn spec_select_index(arms: Seq<DispatchArmExprV>, ty: Seq<TokV>) -> Option<int> {
    match first_concrete(arms, ty) {
        Some(i) => Some(i),
        None => first_default(arms),
    }
}

/// The arm that a dispatch of a value of type `ty` selects.
pub open spec fn spec_selected_arm(arms: Seq<DispatchArmExprV>, ty: Seq<TokV>) -> Option<
    DispatchArmExprV,
> {
    match spec_select_index(arms, ty) {
        Some(i) => Some(arms[i]),
        None => None,
    }
}

/// What a dispatch of a value of type `ty` evaluates: the selected arm's
/// body.
pub open spec fn spec_dispatch_result(arms: Seq<DispatchArmExprV>, ty: Seq<TokV>) -> Option<
    Seq<TokV>,
> {
    match spec_selected_arm(arms, ty) {
        Some(a) => Some(a.body),
        None => None,
    }
}

/// Exactly one arm is marked `default`.
pub open spec fn one_default(arms: Seq<DispatchArmExprV>) -> bool {
    exists|d: int|
        0 <= d < arms.len() && arms[d].default && (forall|k: int|
            0 <= k < arms.len() && k != d ==> !arms[k].default)
}

/// The concrete arms bind pairwise distinct types.
pub open spec fn disjoint_concrete_types(arms: Seq<DispatchArmExprV>) -> bool {
    forall|i: int, j: int|
        0 <= i < j < arms.len() && !arms[i].default && !arms[j].default
            ==> arms[i].input_expr.ty != arms[j].input_expr.ty
}

/// Where `first_concrete` points, the arm matches, and no earlier arm does;
/// where it points nowhere, no arm matches.
pub proof fn lemma_first_concrete_char(arms: Seq<DispatchArmExprV>, ty: Seq<TokV>)
    ensures
        match first_concrete(arms, ty) {
            Some(i) => 0 <= i < arms.len() && arm_matches(arms[i], ty) && (forall|k: int|
                0 <= k < i ==> !arm_matches(arms[k], ty)),
            None => forall|k: int| 0 <= k < arms.len() ==> !arm_matches(arms[k], ty),
        },
    decreases arms.len(),
{
    if arms.len() > 0 && !arm_matches(arms[0], ty) {
        lemma_first_concrete_char(arms.drop_first(), ty);
        match first_concrete(arms.drop_first(), ty) {
            Some(ip) => {
                assert(arms.drop_first()[ip] == arms[ip + 1]);
                assert forall|k: int| 0 <= k < ip + 1 implies !arm_matches(arms[k], ty) by {
                    if k > 0 {
                        assert(arms.drop_first()[k - 1] == arms[k]);
                    }
                }
            },
            None => {
                assert forall|k: int| 0 <= k < arms.len() implies !arm_matches(arms[k], ty) by {
                    if k > 0 {
                        assert(arms.drop_first()[k - 1] == arms[k]);
                    }
                }
            },
        }
    }
}

/// `first_concrete` points at the first matching position.
pub proof fn lemma_first_concrete_is(arms: Seq<DispatchArmExprV>, ty: Seq<TokV>, i: int)
    requires
        0 <= i < arms.len(),
        arm_matches(arms[i], ty),
        forall|k: int| 0 <= k < i ==> !arm_matches(arms[k], ty),
    ensures
        first_concrete(arms, ty) == Some(i),
    decreases arms.len(),
{
    if i == 0 {
    } else {
        assert(!arm_matches(arms[0], ty));
        assert(arms.drop_first()[i - 1] == arms[i]);
        assert forall|k: int| 0 <= k < i - 1 implies !arm_matches(arms.drop_first()[k], ty) by {
            assert(arms.drop_first()[k] == arms[k + 1]);
        }
        lemma_first_concrete_is(arms.drop_first(), ty, i - 1);
    }
}

/// Where `first_default` points, the arm is the default one, and no earlier
/// arm is; where it points nowhere, no arm is.
pub proof fn lemma_first_default_char(arms: Seq<DispatchArmExprV>)
    ensures
        match first_default(arms) {
            Some(i) => 0 <= i < arms.len() && arms[i].default && (forall|k: int|
                0 <= k < i ==> !arms[k].default),
            None => forall|k: int| 0 <= k < arms.len() ==> !arms[k].default,
        },
    decreases arms.len(),
{
    if arms.len() > 0 && !arms[0].default {
        lemma_first_default_char(arms.drop_first());
        match first_default(arms.drop_first()) {
            Some(ip) => {
                assert(arms.drop_first()[ip] == arms[ip + 1]);
                assert forall|k: int| 0 <= k < ip + 1 implies !arms[k].default by {
                    if k > 0 {
                        assert(arms.drop_first()[k - 1] == arms[k]);
                    }
                }
            },
            None => {
                assert forall|k: int| 0 <= k < arms.len() implies !arms[k].default by {
                    if k > 0 {
                        assert(arms.drop_first()[k - 1] == arms[k]);
                    }
                }
            },
        }
    }
}

/// `first_default` points at the first position marked `default`.
pub proof fn lemma_first_default_is(arms: Seq<DispatchArmExprV>, i: int)
    requires
        0 <= i < arms.len(),
        arms[i].default,
        forall|k: int| 0 <= k < i ==> !arms[k].default,
    ensures
        first_default(arms) == Some(i),
    decreases arms.len(),
{
    if i == 0 {
    } else {
        assert(!arms[0].default);
        assert(arms.drop_first()[i - 1] == arms[i]);
        assert forall|k: int| 0 <= k < i - 1 implies !arms.drop_first()[k].default by {
            assert(arms.drop_first()[k] == arms[k + 1]);
        }
        lemma_first_default_is(arms.drop_first(), i - 1);
    }
}

/// LAW. In a dispatch expression with exactly one default arm whose concrete
/// arms bind pairwise distinct types, dispatching a value of the type that
/// the concrete arm at position `i` binds evaluates exactly that arm's body.
pub proof fn lemma_dispatch_concrete(arms: Seq<DispatchArmExprV>, ty: Seq<TokV>, i: int)
    requires
        one_default(arms),
        disjoint_concrete_types(arms),
        0 <= i < arms.len(),
        !arms[i].default,
        arms[i].input_expr.ty == ty,
    ensures
        spec_dispatch_result(arms, ty) == Some(arms[i].body),
{
    lemma_first_concrete_char(arms, ty);
    match first_concrete(arms, ty) {
        Some(j) => {
            if i != j {
                assert(arms[i].input_expr.ty != arms[j].input_expr.ty);
            }
        },
        None => {
            assert(arm_matches(arms[i], ty));
        },
    }
}

/// LAW. In such a dispatch expression, dispatching a value of a type that no
/// concrete arm binds evaluates the default arm's body.
pub proof fn lemma_dispatch_default(arms: Seq<DispatchArmExprV>, ty: Seq<TokV>, d: int)
    requires
        one_default(arms),
        disjoint_concrete_types(arms),
        0 <= d < arms.len(),
        arms[d].default,
        forall|k: int| 0 <= k < arms.len() ==> !arm_matches(arms[k], ty),
    ensures
        spec_dispatch_result(arms, ty) == Some(arms[d].body),
{
    lemma_first_concrete_char(arms, ty);
    assert(first_concrete(arms, ty) is None);
    let dd = choose|dd: int|
        0 <= dd < arms.len() && arms[dd].default && (forall|k: int|
            0 <= k < arms.len() && k != dd ==> !arms[k].default);
    assert(dd == d);
    assert forall|k: int| 0 <= k < d implies !arms[k].default by {}
    lemma_first_default_is(arms, d);
}

/// LAW. Arm order does not affect the dispatch result: two dispatch
/// expressions whose arm lists are permutations of one another, each with
/// exactly one default arm and pairwise distinct concrete types, give every
/// type the same body.
pub proof fn lemma_dispatch_order_irrelevant(
    arms1: Seq<DispatchArmExprV>,
    arms2: Seq<DispatchArmExprV>,
    ty: Seq<TokV>,
)
    requires
        arms1.to_multiset() == arms2.to_multiset(),
        one_default(arms1),
        one_default(arms2),
        disjoint_concrete_types(arms1),
        disjoint_concrete_types(arms2),
    ensures
        spec_dispatch_result(arms1, ty) == spec_dispatch_result(arms2, ty),
{
    broadcast use group_to_multiset_ensures;

    lemma_first_concrete_char(arms1, ty);
    lemma_first_concrete_char(arms2, ty);
    match first_concrete(arms1, ty) {
        Some(i) => {
            let a = arms1[i];
            assert(arms1.contains(a));
            assert(arms1.to_multiset().count(a) > 0);
            assert(arms2.to_multiset().count(a) > 0);
            assert(arms2.contains(a));
            let j = choose|j: int| 0 <= j < arms2.len() && arms2[j] == a;
            match first_concrete(arms2, ty) {
                Some(j2) => {
                    if j2 != j {
                        assert(arms2[j2].input_expr.ty != arms2[j].input_expr.ty);
                    }
                    assert(arms2[j2] == a);
                },
                None => {
                    assert(arm_matches(arms2[j], ty));
                },
            }
        },
        None => {
            match first_concrete(arms2, ty) {
                Some(j2) => {
                    let b = arms2[j2];
                    assert(arms2.contains(b));
                    assert(arms2.to_multiset().count(b) > 0);
                    assert(arms1.to_multiset().count(b) > 0);
                    assert(arms1.contains(b));
                    let k = choose|k: int| 0 <= k < arms1.len() && arms1[k] == b;
                    assert(arm_matches(arms1[k], ty));
                },
                None => {
                    lemma_first_default_char(arms1);
                    lemma_first_default_char(arms2);
                    let d1 = choose|d: int|
                        0 <= d < arms1.len() && arms1[d].default && (forall|k: int|
                            0 <= k < arms1.len() && k != d ==> !arms1[k].default);
                    assert(first_default(arms1) == Some(d1)) by {
                        assert forall|k: int| 0 <= k < d1 implies !arms1[k].default by {}
                        lemma_first_default_is(arms1, d1);
                    }
                    let d2 = choose|d: int|
                        0 <= d < arms2.len() && arms2[d].default && (forall|k: int|
                            0 <= k < arms2.len() && k != d ==> !arms2[k].default);
                    assert(first_default(arms2) == Some(d2)) by {
                        assert forall|k: int| 0 <= k < d2 implies !arms2[k].default by {}
                        lemma_first_default_is(arms2, d2);
                    }
                    assert(arms1.contains(arms1[d1]));
                    assert(arms1.to_multiset().count(arms1[d1]) > 0);
                    assert(arms2.to_multiset().count(arms1[d1]) > 0);
                    assert(arms2.contains(arms1[d1]));
                    let m = choose|m: int| 0 <= m < arms2.len() && arms2[m] == arms1[d1];
                    assert(arms2[m].default);
                    assert(m == d2);
                    assert(arms2[d2] == arms1[d1]);
                },
            }
        },
    }
}

impl SpecializedDispatchExpr {
    /// The position of the arm that dispatching a value of type `ty`
    /// selects: the concrete arm bound to `ty`, else the default arm.
    pub fn select_arm(&self, ty: &Vec<Tok>) -> (r: Option<usize>)
        ensures
            match r {
                Some(i) => i < self.arms@.len() && spec_select_index(
                    arms_v(self.arms@),
                    toks_v(ty@),
                ) == Some(i as int),
                None => spec_select_index(arms_v(self.arms@), toks_v(ty@)) is None,
            },
    {
        let n: usize = self.arms.len();
        let ghost av = arms_v(self.arms@);
        let ghost tyv = toks_v(ty@);
        let mut i: usize = 0;
        while i < n
            invariant
                i <= n,
                n == self.arms@.len(),
                av == arms_v(self.arms@),
                tyv == toks_v(ty@),
                forall|k: int| 0 <= k < i ==> !arm_matches(av[k], tyv),
            decreases n - i,
        {
            let arm = &self.arms[i];
            if !arm.default && toks_eq(&arm.input_expr.ty, ty) {
                proof {
                    assert(av[i as int] == arm@);
                    lemma_first_concrete_is(av, tyv, i as int);
                }
                return Some(i);
            }
            proof {
                assert(av[i as int] == arm@);
            }
            i += 1;
        }
        proof {
            lemma_first_concrete_char(av, tyv);
            match first_concrete(av, tyv) {
                Some(j) => {
                    assert(!arm_matches(av[j], tyv));
                },
                None => {},
            }
        }
        let mut d: usize = 0;
        while d < n
            invariant
                d <= n,
                n == self.arms@.len(),
                av == arms_v(self.arms@),
                tyv == toks_v(ty@),
                first_concrete(av, tyv) is None,
                forall|k: int| 0 <= k < d ==> !av[k].default,
            decreases n - d,
        {
            let arm = &self.arms[d];
            if arm.default {
                proof {
                    assert(av[d as int] == arm@);
                    lemma_first_default_is(av, d as int);
                }
                return Some(d);
            }
            proof {
                assert(av[d as int] == arm@);
            }
            d += 1;
        }
        proof {
            lemma_first_default_char(av);
            match first_default(av) {
                Some(j) => {
                    assert(!av[j].default);
                },
                None => {},
            }
        }
        None
    }
}

} // verus!

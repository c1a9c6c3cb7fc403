//! A span-free model of the compiler's token trees.
//!
//! A dispatch expression arrives as a sequence of tokens. The model keeps,
//! for every token, exactly what the grammar and the generated code depend
//! on: the text of identifiers and literals, the character and spacing of
//! punctuation, and the delimiter and contents of groups. Source spans are
//! not part of the model, so two tokens written alike are equal.

use vstd::prelude::*;
use vstd::seq::axiom_seq_index_decreases;
use vstd::seq::axiom_seq_subrange_decreases;

verus! {

/// Delimiter of a token group.
#[derive(Clone, Copy, PartialEq, Eq, Structural, Debug)]
pub enum Delim {
    Paren,
    Brace,
    Bracket,
}

/// One token tree.
#[derive(PartialEq, Eq, Debug)]
pub enum Tok {
    /// An identifier or keyword, by its text.
    Ident(String),
    /// A punctuation character. The flag is true when the character is
    /// joined to the following token, as the `-` of `->` is.
    Punct(char, bool),
    /// A literal, by its source text.
    Lit(String),
    /// A delimited group of tokens.
    Group(Delim, Vec<Tok>),
}

/// The value of a token: its text as a sequence of characters and group
/// contents as a sequence of token values.
pub enum TokV {
    Ident(Seq<char>),
    Punct(char, bool),
    Lit(Seq<char>),
    Group(Delim, Seq<TokV>),
}

/// The value of one token.
pub open spec fn tok_v(t: Tok) -> TokV
    decreases t,
    via tok_v_decreases
{
    match t {
        Tok::Ident(s) => TokV::Ident(s@),
        Tok::Punct(c, j) => TokV::Punct(c, j),
        Tok::Lit(s) => TokV::Lit(s@),
        Tok::Group(d, ts) => TokV::Group(d, toks_v(ts@)),
    }
}

/// The values of a sequence of tokens.
pub open spec fn toks_v(s: Seq<Tok>) -> Seq<TokV>
    decreases s,
    via toks_v_decreases
{
    if s.len() == 0 {
        Seq::empty()
    } else {
        toks_v(s.subrange(0, s.len() - 1)).push(tok_v(s[s.len() - 1]))
    }
}

#[via_fn]
proof fn tok_v_decreases(t: Tok) {
    if t is Group {
        let ts = t->Group_1;
        assert(decreases_to!(t => ts));
        assert(decreases_to!(ts => ts@));
    }
}

#[via_fn]
proof fn toks_v_decreases(s: Seq<Tok>) {
    broadcast use axiom_seq_index_decreases, axiom_seq_subrange_decreases;

    if s.len() > 0 {
        assert(decreases_to!(s => s.subrange(0, s.len() - 1)));
        assert(decreases_to!(s => s[s.len() - 1]));
    }
}

impl View for Tok {
    type V = TokV;

    open spec fn view(&self) -> TokV {
        tok_v(*self)
    }
}

/// A token sequence has as many values as tokens.
pub broadcast proof fn lemma_toks_v_len(s: Seq<Tok>)
    ensures
        (#[trigger] toks_v(s)).len() == s.len(),
    decreases s,
{
    broadcast use axiom_seq_subrange_decreases;

    if s.len() > 0 {
        assert(decreases_to!(s => s.subrange(0, s.len() - 1)));
        lemma_toks_v_len(s.subrange(0, s.len() - 1));
    }
}

/// The value of a token sequence, taken at one position.
pub broadcast proof fn lemma_toks_v_index(s: Seq<Tok>, i: int)
    requires
        0 <= i < s.len(),
    ensures
        #[trigger] toks_v(s)[i] == tok_v(s[i]),
    decreases s,
{
    broadcast use axiom_seq_subrange_decreases;

    lemma_toks_v_len(s);
    if s.len() > 0 && i < s.len() - 1 {
        assert(decreases_to!(s => s.subrange(0, s.len() - 1)));
        lemma_toks_v_len(s.subrange(0, s.len() - 1));
        lemma_toks_v_index(s.subrange(0, s.len() - 1), i);
    }
}

/// A copy of a token with the same value.
pub fn tok_clone(t: &Tok) -> (r: Tok)
    ensures
        r@ == t@,
    decreases *t,
{
    broadcast use lemma_toks_v_len, lemma_toks_v_index;

    match t {
        Tok::Ident(s) => Tok::Ident(s.clone()),
        Tok::Punct(c, j) => Tok::Punct(*c, *j),
        Tok::Lit(s) => Tok::Lit(s.clone()),
        Tok::Group(d, ts) => {
            let mut inner: Vec<Tok> = Vec::new();
            let mut i: usize = 0;
            while i < ts.len()
                invariant
                    t is Group,
                    *ts == t->Group_1,
                    0 <= i <= ts@.len(),
                    inner@.len() == i,
                    forall|k: int| 0 <= k < i ==> tok_v(inner@[k]) == tok_v(ts@[k]),
                decreases ts@.len() - i,
            {
                proof {
                    lemma_group_elem_decreases(*t, i as int);
                }
                let c = tok_clone(&ts[i]);
                inner.push(c);
                i += 1;
            }
            proof {
                assert(toks_v(inner@) =~= toks_v(ts@)) by {
                    broadcast use lemma_toks_v_len, lemma_toks_v_index;

                };
            }
            Tok::Group(*d, inner)
        },
    }
}

/// A group token decreases to each element of its contents.
proof fn lemma_group_elem_decreases(t: Tok, i: int)
    requires
        t is Group,
        0 <= i < (t->Group_1)@.len(),
    ensures
        decreases_to!(t => (t->Group_1)@[i]),
{
    broadcast use axiom_seq_index_decreases;

    let ts = t->Group_1;
    assert(decreases_to!(t => ts));
    assert(decreases_to!(ts => ts@));
    assert(decreases_to!(ts@ => ts@[i]));
}

/// Token values distribute over concatenation.
pub proof fn lemma_toks_v_concat(a: Seq<Tok>, b: Seq<Tok>)
    ensures
        toks_v(a + b) == toks_v(a) + toks_v(b),
{
    lemma_toks_v_len(a);
    lemma_toks_v_len(b);
    lemma_toks_v_len(a + b);
    assert forall|k: int| 0 <= k < (a + b).len() implies toks_v(a + b)[k] == (toks_v(a) + toks_v(
        b,
    ))[k] by {
        lemma_toks_v_index(a + b, k);
        if k < a.len() {
            lemma_toks_v_index(a, k);
        } else {
            lemma_toks_v_index(b, k - a.len());
        }
    }
    assert(toks_v(a + b) =~= toks_v(a) + toks_v(b));
}

/// A token vector decreases to each of its elements.
pub proof fn lemma_vec_elem_decreases(ts: Vec<Tok>, i: int)
    requires
        0 <= i < ts@.len(),
    ensures
        decreases_to!(ts => ts@[i]),
{
    broadcast use axiom_seq_index_decreases;

    assert(decreases_to!(ts => ts@));
    assert(decreases_to!(ts@ => ts@[i]));
}

/// A copy of a token sequence with the same values.
pub fn toks_clone(v: &Vec<Tok>) -> (r: Vec<Tok>)
    ensures
        toks_v(r@) == toks_v(v@),
{
    broadcast use lemma_toks_v_len, lemma_toks_v_index;

    let mut out: Vec<Tok> = Vec::new();
    let mut i: usize = 0;
    while i < v.len()
        invariant
            0 <= i <= v@.len(),
            out@.len() == i,
            forall|k: int| 0 <= k < i ==> tok_v(out@[k]) == tok_v(v@[k]),
        decreases v@.len() - i,
    {
        let c = tok_clone(&v[i]);
        out.push(c);
        i += 1;
    }
    proof {
        assert(toks_v(out@) =~= toks_v(v@));
    }
    out
}

/// Deep equality of two tokens.
pub fn tok_eq(a: &Tok, b: &Tok) -> (r: bool)
    ensures
        r <==> a@ == b@,
    decreases *a,
{
    broadcast use lemma_toks_v_len, lemma_toks_v_index;

    match (a, b) {
        (Tok::Ident(x), Tok::Ident(y)) => x.eq(y),
        (Tok::Punct(c1, j1), Tok::Punct(c2, j2)) => *c1 == *c2 && *j1 == *j2,
        (Tok::Lit(x), Tok::Lit(y)) => x.eq(y),
        (Tok::Group(d1, ts1), Tok::Group(d2, ts2)) => {
            if *d1 != *d2 {
                return false;
            }
            if ts1.len() != ts2.len() {
                proof {
                    assert(toks_v(ts1@).len() != toks_v(ts2@).len());
                }
                return false;
            }
            let mut i: usize = 0;
            while i < ts1.len()
                invariant
                    a is Group,
                    *ts1 == a->Group_1,
                    b is Group,
                    *ts2 == b->Group_1,
                    a->Group_0 == b->Group_0,
                    ts1@.len() == ts2@.len(),
                    0 <= i <= ts1@.len(),
                    forall|k: int| 0 <= k < i ==> tok_v(ts1@[k]) == tok_v(ts2@[k]),
                decreases ts1@.len() - i,
            {
                proof {
                    lemma_group_elem_decreases(*a, i as int);
                }
                if !tok_eq(&ts1[i], &ts2[i]) {
                    proof {
                        lemma_toks_v_len(ts1@);
                        lemma_toks_v_index(ts1@, i as int);
                        lemma_toks_v_index(ts2@, i as int);
                        assert(toks_v(ts1@)[i as int] != toks_v(ts2@)[i as int]);
                    }
                    return false;
                }
                i += 1;
            }
            proof {
                assert(toks_v(ts1@) =~= toks_v(ts2@));
            }
            true
        },
        _ => false,
    }
}

/// Deep equality of two token sequences.
pub fn toks_eq(a: &Vec<Tok>, b: &Vec<Tok>) -> (r: bool)
    ensures
        r <==> toks_v(a@) == toks_v(b@),
{
    broadcast use lemma_toks_v_len, lemma_toks_v_index;

    if a.len() != b.len() {
        proof {
            assert(toks_v(a@).len() != toks_v(b@).len());
        }
        return false;
    }
    let mut i: usize = 0;
    while i < a.len()
        invariant
            0 <= i <= a@.len(),
            a@.len() == b@.len(),
            forall|k: int| 0 <= k < i ==> tok_v(a@[k]) == tok_v(b@[k]),
        decreases a@.len() - i,
    {
        if !tok_eq(&a[i], &b[i]) {
            proof {
                lemma_toks_v_len(a@);
                lemma_toks_v_index(a@, i as int);
                lemma_toks_v_index(b@, i as int);
                assert(toks_v(a@)[i as int] != toks_v(b@)[i as int]);
            }
            return false;
        }
        i += 1;
    }
    proof {
        assert(toks_v(a@) =~= toks_v(b@));
    }
    true
}

} // verus!

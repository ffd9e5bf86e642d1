use vstd::prelude::*;
use crate::semantics::{EvalRes, Outcome, eval_to};
use crate::term::{TermV, numeral, render, spec_is_value};

verus! {

/// A value evaluates to itself, printing nothing: evaluation is the
/// identity on normal forms.
pub proof fn lemma_value_evaluates_to_itself(v: TermV, fuel: nat)
    requires
        spec_is_value(v),
        fuel >= 1,
    ensures
        eval_to(v, fuel) == (Outcome {
            out: Seq::<Seq<char>>::empty(),
            res: EvalRes::Done(v),
        }),
{
}

/// A while loop whose condition is the false literal evaluates to unit and
/// prints nothing, whatever its body is.
pub proof fn lemma_while_false_is_unit(body: TermV, fuel: nat)
    requires
        fuel >= 4,
    ensures
        eval_to(TermV::VWhile(Box::new(TermV::VBool(false)), Box::new(body)), fuel)
            == (Outcome { out: Seq::<Seq<char>>::empty(), res: EvalRes::Done(TermV::VUnit) }),
{
    let c = TermV::VBool(false);
    let w = TermV::VWhile(Box::new(c), Box::new(body));
    let sq = TermV::VSeq(Box::new(body), Box::new(w));
    let wh = TermV::VWhen(Box::new(c), Box::new(sq));
    let con = TermV::VCon(Box::new(c), Box::new(sq), Box::new(TermV::VUnit));
    let f3 = (fuel - 3) as nat;
    assert(eval_to(w, fuel) == eval_to(wh, (fuel - 1) as nat));
    assert(eval_to(wh, (fuel - 1) as nat) == eval_to(con, (fuel - 2) as nat));
    assert(eval_to(c, f3) == (Outcome {
        out: Seq::<Seq<char>>::empty(),
        res: EvalRes::Done(c),
    }));
    assert(eval_to(TermV::VUnit, f3) == (Outcome {
        out: Seq::<Seq<char>>::empty(),
        res: EvalRes::Done(TermV::VUnit),
    }));
    assert(Seq::<Seq<char>>::empty() + Seq::<Seq<char>>::empty() =~= Seq::<Seq<char>>::empty());
}

/// Concatenation is associative for string-valued subterms: whenever the
/// three subterms each evaluate to a string, grouping their concatenation
/// either way evaluates to the same string, and the lines printed along the
/// way are the same, in the same order.
pub proof fn lemma_concat_is_associative(
    a: TermV,
    b: TermV,
    c: TermV,
    sa: Seq<char>,
    sb: Seq<char>,
    sc: Seq<char>,
    f: nat,
    fuel: nat,
)
    requires
        eval_to(a, f).res == EvalRes::Done(TermV::VString(sa)),
        eval_to(b, f).res == EvalRes::Done(TermV::VString(sb)),
        eval_to(c, f).res == EvalRes::Done(TermV::VString(sc)),
        fuel >= f + 2,
    ensures
        eval_to(
            TermV::VConcat(
                Box::new(TermV::VConcat(Box::new(a), Box::new(b))),
                Box::new(c),
            ),
            fuel,
        ) == eval_to(
            TermV::VConcat(
                Box::new(a),
                Box::new(TermV::VConcat(Box::new(b), Box::new(c))),
            ),
            fuel,
        ),
        eval_to(
            TermV::VConcat(
                Box::new(TermV::VConcat(Box::new(a), Box::new(b))),
                Box::new(c),
            ),
            fuel,
        ) == (Outcome {
            out: eval_to(a, f).out + eval_to(b, f).out + eval_to(c, f).out,
            res: EvalRes::Done(TermV::VString(sa + sb + sc)),
        }),
{
    let f1 = (fuel - 1) as nat;
    let f2 = (fuel - 2) as nat;
    lemma_fuel_monotone(a, f, f1);
    lemma_fuel_monotone(a, f, f2);
    lemma_fuel_monotone(b, f, f2);
    lemma_fuel_monotone(c, f, f1);
    lemma_fuel_monotone(c, f, f2);
    let oa = eval_to(a, f).out;
    let ob = eval_to(b, f).out;
    let oc = eval_to(c, f).out;
    let ab = TermV::VConcat(Box::new(a), Box::new(b));
    let bc = TermV::VConcat(Box::new(b), Box::new(c));
    assert(eval_to(ab, f1) == (Outcome {
        out: oa + ob,
        res: EvalRes::Done(TermV::VString(sa + sb)),
    }));
    assert(eval_to(bc, f1) == (Outcome {
        out: ob + oc,
        res: EvalRes::Done(TermV::VString(sb + sc)),
    }));
    assert((sa + sb) + sc =~= sa + (sb + sc));
    assert((oa + ob) + oc =~= oa + (ob + oc));
}

/// The number of places where the text `S` followed by a space occurs in
/// `s`: the occurrence count of the numeral marker in a display string.
pub open spec fn s_count(s: Seq<char>) -> nat
    decreases s.len(),
{
    if s.len() < 2 {
        0
    } else {
        (if s[0] == 'S' && s[1] == ' ' {
            1nat
        } else {
            0nat
        }) + s_count(s.skip(1))
    }
}

proof fn lemma_s_count_cat(a: Seq<char>, b: Seq<char>)
    requires
        a.len() == 0 || a.last() != 'S',
    ensures
        s_count(a + b) == s_count(a) + s_count(b),
    decreases a.len(),
{
    if a.len() == 0 {
        assert(a + b =~= b);
    } else {
        assert((a + b).skip(1) =~= a.skip(1) + b);
        if a.len() == 1 {
            lemma_s_count_cat(a.skip(1), b);
            assert(a.skip(1) =~= Seq::<char>::empty());
            assert((a + b)[0] == a[0]);
        } else {
            assert(a.skip(1).last() == a.last());
            lemma_s_count_cat(a.skip(1), b);
            assert((a + b)[0] == a[0] && (a + b)[1] == a[1]);
        }
    }
}

/// The display string of the numeral for `n` holds exactly `n` occurrences
/// of the increment marker `S` followed by a space; it is never empty and
/// never ends in an `S`.
pub proof fn lemma_numeral_display_count(n: nat)
    ensures
        render(numeral(n)) matches Some(s) && s_count(s) == n && s.len() >= 1 && s.last() != 'S',
    decreases n,
{
    if n == 0 {
        reveal_strlit("O");
        assert(render(numeral(0)) == Some("O"@));
        assert(s_count("O"@) == 0);
    } else {
        lemma_numeral_display_count((n - 1) as nat);
        reveal_strlit("(S ");
        reveal_strlit(")");
        match render(numeral((n - 1) as nat)) {
            Some(inner) => {
                let pre = "(S "@;
                let post = ")"@;
                let whole = pre + inner + post;
                assert(render(numeral(n)) == Some(whole));
                // The prefix holds the one new marker.
                assert(pre.skip(1) =~= seq!['S', ' ']);
                assert(seq!['S', ' '].skip(1) =~= seq![' ']);
                assert(s_count(seq![' ']) == 0);
                assert(s_count(seq!['S', ' ']) == 1);
                assert(s_count(pre) == 1);
                assert(pre.last() == ' ');
                lemma_s_count_cat(pre, inner);
                assert((pre + inner).last() == inner.last());
                lemma_s_count_cat(pre + inner, post);
                assert(s_count(post) == 0);
                assert(whole.last() == ')');
            },
            None => {
                assert(false);
            },
        }
    }
}

/// A numeral literal for a non-negative `n` evaluates to the Peano numeral
/// that denotes `n`, printing nothing.
pub proof fn lemma_numeral_literal_evaluates(n: nat, fuel: nat)
    requires
        fuel > n,
    ensures
        eval_to(TermV::VFromi8(n as int), fuel) == (Outcome {
            out: Seq::<Seq<char>>::empty(),
            res: EvalRes::Done(numeral(n)),
        }),
    decreases n,
{
    if n == 0 {
    } else {
        lemma_numeral_literal_evaluates((n - 1) as nat, (fuel - 1) as nat);
    }
}

/// Showing a numeral literal evaluates to the display string whose marker
/// count `s_count` is exactly `n`, printing nothing.
pub proof fn lemma_show_numeral(n: nat, fuel: nat)
    requires
        fuel > n + 1,
    ensures
        eval_to(TermV::VShow(Box::new(TermV::VFromi8(n as int))), fuel) matches Outcome {
            out,
            res: EvalRes::Done(TermV::VString(s)),
        } && out == Seq::<Seq<char>>::empty() && s_count(s) == n,
{
    lemma_numeral_literal_evaluates(n, (fuel - 1) as nat);
    lemma_numeral_display_count(n);
}

/// Whether an application with this operator fires a combinator rule:
/// `I x`, `(K x) y` and `((S x) y) z` reduce; nothing else does.
pub open spec fn rule_fires(op: TermV) -> bool {
    ||| op is VI
    ||| (op matches TermV::VApp(k, _) && *k is VK)
    ||| (op matches TermV::VApp(s2, _) && *s2 matches TermV::VApp(s3, _) && *s3 is VS)
}

/// A normal form: a term that no evaluation rule reduces any further. It is
/// either a value in the sense of `spec_is_value`, or an application of
/// normal forms whose operator fires no combinator rule — the stuck
/// residual applications that the language keeps as legitimate results.
pub open spec fn is_normal(t: TermV) -> bool
    decreases t,
{
    match t {
        TermV::VApp(l, r) => is_normal(*l) && is_normal(*r) && !rule_fires(*l),
        _ => spec_is_value(t),
    }
}

/// Every value is a normal form.
pub proof fn lemma_values_are_normal(t: TermV)
    ensures
        spec_is_value(t) ==> is_normal(t),
    decreases t,
{
    match t {
        TermV::VApp(l, r) => {
            lemma_values_are_normal(*l);
            lemma_values_are_normal(*r);
        },
        TermV::VCons(l, r) => {
            lemma_values_are_normal(*l);
            lemma_values_are_normal(*r);
        },
        _ => {},
    }
}

/// What holds of every term the evaluator hands back: it is a normal form,
/// and it is a value unless it is one of the stuck residual applications.
pub open spec fn normal_result(v: TermV) -> bool {
    is_normal(v) && (spec_is_value(v) || v is VApp)
}

proof fn lemma_eval_normal(t: TermV, fuel: nat)
    ensures
        eval_to(t, fuel).res matches EvalRes::Done(v) ==> normal_result(v),
        t is VFromi8 ==> (eval_to(t, fuel).res matches EvalRes::Done(v) ==> spec_is_value(v)),
    decreases fuel,
{
    if fuel == 0 {
    } else if spec_is_value(t) {
        lemma_values_are_normal(t);
    } else {
        let f = (fuel - 1) as nat;
        match t {
            TermV::VApp(lt, rt) => {
                lemma_eval_normal(*lt, f);
                match eval_to(*lt, f).res {
                    EvalRes::Done(lv) => {
                        lemma_eval_normal(*rt, f);
                        match eval_to(*rt, f).res {
                            EvalRes::Done(rv) => {
                                match lv {
                                    TermV::VApp(lf, la) => match *lf {
                                        TermV::VK => {
                                            assert(is_normal(lv));
                                            assert(is_normal(*la));
                                        },
                                        TermV::VApp(ls, lx) => {
                                            if *ls is VS {
                                                lemma_eval_normal(
                                                    TermV::VApp(
                                                        Box::new(TermV::VApp(lx, Box::new(rv))),
                                                        Box::new(TermV::VApp(la, Box::new(rv))),
                                                    ),
                                                    f,
                                                );
                                            } else {
                                                assert(!rule_fires(lv));
                                            }
                                        },
                                        _ => {
                                            assert(!rule_fires(lv));
                                        },
                                    },
                                    TermV::VI => {},
                                    _ => {
                                        assert(!rule_fires(lv));
                                    },
                                }
                            },
                            _ => {},
                        }
                    },
                    _ => {},
                }
            },
            TermV::VCon(ct, tt, et) => {
                lemma_eval_normal(*ct, f);
                lemma_eval_normal(*tt, f);
                lemma_eval_normal(*et, f);
            },
            TermV::VPrintLn(st) => {
                lemma_eval_normal(*st, f);
                assert(spec_is_value(TermV::VUnit));
                lemma_values_are_normal(TermV::VUnit);
            },
            TermV::VConcat(lt, rt) => {
                lemma_eval_normal(*lt, f);
                lemma_eval_normal(*rt, f);
            },
            TermV::VSeq(lt, rt) => {
                lemma_eval_normal(*lt, f);
                lemma_eval_normal(*rt, f);
            },
            TermV::VShow(xt) => {
                lemma_eval_normal(*xt, f);
            },
            TermV::VWhen(c, a) => {
                lemma_eval_normal(TermV::VCon(c, a, Box::new(TermV::VUnit)), f);
            },
            TermV::VUnless(c, a) => {
                lemma_eval_normal(TermV::VCon(c, Box::new(TermV::VUnit), a), f);
            },
            TermV::VAnd(l, r) => {
                lemma_eval_normal(TermV::VCon(l, r, Box::new(TermV::VBool(false))), f);
            },
            TermV::VOr(l, r) => {
                lemma_eval_normal(TermV::VCon(l, Box::new(TermV::VBool(true)), r), f);
            },
            TermV::VNot(c) => {
                lemma_eval_normal(
                    TermV::VCon(c, Box::new(TermV::VBool(false)), Box::new(TermV::VBool(true))),
                    f,
                );
            },
            TermV::VWhile(c, b) => {
                lemma_eval_normal(
                    TermV::VWhen(c, Box::new(TermV::VSeq(b, Box::new(TermV::VWhile(c, b))))),
                    f,
                );
            },
            TermV::VIsNil(lt) => {
                lemma_eval_normal(*lt, f);
            },
            TermV::VFirst(xt) => {
                lemma_eval_normal(*xt, f);
                match eval_to(*xt, f).res {
                    EvalRes::Done(v) => match v {
                        TermV::VCons(h, _) => {
                            lemma_values_are_normal(*h);
                        },
                        _ => {},
                    },
                    _ => {},
                }
            },
            TermV::VSecond(xt) => {
                lemma_eval_normal(*xt, f);
                match eval_to(*xt, f).res {
                    EvalRes::Done(v) => match v {
                        TermV::VCons(_, tl) => {
                            lemma_values_are_normal(*tl);
                        },
                        _ => {},
                    },
                    _ => {},
                }
            },
            TermV::VIsZero(xt) => {
                lemma_eval_normal(*xt, f);
            },
            TermV::VPred(xt) => {
                lemma_eval_normal(*xt, f);
                match eval_to(*xt, f).res {
                    EvalRes::Done(v) => match v {
                        TermV::VInc(y) => {
                            lemma_values_are_normal(*y);
                        },
                        _ => {},
                    },
                    _ => {},
                }
            },
            TermV::VFromi8(n) => {
                if n > 0 {
                    lemma_eval_normal(TermV::VFromi8(n - 1), f);
                }
            },
            _ => {},
        }
    }
}

/// Fuel only decides how far evaluation may go, never what it computes: a
/// run that ends in a value or gets stuck is unchanged by any larger fuel.
pub proof fn lemma_fuel_monotone(t: TermV, f1: nat, f2: nat)
    requires
        f1 <= f2,
        !(eval_to(t, f1).res is OutOfFuel),
    ensures
        eval_to(t, f2) == eval_to(t, f1),
    decreases f1,
{
    if spec_is_value(t) {
    } else {
        let g1 = (f1 - 1) as nat;
        let g2 = (f2 - 1) as nat;
        match t {
            TermV::VApp(lt, rt) => {
                lemma_fuel_monotone(*lt, g1, g2);
                match eval_to(*lt, g1).res {
                    EvalRes::Done(lv) => {
                        lemma_fuel_monotone(*rt, g1, g2);
                        match eval_to(*rt, g1).res {
                            EvalRes::Done(rv) => {
                                match lv {
                                    TermV::VApp(lf, la) => match *lf {
                                        TermV::VApp(ls, lx) => {
                                            if *ls is VS {
                                                lemma_fuel_monotone(
                                                    TermV::VApp(
                                                        Box::new(TermV::VApp(lx, Box::new(rv))),
                                                        Box::new(TermV::VApp(la, Box::new(rv))),
                                                    ),
                                                    g1,
                                                    g2,
                                                );
                                            }
                                        },
                                        _ => {},
                                    },
                                    _ => {},
                                }
                            },
                            _ => {},
                        }
                    },
                    _ => {},
                }
            },
            TermV::VCon(ct, tt, et) => {
                lemma_fuel_monotone(*ct, g1, g2);
                match eval_to(*ct, g1).res {
                    EvalRes::Done(cv) => match cv {
                        TermV::VBool(b) => {
                            lemma_fuel_monotone(if b { *tt } else { *et }, g1, g2);
                        },
                        _ => {},
                    },
                    _ => {},
                }
            },
            TermV::VPrintLn(st) => {
                lemma_fuel_monotone(*st, g1, g2);
            },
            TermV::VConcat(lt, rt) => {
                lemma_fuel_monotone(*lt, g1, g2);
                match eval_to(*lt, g1).res {
                    EvalRes::Done(_) => {
                        lemma_fuel_monotone(*rt, g1, g2);
                    },
                    _ => {},
                }
            },
            TermV::VSeq(lt, rt) => {
                lemma_fuel_monotone(*lt, g1, g2);
                match eval_to(*lt, g1).res {
                    EvalRes::Done(_) => {
                        lemma_fuel_monotone(*rt, g1, g2);
                    },
                    _ => {},
                }
            },
            TermV::VShow(xt) => {
                lemma_fuel_monotone(*xt, g1, g2);
            },
            TermV::VWhen(c, a) => {
                lemma_fuel_monotone(TermV::VCon(c, a, Box::new(TermV::VUnit)), g1, g2);
            },
            TermV::VUnless(c, a) => {
                lemma_fuel_monotone(TermV::VCon(c, Box::new(TermV::VUnit), a), g1, g2);
            },
            TermV::VAnd(l, r) => {
                lemma_fuel_monotone(TermV::VCon(l, r, Box::new(TermV::VBool(false))), g1, g2);
            },
            TermV::VOr(l, r) => {
                lemma_fuel_monotone(TermV::VCon(l, Box::new(TermV::VBool(true)), r), g1, g2);
            },
            TermV::VNot(c) => {
                lemma_fuel_monotone(
                    TermV::VCon(c, Box::new(TermV::VBool(false)), Box::new(TermV::VBool(true))),
                    g1,
                    g2,
                );
            },
            TermV::VWhile(c, b) => {
                lemma_fuel_monotone(
                    TermV::VWhen(c, Box::new(TermV::VSeq(b, Box::new(TermV::VWhile(c, b))))),
                    g1,
                    g2,
                );
            },
            TermV::VIsNil(lt) => {
                lemma_fuel_monotone(*lt, g1, g2);
            },
            TermV::VFirst(xt) => {
                lemma_fuel_monotone(*xt, g1, g2);
            },
            TermV::VSecond(xt) => {
                lemma_fuel_monotone(*xt, g1, g2);
            },
            TermV::VIsZero(xt) => {
                lemma_fuel_monotone(*xt, g1, g2);
            },
            TermV::VPred(xt) => {
                lemma_fuel_monotone(*xt, g1, g2);
            },
            TermV::VFromi8(n) => {
                if n > 0 {
                    lemma_fuel_monotone(TermV::VFromi8(n - 1), g1, g2);
                }
            },
            _ => {},
        }
    }
}

/// Evaluation never returns a reducible term: every result the evaluator
/// hands back is a normal form. It is a value in the sense of
/// `spec_is_value` unless it is a stuck application of a value outside the
/// combinator fragment, which the value predicate does not admit but which
/// no rule reduces either.
pub proof fn lemma_eval_returns_normal_forms(t: TermV, fuel: nat)
    ensures
        eval_to(t, fuel).res matches EvalRes::Done(v) ==> normal_result(v),
{
    lemma_eval_normal(t, fuel);
}

} // verus!

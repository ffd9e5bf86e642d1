use vstd::prelude::*;
use vstd::string::StringExecFns;
use crate::semantics::{EvalRes, eval_to};
use crate::term::{Term, TermV, is_value, spec_is_value, show_value};
use crate::vm::VM;

verus! {

/// Why a run of `eval` returned no value: the term got stuck on an
/// ill-formed reduction (the fatal condition of the language), or the fuel
/// ran out before the term reached a normal form.
#[derive(Debug, PartialEq, Eq, Clone, Copy)]
pub enum EvalErr {
    Stuck,
    OutOfFuel,
}

proof fn lemma_cat3(base: Seq<Seq<char>>, a: Seq<Seq<char>>, b: Seq<Seq<char>>)
    ensures
        (base + a) + b == base + (a + b),
{
    assert((base + a) + b =~= base + (a + b));
}

proof fn lemma_cat_empty(base: Seq<Seq<char>>)
    ensures
        base + Seq::<Seq<char>>::empty() == base,
{
    assert(base + Seq::<Seq<char>>::empty() =~= base);
}

proof fn lemma_cat_push(base: Seq<Seq<char>>, a: Seq<Seq<char>>, x: Seq<char>)
    ensures
        (base + a).push(x) == base + a.push(x),
{
    assert((base + a).push(x) =~= base + a.push(x));
}

/// Connects the shape of a term's view back to the shape of the term: the
/// view has a given head constructor only when the term does.
proof fn lemma_view_shape(t: Term)
    ensures
        t@ is VString ==> (t matches Term::TString(s) && t@ == TermV::VString(s@)),
        t@ is VBool ==> (t matches Term::TBool(b) && t@ == TermV::VBool(b)),
        t@ is VUnit ==> t matches Term::TUnit,
        t@ is VNil ==> t matches Term::TNil,
        t@ is VZero ==> t matches Term::TZero,
        t@ is VI ==> t matches Term::TI,
        t@ is VK ==> t matches Term::TK,
        t@ is VS ==> t matches Term::TS,
        t@ is VInc ==> (t matches Term::TInc(x) && t@ == TermV::VInc(Box::new(x@))),
        t@ is VCons ==> (t matches Term::TCons(h, tl) && t@ == TermV::VCons(
            Box::new(h@),
            Box::new(tl@),
        )),
        t@ is VApp ==> (t matches Term::TApp(a, b) && t@ == TermV::VApp(
            Box::new(a@),
            Box::new(b@),
        )),
{
    match t {
        Term::TString(_) => {},
        Term::TBool(_) => {},
        Term::TConcat(_, _) => {},
        Term::TCon(_, _, _) => {},
        Term::TWhen(_, _) => {},
        Term::TUnless(_, _) => {},
        Term::TPrintLn(_) => {},
        Term::TUnit => {},
        Term::TSeq(_, _) => {},
        Term::TShow(_) => {},
        Term::TAnd(_, _) => {},
        Term::TOr(_, _) => {},
        Term::TNot(_) => {},
        Term::TWhile(_, _) => {},
        Term::TS => {},
        Term::TK => {},
        Term::TI => {},
        Term::TApp(_, _) => {},
        Term::TNil => {},
        Term::TCons(_, _) => {},
        Term::TIsNil(_) => {},
        Term::TFirst(_) => {},
        Term::TSecond(_) => {},
        Term::TZero => {},
        Term::TInc(_) => {},
        Term::TIsZero(_) => {},
        Term::TPred(_) => {},
        Term::TFromi8(_) => {},
    }
}

/// Application: operator first, then operand, then the first matching
/// combinator rule; two values that no rule joins stay an application.
fn eval_app<ENV: VM>(env: &mut ENV, tr: &Term, fuel: u64) -> (r: Result<Term, EvalErr>)
    requires
        fuel >= 1,
        tr matches Term::TApp(_, _),
        !spec_is_value(tr@),
    ensures
        final(env).log() == old(env).log() + eval_to(tr@, fuel as nat).out,
        match r {
            Ok(v) => eval_to(tr@, fuel as nat).res == EvalRes::Done(v@),
            Err(EvalErr::Stuck) => eval_to(tr@, fuel as nat).res is Stuck,
            Err(EvalErr::OutOfFuel) => eval_to(tr@, fuel as nat).res is OutOfFuel,
        },
    decreases fuel, 0int,
{
    let f2 = fuel - 1;
    match tr {
        Term::TApp(lt, rt) => {
            proof {
                assert(tr@ == TermV::VApp(Box::new((**lt)@), Box::new((**rt)@)));
            }
            let rl = eval(env, &**lt, f2);
            match rl {
                Err(e) => Err(e),
                Ok(lv) => {
                    let rr = eval(env, &**rt, f2);
                    proof {
                        lemma_cat3(
                            old(env).log(),
                            eval_to((**lt)@, f2 as nat).out,
                            eval_to((**rt)@, f2 as nat).out,
                        );
                    }
                    match rr {
                        Err(e) => Err(e),
                        Ok(rv) => {
                            proof {
                                lemma_view_shape(lv);
                            }
                            match &lv {
                                Term::TApp(lf, la) => {
                                    proof {
                                        lemma_view_shape(**lf);
                                    }
                                    match &**lf {
                                        Term::TK => Ok((**la).dup()),
                                        Term::TApp(ls, lx) => {
                                            proof {
                                                lemma_view_shape(**ls);
                                            }
                                            match &**ls {
                                                Term::TS => {
                                                    let ghost rvv = rv@;
                                                    let pa = Term::TApp(
                                                        Box::new((**lx).dup()),
                                                        Box::new(rv.dup()),
                                                    );
                                                    let ghost pav = pa@;
                                                    proof {
                                                        assert(pav == TermV::VApp(
                                                            Box::new((**lx)@),
                                                            Box::new(rvv),
                                                        ));
                                                    }
                                                    let pb = Term::TApp(
                                                        Box::new((**la).dup()),
                                                        Box::new(rv),
                                                    );
                                                    let ghost pbv = pb@;
                                                    proof {
                                                        assert(pbv == TermV::VApp(
                                                            Box::new((**la)@),
                                                            Box::new(rvv),
                                                        ));
                                                    }
                                                    let built = Term::TApp(
                                                        Box::new(pa),
                                                        Box::new(pb),
                                                    );
                                                    proof {
                                                        assert(built@ == TermV::VApp(
                                                            Box::new(pav),
                                                            Box::new(pbv),
                                                        ));
                                                    }
                                                    let r3 = eval(env, &built, f2);
                                                    proof {
                                                        lemma_cat3(
                                                            old(env).log(),
                                                            eval_to((**lt)@, f2 as nat).out
                                                                + eval_to((**rt)@, f2 as nat).out,
                                                            eval_to(built@, f2 as nat).out,
                                                        );
                                                    }
                                                    r3
                                                },
                                                _ => Ok(
                                                    Term::TApp(
                                                        Box::new(lv.dup()),
                                                        Box::new(rv),
                                                    ),
                                                ),
                                            }
                                        },
                                        _ => Ok(Term::TApp(Box::new(lv.dup()), Box::new(rv))),
                                    }
                                },
                                Term::TI => Ok(rv),
                                _ => Ok(Term::TApp(Box::new(lv.dup()), Box::new(rv))),
                            }
                        },
                    }
                },
            }
        },
        _ => {
            proof {
                assert(false);
            }
            Err(EvalErr::Stuck)
        },
    }
}

/// Conditional: the condition must reduce to a boolean, which selects the
/// branch that is then evaluated; any other condition value is fatal.
fn eval_con<ENV: VM>(env: &mut ENV, tr: &Term, fuel: u64) -> (r: Result<Term, EvalErr>)
    requires
        fuel >= 1,
        tr matches Term::TCon(_, _, _),
        !spec_is_value(tr@),
    ensures
        final(env).log() == old(env).log() + eval_to(tr@, fuel as nat).out,
        match r {
            Ok(v) => eval_to(tr@, fuel as nat).res == EvalRes::Done(v@),
            Err(EvalErr::Stuck) => eval_to(tr@, fuel as nat).res is Stuck,
            Err(EvalErr::OutOfFuel) => eval_to(tr@, fuel as nat).res is OutOfFuel,
        },
    decreases fuel, 0int,
{
    let f2 = fuel - 1;
    match tr {
        Term::TCon(ct, at, bt) => {
            proof {
                assert(tr@ == TermV::VCon(
                    Box::new((**ct)@),
                    Box::new((**at)@),
                    Box::new((**bt)@),
                ));
            }
            let rc = eval(env, &**ct, f2);
            match rc {
                Err(e) => Err(e),
                Ok(cv) => {
                    proof {
                        lemma_view_shape(cv);
                    }
                    match &cv {
                        Term::TBool(cb) => {
                            let taken = if *cb {
                                &**at
                            } else {
                                &**bt
                            };
                            let rbr = eval(env, taken, f2);
                            proof {
                                lemma_cat3(
                                    old(env).log(),
                                    eval_to((**ct)@, f2 as nat).out,
                                    eval_to(taken@, f2 as nat).out,
                                );
                            }
                            rbr
                        },
                        _ => Err(EvalErr::Stuck),
                    }
                },
            }
        },
        _ => {
            proof {
                assert(false);
            }
            Err(EvalErr::Stuck)
        },
    }
}

/// Print: the argument must reduce to a string, which is handed to the
/// capability; the result is unit.
fn eval_println<ENV: VM>(env: &mut ENV, tr: &Term, fuel: u64) -> (r: Result<Term, EvalErr>)
    requires
        fuel >= 1,
        tr matches Term::TPrintLn(_),
        !spec_is_value(tr@),
    ensures
        final(env).log() == old(env).log() + eval_to(tr@, fuel as nat).out,
        match r {
            Ok(v) => eval_to(tr@, fuel as nat).res == EvalRes::Done(v@),
            Err(EvalErr::Stuck) => eval_to(tr@, fuel as nat).res is Stuck,
            Err(EvalErr::OutOfFuel) => eval_to(tr@, fuel as nat).res is OutOfFuel,
        },
    decreases fuel, 0int,
{
    let f2 = fuel - 1;
    match tr {
        Term::TPrintLn(st) => {
            proof {
                assert(tr@ == TermV::VPrintLn(Box::new((**st)@)));
            }
            let rs = eval(env, &**st, f2);
            match rs {
                Err(e) => Err(e),
                Ok(sv) => {
                    proof {
                        lemma_view_shape(sv);
                    }
                    match sv {
                        Term::TString(msg) => {
                            env.println(&msg);
                            proof {
                                lemma_cat_push(
                                    old(env).log(),
                                    eval_to((**st)@, f2 as nat).out,
                                    msg@,
                                );
                            }
                            Ok(Term::TUnit)
                        },
                        _ => Err(EvalErr::Stuck),
                    }
                },
            }
        },
        _ => {
            proof {
                assert(false);
            }
            Err(EvalErr::Stuck)
        },
    }
}

/// Concatenation: both operands are evaluated, left first, and must both
/// reduce to strings; the result is their ordered concatenation.
fn eval_concat<ENV: VM>(env: &mut ENV, tr: &Term, fuel: u64) -> (r: Result<Term, EvalErr>)
    requires
        fuel >= 1,
        tr matches Term::TConcat(_, _),
        !spec_is_value(tr@),
    ensures
        final(env).log() == old(env).log() + eval_to(tr@, fuel as nat).out,
        match r {
            Ok(v) => eval_to(tr@, fuel as nat).res == EvalRes::Done(v@),
            Err(EvalErr::Stuck) => eval_to(tr@, fuel as nat).res is Stuck,
            Err(EvalErr::OutOfFuel) => eval_to(tr@, fuel as nat).res is OutOfFuel,
        },
    decreases fuel, 0int,
{
    let f2 = fuel - 1;
    match tr {
        Term::TConcat(lt, rt) => {
            proof {
                assert(tr@ == TermV::VConcat(Box::new((**lt)@), Box::new((**rt)@)));
            }
            let rl = eval(env, &**lt, f2);
            match rl {
                Err(e) => Err(e),
                Ok(lv) => {
                    let rr = eval(env, &**rt, f2);
                    proof {
                        lemma_cat3(
                            old(env).log(),
                            eval_to((**lt)@, f2 as nat).out,
                            eval_to((**rt)@, f2 as nat).out,
                        );
                        lemma_view_shape(lv);
                    }
                    match rr {
                        Err(e) => Err(e),
                        Ok(rv) => {
                            proof {
                                lemma_view_shape(rv);
                            }
                            match (lv, rv) {
                                (Term::TString(ls), Term::TString(rs2)) => {
                                    let joined = ls.concat(rs2.as_str());
                                    Ok(Term::TString(joined))
                                },
                                _ => Err(EvalErr::Stuck),
                            }
                        },
                    }
                },
            }
        },
        _ => {
            proof {
                assert(false);
            }
            Err(EvalErr::Stuck)
        },
    }
}

/// Sequence: the left operand is evaluated for its effect and discarded,
/// then the right operand's value is the result.
fn eval_seq<ENV: VM>(env: &mut ENV, tr: &Term, fuel: u64) -> (r: Result<Term, EvalErr>)
    requires
        fuel >= 1,
        tr matches Term::TSeq(_, _),
        !spec_is_value(tr@),
    ensures
        final(env).log() == old(env).log() + eval_to(tr@, fuel as nat).out,
        match r {
            Ok(v) => eval_to(tr@, fuel as nat).res == EvalRes::Done(v@),
            Err(EvalErr::Stuck) => eval_to(tr@, fuel as nat).res is Stuck,
            Err(EvalErr::OutOfFuel) => eval_to(tr@, fuel as nat).res is OutOfFuel,
        },
    decreases fuel, 0int,
{
    let f2 = fuel - 1;
    match tr {
        Term::TSeq(lt, rt) => {
            proof {
                assert(tr@ == TermV::VSeq(Box::new((**lt)@), Box::new((**rt)@)));
            }
            let rl = eval(env, &**lt, f2);
            match rl {
                Err(e) => Err(e),
                Ok(_) => {
                    let rr = eval(env, &**rt, f2);
                    proof {
                        lemma_cat3(
                            old(env).log(),
                            eval_to((**lt)@, f2 as nat).out,
                            eval_to((**rt)@, f2 as nat).out,
                        );
                    }
                    rr
                },
            }
        },
        _ => {
            proof {
                assert(false);
            }
            Err(EvalErr::Stuck)
        },
    }
}

/// Show: the operand is evaluated and rendered to its display string; a
/// value with no display form is fatal.
fn eval_show<ENV: VM>(env: &mut ENV, tr: &Term, fuel: u64) -> (r: Result<Term, EvalErr>)
    requires
        fuel >= 1,
        tr matches Term::TShow(_),
        !spec_is_value(tr@),
    ensures
        final(env).log() == old(env).log() + eval_to(tr@, fuel as nat).out,
        match r {
            Ok(v) => eval_to(tr@, fuel as nat).res == EvalRes::Done(v@),
            Err(EvalErr::Stuck) => eval_to(tr@, fuel as nat).res is Stuck,
            Err(EvalErr::OutOfFuel) => eval_to(tr@, fuel as nat).res is OutOfFuel,
        },
    decreases fuel, 0int,
{
    let f2 = fuel - 1;
    match tr {
        Term::TShow(xt) => {
            proof {
                assert(tr@ == TermV::VShow(Box::new((**xt)@)));
            }
            let rx = eval(env, &**xt, f2);
            match rx {
                Err(e) => Err(e),
                Ok(xv) => match show_value(&xv) {
                    Some(s) => Ok(Term::TString(s)),
                    None => Err(EvalErr::Stuck),
                },
            }
        },
        _ => {
            proof {
                assert(false);
            }
            Err(EvalErr::Stuck)
        },
    }
}

/// List and numeral observers: is-nil and is-zero answer permissively with
/// a boolean; first, second and predecessor demand the matching shape and
/// return the stored component, and any other operand is fatal.
fn eval_observer<ENV: VM>(env: &mut ENV, tr: &Term, fuel: u64) -> (r: Result<Term, EvalErr>)
    requires
        fuel >= 1,
        tr matches Term::TIsNil(_) || tr matches Term::TFirst(_) || tr matches Term::TSecond(_)
            || tr matches Term::TIsZero(_) || tr matches Term::TPred(_),
        !spec_is_value(tr@),
    ensures
        final(env).log() == old(env).log() + eval_to(tr@, fuel as nat).out,
        match r {
            Ok(v) => eval_to(tr@, fuel as nat).res == EvalRes::Done(v@),
            Err(EvalErr::Stuck) => eval_to(tr@, fuel as nat).res is Stuck,
            Err(EvalErr::OutOfFuel) => eval_to(tr@, fuel as nat).res is OutOfFuel,
        },
    decreases fuel, 0int,
{
    let f2 = fuel - 1;
    match tr {
        Term::TIsNil(lt) => {
            proof {
                assert(tr@ == TermV::VIsNil(Box::new((**lt)@)));
            }
            let rl = eval(env, &**lt, f2);
            match rl {
                Err(e) => Err(e),
                Ok(v) => {
                    proof {
                        lemma_view_shape(v);
                    }
                    match &v {
                        Term::TNil => Ok(Term::TBool(true)),
                        _ => Ok(Term::TBool(false)),
                    }
                },
            }
        },
        Term::TFirst(xt) => {
            proof {
                assert(tr@ == TermV::VFirst(Box::new((**xt)@)));
            }
            let rx = eval(env, &**xt, f2);
            match rx {
                Err(e) => Err(e),
                Ok(v) => {
                    proof {
                        lemma_view_shape(v);
                    }
                    match &v {
                        Term::TCons(h, _) => Ok((**h).dup()),
                        _ => Err(EvalErr::Stuck),
                    }
                },
            }
        },
        Term::TSecond(xt) => {
            proof {
                assert(tr@ == TermV::VSecond(Box::new((**xt)@)));
            }
            let rx = eval(env, &**xt, f2);
            match rx {
                Err(e) => Err(e),
                Ok(v) => {
                    proof {
                        lemma_view_shape(v);
                    }
                    match &v {
                        Term::TCons(_, tl) => Ok((**tl).dup()),
                        _ => Err(EvalErr::Stuck),
                    }
                },
            }
        },
        Term::TIsZero(xt) => {
            proof {
                assert(tr@ == TermV::VIsZero(Box::new((**xt)@)));
            }
            let rx = eval(env, &**xt, f2);
            match rx {
                Err(e) => Err(e),
                Ok(v) => {
                    proof {
                        lemma_view_shape(v);
                    }
                    match &v {
                        Term::TZero => Ok(Term::TBool(true)),
                        _ => Ok(Term::TBool(false)),
                    }
                },
            }
        },
        Term::TPred(xt) => {
            proof {
                assert(tr@ == TermV::VPred(Box::new((**xt)@)));
            }
            let rx = eval(env, &**xt, f2);
            match rx {
                Err(e) => Err(e),
                Ok(v) => {
                    proof {
                        lemma_view_shape(v);
                    }
                    match &v {
                        Term::TInc(y) => Ok((**y).dup()),
                        _ => Err(EvalErr::Stuck),
                    }
                },
            }
        },
        _ => {
            proof {
                assert(false);
            }
            Err(EvalErr::Stuck)
        },
    }
}

/// Numeral literal: zero denotes zero, a positive value denotes one more
/// increment than the literal below it, and a negative value is fatal.
fn eval_fromi8<ENV: VM>(env: &mut ENV, tr: &Term, fuel: u64) -> (r: Result<Term, EvalErr>)
    requires
        fuel >= 1,
        tr matches Term::TFromi8(_),
        !spec_is_value(tr@),
    ensures
        final(env).log() == old(env).log() + eval_to(tr@, fuel as nat).out,
        match r {
            Ok(v) => eval_to(tr@, fuel as nat).res == EvalRes::Done(v@),
            Err(EvalErr::Stuck) => eval_to(tr@, fuel as nat).res is Stuck,
            Err(EvalErr::OutOfFuel) => eval_to(tr@, fuel as nat).res is OutOfFuel,
        },
    decreases fuel, 0int,
{
    let f2 = fuel - 1;
    match tr {
        Term::TFromi8(n) => {
            let m = *n;
            proof {
                assert(tr@ == TermV::VFromi8(m as int));
                lemma_cat_empty(old(env).log());
            }
            if m == 0 {
                Ok(Term::TZero)
            } else if m < 0 {
                Err(EvalErr::Stuck)
            } else {
                let sub = Term::TFromi8(m - 1);
                proof {
                    assert(sub@ == TermV::VFromi8(m as int - 1));
                }
                let rs = eval(env, &sub, f2);
                match rs {
                    Err(e) => Err(e),
                    Ok(v) => Ok(Term::TInc(Box::new(v))),
                }
            }
        },
        _ => {
            proof {
                assert(false);
            }
            Err(EvalErr::Stuck)
        },
    }
}

/// The derived forms: when, unless, and, or and not desugar onto the
/// conditional, and while desugars onto when, sequence and itself; each is
/// then evaluated by the rule of the form it desugars to.
fn eval_desugar<ENV: VM>(env: &mut ENV, tr: &Term, fuel: u64) -> (r: Result<Term, EvalErr>)
    requires
        fuel >= 1,
        tr matches Term::TWhen(_, _) || tr matches Term::TUnless(_, _)
            || tr matches Term::TAnd(_, _) || tr matches Term::TOr(_, _)
            || tr matches Term::TNot(_) || tr matches Term::TWhile(_, _),
        !spec_is_value(tr@),
    ensures
        final(env).log() == old(env).log() + eval_to(tr@, fuel as nat).out,
        match r {
            Ok(v) => eval_to(tr@, fuel as nat).res == EvalRes::Done(v@),
            Err(EvalErr::Stuck) => eval_to(tr@, fuel as nat).res is Stuck,
            Err(EvalErr::OutOfFuel) => eval_to(tr@, fuel as nat).res is OutOfFuel,
        },
    decreases fuel, 0int,
{
    let f2 = fuel - 1;
    match tr {
        Term::TWhen(ct, at) => {
            let des = Term::TCon(
                Box::new(ct.dup()),
                Box::new(at.dup()),
                Box::new(Term::TUnit),
            );
            proof {
                assert(crate::term::term_view(Term::TUnit) == TermV::VUnit);
                assert(tr@ == TermV::VWhen(Box::new((**ct)@), Box::new((**at)@)));
                assert(des@ == TermV::VCon(
                    Box::new((**ct)@),
                    Box::new((**at)@),
                    Box::new(TermV::VUnit),
                ));
            }
            eval(env, &des, f2)
        },
        Term::TUnless(ct, at) => {
            let des = Term::TCon(
                Box::new(ct.dup()),
                Box::new(Term::TUnit),
                Box::new(at.dup()),
            );
            proof {
                assert(crate::term::term_view(Term::TUnit) == TermV::VUnit);
                assert(tr@ == TermV::VUnless(Box::new((**ct)@), Box::new((**at)@)));
                assert(des@ == TermV::VCon(
                    Box::new((**ct)@),
                    Box::new(TermV::VUnit),
                    Box::new((**at)@),
                ));
            }
            eval(env, &des, f2)
        },
        Term::TAnd(lt, rt) => {
            let des = Term::TCon(
                Box::new(lt.dup()),
                Box::new(rt.dup()),
                Box::new(Term::TBool(false)),
            );
            proof {
                assert(crate::term::term_view(Term::TBool(false)) == TermV::VBool(false));
                assert(tr@ == TermV::VAnd(Box::new((**lt)@), Box::new((**rt)@)));
                assert(des@ == TermV::VCon(
                    Box::new((**lt)@),
                    Box::new((**rt)@),
                    Box::new(TermV::VBool(false)),
                ));
            }
            eval(env, &des, f2)
        },
        Term::TOr(lt, rt) => {
            let des = Term::TCon(
                Box::new(lt.dup()),
                Box::new(Term::TBool(true)),
                Box::new(rt.dup()),
            );
            proof {
                assert(crate::term::term_view(Term::TBool(true)) == TermV::VBool(true));
                assert(tr@ == TermV::VOr(Box::new((**lt)@), Box::new((**rt)@)));
                assert(des@ == TermV::VCon(
                    Box::new((**lt)@),
                    Box::new(TermV::VBool(true)),
                    Box::new((**rt)@),
                ));
            }
            eval(env, &des, f2)
        },
        Term::TNot(ct) => {
            let des = Term::TCon(
                Box::new(ct.dup()),
                Box::new(Term::TBool(false)),
                Box::new(Term::TBool(true)),
            );
            proof {
                assert(crate::term::term_view(Term::TBool(false)) == TermV::VBool(false));
                assert(crate::term::term_view(Term::TBool(true)) == TermV::VBool(true));
                assert(tr@ == TermV::VNot(Box::new((**ct)@)));
                assert(des@ == TermV::VCon(
                    Box::new((**ct)@),
                    Box::new(TermV::VBool(false)),
                    Box::new(TermV::VBool(true)),
                ));
            }
            eval(env, &des, f2)
        },
        Term::TWhile(ct, bt) => {
            let again = Term::TWhile(Box::new(ct.dup()), Box::new(bt.dup()));
            let ghost againv = again@;
            proof {
                assert(againv == TermV::VWhile(Box::new((**ct)@), Box::new((**bt)@)));
            }
            let body_then_again = Term::TSeq(Box::new(bt.dup()), Box::new(again));
            let ghost seqv = body_then_again@;
            proof {
                assert(seqv == TermV::VSeq(Box::new((**bt)@), Box::new(againv)));
            }
            let des = Term::TWhen(Box::new(ct.dup()), Box::new(body_then_again));
            proof {
                assert(tr@ == TermV::VWhile(Box::new((**ct)@), Box::new((**bt)@)));
                assert(des@ == TermV::VWhen(Box::new((**ct)@), Box::new(seqv)));
            }
            eval(env, &des, f2)
        },
        _ => {
            proof {
                assert(false);
            }
            Err(EvalErr::Stuck)
        },
    }
}

/// The big-step evaluator. Reduces `tr` to a normal form, sending each line
/// that a `println` node produces to the capability `env`, and spending one
/// unit of fuel on each recursive evaluation step.
///
/// The result and the lines printed are exactly those of the reduction
/// relation `eval_to`: a `Stuck` error reports the fatal ill-formed-term
/// condition of the language, and `OutOfFuel` reports only that the given
/// fuel bound was too small for this term.
pub fn eval<ENV: VM>(env: &mut ENV, tr: &Term, fuel: u64) -> (r: Result<Term, EvalErr>)
    ensures
        final(env).log() == old(env).log() + eval_to(tr@, fuel as nat).out,
        match r {
            Ok(v) => eval_to(tr@, fuel as nat).res == EvalRes::Done(v@),
            Err(EvalErr::Stuck) => eval_to(tr@, fuel as nat).res is Stuck,
            Err(EvalErr::OutOfFuel) => eval_to(tr@, fuel as nat).res is OutOfFuel,
        },
    decreases fuel, 1int,
{
    if fuel == 0 {
        proof {
            lemma_cat_empty(old(env).log());
        }
        return Err(EvalErr::OutOfFuel);
    }
    if is_value(tr) {
        proof {
            lemma_cat_empty(old(env).log());
        }
        return Ok(tr.dup());
    }
    match tr {
        Term::TApp(_, _) => eval_app(env, tr, fuel),
        Term::TCon(_, _, _) => eval_con(env, tr, fuel),
        Term::TPrintLn(_) => eval_println(env, tr, fuel),
        Term::TConcat(_, _) => eval_concat(env, tr, fuel),
        Term::TSeq(_, _) => eval_seq(env, tr, fuel),
        Term::TShow(_) => eval_show(env, tr, fuel),
        Term::TWhen(_, _) | Term::TUnless(_, _) | Term::TAnd(_, _) | Term::TOr(_, _)
        | Term::TNot(_) | Term::TWhile(_, _) => eval_desugar(env, tr, fuel),
        Term::TIsNil(_) | Term::TFirst(_) | Term::TSecond(_) | Term::TIsZero(_)
        | Term::TPred(_) => eval_observer(env, tr, fuel),
        Term::TFromi8(_) => eval_fromi8(env, tr, fuel),
        Term::TCons(lt, rt) => {
            proof {
                assert(tr@ == TermV::VCons(Box::new((**lt)@), Box::new((**rt)@)));
                lemma_cat_empty(old(env).log());
            }
            Err(EvalErr::Stuck)
        },
        Term::TInc(xt) => {
            proof {
                assert(tr@ == TermV::VInc(Box::new((**xt)@)));
                lemma_cat_empty(old(env).log());
            }
            Err(EvalErr::Stuck)
        },
        _ => {
            proof {
                assert(spec_is_value(tr@));
                assert(false);
            }
            Err(EvalErr::Stuck)
        },
    }
}

} // verus!

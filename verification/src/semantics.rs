use vstd::prelude::*;
use crate::term::{TermV, spec_is_value, render};

verus! {

/// How one big-step evaluation ended: with the value it reduced to, stuck on
/// an ill-formed term (a fatal condition at run time), or out of fuel.
pub enum EvalRes {
    Done(TermV),
    Stuck,
    OutOfFuel,
}

/// What one big-step evaluation did: the lines it printed, in order, up to
/// the point where it ended, and how it ended.
pub struct Outcome {
    pub out: Seq<Seq<char>>,
    pub res: EvalRes,
}

/// The big-step reduction relation, indexed by fuel. Fuel pays for each
/// recursive evaluation step, so the function is total even though the
/// language itself has non-terminating terms; `OutOfFuel` marks the runs
/// that a fuel-free evaluator would have continued.
///
/// A term that is already a value evaluates to itself. An application
/// evaluates operator then operand and applies the first matching rule:
/// `((S x) y) z` rewrites to `(x z) (y z)` and is evaluated further,
/// `(K x) y` yields `x`, `I x` yields `x`, and anything else is itself a
/// normal form. The built-in forms evaluate their pieces left to right and
/// are stuck when a piece has the wrong shape; `when`, `unless`, `and`,
/// `or`, `not` and `while` desugar onto the conditional and sequence forms.
pub open spec fn eval_to(t: TermV, fuel: nat) -> Outcome
    decreases fuel,
{
    if fuel == 0 {
        Outcome { out: Seq::empty(), res: EvalRes::OutOfFuel }
    } else if spec_is_value(t) {
        Outcome { out: Seq::empty(), res: EvalRes::Done(t) }
    } else {
        let f = (fuel - 1) as nat;
        match t {
            TermV::VApp(lt, rt) => {
                let o1 = eval_to(*lt, f);
                match o1.res {
                    EvalRes::Done(lv) => {
                        let o2 = eval_to(*rt, f);
                        match o2.res {
                            EvalRes::Done(rv) => match lv {
                                TermV::VApp(lf, la) => match *lf {
                                    TermV::VK => Outcome {
                                        out: o1.out + o2.out,
                                        res: EvalRes::Done(*la),
                                    },
                                    TermV::VApp(ls, lx) => if *ls is VS {
                                        let o3 = eval_to(
                                            TermV::VApp(
                                                Box::new(TermV::VApp(lx, Box::new(rv))),
                                                Box::new(TermV::VApp(la, Box::new(rv))),
                                            ),
                                            f,
                                        );
                                        Outcome { out: o1.out + o2.out + o3.out, res: o3.res }
                                    } else {
                                        Outcome {
                                            out: o1.out + o2.out,
                                            res: EvalRes::Done(
                                                TermV::VApp(Box::new(lv), Box::new(rv)),
                                            ),
                                        }
                                    },
                                    _ => Outcome {
                                        out: o1.out + o2.out,
                                        res: EvalRes::Done(
                                            TermV::VApp(Box::new(lv), Box::new(rv)),
                                        ),
                                    },
                                },
                                TermV::VI => Outcome {
                                    out: o1.out + o2.out,
                                    res: EvalRes::Done(rv),
                                },
                                _ => Outcome {
                                    out: o1.out + o2.out,
                                    res: EvalRes::Done(TermV::VApp(Box::new(lv), Box::new(rv))),
                                },
                            },
                            _ => Outcome { out: o1.out + o2.out, res: o2.res },
                        }
                    },
                    _ => o1,
                }
            },
            TermV::VCon(ct, tt, et) => {
                let o1 = eval_to(*ct, f);
                match o1.res {
                    EvalRes::Done(cv) => match cv {
                        TermV::VBool(b) => {
                            let o2 = eval_to(if b { *tt } else { *et }, f);
                            Outcome { out: o1.out + o2.out, res: o2.res }
                        },
                        _ => Outcome { out: o1.out, res: EvalRes::Stuck },
                    },
                    _ => o1,
                }
            },
            TermV::VPrintLn(st) => {
                let o1 = eval_to(*st, f);
                match o1.res {
                    EvalRes::Done(v) => match v {
                        TermV::VString(s) => Outcome {
                            out: o1.out.push(s),
                            res: EvalRes::Done(TermV::VUnit),
                        },
                        _ => Outcome { out: o1.out, res: EvalRes::Stuck },
                    },
                    _ => o1,
                }
            },
            TermV::VConcat(lt, rt) => {
                let o1 = eval_to(*lt, f);
                match o1.res {
                    EvalRes::Done(lv) => {
                        let o2 = eval_to(*rt, f);
                        match o2.res {
                            EvalRes::Done(rv) => match (lv, rv) {
                                (TermV::VString(ls), TermV::VString(rs)) => Outcome {
                                    out: o1.out + o2.out,
                                    res: EvalRes::Done(TermV::VString(ls + rs)),
                                },
                                _ => Outcome { out: o1.out + o2.out, res: EvalRes::Stuck },
                            },
                            _ => Outcome { out: o1.out + o2.out, res: o2.res },
                        }
                    },
                    _ => o1,
                }
            },
            TermV::VSeq(lt, rt) => {
                let o1 = eval_to(*lt, f);
                match o1.res {
                    EvalRes::Done(_) => {
                        let o2 = eval_to(*rt, f);
                        Outcome { out: o1.out + o2.out, res: o2.res }
                    },
                    _ => o1,
                }
            },
            TermV::VShow(xt) => {
                let o1 = eval_to(*xt, f);
                match o1.res {
                    EvalRes::Done(v) => match render(v) {
                        Some(s) => Outcome { out: o1.out, res: EvalRes::Done(TermV::VString(s)) },
                        None => Outcome { out: o1.out, res: EvalRes::Stuck },
                    },
                    _ => o1,
                }
            },
            TermV::VWhen(c, a) => eval_to(
                TermV::VCon(c, a, Box::new(TermV::VUnit)),
                f,
            ),
            TermV::VUnless(c, a) => eval_to(
                TermV::VCon(c, Box::new(TermV::VUnit), a),
                f,
            ),
            TermV::VAnd(l, r) => eval_to(
                TermV::VCon(l, r, Box::new(TermV::VBool(false))),
                f,
            ),
            TermV::VOr(l, r) => eval_to(
                TermV::VCon(l, Box::new(TermV::VBool(true)), r),
                f,
            ),
            TermV::VNot(c) => eval_to(
                TermV::VCon(c, Box::new(TermV::VBool(false)), Box::new(TermV::VBool(true))),
                f,
            ),
            TermV::VWhile(c, b) => eval_to(
                TermV::VWhen(
                    c,
                    Box::new(TermV::VSeq(b, Box::new(TermV::VWhile(c, b)))),
                ),
                f,
            ),
            TermV::VIsNil(lt) => {
                let o1 = eval_to(*lt, f);
                match o1.res {
                    EvalRes::Done(v) => Outcome {
                        out: o1.out,
                        res: EvalRes::Done(TermV::VBool(v is VNil)),
                    },
                    _ => o1,
                }
            },
            TermV::VFirst(xt) => {
                let o1 = eval_to(*xt, f);
                match o1.res {
                    EvalRes::Done(v) => match v {
                        TermV::VCons(h, _) => Outcome { out: o1.out, res: EvalRes::Done(*h) },
                        _ => Outcome { out: o1.out, res: EvalRes::Stuck },
                    },
                    _ => o1,
                }
            },
            TermV::VSecond(xt) => {
                let o1 = eval_to(*xt, f);
                match o1.res {
                    EvalRes::Done(v) => match v {
                        TermV::VCons(_, tl) => Outcome { out: o1.out, res: EvalRes::Done(*tl) },
                        _ => Outcome { out: o1.out, res: EvalRes::Stuck },
                    },
                    _ => o1,
                }
            },
            TermV::VIsZero(xt) => {
                let o1 = eval_to(*xt, f);
                match o1.res {
                    EvalRes::Done(v) => Outcome {
                        out: o1.out,
                        res: EvalRes::Done(TermV::VBool(v is VZero)),
                    },
                    _ => o1,
                }
            },
            TermV::VPred(xt) => {
                let o1 = eval_to(*xt, f);
                match o1.res {
                    EvalRes::Done(v) => match v {
                        TermV::VInc(y) => Outcome { out: o1.out, res: EvalRes::Done(*y) },
                        _ => Outcome { out: o1.out, res: EvalRes::Stuck },
                    },
                    _ => o1,
                }
            },
            TermV::VFromi8(n) => {
                if n == 0 {
                    Outcome { out: Seq::empty(), res: EvalRes::Done(TermV::VZero) }
                } else if n < 0 {
                    Outcome { out: Seq::empty(), res: EvalRes::Stuck }
                } else {
                    let o1 = eval_to(TermV::VFromi8(n - 1), f);
                    match o1.res {
                        EvalRes::Done(v) => Outcome {
                            out: o1.out,
                            res: EvalRes::Done(TermV::VInc(Box::new(v))),
                        },
                        _ => o1,
                    }
                }
            },
            _ => Outcome { out: Seq::empty(), res: EvalRes::Stuck },
        }
    }
}

} // verus!

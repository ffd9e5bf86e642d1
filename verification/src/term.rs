use vstd::prelude::*;
use vstd::string::StringExecFns;

verus! {

/// One program fragment of the embedded combinator language.
///
/// Leaves are the string, boolean and unit literals, the three base
/// combinators S, K and I, the empty-list sentinel, the Peano zero, and a
/// small-integer literal that evaluation expands into a Peano numeral.
/// Every compound variant owns its subterms exclusively; reduction builds
/// new trees and never mutates one in place.
#[derive(PartialEq, PartialOrd, Debug)]
pub enum Term {
    TString(String),
    TBool(bool),
    TConcat(Box<Term>, Box<Term>),
    TCon(Box<Term>, Box<Term>, Box<Term>),
    TWhen(Box<Term>, Box<Term>),
    TUnless(Box<Term>, Box<Term>),
    TPrintLn(Box<Term>),
    TUnit,
    TSeq(Box<Term>, Box<Term>),
    TShow(Box<Term>),
    TAnd(Box<Term>, Box<Term>),
    TOr(Box<Term>, Box<Term>),
    TNot(Box<Term>),
    TWhile(Box<Term>, Box<Term>),
    TS,
    TK,
    TI,
    TApp(Box<Term>, Box<Term>),
    TNil,
    TCons(Box<Term>, Box<Term>),
    TIsNil(Box<Term>),
    TFirst(Box<Term>),
    TSecond(Box<Term>),
    TZero,
    TInc(Box<Term>),
    TIsZero(Box<Term>),
    TPred(Box<Term>),
    TFromi8(i8),
}

/// The mathematical shape of a `Term`: the same tree with each string
/// literal abstracted to its sequence of characters and the numeral
/// literal widened to a mathematical integer. All contracts speak of this
/// type, through `Term::view`.
pub enum TermV {
    VString(Seq<char>),
    VBool(bool),
    VConcat(Box<TermV>, Box<TermV>),
    VCon(Box<TermV>, Box<TermV>, Box<TermV>),
    VWhen(Box<TermV>, Box<TermV>),
    VUnless(Box<TermV>, Box<TermV>),
    VPrintLn(Box<TermV>),
    VUnit,
    VSeq(Box<TermV>, Box<TermV>),
    VShow(Box<TermV>),
    VAnd(Box<TermV>, Box<TermV>),
    VOr(Box<TermV>, Box<TermV>),
    VNot(Box<TermV>),
    VWhile(Box<TermV>, Box<TermV>),
    VS,
    VK,
    VI,
    VApp(Box<TermV>, Box<TermV>),
    VNil,
    VCons(Box<TermV>, Box<TermV>),
    VIsNil(Box<TermV>),
    VFirst(Box<TermV>),
    VSecond(Box<TermV>),
    VZero,
    VInc(Box<TermV>),
    VIsZero(Box<TermV>),
    VPred(Box<TermV>),
    VFromi8(int),
}

pub open spec fn term_view(t: Term) -> TermV
    decreases t,
{
    match t {
        Term::TString(s) => TermV::VString(s@),
        Term::TBool(b) => TermV::VBool(b),
        Term::TConcat(l, r) => TermV::VConcat(Box::new(term_view(*l)), Box::new(term_view(*r))),
        Term::TCon(c, a, b) => TermV::VCon(
            Box::new(term_view(*c)),
            Box::new(term_view(*a)),
            Box::new(term_view(*b)),
        ),
        Term::TWhen(c, a) => TermV::VWhen(Box::new(term_view(*c)), Box::new(term_view(*a))),
        Term::TUnless(c, a) => TermV::VUnless(Box::new(term_view(*c)), Box::new(term_view(*a))),
        Term::TPrintLn(s) => TermV::VPrintLn(Box::new(term_view(*s))),
        Term::TUnit => TermV::VUnit,
        Term::TSeq(l, r) => TermV::VSeq(Box::new(term_view(*l)), Box::new(term_view(*r))),
        Term::TShow(x) => TermV::VShow(Box::new(term_view(*x))),
        Term::TAnd(l, r) => TermV::VAnd(Box::new(term_view(*l)), Box::new(term_view(*r))),
        Term::TOr(l, r) => TermV::VOr(Box::new(term_view(*l)), Box::new(term_view(*r))),
        Term::TNot(c) => TermV::VNot(Box::new(term_view(*c))),
        Term::TWhile(c, b) => TermV::VWhile(Box::new(term_view(*c)), Box::new(term_view(*b))),
        Term::TS => TermV::VS,
        Term::TK => TermV::VK,
        Term::TI => TermV::VI,
        Term::TApp(l, r) => TermV::VApp(Box::new(term_view(*l)), Box::new(term_view(*r))),
        Term::TNil => TermV::VNil,
        Term::TCons(l, r) => TermV::VCons(Box::new(term_view(*l)), Box::new(term_view(*r))),
        Term::TIsNil(x) => TermV::VIsNil(Box::new(term_view(*x))),
        Term::TFirst(x) => TermV::VFirst(Box::new(term_view(*x))),
        Term::TSecond(x) => TermV::VSecond(Box::new(term_view(*x))),
        Term::TZero => TermV::VZero,
        Term::TInc(x) => TermV::VInc(Box::new(term_view(*x))),
        Term::TIsZero(x) => TermV::VIsZero(Box::new(term_view(*x))),
        Term::TPred(x) => TermV::VPred(Box::new(term_view(*x))),
        Term::TFromi8(n) => TermV::VFromi8(n as int),
    }
}

impl View for Term {
    type V = TermV;

    open spec fn view(&self) -> TermV {
        term_view(*self)
    }
}

/// The normal-form subset of the language: atoms, bare combinators, a K or
/// an S applied to a value, an S applied to one value and then to a second,
/// the empty list, a pair of values, zero, and an increment chain around a
/// value. Everything else is reducible.
pub open spec fn spec_is_value(t: TermV) -> bool
    decreases t,
{
    match t {
        TermV::VS | TermV::VK | TermV::VI => true,
        TermV::VString(_) | TermV::VBool(_) | TermV::VUnit => true,
        TermV::VApp(f, a) => match *f {
            TermV::VK | TermV::VS => spec_is_value(*a),
            TermV::VApp(g, x) => *g is VS && spec_is_value(*x) && spec_is_value(*a),
            _ => false,
        },
        TermV::VNil | TermV::VZero => true,
        TermV::VCons(l, r) => spec_is_value(*l) && spec_is_value(*r),
        TermV::VInc(x) => spec_is_value(*x),
        _ => false,
    }
}

/// Classifies a term as a normal form, as defined by `spec_is_value`.
pub fn is_value(tr: &Term) -> (r: bool)
    ensures
        r == spec_is_value(tr@),
    decreases *tr,
{
    match tr {
        Term::TS | Term::TK | Term::TI => true,
        Term::TString(_) | Term::TBool(_) | Term::TUnit => true,
        Term::TApp(f, a) => {
            proof {
                assert(tr@ == TermV::VApp(Box::new((**f)@), Box::new((**a)@)));
            }
            match &**f {
                Term::TK | Term::TS => is_value(&**a),
                Term::TApp(g, x) => {
                    proof {
                        assert((**f)@ == TermV::VApp(Box::new((**g)@), Box::new((**x)@)));
                    }
                    match &**g {
                        Term::TS => is_value(&**x) && is_value(&**a),
                        _ => false,
                    }
                },
                _ => false,
            }
        },
        Term::TNil | Term::TZero => true,
        Term::TCons(l, r) => is_value(&**l) && is_value(&**r),
        Term::TInc(x) => is_value(&**x),
        _ => false,
    }
}

impl Term {
    /// A structural copy. Reduction never shares subtrees, so the evaluator
    /// copies whatever it must reuse.
    pub fn dup(&self) -> (r: Term)
        ensures
            r == *self,
        decreases *self,
    {
        match self {
            Term::TString(s) => Term::TString(s.clone()),
            Term::TBool(b) => Term::TBool(*b),
            Term::TConcat(l, r) => Term::TConcat(Box::new(l.dup()), Box::new(r.dup())),
            Term::TCon(c, a, b) => Term::TCon(
                Box::new(c.dup()),
                Box::new(a.dup()),
                Box::new(b.dup()),
            ),
            Term::TWhen(c, a) => Term::TWhen(Box::new(c.dup()), Box::new(a.dup())),
            Term::TUnless(c, a) => Term::TUnless(Box::new(c.dup()), Box::new(a.dup())),
            Term::TPrintLn(s) => Term::TPrintLn(Box::new(s.dup())),
            Term::TUnit => Term::TUnit,
            Term::TSeq(l, r) => Term::TSeq(Box::new(l.dup()), Box::new(r.dup())),
            Term::TShow(x) => Term::TShow(Box::new(x.dup())),
            Term::TAnd(l, r) => Term::TAnd(Box::new(l.dup()), Box::new(r.dup())),
            Term::TOr(l, r) => Term::TOr(Box::new(l.dup()), Box::new(r.dup())),
            Term::TNot(c) => Term::TNot(Box::new(c.dup())),
            Term::TWhile(c, b) => Term::TWhile(Box::new(c.dup()), Box::new(b.dup())),
            Term::TS => Term::TS,
            Term::TK => Term::TK,
            Term::TI => Term::TI,
            Term::TApp(l, r) => Term::TApp(Box::new(l.dup()), Box::new(r.dup())),
            Term::TNil => Term::TNil,
            Term::TCons(l, r) => Term::TCons(Box::new(l.dup()), Box::new(r.dup())),
            Term::TIsNil(x) => Term::TIsNil(Box::new(x.dup())),
            Term::TFirst(x) => Term::TFirst(Box::new(x.dup())),
            Term::TSecond(x) => Term::TSecond(Box::new(x.dup())),
            Term::TZero => Term::TZero,
            Term::TInc(x) => Term::TInc(Box::new(x.dup())),
            Term::TIsZero(x) => Term::TIsZero(Box::new(x.dup())),
            Term::TPred(x) => Term::TPred(Box::new(x.dup())),
            Term::TFromi8(n) => Term::TFromi8(*n),
        }
    }
}

/// The canonical display form of a value: a string passes through, booleans
/// print as `true`/`false`, unit as `unit`, zero as `O`, and an increment
/// chain as `(S <display of its argument>)`. Every other shape has no
/// display form.
pub open spec fn render(v: TermV) -> Option<Seq<char>>
    decreases v,
{
    match v {
        TermV::VString(s) => Some(s),
        TermV::VBool(b) => Some(if b { "true"@ } else { "false"@ }),
        TermV::VUnit => Some("unit"@),
        TermV::VZero => Some("O"@),
        TermV::VInc(x) => match render(*x) {
            Some(s) => Some("(S "@ + s + ")"@),
            None => None,
        },
        _ => None,
    }
}

/// Renders a value to its display string, or reports that it has none.
pub fn show_value(v: &Term) -> (r: Option<String>)
    ensures
        match r {
            Some(s) => render(v@) == Some(s@),
            None => render(v@) is None,
        },
    decreases *v,
{
    match v {
        Term::TString(s) => Some(s.clone()),
        Term::TBool(b) => Some(
            if *b {
                String::from_str("true")
            } else {
                String::from_str("false")
            },
        ),
        Term::TUnit => Some(String::from_str("unit")),
        Term::TZero => Some(String::from_str("O")),
        Term::TInc(x) => match show_value(&**x) {
            Some(s) => {
                let mut out = String::from_str("(S ");
                out.append(s.as_str());
                out.append(")");
                Some(out)
            },
            None => None,
        },
        _ => None,
    }
}

/// The Peano numeral that denotes `n`: `n` increments wrapped around zero.
pub open spec fn numeral(n: nat) -> TermV
    decreases n,
{
    if n == 0 {
        TermV::VZero
    } else {
        TermV::VInc(Box::new(numeral((n - 1) as nat)))
    }
}

} // verus!

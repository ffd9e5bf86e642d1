use skilang::{eval, is_value, EvalErr, Term, TestVM};

const FUEL: u64 = 1000;

fn s(x: &str) -> Term {
    Term::TString(String::from(x))
}

#[test]
fn test_conditional() {
    assert_eq!(
        eval(
            &mut TestVM::new(),
            &Term::TCon(
                Box::new(Term::TBool(true)),
                Box::new(s("Hello")),
                Box::new(s("World")),
            ),
            FUEL,
        ),
        Ok(s("Hello")),
    );
}

#[test]
fn test_concat() {
    assert_eq!(
        eval(
            &mut TestVM::new(),
            &Term::TConcat(Box::new(s("Hello ")), Box::new(s("World"))),
            FUEL,
        ),
        Ok(s("Hello World")),
    );
}

#[test]
fn test_isnil_nil() {
    assert_eq!(
        eval(&mut TestVM::new(), &Term::TIsNil(Box::new(Term::TNil)), FUEL),
        Ok(Term::TBool(true)),
    );
}

#[test]
fn test_not_isnil_nonnil() {
    assert_eq!(
        eval(
            &mut TestVM::new(),
            &Term::TNot(Box::new(Term::TIsNil(Box::new(Term::TCons(
                Box::new(Term::TNil),
                Box::new(Term::TNil),
            ))))),
            FUEL,
        ),
        Ok(Term::TBool(true)),
    );
}

#[test]
fn test_or_is_zero_pred_inc() {
    assert_eq!(
        eval(
            &mut TestVM::new(),
            &Term::TOr(
                Box::new(Term::TBool(false)),
                Box::new(Term::TIsZero(Box::new(Term::TPred(Box::new(Term::TInc(
                    Box::new(Term::TZero),
                )))))),
            ),
            FUEL,
        ),
        Ok(Term::TBool(true)),
    );
}

#[test]
fn test_unless_and_println_show_fromi() {
    let mut x = TestVM::new();
    let r = eval(
        &mut x,
        &Term::TUnless(
            Box::new(Term::TAnd(
                Box::new(Term::TBool(true)),
                Box::new(Term::TBool(false)),
            )),
            Box::new(Term::TPrintLn(Box::new(Term::TShow(Box::new(
                Term::TFromi8(9),
            ))))),
        ),
        FUEL,
    );
    assert!(r.is_ok());
    assert_eq!(
        x.output,
        vec![String::from("(S (S (S (S (S (S (S (S (S O)))))))))")],
    );
}

#[test]
fn test_app_SKI() {
    assert_eq!(
        eval(
            &mut TestVM::new(),
            &Term::TApp(
                Box::new(Term::TApp(
                    Box::new(Term::TK),
                    Box::new(Term::TApp(
                        Box::new(Term::TI),
                        Box::new(Term::TApp(Box::new(Term::TS), Box::new(Term::TK))),
                    )),
                )),
                Box::new(Term::TS),
            ),
            FUEL,
        ),
        Ok(Term::TApp(Box::new(Term::TS), Box::new(Term::TK))),
    );
}

#[test]
fn s_combinator_distributes() {
    // S K K x reduces to x: (K x) applied to (K x) picks out x itself.
    let t = Term::TApp(
        Box::new(Term::TApp(
            Box::new(Term::TApp(Box::new(Term::TS), Box::new(Term::TK))),
            Box::new(Term::TK),
        )),
        Box::new(Term::TBool(true)),
    );
    assert_eq!(eval(&mut TestVM::new(), &t, FUEL), Ok(Term::TBool(true)));
}

#[test]
fn value_evaluates_to_itself() {
    let v = Term::TCons(
        Box::new(Term::TInc(Box::new(Term::TZero))),
        Box::new(Term::TNil),
    );
    let mut vm = TestVM::new();
    assert_eq!(eval(&mut vm, &v, FUEL), Ok(v));
    assert!(vm.output.is_empty());
}

#[test]
fn evaluation_result_is_a_normal_form() {
    let t = Term::TApp(
        Box::new(Term::TApp(
            Box::new(Term::TK),
            Box::new(Term::TApp(Box::new(Term::TS), Box::new(Term::TK))),
        )),
        Box::new(Term::TS),
    );
    let r = eval(&mut TestVM::new(), &t, FUEL).unwrap();
    assert!(is_value(&r));
    // Evaluating the result again changes nothing.
    assert_eq!(eval(&mut TestVM::new(), &r, FUEL), Ok(r));
}

#[test]
fn while_false_is_unit_and_silent() {
    let t = Term::TWhile(
        Box::new(Term::TBool(false)),
        Box::new(Term::TPrintLn(Box::new(s("never")))),
    );
    let mut vm = TestVM::new();
    assert_eq!(eval(&mut vm, &t, FUEL), Ok(Term::TUnit));
    assert!(vm.output.is_empty());
}

#[test]
fn show_numeral_has_one_s_per_increment() {
    assert_eq!(
        eval(
            &mut TestVM::new(),
            &Term::TShow(Box::new(Term::TFromi8(3))),
            FUEL,
        ),
        Ok(s("(S (S (S O)))")),
    );
    assert_eq!(
        eval(
            &mut TestVM::new(),
            &Term::TShow(Box::new(Term::TFromi8(0))),
            FUEL,
        ),
        Ok(s("O")),
    );
}

#[test]
fn show_renders_each_atom() {
    assert_eq!(
        eval(&mut TestVM::new(), &Term::TShow(Box::new(s("as is"))), FUEL),
        Ok(s("as is")),
    );
    assert_eq!(
        eval(
            &mut TestVM::new(),
            &Term::TShow(Box::new(Term::TBool(true))),
            FUEL,
        ),
        Ok(s("true")),
    );
    assert_eq!(
        eval(
            &mut TestVM::new(),
            &Term::TShow(Box::new(Term::TBool(false))),
            FUEL,
        ),
        Ok(s("false")),
    );
    assert_eq!(
        eval(
            &mut TestVM::new(),
            &Term::TShow(Box::new(Term::TUnit)),
            FUEL,
        ),
        Ok(s("unit")),
    );
}

#[test]
fn concat_is_associative() {
    let left = Term::TConcat(
        Box::new(Term::TConcat(Box::new(s("a")), Box::new(s("b")))),
        Box::new(s("c")),
    );
    let right = Term::TConcat(
        Box::new(s("a")),
        Box::new(Term::TConcat(Box::new(s("b")), Box::new(s("c")))),
    );
    let l = eval(&mut TestVM::new(), &left, FUEL);
    let r = eval(&mut TestVM::new(), &right, FUEL);
    assert_eq!(l, r);
    assert_eq!(l, Ok(s("abc")));
}

#[test]
fn sequence_runs_left_then_right() {
    let t = Term::TSeq(
        Box::new(Term::TPrintLn(Box::new(s("first")))),
        Box::new(Term::TPrintLn(Box::new(s("second")))),
    );
    let mut vm = TestVM::new();
    assert_eq!(eval(&mut vm, &t, FUEL), Ok(Term::TUnit));
    assert_eq!(vm.output, vec![String::from("first"), String::from("second")]);
}

#[test]
fn first_and_second_project_a_pair() {
    let pair = || {
        Term::TCons(
            Box::new(Term::TZero),
            Box::new(Term::TInc(Box::new(Term::TZero))),
        )
    };
    assert_eq!(
        eval(&mut TestVM::new(), &Term::TFirst(Box::new(pair())), FUEL),
        Ok(Term::TZero),
    );
    assert_eq!(
        eval(&mut TestVM::new(), &Term::TSecond(Box::new(pair())), FUEL),
        Ok(Term::TInc(Box::new(Term::TZero))),
    );
}

#[test]
fn stuck_terms_report_the_fatal_condition() {
    // Conditioning on a non-boolean.
    assert_eq!(
        eval(
            &mut TestVM::new(),
            &Term::TCon(
                Box::new(Term::TZero),
                Box::new(Term::TUnit),
                Box::new(Term::TUnit),
            ),
            FUEL,
        ),
        Err(EvalErr::Stuck),
    );
    // Predecessor of zero.
    assert_eq!(
        eval(
            &mut TestVM::new(),
            &Term::TPred(Box::new(Term::TZero)),
            FUEL,
        ),
        Err(EvalErr::Stuck),
    );
    // Showing a value with no display form.
    assert_eq!(
        eval(&mut TestVM::new(), &Term::TShow(Box::new(Term::TNil)), FUEL),
        Err(EvalErr::Stuck),
    );
    // A negative numeral literal.
    assert_eq!(
        eval(&mut TestVM::new(), &Term::TFromi8(-1), FUEL),
        Err(EvalErr::Stuck),
    );
}

#[test]
fn endless_loop_runs_out_of_fuel() {
    let t = Term::TWhile(Box::new(Term::TBool(true)), Box::new(Term::TUnit));
    assert_eq!(eval(&mut TestVM::new(), &t, 50), Err(EvalErr::OutOfFuel));
}

#[test]
fn is_value_classifies_normal_forms() {
    assert!(is_value(&Term::TApp(Box::new(Term::TS), Box::new(Term::TK))));
    assert!(is_value(&Term::TApp(
        Box::new(Term::TApp(Box::new(Term::TS), Box::new(Term::TI))),
        Box::new(Term::TK),
    )));
    assert!(is_value(&Term::TInc(Box::new(Term::TZero))));
    assert!(!is_value(&Term::TFromi8(0)));
    assert!(!is_value(&Term::TApp(Box::new(Term::TI), Box::new(Term::TK))));
    assert!(!is_value(&Term::TNot(Box::new(Term::TBool(true)))));
}

#[test]
fn default_vm_prints_to_stdout() {
    let mut vm = skilang::DefaultVM::new();
    let t = Term::TPrintLn(Box::new(s("hello from the default sink")));
    assert_eq!(eval(&mut vm, &t, FUEL), Ok(Term::TUnit));
}

#[test]
fn show_value_renders_only_displayable_values() {
    assert_eq!(
        skilang::show_value(&Term::TBool(true)),
        Some(String::from("true")),
    );
    assert_eq!(
        skilang::show_value(&Term::TInc(Box::new(Term::TInc(Box::new(Term::TZero))))),
        Some(String::from("(S (S O))")),
    );
    assert_eq!(skilang::show_value(&Term::TNil), None);
}

use vrl_expression::diagnostic::Note;
use vrl_expression::error::{Error, ExpressionError};
use vrl_expression::expr::{
    Abort, Expr, Features, FunctionCall, IfStatement, Literal, Op, Opcode, Unary, Variable,
};
use vrl_expression::span::Span;
use vrl_expression::value::Value;

fn span(start: usize, end: usize) -> Span {
    Span::new(start, end)
}

#[test]
fn compile_error_codes_are_stable() {
    let fallible = Error::Fallible { span: span(3, 9) };
    assert_eq!(fallible.code(), 100);
    let missing = Error::Missing { span: span(3, 9), feature: "expr-abort".to_string() };
    assert_eq!(missing.code(), 900);
}

#[test]
fn fallible_error_describes_the_remedy() {
    let e = Error::Fallible { span: span(3, 9) };
    assert_eq!(e.message(), "unhandled error");
    let labels = e.labels();
    assert_eq!(labels.len(), 2);
    assert!(labels[0].primary);
    assert_eq!(labels[0].message, "expression can result in runtime error");
    assert_eq!(labels[0].span, span(3, 9));
    assert!(!labels[1].primary);
    assert_eq!(labels[1].message, "handle the error case to ensure runtime success");
    assert_eq!(e.notes(), vec![Note::SeeErrorDocs]);
}

#[test]
fn missing_error_names_the_feature() {
    let e = Error::Missing { span: span(4, 8), feature: "expr-op".to_string() };
    assert_eq!(e.message(), "expression type unavailable");
    let labels = e.labels();
    assert_eq!(labels.len(), 2);
    assert_eq!(labels[0].message, "expression type is disabled in this version of vrl");
    assert_eq!(labels[1].message, "build vrl using the `expr-op` feature to enable it");
    assert_eq!(labels[1].span, span(4, 8));
    assert!(e.notes().is_empty());
}

#[test]
fn disabled_unary_yields_missing_with_the_exact_flag() {
    // A program using unary negation while that kind is compiled out.
    let features = Features { unary: false, ..Features::all() };
    let program = Expr::Unary(Unary {
        expr: Box::new(Expr::Variable(Variable { ident: "ok".to_string(), span: span(1, 3) })),
        span: span(0, 3),
    });
    match program.check_enabled(&features) {
        Err(Error::Missing { span: s, feature }) => {
            assert_eq!(s, span(0, 3));
            assert_eq!(feature, "expr-unary");
        }
        other => panic!("expected the missing-feature error, got {:?}", other),
    }
    let err = program.check_enabled(&features).unwrap_err();
    let labels = err.labels();
    assert_eq!(labels[1].message, "build vrl using the `expr-unary` feature to enable it");
}

#[test]
fn runtime_errors_are_undifferentiated() {
    let abort = ExpressionError::Abort { span: span(2, 7) };
    assert_eq!(abort.code(), 0);
    assert_eq!(ExpressionError::from_text("boom").code(), 0);
}

#[test]
fn abort_error_diagnostics() {
    let abort = ExpressionError::Abort { span: span(2, 7) };
    assert_eq!(abort.message(), "aborted");
    let labels = abort.labels();
    assert_eq!(labels.len(), 1);
    assert!(labels[0].primary);
    assert_eq!(labels[0].message, "aborted");
    assert_eq!(labels[0].span, span(2, 7));
    assert!(abort.notes().is_empty());
}

#[test]
fn plain_message_conversion_round_trips() {
    // A plain string becomes a generic error; reading the message back
    // yields the original string, and labels and notes are empty.
    let e = ExpressionError::from_message("something went wrong".to_string());
    assert_eq!(e.message(), "something went wrong");
    assert!(e.labels().is_empty());
    assert!(e.notes().is_empty());
    let borrowed = ExpressionError::from_text("other failure");
    assert_eq!(borrowed.message(), "other failure");
    assert!(borrowed.labels().is_empty());
    assert!(borrowed.notes().is_empty());
}

#[test]
fn error_duplicate_preserves_diagnostics() {
    let original = ExpressionError::from_text("kept intact");
    let copy = original.duplicate();
    assert_eq!(copy, original);
    assert_eq!(copy.message(), "kept intact");
}

#[test]
fn value_duplicate_is_deep() {
    let v = Value::Array(vec![Value::Integer(1), Value::Text("x".to_string())]);
    assert_eq!(v.duplicate(), v);
}

#[test]
fn every_flag_combination_gates_exactly_its_kind() {
    let lit = |i: i64| Expr::Literal(Literal { value: Value::Integer(i), span: Span::new(0, 1) });
    let samples: Vec<(Expr, &str, usize)> = vec![
        (
            Expr::Abort(Abort { span: Span::new(0, 1) }),
            "expr-abort",
            0,
        ),
        (
            Expr::IfStatement(IfStatement {
                predicate: Box::new(lit(1)),
                consequent: Box::new(lit(2)),
                alternative: None,
                span: Span::new(0, 1),
            }),
            "expr-if_statement",
            1,
        ),
        (
            Expr::Op(Op {
                lhs: Box::new(lit(1)),
                rhs: Box::new(lit(2)),
                opcode: Opcode::Add,
                span: Span::new(0, 1),
            }),
            "expr-op",
            2,
        ),
        (
            Expr::FunctionCall(FunctionCall {
                ident: "f".to_string(),
                arguments: vec![],
                span: Span::new(0, 1),
            }),
            "expr-function_call",
            3,
        ),
        (
            Expr::Unary(Unary { expr: Box::new(lit(1)), span: Span::new(0, 1) }),
            "expr-unary",
            4,
        ),
    ];
    for bits in 0u32..32 {
        let flags = [
            bits & 1 != 0,
            bits & 2 != 0,
            bits & 4 != 0,
            bits & 8 != 0,
            bits & 16 != 0,
        ];
        let features = Features {
            abort: flags[0],
            if_statement: flags[1],
            op: flags[2],
            function_call: flags[3],
            unary: flags[4],
        };
        for (tree, name, index) in &samples {
            let verdict = tree.check_enabled(&features);
            if flags[*index] {
                assert_eq!(verdict, Ok(()), "enabled kind {} must be accepted", name);
            } else {
                match verdict {
                    Err(Error::Missing { feature, .. }) => assert_eq!(&feature, name),
                    other => panic!("disabled kind {} must be rejected, got {:?}", name, other),
                }
            }
        }
    }
}

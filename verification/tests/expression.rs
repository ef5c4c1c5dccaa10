use vrl_expression::context::Context;
use vrl_expression::expr::{
    Abort, Array, Assignment, Block, Container, Expr, Features, FunctionCall, Group, IfStatement,
    Literal, Noop, Object, ObjectEntry, Op, Opcode, Query, Target, Unary, Variable, Variant,
};
use vrl_expression::error::ExpressionError;
use vrl_expression::span::Span;
use vrl_expression::state::State;
use vrl_expression::value::{FieldValue, Value};

fn span(start: usize, end: usize) -> Span {
    Span::new(start, end)
}

fn lit(v: Value) -> Expr {
    Expr::Literal(Literal { value: v, span: span(0, 1) })
}

fn integer(i: i64) -> Expr {
    lit(Value::Integer(i))
}

fn text(s: &str) -> Expr {
    lit(Value::Text(s.to_string()))
}

fn fresh_ctx() -> Context {
    Context::new(Value::Object(Vec::new()))
}

#[test]
fn literal_resolves_to_its_value() {
    let mut ctx = fresh_ctx();
    let e = integer(42);
    assert_eq!(e.resolve(&mut ctx), Ok(Value::Integer(42)));
}

#[test]
fn noop_resolves_to_null() {
    let mut ctx = fresh_ctx();
    let e = Expr::Noop(Noop);
    assert_eq!(e.resolve(&mut ctx), Ok(Value::Null));
}

#[test]
fn kind_names_cover_every_case() {
    assert_eq!(integer(1).as_str(), "literal");
    let group = Expr::Container(Container {
        variant: Variant::Group(Group { inner: Box::new(integer(1)) }),
    });
    assert_eq!(group.as_str(), "group");
    let block = Expr::Container(Container { variant: Variant::Block(Block { inner: vec![] }) });
    assert_eq!(block.as_str(), "block");
    let array = Expr::Container(Container { variant: Variant::Array(Array { inner: vec![] }) });
    assert_eq!(array.as_str(), "array");
    let object = Expr::Container(Container {
        variant: Variant::Object(Object { fields: vec![] }),
    });
    assert_eq!(object.as_str(), "object");
    let ifs = Expr::IfStatement(IfStatement {
        predicate: Box::new(lit(Value::Boolean(true))),
        consequent: Box::new(integer(1)),
        alternative: None,
        span: span(0, 2),
    });
    assert_eq!(ifs.as_str(), "if-statement");
    let op = Expr::Op(Op {
        lhs: Box::new(integer(1)),
        rhs: Box::new(integer(2)),
        opcode: Opcode::Add,
        span: span(0, 5),
    });
    assert_eq!(op.as_str(), "operation");
    let assignment = Expr::Assignment(Assignment {
        target: "x".to_string(),
        expr: Box::new(integer(1)),
        span: span(0, 5),
    });
    assert_eq!(assignment.as_str(), "assignment");
    let query = Expr::Query(Query { target: Target::External, path: vec![] });
    assert_eq!(query.as_str(), "query");
    let call = Expr::FunctionCall(FunctionCall {
        ident: "upcase".to_string(),
        arguments: vec![],
        span: span(0, 8),
    });
    assert_eq!(call.as_str(), "function call");
    let var = Expr::Variable(Variable { ident: "x".to_string(), span: span(0, 1) });
    assert_eq!(var.as_str(), "variable call");
    assert_eq!(Expr::Noop(Noop).as_str(), "noop");
    let unary = Expr::Unary(Unary { expr: Box::new(lit(Value::Boolean(true))), span: span(0, 2) });
    assert_eq!(unary.as_str(), "unary operation");
    assert_eq!(Expr::Abort(Abort { span: span(0, 5) }).as_str(), "abort operation");
}

#[test]
fn addition_of_integers_resolves_and_is_infallible() {
    let mut ctx = fresh_ctx();
    let e = Expr::Op(Op {
        lhs: Box::new(integer(1)),
        rhs: Box::new(integer(2)),
        opcode: Opcode::Add,
        span: span(0, 5),
    });
    let state = State::new();
    assert!(!e.type_def(&state).is_fallible());
    assert_eq!(e.resolve(&mut ctx), Ok(Value::Integer(3)));
}

#[test]
fn addition_wraps_on_overflow() {
    let mut ctx = fresh_ctx();
    let e = Expr::Op(Op {
        lhs: Box::new(integer(i64::MAX)),
        rhs: Box::new(integer(1)),
        opcode: Opcode::Add,
        span: span(0, 5),
    });
    assert_eq!(e.resolve(&mut ctx), Ok(Value::Integer(i64::MIN)));
}

#[test]
fn subtraction_resolves() {
    let mut ctx = fresh_ctx();
    let e = Expr::Op(Op {
        lhs: Box::new(integer(5)),
        rhs: Box::new(integer(7)),
        opcode: Opcode::Subtract,
        span: span(0, 5),
    });
    assert_eq!(e.resolve(&mut ctx), Ok(Value::Integer(-2)));
}

#[test]
fn integer_plus_text_is_fallible_and_errors() {
    // The tree for `1 + "a"`: derivation must report fallible, and
    // resolution must return a generic error describing the mismatch.
    let mut ctx = fresh_ctx();
    let e = Expr::Op(Op {
        lhs: Box::new(integer(1)),
        rhs: Box::new(text("a")),
        opcode: Opcode::Add,
        span: span(0, 7),
    });
    let state = State::new();
    assert!(e.type_def(&state).is_fallible());
    match e.resolve(&mut ctx) {
        Err(ExpressionError::Error { message, labels, .. }) => {
            assert_eq!(message, "operation expects integer operands");
            assert_eq!(labels.len(), 1);
            assert!(labels[0].primary);
            assert_eq!(labels[0].span, span(0, 7));
        }
        other => panic!("expected a generic runtime error, got {:?}", other),
    }
}

#[test]
fn abort_resolves_to_abort_with_its_exact_span() {
    // A tree with an unconditionally reachable abort node.
    let mut ctx = fresh_ctx();
    let e = Expr::Container(Container {
        variant: Variant::Block(Block {
            inner: vec![integer(1), Expr::Abort(Abort { span: span(5, 10) }), integer(2)],
        }),
    });
    assert_eq!(e.resolve(&mut ctx), Err(ExpressionError::Abort { span: span(5, 10) }));
}

#[test]
fn abort_short_circuits_later_siblings() {
    let mut ctx = fresh_ctx();
    let sibling_after = Expr::Assignment(Assignment {
        target: "x".to_string(),
        expr: Box::new(integer(9)),
        span: span(12, 17),
    });
    let e = Expr::Container(Container {
        variant: Variant::Block(Block {
            inner: vec![Expr::Abort(Abort { span: span(0, 5) }), sibling_after],
        }),
    });
    assert_eq!(e.resolve(&mut ctx), Err(ExpressionError::Abort { span: span(0, 5) }));
    // The assignment scheduled after the abort never ran: nothing is bound.
    let var = Expr::Variable(Variable { ident: "x".to_string(), span: span(0, 1) });
    assert_eq!(var.resolve(&mut ctx), Ok(Value::Null));
}

#[test]
fn child_error_reaches_the_root_unchanged() {
    let mut ctx = fresh_ctx();
    let failing = Expr::Op(Op {
        lhs: Box::new(integer(1)),
        rhs: Box::new(text("a")),
        opcode: Opcode::Add,
        span: span(3, 8),
    });
    let direct = {
        let mut scratch = fresh_ctx();
        Expr::Op(Op {
            lhs: Box::new(integer(1)),
            rhs: Box::new(text("a")),
            opcode: Opcode::Add,
            span: span(3, 8),
        })
        .resolve(&mut scratch)
    };
    let root = Expr::Container(Container {
        variant: Variant::Group(Group {
            inner: Box::new(Expr::Container(Container {
                variant: Variant::Array(Array { inner: vec![integer(7), failing] }),
            })),
        }),
    });
    assert_eq!(root.resolve(&mut ctx), direct);
}

#[test]
fn block_resolves_to_last_value() {
    let mut ctx = fresh_ctx();
    let e = Expr::Container(Container {
        variant: Variant::Block(Block { inner: vec![integer(1), integer(2), integer(3)] }),
    });
    assert_eq!(e.resolve(&mut ctx), Ok(Value::Integer(3)));
    let empty = Expr::Container(Container { variant: Variant::Block(Block { inner: vec![] }) });
    assert_eq!(empty.resolve(&mut ctx), Ok(Value::Null));
}

#[test]
fn array_and_object_collect_children() {
    let mut ctx = fresh_ctx();
    let array = Expr::Container(Container {
        variant: Variant::Array(Array { inner: vec![integer(1), text("b")] }),
    });
    assert_eq!(
        array.resolve(&mut ctx),
        Ok(Value::Array(vec![Value::Integer(1), Value::Text("b".to_string())]))
    );
    let object = Expr::Container(Container {
        variant: Variant::Object(Object {
            fields: vec![
                ObjectEntry { key: "a".to_string(), value: integer(1) },
                ObjectEntry { key: "b".to_string(), value: integer(2) },
            ],
        }),
    });
    assert_eq!(
        object.resolve(&mut ctx),
        Ok(Value::Object(vec![
            FieldValue { key: "a".to_string(), value: Value::Integer(1) },
            FieldValue { key: "b".to_string(), value: Value::Integer(2) },
        ]))
    );
}

#[test]
fn if_statement_picks_the_right_branch() {
    let mut ctx = fresh_ctx();
    let make = |predicate: Expr| {
        Expr::IfStatement(IfStatement {
            predicate: Box::new(predicate),
            consequent: Box::new(integer(1)),
            alternative: Some(Box::new(integer(2))),
            span: span(0, 9),
        })
    };
    assert_eq!(make(lit(Value::Boolean(true))).resolve(&mut ctx), Ok(Value::Integer(1)));
    assert_eq!(make(lit(Value::Boolean(false))).resolve(&mut ctx), Ok(Value::Integer(2)));
    match make(integer(0)).resolve(&mut ctx) {
        Err(ExpressionError::Error { message, .. }) => {
            assert_eq!(message, "if-statement predicate must resolve to a boolean");
        }
        other => panic!("expected a predicate type error, got {:?}", other),
    }
    let without_alt = Expr::IfStatement(IfStatement {
        predicate: Box::new(lit(Value::Boolean(false))),
        consequent: Box::new(integer(1)),
        alternative: None,
        span: span(0, 9),
    });
    assert_eq!(without_alt.resolve(&mut ctx), Ok(Value::Null));
}

#[test]
fn assignment_binds_and_variable_reads_back() {
    let mut ctx = fresh_ctx();
    let e = Expr::Container(Container {
        variant: Variant::Block(Block {
            inner: vec![
                Expr::Assignment(Assignment {
                    target: "x".to_string(),
                    expr: Box::new(integer(41)),
                    span: span(0, 6),
                }),
                Expr::Op(Op {
                    lhs: Box::new(Expr::Variable(Variable {
                        ident: "x".to_string(),
                        span: span(8, 9),
                    })),
                    rhs: Box::new(integer(1)),
                    opcode: Opcode::Add,
                    span: span(8, 13),
                }),
            ],
        }),
    });
    assert_eq!(e.resolve(&mut ctx), Ok(Value::Integer(42)));
}

#[test]
fn unbound_variable_reads_as_null() {
    let mut ctx = fresh_ctx();
    let var = Expr::Variable(Variable { ident: "missing".to_string(), span: span(0, 7) });
    assert_eq!(var.resolve(&mut ctx), Ok(Value::Null));
}

#[test]
fn query_walks_the_target_path() {
    let target = Value::Object(vec![FieldValue {
        key: "outer".to_string(),
        value: Value::Object(vec![FieldValue {
            key: "inner".to_string(),
            value: Value::Integer(7),
        }]),
    }]);
    let mut ctx = Context::new(target);
    let hit = Expr::Query(Query {
        target: Target::External,
        path: vec!["outer".to_string(), "inner".to_string()],
    });
    assert_eq!(hit.resolve(&mut ctx), Ok(Value::Integer(7)));
    let miss = Expr::Query(Query {
        target: Target::External,
        path: vec!["outer".to_string(), "absent".to_string()],
    });
    assert_eq!(miss.resolve(&mut ctx), Ok(Value::Null));
}

#[test]
fn query_reads_variables_too() {
    let mut ctx = fresh_ctx();
    let bind = Expr::Assignment(Assignment {
        target: "v".to_string(),
        expr: Box::new(Expr::Container(Container {
            variant: Variant::Object(Object {
                fields: vec![ObjectEntry { key: "k".to_string(), value: integer(3) }],
            }),
        })),
        span: span(0, 5),
    });
    assert!(bind.resolve(&mut ctx).is_ok());
    let q = Expr::Query(Query {
        target: Target::Internal("v".to_string()),
        path: vec!["k".to_string()],
    });
    assert_eq!(q.resolve(&mut ctx), Ok(Value::Integer(3)));
}

#[test]
fn unary_negates_booleans_only() {
    let mut ctx = fresh_ctx();
    let not_true = Expr::Unary(Unary {
        expr: Box::new(lit(Value::Boolean(true))),
        span: span(0, 5),
    });
    assert_eq!(not_true.resolve(&mut ctx), Ok(Value::Boolean(false)));
    let not_int = Expr::Unary(Unary { expr: Box::new(integer(3)), span: span(0, 2) });
    match not_int.resolve(&mut ctx) {
        Err(ExpressionError::Error { message, .. }) => {
            assert_eq!(message, "unary negation expects a boolean operand");
        }
        other => panic!("expected a negation type error, got {:?}", other),
    }
}

#[test]
fn function_call_evaluates_arguments_then_fails() {
    let mut ctx = fresh_ctx();
    let call = Expr::FunctionCall(FunctionCall {
        ident: "upcase".to_string(),
        arguments: vec![Expr::Assignment(Assignment {
            target: "seen".to_string(),
            expr: Box::new(integer(1)),
            span: span(7, 13),
        })],
        span: span(0, 14),
    });
    assert!(matches!(call.resolve(&mut ctx), Err(ExpressionError::Error { .. })));
    // The argument was evaluated before the call failed.
    let var = Expr::Variable(Variable { ident: "seen".to_string(), span: span(0, 4) });
    assert_eq!(var.resolve(&mut ctx), Ok(Value::Integer(1)));
    // A child error beats the call's own failure.
    let mut ctx2 = fresh_ctx();
    let aborting = Expr::FunctionCall(FunctionCall {
        ident: "upcase".to_string(),
        arguments: vec![Expr::Abort(Abort { span: span(7, 12) })],
        span: span(0, 13),
    });
    assert_eq!(aborting.resolve(&mut ctx2), Err(ExpressionError::Abort { span: span(7, 12) }));
}

#[test]
fn as_value_folds_literals_only() {
    let e = integer(9);
    assert_eq!(e.as_value(), Some(Value::Integer(9)));
    let op = Expr::Op(Op {
        lhs: Box::new(integer(1)),
        rhs: Box::new(integer(2)),
        opcode: Opcode::Add,
        span: span(0, 5),
    });
    assert_eq!(op.as_value(), None);
}

#[test]
fn only_function_calls_render() {
    let call = Expr::FunctionCall(FunctionCall {
        ident: "upcase".to_string(),
        arguments: vec![],
        span: span(0, 8),
    });
    assert_eq!(call.format(), Some("upcase()".to_string()));
    assert_eq!(integer(1).format(), None);
}

#[test]
fn update_state_binds_and_rejects_redefinition() {
    let mut state = State::new();
    let first = Expr::Assignment(Assignment {
        target: "x".to_string(),
        expr: Box::new(integer(1)),
        span: span(0, 5),
    });
    assert_eq!(first.update_state(&mut state), Ok(()));
    let second = Expr::Assignment(Assignment {
        target: "x".to_string(),
        expr: Box::new(integer(2)),
        span: span(6, 11),
    });
    match second.update_state(&mut state) {
        Err(ExpressionError::Error { message, labels, .. }) => {
            assert_eq!(message, "variable redefinition");
            assert_eq!(labels[0].span, span(6, 11));
        }
        other => panic!("expected a redefinition conflict, got {:?}", other),
    }
    let other_name = Expr::Assignment(Assignment {
        target: "y".to_string(),
        expr: Box::new(integer(3)),
        span: span(12, 17),
    });
    assert_eq!(other_name.update_state(&mut state), Ok(()));
}

#[test]
fn type_def_follows_the_shape_of_the_tree() {
    let state = State::new();
    let block = Expr::Container(Container {
        variant: Variant::Block(Block { inner: vec![integer(1), lit(Value::Boolean(true))] }),
    });
    let t = block.type_def(&state);
    assert!(!t.is_fallible());
    assert!(t.kind.boolean && !t.kind.integer);
    let call = Expr::FunctionCall(FunctionCall {
        ident: "upcase".to_string(),
        arguments: vec![],
        span: span(0, 8),
    });
    assert!(call.type_def(&state).is_fallible());
    let query = Expr::Query(Query { target: Target::External, path: vec![] });
    assert!(!query.type_def(&state).is_fallible());
    let abort = Expr::Abort(Abort { span: span(0, 5) });
    assert!(!abort.type_def(&state).is_fallible());
}

#[test]
fn features_gate_construction() {
    let all = Features::all();
    let unary = Expr::Unary(Unary { expr: Box::new(lit(Value::Boolean(true))), span: span(2, 8) });
    assert_eq!(unary.check_enabled(&all), Ok(()));
    let tree = Expr::Container(Container {
        variant: Variant::Block(Block {
            inner: vec![
                integer(1),
                Expr::Op(Op {
                    lhs: Box::new(integer(1)),
                    rhs: Box::new(integer(2)),
                    opcode: Opcode::Add,
                    span: span(4, 9),
                }),
            ],
        }),
    });
    assert_eq!(tree.check_enabled(&all), Ok(()));
    let without_op = Features { op: false, ..all };
    match tree.check_enabled(&without_op) {
        Err(e) => {
            assert_eq!(e.code(), 900);
        }
        Ok(()) => panic!("a disabled operation must be rejected"),
    }
}

//! The mathematical semantics of the expression tree: what `resolve`,
//! `type_def`, `update_state` and `as_value` return, stated as pure spec
//! functions over the node types and the context model.
//!
//! Evaluation is sequential and left-to-right; the first error any
//! sub-expression produces propagates upward unchanged, and aborts
//! short-circuit every remaining sub-expression. The executable dispatch in
//! [`crate::expr`] is proved to return exactly these functions' results.

use crate::context::{lookup_variable, ContextModel};
use crate::diagnostic::LabelModel;
use crate::error::{ErrorModel, ExpressionErrorModel};
use crate::expr::{Expr, Features, ObjectEntry, Opcode, Target, Variant};
use crate::span::Span;
use crate::type_def::{kind_of, Kind, TypeDef};
use crate::value::ValueModel;
use vstd::prelude::*;

verus! {

/// The model of a resolution outcome: a value or a runtime error.
pub type ResolvedModel = Result<ValueModel, ExpressionErrorModel>;

/// A node-raised runtime error: the message doubles as the one primary label
/// at the node's span.
pub open spec fn node_error(message: Seq<char>, span: Span) -> ExpressionErrorModel {
    ExpressionErrorModel::Error {
        message,
        labels: seq![LabelModel { message, primary: true, span }],
        notes: Seq::empty(),
    }
}

/// The model of a resolution result.
pub open spec fn resolved_model(r: crate::expr::Resolved) -> ResolvedModel {
    match r {
        Ok(v) => Ok(v.deep_view()),
        Err(e) => Err(e@),
    }
}

/// The model of a state-update result.
pub open spec fn unit_model(r: Result<(), crate::error::ExpressionError>) -> Result<
    (),
    ExpressionErrorModel,
> {
    match r {
        Ok(_) => Ok(()),
        Err(e) => Err(e@),
    }
}

/// The model of a construction-check result.
pub open spec fn check_model(r: Result<(), crate::error::Error>) -> Result<(), ErrorModel> {
    match r {
        Ok(_) => Ok(()),
        Err(e) => Err(e@),
    }
}

/// The models of a path's segments.
pub open spec fn path_model(path: Seq<String>) -> Seq<Seq<char>> {
    Seq::new(path.len(), |i: int| path[i]@)
}

/// The first field of an object with the given key, scanning in field order.
pub open spec fn object_field(
    fields: Seq<(Seq<char>, ValueModel)>,
    key: Seq<char>,
) -> Option<ValueModel>
    decreases fields.len(),
{
    if fields.len() == 0 {
        None
    } else if fields[0].0 == key {
        Some(fields[0].1)
    } else {
        object_field(fields.drop_first(), key)
    }
}

/// Walks a field path into a value; a missing field or a non-object step
/// reads as null.
pub open spec fn walk_path(v: ValueModel, path: Seq<Seq<char>>) -> ValueModel
    decreases path.len(),
{
    if path.len() == 0 {
        v
    } else {
        match v {
            ValueModel::Object(fields) => match object_field(fields, path[0]) {
                Some(next) => walk_path(next, path.drop_first()),
                None => ValueModel::Null,
            },
            _ => ValueModel::Null,
        }
    }
}

/// Two's-complement addition and subtraction: the arithmetic of operations.
pub open spec fn apply_opcode(opcode: Opcode, a: i64, b: i64) -> i64 {
    match opcode {
        Opcode::Add => vstd::wrapping::i64_specs::wrapping_add(a, b),
        Opcode::Subtract => vstd::wrapping::i64_specs::wrapping_sub(a, b),
    }
}

/// Evaluates one expression against a context; returns the outcome and the
/// context as the evaluation left it.
pub open spec fn eval(e: Expr, ctx: ContextModel) -> (ResolvedModel, ContextModel)
    decreases e,
{
    match e {
        Expr::Literal(l) => (Ok(l.value.deep_view()), ctx),
        Expr::Container(c) => match c.variant {
            Variant::Group(g) => eval(*g.inner, ctx),
            Variant::Block(b) => {
                let (r, ctx2) = eval_all(b.inner@, ctx);
                match r {
                    Ok(vs) => (
                        Ok(if vs.len() == 0 {
                            ValueModel::Null
                        } else {
                            vs.last()
                        }),
                        ctx2,
                    ),
                    Err(err) => (Err(err), ctx2),
                }
            },
            Variant::Array(a) => {
                let (r, ctx2) = eval_all(a.inner@, ctx);
                match r {
                    Ok(vs) => (Ok(ValueModel::Array(vs)), ctx2),
                    Err(err) => (Err(err), ctx2),
                }
            },
            Variant::Object(o) => {
                let (r, ctx2) = eval_entries(o.fields@, ctx);
                match r {
                    Ok(fs) => (Ok(ValueModel::Object(fs)), ctx2),
                    Err(err) => (Err(err), ctx2),
                }
            },
        },
        Expr::IfStatement(i) => {
            let (r, ctx2) = eval(*i.predicate, ctx);
            match r {
                Ok(ValueModel::Boolean(b)) => if b {
                    eval(*i.consequent, ctx2)
                } else {
                    match i.alternative {
                        Some(alt) => eval(*alt, ctx2),
                        None => (Ok(ValueModel::Null), ctx2),
                    }
                },
                Ok(_) => (
                    Err(node_error("if-statement predicate must resolve to a boolean"@, i.span)),
                    ctx2,
                ),
                Err(err) => (Err(err), ctx2),
            }
        },
        Expr::Op(o) => {
            let (rl, ctx2) = eval(*o.lhs, ctx);
            match rl {
                Ok(lv) => {
                    let (rr, ctx3) = eval(*o.rhs, ctx2);
                    match rr {
                        Ok(rv) => match (lv, rv) {
                            (ValueModel::Integer(a), ValueModel::Integer(b)) => (
                                Ok(ValueModel::Integer(apply_opcode(o.opcode, a, b))),
                                ctx3,
                            ),
                            _ => (
                                Err(node_error("operation expects integer operands"@, o.span)),
                                ctx3,
                            ),
                        },
                        Err(err) => (Err(err), ctx3),
                    }
                },
                Err(err) => (Err(err), ctx2),
            }
        },
        Expr::Assignment(a) => {
            let (r, ctx2) = eval(*a.expr, ctx);
            match r {
                Ok(v) => (
                    Ok(v),
                    ContextModel {
                        variables: ctx2.variables.push((a.target@, v)),
                        target: ctx2.target,
                    },
                ),
                Err(err) => (Err(err), ctx2),
            }
        },
        Expr::Query(q) => {
            let base = match q.target {
                Target::External => ctx.target,
                Target::Internal(name) => match lookup_variable(ctx.variables, name@) {
                    Some(v) => v,
                    None => ValueModel::Null,
                },
            };
            (Ok(walk_path(base, path_model(q.path@))), ctx)
        },
        Expr::FunctionCall(f) => {
            let (r, ctx2) = eval_all(f.arguments@, ctx);
            match r {
                Ok(_) => (Err(node_error("call to undeclared function"@, f.span)), ctx2),
                Err(err) => (Err(err), ctx2),
            }
        },
        Expr::Variable(v) => (
            Ok(
                match lookup_variable(ctx.variables, v.ident@) {
                    Some(x) => x,
                    None => ValueModel::Null,
                },
            ),
            ctx,
        ),
        Expr::Noop(_) => (Ok(ValueModel::Null), ctx),
        Expr::Unary(u) => {
            let (r, ctx2) = eval(*u.expr, ctx);
            match r {
                Ok(ValueModel::Boolean(b)) => (Ok(ValueModel::Boolean(!b)), ctx2),
                Ok(_) => (
                    Err(node_error("unary negation expects a boolean operand"@, u.span)),
                    ctx2,
                ),
                Err(err) => (Err(err), ctx2),
            }
        },
        Expr::Abort(a) => (Err(ExpressionErrorModel::Abort { span: a.span }), ctx),
    }
}

/// Evaluates a sequence of expressions left to right, threading the context;
/// the first error stops the walk and leaves the context as it then stood.
pub open spec fn eval_all(es: Seq<Expr>, ctx: ContextModel) -> (
    Result<Seq<ValueModel>, ExpressionErrorModel>,
    ContextModel,
)
    decreases es,
{
    if es.len() == 0 {
        (Ok(Seq::empty()), ctx)
    } else {
        let (r, ctx2) = eval_all(es.drop_last(), ctx);
        match r {
            Ok(vs) => {
                let (rl, ctx3) = eval(es.last(), ctx2);
                match rl {
                    Ok(v) => (Ok(vs.push(v)), ctx3),
                    Err(err) => (Err(err), ctx3),
                }
            },
            Err(err) => (Err(err), ctx2),
        }
    }
}

/// Evaluates an object constructor's entries left to right.
pub open spec fn eval_entries(entries: Seq<ObjectEntry>, ctx: ContextModel) -> (
    Result<Seq<(Seq<char>, ValueModel)>, ExpressionErrorModel>,
    ContextModel,
)
    decreases entries,
{
    if entries.len() == 0 {
        (Ok(Seq::empty()), ctx)
    } else {
        let (r, ctx2) = eval_entries(entries.drop_last(), ctx);
        match r {
            Ok(fs) => {
                let (rl, ctx3) = eval(entries.last().value, ctx2);
                match rl {
                    Ok(v) => (Ok(fs.push((entries.last().key@, v))), ctx3),
                    Err(err) => (Err(err), ctx3),
                }
            },
            Err(err) => (Err(err), ctx2),
        }
    }
}

/// The static type of one expression: its possible output shapes and whether
/// resolving it may return an ordinary runtime error. Derivation is bottom-up
/// and reads no runtime information.
pub open spec fn td(e: Expr) -> TypeDef
    decreases e,
{
    match e {
        Expr::Literal(l) => TypeDef { fallible: false, kind: kind_of(l.value.deep_view()) },
        Expr::Container(c) => match c.variant {
            Variant::Group(g) => td(*g.inner),
            Variant::Block(b) => TypeDef {
                fallible: any_fallible(b.inner@),
                kind: if b.inner@.len() == 0 {
                    Kind::null_only()
                } else {
                    td(b.inner@.last()).kind
                },
            },
            Variant::Array(a) => TypeDef { fallible: any_fallible(a.inner@), kind: Kind::array_only() },
            Variant::Object(o) => TypeDef {
                fallible: any_entry_fallible(o.fields@),
                kind: Kind::object_only(),
            },
        },
        Expr::IfStatement(i) => {
            let p = td(*i.predicate);
            let c = td(*i.consequent);
            match i.alternative {
                Some(alt) => {
                    let a = td(*alt);
                    TypeDef {
                        fallible: p.fallible || !p.kind.subset_of_boolean() || c.fallible
                            || a.fallible,
                        kind: c.kind.union_with(a.kind),
                    }
                },
                None => TypeDef {
                    fallible: p.fallible || !p.kind.subset_of_boolean() || c.fallible,
                    kind: c.kind.or_null(),
                },
            }
        },
        Expr::Op(o) => {
            let l = td(*o.lhs);
            let r = td(*o.rhs);
            TypeDef {
                fallible: l.fallible || r.fallible || !l.kind.subset_of_integer()
                    || !r.kind.subset_of_integer(),
                kind: Kind::integer_only(),
            }
        },
        Expr::Assignment(a) => td(*a.expr),
        Expr::Query(_) => TypeDef { fallible: false, kind: Kind::any() },
        Expr::FunctionCall(_) => TypeDef { fallible: true, kind: Kind::any() },
        Expr::Variable(_) => TypeDef { fallible: false, kind: Kind::any() },
        Expr::Noop(_) => TypeDef { fallible: false, kind: Kind::null_only() },
        Expr::Unary(u) => {
            let t = td(*u.expr);
            TypeDef {
                fallible: t.fallible || !t.kind.subset_of_boolean(),
                kind: Kind::boolean_only(),
            }
        },
        Expr::Abort(_) => TypeDef { fallible: false, kind: Kind::null_only() },
    }
}

/// Whether any expression of the sequence is fallible.
pub open spec fn any_fallible(es: Seq<Expr>) -> bool
    decreases es,
{
    if es.len() == 0 {
        false
    } else {
        any_fallible(es.drop_last()) || td(es.last()).fallible
    }
}

/// Whether any entry's value expression is fallible.
pub open spec fn any_entry_fallible(entries: Seq<ObjectEntry>) -> bool
    decreases entries,
{
    if entries.len() == 0 {
        false
    } else {
        any_entry_fallible(entries.drop_last()) || td(entries.last().value).fallible
    }
}

/// The compile-time state update of one expression: traversal order is the
/// node, then its children left to right; the first failure stops the pass
/// and leaves the state as it then stood.
pub open spec fn upd(e: Expr, vars: Seq<Seq<char>>) -> (
    Result<(), ExpressionErrorModel>,
    Seq<Seq<char>>,
)
    decreases e,
{
    match e {
        Expr::Literal(_) => (Ok(()), vars),
        Expr::Container(c) => match c.variant {
            Variant::Group(g) => upd(*g.inner, vars),
            Variant::Block(b) => upd_all(b.inner@, vars),
            Variant::Array(a) => upd_all(a.inner@, vars),
            Variant::Object(o) => upd_entries(o.fields@, vars),
        },
        Expr::IfStatement(i) => {
            let (r, v2) = upd(*i.predicate, vars);
            match r {
                Ok(_) => {
                    let (r2, v3) = upd(*i.consequent, v2);
                    match r2 {
                        Ok(_) => match i.alternative {
                            Some(alt) => upd(*alt, v3),
                            None => (Ok(()), v3),
                        },
                        Err(err) => (Err(err), v3),
                    }
                },
                Err(err) => (Err(err), v2),
            }
        },
        Expr::Op(o) => {
            let (r, v2) = upd(*o.lhs, vars);
            match r {
                Ok(_) => upd(*o.rhs, v2),
                Err(err) => (Err(err), v2),
            }
        },
        Expr::Assignment(a) => {
            let (r, v2) = upd(*a.expr, vars);
            match r {
                Ok(_) => if v2.contains(a.target@) {
                    (Err(node_error("variable redefinition"@, a.span)), v2)
                } else {
                    (Ok(()), v2.push(a.target@))
                },
                Err(err) => (Err(err), v2),
            }
        },
        Expr::Query(_) => (Ok(()), vars),
        Expr::FunctionCall(f) => upd_all(f.arguments@, vars),
        Expr::Variable(_) => (Ok(()), vars),
        Expr::Noop(_) => (Ok(()), vars),
        Expr::Unary(u) => upd(*u.expr, vars),
        Expr::Abort(_) => (Ok(()), vars),
    }
}

/// Updates the state over a sequence of expressions, left to right.
pub open spec fn upd_all(es: Seq<Expr>, vars: Seq<Seq<char>>) -> (
    Result<(), ExpressionErrorModel>,
    Seq<Seq<char>>,
)
    decreases es,
{
    if es.len() == 0 {
        (Ok(()), vars)
    } else {
        let (r, v2) = upd_all(es.drop_last(), vars);
        match r {
            Ok(_) => upd(es.last(), v2),
            Err(err) => (Err(err), v2),
        }
    }
}

/// Updates the state over an object constructor's entries, left to right.
pub open spec fn upd_entries(entries: Seq<ObjectEntry>, vars: Seq<Seq<char>>) -> (
    Result<(), ExpressionErrorModel>,
    Seq<Seq<char>>,
)
    decreases entries,
{
    if entries.len() == 0 {
        (Ok(()), vars)
    } else {
        let (r, v2) = upd_entries(entries.drop_last(), vars);
        match r {
            Ok(_) => upd(entries.last().value, v2),
            Err(err) => (Err(err), v2),
        }
    }
}

/// The static value of one expression: a concrete value only where the
/// output cannot depend on the runtime context.
pub open spec fn static_value(e: Expr) -> Option<ValueModel> {
    match e {
        Expr::Literal(l) => Some(l.value.deep_view()),
        _ => None,
    }
}

/// The canonical rendering of one expression; only function calls render.
pub open spec fn rendering(e: Expr) -> Option<Seq<char>> {
    match e {
        Expr::FunctionCall(f) => Some(f.ident@ + "()"@),
        _ => None,
    }
}

/// Whether the node's own kind is enabled under a configuration. Only the
/// five optional kinds are governed; every other kind is always enabled.
pub open spec fn enabled_kind(e: Expr, f: Features) -> bool {
    match e {
        Expr::IfStatement(_) => f.if_statement,
        Expr::Op(_) => f.op,
        Expr::FunctionCall(_) => f.function_call,
        Expr::Unary(_) => f.unary,
        Expr::Abort(_) => f.abort,
        _ => true,
    }
}

/// Whether every node of the tree is enabled under a configuration.
pub open spec fn tree_enabled(e: Expr, f: Features) -> bool
    decreases e,
{
    enabled_kind(e, f) && match e {
        Expr::Literal(_) => true,
        Expr::Container(c) => match c.variant {
            Variant::Group(g) => tree_enabled(*g.inner, f),
            Variant::Block(b) => all_enabled(b.inner@, f),
            Variant::Array(a) => all_enabled(a.inner@, f),
            Variant::Object(o) => all_entries_enabled(o.fields@, f),
        },
        Expr::IfStatement(i) => tree_enabled(*i.predicate, f) && tree_enabled(*i.consequent, f)
            && match i.alternative {
            Some(alt) => tree_enabled(*alt, f),
            None => true,
        },
        Expr::Op(o) => tree_enabled(*o.lhs, f) && tree_enabled(*o.rhs, f),
        Expr::Assignment(a) => tree_enabled(*a.expr, f),
        Expr::Query(_) => true,
        Expr::FunctionCall(fc) => all_enabled(fc.arguments@, f),
        Expr::Variable(_) => true,
        Expr::Noop(_) => true,
        Expr::Unary(u) => tree_enabled(*u.expr, f),
        Expr::Abort(_) => true,
    }
}

/// Whether every node of every tree of the sequence is enabled.
pub open spec fn all_enabled(es: Seq<Expr>, f: Features) -> bool
    decreases es,
{
    if es.len() == 0 {
        true
    } else {
        all_enabled(es.drop_last(), f) && tree_enabled(es.last(), f)
    }
}

/// Whether every node under every entry's value is enabled.
pub open spec fn all_entries_enabled(entries: Seq<ObjectEntry>, f: Features) -> bool
    decreases entries,
{
    if entries.len() == 0 {
        true
    } else {
        all_entries_enabled(entries.drop_last(), f) && tree_enabled(entries.last().value, f)
    }
}

/// The configuration flag governing a node's kind; empty for the kinds that
/// are always enabled.
pub open spec fn feature_name(e: Expr) -> Seq<char> {
    match e {
        Expr::IfStatement(_) => "expr-if_statement"@,
        Expr::Op(_) => "expr-op"@,
        Expr::FunctionCall(_) => "expr-function_call"@,
        Expr::Unary(_) => "expr-unary"@,
        Expr::Abort(_) => "expr-abort"@,
        _ => ""@,
    }
}

/// The source span of a node, where its kind carries one; toggleable kinds
/// always do, so every `Missing` error points at the offending node.
pub open spec fn node_span(e: Expr) -> Span {
    match e {
        Expr::Literal(l) => l.span,
        Expr::IfStatement(i) => i.span,
        Expr::Op(o) => o.span,
        Expr::Assignment(a) => a.span,
        Expr::FunctionCall(f) => f.span,
        Expr::Variable(v) => v.span,
        Expr::Unary(u) => u.span,
        Expr::Abort(a) => a.span,
        _ => Span { start: 0, end: 0 },
    }
}

/// Checks a tree against a configuration: the first node, in traversal
/// order, whose kind is disabled yields a `Missing` construction error
/// naming the governing flag and that node's span.
pub open spec fn check_tree(e: Expr, f: Features) -> Result<(), ErrorModel>
    decreases e,
{
    if !enabled_kind(e, f) {
        Err(ErrorModel::Missing { span: node_span(e), feature: feature_name(e) })
    } else {
        match e {
            Expr::Literal(_) => Ok(()),
            Expr::Container(c) => match c.variant {
                Variant::Group(g) => check_tree(*g.inner, f),
                Variant::Block(b) => check_all(b.inner@, f),
                Variant::Array(a) => check_all(a.inner@, f),
                Variant::Object(o) => check_entries(o.fields@, f),
            },
            Expr::IfStatement(i) => {
                let r = check_tree(*i.predicate, f);
                if r is Err {
                    r
                } else {
                    let r2 = check_tree(*i.consequent, f);
                    if r2 is Err {
                        r2
                    } else {
                        match i.alternative {
                            Some(alt) => check_tree(*alt, f),
                            None => Ok(()),
                        }
                    }
                }
            },
            Expr::Op(o) => {
                let r = check_tree(*o.lhs, f);
                if r is Err {
                    r
                } else {
                    check_tree(*o.rhs, f)
                }
            },
            Expr::Assignment(a) => check_tree(*a.expr, f),
            Expr::Query(_) => Ok(()),
            Expr::FunctionCall(fc) => check_all(fc.arguments@, f),
            Expr::Variable(_) => Ok(()),
            Expr::Noop(_) => Ok(()),
            Expr::Unary(u) => check_tree(*u.expr, f),
            Expr::Abort(_) => Ok(()),
        }
    }
}

/// Checks a sequence of trees, left to right; the first failure wins.
pub open spec fn check_all(es: Seq<Expr>, f: Features) -> Result<(), ErrorModel>
    decreases es,
{
    if es.len() == 0 {
        Ok(())
    } else {
        let r = check_all(es.drop_last(), f);
        if r is Err {
            r
        } else {
            check_tree(es.last(), f)
        }
    }
}

/// Checks an object constructor's entries, left to right.
pub open spec fn check_entries(entries: Seq<ObjectEntry>, f: Features) -> Result<(), ErrorModel>
    decreases entries,
{
    if entries.len() == 0 {
        Ok(())
    } else {
        let r = check_entries(entries.drop_last(), f);
        if r is Err {
            r
        } else {
            check_tree(entries.last().value, f)
        }
    }
}

} // verus!

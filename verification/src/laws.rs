//! The cross-cutting guarantees of the core, stated and proved once, for
//! every tree and every configuration: construction checking accepts exactly
//! the trees whose kinds are all enabled; an infallible type derivation
//! means resolution cannot return an ordinary runtime error; child errors
//! propagate unchanged where no handling exists; and an abort short-circuits
//! every sibling scheduled after it.

use crate::context::ContextModel;
use crate::diagnostic::{LabelModel, NoteModel};
use crate::error::{
    expression_error_labels, expression_error_message, expression_error_notes, plain_error,
    ErrorModel, ExpressionErrorModel,
};
use crate::expr::{Expr, Features, ObjectEntry, Variant};
use crate::semantics::{
    all_enabled, all_entries_enabled, any_entry_fallible, any_fallible, check_all, check_entries,
    check_tree, enabled_kind, eval, eval_all, eval_entries, feature_name, node_error, node_span, static_value,
    td, tree_enabled,
};
use crate::type_def::{kind_of, TypeDef};
use crate::value::ValueModel;
use vstd::prelude::*;

verus! {

/// Exhaustiveness of construction checking, acceptance direction: under any
/// configuration, a tree passes the construction check exactly when every
/// node of it is of an enabled kind.
pub proof fn lemma_check_accepts_iff_enabled(e: Expr, f: Features)
    ensures
        check_tree(e, f) is Ok <==> tree_enabled(e, f),
    decreases e,
{
    match e {
        Expr::Container(c) => match c.variant {
            Variant::Group(g) => lemma_check_accepts_iff_enabled(*g.inner, f),
            Variant::Block(b) => lemma_check_all_accepts_iff_enabled(b.inner@, f),
            Variant::Array(a) => lemma_check_all_accepts_iff_enabled(a.inner@, f),
            Variant::Object(o) => lemma_check_entries_accepts_iff_enabled(o.fields@, f),
        },
        Expr::IfStatement(i) => {
            lemma_check_accepts_iff_enabled(*i.predicate, f);
            lemma_check_accepts_iff_enabled(*i.consequent, f);
            match i.alternative {
                Some(alt) => lemma_check_accepts_iff_enabled(*alt, f),
                None => {},
            }
        },
        Expr::Op(o) => {
            lemma_check_accepts_iff_enabled(*o.lhs, f);
            lemma_check_accepts_iff_enabled(*o.rhs, f);
        },
        Expr::Assignment(a) => lemma_check_accepts_iff_enabled(*a.expr, f),
        Expr::FunctionCall(fc) => lemma_check_all_accepts_iff_enabled(fc.arguments@, f),
        Expr::Unary(u) => lemma_check_accepts_iff_enabled(*u.expr, f),
        _ => {},
    }
}

proof fn lemma_check_all_accepts_iff_enabled(es: Seq<Expr>, f: Features)
    ensures
        check_all(es, f) is Ok <==> all_enabled(es, f),
    decreases es,
{
    if es.len() > 0 {
        lemma_check_all_accepts_iff_enabled(es.drop_last(), f);
        lemma_check_accepts_iff_enabled(es.last(), f);
    }
}

proof fn lemma_check_entries_accepts_iff_enabled(entries: Seq<ObjectEntry>, f: Features)
    ensures
        check_entries(entries, f) is Ok <==> all_entries_enabled(entries, f),
    decreases entries,
{
    if entries.len() > 0 {
        lemma_check_entries_accepts_iff_enabled(entries.drop_last(), f);
        lemma_check_accepts_iff_enabled(entries.last().value, f);
    }
}

/// Exhaustiveness of construction checking, rejection direction: any attempt
/// to construct a node of a disabled kind yields the `Missing` error naming
/// the governing flag, at that node's span.
pub proof fn lemma_disabled_kind_rejected(e: Expr, f: Features)
    requires
        !enabled_kind(e, f),
    ensures
        check_tree(e, f) == Err::<(), ErrorModel>(
            ErrorModel::Missing { span: node_span(e), feature: feature_name(e) },
        ),
{
}

/// Whether a resolution outcome is consistent with a derived type that
/// claims "cannot fail": an ordinary value of one of the derived shapes, or
/// an abort, never an ordinary runtime error.
pub open spec fn sound_outcome(t: TypeDef, r: Result<ValueModel, ExpressionErrorModel>) -> bool {
    match r {
        Ok(v) => t.kind.contains(v),
        Err(e) => e is Abort,
    }
}

/// Type soundness: for every tree and every context, if type derivation
/// reports "cannot fail", resolution never returns an ordinary runtime
/// error, and any value it produces has one of the derived shapes.
pub proof fn lemma_type_soundness(e: Expr, ctx: ContextModel)
    ensures
        !td(e).fallible ==> sound_outcome(td(e), eval(e, ctx).0),
    decreases e,
{
    match e {
        Expr::Literal(l) => {
            assert(kind_of(l.value.deep_view()).contains(l.value.deep_view()));
        },
        Expr::Container(c) => match c.variant {
            Variant::Group(g) => lemma_type_soundness(*g.inner, ctx),
            Variant::Block(b) => {
                lemma_eval_all_soundness(b.inner@, ctx);
                if !td(e).fallible && b.inner@.len() > 0 {
                    match eval_all(b.inner@, ctx).0 {
                        Ok(vs) => {
                            assert(vs[b.inner@.len() - 1] == vs.last());
                        },
                        Err(_) => {},
                    }
                }
            },
            Variant::Array(a) => lemma_eval_all_soundness(a.inner@, ctx),
            Variant::Object(o) => lemma_eval_entries_soundness(o.fields@, ctx),
        },
        Expr::IfStatement(i) => {
            lemma_type_soundness(*i.predicate, ctx);
            let (rp, ctx2) = eval(*i.predicate, ctx);
            lemma_type_soundness(*i.consequent, ctx2);
            match i.alternative {
                Some(alt) => lemma_type_soundness(*alt, ctx2),
                None => {},
            }
        },
        Expr::Op(o) => {
            lemma_type_soundness(*o.lhs, ctx);
            let (rl, ctx2) = eval(*o.lhs, ctx);
            lemma_type_soundness(*o.rhs, ctx2);
        },
        Expr::Assignment(a) => lemma_type_soundness(*a.expr, ctx),
        Expr::Unary(u) => lemma_type_soundness(*u.expr, ctx),
        _ => {},
    }
}

proof fn lemma_eval_all_soundness(es: Seq<Expr>, ctx: ContextModel)
    ensures
        !any_fallible(es) ==> match eval_all(es, ctx).0 {
            Ok(vs) => vs.len() == es.len() && forall|i: int|
                0 <= i < es.len() ==> td(es[i]).kind.contains(#[trigger] vs[i]),
            Err(e) => e is Abort,
        },
    decreases es,
{
    if es.len() > 0 {
        lemma_eval_all_soundness(es.drop_last(), ctx);
        if !any_fallible(es) {
            let (r, ctx2) = eval_all(es.drop_last(), ctx);
            match r {
                Ok(vs) => {
                    lemma_type_soundness(es.last(), ctx2);
                    match eval(es.last(), ctx2).0 {
                        Ok(v) => {
                            let whole = vs.push(v);
                            assert(forall|i: int|
                                0 <= i < es.len() - 1 ==> es.drop_last()[i] == es[i]);
                            assert(forall|i: int| 0 <= i < es.len() - 1 ==> whole[i] == vs[i]);
                            assert(whole[es.len() - 1] == v && es.last() == es[es.len() - 1]);
                        },
                        Err(_) => {},
                    }
                },
                Err(_) => {},
            }
        }
    }
}

proof fn lemma_eval_entries_soundness(entries: Seq<ObjectEntry>, ctx: ContextModel)
    ensures
        !any_entry_fallible(entries) ==> match eval_entries(entries, ctx).0 {
            Ok(_) => true,
            Err(e) => e is Abort,
        },
    decreases entries,
{
    if entries.len() > 0 {
        lemma_eval_entries_soundness(entries.drop_last(), ctx);
        if !any_entry_fallible(entries) {
            let (r, ctx2) = eval_entries(entries.drop_last(), ctx);
            match r {
                Ok(_) => {
                    lemma_type_soundness(entries.last().value, ctx2);
                },
                Err(_) => {},
            }
        }
    }
}

/// One-step faithful error propagation: at every composite node kind, a
/// failing child's error is handed upward exactly as it is — same message,
/// same labels, same notes — and no construct of this core intercepts it.
pub open spec fn child_error_propagation(e: Expr, ctx: ContextModel) -> bool {
    match e {
        Expr::Container(c) => match c.variant {
            Variant::Group(g) => eval(*g.inner, ctx).0 is Err ==> eval(e, ctx).0 == eval(
                *g.inner,
                ctx,
            ).0,
            _ => true,
        },
        Expr::IfStatement(i) => eval(*i.predicate, ctx).0 is Err ==> eval(e, ctx).0 == eval(
            *i.predicate,
            ctx,
        ).0,
        Expr::Op(o) => {
            let (rl, ctx2) = eval(*o.lhs, ctx);
            &&& rl is Err ==> eval(e, ctx).0 == rl
            &&& rl is Ok ==> eval(*o.rhs, ctx2).0 is Err ==> eval(e, ctx).0 == eval(
                *o.rhs,
                ctx2,
            ).0
        },
        Expr::Assignment(a) => eval(*a.expr, ctx).0 is Err ==> eval(e, ctx).0 == eval(
            *a.expr,
            ctx,
        ).0,
        Expr::Unary(u) => eval(*u.expr, ctx).0 is Err ==> eval(e, ctx).0 == eval(*u.expr, ctx).0,
        _ => true,
    }
}

/// Error propagation at the scalar composites: the failing child's error is
/// the node's own result, unchanged.
pub proof fn lemma_error_propagation(e: Expr, ctx: ContextModel)
    ensures
        child_error_propagation(e, ctx),
{
}

/// Error propagation along a sequence of sibling trees (blocks, arrays,
/// object entries, call arguments): if the first `i` siblings succeed and
/// the next one fails, the whole sequence's outcome is that exact error,
/// and the context stays exactly as the failing sibling left it — the
/// siblings scheduled after it are never resolved.
pub proof fn lemma_eval_all_propagates(es: Seq<Expr>, ctx: ContextModel, i: int)
    requires
        0 <= i < es.len(),
        eval_all(es.take(i), ctx).0 is Ok,
        eval(es[i], eval_all(es.take(i), ctx).1).0 is Err,
    ensures
        ({
            let child = eval(es[i], eval_all(es.take(i), ctx).1);
            match child.0 {
                Err(err) => eval_all(es, ctx) == (
                    Err::<Seq<ValueModel>, ExpressionErrorModel>(err),
                    child.1,
                ),
                Ok(_) => true,
            }
        }),
    decreases es,
{
    if i == es.len() - 1 {
        assert(es.take(i) =~= es.drop_last());
        assert(es.last() == es[i]);
    } else {
        assert(es.drop_last().take(i) =~= es.take(i));
        assert(es.drop_last()[i] == es[i]);
        lemma_eval_all_propagates(es.drop_last(), ctx, i);
    }
}

/// Abort short-circuit along sibling sequences: once a sibling resolves to
/// the abort signal, the whole sequence resolves to that abort, with the
/// original span, and no sibling scheduled after it is resolved — the
/// context carries no effect of theirs.
pub proof fn lemma_abort_short_circuit(es: Seq<Expr>, ctx: ContextModel, i: int, span: crate::span::Span)
    requires
        0 <= i < es.len(),
        eval_all(es.take(i), ctx).0 is Ok,
        eval(es[i], eval_all(es.take(i), ctx).1).0 == Err::<ValueModel, ExpressionErrorModel>(
            ExpressionErrorModel::Abort { span },
        ),
    ensures
        eval_all(es, ctx) == (
            Err::<Seq<ValueModel>, ExpressionErrorModel>(ExpressionErrorModel::Abort { span }),
            eval(es[i], eval_all(es.take(i), ctx).1).1,
        ),
{
    lemma_eval_all_propagates(es, ctx, i);
}

/// Whether `d` is `e` itself or stands somewhere below it.
pub open spec fn subtree_of(d: Expr, e: Expr) -> bool
    decreases e,
{
    ||| d == e
    ||| match e {
        Expr::Container(c) => match c.variant {
            Variant::Group(g) => subtree_of(d, *g.inner),
            Variant::Block(b) => subtree_in(d, b.inner@),
            Variant::Array(a) => subtree_in(d, a.inner@),
            Variant::Object(o) => subtree_in_entries(d, o.fields@),
        },
        Expr::IfStatement(i) => subtree_of(d, *i.predicate) || subtree_of(d, *i.consequent)
            || match i.alternative {
            Some(alt) => subtree_of(d, *alt),
            None => false,
        },
        Expr::Op(o) => subtree_of(d, *o.lhs) || subtree_of(d, *o.rhs),
        Expr::Assignment(a) => subtree_of(d, *a.expr),
        Expr::FunctionCall(f) => subtree_in(d, f.arguments@),
        Expr::Unary(u) => subtree_of(d, *u.expr),
        _ => false,
    }
}

/// Whether `d` stands in or below one of the trees of the sequence.
pub open spec fn subtree_in(d: Expr, es: Seq<Expr>) -> bool
    decreases es,
{
    es.len() > 0 && (subtree_in(d, es.drop_last()) || subtree_of(d, es.last()))
}

/// Whether `d` stands in or below one of the entries' value trees.
pub open spec fn subtree_in_entries(d: Expr, entries: Seq<ObjectEntry>) -> bool
    decreases entries,
{
    entries.len() > 0 && (subtree_in_entries(d, entries.drop_last()) || subtree_of(
        d,
        entries.last().value,
    ))
}

/// The errors a node kind raises at its own site, as the semantics defines
/// them: each carries that node's exact span.
pub open spec fn raises(e: Expr, err: ExpressionErrorModel) -> bool {
    match e {
        Expr::IfStatement(i) => err == node_error(
            "if-statement predicate must resolve to a boolean"@,
            i.span,
        ),
        Expr::Op(o) => err == node_error(
            "operation expects integer operands"@,
            o.span,
        ),
        Expr::FunctionCall(f) => err == node_error(
            "call to undeclared function"@,
            f.span,
        ),
        Expr::Unary(u) => err == node_error(
            "unary negation expects a boolean operand"@,
            u.span,
        ),
        Expr::Abort(a) => err == ExpressionErrorModel::Abort { span: a.span },
        _ => false,
    }
}

/// Error provenance, the whole-tree reading of faithful propagation: no
/// construct of this core handles a child's failure, so every error the
/// root's resolution returns is exactly the error some subexpression raised
/// — same message, same labels, same notes, same span — handed up
/// unchanged.
pub proof fn lemma_error_provenance(e: Expr, ctx: ContextModel)
    ensures
        eval(e, ctx).0 matches Err(err) ==> exists|d: Expr|
            #[trigger] subtree_of(d, e) && raises(d, err),
    decreases e,
{
    match e {
        Expr::Container(c) => match c.variant {
            Variant::Group(g) => {
                lemma_error_provenance(*g.inner, ctx);
                if eval(e, ctx).0 is Err {
                    let err = eval(e, ctx).0->Err_0;
                    let d = choose|d: Expr| #[trigger] subtree_of(d, *g.inner) && raises(d, err);
                    assert(subtree_of(d, e) && raises(d, err));
                }
            },
            Variant::Block(b) => {
                lemma_eval_all_provenance(b.inner@, ctx);
                if eval(e, ctx).0 is Err {
                    let err = eval(e, ctx).0->Err_0;
                    let d = choose|d: Expr| #[trigger] subtree_in(d, b.inner@) && raises(d, err);
                    assert(subtree_of(d, e) && raises(d, err));
                }
            },
            Variant::Array(a) => {
                lemma_eval_all_provenance(a.inner@, ctx);
                if eval(e, ctx).0 is Err {
                    let err = eval(e, ctx).0->Err_0;
                    let d = choose|d: Expr| #[trigger] subtree_in(d, a.inner@) && raises(d, err);
                    assert(subtree_of(d, e) && raises(d, err));
                }
            },
            Variant::Object(o) => {
                lemma_eval_entries_provenance(o.fields@, ctx);
                if eval(e, ctx).0 is Err {
                    let err = eval(e, ctx).0->Err_0;
                    let d = choose|d: Expr|
                        #[trigger] subtree_in_entries(d, o.fields@) && raises(d, err);
                    assert(subtree_of(d, e) && raises(d, err));
                }
            },
        },
        Expr::IfStatement(i) => {
            lemma_error_provenance(*i.predicate, ctx);
            let (rp, ctx2) = eval(*i.predicate, ctx);
            lemma_error_provenance(*i.consequent, ctx2);
            match i.alternative {
                Some(alt) => lemma_error_provenance(*alt, ctx2),
                None => {},
            }
            if eval(e, ctx).0 is Err {
                let err = eval(e, ctx).0->Err_0;
                match rp {
                    Ok(ValueModel::Boolean(_)) => {
                        let d = choose|d: Expr|
                            (subtree_of(d, *i.consequent) || (i.alternative matches Some(alt)
                                && subtree_of(d, *alt))) && #[trigger] raises(d, err);
                        assert(subtree_of(d, e) && raises(d, err));
                    },
                    Ok(_) => {
                        assert(subtree_of(e, e) && raises(e, err));
                    },
                    Err(_) => {
                        let d = choose|d: Expr|
                            #[trigger] subtree_of(d, *i.predicate) && raises(d, err);
                        assert(subtree_of(d, e) && raises(d, err));
                    },
                }
            }
        },
        Expr::Op(o) => {
            lemma_error_provenance(*o.lhs, ctx);
            let (rl, ctx2) = eval(*o.lhs, ctx);
            lemma_error_provenance(*o.rhs, ctx2);
            if eval(e, ctx).0 is Err {
                let err = eval(e, ctx).0->Err_0;
                match rl {
                    Ok(_) => match eval(*o.rhs, ctx2).0 {
                        Ok(_) => {
                            assert(subtree_of(e, e) && raises(e, err));
                        },
                        Err(_) => {
                            let d = choose|d: Expr|
                                #[trigger] subtree_of(d, *o.rhs) && raises(d, err);
                            assert(subtree_of(d, e) && raises(d, err));
                        },
                    },
                    Err(_) => {
                        let d = choose|d: Expr| #[trigger] subtree_of(d, *o.lhs) && raises(d, err);
                        assert(subtree_of(d, e) && raises(d, err));
                    },
                }
            }
        },
        Expr::Assignment(a) => {
            lemma_error_provenance(*a.expr, ctx);
            if eval(e, ctx).0 is Err {
                let err = eval(e, ctx).0->Err_0;
                let d = choose|d: Expr| #[trigger] subtree_of(d, *a.expr) && raises(d, err);
                assert(subtree_of(d, e) && raises(d, err));
            }
        },
        Expr::FunctionCall(f) => {
            lemma_eval_all_provenance(f.arguments@, ctx);
            if eval(e, ctx).0 is Err {
                let err = eval(e, ctx).0->Err_0;
                match eval_all(f.arguments@, ctx).0 {
                    Ok(_) => {
                        assert(subtree_of(e, e) && raises(e, err));
                    },
                    Err(_) => {
                        let d = choose|d: Expr|
                            #[trigger] subtree_in(d, f.arguments@) && raises(d, err);
                        assert(subtree_of(d, e) && raises(d, err));
                    },
                }
            }
        },
        Expr::Unary(u) => {
            lemma_error_provenance(*u.expr, ctx);
            if eval(e, ctx).0 is Err {
                let err = eval(e, ctx).0->Err_0;
                match eval(*u.expr, ctx).0 {
                    Ok(_) => {
                        assert(subtree_of(e, e) && raises(e, err));
                    },
                    Err(_) => {
                        let d = choose|d: Expr| #[trigger] subtree_of(d, *u.expr) && raises(d, err);
                        assert(subtree_of(d, e) && raises(d, err));
                    },
                }
            }
        },
        Expr::Abort(_) => {
            if eval(e, ctx).0 is Err {
                let err = eval(e, ctx).0->Err_0;
                assert(subtree_of(e, e) && raises(e, err));
            }
        },
        _ => {},
    }
}

proof fn lemma_eval_all_provenance(es: Seq<Expr>, ctx: ContextModel)
    ensures
        eval_all(es, ctx).0 matches Err(err) ==> exists|d: Expr|
            #[trigger] subtree_in(d, es) && raises(d, err),
    decreases es,
{
    if es.len() > 0 {
        lemma_eval_all_provenance(es.drop_last(), ctx);
        let (r, ctx2) = eval_all(es.drop_last(), ctx);
        lemma_error_provenance(es.last(), ctx2);
        if eval_all(es, ctx).0 is Err {
            let err = eval_all(es, ctx).0->Err_0;
            match r {
                Ok(_) => {
                    let d = choose|d: Expr| #[trigger] subtree_of(d, es.last()) && raises(d, err);
                    assert(subtree_in(d, es) && raises(d, err));
                },
                Err(_) => {
                    let d = choose|d: Expr|
                        #[trigger] subtree_in(d, es.drop_last()) && raises(d, err);
                    assert(subtree_in(d, es) && raises(d, err));
                },
            }
        }
    }
}

proof fn lemma_eval_entries_provenance(entries: Seq<ObjectEntry>, ctx: ContextModel)
    ensures
        eval_entries(entries, ctx).0 matches Err(err) ==> exists|d: Expr|
            #[trigger] subtree_in_entries(d, entries) && raises(d, err),
    decreases entries,
{
    if entries.len() > 0 {
        lemma_eval_entries_provenance(entries.drop_last(), ctx);
        let (r, ctx2) = eval_entries(entries.drop_last(), ctx);
        lemma_error_provenance(entries.last().value, ctx2);
        if eval_entries(entries, ctx).0 is Err {
            let err = eval_entries(entries, ctx).0->Err_0;
            match r {
                Ok(_) => {
                    let d = choose|d: Expr|
                        #[trigger] subtree_of(d, entries.last().value) && raises(d, err);
                    assert(subtree_in_entries(d, entries) && raises(d, err));
                },
                Err(_) => {
                    let d = choose|d: Expr|
                        #[trigger] subtree_in_entries(d, entries.drop_last()) && raises(d, err);
                    assert(subtree_in_entries(d, entries) && raises(d, err));
                },
            }
        }
    }
}

/// Conversion round-trip: a plain text message turned into a generic
/// runtime error reads back as exactly that message, with no labels and no
/// notes.
pub proof fn lemma_conversion_round_trip(message: Seq<char>)
    ensures
        expression_error_message(plain_error(message)) == message,
        expression_error_labels(plain_error(message)) =~= Seq::<LabelModel>::empty(),
        expression_error_notes(plain_error(message)) =~= Seq::<NoteModel>::empty(),
{
}

/// A static value is context-free: where `as_value` yields a concrete
/// value, resolution yields that same value against every context and
/// leaves every context untouched.
pub proof fn lemma_static_value_consistent(e: Expr, ctx: ContextModel)
    ensures
        static_value(e) matches Some(v) ==> eval(e, ctx) == (
            Ok::<ValueModel, ExpressionErrorModel>(v),
            ctx,
        ),
{
}

} // verus!

//! The closed variant registry and the dispatch engine.
//!
//! [`Expr`] is the tagged union of every node kind the language knows; each
//! case wraps one concrete implementer of the expression capability
//! (resolve, static value, type derivation, state update, rendering).
//! Dispatch is a total, exhaustive match: adding a case requires updating
//! every dispatch site, which is the intended safety mechanism.
//!
//! The optional kinds (if-statement, operation, function call, unary
//! operation, abort) are governed by the build-time [`Features`] table;
//! [`Expr::check_enabled`] rejects, with a `Missing` construction error, any
//! tree that references a disabled kind.

use crate::context::Context;
use crate::diagnostic::{Label, LabelModel, Note, NoteModel};
use crate::error::{Error, ExpressionError};
use crate::semantics::{
    any_entry_fallible, any_fallible, check_all, check_entries, check_model, check_tree, eval,
    eval_all, eval_entries, node_error, object_field, path_model, rendering, resolved_model,
    static_value, td, unit_model, upd, upd_all, upd_entries, walk_path,
};
use crate::span::Span;
use crate::state::State;
use crate::type_def::{Kind, TypeDef};
use crate::value::{
    elements_model, fields_model, lemma_elements_model, lemma_fields_model, FieldValue, Value,
    ValueModel,
};
use vstd::prelude::*;
use vstd::string::StringExecFns;

verus! {

/// What resolving an expression produces: a value, or a runtime error.
pub type Resolved = Result<Value, ExpressionError>;

/// A literal value embedded in the program text.
#[derive(Debug)]
pub struct Literal {
    pub value: Value,
    pub span: Span,
}

/// A parenthesised sub-expression.
#[derive(Debug)]
pub struct Group {
    pub inner: Box<Expr>,
}

/// A sequence of expressions; its value is the last one's (null when empty).
#[derive(Debug)]
pub struct Block {
    pub inner: Vec<Expr>,
}

/// An array constructor.
#[derive(Debug)]
pub struct Array {
    pub inner: Vec<Expr>,
}

/// One key/expression pair of an object constructor.
#[derive(Debug)]
pub struct ObjectEntry {
    pub key: String,
    pub value: Expr,
}

/// An object constructor.
#[derive(Debug)]
pub struct Object {
    pub fields: Vec<ObjectEntry>,
}

/// The sub-kind of a container expression.
#[derive(Debug)]
pub enum Variant {
    Group(Group),
    Block(Block),
    Array(Array),
    Object(Object),
}

/// A container expression: group, block, array or object. Containers are
/// always enabled; no feature flag governs them.
#[derive(Debug)]
pub struct Container {
    pub variant: Variant,
}

/// A two-way conditional; the alternative branch is optional.
#[derive(Debug)]
pub struct IfStatement {
    pub predicate: Box<Expr>,
    pub consequent: Box<Expr>,
    pub alternative: Option<Box<Expr>>,
    pub span: Span,
}

/// The operator of a binary operation.
#[derive(Clone, Copy, Debug, PartialEq, Eq, Structural)]
pub enum Opcode {
    Add,
    Subtract,
}

/// A binary operation over two sub-expressions.
#[derive(Debug)]
pub struct Op {
    pub lhs: Box<Expr>,
    pub rhs: Box<Expr>,
    pub opcode: Opcode,
    pub span: Span,
}

/// Binding of a variable to the value of an expression.
#[derive(Debug)]
pub struct Assignment {
    pub target: String,
    pub expr: Box<Expr>,
    pub span: Span,
}

/// What a query reads from: the external target or a runtime variable.
#[derive(Debug)]
pub enum Target {
    External,
    Internal(String),
}

/// A field-path read; missing fields resolve to null.
#[derive(Debug)]
pub struct Query {
    pub target: Target,
    pub path: Vec<String>,
}

/// A call into the external function library. This core carries the call
/// shape only; no function registry exists here, so resolving one evaluates
/// the arguments and then fails.
#[derive(Debug)]
pub struct FunctionCall {
    pub ident: String,
    pub arguments: Vec<Expr>,
    pub span: Span,
}

/// A read of a runtime variable; an unbound name reads as null.
#[derive(Debug)]
pub struct Variable {
    pub ident: String,
    pub span: Span,
}

/// The expression that does nothing and resolves to null.
#[derive(Debug)]
pub struct Noop;

/// Unary logical negation of a boolean sub-expression.
#[derive(Debug)]
pub struct Unary {
    pub expr: Box<Expr>,
    pub span: Span,
}

/// An explicit, unrecoverable request to terminate the resolution.
#[derive(Debug)]
pub struct Abort {
    pub span: Span,
}

/// The closed tagged union of every node kind.
#[derive(Debug)]
pub enum Expr {
    Literal(Literal),
    Container(Container),
    IfStatement(IfStatement),
    Op(Op),
    Assignment(Assignment),
    Query(Query),
    FunctionCall(FunctionCall),
    Variable(Variable),
    Noop(Noop),
    Unary(Unary),
    Abort(Abort),
}

/// The build-time configuration surface: one flag per optional node kind.
/// Container expressions, literals, assignments, queries, variables and
/// noops are always enabled.
#[derive(Clone, Copy, Debug, PartialEq, Eq, Structural)]
pub struct Features {
    pub abort: bool,
    pub if_statement: bool,
    pub op: bool,
    pub function_call: bool,
    pub unary: bool,
}

impl Features {
    /// The configuration with every optional kind enabled.
    pub fn all() -> (r: Features)
        ensures
            r == (Features {
                abort: true,
                if_statement: true,
                op: true,
                function_call: true,
                unary: true,
            }),
    {
        Features { abort: true, if_statement: true, op: true, function_call: true, unary: true }
    }
}

/// The short human-readable label of a node's kind, used by diagnostics and
/// tooling; for containers, the label comes from the container's sub-kind.
pub open spec fn kind_name(e: Expr) -> Seq<char> {
    match e {
        Expr::Literal(_) => "literal"@,
        Expr::Container(c) => match c.variant {
            Variant::Group(_) => "group"@,
            Variant::Block(_) => "block"@,
            Variant::Array(_) => "array"@,
            Variant::Object(_) => "object"@,
        },
        Expr::IfStatement(_) => "if-statement"@,
        Expr::Op(_) => "operation"@,
        Expr::Assignment(_) => "assignment"@,
        Expr::Query(_) => "query"@,
        Expr::FunctionCall(_) => "function call"@,
        Expr::Variable(_) => "variable call"@,
        Expr::Noop(_) => "noop"@,
        Expr::Unary(_) => "unary operation"@,
        Expr::Abort(_) => "abort operation"@,
    }
}

/// Builds the runtime error a node raises itself: the message doubles as the
/// one primary label at the node's span.
fn raise(message: &str, span: Span) -> (r: ExpressionError)
    ensures
        r@ == node_error(message@, span),
{
    let mut labels: Vec<Label> = Vec::new();
    labels.push(Label::primary(message, span));
    let notes: Vec<Note> = Vec::new();
    proof {
        assert(labels.deep_view() =~= seq![
            LabelModel { message: message@, primary: true, span },
        ]);
        assert(notes.deep_view() =~= Seq::<NoteModel>::empty());
    }
    ExpressionError::Error { message: message.to_owned(), labels, notes }
}

impl Literal {
    /// A literal resolves to its embedded value, touching nothing.
    pub fn resolve(&self, ctx: &mut Context) -> (r: Resolved)
        ensures
            resolved_model(r) == eval(Expr::Literal(*self), old(ctx)@).0,
            final(ctx)@ == eval(Expr::Literal(*self), old(ctx)@).1,
    {
        Ok(self.value.duplicate())
    }
}

impl Noop {
    /// A noop resolves to null, touching nothing.
    pub fn resolve(&self, ctx: &mut Context) -> (r: Resolved)
        ensures
            resolved_model(r) == eval(Expr::Noop(*self), old(ctx)@).0,
            final(ctx)@ == eval(Expr::Noop(*self), old(ctx)@).1,
    {
        Ok(Value::Null)
    }
}

impl Variable {
    /// Reads the variable from the context; an unbound name reads as null.
    pub fn resolve(&self, ctx: &mut Context) -> (r: Resolved)
        ensures
            resolved_model(r) == eval(Expr::Variable(*self), old(ctx)@).0,
            final(ctx)@ == eval(Expr::Variable(*self), old(ctx)@).1,
    {
        match ctx.variable(&self.ident) {
            Some(v) => Ok(v),
            None => Ok(Value::Null),
        }
    }
}

impl Abort {
    /// Signals the unrecoverable termination request, carrying this node's
    /// span.
    pub fn resolve(&self, ctx: &mut Context) -> (r: Resolved)
        ensures
            resolved_model(r) == eval(Expr::Abort(*self), old(ctx)@).0,
            final(ctx)@ == eval(Expr::Abort(*self), old(ctx)@).1,
    {
        Err(ExpressionError::Abort { span: self.span })
    }
}

/// The first field of an object with the given key, in field order.
fn object_field_exec(fields: &Vec<FieldValue>, key: &String) -> (r: Option<Value>)
    ensures
        match object_field(fields_model(fields@), key@) {
            Some(v) => r matches Some(x) && x.deep_view() == v,
            None => r is None,
        },
{
    proof {
        lemma_fields_model(fields@);
        assert(fields_model(fields@).skip(0) =~= fields_model(fields@));
    }
    let mut j: usize = 0;
    while j < fields.len()
        invariant
            j <= fields@.len(),
            fields_model(fields@).len() == fields@.len(),
            forall|i: int|
                0 <= i < fields@.len() ==> fields_model(fields@)[i] == (
                    fields@[i].key@,
                    fields@[i].value.deep_view(),
                ),
            object_field(fields_model(fields@), key@) == object_field(
                fields_model(fields@).skip(j as int),
                key@,
            ),
        decreases fields@.len() - j,
    {
        proof {
            assert(fields_model(fields@).skip(j as int)[0] == fields_model(fields@)[j as int]);
            assert(fields_model(fields@).skip(j as int).drop_first() =~= fields_model(
                fields@,
            ).skip(j + 1));
        }
        let candidate: &String = &fields[j].key;
        if candidate.eq(key) {
            return Some(fields[j].value.duplicate());
        }
        j = j + 1;
    }
    None
}

impl Query {
    /// Walks the field path into the target or a variable; missing fields
    /// and non-object steps read as null. The context is only read.
    #[verifier::loop_isolation(false)]
    pub fn resolve(&self, ctx: &mut Context) -> (r: Resolved)
        ensures
            resolved_model(r) == eval(Expr::Query(*self), old(ctx)@).0,
            final(ctx)@ == eval(Expr::Query(*self), old(ctx)@).1,
    {
        let base: Value = match &self.target {
            Target::External => ctx.target().duplicate(),
            Target::Internal(name) => match ctx.variable(name) {
                Some(v) => v,
                None => Value::Null,
            },
        };
        let ghost base_model = base.deep_view();
        let ghost p = path_model(self.path@);
        let mut current: Value = base;
        let mut i: usize = 0;
        proof {
            assert(p.skip(0) =~= p);
        }
        while i < self.path.len()
            invariant
                i <= self.path@.len(),
                walk_path(base_model, p) == walk_path(current.deep_view(), p.skip(i as int)),
            decreases self.path@.len() - i,
        {
            proof {
                assert(p.skip(i as int)[0] == p[i as int]);
                assert(p[i as int] == self.path@[i as int]@);
                assert(p.skip(i as int).drop_first() =~= p.skip(i + 1));
            }
            let segment: &String = &self.path[i];
            let next: Value = match &current {
                Value::Object(fields) => match object_field_exec(fields, segment) {
                    Some(v) => v,
                    None => Value::Null,
                },
                _ => Value::Null,
            };
            current = next;
            i = i + 1;
        }
        proof {
            assert(p.skip(self.path@.len() as int) =~= Seq::<Seq<char>>::empty());
        }
        Ok(current)
    }
}

impl Unary {
    /// Negates a boolean operand; anything else is a type mismatch. A child
    /// error propagates unchanged.
    pub fn resolve(&self, ctx: &mut Context) -> (r: Resolved)
        ensures
            resolved_model(r) == eval(Expr::Unary(*self), old(ctx)@).0,
            final(ctx)@ == eval(Expr::Unary(*self), old(ctx)@).1,
        decreases self,
    {
        match self.expr.resolve(ctx) {
            Ok(Value::Boolean(b)) => Ok(Value::Boolean(!b)),
            Ok(_) => Err(raise("unary negation expects a boolean operand", self.span)),
            Err(e) => Err(e),
        }
    }
}

impl Op {
    /// Evaluates both operands left to right, then applies the operator to
    /// two integers; anything else is a type mismatch. A child error
    /// propagates unchanged and skips the right operand.
    pub fn resolve(&self, ctx: &mut Context) -> (r: Resolved)
        ensures
            resolved_model(r) == eval(Expr::Op(*self), old(ctx)@).0,
            final(ctx)@ == eval(Expr::Op(*self), old(ctx)@).1,
        decreases self,
    {
        let lv = match self.lhs.resolve(ctx) {
            Ok(v) => v,
            Err(e) => {
                return Err(e);
            },
        };
        let rv = match self.rhs.resolve(ctx) {
            Ok(v) => v,
            Err(e) => {
                return Err(e);
            },
        };
        match (lv, rv) {
            (Value::Integer(a), Value::Integer(b)) => Ok(
                Value::Integer(
                    match self.opcode {
                        Opcode::Add => a.wrapping_add(b),
                        Opcode::Subtract => a.wrapping_sub(b),
                    },
                ),
            ),
            _ => Err(raise("operation expects integer operands", self.span)),
        }
    }
}

impl Assignment {
    /// Evaluates the right-hand side, binds the target variable to its
    /// value, and yields that value. A child error propagates unchanged and
    /// binds nothing.
    pub fn resolve(&self, ctx: &mut Context) -> (r: Resolved)
        ensures
            resolved_model(r) == eval(Expr::Assignment(*self), old(ctx)@).0,
            final(ctx)@ == eval(Expr::Assignment(*self), old(ctx)@).1,
        decreases self,
    {
        let v = match self.expr.resolve(ctx) {
            Ok(v) => v,
            Err(e) => {
                return Err(e);
            },
        };
        ctx.set_variable(&self.target, v.duplicate());
        Ok(v)
    }
}

impl IfStatement {
    /// Evaluates the predicate, which must be a boolean, then exactly one
    /// branch; a missing alternative yields null. A child error propagates
    /// unchanged.
    pub fn resolve(&self, ctx: &mut Context) -> (r: Resolved)
        ensures
            resolved_model(r) == eval(Expr::IfStatement(*self), old(ctx)@).0,
            final(ctx)@ == eval(Expr::IfStatement(*self), old(ctx)@).1,
        decreases self,
    {
        let pv = match self.predicate.resolve(ctx) {
            Ok(v) => v,
            Err(e) => {
                return Err(e);
            },
        };
        match pv {
            Value::Boolean(b) => if b {
                self.consequent.resolve(ctx)
            } else {
                match &self.alternative {
                    Some(alt) => alt.resolve(ctx),
                    None => Ok(Value::Null),
                }
            },
            _ => Err(raise("if-statement predicate must resolve to a boolean", self.span)),
        }
    }
}

impl Group {
    /// A group resolves to its inner expression's result.
    pub fn resolve(&self, ctx: &mut Context) -> (r: Resolved)
        ensures
            resolved_model(r) == eval(
                Expr::Container(Container { variant: Variant::Group(*self) }),
                old(ctx)@,
            ).0,
            final(ctx)@ == eval(
                Expr::Container(Container { variant: Variant::Group(*self) }),
                old(ctx)@,
            ).1,
        decreases self,
    {
        self.inner.resolve(ctx)
    }
}

impl Block {
    /// Resolves every child in order and yields the last one's value (null
    /// when empty). The first child error stops the walk and propagates.
    #[verifier::loop_isolation(false)]
    pub fn resolve(&self, ctx: &mut Context) -> (r: Resolved)
        ensures
            resolved_model(r) == eval(
                Expr::Container(Container { variant: Variant::Block(*self) }),
                old(ctx)@,
            ).0,
            final(ctx)@ == eval(
                Expr::Container(Container { variant: Variant::Block(*self) }),
                old(ctx)@,
            ).1,
        decreases self,
    {
        let (vals, failed) = resolve_all(&self.inner, ctx);
        match failed {
            Some(e) => Err(e),
            None => {
                if vals.len() == 0 {
                    Ok(Value::Null)
                } else {
                    proof {
                        lemma_elements_model(vals@);
                    }
                    let last: &Value = &vals[vals.len() - 1];
                    Ok(last.duplicate())
                }
            },
        }
    }
}

impl Array {
    /// Resolves every element in order into an array value. The first child
    /// error stops the walk and propagates.
    pub fn resolve(&self, ctx: &mut Context) -> (r: Resolved)
        ensures
            resolved_model(r) == eval(
                Expr::Container(Container { variant: Variant::Array(*self) }),
                old(ctx)@,
            ).0,
            final(ctx)@ == eval(
                Expr::Container(Container { variant: Variant::Array(*self) }),
                old(ctx)@,
            ).1,
        decreases self,
    {
        let (vals, failed) = resolve_all(&self.inner, ctx);
        match failed {
            Some(e) => Err(e),
            None => Ok(Value::Array(vals)),
        }
    }
}

impl Object {
    /// Resolves every entry's value in order into an object value, keeping
    /// entry order. The first child error stops the walk and propagates.
    #[verifier::loop_isolation(false)]
    pub fn resolve(&self, ctx: &mut Context) -> (r: Resolved)
        ensures
            resolved_model(r) == eval(
                Expr::Container(Container { variant: Variant::Object(*self) }),
                old(ctx)@,
            ).0,
            final(ctx)@ == eval(
                Expr::Container(Container { variant: Variant::Object(*self) }),
                old(ctx)@,
            ).1,
        decreases self,
    {
        let mut out: Vec<FieldValue> = Vec::new();
        let mut failed: Option<ExpressionError> = None;
        let mut i: usize = 0;
        proof {
            assert(self.fields@.take(0) =~= Seq::<ObjectEntry>::empty());
            assert(fields_model(out@) =~= Seq::<(Seq<char>, ValueModel)>::empty());
        }
        while i < self.fields.len()
            invariant
                i <= self.fields@.len(),
                match failed {
                    None => eval_entries(self.fields@.take(i as int), old(ctx)@) == (
                        Ok::<Seq<(Seq<char>, ValueModel)>, crate::error::ExpressionErrorModel>(
                            fields_model(out@),
                        ),
                        ctx@,
                    ),
                    Some(e) => eval_entries(self.fields@.take(i as int), old(ctx)@) == (
                        Err::<Seq<(Seq<char>, ValueModel)>, crate::error::ExpressionErrorModel>(
                            e@,
                        ),
                        ctx@,
                    ),
                },
            decreases self.fields@.len() - i,
        {
            proof {
                assert(self.fields@.take(i + 1).drop_last() =~= self.fields@.take(i as int));
                assert(self.fields@.take(i + 1).last() == self.fields@[i as int]);
            }
            if failed.is_none() {
                let entry: &ObjectEntry = &self.fields[i];
                let ghost out_before = out@;
                match entry.value.resolve(ctx) {
                    Ok(v) => {
                        out.push(FieldValue { key: entry.key.clone(), value: v });
                        proof {
                            assert(out@.drop_last() =~= out_before);
                        }
                    },
                    Err(e) => {
                        failed = Some(e);
                    },
                }
            }
            i = i + 1;
        }
        proof {
            assert(self.fields@.take(self.fields@.len() as int) =~= self.fields@);
        }
        match failed {
            Some(e) => Err(e),
            None => Ok(Value::Object(out)),
        }
    }
}

impl Container {
    /// Routes resolution to the active sub-kind.
    pub fn resolve(&self, ctx: &mut Context) -> (r: Resolved)
        ensures
            resolved_model(r) == eval(Expr::Container(*self), old(ctx)@).0,
            final(ctx)@ == eval(Expr::Container(*self), old(ctx)@).1,
        decreases self,
    {
        match &self.variant {
            Variant::Group(v) => v.resolve(ctx),
            Variant::Block(v) => v.resolve(ctx),
            Variant::Array(v) => v.resolve(ctx),
            Variant::Object(v) => v.resolve(ctx),
        }
    }
}

impl FunctionCall {
    /// Evaluates the arguments left to right; with no function registry in
    /// this core, a call that gets that far fails. A child error propagates
    /// unchanged.
    pub fn resolve(&self, ctx: &mut Context) -> (r: Resolved)
        ensures
            resolved_model(r) == eval(Expr::FunctionCall(*self), old(ctx)@).0,
            final(ctx)@ == eval(Expr::FunctionCall(*self), old(ctx)@).1,
        decreases self,
    {
        let (vals, failed) = resolve_all(&self.arguments, ctx);
        match failed {
            Some(e) => Err(e),
            None => Err(raise("call to undeclared function", self.span)),
        }
    }
}

/// Resolves a sequence of expressions left to right, threading the context;
/// stops evaluating after the first error and hands it back beside the
/// values gathered so far.
#[verifier::loop_isolation(false)]
fn resolve_all(es: &Vec<Expr>, ctx: &mut Context) -> (r: (Vec<Value>, Option<ExpressionError>))
    ensures
        match r.1 {
            None => eval_all(es@, old(ctx)@) == (
                Ok::<Seq<ValueModel>, crate::error::ExpressionErrorModel>(elements_model(r.0@)),
                final(ctx)@,
            ),
            Some(e) => eval_all(es@, old(ctx)@) == (
                Err::<Seq<ValueModel>, crate::error::ExpressionErrorModel>(e@),
                final(ctx)@,
            ),
        },
    decreases es,
{
    let mut vals: Vec<Value> = Vec::new();
    let mut failed: Option<ExpressionError> = None;
    let mut i: usize = 0;
    proof {
        assert(es@.take(0) =~= Seq::<Expr>::empty());
        assert(elements_model(vals@) =~= Seq::<ValueModel>::empty());
    }
    while i < es.len()
        invariant
            i <= es@.len(),
            match failed {
                None => eval_all(es@.take(i as int), old(ctx)@) == (
                    Ok::<Seq<ValueModel>, crate::error::ExpressionErrorModel>(
                        elements_model(vals@),
                    ),
                    ctx@,
                ),
                Some(e) => eval_all(es@.take(i as int), old(ctx)@) == (
                    Err::<Seq<ValueModel>, crate::error::ExpressionErrorModel>(e@),
                    ctx@,
                ),
            },
        decreases es@.len() - i,
    {
        proof {
            assert(es@.take(i + 1).drop_last() =~= es@.take(i as int));
            assert(es@.take(i + 1).last() == es@[i as int]);
        }
        if failed.is_none() {
            let child: &Expr = &es[i];
            let ghost vals_before = vals@;
            match child.resolve(ctx) {
                Ok(v) => {
                    vals.push(v);
                    proof {
                        assert(vals@.drop_last() =~= vals_before);
                    }
                },
                Err(e) => {
                    failed = Some(e);
                },
            }
        }
        i = i + 1;
    }
    proof {
        assert(es@.take(es@.len() as int) =~= es@);
    }
    (vals, failed)
}

impl Expr {
    /// Resolves this node against the context: the single runtime entry
    /// point, routing to the active case with no additional logic. Returns
    /// exactly what the semantics [`eval`] gives, leaving the context as
    /// [`eval`] says.
    pub fn resolve(&self, ctx: &mut Context) -> (r: Resolved)
        ensures
            resolved_model(r) == eval(*self, old(ctx)@).0,
            final(ctx)@ == eval(*self, old(ctx)@).1,
        decreases self,
    {
        match self {
            Expr::Literal(v) => v.resolve(ctx),
            Expr::Container(v) => v.resolve(ctx),
            Expr::IfStatement(v) => v.resolve(ctx),
            Expr::Op(v) => v.resolve(ctx),
            Expr::Assignment(v) => v.resolve(ctx),
            Expr::Query(v) => v.resolve(ctx),
            Expr::FunctionCall(v) => v.resolve(ctx),
            Expr::Variable(v) => v.resolve(ctx),
            Expr::Noop(v) => v.resolve(ctx),
            Expr::Unary(v) => v.resolve(ctx),
            Expr::Abort(v) => v.resolve(ctx),
        }
    }
}

/// Whether any expression of the sequence derives as fallible.
#[verifier::loop_isolation(false)]
fn any_fallible_exec(es: &Vec<Expr>, state: &State) -> (r: bool)
    ensures
        r == any_fallible(es@),
    decreases es,
{
    let mut acc = false;
    let mut i: usize = 0;
    proof {
        assert(es@.take(0) =~= Seq::<Expr>::empty());
    }
    while i < es.len()
        invariant
            i <= es@.len(),
            acc == any_fallible(es@.take(i as int)),
        decreases es@.len() - i,
    {
        proof {
            assert(es@.take(i + 1).drop_last() =~= es@.take(i as int));
            assert(es@.take(i + 1).last() == es@[i as int]);
        }
        let child: &Expr = &es[i];
        let t = child.type_def(state);
        acc = acc || t.fallible;
        i = i + 1;
    }
    proof {
        assert(es@.take(es@.len() as int) =~= es@);
    }
    acc
}

/// Whether any entry's value expression derives as fallible.
#[verifier::loop_isolation(false)]
fn any_entry_fallible_exec(entries: &Vec<ObjectEntry>, state: &State) -> (r: bool)
    ensures
        r == any_entry_fallible(entries@),
    decreases entries,
{
    let mut acc = false;
    let mut i: usize = 0;
    proof {
        assert(entries@.take(0) =~= Seq::<ObjectEntry>::empty());
    }
    while i < entries.len()
        invariant
            i <= entries@.len(),
            acc == any_entry_fallible(entries@.take(i as int)),
        decreases entries@.len() - i,
    {
        proof {
            assert(entries@.take(i + 1).drop_last() =~= entries@.take(i as int));
            assert(entries@.take(i + 1).last() == entries@[i as int]);
        }
        let entry: &ObjectEntry = &entries[i];
        let t = entry.value.type_def(state);
        acc = acc || t.fallible;
        i = i + 1;
    }
    proof {
        assert(entries@.take(entries@.len() as int) =~= entries@);
    }
    acc
}

impl Expr {
    /// Derives this node's static type: exactly the semantics [`td`].
    /// Compile-time only; reads the node bottom-up and mutates nothing. The
    /// state parameter is the threaded static state, which this closed core
    /// derives no type facts from.
    pub fn type_def(&self, state: &State) -> (t: TypeDef)
        ensures
            t == td(*self),
        decreases self,
    {
        match self {
            Expr::Literal(v) => TypeDef { fallible: false, kind: v.value.kind() },
            Expr::Container(c) => match &c.variant {
                Variant::Group(g) => g.inner.type_def(state),
                Variant::Block(b) => {
                    let fallible = any_fallible_exec(&b.inner, state);
                    let kind = if b.inner.len() == 0 {
                        Kind {
                            null: true,
                            boolean: false,
                            integer: false,
                            text: false,
                            array: false,
                            object: false,
                        }
                    } else {
                        let last: &Expr = &b.inner[b.inner.len() - 1];
                        last.type_def(state).kind
                    };
                    TypeDef { fallible, kind }
                },
                Variant::Array(a) => TypeDef {
                    fallible: any_fallible_exec(&a.inner, state),
                    kind: Kind {
                        null: false,
                        boolean: false,
                        integer: false,
                        text: false,
                        array: true,
                        object: false,
                    },
                },
                Variant::Object(o) => TypeDef {
                    fallible: any_entry_fallible_exec(&o.fields, state),
                    kind: Kind {
                        null: false,
                        boolean: false,
                        integer: false,
                        text: false,
                        array: false,
                        object: true,
                    },
                },
            },
            Expr::IfStatement(i) => {
                let p = i.predicate.type_def(state);
                let c = i.consequent.type_def(state);
                match &i.alternative {
                    Some(alt) => {
                        let a = alt.type_def(state);
                        TypeDef {
                            fallible: p.fallible || !p.kind.is_subset_of_boolean() || c.fallible
                                || a.fallible,
                            kind: c.kind.union(&a.kind),
                        }
                    },
                    None => TypeDef {
                        fallible: p.fallible || !p.kind.is_subset_of_boolean() || c.fallible,
                        kind: Kind { null: true, ..c.kind },
                    },
                }
            },
            Expr::Op(o) => {
                let l = o.lhs.type_def(state);
                let r = o.rhs.type_def(state);
                TypeDef {
                    fallible: l.fallible || r.fallible || !l.kind.is_subset_of_integer()
                        || !r.kind.is_subset_of_integer(),
                    kind: Kind {
                        null: false,
                        boolean: false,
                        integer: true,
                        text: false,
                        array: false,
                        object: false,
                    },
                }
            },
            Expr::Assignment(a) => a.expr.type_def(state),
            Expr::Query(_) => TypeDef {
                fallible: false,
                kind: Kind {
                    null: true,
                    boolean: true,
                    integer: true,
                    text: true,
                    array: true,
                    object: true,
                },
            },
            Expr::FunctionCall(_) => TypeDef {
                fallible: true,
                kind: Kind {
                    null: true,
                    boolean: true,
                    integer: true,
                    text: true,
                    array: true,
                    object: true,
                },
            },
            Expr::Variable(_) => TypeDef {
                fallible: false,
                kind: Kind {
                    null: true,
                    boolean: true,
                    integer: true,
                    text: true,
                    array: true,
                    object: true,
                },
            },
            Expr::Noop(_) => TypeDef {
                fallible: false,
                kind: Kind {
                    null: true,
                    boolean: false,
                    integer: false,
                    text: false,
                    array: false,
                    object: false,
                },
            },
            Expr::Unary(u) => {
                let t = u.expr.type_def(state);
                TypeDef {
                    fallible: t.fallible || !t.kind.is_subset_of_boolean(),
                    kind: Kind {
                        null: false,
                        boolean: true,
                        integer: false,
                        text: false,
                        array: false,
                        object: false,
                    },
                }
            },
            Expr::Abort(_) => TypeDef {
                fallible: false,
                kind: Kind {
                    null: true,
                    boolean: false,
                    integer: false,
                    text: false,
                    array: false,
                    object: false,
                },
            },
        }
    }
}

/// Updates the state over a sequence of expressions, left to right; stops
/// updating after the first failure and hands it back.
#[verifier::loop_isolation(false)]
fn update_all(es: &Vec<Expr>, state: &mut State) -> (r: Result<(), ExpressionError>)
    ensures
        unit_model(r) == upd_all(es@, old(state)@).0,
        final(state)@ == upd_all(es@, old(state)@).1,
    decreases es,
{
    let mut failed: Option<ExpressionError> = None;
    let mut i: usize = 0;
    proof {
        assert(es@.take(0) =~= Seq::<Expr>::empty());
    }
    while i < es.len()
        invariant
            i <= es@.len(),
            match failed {
                None => upd_all(es@.take(i as int), old(state)@) == (
                    Ok::<(), crate::error::ExpressionErrorModel>(()),
                    state@,
                ),
                Some(e) => upd_all(es@.take(i as int), old(state)@) == (
                    Err::<(), crate::error::ExpressionErrorModel>(e@),
                    state@,
                ),
            },
        decreases es@.len() - i,
    {
        proof {
            assert(es@.take(i + 1).drop_last() =~= es@.take(i as int));
            assert(es@.take(i + 1).last() == es@[i as int]);
        }
        if failed.is_none() {
            let child: &Expr = &es[i];
            match child.update_state(state) {
                Ok(_) => {},
                Err(e) => {
                    failed = Some(e);
                },
            }
        }
        i = i + 1;
    }
    proof {
        assert(es@.take(es@.len() as int) =~= es@);
    }
    match failed {
        Some(e) => Err(e),
        None => Ok(()),
    }
}

/// Updates the state over an object constructor's entries, left to right.
#[verifier::loop_isolation(false)]
fn update_entries(entries: &Vec<ObjectEntry>, state: &mut State) -> (r: Result<
    (),
    ExpressionError,
>)
    ensures
        unit_model(r) == upd_entries(entries@, old(state)@).0,
        final(state)@ == upd_entries(entries@, old(state)@).1,
    decreases entries,
{
    let mut failed: Option<ExpressionError> = None;
    let mut i: usize = 0;
    proof {
        assert(entries@.take(0) =~= Seq::<ObjectEntry>::empty());
    }
    while i < entries.len()
        invariant
            i <= entries@.len(),
            match failed {
                None => upd_entries(entries@.take(i as int), old(state)@) == (
                    Ok::<(), crate::error::ExpressionErrorModel>(()),
                    state@,
                ),
                Some(e) => upd_entries(entries@.take(i as int), old(state)@) == (
                    Err::<(), crate::error::ExpressionErrorModel>(e@),
                    state@,
                ),
            },
        decreases entries@.len() - i,
    {
        proof {
            assert(entries@.take(i + 1).drop_last() =~= entries@.take(i as int));
            assert(entries@.take(i + 1).last() == entries@[i as int]);
        }
        if failed.is_none() {
            let entry: &ObjectEntry = &entries[i];
            match entry.value.update_state(state) {
                Ok(_) => {},
                Err(e) => {
                    failed = Some(e);
                },
            }
        }
        i = i + 1;
    }
    proof {
        assert(entries@.take(entries@.len() as int) =~= entries@);
    }
    match failed {
        Some(e) => Err(e),
        None => Ok(()),
    }
}

impl Expr {
    /// Registers this node's compile-time facts, walking the node and then
    /// its children left to right: exactly the semantics [`upd`]. An
    /// assignment binds its target and fails on a redefinition conflict;
    /// the first failure stops the pass.
    pub fn update_state(&self, state: &mut State) -> (r: Result<(), ExpressionError>)
        ensures
            unit_model(r) == upd(*self, old(state)@).0,
            final(state)@ == upd(*self, old(state)@).1,
        decreases self,
    {
        match self {
            Expr::Literal(_) => Ok(()),
            Expr::Container(c) => match &c.variant {
                Variant::Group(g) => g.inner.update_state(state),
                Variant::Block(b) => update_all(&b.inner, state),
                Variant::Array(a) => update_all(&a.inner, state),
                Variant::Object(o) => update_entries(&o.fields, state),
            },
            Expr::IfStatement(i) => {
                match i.predicate.update_state(state) {
                    Ok(_) => {},
                    Err(e) => {
                        return Err(e);
                    },
                }
                match i.consequent.update_state(state) {
                    Ok(_) => {},
                    Err(e) => {
                        return Err(e);
                    },
                }
                match &i.alternative {
                    Some(alt) => alt.update_state(state),
                    None => Ok(()),
                }
            },
            Expr::Op(o) => {
                match o.lhs.update_state(state) {
                    Ok(_) => {},
                    Err(e) => {
                        return Err(e);
                    },
                }
                o.rhs.update_state(state)
            },
            Expr::Assignment(a) => {
                match a.expr.update_state(state) {
                    Ok(_) => {},
                    Err(e) => {
                        return Err(e);
                    },
                }
                if state.is_bound(&a.target) {
                    Err(raise("variable redefinition", a.span))
                } else {
                    state.bind(&a.target);
                    Ok(())
                }
            },
            Expr::Query(_) => Ok(()),
            Expr::FunctionCall(f) => update_all(&f.arguments, state),
            Expr::Variable(_) => Ok(()),
            Expr::Noop(_) => Ok(()),
            Expr::Unary(u) => u.expr.update_state(state),
            Expr::Abort(_) => Ok(()),
        }
    }

    /// The static value: a concrete value only where the output cannot
    /// depend on the runtime context, so only for literals. Used for
    /// constant folding by collaborators, never by resolution itself.
    pub fn as_value(&self) -> (r: Option<Value>)
        ensures
            match static_value(*self) {
                Some(v) => r matches Some(x) && x.deep_view() == v,
                None => r is None,
            },
    {
        match self {
            Expr::Literal(v) => Some(v.value.duplicate()),
            Expr::Container(_) => None,
            Expr::IfStatement(_) => None,
            Expr::Op(_) => None,
            Expr::Assignment(_) => None,
            Expr::Query(_) => None,
            Expr::FunctionCall(_) => None,
            Expr::Variable(_) => None,
            Expr::Noop(_) => None,
            Expr::Unary(_) => None,
            Expr::Abort(_) => None,
        }
    }

    /// The canonical rendering: only function calls render, as the call
    /// head in normalized form.
    pub fn format(&self) -> (r: Option<String>)
        ensures
            match rendering(*self) {
                Some(s) => r matches Some(x) && x@ == s,
                None => r is None,
            },
    {
        match self {
            Expr::FunctionCall(f) => Some(f.ident.clone().concat("()")),
            Expr::Literal(_) => None,
            Expr::Container(_) => None,
            Expr::IfStatement(_) => None,
            Expr::Op(_) => None,
            Expr::Assignment(_) => None,
            Expr::Query(_) => None,
            Expr::Variable(_) => None,
            Expr::Noop(_) => None,
            Expr::Unary(_) => None,
            Expr::Abort(_) => None,
        }
    }
}

/// Checks a sequence of trees against the configuration, left to right.
#[verifier::loop_isolation(false)]
fn check_all_exec(es: &Vec<Expr>, features: &Features) -> (r: Result<(), Error>)
    ensures
        check_model(r) == check_all(es@, *features),
    decreases es,
{
    let mut failed: Option<Error> = None;
    let mut i: usize = 0;
    proof {
        assert(es@.take(0) =~= Seq::<Expr>::empty());
    }
    while i < es.len()
        invariant
            i <= es@.len(),
            match failed {
                None => check_all(es@.take(i as int), *features) == Ok::<
                    (),
                    crate::error::ErrorModel,
                >(()),
                Some(e) => check_all(es@.take(i as int), *features) == Err::<
                    (),
                    crate::error::ErrorModel,
                >(e@),
            },
        decreases es@.len() - i,
    {
        proof {
            assert(es@.take(i + 1).drop_last() =~= es@.take(i as int));
            assert(es@.take(i + 1).last() == es@[i as int]);
        }
        if failed.is_none() {
            let child: &Expr = &es[i];
            match child.check_enabled(features) {
                Ok(_) => {},
                Err(e) => {
                    failed = Some(e);
                },
            }
        }
        i = i + 1;
    }
    proof {
        assert(es@.take(es@.len() as int) =~= es@);
    }
    match failed {
        Some(e) => Err(e),
        None => Ok(()),
    }
}

/// Checks an object constructor's entries against the configuration.
#[verifier::loop_isolation(false)]
fn check_entries_exec(entries: &Vec<ObjectEntry>, features: &Features) -> (r: Result<(), Error>)
    ensures
        check_model(r) == check_entries(entries@, *features),
    decreases entries,
{
    let mut failed: Option<Error> = None;
    let mut i: usize = 0;
    proof {
        assert(entries@.take(0) =~= Seq::<ObjectEntry>::empty());
    }
    while i < entries.len()
        invariant
            i <= entries@.len(),
            match failed {
                None => check_entries(entries@.take(i as int), *features) == Ok::<
                    (),
                    crate::error::ErrorModel,
                >(()),
                Some(e) => check_entries(entries@.take(i as int), *features) == Err::<
                    (),
                    crate::error::ErrorModel,
                >(e@),
            },
        decreases entries@.len() - i,
    {
        proof {
            assert(entries@.take(i + 1).drop_last() =~= entries@.take(i as int));
            assert(entries@.take(i + 1).last() == entries@[i as int]);
        }
        if failed.is_none() {
            let entry: &ObjectEntry = &entries[i];
            match entry.value.check_enabled(features) {
                Ok(_) => {},
                Err(e) => {
                    failed = Some(e);
                },
            }
        }
        i = i + 1;
    }
    proof {
        assert(entries@.take(entries@.len() as int) =~= entries@);
    }
    match failed {
        Some(e) => Err(e),
        None => Ok(()),
    }
}

impl Expr {
    /// Checks this tree against the build configuration: the first node, in
    /// traversal order, whose kind is disabled yields the `Missing`
    /// construction error naming the governing flag at that node's span;
    /// exactly the semantics [`check_tree`].
    pub fn check_enabled(&self, features: &Features) -> (r: Result<(), Error>)
        ensures
            check_model(r) == check_tree(*self, *features),
        decreases self,
    {
        match self {
            Expr::Literal(_) => Ok(()),
            Expr::Container(c) => match &c.variant {
                Variant::Group(g) => g.inner.check_enabled(features),
                Variant::Block(b) => check_all_exec(&b.inner, features),
                Variant::Array(a) => check_all_exec(&a.inner, features),
                Variant::Object(o) => check_entries_exec(&o.fields, features),
            },
            Expr::IfStatement(i) => {
                if !features.if_statement {
                    return Err(
                        Error::Missing { span: i.span, feature: "expr-if_statement".to_owned() },
                    );
                }
                match i.predicate.check_enabled(features) {
                    Ok(_) => {},
                    Err(e) => {
                        return Err(e);
                    },
                }
                match i.consequent.check_enabled(features) {
                    Ok(_) => {},
                    Err(e) => {
                        return Err(e);
                    },
                }
                match &i.alternative {
                    Some(alt) => alt.check_enabled(features),
                    None => Ok(()),
                }
            },
            Expr::Op(o) => {
                if !features.op {
                    return Err(Error::Missing { span: o.span, feature: "expr-op".to_owned() });
                }
                match o.lhs.check_enabled(features) {
                    Ok(_) => {},
                    Err(e) => {
                        return Err(e);
                    },
                }
                o.rhs.check_enabled(features)
            },
            Expr::Assignment(a) => a.expr.check_enabled(features),
            Expr::Query(_) => Ok(()),
            Expr::FunctionCall(f) => {
                if !features.function_call {
                    return Err(
                        Error::Missing { span: f.span, feature: "expr-function_call".to_owned() },
                    );
                }
                check_all_exec(&f.arguments, features)
            },
            Expr::Variable(_) => Ok(()),
            Expr::Noop(_) => Ok(()),
            Expr::Unary(u) => {
                if !features.unary {
                    return Err(Error::Missing { span: u.span, feature: "expr-unary".to_owned() });
                }
                u.expr.check_enabled(features)
            },
            Expr::Abort(a) => {
                if !features.abort {
                    return Err(Error::Missing { span: a.span, feature: "expr-abort".to_owned() });
                }
                Ok(())
            },
        }
    }
}

impl Expr {
    /// The human-readable kind label: exactly [`kind_name`].
    pub fn as_str(&self) -> (s: &str)
        ensures
            s@ == kind_name(*self),
    {
        match self {
            Expr::Literal(..) => "literal",
            Expr::Container(c) => match &c.variant {
                Variant::Group(..) => "group",
                Variant::Block(..) => "block",
                Variant::Array(..) => "array",
                Variant::Object(..) => "object",
            },
            Expr::IfStatement(..) => "if-statement",
            Expr::Op(..) => "operation",
            Expr::Assignment(..) => "assignment",
            Expr::Query(..) => "query",
            Expr::FunctionCall(..) => "function call",
            Expr::Variable(..) => "variable call",
            Expr::Noop(..) => "noop",
            Expr::Unary(..) => "unary operation",
            Expr::Abort(..) => "abort operation",
        }
    }
}

impl From<Literal> for Expr {
    fn from(literal: Literal) -> Self {
        Expr::Literal(literal)
    }
}

impl vstd::std_specs::convert::FromSpecImpl<Literal> for Expr {
    open spec fn obeys_from_spec() -> bool {
        true
    }

    open spec fn from_spec(literal: Literal) -> Expr {
        Expr::Literal(literal)
    }
}

impl From<Container> for Expr {
    fn from(container: Container) -> Self {
        Expr::Container(container)
    }
}

impl vstd::std_specs::convert::FromSpecImpl<Container> for Expr {
    open spec fn obeys_from_spec() -> bool {
        true
    }

    open spec fn from_spec(container: Container) -> Expr {
        Expr::Container(container)
    }
}

impl From<IfStatement> for Expr {
    fn from(if_statement: IfStatement) -> Self {
        Expr::IfStatement(if_statement)
    }
}

impl vstd::std_specs::convert::FromSpecImpl<IfStatement> for Expr {
    open spec fn obeys_from_spec() -> bool {
        true
    }

    open spec fn from_spec(if_statement: IfStatement) -> Expr {
        Expr::IfStatement(if_statement)
    }
}

impl From<Op> for Expr {
    fn from(op: Op) -> Self {
        Expr::Op(op)
    }
}

impl vstd::std_specs::convert::FromSpecImpl<Op> for Expr {
    open spec fn obeys_from_spec() -> bool {
        true
    }

    open spec fn from_spec(op: Op) -> Expr {
        Expr::Op(op)
    }
}

impl From<Assignment> for Expr {
    fn from(assignment: Assignment) -> Self {
        Expr::Assignment(assignment)
    }
}

impl vstd::std_specs::convert::FromSpecImpl<Assignment> for Expr {
    open spec fn obeys_from_spec() -> bool {
        true
    }

    open spec fn from_spec(assignment: Assignment) -> Expr {
        Expr::Assignment(assignment)
    }
}

impl From<Query> for Expr {
    fn from(query: Query) -> Self {
        Expr::Query(query)
    }
}

impl vstd::std_specs::convert::FromSpecImpl<Query> for Expr {
    open spec fn obeys_from_spec() -> bool {
        true
    }

    open spec fn from_spec(query: Query) -> Expr {
        Expr::Query(query)
    }
}

impl From<FunctionCall> for Expr {
    fn from(function_call: FunctionCall) -> Self {
        Expr::FunctionCall(function_call)
    }
}

impl vstd::std_specs::convert::FromSpecImpl<FunctionCall> for Expr {
    open spec fn obeys_from_spec() -> bool {
        true
    }

    open spec fn from_spec(function_call: FunctionCall) -> Expr {
        Expr::FunctionCall(function_call)
    }
}

impl From<Variable> for Expr {
    fn from(variable: Variable) -> Self {
        Expr::Variable(variable)
    }
}

impl vstd::std_specs::convert::FromSpecImpl<Variable> for Expr {
    open spec fn obeys_from_spec() -> bool {
        true
    }

    open spec fn from_spec(variable: Variable) -> Expr {
        Expr::Variable(variable)
    }
}

impl From<Noop> for Expr {
    fn from(noop: Noop) -> Self {
        Expr::Noop(noop)
    }
}

impl vstd::std_specs::convert::FromSpecImpl<Noop> for Expr {
    open spec fn obeys_from_spec() -> bool {
        true
    }

    open spec fn from_spec(noop: Noop) -> Expr {
        Expr::Noop(noop)
    }
}

impl From<Unary> for Expr {
    fn from(unary: Unary) -> Self {
        Expr::Unary(unary)
    }
}

impl vstd::std_specs::convert::FromSpecImpl<Unary> for Expr {
    open spec fn obeys_from_spec() -> bool {
        true
    }

    open spec fn from_spec(unary: Unary) -> Expr {
        Expr::Unary(unary)
    }
}

impl From<Abort> for Expr {
    fn from(abort: Abort) -> Self {
        Expr::Abort(abort)
    }
}

impl vstd::std_specs::convert::FromSpecImpl<Abort> for Expr {
    open spec fn obeys_from_spec() -> bool {
        true
    }

    open spec fn from_spec(abort: Abort) -> Expr {
        Expr::Abort(abort)
    }
}

} // verus!

//! The error taxonomy: compile-time construction errors and runtime
//! evaluation errors, two disjoint families.
//!
//! Compile-time: [`Error::Fallible`] (a provably fallible expression left
//! unhandled) and [`Error::Missing`] (a node kind excluded by the build
//! configuration). Runtime: [`ExpressionError::Abort`] (the program asked to
//! terminate; unrecoverable, no ordinary handling may intercept it) and
//! [`ExpressionError::Error`] (the general, undifferentiated failure).
//! Every variant exposes the same diagnostic contract: a numeric code, a
//! message, labels, and notes.

use crate::diagnostic::{Label, LabelModel, Note, NoteModel};
use crate::span::Span;
use vstd::prelude::*;
use vstd::string::StringExecFns;

verus! {

/// Mathematical model of a compile-time [`Error`].
pub enum ErrorModel {
    Fallible { span: Span },
    Missing { span: Span, feature: Seq<char> },
}

/// A compile-time construction error.
#[derive(Debug, PartialEq, Eq)]
pub enum Error {
    /// The static pass proved this expression can fail and the surrounding
    /// program added no error handling.
    Fallible { span: Span },
    /// The parsed program references a node kind the current build
    /// configuration has excluded; `feature` names the flag to enable.
    Missing { span: Span, feature: String },
}

impl View for Error {
    type V = ErrorModel;

    open spec fn view(&self) -> ErrorModel {
        match self {
            Error::Fallible { span } => ErrorModel::Fallible { span: *span },
            Error::Missing { span, feature } => ErrorModel::Missing {
                span: *span,
                feature: feature@,
            },
        }
    }
}

/// Documentation code of a compile-time error.
pub open spec fn error_code(e: ErrorModel) -> int {
    match e {
        ErrorModel::Fallible { .. } => 100,
        ErrorModel::Missing { .. } => 900,
    }
}

/// Message of a compile-time error.
pub open spec fn error_message(e: ErrorModel) -> Seq<char> {
    match e {
        ErrorModel::Fallible { .. } => "unhandled error"@,
        ErrorModel::Missing { .. } => "expression type unavailable"@,
    }
}

/// Labels of a compile-time error: one primary label at the failing span and
/// one context label with the remedy.
pub open spec fn error_labels(e: ErrorModel) -> Seq<LabelModel> {
    match e {
        ErrorModel::Fallible { span } => seq![
            LabelModel {
                message: "expression can result in runtime error"@,
                primary: true,
                span,
            },
            LabelModel {
                message: "handle the error case to ensure runtime success"@,
                primary: false,
                span,
            },
        ],
        ErrorModel::Missing { span, feature } => seq![
            LabelModel {
                message: "expression type is disabled in this version of vrl"@,
                primary: true,
                span,
            },
            LabelModel {
                message: "build vrl using the `"@ + feature + "` feature to enable it"@,
                primary: false,
                span,
            },
        ],
    }
}

/// Notes of a compile-time error.
pub open spec fn error_notes(e: ErrorModel) -> Seq<NoteModel> {
    match e {
        ErrorModel::Fallible { .. } => seq![NoteModel::SeeErrorDocs],
        ErrorModel::Missing { .. } => Seq::empty(),
    }
}

impl Error {
    /// The numeric documentation code: 100 for `Fallible`, 900 for `Missing`.
    pub fn code(&self) -> (c: usize)
        ensures
            c == error_code(self@),
    {
        match self {
            Error::Fallible { .. } => 100,
            Error::Missing { .. } => 900,
        }
    }

    /// The human-readable message.
    pub fn message(&self) -> (m: String)
        ensures
            m@ == error_message(self@),
    {
        match self {
            Error::Fallible { .. } => "unhandled error".to_owned(),
            Error::Missing { .. } => "expression type unavailable".to_owned(),
        }
    }

    /// The ordered labels: exactly [`error_labels`] of this error.
    pub fn labels(&self) -> (ls: Vec<Label>)
        ensures
            ls.deep_view() =~= error_labels(self@),
    {
        match self {
            Error::Fallible { span } => {
                let mut ls: Vec<Label> = Vec::new();
                ls.push(Label::primary("expression can result in runtime error", *span));
                ls.push(
                    Label::context("handle the error case to ensure runtime success", *span),
                );
                ls
            },
            Error::Missing { span, feature } => {
                let remedy = ("build vrl using the `".to_owned()).concat(
                    feature.as_str(),
                ).concat("` feature to enable it");
                let mut ls: Vec<Label> = Vec::new();
                ls.push(
                    Label::primary("expression type is disabled in this version of vrl", *span),
                );
                ls.push(Label::context_owned(remedy, *span));
                ls
            },
        }
    }

    /// The ordered notes: a pointer to the error docs for `Fallible`, none
    /// for `Missing`.
    pub fn notes(&self) -> (ns: Vec<Note>)
        ensures
            ns.deep_view() =~= error_notes(self@),
    {
        match self {
            Error::Fallible { .. } => {
                let mut ns: Vec<Note> = Vec::new();
                ns.push(Note::SeeErrorDocs);
                ns
            },
            Error::Missing { .. } => Vec::new(),
        }
    }
}

/// Mathematical model of a runtime [`ExpressionError`].
pub enum ExpressionErrorModel {
    Abort { span: Span },
    Error { message: Seq<char>, labels: Seq<LabelModel>, notes: Seq<NoteModel> },
}

/// A runtime evaluation error.
///
/// The verified copy is [`ExpressionError::duplicate`], whose contract
/// states that the copy has the same model; the derived `Clone` carries no
/// such fact.
#[derive(Clone, Debug, PartialEq, Eq)]
pub enum ExpressionError {
    /// The program explicitly requested termination. Short-circuits the whole
    /// resolution: no ordinary error handling may intercept it.
    Abort { span: Span },
    /// Any node-specific runtime failure, fully described by its diagnostics.
    Error { message: String, labels: Vec<Label>, notes: Vec<Note> },
}

impl View for ExpressionError {
    type V = ExpressionErrorModel;

    open spec fn view(&self) -> ExpressionErrorModel {
        match self {
            ExpressionError::Abort { span } => ExpressionErrorModel::Abort { span: *span },
            ExpressionError::Error { message, labels, notes } => ExpressionErrorModel::Error {
                message: message@,
                labels: labels.deep_view(),
                notes: notes.deep_view(),
            },
        }
    }
}

/// Message of a runtime error.
pub open spec fn expression_error_message(e: ExpressionErrorModel) -> Seq<char> {
    match e {
        ExpressionErrorModel::Abort { .. } => "aborted"@,
        ExpressionErrorModel::Error { message, .. } => message,
    }
}

/// Labels of a runtime error.
pub open spec fn expression_error_labels(e: ExpressionErrorModel) -> Seq<LabelModel> {
    match e {
        ExpressionErrorModel::Abort { span } => seq![
            LabelModel { message: "aborted"@, primary: true, span },
        ],
        ExpressionErrorModel::Error { labels, .. } => labels,
    }
}

/// Notes of a runtime error.
pub open spec fn expression_error_notes(e: ExpressionErrorModel) -> Seq<NoteModel> {
    match e {
        ExpressionErrorModel::Abort { .. } => Seq::empty(),
        ExpressionErrorModel::Error { notes, .. } => notes,
    }
}

/// The model of a plain-message runtime error: no labels, no notes.
pub open spec fn plain_error(message: Seq<char>) -> ExpressionErrorModel {
    ExpressionErrorModel::Error { message, labels: Seq::empty(), notes: Seq::empty() }
}

fn copy_labels(labels: &Vec<Label>) -> (r: Vec<Label>)
    ensures
        r.deep_view() =~= labels.deep_view(),
{
    let mut r: Vec<Label> = Vec::new();
    let mut i: usize = 0;
    while i < labels.len()
        invariant
            i <= labels@.len(),
            r@.len() == i,
            forall|j: int| 0 <= j < i ==> r@[j]@ == labels@[j]@,
        decreases labels@.len() - i,
    {
        r.push(labels[i].duplicate());
        i = i + 1;
    }
    r
}

fn copy_notes(notes: &Vec<Note>) -> (r: Vec<Note>)
    ensures
        r.deep_view() =~= notes.deep_view(),
{
    let mut r: Vec<Note> = Vec::new();
    let mut i: usize = 0;
    while i < notes.len()
        invariant
            i <= notes@.len(),
            r@.len() == i,
            forall|j: int| 0 <= j < i ==> r@[j]@ == notes@[j]@,
        decreases notes@.len() - i,
    {
        r.push(notes[i].duplicate());
        i = i + 1;
    }
    r
}

impl ExpressionError {
    /// The numeric code: runtime errors are deliberately undifferentiated.
    pub fn code(&self) -> (c: usize)
        ensures
            c == 0,
    {
        0
    }

    /// The human-readable message: "aborted" for `Abort`, the carried message
    /// otherwise.
    pub fn message(&self) -> (m: String)
        ensures
            m@ == expression_error_message(self@),
    {
        match self {
            ExpressionError::Abort { .. } => "aborted".to_owned(),
            ExpressionError::Error { message, .. } => message.clone(),
        }
    }

    /// The ordered labels: exactly [`expression_error_labels`] of this error.
    pub fn labels(&self) -> (ls: Vec<Label>)
        ensures
            ls.deep_view() =~= expression_error_labels(self@),
    {
        match self {
            ExpressionError::Abort { span } => {
                let mut ls: Vec<Label> = Vec::new();
                ls.push(Label::primary("aborted", *span));
                ls
            },
            ExpressionError::Error { labels, .. } => copy_labels(labels),
        }
    }

    /// The ordered notes: exactly [`expression_error_notes`] of this error.
    pub fn notes(&self) -> (ns: Vec<Note>)
        ensures
            ns.deep_view() =~= expression_error_notes(self@),
    {
        match self {
            ExpressionError::Abort { .. } => Vec::new(),
            ExpressionError::Error { notes, .. } => copy_notes(notes),
        }
    }

    /// The minimal-effort failure path: a plain message becomes a generic
    /// error with no labels and no notes.
    pub fn from_message(message: String) -> (r: ExpressionError)
        ensures
            r@ == plain_error(message@),
    {
        let labels: Vec<Label> = Vec::new();
        let notes: Vec<Note> = Vec::new();
        proof {
            assert(labels.deep_view() =~= Seq::<LabelModel>::empty());
            assert(notes.deep_view() =~= Seq::<NoteModel>::empty());
        }
        ExpressionError::Error { message, labels, notes }
    }

    /// As [`ExpressionError::from_message`], from borrowed text.
    pub fn from_text(message: &str) -> (r: ExpressionError)
        ensures
            r@ == plain_error(message@),
    {
        ExpressionError::from_message(message.to_owned())
    }

    /// Copy with a proved model equality.
    pub fn duplicate(&self) -> (r: ExpressionError)
        ensures
            r@ == self@,
    {
        match self {
            ExpressionError::Abort { span } => ExpressionError::Abort { span: *span },
            ExpressionError::Error { message, labels, notes } => ExpressionError::Error {
                message: message.clone(),
                labels: copy_labels(labels),
                notes: copy_notes(notes),
            },
        }
    }
}

} // verus!

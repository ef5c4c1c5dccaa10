//! Diagnostic artifacts: labeled source annotations and explanatory notes.
//!
//! A label pairs a message with a source span and a severity role (primary or
//! context); a note is a short auxiliary hint. Errors own their labels and
//! notes; the renderer that turns them into user-facing output lives outside
//! this crate.

use crate::span::Span;
use vstd::prelude::*;
use vstd::string::StringExecFns;

verus! {

/// Mathematical model of a [`Label`]: its message as a character sequence,
/// its severity role, and the span it annotates.
pub struct LabelModel {
    pub message: Seq<char>,
    pub primary: bool,
    pub span: Span,
}

/// One annotation of an error: a message attached to a source span, either as
/// the primary location of the failure or as supporting context.
#[derive(Clone, Debug, PartialEq, Eq)]
pub struct Label {
    pub message: String,
    pub primary: bool,
    pub span: Span,
}

impl View for Label {
    type V = LabelModel;

    open spec fn view(&self) -> LabelModel {
        LabelModel { message: self.message@, primary: self.primary, span: self.span }
    }
}

impl DeepView for Label {
    type V = LabelModel;

    open spec fn deep_view(&self) -> LabelModel {
        self.view()
    }
}

impl Label {
    /// Builds the primary label of a diagnostic: the exact location at fault.
    pub fn primary(message: &str, span: Span) -> (r: Label)
        ensures
            r@ == (LabelModel { message: message@, primary: true, span }),
    {
        Label { message: message.to_owned(), primary: true, span }
    }

    /// Builds a context label: supporting information or a suggested remedy.
    pub fn context(message: &str, span: Span) -> (r: Label)
        ensures
            r@ == (LabelModel { message: message@, primary: false, span }),
    {
        Label { message: message.to_owned(), primary: false, span }
    }

    /// Builds a context label from an already-assembled message.
    pub fn context_owned(message: String, span: Span) -> (r: Label)
        ensures
            r@ == (LabelModel { message: message@, primary: false, span }),
    {
        Label { message, primary: false, span }
    }

    /// Copy with a proved model equality.
    pub fn duplicate(&self) -> (r: Label)
        ensures
            r@ == self@,
    {
        Label { message: self.message.clone(), primary: self.primary, span: self.span }
    }
}

/// Mathematical model of a [`Note`].
pub enum NoteModel {
    SeeErrorDocs,
    Hint(Seq<char>),
}

/// A short auxiliary hint attached to an error: either the standard pointer
/// to the error-code documentation, or free text.
#[derive(Clone, Debug, PartialEq, Eq)]
pub enum Note {
    SeeErrorDocs,
    Hint(String),
}

impl View for Note {
    type V = NoteModel;

    open spec fn view(&self) -> NoteModel {
        match self {
            Note::SeeErrorDocs => NoteModel::SeeErrorDocs,
            Note::Hint(text) => NoteModel::Hint(text@),
        }
    }
}

impl DeepView for Note {
    type V = NoteModel;

    open spec fn deep_view(&self) -> NoteModel {
        self.view()
    }
}

impl Note {
    /// Copy with a proved model equality.
    pub fn duplicate(&self) -> (r: Note)
        ensures
            r@ == self@,
    {
        match self {
            Note::SeeErrorDocs => Note::SeeErrorDocs,
            Note::Hint(text) => Note::Hint(text.clone()),
        }
    }
}

} // verus!

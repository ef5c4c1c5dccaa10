//! Static type definitions: the compile-time description of an expression's
//! possible output shapes and of whether resolving it can fail.
//!
//! A [`Kind`] is the set of value shapes an expression may produce; a
//! [`TypeDef`] pairs a kind with a fallibility bit. Type derivation computes
//! one per node, bottom-up, and must stay consistent with what `resolve`
//! actually does: that consistency is proved in this crate.

use crate::value::{Value, ValueModel};
use vstd::prelude::*;

verus! {

/// The static kind of one concrete runtime value.
pub open spec fn kind_of(v: ValueModel) -> Kind {
    match v {
        ValueModel::Null => Kind::null_only(),
        ValueModel::Boolean(_) => Kind::boolean_only(),
        ValueModel::Integer(_) => Kind::integer_only(),
        ValueModel::Text(_) => Kind {
            null: false,
            boolean: false,
            integer: false,
            text: true,
            array: false,
            object: false,
        },
        ValueModel::Array(_) => Kind::array_only(),
        ValueModel::Object(_) => Kind::object_only(),
    }
}

impl Value {
    /// The kind of this concrete value: exactly [`kind_of`] its model.
    pub fn kind(&self) -> (k: Kind)
        ensures
            k == kind_of(self.deep_view()),
    {
        match self {
            Value::Null => Kind {
                null: true,
                boolean: false,
                integer: false,
                text: false,
                array: false,
                object: false,
            },
            Value::Boolean(_) => Kind {
                null: false,
                boolean: true,
                integer: false,
                text: false,
                array: false,
                object: false,
            },
            Value::Integer(_) => Kind {
                null: false,
                boolean: false,
                integer: true,
                text: false,
                array: false,
                object: false,
            },
            Value::Text(_) => Kind {
                null: false,
                boolean: false,
                integer: false,
                text: true,
                array: false,
                object: false,
            },
            Value::Array(_) => Kind {
                null: false,
                boolean: false,
                integer: false,
                text: false,
                array: true,
                object: false,
            },
            Value::Object(_) => Kind {
                null: false,
                boolean: false,
                integer: false,
                text: false,
                array: false,
                object: true,
            },
        }
    }
}

/// The set of runtime value shapes an expression may produce: one flag per
/// shape of [`crate::value::Value`].
#[derive(Clone, Copy, Debug, PartialEq, Eq, Structural)]
pub struct Kind {
    pub null: bool,
    pub boolean: bool,
    pub integer: bool,
    pub text: bool,
    pub array: bool,
    pub object: bool,
}

impl Kind {
    /// Whether a runtime value's shape is one of the shapes in this kind.
    pub open spec fn contains(self, v: ValueModel) -> bool {
        match v {
            ValueModel::Null => self.null,
            ValueModel::Boolean(_) => self.boolean,
            ValueModel::Integer(_) => self.integer,
            ValueModel::Text(_) => self.text,
            ValueModel::Array(_) => self.array,
            ValueModel::Object(_) => self.object,
        }
    }

    /// The kind admitting only null.
    pub open spec fn null_only() -> Kind {
        Kind { null: true, boolean: false, integer: false, text: false, array: false, object: false }
    }

    /// The kind admitting only booleans.
    pub open spec fn boolean_only() -> Kind {
        Kind { null: false, boolean: true, integer: false, text: false, array: false, object: false }
    }

    /// The kind admitting only integers.
    pub open spec fn integer_only() -> Kind {
        Kind { null: false, boolean: false, integer: true, text: false, array: false, object: false }
    }

    /// The kind admitting only arrays.
    pub open spec fn array_only() -> Kind {
        Kind { null: false, boolean: false, integer: false, text: false, array: true, object: false }
    }

    /// The kind admitting only objects.
    pub open spec fn object_only() -> Kind {
        Kind { null: false, boolean: false, integer: false, text: false, array: false, object: true }
    }

    /// The kind admitting every shape: all an external collaborator may hand in.
    pub open spec fn any() -> Kind {
        Kind { null: true, boolean: true, integer: true, text: true, array: true, object: true }
    }

    /// Whether every shape in this kind is the boolean shape.
    pub open spec fn subset_of_boolean(self) -> bool {
        !self.null && !self.integer && !self.text && !self.array && !self.object
    }

    /// Whether every shape in this kind is the integer shape.
    pub open spec fn subset_of_integer(self) -> bool {
        !self.null && !self.boolean && !self.text && !self.array && !self.object
    }

    /// Shape-set union of two kinds.
    pub open spec fn union_with(self, other: Kind) -> Kind {
        Kind {
            null: self.null || other.null,
            boolean: self.boolean || other.boolean,
            integer: self.integer || other.integer,
            text: self.text || other.text,
            array: self.array || other.array,
            object: self.object || other.object,
        }
    }

    /// This kind together with null: what a possibly-absent value may hold.
    pub open spec fn or_null(self) -> Kind {
        Kind { null: true, ..self }
    }

    /// Executable shape-set union; returns exactly [`Kind::union_with`].
    pub fn union(&self, other: &Kind) -> (r: Kind)
        ensures
            r == self.union_with(*other),
    {
        Kind {
            null: self.null || other.null,
            boolean: self.boolean || other.boolean,
            integer: self.integer || other.integer,
            text: self.text || other.text,
            array: self.array || other.array,
            object: self.object || other.object,
        }
    }

    /// Executable test for [`Kind::subset_of_boolean`].
    pub fn is_subset_of_boolean(&self) -> (r: bool)
        ensures
            r == self.subset_of_boolean(),
    {
        !self.null && !self.integer && !self.text && !self.array && !self.object
    }

    /// Executable test for [`Kind::subset_of_integer`].
    pub fn is_subset_of_integer(&self) -> (r: bool)
        ensures
            r == self.subset_of_integer(),
    {
        !self.null && !self.boolean && !self.text && !self.array && !self.object
    }
}

/// The static type of one expression: the kind it may produce and whether
/// resolving it can return an ordinary runtime error.
#[derive(Clone, Copy, Debug, PartialEq, Eq, Structural)]
pub struct TypeDef {
    pub fallible: bool,
    pub kind: Kind,
}

impl TypeDef {
    /// Whether resolving the expression may return an ordinary runtime error.
    pub fn is_fallible(&self) -> (r: bool)
        ensures
            r == self.fallible,
    {
        self.fallible
    }
}

} // verus!

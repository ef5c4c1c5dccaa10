//! The runtime execution context: the mutable object `resolve` reads and
//! writes. It holds the external target being transformed and the run's
//! variable bindings. A fresh context is supplied per resolution; this crate
//! never retains one beyond a call.

use crate::value::{Value, ValueModel};
use vstd::prelude::*;

verus! {

/// One runtime variable binding.
#[derive(Debug)]
pub struct VarBinding {
    pub name: String,
    pub value: Value,
}

/// Mathematical model of a [`Context`]: bindings in binding order (latest
/// binding of a name wins) and the target value.
pub struct ContextModel {
    pub variables: Seq<(Seq<char>, ValueModel)>,
    pub target: ValueModel,
}

/// The mutable execution context handed to `resolve`.
#[derive(Debug)]
pub struct Context {
    pub variables: Vec<VarBinding>,
    pub target: Value,
}

impl View for Context {
    type V = ContextModel;

    open spec fn view(&self) -> ContextModel {
        ContextModel {
            variables: Seq::new(
                self.variables@.len(),
                |i: int| (self.variables@[i].name@, self.variables@[i].value.deep_view()),
            ),
            target: self.target.deep_view(),
        }
    }
}

/// The value bound to `name`, where the latest binding of a name wins.
pub open spec fn lookup_variable(
    variables: Seq<(Seq<char>, ValueModel)>,
    name: Seq<char>,
) -> Option<ValueModel>
    decreases variables.len(),
{
    if variables.len() == 0 {
        None
    } else if variables.last().0 == name {
        Some(variables.last().1)
    } else {
        lookup_variable(variables.drop_last(), name)
    }
}

impl Context {
    /// A fresh context around a target value, with no variables bound.
    pub fn new(target: Value) -> (r: Context)
        ensures
            r@.variables =~= Seq::<(Seq<char>, ValueModel)>::empty(),
            r@.target == target.deep_view(),
    {
        Context { variables: Vec::new(), target }
    }

    /// Reads a variable; the latest binding of the name wins.
    pub fn variable(&self, name: &String) -> (r: Option<Value>)
        ensures
            match lookup_variable(self@.variables, name@) {
                Some(v) => r matches Some(x) && x.deep_view() == v,
                None => r is None,
            },
    {
        let mut i: usize = self.variables.len();
        proof {
            assert(self@.variables.take(i as int) =~= self@.variables);
        }
        while i > 0
            invariant
                i <= self.variables@.len(),
                lookup_variable(self@.variables, name@) == lookup_variable(
                    self@.variables.take(i as int),
                    name@,
                ),
            decreases i,
        {
            i = i - 1;
            let candidate: &String = &self.variables[i].name;
            proof {
                assert(self@.variables.take(i + 1).last() == self@.variables[i as int]);
                assert(self@.variables.take(i + 1).drop_last() =~= self@.variables.take(
                    i as int,
                ));
                assert(self@.variables[i as int].0 == self.variables@[i as int].name@);
            }
            if candidate.eq(name) {
                return Some(self.variables[i].value.duplicate());
            }
        }
        proof {
            assert(self@.variables.take(0) =~= Seq::<(Seq<char>, ValueModel)>::empty());
        }
        None
    }

    /// Binds a variable for the rest of the run; the target is untouched.
    pub fn set_variable(&mut self, name: &String, value: Value)
        ensures
            final(self)@.variables =~= old(self)@.variables.push((name@, value.deep_view())),
            final(self)@.target == old(self)@.target,
    {
        self.variables.push(VarBinding { name: name.clone(), value });
    }

    /// The target value under transformation.
    pub fn target(&self) -> (r: &Value)
        ensures
            r.deep_view() == self@.target,
    {
        &self.target
    }
}

} // verus!

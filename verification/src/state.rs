//! The static state threaded through the compile-time pass: the bookkeeping
//! a node may read and extend before its siblings and descendants are
//! checked. This crate models it as the list of variable names bound so far,
//! in binding order; the full scope tracker is an external collaborator.

use vstd::prelude::*;

verus! {

/// Compile-time state: the variable names bound so far, oldest first.
#[derive(Debug)]
pub struct State {
    pub variables: Vec<String>,
}

impl View for State {
    type V = Seq<Seq<char>>;

    open spec fn view(&self) -> Seq<Seq<char>> {
        Seq::new(self.variables@.len(), |i: int| self.variables@[i]@)
    }
}

impl State {
    /// The empty state: no variable bound yet.
    pub fn new() -> (r: State)
        ensures
            r@ =~= Seq::<Seq<char>>::empty(),
    {
        State { variables: Vec::new() }
    }

    /// Whether `name` is already bound.
    pub fn is_bound(&self, name: &String) -> (r: bool)
        ensures
            r == self@.contains(name@),
    {
        let mut i: usize = 0;
        while i < self.variables.len()
            invariant
                i <= self.variables@.len(),
                forall|j: int| 0 <= j < i ==> self@[j] != name@,
            decreases self.variables@.len() - i,
        {
            let candidate: &String = &self.variables[i];
            if candidate.eq(name) {
                proof {
                    assert(self@[i as int] == name@);
                }
                return true;
            }
            i = i + 1;
        }
        proof {
            assert(forall|j: int| 0 <= j < self@.len() ==> self@[j] != name@);
        }
        false
    }

    /// Binds `name`, extending the state.
    pub fn bind(&mut self, name: &String)
        ensures
            final(self)@ =~= old(self)@.push(name@),
    {
        self.variables.push(name.clone());
    }
}

} // verus!

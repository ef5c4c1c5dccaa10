//! A minimal runtime value representation: the shapes an expression can
//! produce, together with the static kind lattice over those shapes.
//!
//! The full value model of the host system (coercions, timestamps, regexes)
//! is an external collaborator; this crate fixes the closed set of shapes the
//! core passes need so that type derivation and resolution can be stated and
//! proved against one another.

use vstd::prelude::*;

verus! {

/// Mathematical model of a [`Value`]: the same tree over `Seq` payloads.
pub enum ValueModel {
    Null,
    Boolean(bool),
    Integer(i64),
    Text(Seq<char>),
    Array(Seq<ValueModel>),
    Object(Seq<(Seq<char>, ValueModel)>),
}

/// One key/value pair of an object value.
#[derive(Debug, PartialEq)]
pub struct FieldValue {
    pub key: String,
    pub value: Value,
}

/// A runtime value: what `resolve` produces. Owned by the caller on return.
///
/// Copying is the verified [`Value::duplicate`], whose contract states that
/// the copy has the same model; a derived `Clone` would carry no such fact.
#[derive(Debug, PartialEq)]
pub enum Value {
    Null,
    Boolean(bool),
    Integer(i64),
    Text(String),
    Array(Vec<Value>),
    Object(Vec<FieldValue>),
}

/// Models a sequence of element values, elementwise.
pub open spec fn elements_model(s: Seq<Value>) -> Seq<ValueModel>
    decreases s,
{
    if s.len() == 0 {
        Seq::empty()
    } else {
        elements_model(s.drop_last()).push(s.last().deep_view())
    }
}

/// Models a sequence of object fields, elementwise.
pub open spec fn fields_model(s: Seq<FieldValue>) -> Seq<(Seq<char>, ValueModel)>
    decreases s,
{
    if s.len() == 0 {
        Seq::empty()
    } else {
        fields_model(s.drop_last()).push((s.last().key@, s.last().value.deep_view()))
    }
}

impl DeepView for Value {
    type V = ValueModel;

    open spec fn deep_view(&self) -> ValueModel
        decreases self,
    {
        match self {
            Value::Null => ValueModel::Null,
            Value::Boolean(b) => ValueModel::Boolean(*b),
            Value::Integer(i) => ValueModel::Integer(*i),
            Value::Text(s) => ValueModel::Text(s@),
            Value::Array(elements) => ValueModel::Array(elements_model(elements@)),
            Value::Object(fields) => ValueModel::Object(fields_model(fields@)),
        }
    }
}

/// The elementwise reading of [`elements_model`].
pub proof fn lemma_elements_model(s: Seq<Value>)
    ensures
        elements_model(s).len() == s.len(),
        forall|i: int| 0 <= i < s.len() ==> elements_model(s)[i] == s[i].deep_view(),
    decreases s.len(),
{
    if s.len() == 0 {
        assert(elements_model(s) == Seq::<ValueModel>::empty());
    } else {
        lemma_elements_model(s.drop_last());
        assert(elements_model(s) == elements_model(s.drop_last()).push(s.last().deep_view()));
        assert(elements_model(s).len() == s.len());
    }
}

/// The elementwise reading of [`fields_model`].
pub proof fn lemma_fields_model(s: Seq<FieldValue>)
    ensures
        fields_model(s).len() == s.len(),
        forall|i: int|
            0 <= i < s.len() ==> fields_model(s)[i] == (s[i].key@, s[i].value.deep_view()),
    decreases s.len(),
{
    if s.len() == 0 {
        assert(fields_model(s) == Seq::<(Seq<char>, ValueModel)>::empty());
    } else {
        lemma_fields_model(s.drop_last());
        assert(fields_model(s) == fields_model(s.drop_last()).push(
            (s.last().key@, s.last().value.deep_view()),
        ));
        assert(fields_model(s).len() == s.len());
    }
}

impl Value {
    /// Deep copy with a proved model equality: the copy denotes the same value.
    #[verifier::loop_isolation(false)]
    pub fn duplicate(&self) -> (r: Value)
        ensures
            r.deep_view() == self.deep_view(),
        decreases self,
    {
        match self {
            Value::Null => Value::Null,
            Value::Boolean(b) => Value::Boolean(*b),
            Value::Integer(i) => Value::Integer(*i),
            Value::Text(s) => Value::Text(s.clone()),
            Value::Array(elements) => {
                let mut out: Vec<Value> = Vec::new();
                let mut i: usize = 0;
                while i < elements.len()
                    invariant
                        i <= elements@.len(),
                        out@.len() == i,
                        forall|j: int|
                            0 <= j < i ==> out@[j].deep_view() == elements@[j].deep_view(),
                    decreases elements@.len() - i,
                {
                    proof {
                        assert(*elements == self->Array_0);
                        assert(decreases_to!(*self => self->Array_0));
                        assert(decreases_to!(*elements => elements@));
                        assert(decreases_to!(elements@ => elements@[i as int]));
                        assert(decreases_to!(*self => elements@[i as int]));
                    }
                    out.push(elements[i].duplicate());
                    i = i + 1;
                }
                proof {
                    lemma_elements_model(out@);
                    lemma_elements_model(elements@);
                    assert(elements_model(out@) =~= elements_model(elements@));
                }
                Value::Array(out)
            },
            Value::Object(fields) => {
                let mut out: Vec<FieldValue> = Vec::new();
                let mut i: usize = 0;
                while i < fields.len()
                    invariant
                        i <= fields@.len(),
                        out@.len() == i,
                        forall|j: int|
                            0 <= j < i ==> (#[trigger] out@[j]).key@ == fields@[j].key@
                                && out@[j].value.deep_view() == fields@[j].value.deep_view(),
                    decreases fields@.len() - i,
                {
                    proof {
                        assert(*fields == self->Object_0);
                        assert(decreases_to!(*self => self->Object_0));
                        assert(decreases_to!(*fields => fields@));
                        assert(decreases_to!(fields@ => fields@[i as int]));
                        assert(decreases_to!(fields@[i as int] => fields@[i as int].value));
                        assert(decreases_to!(*self => fields@[i as int].value));
                    }
                    let entry = FieldValue {
                        key: fields[i].key.clone(),
                        value: fields[i].value.duplicate(),
                    };
                    out.push(entry);
                    i = i + 1;
                }
                proof {
                    lemma_fields_model(out@);
                    lemma_fields_model(fields@);
                    assert(fields_model(out@) =~= fields_model(fields@));
                }
                Value::Object(out)
            },
        }
    }
}

} // verus!

//! The runtime behaviour of an emitted companion type, written out and
//! verified on a representative record with an `i32` field and a `String`
//! field. Every companion the generator emits has this shape, one entry
//! per field: storage that tracks presence, a value accessor that falls
//! back to the type's default, a presence-checked accessor, a setter, and
//! the three construction paths.

use vstd::prelude::*;

verus! {

/// The abstract state of the companion: per field, the stored value if the
/// field is present.
pub struct CompanionState {
    pub field1: Option<i32>,
    pub field2: Option<Seq<char>>,
}

/// The state after `new(v1, v2)`: every field present with its value.
pub open spec fn state_of_new(v1: i32, v2: Seq<char>) -> CompanionState {
    CompanionState { field1: Some(v1), field2: Some(v2) }
}

/// The state after `new_default()`: every field present with its type's
/// default value.
pub open spec fn state_of_new_default() -> CompanionState {
    CompanionState { field1: Some(0i32), field2: Some(Seq::<char>::empty()) }
}

/// The state after `default()`: every field absent.
pub open spec fn state_of_default() -> CompanionState {
    CompanionState { field1: None, field2: None }
}

/// The state after `set_field1(v)`: that field present with `v`, the rest
/// untouched.
pub open spec fn state_set_field1(s: CompanionState, v: i32) -> CompanionState {
    CompanionState { field1: Some(v), ..s }
}

/// The state after `set_field2(v)`: that field present with `v`, the rest
/// untouched.
pub open spec fn state_set_field2(s: CompanionState, v: Seq<char>) -> CompanionState {
    CompanionState { field2: Some(v), ..s }
}

/// What the value accessor for the first field returns: the stored value,
/// or the type's default when the field is absent.
pub open spec fn value_field1(s: CompanionState) -> i32 {
    match s.field1 {
        Some(v) => v,
        None => 0i32,
    }
}

/// What the value accessor for the second field returns: the stored value,
/// or the type's default when the field is absent.
pub open spec fn value_field2(s: CompanionState) -> Seq<char> {
    match s.field2 {
        Some(v) => v,
        None => Seq::<char>::empty(),
    }
}

/// The companion of a record `TestStruct { field1: i32, field2: String }`,
/// exactly as the generator's output declares it.
pub struct NullableTestStruct {
    field1: Option<i32>,
    field2: Option<String>,
}

impl NullableTestStruct {
    /// The abstract state this value is in.
    pub closed spec fn state(self) -> CompanionState {
        CompanionState {
            field1: self.field1,
            field2: match self.field2 {
                Some(s) => Some(s@),
                None => None,
            },
        }
    }

    /// One positional argument per field, in declaration order; every
    /// field comes out present with its argument.
    pub fn new(field1: i32, field2: String) -> (r: Self)
        ensures
            r.state() == state_of_new(field1, field2@),
    {
        Self { field1: Some(field1), field2: Some(field2) }
    }

    /// Every field comes out present with its type's default value.
    pub fn new_default() -> (r: Self)
        ensures
            r.state() == state_of_new_default(),
    {
        Self { field1: Some(i32::default()), field2: Some(String::default()) }
    }

    /// The stored value of the first field, or `i32`'s default when absent.
    pub fn field1(&self) -> (r: i32)
        ensures
            r == value_field1(self.state()),
    {
        match self.field1 {
            Some(v) => v,
            None => i32::default(),
        }
    }

    /// The stored value of the second field, or `String`'s default when
    /// absent.
    pub fn field2(&self) -> (r: String)
        ensures
            r@ == value_field2(self.state()),
    {
        match &self.field2 {
            Some(s) => s.clone(),
            None => String::default(),
        }
    }

    /// A view of the first field's presence: the stored value by reference,
    /// or absence.
    pub fn get_field1(&self) -> (r: Option<&i32>)
        ensures
            match r {
                Some(v) => self.state().field1 == Some(*v),
                None => self.state().field1 is None,
            },
    {
        match &self.field1 {
            Some(v) => Some(v),
            None => None,
        }
    }

    /// A view of the second field's presence: the stored value by
    /// reference, or absence.
    pub fn get_field2(&self) -> (r: Option<&String>)
        ensures
            match r {
                Some(s) => self.state().field2 == Some(s@),
                None => self.state().field2 is None,
            },
    {
        match &self.field2 {
            Some(s) => Some(s),
            None => None,
        }
    }

    /// Marks the first field present with `value`; the other field keeps
    /// its state.
    pub fn set_field1(&mut self, value: i32)
        ensures
            final(self).state() == state_set_field1(old(self).state(), value),
    {
        self.field1 = Some(value);
    }

    /// Marks the second field present with `value`; the other field keeps
    /// its state.
    pub fn set_field2(&mut self, value: String)
        ensures
            final(self).state() == state_set_field2(old(self).state(), value@),
    {
        self.field2 = Some(value);
    }
}

impl Default for NullableTestStruct {
    /// The zero-knowledge construction path: every field absent.
    fn default() -> (r: Self)
        ensures
            r.state() == state_of_default(),
    {
        Self { field1: None, field2: None }
    }
}

/// Construction with given values, then each value accessor: it yields the
/// value that was supplied for its field.
pub proof fn lemma_new_then_values(v1: i32, v2: Seq<char>)
    ensures
        value_field1(state_of_new(v1, v2)) == v1,
        value_field2(state_of_new(v1, v2)) == v2,
{
}

/// The all-absent default: every presence-checked accessor reports
/// absence, and every value accessor falls back to its type's default.
pub proof fn lemma_default_absent()
    ensures
        state_of_default().field1 is None,
        state_of_default().field2 is None,
        value_field1(state_of_default()) == 0i32,
        value_field2(state_of_default()) == Seq::<char>::empty(),
{
}

/// Setting a field, then reading it: the presence-checked accessor reports
/// it present with that value, the value accessor yields that value, and
/// the other field keeps its state.
pub proof fn lemma_set_then_get(s: CompanionState, v1: i32, v2: Seq<char>)
    ensures
        state_set_field1(s, v1).field1 == Some(v1),
        value_field1(state_set_field1(s, v1)) == v1,
        state_set_field1(s, v1).field2 == s.field2,
        state_set_field2(s, v2).field2 == Some(v2),
        value_field2(state_set_field2(s, v2)) == v2,
        state_set_field2(s, v2).field1 == s.field1,
{
}

/// Default-valued construction, then each value accessor: it yields the
/// field type's default value.
pub proof fn lemma_new_default_values()
    ensures
        value_field1(state_of_new_default()) == 0i32,
        value_field2(state_of_new_default()) == Seq::<char>::empty(),
{
}

} // verus!

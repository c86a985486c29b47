//! Named variables, as host bindings hand them over: a variable starts as a
//! bare name and becomes usable once it is associated with an index into the
//! variable vector.

use vstd::prelude::*;

verus! {

/// A variable a user has named but that has not yet been given an index, so
/// it cannot yet be used to evaluate or compile anything.
#[derive(Debug, Clone, PartialEq)]
pub struct UninitializedVariable {
    /// The name of the variable.
    pub name: String,
}

impl UninitializedVariable {
    /// Create a new uninitialized variable.
    pub fn new(name: String) -> (r: UninitializedVariable)
        ensures
            r.name == name,
    {
        UninitializedVariable { name }
    }

    /// Get the name of the variable.
    pub fn name(&self) -> (r: &str)
        ensures
            r@ == self.name@,
    {
        self.name.as_str()
    }
}

/// A variable that is ready to use: it carries the index that looks its
/// value up in the variable vector, and the same index names its parameter
/// in a compiled function's signature.
#[derive(Debug, Clone, PartialEq)]
pub struct InitializedVariable {
    /// The underlying uninitialized variable.
    pub inner_variable: UninitializedVariable,
    /// The variable's index.
    pub index: usize,
}

impl InitializedVariable {
    /// Create a new initialized variable.
    pub fn new(inner_variable: UninitializedVariable, index: usize) -> (r: InitializedVariable)
        ensures
            r.inner_variable == inner_variable,
            r.index == index,
    {
        InitializedVariable { inner_variable, index }
    }

    /// Get the inner variable.
    pub fn inner(&self) -> (r: &UninitializedVariable)
        ensures
            r == self.inner_variable,
    {
        &self.inner_variable
    }

    /// Get the index of the variable.
    pub fn index(&self) -> (r: usize)
        ensures
            r == self.index,
    {
        self.index
    }
}

/// True when `j` is the position of the first entry of `names` whose
/// characters are exactly `name`.
pub open spec fn first_index_of(names: Seq<String>, name: Seq<char>, j: int) -> bool {
    &&& 0 <= j < names.len()
    &&& names[j]@ == name
    &&& forall|k: int| 0 <= k < j ==> names[k]@ != name
}

/// A variable with a name and, once it has been initialized, the index that
/// looks its value up in the variable vector.
#[derive(Debug, Clone, PartialEq)]
pub struct Variable {
    /// The name of the variable.
    pub name: String,
    /// The index of the variable in a compiled function's parameter list,
    /// once it has been assigned one.
    pub index: Option<usize>,
}

/// The position of the first entry of `names` equal to `name`, if any.
fn position_of(names: &Vec<String>, name: &String) -> (r: Option<usize>)
    ensures
        (r matches Some(j) ==> first_index_of(names@, name@, j as int)),
        (r is None ==> forall|j: int| 0 <= j < names@.len() ==> names@[j]@ != name@),
{
    let count = names.len();
    for k in 0..count
        invariant
            count == names@.len(),
            forall|j: int| 0 <= j < k ==> names@[j]@ != name@,
    {
        if names[k] == *name {
            return Some(k);
        }
    }
    None
}

impl Variable {
    /// Create a new uninitialized variable.
    pub fn new(name: String) -> (r: Variable)
        ensures
            r.name == name,
            r.index is None,
    {
        Variable { name, index: None }
    }

    /// Get the name of the variable.
    pub fn name(&self) -> (r: &str)
        ensures
            r@ == self.name@,
    {
        self.name.as_str()
    }

    /// Give the variable an index against a list of the variable names seen
    /// so far. A name already in the list gets that entry's position; a new
    /// name is appended and gets the next free position. Either way the
    /// returned variable keeps its name and is initialized.
    pub fn initialize(self, existing_variables: &mut Vec<String>) -> (r: Variable)
        ensures
            r.name@ == self.name@,
            r.index is Some,
            forall|j: int|
                first_index_of(old(existing_variables)@, self.name@, j) ==> (r.index == Some(
                    j as usize,
                ) && final(existing_variables)@ == old(existing_variables)@),
            (forall|j: int|
                0 <= j < old(existing_variables)@.len() ==> old(existing_variables)@[j]@
                    != self.name@) ==> (r.index == Some(old(existing_variables)@.len() as usize)
                && final(existing_variables)@ == old(existing_variables)@.push(self.name)),
    {
        let index: usize = match position_of(existing_variables, &self.name) {
            Some(found) => found,
            None => {
                let next = existing_variables.len();
                existing_variables.push(self.name.clone());
                next
            },
        };
        Variable { name: self.name, index: Some(index) }
    }

    /// Returns true if the variable has been initialized.
    pub fn is_initialized(&self) -> (b: bool)
        ensures
            b == (self.index is Some),
    {
        self.index.is_some()
    }
}

} // verus!

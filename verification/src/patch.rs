//! Patches: named, ordered subsets of a model's fields.
//!
//! A patch chooses the column set of partial inserts, updates and selects,
//! and fixes the order in which values are supplied and rows are decoded.
//! Each patch column carries a stable index into the model's full field
//! list, resolved once against the registry.

use vstd::prelude::*;

use crate::registry::{find_field, lemma_find_field_spec, Registry, UnknownField};
use crate::text::str_eq;

verus! {

/// An ordered subset of a model's fields.
///
/// The column order is fixed when the patch is built and matches the order
/// values are supplied and decoded.
pub struct Patch {
    /// The model the patch projects.
    pub model: String,
    /// The chosen fields' column names, in patch order.
    pub columns: Vec<String>,
    /// For each chosen column, its position in the model's field list.
    pub indexes: Vec<usize>,
}

impl Patch {
    /// Each column has its index.
    pub open spec fn wf(&self) -> bool {
        self.columns@.len() == self.indexes@.len()
    }

    /// Build a patch of `model` from the given column names, resolving each
    /// against the registry.  Fails on the first name that is not a field
    /// of the model.
    pub fn new(registry: &Registry, model: String, columns: Vec<String>) -> (r: Result<
        Patch,
        UnknownField,
    >)
        ensures
            r is Ok <==> (forall|i: int|
                0 <= i < columns@.len() ==> crate::registry::spec_resolve(
                    registry@,
                    model@,
                    #[trigger] columns@[i]@,
                ) is Some),
            r matches Ok(p) ==> {
                &&& p.wf()
                &&& p.model == model
                &&& p.columns == columns
                &&& p.indexes@.len() == columns@.len()
                &&& forall|i: int|
                    0 <= i < columns@.len() ==> {
                        let m = crate::registry::find_model(registry@, model@);
                        m matches Some(mi) && find_field(
                            registry@[mi].fields@,
                            columns@[i]@,
                        ) == Some(#[trigger] p.indexes@[i] as int)
                    }
            },
    {
        let mut indexes: Vec<usize> = Vec::new();
        let mut i: usize = 0;
        while i < columns.len()
            invariant
                i <= columns@.len(),
                indexes@.len() == i,
                forall|k: int|
                    0 <= k < i ==> crate::registry::spec_resolve(
                        registry@,
                        model@,
                        #[trigger] columns@[k]@,
                    ) is Some,
                forall|k: int|
                    0 <= k < i ==> {
                        let m = crate::registry::find_model(registry@, model@);
                        m matches Some(mi) && find_field(
                            registry@[mi].fields@,
                            columns@[k]@,
                        ) == Some(#[trigger] indexes@[k] as int)
                    },
            decreases columns@.len() - i,
        {
            match registry.field_index(model.as_str(), columns[i].as_str()) {
                Some(idx) => indexes.push(idx),
                None => {
                    return Err(UnknownField);
                },
            }
            i = i + 1;
        }
        Ok(Patch { model, columns, indexes })
    }

    /// How many columns the patch projects.
    pub fn len(&self) -> (r: usize)
        ensures
            r == self.columns@.len(),
    {
        self.columns.len()
    }

    /// Whether the patch contains the model field at the given position —
    /// whether, for example, it carries the model's primary key.
    pub fn contains_index(&self, field: usize) -> (r: bool)
        ensures
            r == self.indexes@.contains(field),
    {
        let mut i: usize = 0;
        while i < self.indexes.len()
            invariant
                i <= self.indexes@.len(),
                forall|k: int| 0 <= k < i ==> #[trigger] self.indexes@[k] != field,
            decreases self.indexes@.len() - i,
        {
            if self.indexes[i] == field {
                return true;
            }
            i = i + 1;
        }
        proof {
            assert(!self.indexes@.contains(field));
        }
        false
    }

    /// Whether the patch contains a column of the given name.
    pub fn contains_column(&self, name: &str) -> (r: bool)
        ensures
            r == (exists|i: int| 0 <= i < self.columns@.len() && #[trigger] self.columns@[i]@ == name@),
    {
        let mut i: usize = 0;
        while i < self.columns.len()
            invariant
                i <= self.columns@.len(),
                forall|k: int| 0 <= k < i ==> #[trigger] self.columns@[k]@ != name@,
            decreases self.columns@.len() - i,
        {
            if str_eq(self.columns[i].as_str(), name) {
                return true;
            }
            i = i + 1;
        }
        false
    }
}

} // verus!

//! The field metadata registry.
//!
//! Every model is registered exactly once, before any query against it.
//! Registration validates the model as a whole — unique names, exactly one
//! primary key, consistent annotations — and merges the annotations implied
//! by a field's kind into its explicit ones.  After registration the
//! registry is read-only; [`Registry::resolve`] is the single choke point
//! that guarantees every later column reference is valid.

use vstd::prelude::*;

use crate::annotations::{AnnotationError, Annotations, ForeignKeyAnnotation};
use crate::text::{check_ident, ident_ok, str_eq};
use crate::value::DbType;

verus! {

/// Location in the source code a model or field originates from, kept for
/// better error messages in the migration tool.
pub struct Source {
    /// File name of the defining source code.
    pub file: String,
    /// Line of the definition.
    pub line: usize,
    /// Column of the definition.
    pub column: usize,
}

/// The kind of a field, which fixes how many table columns it occupies.
pub enum FieldKind {
    /// A plain single-column field.
    Scalar,
    /// A single-column field storing another model's key.
    ForeignKey {
        /// The referenced table.
        table_name: String,
        /// The referenced column, the target model's key.
        column_name: String,
    },
    /// The inverse view of a foreign key on another model; occupies no
    /// column of its own table.
    BackRef,
    /// A composite field spread over several columns.
    Composite(u16),
}

/// How many table columns a field of this kind occupies.
pub open spec fn spec_kind_columns(k: FieldKind) -> int {
    match k {
        FieldKind::Scalar => 1,
        FieldKind::ForeignKey { .. } => 1,
        FieldKind::BackRef => 0,
        FieldKind::Composite(n) => n as int,
    }
}

/// A per-field static descriptor.
pub struct FieldMeta {
    /// The field's name, unique within its model.
    pub name: String,
    /// The database type of the field's column(s).
    pub db_type: DbType,
    /// The field's kind.
    pub kind: FieldKind,
    /// The field's annotations.
    pub annotations: Annotations,
    /// Where the field was defined, if known.
    pub source: Option<Source>,
}

impl FieldMeta {
    /// How many table columns this field occupies.
    pub fn column_count(&self) -> (r: usize)
        ensures
            r == spec_kind_columns(self.kind),
    {
        match &self.kind {
            FieldKind::Scalar => 1,
            FieldKind::ForeignKey { .. } => 1,
            FieldKind::BackRef => 0,
            FieldKind::Composite(n) => *n as usize,
        }
    }
}

/// A model: a named table owning an ordered list of fields.
pub struct ModelDescriptor {
    /// The table name, unique across the registry.
    pub name: String,
    /// The model's fields, in declaration order.
    pub fields: Vec<FieldMeta>,
    /// Where the model was defined, if known.
    pub source: Option<Source>,
}

/// Why a model was rejected at registration time.
#[derive(Clone, Copy, PartialEq, Eq, Structural, Debug)]
pub enum DefinitionError {
    /// The model's name is not a well-formed identifier.
    InvalidModelName,
    /// A model of this name is already registered.
    DuplicateModel,
    /// The named field's name is not a well-formed identifier.
    InvalidFieldName(usize),
    /// The named field repeats an earlier field's name.
    DuplicateField(usize),
    /// No field carries the primary key annotation.
    NoPrimaryKey,
    /// More than one field carries the primary key annotation.
    MultiplePrimaryKeys,
    /// The named field references a foreign key target that is neither
    /// registered nor part of the model itself.
    UnknownForeignKeyTarget(usize),
    /// The named field's merged annotations are inconsistent.
    InvalidAnnotations(usize, AnnotationError),
}

/// A lookup named a model or field that does not exist.
#[derive(Clone, Copy, PartialEq, Eq, Structural, Debug)]
pub struct UnknownField;

/// The index of the first model with the given name.
pub open spec fn find_model(ms: Seq<ModelDescriptor>, name: Seq<char>) -> Option<int>
    decreases ms.len(),
{
    if ms.len() == 0 {
        None
    } else if ms[0].name@ == name {
        Some(0)
    } else {
        match find_model(ms.drop_first(), name) {
            Some(i) => Some(i + 1),
            None => None,
        }
    }
}

/// The index of the first field with the given name.
pub open spec fn find_field(fs: Seq<FieldMeta>, name: Seq<char>) -> Option<int>
    decreases fs.len(),
{
    if fs.len() == 0 {
        None
    } else if fs[0].name@ == name {
        Some(0)
    } else {
        match find_field(fs.drop_first(), name) {
            Some(i) => Some(i + 1),
            None => None,
        }
    }
}

/// A model lookup finds something exactly when a model of that name exists,
/// and what it finds is the first such model.
pub proof fn lemma_find_model_spec(ms: Seq<ModelDescriptor>, name: Seq<char>)
    ensures
        find_model(ms, name) is Some <==> (exists|i: int|
            0 <= i < ms.len() && #[trigger] ms[i].name@ == name),
        find_model(ms, name) matches Some(i) ==> 0 <= i < ms.len() && ms[i].name@ == name && (
        forall|j: int| 0 <= j < i ==> #[trigger] ms[j].name@ != name),
    decreases ms.len(),
{
    if ms.len() > 0 {
        let rest = ms.drop_first();
        lemma_find_model_spec(rest, name);
        if ms[0].name@ != name {
            assert forall|i: int|
                0 <= i < ms.len() && #[trigger] ms[i].name@ == name implies find_model(
                ms,
                name,
            ) is Some by {
                assert(rest[i - 1].name@ == name);
            }
            match find_model(rest, name) {
                Some(i2) => {
                    assert(find_model(ms, name) == Some(i2 + 1));
                    assert(ms[i2 + 1] == rest[i2]);
                    assert forall|j: int| 0 <= j < i2 + 1 implies #[trigger] ms[j].name@
                        != name by {
                        if j >= 1 {
                            assert(ms[j] == rest[j - 1]);
                            assert(rest[j - 1].name@ != name);
                        }
                    }
                },
                None => {},
            }
        }
    }
}

/// A field lookup finds something exactly when a field of that name exists,
/// and what it finds is the first such field.
pub proof fn lemma_find_field_spec(fs: Seq<FieldMeta>, name: Seq<char>)
    ensures
        find_field(fs, name) is Some <==> (exists|i: int|
            0 <= i < fs.len() && #[trigger] fs[i].name@ == name),
        find_field(fs, name) matches Some(i) ==> 0 <= i < fs.len() && fs[i].name@ == name && (
        forall|j: int| 0 <= j < i ==> #[trigger] fs[j].name@ != name),
    decreases fs.len(),
{
    if fs.len() > 0 {
        let rest = fs.drop_first();
        lemma_find_field_spec(rest, name);
        if fs[0].name@ != name {
            assert forall|i: int|
                0 <= i < fs.len() && #[trigger] fs[i].name@ == name implies find_field(
                fs,
                name,
            ) is Some by {
                assert(rest[i - 1].name@ == name);
            }
            match find_field(rest, name) {
                Some(i2) => {
                    assert(find_field(fs, name) == Some(i2 + 1));
                    assert(fs[i2 + 1] == rest[i2]);
                    assert forall|j: int| 0 <= j < i2 + 1 implies #[trigger] fs[j].name@
                        != name by {
                        if j >= 1 {
                            assert(fs[j] == rest[j - 1]);
                            assert(rest[j - 1].name@ != name);
                        }
                    }
                },
                None => {},
            }
        }
    }
}

/// Look a field up by model name and field name.
pub open spec fn spec_resolve(
    ms: Seq<ModelDescriptor>,
    model: Seq<char>,
    field: Seq<char>,
) -> Option<FieldMeta> {
    match find_model(ms, model) {
        Some(i) => match find_field(ms[i].fields@, field) {
            Some(j) => Some(ms[i].fields@[j]),
            None => None,
        },
        None => None,
    }
}

/// The foreign key target of a field being registered: a field of an
/// already registered model, or — for a self reference — of the model under
/// registration itself.
pub open spec fn spec_fk_target(
    ms: Seq<ModelDescriptor>,
    m: ModelDescriptor,
    table: Seq<char>,
    column: Seq<char>,
) -> Option<FieldMeta> {
    match find_model(ms, table) {
        Some(i) => match find_field(ms[i].fields@, column) {
            Some(j) => Some(ms[i].fields@[j]),
            None => None,
        },
        None => if table == m.name@ {
            match find_field(m.fields@, column) {
                Some(j) => Some(m.fields@[j]),
                None => None,
            }
        } else {
            None
        },
    }
}

/// A field's merged annotation record: the explicit annotations, extended
/// by what the field's kind implies.  A foreign key field gains the foreign
/// key annotation and, where it has none of its own, its target's maximum
/// length.  `None` when a foreign key target cannot be resolved.
pub open spec fn spec_merge_field(
    ms: Seq<ModelDescriptor>,
    m: ModelDescriptor,
    f: FieldMeta,
) -> Option<Annotations> {
    match f.kind {
        FieldKind::ForeignKey { table_name, column_name } => match spec_fk_target(
            ms,
            m,
            table_name@,
            column_name@,
        ) {
            Some(target) => Some(
                Annotations {
                    foreign_key: Some(ForeignKeyAnnotation { table_name, column_name }),
                    max_length: if f.annotations.max_length is Some {
                        f.annotations.max_length
                    } else {
                        target.annotations.max_length
                    },
                    ..f.annotations
                },
            ),
            None => None,
        },
        _ => Some(f.annotations),
    }
}

/// Everything [`Registry::register`] checks, as one predicate: the model
/// name is a fresh well-formed identifier, there is at least one field, the
/// field names are well-formed identifiers and pairwise distinct, exactly
/// one field is the primary key, every foreign key target resolves, and
/// every field's merged annotation record passes the linter.
pub open spec fn spec_register_ok(ms: Seq<ModelDescriptor>, m: ModelDescriptor) -> bool {
    &&& ident_ok(m.name@)
    &&& find_model(ms, m.name@) is None
    &&& m.fields@.len() > 0
    &&& forall|i: int| 0 <= i < m.fields@.len() ==> ident_ok(#[trigger] m.fields@[i].name@)
    &&& forall|i: int, j: int|
        #![trigger m.fields@[i], m.fields@[j]]
        0 <= i < j < m.fields@.len() ==> m.fields@[i].name@ != m.fields@[j].name@
    &&& (exists|i: int|
        0 <= i < m.fields@.len() && (#[trigger] m.fields@[i]).annotations.primary_key)
    &&& forall|i: int, j: int|
        #![trigger m.fields@[i], m.fields@[j]]
        0 <= i < j < m.fields@.len() && m.fields@[i].annotations.primary_key
            ==> !m.fields@[j].annotations.primary_key
    &&& forall|i: int|
        0 <= i < m.fields@.len() ==> spec_merge_field(ms, m, #[trigger] m.fields@[i]) is Some
    &&& forall|i: int|
        0 <= i < m.fields@.len() ==> {
            &&& #[trigger] spec_merge_field(ms, m, m.fields@[i]) matches Some(a)
            &&& a.spec_consistent()
        }
}

/// The database type a string field is stored as: a closed choice set
/// where the annotations declare one, a plain variable-length string
/// otherwise.
pub fn string_db_type(annotations: &Annotations) -> (r: DbType)
    ensures
        r == (if annotations.choices is Some {
            DbType::Choices
        } else {
            DbType::VarChar
        }),
{
    if annotations.choices.is_some() {
        DbType::Choices
    } else {
        DbType::VarChar
    }
}

/// Pairwise distinct model names.
pub open spec fn distinct_model_names(ms: Seq<ModelDescriptor>) -> bool {
    forall|i: int, j: int|
        #![trigger ms[i], ms[j]]
        0 <= i < j < ms.len() ==> ms[i].name@ != ms[j].name@
}

/// Names and structure a stored model shares with the descriptor it came
/// from: same name, source and field count, and fieldwise the same name,
/// type and kind, with the merged annotations.
pub open spec fn stored_matches(
    ms: Seq<ModelDescriptor>,
    m: ModelDescriptor,
    stored: ModelDescriptor,
) -> bool {
    &&& stored.name == m.name
    &&& stored.source == m.source
    &&& stored.fields@.len() == m.fields@.len()
    &&& forall|i: int|
        0 <= i < m.fields@.len() ==> {
            let f = m.fields@[i];
            let g = #[trigger] stored.fields@[i];
            &&& g.name == f.name
            &&& g.db_type == f.db_type
            &&& g.kind == f.kind
            &&& g.source == f.source
            &&& Some(g.annotations) == spec_merge_field(ms, m, f)
        }
}

/// The index of the first field with the given name, executably.
pub fn find_field_index(fields: &Vec<FieldMeta>, name: &str) -> (r: Option<usize>)
    ensures
        match r {
            Some(j) => find_field(fields@, name@) == Some(j as int),
            None => find_field(fields@, name@) is None,
        },
{
    let ghost fs = fields@;
    let mut j: usize = 0;
    while j < fields.len()
        invariant
            j <= fs.len(),
            fs == fields@,
            forall|k: int| 0 <= k < j ==> #[trigger] fs[k].name@ != name@,
        decreases fs.len() - j,
    {
        if str_eq(fields[j].name.as_str(), name) {
            proof {
                lemma_find_field_spec(fs, name@);
                match find_field(fs, name@) {
                    Some(k) => {
                        assert(!(k < j) && !(j < k));
                    },
                    None => {},
                }
            }
            return Some(j);
        }
        j = j + 1;
    }
    proof {
        lemma_find_field_spec(fs, name@);
        match find_field(fs, name@) {
            Some(k) => {
                assert(fs[k].name@ == name@);
            },
            None => {},
        }
    }
    None
}

/// The process-wide field metadata registry.
///
/// Populated once per model by [`Registry::register`]; read-only afterwards.
pub struct Registry {
    models: Vec<ModelDescriptor>,
}

impl View for Registry {
    type V = Seq<ModelDescriptor>;

    closed spec fn view(&self) -> Seq<ModelDescriptor> {
        self.models@
    }
}

impl Registry {
    /// The empty registry.
    pub fn new() -> (r: Registry)
        ensures
            r@ == Seq::<ModelDescriptor>::empty(),
    {
        Registry { models: Vec::new() }
    }

    /// How many models are registered.
    pub fn len(&self) -> (r: usize)
        ensures
            r == self@.len(),
    {
        self.models.len()
    }

    /// The registered model at a position, in registration order.
    pub fn model_at(&self, i: usize) -> (r: &ModelDescriptor)
        requires
            i < self@.len(),
        ensures
            *r == self@[i as int],
    {
        &self.models[i]
    }

    /// The index of the registered model with the given name.
    fn find_model_index(&self, name: &str) -> (r: Option<usize>)
        ensures
            match r {
                Some(i) => find_model(self@, name@) == Some(i as int),
                None => find_model(self@, name@) is None,
            },
    {
        let ghost ms = self@;
        let mut i: usize = 0;
        while i < self.models.len()
            invariant
                i <= ms.len(),
                ms == self@,
                self@ == self.models@,
                forall|j: int| 0 <= j < i ==> #[trigger] ms[j].name@ != name@,
            decreases ms.len() - i,
        {
            if str_eq(self.models[i].name.as_str(), name) {
                proof {
                    lemma_find_model_spec(ms, name@);
                    match find_model(ms, name@) {
                        Some(k) => {
                            assert(!(k < i) && !(i < k));
                        },
                        None => {},
                    }
                }
                return Some(i);
            }
            i = i + 1;
        }
        proof {
            lemma_find_model_spec(ms, name@);
            match find_model(ms, name@) {
                Some(k) => {
                    assert(ms[k].name@ == name@);
                },
                None => {},
            }
        }
        None
    }

    /// Look a field up by model name and field name.  This succeeds exactly
    /// when the model is registered and the name was part of its descriptor.
    pub fn resolve(&self, model: &str, field: &str) -> (r: Result<&FieldMeta, UnknownField>)
        ensures
            r is Ok <==> spec_resolve(self@, model@, field@) is Some,
            r matches Ok(f) ==> Some(*f) == spec_resolve(self@, model@, field@),
    {
        let mi = match self.find_model_index(model) {
            Some(i) => i,
            None => {
                return Err(UnknownField);
            },
        };
        proof {
            lemma_find_model_spec(self@, model@);
        }
        let fields = &self.models[mi].fields;
        let ghost fs = fields@;
        let mut j: usize = 0;
        while j < fields.len()
            invariant
                j <= fs.len(),
                fs == fields@,
                mi < self@.len(),
                find_model(self@, model@) == Some(mi as int),
                fs == self@[mi as int].fields@,
                forall|k: int| 0 <= k < j ==> #[trigger] fs[k].name@ != field@,
            decreases fs.len() - j,
        {
            if str_eq(fields[j].name.as_str(), field) {
                proof {
                    lemma_find_field_spec(fs, field@);
                    match find_field(fs, field@) {
                        Some(k) => {
                            assert(!(k < j) && !(j < k));
                        },
                        None => {},
                    }
                }
                return Ok(&fields[j]);
            }
            j = j + 1;
        }
        proof {
            lemma_find_field_spec(fs, field@);
            match find_field(fs, field@) {
                Some(k) => {
                    assert(fs[k].name@ == field@);
                },
                None => {},
            }
        }
        Err(UnknownField)
    }

    /// The model's primary key field: the basis of a condition that
    /// matches exactly one instance.
    pub fn primary_field(&self, model: &str) -> (r: Result<&FieldMeta, UnknownField>)
        ensures
            r is Ok <==> (find_model(self@, model@) matches Some(mi) && (exists|j: int|
                0 <= j < self@[mi].fields@.len() && (#[trigger] self@[mi].fields@[j]).annotations.primary_key)),
            r matches Ok(f) ==> (find_model(self@, model@) matches Some(mi) && (exists|j: int|
                0 <= j < self@[mi].fields@.len() && #[trigger] self@[mi].fields@[j] == *f
                    && f.annotations.primary_key)),
    {
        let mi = match self.find_model_index(model) {
            Some(i) => i,
            None => {
                return Err(UnknownField);
            },
        };
        proof {
            lemma_find_model_spec(self@, model@);
        }
        let fields = &self.models[mi].fields;
        let ghost fs = fields@;
        let mut j: usize = 0;
        while j < fields.len()
            invariant
                j <= fs.len(),
                fs == fields@,
                mi < self@.len(),
                find_model(self@, model@) == Some(mi as int),
                fs == self@[mi as int].fields@,
                forall|k: int| 0 <= k < j ==> !(#[trigger] fs[k]).annotations.primary_key,
            decreases fs.len() - j,
        {
            if fields[j].annotations.primary_key {
                return Ok(&fields[j]);
            }
            j = j + 1;
        }
        Err(UnknownField)
    }

    /// The position of a field in its model's field list, by model and
    /// field name.
    pub fn field_index(&self, model: &str, field: &str) -> (r: Option<usize>)
        ensures
            match r {
                Some(j) => find_model(self@, model@) matches Some(mi) && find_field(
                    self@[mi].fields@,
                    field@,
                ) == Some(j as int),
                None => spec_resolve(self@, model@, field@) is None,
            },
    {
        match self.find_model_index(model) {
            Some(mi) => {
                proof {
                    lemma_find_model_spec(self@, model@);
                }
                find_field_index(&self.models[mi].fields, field)
            },
            None => None,
        }
    }

    /// The maximum length of a foreign key target field: `None` when the
    /// target cannot be resolved in the registry or the model itself.
    fn fk_target_max(&self, m: &ModelDescriptor, table: &str, column: &str) -> (r: Option<
        Option<usize>,
    >)
        ensures
            match r {
                Some(ml) => spec_fk_target(self@, *m, table@, column@) matches Some(t)
                    && ml == t.annotations.max_length,
                None => spec_fk_target(self@, *m, table@, column@) is None,
            },
    {
        match self.find_model_index(table) {
            Some(i) => {
                proof {
                    lemma_find_model_spec(self@, table@);
                }
                match find_field_index(&self.models[i].fields, column) {
                    Some(j) => {
                        proof {
                            lemma_find_field_spec(self.models@[i as int].fields@, column@);
                        }
                        Some(self.models[i].fields[j].annotations.max_length)
                    },
                    None => None,
                }
            },
            None => {
                if str_eq(table, m.name.as_str()) {
                    match find_field_index(&m.fields, column) {
                        Some(j) => {
                            proof {
                                lemma_find_field_spec(m.fields@, column@);
                            }
                            Some(m.fields[j].annotations.max_length)
                        },
                        None => None,
                    }
                } else {
                    None
                }
            },
        }
    }

    /// Register a model: validate it as a whole, merge each field's implied
    /// annotations into its explicit ones, run the linter, and store the
    /// result.  Must be called exactly once per model, before any query
    /// against it; a failed registration leaves the registry unchanged, so
    /// the model never becomes queryable.
    #[verifier::loop_isolation(false)]
    #[verifier::rlimit(100)]
    pub fn register(&mut self, m: ModelDescriptor) -> (r: Result<(), DefinitionError>)
        ensures
            r is Ok <==> spec_register_ok(old(self)@, m),
            r is Ok ==> final(self)@.len() == old(self)@.len() + 1 && final(self)@.subrange(
                0,
                old(self)@.len() as int,
            ) == old(self)@ && stored_matches(old(self)@, m, final(self)@.last()),
            r is Err ==> final(self)@ == old(self)@,
            r matches Err(DefinitionError::InvalidModelName) ==> !ident_ok(m.name@),
            r matches Err(DefinitionError::DuplicateModel) ==> find_model(
                old(self)@,
                m.name@,
            ) is Some,
            r matches Err(DefinitionError::InvalidFieldName(i)) ==> i < m.fields@.len()
                && !ident_ok(m.fields@[i as int].name@),
            r matches Err(DefinitionError::DuplicateField(i)) ==> i < m.fields@.len() && (exists|
                j: int,
            |
                0 <= j < i && #[trigger] m.fields@[j].name@ == m.fields@[i as int].name@),
            r matches Err(DefinitionError::NoPrimaryKey) ==> (forall|i: int|
                0 <= i < m.fields@.len() ==> !(
                #[trigger] m.fields@[i]).annotations.primary_key),
            r matches Err(DefinitionError::MultiplePrimaryKeys) ==> (exists|i: int, j: int|
                #![trigger m.fields@[i], m.fields@[j]]
                0 <= i < j < m.fields@.len() && m.fields@[i].annotations.primary_key
                    && m.fields@[j].annotations.primary_key),
            r matches Err(DefinitionError::UnknownForeignKeyTarget(i)) ==> i < m.fields@.len()
                && spec_merge_field(old(self)@, m, m.fields@[i as int]) is None,
            r matches Err(DefinitionError::InvalidAnnotations(i, e)) ==> ({
                &&& i < m.fields@.len()
                &&& spec_merge_field(old(self)@, m, m.fields@[i as int]) matches Some(a)
                &&& a.spec_check() == Err::<(), AnnotationError>(e)
            }),
            distinct_model_names(old(self)@) ==> distinct_model_names(final(self)@),
            registry_names_ok(old(self)@) ==> registry_names_ok(final(self)@),
    {
        let ghost ms = self@;
        let ghost m0 = m;
        if !check_ident(m.name.as_str()) {
            return Err(DefinitionError::InvalidModelName);
        }
        if self.find_model_index(m.name.as_str()).is_some() {
            return Err(DefinitionError::DuplicateModel);
        }
        let nf = m.fields.len();
        if nf == 0 {
            return Err(DefinitionError::NoPrimaryKey);
        }
        // Field names: well-formed identifiers, pairwise distinct.
        let mut i: usize = 0;
        while i < nf
            invariant
                i <= nf,
                nf == m0.fields@.len(),
                m == m0,
                forall|k: int| 0 <= k < i ==> ident_ok(#[trigger] m0.fields@[k].name@),
                forall|k1: int, k2: int|
                    #![trigger m0.fields@[k1], m0.fields@[k2]]
                    0 <= k1 < k2 < i ==> m0.fields@[k1].name@ != m0.fields@[k2].name@,
            decreases nf - i,
        {
            if !check_ident(m.fields[i].name.as_str()) {
                return Err(DefinitionError::InvalidFieldName(i));
            }
            let mut j: usize = 0;
            while j < i
                invariant
                    j <= i < nf,
                    nf == m0.fields@.len(),
                    m == m0,
                    forall|k: int| 0 <= k < j ==> #[trigger] m0.fields@[k].name@ != m0.fields@[i as int].name@,
                decreases i - j,
            {
                if str_eq(m.fields[j].name.as_str(), m.fields[i].name.as_str()) {
                    return Err(DefinitionError::DuplicateField(i));
                }
                j = j + 1;
            }
            i = i + 1;
        }
        // Exactly one primary key.
        let mut primary: Option<usize> = None;
        let mut i: usize = 0;
        while i < nf
            invariant
                i <= nf,
                nf == m0.fields@.len(),
                m == m0,
                match primary {
                    Some(p) => p < i && m0.fields@[p as int].annotations.primary_key && (forall|
                        k: int,
                    |
                        0 <= k < i && k != p ==> !(
                        #[trigger] m0.fields@[k]).annotations.primary_key),
                    None => forall|k: int|
                        0 <= k < i ==> !(#[trigger] m0.fields@[k]).annotations.primary_key,
                },
            decreases nf - i,
        {
            if m.fields[i].annotations.primary_key {
                match primary {
                    Some(_) => {
                        return Err(DefinitionError::MultiplePrimaryKeys);
                    },
                    None => {
                        primary = Some(i);
                    },
                }
            }
            i = i + 1;
        }
        if primary.is_none() {
            return Err(DefinitionError::NoPrimaryKey);
        }
        proof {
            assert forall|k1: int, k2: int|
                #![trigger m0.fields@[k1], m0.fields@[k2]]
                0 <= k1 < k2 < nf && m0.fields@[k1].annotations.primary_key implies !m0.fields@[k2].annotations.primary_key by {
                match primary {
                    Some(p) => {
                        if k1 != p {
                            assert(!m0.fields@[k1].annotations.primary_key);
                        }
                    },
                    None => {},
                }
            }
        }
        // Resolve every foreign key target.
        let mut inherited: Vec<Option<usize>> = Vec::new();
        let mut i: usize = 0;
        while i < nf
            invariant
                i <= nf,
                nf == m0.fields@.len(),
                m == m0,
                ms == self@,
                inherited@.len() == i,
                forall|k: int|
                    0 <= k < i ==> match (#[trigger] m0.fields@[k]).kind {
                        FieldKind::ForeignKey { table_name, column_name } => spec_fk_target(
                            ms,
                            m0,
                            table_name@,
                            column_name@,
                        ) matches Some(t) && inherited@[k] == t.annotations.max_length,
                        _ => inherited@[k] is None,
                    },
            decreases nf - i,
        {
            match &m.fields[i].kind {
                FieldKind::ForeignKey { table_name, column_name } => {
                    match self.fk_target_max(&m, table_name.as_str(), column_name.as_str()) {
                        Some(ml) => inherited.push(ml),
                        None => {
                            proof {
                                assert(spec_merge_field(ms, m0, m0.fields@[i as int]) is None);
                            }
                            return Err(DefinitionError::UnknownForeignKeyTarget(i));
                        },
                    }
                },
                _ => inherited.push(None),
            }
            i = i + 1;
        }
        // Merge, lint, and store.
        let ModelDescriptor { name, fields, source } = m;
        let mut fields = fields;
        let mut merged: Vec<FieldMeta> = Vec::new();
        let mut i: usize = 0;
        while fields.len() > 0
            invariant
                i + fields@.len() == nf,
                nf == m0.fields@.len(),
                ms == self@,
                inherited@.len() == nf,
                fields@ == m0.fields@.skip(i as int),
                merged@.len() == i,
                forall|k: int|
                    0 <= k < nf ==> match (#[trigger] m0.fields@[k]).kind {
                        FieldKind::ForeignKey { table_name, column_name } => spec_fk_target(
                            ms,
                            m0,
                            table_name@,
                            column_name@,
                        ) matches Some(t) && inherited@[k] == t.annotations.max_length,
                        _ => inherited@[k] is None,
                    },
                forall|k: int|
                    0 <= k < i ==> {
                        let f = m0.fields@[k];
                        let g = #[trigger] merged@[k];
                        &&& g.name == f.name
                        &&& g.db_type == f.db_type
                        &&& g.kind == f.kind
                        &&& g.source == f.source
                        &&& Some(g.annotations) == spec_merge_field(ms, m0, f)
                        &&& g.annotations.spec_consistent()
                    },
            decreases fields@.len(),
        {
            let f = fields.remove(0);
            proof {
                assert(f == m0.fields@[i as int]);
                assert(fields@ =~= m0.fields@.skip(i + 1 as int));
            }
            let FieldMeta { name: fname, db_type, kind, annotations, source: fsource } = f;
            let mut a = annotations;
            match &kind {
                FieldKind::ForeignKey { table_name, column_name } => {
                    a.foreign_key = Some(
                        ForeignKeyAnnotation {
                            table_name: table_name.clone(),
                            column_name: column_name.clone(),
                        },
                    );
                    if a.max_length.is_none() {
                        a.max_length = inherited[i];
                    }
                },
                _ => {},
            }
            proof {
                assert(Some(a) == spec_merge_field(ms, m0, m0.fields@[i as int]));
            }
            match a.check() {
                Ok(_) => {},
                Err(e) => {
                    return Err(DefinitionError::InvalidAnnotations(i, e));
                },
            }
            merged.push(
                FieldMeta { name: fname, db_type, kind, annotations: a, source: fsource },
            );
            i = i + 1;
        }
        proof {
            lemma_find_model_spec(ms, m0.name@);
        }
        self.models.push(ModelDescriptor { name, fields: merged, source });
        proof {
            assert(self@.subrange(0, ms.len() as int) =~= ms);
            assert(ident_ok(m0.name@));
            assert(find_model(ms, m0.name@) is None);
            assert(m0.fields@.len() > 0);
            assert(forall|k: int| 0 <= k < m0.fields@.len() ==> ident_ok(#[trigger] m0.fields@[k].name@));
            assert(exists|k: int|
                0 <= k < m0.fields@.len() && (#[trigger] m0.fields@[k]).annotations.primary_key);
            assert forall|k: int| 0 <= k < m0.fields@.len() implies spec_merge_field(
                ms,
                m0,
                #[trigger] m0.fields@[k],
            ) is Some by {
                assert(merged@[k].annotations.spec_consistent());
            }
            assert forall|k: int| 0 <= k < m0.fields@.len() implies ({
                &&& #[trigger] spec_merge_field(ms, m0, m0.fields@[k]) matches Some(a)
                &&& a.spec_consistent()
            }) by {
                assert(Some(merged@[k].annotations) == spec_merge_field(ms, m0, m0.fields@[k]));
                assert(merged@[k].annotations.spec_consistent());
            }
            assert(spec_register_ok(ms, m0));
            assert(stored_matches(ms, m0, self@.last()));
            if registry_names_ok(ms) {
                assert forall|x: int, y: int|
                    #![trigger self@[x].fields@[y]]
                    0 <= x < self@.len() && 0 <= y < self@[x].fields@.len() implies ident_ok(
                    self@[x].fields@[y].name@,
                ) by {
                    if x < ms.len() {
                        assert(self@[x] == ms[x]);
                        assert(ident_ok(ms[x].fields@[y].name@));
                    } else {
                        assert(self@[x] == self@.last());
                        assert(self@.last().fields@[y].name == m0.fields@[y].name);
                        assert(ident_ok(m0.fields@[y].name@));
                    }
                }
            }
            if distinct_model_names(ms) {
                assert forall|x: int, y: int|
                    #![trigger self@[x], self@[y]]
                    0 <= x < y < self@.len() implies self@[x].name@ != self@[y].name@ by {
                    if y < ms.len() {
                        assert(self@[x] == ms[x] && self@[y] == ms[y]);
                    } else {
                        assert(self@[x] == ms[x]);
                        assert(self@[y].name@ == m0.name@);
                        assert(ms[x].name@ != m0.name@);
                    }
                }
            }
        }
        Ok(())
    }
}

/// Registration and lookup round-trip: in a registry with distinct model
/// names, `resolve` on a registered model succeeds for exactly the field
/// names of that model's stored descriptor, and hands back the descriptor's
/// field.
pub proof fn lemma_resolve_roundtrip(ms: Seq<ModelDescriptor>, mi: int, field: Seq<char>)
    requires
        distinct_model_names(ms),
        0 <= mi < ms.len(),
    ensures
        spec_resolve(ms, ms[mi].name@, field) is Some <==> (exists|j: int|
            0 <= j < ms[mi].fields@.len() && #[trigger] ms[mi].fields@[j].name@ == field),
        spec_resolve(ms, ms[mi].name@, field) matches Some(f) ==> (exists|j: int|
            0 <= j < ms[mi].fields@.len() && #[trigger] ms[mi].fields@[j] == f
                && ms[mi].fields@[j].name@ == field),
{
    lemma_find_model_spec(ms, ms[mi].name@);
    let fi = find_model(ms, ms[mi].name@);
    assert(fi is Some);
    let i = fi.unwrap();
    assert(ms[i].name@ == ms[mi].name@);
    assert(i == mi) by {
        if i < mi {
            assert(ms[i].name@ != ms[mi].name@);
        }
        if mi < i {
            assert(ms[mi].name@ != ms[i].name@);
        }
    }
    lemma_find_field_spec(ms[mi].fields@, field);
}

/// The round trip of registration and lookup, stated directly on one
/// registration step: after a model is successfully registered, a name
/// resolves under the model exactly when it was part of the original
/// descriptor's field list.
pub proof fn lemma_register_resolve_roundtrip(
    before: Seq<ModelDescriptor>,
    after: Seq<ModelDescriptor>,
    m: ModelDescriptor,
    field: Seq<char>,
)
    requires
        distinct_model_names(before),
        spec_register_ok(before, m),
        after.len() == before.len() + 1,
        after.subrange(0, before.len() as int) == before,
        stored_matches(before, m, after.last()),
    ensures
        spec_resolve(after, m.name@, field) is Some <==> (exists|j: int|
            0 <= j < m.fields@.len() && #[trigger] m.fields@[j].name@ == field),
{
    let mi = after.len() - 1;
    assert(after[mi] == after.last());
    assert(after[mi].name@ == m.name@);
    lemma_find_model_spec(before, m.name@);
    assert forall|x: int, y: int|
        #![trigger after[x], after[y]]
        0 <= x < y < after.len() implies after[x].name@ != after[y].name@ by {
        if y < before.len() {
            assert(after[x] == before[x] && after[y] == before[y]);
        } else {
            assert(after[x] == before[x]);
            assert(before[x].name@ != m.name@);
        }
    }
    lemma_resolve_roundtrip(after, mi, field);
    let stored = after[mi];
    assert forall|j: int| 0 <= j < stored.fields@.len() implies #[trigger] stored.fields@[j].name@
        == m.fields@[j].name@ by {
        assert(stored.fields@[j].name == m.fields@[j].name);
    }
    if exists|j: int| 0 <= j < m.fields@.len() && #[trigger] m.fields@[j].name@ == field {
        let j = choose|j: int| 0 <= j < m.fields@.len() && #[trigger] m.fields@[j].name@ == field;
        assert(stored.fields@[j].name@ == field);
    }
    if exists|j: int| 0 <= j < stored.fields@.len() && #[trigger] stored.fields@[j].name@ == field {
        let j = choose|j: int|
            0 <= j < stored.fields@.len() && #[trigger] stored.fields@[j].name@ == field;
        assert(m.fields@[j].name@ == field);
    }
}

/// Every stored name in the registry is a well-formed identifier — what
/// registration enforces.
pub open spec fn registry_names_ok(ms: Seq<ModelDescriptor>) -> bool {
    forall|i: int, j: int|
        #![trigger ms[i].fields@[j]]
        0 <= i < ms.len() && 0 <= j < ms[i].fields@.len() ==> ident_ok(ms[i].fields@[j].name@)
}

/// Every column reference in the condition names a field of the model.
pub open spec fn cond_refs_ok(
    ms: Seq<ModelDescriptor>,
    model: Seq<char>,
    c: crate::condition::Condition,
) -> bool
    decreases c,
{
    match c {
        crate::condition::Condition::Value(v) => match v@ {
            crate::value::ValueView::Ident(s) => spec_resolve(ms, model, s) is Some,
            _ => true,
        },
        crate::condition::Condition::Conjunction(cs) => conds_refs_ok(ms, model, cs@),
        crate::condition::Condition::Disjunction(cs) => conds_refs_ok(ms, model, cs@),
        crate::condition::Condition::Unary(_, x) => cond_refs_ok(ms, model, *x),
        crate::condition::Condition::Binary(_, a, b) => cond_refs_ok(ms, model, *a)
            && cond_refs_ok(ms, model, *b),
        crate::condition::Condition::Ternary(_, a, b, c2) => cond_refs_ok(ms, model, *a)
            && cond_refs_ok(ms, model, *b) && cond_refs_ok(ms, model, *c2),
    }
}

/// [`cond_refs_ok`] over a list of conditions.
pub open spec fn conds_refs_ok(
    ms: Seq<ModelDescriptor>,
    model: Seq<char>,
    cs: Seq<crate::condition::Condition>,
) -> bool
    decreases cs,
{
    if cs.len() == 0 {
        true
    } else {
        cond_refs_ok(ms, model, cs[0]) && conds_refs_ok(ms, model, cs.drop_first())
    }
}

impl Registry {
    /// Check a condition's column references against the registry, before
    /// it is rendered: every identifier leaf must name a field of the
    /// model being queried.
    pub fn check_condition(&self, model: &str, c: &crate::condition::Condition) -> (r: bool)
        ensures
            r == cond_refs_ok(self@, model@, *c),
        decreases *c, 0int,
    {
        match c {
            crate::condition::Condition::Value(v) => match v {
                crate::value::Value::Ident(s) => self.resolve(model, s.as_str()).is_ok(),
                _ => true,
            },
            crate::condition::Condition::Conjunction(cs) => {
                proof {
                    assert(cs@.skip(0) =~= cs@);
                }
                self.check_conditions(model, cs, 0)
            },
            crate::condition::Condition::Disjunction(cs) => {
                proof {
                    assert(cs@.skip(0) =~= cs@);
                }
                self.check_conditions(model, cs, 0)
            },
            crate::condition::Condition::Unary(_, x) => self.check_condition(model, x),
            crate::condition::Condition::Binary(_, a, b) => self.check_condition(model, a)
                && self.check_condition(model, b),
            crate::condition::Condition::Ternary(_, a, b, c2) => self.check_condition(model, a)
                && self.check_condition(model, b) && self.check_condition(model, c2),
        }
    }

    /// Check the column references of the conditions `cs[i..]`.
    fn check_conditions(
        &self,
        model: &str,
        cs: &Vec<crate::condition::Condition>,
        i: usize,
    ) -> (r: bool)
        requires
            i <= cs@.len(),
        ensures
            r == conds_refs_ok(self@, model@, cs@.skip(i as int)),
        decreases cs@.skip(i as int), 1int,
    {
        if i == cs.len() {
            proof {
                assert(cs@.skip(i as int) =~= Seq::<crate::condition::Condition>::empty());
            }
            true
        } else {
            proof {
                assert(cs@[i as int] == cs@.skip(i as int)[0]);
            }
            let head = self.check_condition(model, &cs[i]);
            if !head {
                return false;
            }
            proof {
                assert(cs@.skip(i as int).drop_first() =~= cs@.skip(i + 1 as int));
            }
            self.check_conditions(model, cs, i + 1)
        }
    }
}

/// A reference-checked condition over a registry of well-formed names has
/// only well-formed identifier leaves, which is what the SQL renderers'
/// text guarantees rest on.
pub proof fn lemma_checked_condition_idents_ok(
    ms: Seq<ModelDescriptor>,
    model: Seq<char>,
    c: crate::condition::Condition,
)
    requires
        registry_names_ok(ms),
        cond_refs_ok(ms, model, c),
    ensures
        crate::condition::cond_idents_ok(c),
    decreases c, 0int,
{
    match c {
        crate::condition::Condition::Value(v) => {
            match v@ {
                crate::value::ValueView::Ident(s) => {
                    lemma_find_model_spec(ms, model);
                    match find_model(ms, model) {
                        Some(i) => {
                            lemma_find_field_spec(ms[i].fields@, s);
                            match find_field(ms[i].fields@, s) {
                                Some(j) => {
                                    assert(ident_ok(ms[i].fields@[j].name@));
                                },
                                None => {},
                            }
                        },
                        None => {},
                    }
                },
                _ => {},
            }
        },
        crate::condition::Condition::Conjunction(cs) => {
            lemma_checked_conditions_idents_ok(ms, model, cs@);
        },
        crate::condition::Condition::Disjunction(cs) => {
            lemma_checked_conditions_idents_ok(ms, model, cs@);
        },
        crate::condition::Condition::Unary(_, x) => {
            lemma_checked_condition_idents_ok(ms, model, *x);
        },
        crate::condition::Condition::Binary(_, a, b) => {
            lemma_checked_condition_idents_ok(ms, model, *a);
            lemma_checked_condition_idents_ok(ms, model, *b);
        },
        crate::condition::Condition::Ternary(_, a, b, c2) => {
            lemma_checked_condition_idents_ok(ms, model, *a);
            lemma_checked_condition_idents_ok(ms, model, *b);
            lemma_checked_condition_idents_ok(ms, model, *c2);
        },
    }
}

/// [`lemma_checked_condition_idents_ok`] over a list of conditions.
pub proof fn lemma_checked_conditions_idents_ok(
    ms: Seq<ModelDescriptor>,
    model: Seq<char>,
    cs: Seq<crate::condition::Condition>,
)
    requires
        registry_names_ok(ms),
        conds_refs_ok(ms, model, cs),
    ensures
        crate::condition::conds_idents_ok(cs),
    decreases cs, 1int,
{
    if cs.len() > 0 {
        lemma_checked_condition_idents_ok(ms, model, cs[0]);
        lemma_checked_conditions_idents_ok(ms, model, cs.drop_first());
    }
}

} // verus!

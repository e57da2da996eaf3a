//! The intermediate model representation (IMR).
//!
//! A serializable snapshot of the registry for the external migration tool:
//! an ordered list of model records, in registration order, each carrying
//! its fields with their database type, annotation list and not-null flag.
//! The snapshot is purely derived from the registry and never mutated in
//! place; the annotation vocabulary is a closed set, so every registered
//! annotation is representable and none is dropped.

use vstd::prelude::*;

use crate::annotations::{Annotations, DefaultValue};
use crate::registry::{FieldMeta, ModelDescriptor, Registry, Source};
use crate::value::DbType;

verus! {

/// One annotation, as exported to the migration tool.
pub enum AnnotationIR {
    /// Set on creation to the current time.
    AutoCreateTime,
    /// Set on update to the current time.
    AutoUpdateTime,
    /// The database chooses the value by incrementing a counter.
    AutoIncrement,
    /// The column is restricted to this closed set of strings.
    Choices(Vec<String>),
    /// The column's default value.
    DefaultValue(DefaultValue),
    /// The column references another model's key column.
    ForeignKey {
        /// The referenced table.
        table_name: String,
        /// The referenced column.
        column_name: String,
    },
    /// The column is indexed.
    Index,
    /// The maximum stored length of the column's values.
    MaxLength(usize),
    /// The column rejects null.
    NotNull,
    /// The column is the model's primary key.
    PrimaryKey,
    /// The column's values are unique across rows.
    Unique,
}

/// A field record of the IMR.
pub struct FieldIR {
    /// The field's name.
    pub name: String,
    /// The database type of the field's column.
    pub db_type: DbType,
    /// The field's annotations, with `NotNull` appended for a non-nullable
    /// field.
    pub annotations: Vec<AnnotationIR>,
    /// Where the field was defined, if known.
    pub source_defined_at: Option<Source>,
}

/// A model record of the IMR.
pub struct ModelIR {
    /// The table name.
    pub name: String,
    /// The model's fields, in declaration order.
    pub fields: Vec<FieldIR>,
    /// Where the model was defined, if known.
    pub source_defined_at: Option<Source>,
}

/// The number of annotation slots walked by the exporter.
pub open spec fn annotation_slots() -> int {
    11
}

/// The annotations contributed by one slot of the record, in export order:
/// the automatic timestamps, auto increment, choices, the default, the
/// foreign key, the index flag, the maximum length, the primary key, the
/// unique flag, and last the not-null flag derived from nullability.
pub open spec fn annotation_part(a: Annotations, t: int) -> Seq<AnnotationIR> {
    if t == 0 {
        if a.auto_create_time {
            seq![AnnotationIR::AutoCreateTime]
        } else {
            Seq::empty()
        }
    } else if t == 1 {
        if a.auto_update_time {
            seq![AnnotationIR::AutoUpdateTime]
        } else {
            Seq::empty()
        }
    } else if t == 2 {
        if a.auto_increment {
            seq![AnnotationIR::AutoIncrement]
        } else {
            Seq::empty()
        }
    } else if t == 3 {
        match a.choices {
            Some(c) => seq![AnnotationIR::Choices(c)],
            None => Seq::empty(),
        }
    } else if t == 4 {
        match a.default_value {
            Some(d) => seq![AnnotationIR::DefaultValue(d)],
            None => Seq::empty(),
        }
    } else if t == 5 {
        match a.foreign_key {
            Some(fk) => seq![
                AnnotationIR::ForeignKey {
                    table_name: fk.table_name,
                    column_name: fk.column_name,
                },
            ],
            None => Seq::empty(),
        }
    } else if t == 6 {
        if a.index {
            seq![AnnotationIR::Index]
        } else {
            Seq::empty()
        }
    } else if t == 7 {
        match a.max_length {
            Some(n) => seq![AnnotationIR::MaxLength(n)],
            None => Seq::empty(),
        }
    } else if t == 8 {
        if a.primary_key {
            seq![AnnotationIR::PrimaryKey]
        } else {
            Seq::empty()
        }
    } else if t == 9 {
        if a.unique {
            seq![AnnotationIR::Unique]
        } else {
            Seq::empty()
        }
    } else {
        if !a.nullable {
            seq![AnnotationIR::NotNull]
        } else {
            Seq::empty()
        }
    }
}

/// The annotation list contributed by the slots from `t` on.
pub open spec fn annotations_ir_from(a: Annotations, t: int) -> Seq<AnnotationIR>
    decreases annotation_slots() - t,
{
    if t < 0 || t >= annotation_slots() {
        Seq::empty()
    } else {
        annotation_part(a, t) + annotations_ir_from(a, t + 1)
    }
}

/// A field's full exported annotation list.
pub open spec fn annotations_ir(a: Annotations) -> Seq<AnnotationIR> {
    annotations_ir_from(a, 0)
}

/// Exported annotations are compared up to the identity of the backing
/// vector of a `Choices` list: the choices themselves must be equal.
pub open spec fn annotation_matches(x: AnnotationIR, y: AnnotationIR) -> bool {
    match x {
        AnnotationIR::Choices(a) => y matches AnnotationIR::Choices(b) && a@ == b@,
        _ => x == y,
    }
}

/// Elementwise [`annotation_matches`].
pub open spec fn annotations_match(xs: Seq<AnnotationIR>, ys: Seq<AnnotationIR>) -> bool {
    xs.len() == ys.len() && forall|k: int|
        0 <= k < xs.len() ==> annotation_matches(#[trigger] xs[k], ys[k])
}

/// A field record matches its registry descriptor: same name, type and
/// source, and exactly the descriptor's exported annotation list.
pub open spec fn field_ir_matches(ir: FieldIR, f: FieldMeta) -> bool {
    &&& ir.name == f.name
    &&& ir.db_type == f.db_type
    &&& ir.source_defined_at == f.source
    &&& annotations_match(ir.annotations@, annotations_ir(f.annotations))
}

/// A model record matches its registry descriptor fieldwise.
pub open spec fn model_ir_matches(ir: ModelIR, m: ModelDescriptor) -> bool {
    &&& ir.name == m.name
    &&& ir.source_defined_at == m.source
    &&& ir.fields@.len() == m.fields@.len()
    &&& forall|f: int|
        0 <= f < m.fields@.len() ==> field_ir_matches(#[trigger] ir.fields@[f], m.fields@[f])
}

/// Copy a source location.
fn clone_source(s: &Source) -> (r: Source)
    ensures
        r == *s,
{
    Source { file: s.file.clone(), line: s.line, column: s.column }
}

/// Copy an optional source location.
fn clone_opt_source(s: &Option<Source>) -> (r: Option<Source>)
    ensures
        r == *s,
{
    match s {
        Some(s) => Some(clone_source(s)),
        None => None,
    }
}

/// Copy a list of choices.
fn clone_choices(c: &Vec<String>) -> (r: Vec<String>)
    ensures
        r@ == c@,
{
    let mut r: Vec<String> = Vec::new();
    let mut i: usize = 0;
    while i < c.len()
        invariant
            i <= c@.len(),
            r@ =~= c@.subrange(0, i as int),
        decreases c@.len() - i,
    {
        r.push(c[i].clone());
        proof {
            assert(r@ =~= c@.subrange(0, i + 1 as int));
        }
        i = i + 1;
    }
    proof {
        assert(r@ =~= c@);
    }
    r
}

/// The annotation contributed by one slot, if any.
fn annotation_part_exec(a: &Annotations, t: usize) -> (r: Option<AnnotationIR>)
    requires
        t < annotation_slots(),
    ensures
        match r {
            Some(x) => annotation_part(*a, t as int).len() == 1 && annotation_matches(
                x,
                annotation_part(*a, t as int)[0],
            ),
            None => annotation_part(*a, t as int).len() == 0,
        },
{
    if t == 0 {
        if a.auto_create_time {
            Some(AnnotationIR::AutoCreateTime)
        } else {
            None
        }
    } else if t == 1 {
        if a.auto_update_time {
            Some(AnnotationIR::AutoUpdateTime)
        } else {
            None
        }
    } else if t == 2 {
        if a.auto_increment {
            Some(AnnotationIR::AutoIncrement)
        } else {
            None
        }
    } else if t == 3 {
        match &a.choices {
            Some(c) => Some(AnnotationIR::Choices(clone_choices(c))),
            None => None,
        }
    } else if t == 4 {
        match &a.default_value {
            Some(DefaultValue::Boolean(b)) => Some(
                AnnotationIR::DefaultValue(DefaultValue::Boolean(*b)),
            ),
            Some(DefaultValue::Integer(i)) => Some(
                AnnotationIR::DefaultValue(DefaultValue::Integer(*i)),
            ),
            Some(DefaultValue::String(s)) => Some(
                AnnotationIR::DefaultValue(DefaultValue::String(s.clone())),
            ),
            None => None,
        }
    } else if t == 5 {
        match &a.foreign_key {
            Some(fk) => Some(
                AnnotationIR::ForeignKey {
                    table_name: fk.table_name.clone(),
                    column_name: fk.column_name.clone(),
                },
            ),
            None => None,
        }
    } else if t == 6 {
        if a.index {
            Some(AnnotationIR::Index)
        } else {
            None
        }
    } else if t == 7 {
        match a.max_length {
            Some(n) => Some(AnnotationIR::MaxLength(n)),
            None => None,
        }
    } else if t == 8 {
        if a.primary_key {
            Some(AnnotationIR::PrimaryKey)
        } else {
            None
        }
    } else if t == 9 {
        if a.unique {
            Some(AnnotationIR::Unique)
        } else {
            None
        }
    } else {
        if !a.nullable {
            Some(AnnotationIR::NotNull)
        } else {
            None
        }
    }
}

/// Export a field's annotation list.
#[verifier::loop_isolation(false)]
fn export_annotations(a: &Annotations) -> (r: Vec<AnnotationIR>)
    ensures
        annotations_match(r@, annotations_ir(*a)),
{
    let mut out: Vec<AnnotationIR> = Vec::new();
    let mut t: usize = 0;
    while t < 11
        invariant
            t <= annotation_slots(),
            annotations_match(out@, annotations_ir_prefix(*a, t as int)),
        decreases annotation_slots() - t,
    {
        match annotation_part_exec(a, t) {
            Some(x) => {
                let ghost pre = out@;
                let ghost y = annotation_part(*a, t as int)[0];
                out.push(x);
                proof {
                    lemma_prefix_step(*a, t as int);
                    lemma_match_push(pre, annotations_ir_prefix(*a, t as int), x, y);
                    assert(annotations_ir_prefix(*a, t as int).push(y) =~= annotations_ir_prefix(
                        *a,
                        t + 1 as int,
                    ));
                }
            },
            None => {
                proof {
                    lemma_prefix_step(*a, t as int);
                    assert(annotations_ir_prefix(*a, t + 1 as int) =~= annotations_ir_prefix(
                        *a,
                        t as int,
                    ));
                }
            },
        }
        t = t + 1;
    }
    proof {
        lemma_prefix_full(*a);
    }
    out
}

/// The annotation list contributed by the slots before `t`.
pub open spec fn annotations_ir_prefix(a: Annotations, t: int) -> Seq<AnnotationIR>
    decreases t,
{
    if t <= 0 {
        Seq::empty()
    } else {
        annotations_ir_prefix(a, t - 1) + annotation_part(a, t - 1)
    }
}

/// Extending a matched list by one matched element keeps it matched.
proof fn lemma_match_push(
    xs: Seq<AnnotationIR>,
    ys: Seq<AnnotationIR>,
    x: AnnotationIR,
    y: AnnotationIR,
)
    requires
        annotations_match(xs, ys),
        annotation_matches(x, y),
    ensures
        annotations_match(xs.push(x), ys.push(y)),
{
    assert forall|k: int| 0 <= k < xs.push(x).len() implies annotation_matches(
        #[trigger] xs.push(x)[k],
        ys.push(y)[k],
    ) by {
        if k < xs.len() {
            assert(xs.push(x)[k] == xs[k]);
            assert(ys.push(y)[k] == ys[k]);
        }
    }
}

/// One slot extends the prefix by its part.
proof fn lemma_prefix_step(a: Annotations, t: int)
    requires
        0 <= t,
    ensures
        annotations_ir_prefix(a, t + 1) == annotations_ir_prefix(a, t) + annotation_part(a, t),
{
}

/// The full prefix is the whole exported list.
proof fn lemma_prefix_full(a: Annotations)
    ensures
        annotations_ir_prefix(a, annotation_slots()) =~= annotations_ir(a),
{
    lemma_prefix_from(a, 0);
}

/// The list splits at any slot into its prefix and its remainder.
proof fn lemma_prefix_from(a: Annotations, t: int)
    requires
        0 <= t <= annotation_slots(),
    ensures
        annotations_ir_prefix(a, annotation_slots()) =~= annotations_ir_prefix(a, t)
            + annotations_ir_from(a, t),
    decreases annotation_slots() - t,
{
    if t == annotation_slots() {
    } else {
        lemma_prefix_from(a, t + 1);
        lemma_prefix_step(a, t);
    }
}

/// Export one field.
fn export_field(f: &FieldMeta) -> (r: FieldIR)
    ensures
        field_ir_matches(r, *f),
{
    FieldIR {
        name: f.name.clone(),
        db_type: f.db_type,
        annotations: export_annotations(&f.annotations),
        source_defined_at: clone_opt_source(&f.source),
    }
}

/// Export one model.
fn export_model(m: &ModelDescriptor) -> (r: ModelIR)
    ensures
        model_ir_matches(r, *m),
{
    let mut fields: Vec<FieldIR> = Vec::new();
    let mut i: usize = 0;
    while i < m.fields.len()
        invariant
            i <= m.fields@.len(),
            fields@.len() == i,
            forall|k: int|
                0 <= k < i ==> field_ir_matches(#[trigger] fields@[k], m.fields@[k]),
        decreases m.fields@.len() - i,
    {
        fields.push(export_field(&m.fields[i]));
        i = i + 1;
    }
    ModelIR {
        name: m.name.clone(),
        fields,
        source_defined_at: clone_opt_source(&m.source),
    }
}

/// Export the registry: one record per registered model, in registration
/// order, each a pure function of the registry snapshot.
pub fn export(registry: &Registry) -> (r: Vec<ModelIR>)
    ensures
        r@.len() == registry@.len(),
        forall|m: int|
            0 <= m < registry@.len() ==> model_ir_matches(#[trigger] r@[m], registry@[m]),
{
    let mut out: Vec<ModelIR> = Vec::new();
    let mut i: usize = 0;
    let n = registry.len();
    while i < n
        invariant
            n == registry@.len(),
            i <= n,
            out@.len() == i,
            forall|k: int| 0 <= k < i ==> model_ir_matches(#[trigger] out@[k], registry@[k]),
        decreases n - i,
    {
        out.push(export_model(registry.model_at(i)));
        i = i + 1;
    }
    out
}

} // verus!

//! Per-field annotations and the consistency checker (the "linter").
//!
//! Every field carries a flat record of optional attributes.  A handful of
//! combinations are contradictory; the linter rejects exactly those, at
//! definition time, so that a model with inconsistent metadata never becomes
//! queryable.

use vstd::prelude::*;

verus! {

/// A default value for a column.
pub enum DefaultValue {
    /// A boolean default.
    Boolean(bool),
    /// An integer default.
    Integer(i64),
    /// A string default.
    String(String),
}

/// A reference to another model's key column.
pub struct ForeignKeyAnnotation {
    /// The referenced table.
    pub table_name: String,
    /// The referenced column.
    pub column_name: String,
}

/// The flat record of a field's optional attributes.
pub struct Annotations {
    /// Set the column's value to the current time when the row is created.
    pub auto_create_time: bool,
    /// Set the column's value to the current time when the row is updated.
    pub auto_update_time: bool,
    /// Let the database choose the value by incrementing a counter.
    pub auto_increment: bool,
    /// Restrict the column to a closed set of strings.
    pub choices: Option<Vec<String>>,
    /// A default value for the column.
    pub default_value: Option<DefaultValue>,
    /// Build an index over the column.
    pub index: bool,
    /// The maximum length of the column's values, in bytes.
    pub max_length: Option<usize>,
    /// The column is the model's primary key.
    pub primary_key: bool,
    /// The column's values are unique across rows.
    pub unique: bool,
    /// The column admits null, i.e. the field's type is optional.
    pub nullable: bool,
    /// The column references another model's key column.
    pub foreign_key: Option<ForeignKeyAnnotation>,
}

/// The names of the annotations, used to report which pair of them clashed.
#[derive(Clone, Copy, PartialEq, Eq, Structural, Debug)]
pub enum AnnotationKind {
    /// `auto_create_time`
    AutoCreateTime,
    /// `auto_update_time`
    AutoUpdateTime,
    /// `auto_increment`
    AutoIncrement,
    /// `choices`
    Choices,
    /// `default_value`
    DefaultValue,
    /// `index`
    Index,
    /// `max_length`
    MaxLength,
    /// `primary_key`
    PrimaryKey,
    /// `unique`
    Unique,
    /// `foreign_key`
    ForeignKey,
}

/// Why the linter rejected an annotation record.
#[derive(Clone, Copy, PartialEq, Eq, Structural, Debug)]
pub enum AnnotationError {
    /// The two named annotations may not be combined.
    MutuallyExclusive(AnnotationKind, AnnotationKind),
    /// A primary key column may not be nullable.
    PrimaryKeyNullable,
    /// `auto_increment` is only allowed on a primary or unique key.
    AutoIncrementRequiresKey,
    /// `choices` requires a default value.
    ChoicesRequireDefault,
}

impl Annotations {
    /// The record with no attribute set.
    pub fn empty() -> (r: Annotations)
        ensures
            !r.auto_create_time,
            !r.auto_update_time,
            !r.auto_increment,
            r.choices is None,
            r.default_value is None,
            !r.index,
            r.max_length is None,
            !r.primary_key,
            !r.unique,
            !r.nullable,
            r.foreign_key is None,
    {
        Annotations {
            auto_create_time: false,
            auto_update_time: false,
            auto_increment: false,
            choices: None,
            default_value: None,
            index: false,
            max_length: None,
            primary_key: false,
            unique: false,
            nullable: false,
            foreign_key: None,
        }
    }

    /// Whether one of the attributes that clash with the automatic
    /// timestamps is set.
    pub open spec fn spec_has_auto_time_conflict(&self) -> bool {
        ||| self.auto_increment
        ||| self.choices is Some
        ||| self.default_value is Some
        ||| self.max_length is Some
        ||| self.primary_key
        ||| self.unique
    }

    /// The consistency rules on an annotation record, stated directly:
    /// an automatic timestamp excludes `auto_increment`, `choices`,
    /// `default_value`, `max_length`, `primary_key` and `unique`; a primary
    /// key is not nullable; `auto_increment` needs a primary or unique key;
    /// `choices` needs a default; and `max_length` excludes `choices`.
    pub open spec fn spec_consistent(&self) -> bool {
        &&& self.auto_create_time ==> !self.spec_has_auto_time_conflict()
        &&& self.auto_update_time ==> !self.spec_has_auto_time_conflict()
        &&& self.primary_key ==> !self.nullable
        &&& self.auto_increment ==> (self.primary_key || self.unique)
        &&& self.choices is Some ==> self.default_value is Some
        &&& !(self.max_length is Some && self.choices is Some)
    }

    /// The exact verdict of the linter, including which rule is reported
    /// when several are broken: the rules are examined in the order of
    /// [`Annotations::spec_consistent`], and within an automatic-timestamp
    /// clash the conflicting attribute is named in the order
    /// `auto_increment`, `choices`, `default_value`, `max_length`,
    /// `primary_key`, `unique`.
    pub open spec fn spec_check(&self) -> Result<(), AnnotationError> {
        if self.auto_create_time && self.spec_has_auto_time_conflict() {
            Err(AnnotationError::MutuallyExclusive(
                AnnotationKind::AutoCreateTime,
                self.spec_auto_time_conflict(),
            ))
        } else if self.auto_update_time && self.spec_has_auto_time_conflict() {
            Err(AnnotationError::MutuallyExclusive(
                AnnotationKind::AutoUpdateTime,
                self.spec_auto_time_conflict(),
            ))
        } else if self.primary_key && self.nullable {
            Err(AnnotationError::PrimaryKeyNullable)
        } else if self.auto_increment && !(self.primary_key || self.unique) {
            Err(AnnotationError::AutoIncrementRequiresKey)
        } else if self.choices is Some && self.default_value is None {
            Err(AnnotationError::ChoicesRequireDefault)
        } else if self.max_length is Some && self.choices is Some {
            Err(AnnotationError::MutuallyExclusive(
                AnnotationKind::MaxLength,
                AnnotationKind::Choices,
            ))
        } else {
            Ok(())
        }
    }

    /// The first attribute, in reporting order, that clashes with an
    /// automatic timestamp.
    pub open spec fn spec_auto_time_conflict(&self) -> AnnotationKind {
        if self.auto_increment {
            AnnotationKind::AutoIncrement
        } else if self.choices is Some {
            AnnotationKind::Choices
        } else if self.default_value is Some {
            AnnotationKind::DefaultValue
        } else if self.max_length is Some {
            AnnotationKind::MaxLength
        } else if self.primary_key {
            AnnotationKind::PrimaryKey
        } else {
            AnnotationKind::Unique
        }
    }

    /// Run the linter: accept the record exactly when it satisfies
    /// [`Annotations::spec_consistent`], and otherwise report the broken rule.
    pub fn check(&self) -> (r: Result<(), AnnotationError>)
        ensures
            r == self.spec_check(),
            r is Ok <==> self.spec_consistent(),
    {
        let conflict = self.auto_increment || self.choices.is_some() || self.default_value.is_some()
            || self.max_length.is_some() || self.primary_key || self.unique;
        if self.auto_create_time && conflict {
            Err(AnnotationError::MutuallyExclusive(
                AnnotationKind::AutoCreateTime,
                self.auto_time_conflict(),
            ))
        } else if self.auto_update_time && conflict {
            Err(AnnotationError::MutuallyExclusive(
                AnnotationKind::AutoUpdateTime,
                self.auto_time_conflict(),
            ))
        } else if self.primary_key && self.nullable {
            Err(AnnotationError::PrimaryKeyNullable)
        } else if self.auto_increment && !(self.primary_key || self.unique) {
            Err(AnnotationError::AutoIncrementRequiresKey)
        } else if self.choices.is_some() && self.default_value.is_none() {
            Err(AnnotationError::ChoicesRequireDefault)
        } else if self.max_length.is_some() && self.choices.is_some() {
            Err(AnnotationError::MutuallyExclusive(
                AnnotationKind::MaxLength,
                AnnotationKind::Choices,
            ))
        } else {
            Ok(())
        }
    }

    /// Executable twin of [`Annotations::spec_auto_time_conflict`].
    fn auto_time_conflict(&self) -> (r: AnnotationKind)
        ensures
            r == self.spec_auto_time_conflict(),
    {
        if self.auto_increment {
            AnnotationKind::AutoIncrement
        } else if self.choices.is_some() {
            AnnotationKind::Choices
        } else if self.default_value.is_some() {
            AnnotationKind::DefaultValue
        } else if self.max_length.is_some() {
            AnnotationKind::MaxLength
        } else if self.primary_key {
            AnnotationKind::PrimaryKey
        } else {
            AnnotationKind::Unique
        }
    }
}

/// The linter accepts an annotation record exactly when none of the listed
/// rules is broken: it rejects every listed combination and accepts every
/// record that breaks none of them.
pub proof fn lemma_linter_exact(a: Annotations)
    ensures
        a.spec_check() is Ok <==> a.spec_consistent(),
{
}

} // verus!

//! The annotation linter: every listed mutually-exclusive combination is
//! rejected, every combination not listed is accepted.

use rorm::annotations::{AnnotationError, AnnotationKind, Annotations, DefaultValue};

fn empty() -> Annotations {
    Annotations::empty()
}

#[test]
fn linter_accepts_empty() {
    assert!(empty().check().is_ok());
}

#[test]
fn linter_rejects_auto_create_time_with_auto_increment() {
    let mut a = empty();
    a.auto_create_time = true;
    a.auto_increment = true;
    a.primary_key = true;
    assert_eq!(
        a.check(),
        Err(AnnotationError::MutuallyExclusive(
            AnnotationKind::AutoCreateTime,
            AnnotationKind::AutoIncrement,
        ))
    );
}

#[test]
fn linter_rejects_auto_create_time_with_choices() {
    let mut a = empty();
    a.auto_create_time = true;
    a.choices = Some(vec!["x".to_string()]);
    a.default_value = Some(DefaultValue::String("x".to_string()));
    assert!(matches!(
        a.check(),
        Err(AnnotationError::MutuallyExclusive(
            AnnotationKind::AutoCreateTime,
            AnnotationKind::Choices,
        ))
    ));
}

#[test]
fn linter_rejects_auto_create_time_with_default() {
    let mut a = empty();
    a.auto_create_time = true;
    a.default_value = Some(DefaultValue::Boolean(true));
    assert!(matches!(
        a.check(),
        Err(AnnotationError::MutuallyExclusive(
            AnnotationKind::AutoCreateTime,
            AnnotationKind::DefaultValue,
        ))
    ));
}

#[test]
fn linter_rejects_auto_create_time_with_max_length() {
    let mut a = empty();
    a.auto_create_time = true;
    a.max_length = Some(255);
    assert!(matches!(
        a.check(),
        Err(AnnotationError::MutuallyExclusive(
            AnnotationKind::AutoCreateTime,
            AnnotationKind::MaxLength,
        ))
    ));
}

#[test]
fn linter_rejects_auto_create_time_with_primary_key() {
    let mut a = empty();
    a.auto_create_time = true;
    a.primary_key = true;
    assert!(matches!(
        a.check(),
        Err(AnnotationError::MutuallyExclusive(
            AnnotationKind::AutoCreateTime,
            AnnotationKind::PrimaryKey,
        ))
    ));
}

#[test]
fn linter_rejects_auto_create_time_with_unique() {
    let mut a = empty();
    a.auto_create_time = true;
    a.unique = true;
    assert!(matches!(
        a.check(),
        Err(AnnotationError::MutuallyExclusive(
            AnnotationKind::AutoCreateTime,
            AnnotationKind::Unique,
        ))
    ));
}

#[test]
fn linter_rejects_auto_update_time_with_auto_increment() {
    let mut a = empty();
    a.auto_update_time = true;
    a.auto_increment = true;
    a.primary_key = true;
    assert!(matches!(
        a.check(),
        Err(AnnotationError::MutuallyExclusive(
            AnnotationKind::AutoUpdateTime,
            AnnotationKind::AutoIncrement,
        ))
    ));
}

#[test]
fn linter_rejects_auto_update_time_with_unique() {
    let mut a = empty();
    a.auto_update_time = true;
    a.unique = true;
    assert!(matches!(
        a.check(),
        Err(AnnotationError::MutuallyExclusive(
            AnnotationKind::AutoUpdateTime,
            AnnotationKind::Unique,
        ))
    ));
}

#[test]
fn linter_rejects_nullable_primary_key() {
    let mut a = empty();
    a.primary_key = true;
    a.nullable = true;
    assert_eq!(a.check(), Err(AnnotationError::PrimaryKeyNullable));
}

#[test]
fn linter_rejects_auto_increment_without_key() {
    let mut a = empty();
    a.auto_increment = true;
    assert_eq!(a.check(), Err(AnnotationError::AutoIncrementRequiresKey));
}

#[test]
fn linter_rejects_choices_without_default() {
    let mut a = empty();
    a.choices = Some(vec!["a".to_string(), "b".to_string()]);
    assert_eq!(a.check(), Err(AnnotationError::ChoicesRequireDefault));
}

#[test]
fn linter_rejects_max_length_with_choices() {
    let mut a = empty();
    a.choices = Some(vec!["a".to_string()]);
    a.default_value = Some(DefaultValue::String("a".to_string()));
    a.max_length = Some(10);
    assert!(matches!(
        a.check(),
        Err(AnnotationError::MutuallyExclusive(
            AnnotationKind::MaxLength,
            AnnotationKind::Choices,
        ))
    ));
}

#[test]
fn linter_accepts_primary_key_with_auto_increment() {
    let mut a = empty();
    a.primary_key = true;
    a.auto_increment = true;
    assert!(a.check().is_ok());
}

#[test]
fn linter_accepts_unique_auto_increment() {
    let mut a = empty();
    a.unique = true;
    a.auto_increment = true;
    assert!(a.check().is_ok());
}

#[test]
fn linter_accepts_choices_with_default() {
    let mut a = empty();
    a.choices = Some(vec!["a".to_string(), "b".to_string()]);
    a.default_value = Some(DefaultValue::String("a".to_string()));
    assert!(a.check().is_ok());
}

#[test]
fn linter_accepts_max_length_alone() {
    let mut a = empty();
    a.max_length = Some(255);
    assert!(a.check().is_ok());
}

#[test]
fn linter_accepts_bare_auto_create_time() {
    let mut a = empty();
    a.auto_create_time = true;
    assert!(a.check().is_ok());
}

#[test]
fn linter_accepts_both_auto_times_together() {
    // The two automatic timestamps are not listed as mutually exclusive
    // with each other, only with the other six attributes.
    let mut a = empty();
    a.auto_create_time = true;
    a.auto_update_time = true;
    assert!(a.check().is_ok());
}

#[test]
fn linter_accepts_index_with_primary_key() {
    // `index` clashes with nothing in the listed rule set.
    let mut a = empty();
    a.index = true;
    a.primary_key = true;
    assert!(a.check().is_ok());
}

#[test]
fn linter_accepts_default_with_unique() {
    let mut a = empty();
    a.default_value = Some(DefaultValue::Integer(42));
    a.unique = true;
    assert!(a.check().is_ok());
}

//! Model registration and lookup: the round trip of registering a
//! descriptor and resolving its fields, and every definition-time error.

use rorm::annotations::{AnnotationError, Annotations};
use rorm::condition::FieldRef;
use rorm::patch::Patch;
use rorm::registry::string_db_type;
use rorm::registry::{DefinitionError, FieldKind, FieldMeta, ModelDescriptor, Registry};
use rorm::value::DbType;

fn scalar_field(name: &str, db_type: DbType) -> FieldMeta {
    FieldMeta {
        name: name.to_string(),
        db_type,
        kind: FieldKind::Scalar,
        annotations: Annotations::empty(),
        source: None,
    }
}

fn id_field() -> FieldMeta {
    let mut f = scalar_field("id", DbType::Int64);
    f.annotations.primary_key = true;
    f
}

fn name_field() -> FieldMeta {
    let mut f = scalar_field("name", DbType::VarChar);
    f.annotations.max_length = Some(255);
    f
}

fn user_model() -> ModelDescriptor {
    ModelDescriptor {
        name: "user".to_string(),
        fields: vec![id_field(), name_field()],
        source: None,
    }
}

#[test]
fn register_and_resolve_roundtrip() {
    let mut reg = Registry::new();
    assert!(reg.register(user_model()).is_ok());
    // Every field of the descriptor resolves ...
    let id = reg.resolve("user", "id").unwrap();
    assert_eq!(id.db_type, DbType::Int64);
    let name = reg.resolve("user", "name").unwrap();
    assert_eq!(name.db_type, DbType::VarChar);
    assert_eq!(name.annotations.max_length, Some(255));
    // ... and nothing else does.
    assert!(reg.resolve("user", "age").is_err());
    assert!(reg.resolve("account", "id").is_err());
}

#[test]
fn register_rejects_duplicate_model() {
    let mut reg = Registry::new();
    assert!(reg.register(user_model()).is_ok());
    assert_eq!(reg.register(user_model()), Err(DefinitionError::DuplicateModel));
    // The failed registration left the registry unchanged.
    assert!(reg.resolve("user", "id").is_ok());
    assert_eq!(reg.len(), 1);
}

#[test]
fn register_rejects_duplicate_field() {
    let mut reg = Registry::new();
    let m = ModelDescriptor {
        name: "user".to_string(),
        fields: vec![id_field(), name_field(), name_field()],
        source: None,
    };
    assert_eq!(reg.register(m), Err(DefinitionError::DuplicateField(2)));
}

#[test]
fn register_rejects_missing_primary_key() {
    let mut reg = Registry::new();
    let m = ModelDescriptor {
        name: "user".to_string(),
        fields: vec![name_field()],
        source: None,
    };
    assert_eq!(reg.register(m), Err(DefinitionError::NoPrimaryKey));
}

#[test]
fn register_rejects_two_primary_keys() {
    let mut reg = Registry::new();
    let mut other = id_field();
    other.name = "id2".to_string();
    let m = ModelDescriptor {
        name: "user".to_string(),
        fields: vec![id_field(), other],
        source: None,
    };
    assert_eq!(reg.register(m), Err(DefinitionError::MultiplePrimaryKeys));
}

#[test]
fn register_rejects_invalid_names() {
    let mut reg = Registry::new();
    let mut m = user_model();
    m.name = "user table".to_string();
    assert_eq!(reg.register(m), Err(DefinitionError::InvalidModelName));

    let mut m = user_model();
    m.fields[1].name = "na\"me".to_string();
    assert_eq!(reg.register(m), Err(DefinitionError::InvalidFieldName(1)));
}

#[test]
fn register_rejects_inconsistent_annotations() {
    let mut reg = Registry::new();
    let mut m = user_model();
    m.fields[1].annotations.auto_increment = true;
    assert_eq!(
        reg.register(m),
        Err(DefinitionError::InvalidAnnotations(
            1,
            AnnotationError::AutoIncrementRequiresKey,
        ))
    );
}

#[test]
fn foreign_key_inherits_target_max_length() {
    let mut reg = Registry::new();
    assert!(reg.register(user_model()).is_ok());
    let mut fk = scalar_field("author", DbType::VarChar);
    fk.kind = FieldKind::ForeignKey {
        table_name: "user".to_string(),
        column_name: "name".to_string(),
    };
    let m = ModelDescriptor {
        name: "post".to_string(),
        fields: vec![id_field(), fk],
        source: None,
    };
    assert!(reg.register(m).is_ok());
    let author = reg.resolve("post", "author").unwrap();
    assert_eq!(author.annotations.max_length, Some(255));
    let fk_anno = author.annotations.foreign_key.as_ref().unwrap();
    assert_eq!(fk_anno.table_name, "user");
    assert_eq!(fk_anno.column_name, "name");
}

#[test]
fn foreign_key_may_reference_own_model() {
    let mut reg = Registry::new();
    let mut reply_to = scalar_field("reply_to", DbType::Int64);
    reply_to.annotations.nullable = true;
    reply_to.kind = FieldKind::ForeignKey {
        table_name: "post".to_string(),
        column_name: "id".to_string(),
    };
    let m = ModelDescriptor {
        name: "post".to_string(),
        fields: vec![id_field(), reply_to],
        source: None,
    };
    assert!(reg.register(m).is_ok());
    assert!(reg.resolve("post", "reply_to").is_ok());
}

#[test]
fn register_rejects_unknown_foreign_key_target() {
    let mut reg = Registry::new();
    let mut fk = scalar_field("author", DbType::Int64);
    fk.kind = FieldKind::ForeignKey {
        table_name: "nowhere".to_string(),
        column_name: "id".to_string(),
    };
    let m = ModelDescriptor {
        name: "post".to_string(),
        fields: vec![id_field(), fk],
        source: None,
    };
    assert_eq!(reg.register(m), Err(DefinitionError::UnknownForeignKeyTarget(1)));
}

#[test]
fn back_ref_fields_are_registered() {
    let mut reg = Registry::new();
    assert!(reg.register(user_model()).is_ok());
    let mut posts = scalar_field("posts", DbType::Int64);
    posts.kind = FieldKind::BackRef;
    posts.annotations.nullable = true;
    let m = ModelDescriptor {
        name: "profile".to_string(),
        fields: vec![id_field(), posts],
        source: None,
    };
    assert!(reg.register(m).is_ok());
    assert!(reg.resolve("profile", "posts").is_ok());
}

#[test]
fn check_condition_validates_column_references() {
    let mut reg = Registry::new();
    reg.register(user_model()).unwrap();
    let good = FieldRef::new("name".to_string(), DbType::VarChar).equals("Bob").unwrap();
    assert!(reg.check_condition("user", &good));
    let bad = FieldRef::new("nam".to_string(), DbType::VarChar).equals("Bob").unwrap();
    assert!(!reg.check_condition("user", &bad));
    let empty_list = FieldRef::new("id".to_string(), DbType::Int64)
        .in_list(&Vec::<i64>::new())
        .unwrap();
    assert!(reg.check_condition("user", &empty_list));
}

#[test]
fn column_count_follows_the_field_kind() {
    assert_eq!(id_field().column_count(), 1);
    let mut back = scalar_field("posts", DbType::Int64);
    back.kind = FieldKind::BackRef;
    assert_eq!(back.column_count(), 0);
    let mut fk = scalar_field("author", DbType::Int64);
    fk.kind = FieldKind::ForeignKey {
        table_name: "user".to_string(),
        column_name: "id".to_string(),
    };
    assert_eq!(fk.column_count(), 1);
    let mut span = scalar_field("extent", DbType::Int64);
    span.kind = FieldKind::Composite(2);
    assert_eq!(span.column_count(), 2);
}

#[test]
fn patch_resolves_stable_field_indexes() {
    let mut reg = Registry::new();
    reg.register(user_model()).unwrap();
    let p = Patch::new(
        &reg,
        "user".to_string(),
        vec!["name".to_string(), "id".to_string()],
    )
    .unwrap();
    assert_eq!(p.len(), 2);
    assert_eq!(p.indexes, vec![1, 0]);
    assert!(p.contains_index(0));
    assert!(p.contains_index(1));
    assert!(!p.contains_index(2));
    assert!(p.contains_column("name"));
    assert!(!p.contains_column("age"));
    // An unknown column is a definition-time error.
    assert!(Patch::new(&reg, "user".to_string(), vec!["age".to_string()]).is_err());
}

#[test]
fn string_fields_with_choices_store_as_choice_columns() {
    let mut plain = Annotations::empty();
    plain.max_length = Some(32);
    assert_eq!(string_db_type(&plain), DbType::VarChar);
    let mut choice = Annotations::empty();
    choice.choices = Some(vec!["a".to_string()]);
    assert_eq!(string_db_type(&choice), DbType::Choices);
}

#[test]
fn primary_field_identifies_an_instance() {
    let mut reg = Registry::new();
    reg.register(user_model()).unwrap();
    let pk = reg.primary_field("user").unwrap();
    assert_eq!(pk.name, "id");
    // The identifying condition compares the primary key with a value.
    let cond = FieldRef::new(pk.name.clone(), pk.db_type).equals(42i64).unwrap();
    assert!(reg.check_condition("user", &cond));
    assert!(reg.primary_field("absent").is_err());
}

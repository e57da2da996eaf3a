//! The IMR exporter: a deterministic, purely derived snapshot of the
//! registry, with the not-null flag made explicit.

use rorm::annotations::{Annotations, DefaultValue};
use rorm::imr::{export, AnnotationIR};
use rorm::registry::{FieldKind, FieldMeta, ModelDescriptor, Registry};
use rorm::value::DbType;

fn field(name: &str, db_type: DbType, annotations: Annotations) -> FieldMeta {
    FieldMeta {
        name: name.to_string(),
        db_type,
        kind: FieldKind::Scalar,
        annotations,
        source: None,
    }
}

fn sample_registry() -> Registry {
    let mut reg = Registry::new();
    let mut id_annos = Annotations::empty();
    id_annos.primary_key = true;
    id_annos.auto_increment = true;
    let mut name_annos = Annotations::empty();
    name_annos.max_length = Some(255);
    let mut role_annos = Annotations::empty();
    role_annos.choices = Some(vec!["user".to_string(), "admin".to_string()]);
    role_annos.default_value = Some(DefaultValue::String("user".to_string()));
    let mut bio_annos = Annotations::empty();
    bio_annos.nullable = true;
    bio_annos.max_length = Some(1024);
    let m = ModelDescriptor {
        name: "user".to_string(),
        fields: vec![
            field("id", DbType::Int64, id_annos),
            field("name", DbType::VarChar, name_annos),
            field("role", DbType::Choices, role_annos),
            field("bio", DbType::VarChar, bio_annos),
        ],
        source: None,
    };
    reg.register(m).unwrap();
    reg
}

#[test]
fn export_follows_registration_order() {
    let mut reg = sample_registry();
    let mut id_annos = Annotations::empty();
    id_annos.primary_key = true;
    let m = ModelDescriptor {
        name: "post".to_string(),
        fields: vec![field("id", DbType::Int64, id_annos)],
        source: None,
    };
    reg.register(m).unwrap();
    let ir = export(&reg);
    assert_eq!(ir.len(), 2);
    assert_eq!(ir[0].name, "user");
    assert_eq!(ir[1].name, "post");
}

#[test]
fn export_lists_fields_in_declaration_order() {
    let ir = export(&sample_registry());
    let names: Vec<&str> = ir[0].fields.iter().map(|f| f.name.as_str()).collect();
    assert_eq!(names, vec!["id", "name", "role", "bio"]);
}

#[test]
fn export_appends_not_null_for_non_nullable_fields() {
    let ir = export(&sample_registry());
    let id = &ir[0].fields[0];
    assert!(matches!(id.annotations[0], AnnotationIR::AutoIncrement));
    assert!(matches!(id.annotations[1], AnnotationIR::PrimaryKey));
    assert!(matches!(id.annotations[2], AnnotationIR::NotNull));
    assert_eq!(id.annotations.len(), 3);
    // A nullable field gets no NotNull entry.
    let bio = &ir[0].fields[3];
    assert!(matches!(bio.annotations[0], AnnotationIR::MaxLength(1024)));
    assert_eq!(bio.annotations.len(), 1);
}

#[test]
fn export_carries_choices_and_defaults() {
    let ir = export(&sample_registry());
    let role = &ir[0].fields[2];
    assert_eq!(role.db_type, DbType::Choices);
    assert!(matches!(
        &role.annotations[0],
        AnnotationIR::Choices(c) if c == &vec!["user".to_string(), "admin".to_string()]
    ));
    assert!(matches!(
        &role.annotations[1],
        AnnotationIR::DefaultValue(DefaultValue::String(s)) if s == "user"
    ));
    assert!(matches!(role.annotations[2], AnnotationIR::NotNull));
}

#[test]
fn export_carries_the_merged_foreign_key() {
    let mut reg = sample_registry();
    let mut pk = Annotations::empty();
    pk.primary_key = true;
    let mut author = field("author", DbType::VarChar, Annotations::empty());
    author.kind = FieldKind::ForeignKey {
        table_name: "user".to_string(),
        column_name: "name".to_string(),
    };
    let m = ModelDescriptor {
        name: "post".to_string(),
        fields: vec![field("id", DbType::Int64, pk), author],
        source: None,
    };
    reg.register(m).unwrap();
    let ir = export(&reg);
    let author_ir = &ir[1].fields[1];
    assert!(matches!(
        &author_ir.annotations[0],
        AnnotationIR::ForeignKey { table_name, column_name }
            if table_name == "user" && column_name == "name"
    ));
    // The merge inherited the target's maximum length.
    assert!(matches!(author_ir.annotations[1], AnnotationIR::MaxLength(255)));
}

use formula_y::record::{
    DeclaredField, DeclaredType, GenericArgument, PathArguments, PathSegment, RecordDefinition,
    RecordShape,
};
use formula_y::schema::{classify, introspect, CompileError, FieldKind};
use formula_y::util::{
    append_to_ident, field_has_type, field_is_bool, field_is_option, field_is_option_bool,
    field_is_option_string, field_is_optionized, field_is_string, get_struct_fields, is_optionized,
    is_type, option_inner,
};

fn segment(name: &str, arguments: PathArguments) -> PathSegment {
    PathSegment { ident: name.to_string(), arguments }
}

fn plain(name: &str) -> DeclaredType {
    DeclaredType::Path { qualified: false, segments: vec![segment(name, PathArguments::Empty)] }
}

fn generic(name: &str, arguments: Vec<GenericArgument>) -> DeclaredType {
    DeclaredType::Path {
        qualified: false,
        segments: vec![segment(name, PathArguments::AngleBracketed(arguments))],
    }
}

fn option_of(inner: DeclaredType) -> DeclaredType {
    generic("Option", vec![GenericArgument::Type(inner)])
}

fn field(name: &str, ty: DeclaredType) -> DeclaredField {
    DeclaredField { name: name.to_string(), ty }
}

fn record(name: &str, fields: Vec<DeclaredField>) -> RecordDefinition {
    RecordDefinition { name: name.to_string(), shape: RecordShape::Named(fields) }
}

#[test]
fn classify_string_is_text() {
    assert_eq!(classify(&plain("String")), Ok(FieldKind::Text));
}

#[test]
fn classify_bool_is_boolean() {
    assert_eq!(classify(&plain("bool")), Ok(FieldKind::Boolean));
}

#[test]
fn classify_option_string_is_optional_text() {
    assert_eq!(classify(&option_of(plain("String"))), Ok(FieldKind::OptionalText));
}

#[test]
fn classify_option_bool_is_optional_boolean() {
    assert_eq!(classify(&option_of(plain("bool"))), Ok(FieldKind::OptionalBoolean));
}

#[test]
fn classify_numeric_is_unsupported() {
    assert_eq!(classify(&plain("u32")), Err(CompileError::UnsupportedFieldType));
    assert_eq!(classify(&plain("f64")), Err(CompileError::UnsupportedFieldType));
}

#[test]
fn classify_option_of_unsupported_is_unsupported() {
    assert_eq!(classify(&option_of(plain("u32"))), Err(CompileError::UnsupportedFieldType));
    assert_eq!(
        classify(&option_of(option_of(plain("String")))),
        Err(CompileError::UnsupportedFieldType)
    );
}

#[test]
fn classify_collections_and_records_are_unsupported() {
    assert_eq!(
        classify(&generic("Vec", vec![GenericArgument::Type(plain("String"))])),
        Err(CompileError::UnsupportedFieldType)
    );
    assert_eq!(classify(&plain("Address")), Err(CompileError::UnsupportedFieldType));
    assert_eq!(classify(&DeclaredType::Other), Err(CompileError::UnsupportedFieldType));
}

#[test]
fn classify_longer_path_is_unsupported() {
    let ty = DeclaredType::Path {
        qualified: false,
        segments: vec![
            segment("std", PathArguments::Empty),
            segment("string", PathArguments::Empty),
            segment("String", PathArguments::Empty),
        ],
    };
    assert_eq!(classify(&ty), Err(CompileError::UnsupportedFieldType));
    let empty = DeclaredType::Path { qualified: false, segments: vec![] };
    assert_eq!(classify(&empty), Err(CompileError::UnsupportedFieldType));
}

#[test]
fn classify_malformed_option_is_unsupported() {
    assert_eq!(classify(&plain("Option")), Err(CompileError::UnsupportedFieldType));
    assert_eq!(classify(&generic("Option", vec![])), Err(CompileError::UnsupportedFieldType));
    assert_eq!(
        classify(&generic("Option", vec![GenericArgument::Other])),
        Err(CompileError::UnsupportedFieldType)
    );
    assert_eq!(
        classify(&generic(
            "Option",
            vec![GenericArgument::Type(plain("String")), GenericArgument::Type(plain("bool"))]
        )),
        Err(CompileError::UnsupportedFieldType)
    );
    let parenthesized = DeclaredType::Path {
        qualified: false,
        segments: vec![segment("Option", PathArguments::Parenthesized)],
    };
    assert_eq!(classify(&parenthesized), Err(CompileError::UnsupportedFieldType));
    let qualified = DeclaredType::Path {
        qualified: true,
        segments: vec![segment(
            "Option",
            PathArguments::AngleBracketed(vec![GenericArgument::Type(plain("String"))]),
        )],
    };
    assert_eq!(classify(&qualified), Err(CompileError::UnsupportedFieldType));
}

#[test]
fn is_type_compares_the_single_segment() {
    assert!(is_type("String", &plain("String")));
    assert!(!is_type("String", &plain("Strin")));
    assert!(!is_type("String", &plain("string")));
    assert!(!is_type("String", &plain("bool")));
    assert!(!is_type("String", &DeclaredType::Other));
    assert!(is_type("Option", &option_of(plain("bool"))));
}

#[test]
fn option_inner_gives_the_wrapped_type() {
    let ty = option_of(plain("bool"));
    let inner = option_inner(&ty).expect("a well-formed option");
    assert!(is_type("bool", inner));
    assert!(option_inner(&plain("bool")).is_none());
    assert!(option_inner(&plain("Option")).is_none());
    assert!(is_optionized("bool", &ty));
    assert!(!is_optionized("String", &ty));
}

#[test]
fn field_predicates() {
    let email = field("email", plain("String"));
    let agree = field("agree_to_terms", plain("bool"));
    let name = field("name", option_of(plain("String")));
    let subscribe = field("subscribe", option_of(plain("bool")));
    let age = field("age", option_of(plain("u32")));

    assert!(field_is_string(&email));
    assert!(!field_is_string(&agree));
    assert!(!field_is_string(&name));

    assert!(field_is_bool(&agree));
    assert!(!field_is_bool(&email));
    assert!(!field_is_bool(&subscribe));

    assert!(field_is_option(&name));
    assert!(field_is_option(&subscribe));
    assert!(field_is_option(&age));
    assert!(!field_is_option(&email));

    assert!(field_is_option_string(&name));
    assert!(!field_is_option_string(&subscribe));
    assert!(!field_is_option_string(&age));
    assert!(!field_is_option_string(&email));

    assert!(field_is_option_bool(&subscribe));
    assert!(!field_is_option_bool(&name));
    assert!(!field_is_option_bool(&age));
    assert!(!field_is_option_bool(&agree));

    assert!(field_has_type("u32", &field("n", plain("u32"))));
    assert!(field_is_optionized("u32", &age));
    assert!(!field_is_optionized("u32", &name));
}

#[test]
fn append_to_ident_concatenates() {
    assert_eq!(append_to_ident("Name", "Builder"), "NameBuilder");
    assert_eq!(append_to_ident("Data", "Form"), "DataForm");
    assert_eq!(append_to_ident("DataForm", "Msg"), "DataFormMsg");
    assert_eq!(append_to_ident("", "Props"), "Props");
    assert_eq!(append_to_ident("Data", ""), "Data");
}

#[test]
fn get_struct_fields_of_named_struct() {
    let definition = record(
        "Data",
        vec![field("email", plain("String")), field("agree_to_terms", plain("bool"))],
    );
    let fields = get_struct_fields(&definition).expect("named fields");
    assert_eq!(fields.len(), 2);
    assert_eq!(fields[0].name, "email");
    assert_eq!(fields[1].name, "agree_to_terms");
}

#[test]
fn get_struct_fields_rejects_other_shapes() {
    for shape in [RecordShape::Tuple, RecordShape::Unit, RecordShape::Enumeration, RecordShape::Union]
    {
        let definition = RecordDefinition { name: "Data".to_string(), shape };
        assert_eq!(
            get_struct_fields(&definition).err(),
            Some(CompileError::UnsupportedRecordShape)
        );
    }
}

#[test]
fn introspect_keeps_names_kinds_and_order() {
    let definition = record(
        "Data",
        vec![
            field("name", option_of(plain("String"))),
            field("email", plain("String")),
            field("agree_to_terms", plain("bool")),
            field("subscribe_to_updates", option_of(plain("bool"))),
        ],
    );
    let schema = introspect(&definition).expect("a supported record");
    assert_eq!(schema.len(), 4);
    let expected = [
        ("name", FieldKind::OptionalText),
        ("email", FieldKind::Text),
        ("agree_to_terms", FieldKind::Boolean),
        ("subscribe_to_updates", FieldKind::OptionalBoolean),
    ];
    for (i, (name, kind)) in expected.iter().enumerate() {
        assert_eq!(schema.descriptor(i).name, *name);
        assert_eq!(schema.descriptor(i).kind, *kind);
    }
}

#[test]
fn introspect_of_empty_struct_is_empty_schema() {
    let schema = introspect(&record("Nothing", vec![])).expect("a supported record");
    assert_eq!(schema.len(), 0);
}

#[test]
fn introspect_rejects_other_shapes() {
    for shape in [RecordShape::Tuple, RecordShape::Unit, RecordShape::Enumeration, RecordShape::Union]
    {
        let definition = RecordDefinition { name: "Data".to_string(), shape };
        assert_eq!(introspect(&definition).err(), Some(CompileError::UnsupportedRecordShape));
    }
}

#[test]
fn introspect_rejects_unsupported_field() {
    let definition = record(
        "Data",
        vec![field("email", plain("String")), field("age", plain("u32"))],
    );
    assert_eq!(introspect(&definition).err(), Some(CompileError::UnsupportedFieldType));
}

#[test]
fn introspect_rejects_unsupported_field_in_any_position() {
    for bad in 0..3 {
        let mut fields = Vec::new();
        for i in 0..3 {
            let ty = if i == bad { plain("u32") } else { plain("bool") };
            fields.push(field(&format!("f{}", i), ty));
        }
        assert_eq!(
            introspect(&record("Data", fields)).err(),
            Some(CompileError::UnsupportedFieldType)
        );
    }
}

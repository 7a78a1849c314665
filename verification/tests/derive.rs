use formula_y::naming::Element;
use formula_y::record::{
    DeclaredField, DeclaredType, GenericArgument, PathArguments, PathSegment, RecordDefinition,
    RecordShape,
};
use formula_y::controller::FormController;
use formula_y::schema::{CompileError, FieldDescriptor, FieldKind};
use formula_y::{
    class_method_name, get_label_and_input_classes, label_and_input_classes_from, plan_field,
    plan_field_from,
};

fn plain(name: &str) -> DeclaredType {
    DeclaredType::Path {
        qualified: false,
        segments: vec![PathSegment { ident: name.to_string(), arguments: PathArguments::Empty }],
    }
}

fn option_of(inner: DeclaredType) -> DeclaredType {
    DeclaredType::Path {
        qualified: false,
        segments: vec![PathSegment {
            ident: "Option".to_string(),
            arguments: PathArguments::AngleBracketed(vec![GenericArgument::Type(inner)]),
        }],
    }
}

fn record(name: &str, fields: Vec<(&str, DeclaredType)>) -> RecordDefinition {
    let fields = fields
        .into_iter()
        .map(|(name, ty)| DeclaredField { name: name.to_string(), ty })
        .collect();
    RecordDefinition { name: name.to_string(), shape: RecordShape::Named(fields) }
}

#[test]
fn label_and_input_classes_of_a_field() {
    let (txt_label, txt_input, bool_label, bool_input) =
        get_label_and_input_classes("agree_to_terms");
    assert_eq!(txt_label, "agree-to-terms-label formula-y-txt-label");
    assert_eq!(txt_input, "agree-to-terms-input formula-y-txt-input");
    assert_eq!(bool_label, "agree-to-terms-label formula-y-checkbox-label");
    assert_eq!(bool_input, "agree-to-terms-input formula-y-checkbox-input");
}

#[test]
fn label_and_input_classes_from_kebab_name() {
    let (txt_label, txt_input, bool_label, bool_input) = label_and_input_classes_from("first-name");
    assert_eq!(txt_label, "first-name-label formula-y-txt-label");
    assert_eq!(txt_input, "first-name-input formula-y-txt-input");
    assert_eq!(bool_label, "first-name-label formula-y-checkbox-label");
    assert_eq!(bool_input, "first-name-input formula-y-checkbox-input");
}

#[test]
fn class_method_names() {
    assert_eq!(class_method_name("email", Element::Label), "get_class_for_email_label");
    assert_eq!(class_method_name("email", Element::Input), "get_class_for_email");
    assert_eq!(
        class_method_name("agree_to_terms", Element::Label),
        "get_class_for_agree_to_terms_label"
    );
}

#[test]
fn plan_of_a_field() {
    let descriptor =
        FieldDescriptor { name: "agree_to_terms".to_string(), kind: FieldKind::Boolean };
    let plan = plan_field(&descriptor);
    assert_eq!(plan.name, "agree_to_terms");
    assert_eq!(plan.kind, FieldKind::Boolean);
    assert_eq!(plan.action_name, "UpdateAgreeToTerms");
    assert_eq!(plan.label, "Agree To Terms");
    assert_eq!(plan.label_class, "agree-to-terms-label formula-y-checkbox-label");
    assert_eq!(plan.input_class, "agree-to-terms-input formula-y-checkbox-input");
    assert_eq!(plan.label_class_method, "get_class_for_agree_to_terms_label");
    assert_eq!(plan.input_class_method, "get_class_for_agree_to_terms");
}

#[test]
fn plan_of_a_field_from_given_names() {
    let descriptor = FieldDescriptor { name: "nick".to_string(), kind: FieldKind::OptionalText };
    let plan = plan_field_from(&descriptor, "Camel", "A Label".to_string(), "a-class");
    assert_eq!(plan.name, "nick");
    assert_eq!(plan.kind, FieldKind::OptionalText);
    assert_eq!(plan.action_name, "UpdateCamel");
    assert_eq!(plan.label, "A Label");
    assert_eq!(plan.label_class, "a-class-label formula-y-txt-label");
    assert_eq!(plan.input_class, "a-class-input formula-y-txt-input");
    assert_eq!(plan.label_class_method, "get_class_for_nick_label");
    assert_eq!(plan.input_class_method, "get_class_for_nick");
}

#[test]
fn derive_names_the_generated_artifacts() {
    let definition = record(
        "Data",
        vec![
            ("name", option_of(plain("String"))),
            ("email", plain("String")),
            ("agree_to_terms", plain("bool")),
            ("subscribe_to_updates", option_of(plain("bool"))),
        ],
    );
    let plan = formula_y::derive(&definition).expect("a supported record");
    assert_eq!(plan.component_ident, "DataForm");
    assert_eq!(plan.component_msg_ident, "DataFormMsg");
    assert_eq!(plan.component_prop_ident, "DataFormProps");
    assert_eq!(plan.form_class, "data-form formula-y-form");
    assert_eq!(plan.schema.len(), 4);
    assert_eq!(plan.fields.len(), 4);

    let expected = [
        ("name", FieldKind::OptionalText, "UpdateName", "Name", "txt"),
        ("email", FieldKind::Text, "UpdateEmail", "Email", "txt"),
        ("agree_to_terms", FieldKind::Boolean, "UpdateAgreeToTerms", "Agree To Terms", "checkbox"),
        (
            "subscribe_to_updates",
            FieldKind::OptionalBoolean,
            "UpdateSubscribeToUpdates",
            "Subscribe To Updates",
            "checkbox",
        ),
    ];
    for (i, (name, kind, action, label, family)) in expected.iter().enumerate() {
        let field = &plan.fields[i];
        let kebab = name.replace('_', "-");
        assert_eq!(field.name, *name);
        assert_eq!(field.kind, *kind);
        assert_eq!(field.action_name, *action);
        assert_eq!(field.label, *label);
        assert_eq!(field.label_class, format!("{}-label formula-y-{}-label", kebab, family));
        assert_eq!(field.input_class, format!("{}-input formula-y-{}-input", kebab, family));
        assert_eq!(field.label_class_method, format!("get_class_for_{}_label", name));
        assert_eq!(field.input_class_method, format!("get_class_for_{}", name));
        assert_eq!(plan.schema.descriptor(i).name, *name);
        assert_eq!(plan.schema.descriptor(i).kind, *kind);
    }
}

#[test]
fn derive_of_camel_case_record_name() {
    let plan = formula_y::derive(&record("SignUp", vec![])).expect("a supported record");
    assert_eq!(plan.component_ident, "SignUpForm");
    assert_eq!(plan.component_msg_ident, "SignUpFormMsg");
    assert_eq!(plan.component_prop_ident, "SignUpFormProps");
    assert_eq!(plan.form_class, "sign-up-form formula-y-form");
    assert!(plan.fields.is_empty());
}

#[test]
fn derive_rejects_unsupported_field_type() {
    let definition = record("Data", vec![("email", plain("String")), ("age", plain("u32"))]);
    assert_eq!(formula_y::derive(&definition).err(), Some(CompileError::UnsupportedFieldType));
    let definition = record("Data", vec![("age", option_of(plain("u32")))]);
    assert_eq!(formula_y::derive(&definition).err(), Some(CompileError::UnsupportedFieldType));
}

#[test]
fn derive_rejects_unsupported_record_shape() {
    for shape in [RecordShape::Tuple, RecordShape::Unit, RecordShape::Enumeration, RecordShape::Union]
    {
        let definition = RecordDefinition { name: "Data".to_string(), shape };
        assert_eq!(formula_y::derive(&definition).err(), Some(CompileError::UnsupportedRecordShape));
    }
}

#[test]
fn derived_schema_makes_a_controller() {
    let definition =
        record("Data", vec![("email", plain("String")), ("agree_to_terms", plain("bool"))]);
    let plan = formula_y::derive(&definition).expect("a supported record");
    let controller = FormController::new(plan.schema, None, None).expect("a controller");
    assert_eq!(controller.values().values.len(), 2);
    assert!(!controller.submitted());
}

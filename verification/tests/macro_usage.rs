use unwrapped::model::{FieldDef, FieldTy, SourceStruct};
use unwrapped::{Opts, UnwrappedProcUsageOpts};

#[test]
fn test_macro_usage() {
    let thing = SourceStruct {
        name: "Thing".to_string(),
        generics: vec![],
        attrs: vec![],
        fields: vec![
            FieldDef {
                name: "id".to_string(),
                ty: FieldTy::Optional("i32".to_string()),
                skip: false,
                default: None,
            },
            FieldDef {
                name: "name".to_string(),
                ty: FieldTy::Optional("String".to_string()),
                skip: false,
                default: None,
            },
        ],
    };

    let fields_to_unwrap = vec![("id".to_string(), true), ("name".to_string(), false)];

    let mut model_options = Opts::new();
    model_options.suffix = Some("FormValueHolder".to_string());

    let macro_options = UnwrappedProcUsageOpts::new(fields_to_unwrap, None);

    let model_struct = unwrapped::unwrapped(&thing, Some(model_options), macro_options);

    assert_eq!(model_struct.generated.name, "ThingFormValueHolder");
    assert_eq!(
        model_struct.generated.derives,
        vec!["Clone".to_string(), "Debug".to_string(), "Default".to_string()]
    );
    assert_eq!(model_struct.generated.fields.len(), 2);
    assert_eq!(model_struct.generated.fields[0].name, "id");
    assert!(matches!(&model_struct.generated.fields[0].ty, FieldTy::Plain(t) if t == "i32"));
    assert_eq!(model_struct.generated.fields[1].name, "name");
    assert!(matches!(&model_struct.generated.fields[1].ty, FieldTy::Optional(t) if t == "String"));
}

use unwrapped::convert::apply_routine;
use unwrapped::model::{FieldDef, FieldTy, GenericParamDef, SourceStruct};
use unwrapped::values::{FieldVal, Value, ValueKind};
use unwrapped::{Opts, Unwrapped, UnwrappedError, UnwrappedProcUsageOpts, Wrapped};

fn source(name: &str, fields: Vec<FieldDef>) -> SourceStruct {
    SourceStruct { name: name.to_string(), generics: vec![], attrs: vec![], fields }
}

fn field(name: &str, ty: FieldTy) -> FieldDef {
    FieldDef { name: name.to_string(), ty, skip: false, default: None }
}

fn opt_ty(inner: &str) -> FieldTy {
    FieldTy::Optional(inner.to_string())
}

fn plain_ty(text: &str) -> FieldTy {
    FieldTy::Plain(text.to_string())
}

fn as_req_int(fv: &FieldVal) -> i64 {
    match fv {
        FieldVal::Req(Value::Int(n)) => *n,
        _ => panic!("expected a required integer"),
    }
}

fn as_req_text(fv: &FieldVal) -> String {
    match fv {
        FieldVal::Req(Value::Text(s)) => s.clone(),
        _ => panic!("expected a required string"),
    }
}

fn as_req_flag(fv: &FieldVal) -> bool {
    match fv {
        FieldVal::Req(Value::Flag(b)) => *b,
        _ => panic!("expected a required flag"),
    }
}

fn as_req_bytes(fv: &FieldVal) -> Vec<u8> {
    match fv {
        FieldVal::Req(Value::Bytes(v)) => v.clone(),
        _ => panic!("expected required bytes"),
    }
}

fn as_opt_int(fv: &FieldVal) -> Option<i64> {
    match fv {
        FieldVal::Opt(None) => None,
        FieldVal::Opt(Some(Value::Int(n))) => Some(*n),
        _ => panic!("expected an optional integer"),
    }
}

fn as_opt_text(fv: &FieldVal) -> Option<String> {
    match fv {
        FieldVal::Opt(None) => None,
        FieldVal::Opt(Some(Value::Text(s))) => Some(s.clone()),
        _ => panic!("expected an optional string"),
    }
}

fn as_opt_flag(fv: &FieldVal) -> Option<bool> {
    match fv {
        FieldVal::Opt(None) => None,
        FieldVal::Opt(Some(Value::Flag(b))) => Some(*b),
        _ => panic!("expected an optional flag"),
    }
}

fn as_opt_bytes(fv: &FieldVal) -> Option<Vec<u8>> {
    match fv {
        FieldVal::Opt(None) => None,
        FieldVal::Opt(Some(Value::Bytes(v))) => Some(v.clone()),
        _ => panic!("expected optional bytes"),
    }
}

#[test]
fn test_unwrapped_from_defaults() {
    let with_defaults = source(
        "WithDefaults",
        vec![
            field("val1", opt_ty("i32")),
            field("val2", opt_ty("String")),
            field("val3", plain_ty("String")),
            field("val4", opt_ty("Vec<u8>")),
        ],
    );
    let artifact =
        unwrapped::unwrapped(&with_defaults, None, UnwrappedProcUsageOpts::new(vec![], None));
    assert_eq!(artifact.generated.name, "WithDefaultsUw");

    let original = vec![
        FieldVal::Opt(None),
        FieldVal::Opt(Some(Value::Text("hello".to_string()))),
        FieldVal::Req(Value::Text("world".to_string())),
        FieldVal::Opt(None),
    ];
    let kinds = vec![ValueKind::Int, ValueKind::Text, ValueKind::Text, ValueKind::Bytes];

    let direct = artifact.direct.as_ref().expect("direct conversion expected");
    let converted = apply_routine(direct, &original, &kinds).expect("infallible conversion");
    assert_eq!(as_req_int(&converted[0]), 0);
    assert_eq!(as_req_text(&converted[1]), "hello".to_string());
    assert_eq!(as_req_text(&converted[2]), "world".to_string());
    assert_eq!(as_req_bytes(&converted[3]), Vec::<u8>::new());

    let inverse = artifact.inverse.as_ref().expect("inverse conversion expected");
    let converted_back = apply_routine(inverse, &converted, &kinds).expect("infallible inverse");
    assert_eq!(as_opt_int(&converted_back[0]), Some(0));
    assert_eq!(as_opt_text(&converted_back[1]), Some("hello".to_string()));
    assert_eq!(as_req_text(&converted_back[2]), "world".to_string());
    assert_eq!(as_opt_bytes(&converted_back[3]), Some(Vec::new()));
}

#[test]
fn test_unwrapped_simple_struct() {
    let simple = source(
        "Simple",
        vec![
            field("field1", opt_ty("i32")),
            field("field2", plain_ty("String")),
            field("field3", opt_ty("u64")),
        ],
    );
    let artifact = unwrapped::unwrapped(&simple, None, UnwrappedProcUsageOpts::new(vec![], None));
    let kinds = vec![ValueKind::Int, ValueKind::Text, ValueKind::Int];

    let original = vec![
        FieldVal::Opt(Some(Value::Int(10))),
        FieldVal::Req(Value::Text("hello".to_string())),
        FieldVal::Opt(Some(Value::Int(100))),
    ];
    let fallible = artifact.fallible.as_ref().expect("fallible conversion expected");
    let converted = apply_routine(fallible, &original, &kinds).unwrap();
    assert_eq!(as_req_int(&converted[0]), 10);
    assert_eq!(as_req_text(&converted[1]), "hello".to_string());
    assert_eq!(as_req_int(&converted[2]), 100);

    let inverse = artifact.inverse.as_ref().expect("inverse conversion expected");
    let converted_back = apply_routine(inverse, &converted, &kinds).unwrap();
    assert_eq!(as_opt_int(&converted_back[0]), Some(10));
    assert_eq!(as_req_text(&converted_back[1]), "hello".to_string());
    assert_eq!(as_opt_int(&converted_back[2]), Some(100));

    let original_fail = vec![
        FieldVal::Opt(None),
        FieldVal::Req(Value::Text("world".to_string())),
        FieldVal::Opt(Some(Value::Int(200))),
    ];
    let result = apply_routine(fallible, &original_fail, &kinds);
    assert!(result.is_err());
    assert_eq!(result.unwrap_err().field_name, "field1".to_string());
}

#[test]
fn test_unwrapped_with_custom_name() {
    let mut opts0 = Opts::new();
    opts0.prefix = Some("A".to_string());
    opts0.name = Some("UserUnwrapped".to_string());
    opts0.suffix = Some("c".to_string());
    assert_eq!(opts0.unwrapped_ident(&"User0".to_string()), "AUserUnwrappedc");

    let mut opts1 = Opts::new();
    opts1.prefix = Some("Bad".to_string());
    assert_eq!(opts1.unwrapped_ident(&"User1".to_string()), "BadUser1");

    let mut opts2 = Opts::new();
    opts2.suffix = Some("Something".to_string());
    assert_eq!(opts2.unwrapped_ident(&"User2".to_string()), "User2Something");

    let mut opts3 = Opts::new();
    opts3.prefix = Some("Bad".to_string());
    opts3.suffix = Some("Something".to_string());
    assert_eq!(opts3.unwrapped_ident(&"User3".to_string()), "BadUser3Something");

    let opts4 = Opts::new();
    assert_eq!(opts4.unwrapped_ident(&"User4".to_string()), "User4Uw");
}

#[test]
fn test_unwrapped_with_generics() {
    let generic = SourceStruct {
        name: "Generic".to_string(),
        generics: vec![GenericParamDef::Type("T".to_string())],
        attrs: vec![],
        fields: vec![field("value", opt_ty("T")), field("id", plain_ty("i32"))],
    };
    let artifact = unwrapped::unwrapped(&generic, None, UnwrappedProcUsageOpts::new(vec![], None));
    assert_eq!(artifact.generated.name, "GenericUw");
    assert_eq!(artifact.generated.generics.len(), 1);
    let kinds = vec![ValueKind::Flag, ValueKind::Int];

    let original = vec![FieldVal::Opt(Some(Value::Flag(true))), FieldVal::Req(Value::Int(123))];
    let fallible = artifact.fallible.as_ref().unwrap();
    let converted = apply_routine(fallible, &original, &kinds).unwrap();
    assert_eq!(as_req_flag(&converted[0]), true);
    assert_eq!(as_req_int(&converted[1]), 123);

    let inverse = artifact.inverse.as_ref().unwrap();
    let converted_back = apply_routine(inverse, &converted, &kinds).unwrap();
    assert_eq!(as_opt_flag(&converted_back[0]), Some(true));
    assert_eq!(as_req_int(&converted_back[1]), 123);

    let original_fail = vec![FieldVal::Opt(None), FieldVal::Req(Value::Int(456))];
    let result = apply_routine(fallible, &original_fail, &kinds);
    assert!(result.is_err());
}

#[test]
fn test_struct_with_no_options() {
    let no_options = source("NoOptions", vec![field("a", plain_ty("i32")), field("b", plain_ty("bool"))]);
    let artifact =
        unwrapped::unwrapped(&no_options, None, UnwrappedProcUsageOpts::new(vec![], None));
    assert_eq!(artifact.generated.name, "NoOptionsUw");
    let kinds = vec![ValueKind::Int, ValueKind::Flag];

    let original = vec![FieldVal::Req(Value::Int(1)), FieldVal::Req(Value::Flag(false))];
    let fallible = artifact.fallible.as_ref().unwrap();
    let converted = apply_routine(fallible, &original, &kinds).unwrap();
    assert_eq!(as_req_int(&converted[0]), 1);
    assert_eq!(as_req_flag(&converted[1]), false);

    let inverse = artifact.inverse.as_ref().unwrap();
    let converted_back = apply_routine(inverse, &converted, &kinds).unwrap();
    assert_eq!(as_req_int(&converted_back[0]), 1);
    assert_eq!(as_req_flag(&converted_back[1]), false);
}

#[test]
fn test_skip_field() {
    let skipped = SourceStruct {
        name: "Skipped".to_string(),
        generics: vec![],
        attrs: vec![],
        fields: vec![
            field("field_a", opt_ty("u32")),
            FieldDef {
                name: "field_b".to_string(),
                ty: opt_ty("String"),
                skip: true,
                default: None,
            },
            field("field_c", plain_ty("bool")),
        ],
    };
    let mut opts = Opts::new();
    opts.name = Some("SkippedUw".to_string());
    let artifact =
        unwrapped::unwrapped(&skipped, Some(opts), UnwrappedProcUsageOpts::new(vec![], None));

    assert_eq!(artifact.generated.name, "SkippedUw");
    assert_eq!(artifact.generated.fields.len(), 2);
    assert_eq!(artifact.generated.fields[0].name, "field_a");
    assert_eq!(artifact.generated.fields[1].name, "field_c");
    assert!(artifact.direct.is_none());
    assert!(artifact.inverse.is_none());

    // The fallible conversion reads the non-excluded fields only.
    let kinds = vec![ValueKind::Int, ValueKind::Flag];
    let fallible = artifact.fallible.as_ref().unwrap();

    let original1 = vec![FieldVal::Opt(Some(Value::Int(10))), FieldVal::Req(Value::Flag(true))];
    let unwrapped1 = apply_routine(fallible, &original1, &kinds).unwrap();
    assert_eq!(as_req_int(&unwrapped1[0]), 10);
    assert_eq!(as_req_flag(&unwrapped1[1]), true);

    let original4 = vec![FieldVal::Opt(Some(Value::Int(123))), FieldVal::Req(Value::Flag(false))];
    let unwrapped4 = apply_routine(fallible, &original4, &kinds).unwrap();
    assert_eq!(as_req_int(&unwrapped4[0]), 123);
    assert_eq!(as_req_flag(&unwrapped4[1]), false);

    // An absent transformed value fails, naming the field; the excluded
    // field's value never enters the generated structure.
    let field_b_value = Value::Text("This should fail".to_string());
    let original5 = vec![FieldVal::Opt(None), FieldVal::Req(Value::Flag(true))];
    let unwrapped5 = apply_routine(fallible, &original5, &kinds);
    assert!(unwrapped5.is_err());
    assert_eq!(unwrapped5.unwrap_err().field_name, "field_a".to_string());

    // Reconstruction takes the excluded field's value as a parameter.
    let recon = artifact.reconstruction.as_ref().unwrap();
    assert_eq!(recon.params.len(), 1);
    assert_eq!(recon.params[0].0, "field_b");
    assert!(!recon.fallible);
    let recon_kinds = vec![ValueKind::Int, ValueKind::Text, ValueKind::Flag];
    let unwrapped3 = vec![FieldVal::Req(Value::Int(99)), FieldVal::Req(Value::Flag(true))];
    let params = vec![FieldVal::Opt(Some(field_b_value))];
    let original3 = unwrapped::convert::apply_reconstruction(
        &recon.fields,
        &unwrapped3,
        &params,
        &recon_kinds,
    )
    .unwrap();
    assert_eq!(as_opt_int(&original3[0]), Some(99));
    assert_eq!(as_opt_text(&original3[1]), Some("This should fail".to_string()));
    assert_eq!(as_req_flag(&original3[2]), true);
}

struct Record {
    value: Option<i64>,
}

struct RecordUw {
    value: i64,
}

struct RecordW {
    value: Option<i64>,
}

impl Unwrapped for Record {
    type Unwrapped = RecordUw;
}

impl Wrapped for Record {
    type Wrapped = RecordW;
}

#[test]
fn capability_markers_link_types() {
    let record = Record { value: Some(3) };
    let counterpart: <Record as Unwrapped>::Unwrapped =
        RecordUw { value: record.value.unwrap() };
    assert_eq!(counterpart.value, 3);
    let wrapped_counterpart: <Record as Wrapped>::Wrapped = RecordW { value: Some(4) };
    assert_eq!(wrapped_counterpart.value, Some(4));
}

#[test]
fn error_message_text() {
    let err = UnwrappedError { field_name: "field1".to_string() };
    assert_eq!(
        err.message(),
        "Failed to unwrap an Option for field 'field1', found None".to_string()
    );
}

#[test]
fn lib_path_forms() {
    let bare = UnwrappedProcUsageOpts::new(vec![], None);
    assert_eq!(bare.lib_path(), "unwrapped".to_string());
    let held = UnwrappedProcUsageOpts::new(vec![], Some("holder".to_string()));
    assert_eq!(held.lib_path(), "holder::unwrapped".to_string());
}

#[test]
fn case_conversion_helpers() {
    assert_eq!(
        unwrapped::builder::pascal_to_snake_ident(&"SkippedBuilder".to_string()),
        "skipped_builder".to_string()
    );
    assert_eq!(
        unwrapped::builder::snake_to_pascal_ident(&"field_a".to_string()),
        "FieldA".to_string()
    );
    assert_eq!(
        unwrapped::builder::raw_ident_name(&"r#type".to_string()),
        "type".to_string()
    );
}

#[test]
fn derive_list_deduplicates() {
    let src = source("Plain", vec![field("a", plain_ty("i32"))]);
    let opts = Opts::new()
        .with_derive("PartialEq".to_string())
        .with_derive("Clone".to_string())
        .with_derive("PartialEq".to_string());
    let artifact =
        unwrapped::unwrapped(&src, Some(opts), UnwrappedProcUsageOpts::new(vec![], None));
    assert_eq!(
        artifact.generated.derives,
        vec![
            "Clone".to_string(),
            "Debug".to_string(),
            "Default".to_string(),
            "PartialEq".to_string()
        ]
    );
}

#[test]
fn field_attr_collection_order() {
    let src = source("Annotated", vec![field("a", opt_ty("i32"))]);
    let opts = Opts::new().with_field_attr("a", "#[first]".to_string());
    let usage = UnwrappedProcUsageOpts::new(vec![], None)
        .with_field_opts(
            "a",
            unwrapped::UnwrappedFieldProcOpts::new(true).with_attr("#[second]".to_string()),
        )
        .with_computed_attr("a", "#[third]".to_string());
    let artifact = unwrapped::unwrapped(&src, Some(opts), usage);
    assert_eq!(
        artifact.generated.fields[0].attrs,
        vec!["#[first]".to_string(), "#[second]".to_string(), "#[third]".to_string()]
    );
}

#[test]
fn struct_attrs_carried_over() {
    let src = source("Marked", vec![field("a", plain_ty("i32"))]);
    let opts = Opts::new().with_attr("#[non_exhaustive]".to_string());
    let artifact =
        unwrapped::unwrapped(&src, Some(opts), UnwrappedProcUsageOpts::new(vec![], None));
    assert_eq!(artifact.generated.attrs, vec!["#[non_exhaustive]".to_string()]);
}

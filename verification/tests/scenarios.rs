use unwrapped::convert::{apply_reconstruction, apply_routine};
use unwrapped::model::{AttrDef, FieldDef, FieldTy, MetaNested, MetaValue, SourceStruct};
use unwrapped::values::{FieldVal, Value, ValueKind};
use unwrapped::wrapped::{FieldProcOpts, WrappedProcUsageOpts};
use unwrapped::UnwrappedProcUsageOpts;

fn source(name: &str, fields: Vec<FieldDef>) -> SourceStruct {
    SourceStruct { name: name.to_string(), generics: vec![], attrs: vec![], fields }
}

fn field(name: &str, ty: FieldTy) -> FieldDef {
    FieldDef { name: name.to_string(), ty, skip: false, default: None }
}

fn opt_ty(inner: &str) -> FieldTy {
    FieldTy::Optional(inner.to_string())
}

fn plain_ty(text: &str) -> FieldTy {
    FieldTy::Plain(text.to_string())
}

fn as_req_int(fv: &FieldVal) -> i64 {
    match fv {
        FieldVal::Req(Value::Int(n)) => *n,
        _ => panic!("expected a required integer"),
    }
}

fn as_req_text(fv: &FieldVal) -> String {
    match fv {
        FieldVal::Req(Value::Text(s)) => s.clone(),
        _ => panic!("expected a required string"),
    }
}

fn as_opt_int(fv: &FieldVal) -> Option<i64> {
    match fv {
        FieldVal::Opt(None) => None,
        FieldVal::Opt(Some(Value::Int(n))) => Some(*n),
        _ => panic!("expected an optional integer"),
    }
}

fn as_opt_text(fv: &FieldVal) -> Option<String> {
    match fv {
        FieldVal::Opt(None) => None,
        FieldVal::Opt(Some(Value::Text(s))) => Some(s.clone()),
        _ => panic!("expected an optional string"),
    }
}

#[test]
fn fallible_failure_names_first_field() {
    let src = source("TwoFields", vec![field("field1", opt_ty("i32")), field("field3", opt_ty("i32"))]);
    let artifact = unwrapped::unwrapped(&src, None, UnwrappedProcUsageOpts::new(vec![], None));
    let kinds = vec![ValueKind::Int, ValueKind::Int];
    let rec = vec![FieldVal::Opt(None), FieldVal::Opt(Some(Value::Int(7)))];
    let result = apply_routine(artifact.fallible.as_ref().unwrap(), &rec, &kinds);
    assert!(result.is_err());
    assert_eq!(result.unwrap_err().field_name, "field1".to_string());

    // Both absent: still the first field's name, not the second.
    let rec2 = vec![FieldVal::Opt(None), FieldVal::Opt(None)];
    let result2 = apply_routine(artifact.fallible.as_ref().unwrap(), &rec2, &kinds);
    assert_eq!(result2.unwrap_err().field_name, "field1".to_string());

    // First present, second absent: the reported name is the absent
    // field's own name, not the first field's.
    let src2 =
        source("BothOptional", vec![field("field1", opt_ty("i32")), field("field2", opt_ty("i32"))]);
    let artifact2 = unwrapped::unwrapped(&src2, None, UnwrappedProcUsageOpts::new(vec![], None));
    let rec3 = vec![FieldVal::Opt(Some(Value::Int(1))), FieldVal::Opt(None)];
    let result3 = apply_routine(artifact2.fallible.as_ref().unwrap(), &rec3, &kinds);
    assert_eq!(result3.unwrap_err().field_name, "field2".to_string());
}

#[test]
fn wrap_try_from_success_and_failure() {
    let src = source("Account", vec![field("x", plain_ty("i64")), field("y", plain_ty("String"))]);
    let artifact = unwrapped::wrapped(&src, None, WrappedProcUsageOpts::new(vec![], None));
    assert_eq!(artifact.generated.name, "AccountW");
    assert!(matches!(&artifact.generated.fields[0].ty, FieldTy::Optional(t) if t == "i64"));
    let kinds = vec![ValueKind::Int, ValueKind::Text];

    let all_present = vec![
        FieldVal::Opt(Some(Value::Int(1))),
        FieldVal::Opt(Some(Value::Text("a".to_string()))),
    ];
    let fallible = artifact.fallible.as_ref().expect("fallible conversion expected");
    let back = apply_routine(fallible, &all_present, &kinds).unwrap();
    assert_eq!(as_req_int(&back[0]), 1);
    assert_eq!(as_req_text(&back[1]), "a".to_string());

    let one_absent = vec![FieldVal::Opt(Some(Value::Int(1))), FieldVal::Opt(None)];
    let failed = apply_routine(fallible, &one_absent, &kinds);
    assert!(failed.is_err());
    assert_eq!(failed.unwrap_err().field_name, "y".to_string());
}

#[test]
fn reconstruction_with_two_excluded_fields() {
    let src = SourceStruct {
        name: "Mixed".to_string(),
        generics: vec![],
        attrs: vec![],
        fields: vec![
            field("a", opt_ty("i32")),
            field("b", plain_ty("String")),
            FieldDef { name: "c".to_string(), ty: opt_ty("String"), skip: true, default: None },
            FieldDef { name: "d".to_string(), ty: plain_ty("i32"), skip: true, default: None },
        ],
    };
    let artifact = unwrapped::unwrapped(&src, None, UnwrappedProcUsageOpts::new(vec![], None));
    assert!(artifact.direct.is_none());
    assert!(artifact.inverse.is_none());
    let recon = artifact.reconstruction.as_ref().unwrap();
    assert_eq!(recon.params.len(), 2);
    assert_eq!(recon.params[0].0, "c");
    assert_eq!(recon.params[1].0, "d");
    assert!(!recon.fallible);

    let gen_rec = vec![FieldVal::Req(Value::Int(7)), FieldVal::Req(Value::Text("x".to_string()))];
    let params = vec![
        FieldVal::Opt(Some(Value::Text("zz".to_string()))),
        FieldVal::Req(Value::Int(42)),
    ];
    let kinds = vec![ValueKind::Int, ValueKind::Text, ValueKind::Text, ValueKind::Int];
    let original = apply_reconstruction(&recon.fields, &gen_rec, &params, &kinds).unwrap();
    assert_eq!(original.len(), 4);
    assert_eq!(as_opt_int(&original[0]), Some(7));
    assert_eq!(as_req_text(&original[1]), "x".to_string());
    assert_eq!(as_opt_text(&original[2]), Some("zz".to_string()));
    assert_eq!(as_req_int(&original[3]), 42);
}

#[test]
fn wrap_collapse_on_default() {
    let src = source(
        "Counter",
        vec![FieldDef {
            name: "count".to_string(),
            ty: plain_ty("i64"),
            skip: false,
            default: Some(Value::Int(5)),
        }],
    );
    let artifact = unwrapped::wrapped(&src, None, WrappedProcUsageOpts::new(vec![], None));
    let kinds = vec![ValueKind::Int];
    let direct = artifact.direct.as_ref().unwrap();

    // A value equal to the custom default is stored as absent.
    let at_default = vec![FieldVal::Req(Value::Int(5))];
    let stored = apply_routine(direct, &at_default, &kinds).unwrap();
    assert_eq!(as_opt_int(&stored[0]), None);

    let off_default = vec![FieldVal::Req(Value::Int(6))];
    let stored2 = apply_routine(direct, &off_default, &kinds).unwrap();
    assert_eq!(as_opt_int(&stored2[0]), Some(6));
}

#[test]
fn wrap_inverse_uses_defaults() {
    let src = source(
        "Prefs",
        vec![
            FieldDef {
                name: "volume".to_string(),
                ty: plain_ty("i64"),
                skip: false,
                default: Some(Value::Int(11)),
            },
            field("label", plain_ty("String")),
            field("tag", plain_ty("String")),
        ],
    );
    // A usage-supplied default for `label`; `tag` has none and falls back
    // to the type's zero value.
    let usage = WrappedProcUsageOpts::new(vec![], None).with_field_opts(
        "label",
        FieldProcOpts::new(true).with_default(Value::Text("none".to_string())),
    );
    let artifact = unwrapped::wrapped(&src, None, usage);
    let kinds = vec![ValueKind::Int, ValueKind::Text, ValueKind::Text];
    let inverse = artifact.inverse.as_ref().unwrap();

    let all_absent = vec![FieldVal::Opt(None), FieldVal::Opt(None), FieldVal::Opt(None)];
    let back = apply_routine(inverse, &all_absent, &kinds).unwrap();
    assert_eq!(as_req_int(&back[0]), 11);
    assert_eq!(as_req_text(&back[1]), "none".to_string());
    assert_eq!(as_req_text(&back[2]), "".to_string());
}

#[test]
fn wrap_reconstruction_defaults() {
    let src = SourceStruct {
        name: "Partial".to_string(),
        generics: vec![],
        attrs: vec![],
        fields: vec![
            FieldDef {
                name: "with_default".to_string(),
                ty: plain_ty("i64"),
                skip: false,
                default: Some(Value::Int(8)),
            },
            field("without_default", plain_ty("String")),
            FieldDef {
                name: "held_back".to_string(),
                ty: plain_ty("bool"),
                skip: true,
                default: None,
            },
        ],
    };
    let artifact = unwrapped::wrapped(&src, None, WrappedProcUsageOpts::new(vec![], None));
    assert!(artifact.inverse.is_none());
    assert!(artifact.fallible.is_none());
    let recon = artifact.reconstruction.as_ref().unwrap();
    assert!(recon.fallible);
    assert_eq!(recon.params.len(), 1);
    assert_eq!(recon.params[0].0, "held_back");
    let kinds = vec![ValueKind::Int, ValueKind::Text, ValueKind::Flag];

    // Absent value with a default succeeds; present value passes through.
    let gen_rec = vec![
        FieldVal::Opt(None),
        FieldVal::Opt(Some(Value::Text("kept".to_string()))),
    ];
    let params = vec![FieldVal::Req(Value::Flag(true))];
    let original = apply_reconstruction(&recon.fields, &gen_rec, &params, &kinds).unwrap();
    assert_eq!(as_req_int(&original[0]), 8);
    assert_eq!(as_req_text(&original[1]), "kept".to_string());

    // An absent value without a default fails, naming the field.
    let gen_rec2 = vec![FieldVal::Opt(None), FieldVal::Opt(None)];
    let params2 = vec![FieldVal::Req(Value::Flag(false))];
    let failed = apply_reconstruction(&recon.fields, &gen_rec2, &params2, &kinds);
    assert!(failed.is_err());
    assert_eq!(failed.unwrap_err().field_name, "without_default".to_string());

    // A default supplied through the usage options serves the inverse
    // direct conversion only: the reconstruction still fails on an absent
    // value whose directive carries no default.
    let usage = WrappedProcUsageOpts::new(vec![], None).with_field_opts(
        "without_default",
        FieldProcOpts::new(true).with_default(Value::Text("fallback".to_string())),
    );
    let artifact2 = unwrapped::wrapped(&src, None, usage);
    let recon2 = artifact2.reconstruction.as_ref().unwrap();
    let failed2 = apply_reconstruction(&recon2.fields, &gen_rec2, &params2, &kinds);
    assert!(failed2.is_err());
    assert_eq!(failed2.unwrap_err().field_name, "without_default".to_string());
}

#[test]
fn builder_bridge_setters() {
    let src = SourceStruct {
        name: "Skipped".to_string(),
        generics: vec![],
        attrs: vec![AttrDef::List(
            "derive".to_string(),
            vec![MetaNested::Path(vec!["bon".to_string(), "Builder".to_string()])],
        )],
        fields: vec![
            field("field_a", opt_ty("u32")),
            FieldDef { name: "field_b".to_string(), ty: opt_ty("String"), skip: true, default: None },
            field("field_c", plain_ty("bool")),
        ],
    };
    // Keep `field_a` optional against the convention: its setter gets the
    // `maybe_` prefix.
    let usage =
        UnwrappedProcUsageOpts::new(vec![("field_a".to_string(), false)], None);
    let artifact = unwrapped::unwrapped(&src, None, usage);
    let bridge = artifact.bridge.as_ref().expect("builder bridge expected");
    assert_eq!(bridge.builder_ident, "SkippedBuilder");
    assert_eq!(bridge.state_mod_ident, "skipped_builder");
    assert_eq!(bridge.state_param, "__UnwrappedBuilderState");
    assert!(bridge.type_args.is_empty());
    assert_eq!(bridge.setters.len(), 2);
    assert_eq!(bridge.setters[0].setter, "maybe_field_a");
    assert_eq!(bridge.setters[0].state_marker, "SetFieldA");
    assert_eq!(bridge.setters[1].setter, "field_c");
    assert_eq!(bridge.setters[1].state_marker, "SetFieldC");
}

#[test]
fn builder_config_shapes() {
    // Both configuration shapes: the bare name-value form and the nested
    // list form with an inner `name` key.  A validated string literal
    // arrives as an identifier value.
    let src = SourceStruct {
        name: "Thing".to_string(),
        generics: vec![],
        attrs: vec![AttrDef::List(
            "builder".to_string(),
            vec![
                MetaNested::NameValue(
                    "builder_type".to_string(),
                    MetaValue::Ident("MyBuilder".to_string()),
                ),
                MetaNested::List(
                    "state_mod".to_string(),
                    vec![unwrapped::model::MetaArg::NameValue(
                        "name".to_string(),
                        MetaValue::Ident("my_states".to_string()),
                    )],
                ),
            ],
        )],
        fields: vec![
            field("kept", opt_ty("i32")),
            FieldDef { name: "left_out".to_string(), ty: plain_ty("i32"), skip: true, default: None },
        ],
    };
    let artifact = unwrapped::unwrapped(&src, None, UnwrappedProcUsageOpts::new(vec![], None));
    let bridge = artifact.bridge.as_ref().expect("builder bridge expected");
    assert_eq!(bridge.builder_ident, "MyBuilder");
    assert_eq!(bridge.state_mod_ident, "my_states");

    // A string value that names no identifier is ignored; the builder
    // ident falls back to the source name, the state module to its
    // snake_case form.
    let src2 = SourceStruct {
        name: "Thing2".to_string(),
        generics: vec![],
        attrs: vec![AttrDef::List(
            "builder".to_string(),
            vec![MetaNested::NameValue(
                "builder_type".to_string(),
                MetaValue::Str("not an ident".to_string()),
            )],
        )],
        fields: vec![
            field("kept", opt_ty("i32")),
            FieldDef { name: "left_out".to_string(), ty: plain_ty("i32"), skip: true, default: None },
        ],
    };
    let artifact2 = unwrapped::unwrapped(&src2, None, UnwrappedProcUsageOpts::new(vec![], None));
    let bridge2 = artifact2.bridge.as_ref().expect("builder bridge expected");
    assert_eq!(bridge2.builder_ident, "Thing2Builder");
    assert_eq!(bridge2.state_mod_ident, "thing2_builder");
}

#[test]
fn unique_state_param_avoids_generics() {
    let src = SourceStruct {
        name: "Clash".to_string(),
        generics: vec![
            unwrapped::model::GenericParamDef::Type("__UnwrappedBuilderState".to_string()),
            unwrapped::model::GenericParamDef::Type("__UnwrappedBuilderState0".to_string()),
        ],
        attrs: vec![AttrDef::Path(vec!["builder".to_string()])],
        fields: vec![
            field("kept", opt_ty("i32")),
            FieldDef { name: "left_out".to_string(), ty: plain_ty("i32"), skip: true, default: None },
        ],
    };
    let artifact = unwrapped::unwrapped(&src, None, UnwrappedProcUsageOpts::new(vec![], None));
    let bridge = artifact.bridge.as_ref().expect("builder bridge expected");
    assert_eq!(bridge.state_param, "__UnwrappedBuilderState1");
}

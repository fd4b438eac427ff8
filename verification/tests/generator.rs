//! Exact expected output, the documented properties on concrete
//! values, every rejection, and a syntax round-trip of the emitted
//! code.

use igri::args::{Data, FieldArgs, Fields, GenericParam, Style, TypeArgs, VariantArgs};
use igri::inspect::{inspect, GenError};

fn named_field(name: &str, ty: &str) -> FieldArgs {
    FieldArgs {
        ident: Some(name.to_string()),
        ty: ty.to_string(),
        skip: false,
        as_: None,
        with: None,
    }
}

fn pos_field(ty: &str) -> FieldArgs {
    FieldArgs { ident: None, ty: ty.to_string(), skip: false, as_: None, with: None }
}

fn plain_type(ident: &str, data: Data) -> TypeArgs {
    TypeArgs {
        ident: ident.to_string(),
        generics: Vec::new(),
        data,
        with: None,
        as_: None,
        in_place: false,
        default_open: false,
        bounds: None,
        no_tag: false,
    }
}

fn unit_variant(name: &str) -> VariantArgs {
    VariantArgs {
        ident: name.to_string(),
        fields: Fields { style: Style::Unit, fields: Vec::new() },
    }
}

#[test]
fn unit_struct_exact_text() {
    let unit = plain_type("Unit", Data::Struct(Fields { style: Style::Unit, fields: vec![] }));
    let s = inspect(&unit).unwrap();
    assert_eq!(
        s,
        "impl igri::Inspect for Unit {\n\
         fn inspect(&mut self, ui: &igri::imgui::Ui, label: &str) {\n\
         ui.label_text(label, \"<Unit>\");\n\
         }\n\
         }\n"
    );
}

#[test]
fn named_struct_exact_text() {
    let p = plain_type(
        "P",
        Data::Struct(Fields { style: Style::Struct, fields: vec![named_field("x", "u32")] }),
    );
    let s = inspect(&p).unwrap();
    assert_eq!(
        s,
        "impl igri::Inspect for P where u32: igri::Inspect {\n\
         fn inspect(&mut self, ui: &igri::imgui::Ui, label: &str) {\n\
         let _ = igri::imgui::TreeNode::new(label).flags(igri::imgui::TreeNodeFlags::OPEN_ON_ARROW | igri::imgui::TreeNodeFlags::OPEN_ON_DOUBLE_CLICK).default_open(false).build(ui, || {\n\
         (&mut self.x).inspect(ui, \"x\");\n\
         });\n\
         }\n\
         }\n"
    );
}

#[test]
fn plain_enum_exact_text() {
    let plain = plain_type(
        "Plain",
        Data::Enum(vec![unit_variant("A"), unit_variant("B"), unit_variant("C")]),
    );
    let s = inspect(&plain).unwrap();
    assert_eq!(
        s,
        "impl igri::Inspect for Plain {\n\
         fn inspect(&mut self, ui: &igri::imgui::Ui, label: &str) {\n\
         const NAMES: &'static [&'static str] = &[\n\
         \"A\",\n\
         \"B\",\n\
         \"C\",\n\
         ];\n\
         let mut ix = match self {\n\
         Plain::A => 0usize,\n\
         Plain::B => 1usize,\n\
         Plain::C => 2usize,\n\
         };\n\
         if ui.combo_simple_string(\"tag\", &mut ix, NAMES) {\n\
         *self = match ix {\n\
         _ if ix == 0 => Plain::A,\n\
         _ if ix == 1 => Plain::B,\n\
         _ if ix == 2 => Plain::C,\n\
         _ => unreachable!(),\n\
         };\n\
         }\n\
         }\n\
         }\n"
    );
}

#[test]
fn field_enum_exact_text() {
    let w = plain_type(
        "W",
        Data::Enum(vec![VariantArgs {
            ident: "A".to_string(),
            fields: Fields { style: Style::Tuple, fields: vec![pos_field("usize")] },
        }]),
    );
    let s = inspect(&w).unwrap();
    assert_eq!(
        s,
        "impl igri::Inspect for W where usize: igri::Inspect + Default {\n\
         fn inspect(&mut self, ui: &igri::imgui::Ui, label: &str) {\n\
         if let Some(()) = igri::imgui::TreeNode::new(label).opened(true, igri::imgui::Condition::FirstUseEver).flags(igri::imgui::TreeNodeFlags::OPEN_ON_ARROW | igri::imgui::TreeNodeFlags::OPEN_ON_DOUBLE_CLICK).build(ui, || {\n\
         const NAMES: &'static [&'static str] = &[\n\
         \"A\",\n\
         ];\n\
         let mut ix = match self {\n\
         W::A(..) => 0usize,\n\
         };\n\
         if ui.combo_simple_string(\"tag\", &mut ix, NAMES) {\n\
         *self = match ix {\n\
         _ if ix == 0 => W::A(Default::default(), ),\n\
         _ => unreachable!(),\n\
         };\n\
         }\n\
         match self {\n\
         Self::A(f0) => {\n\
         f0.inspect(ui, \"0\");\n\
         },\n\
         }\n\
         }) {}\n\
         }\n\
         }\n"
    );
}

#[test]
fn tag_switch_constructs_selected_variant_with_defaults() {
    let complex = plain_type(
        "Complex",
        Data::Enum(vec![
            VariantArgs {
                ident: "Named".to_string(),
                fields: Fields {
                    style: Style::Struct,
                    fields: vec![named_field("x", "u32"), named_field("y", "String")],
                },
            },
            VariantArgs {
                ident: "Tuple".to_string(),
                fields: Fields {
                    style: Style::Tuple,
                    fields: vec![pos_field("u32"), pos_field("u32")],
                },
            },
            unit_variant("Unit"),
        ]),
    );
    let s = inspect(&complex).unwrap();
    assert!(s.contains(
        "_ if ix == 0 => Complex::Named { x: Default::default(), y: Default::default(), },\n"
    ));
    assert!(s.contains("_ if ix == 1 => Complex::Tuple(Default::default(), Default::default(), ),\n"));
    assert!(s.contains("_ if ix == 2 => Complex::Unit,\n"));
    assert!(s.contains("\"Named\",\n\"Tuple\",\n\"Unit\",\n"));
}

#[test]
fn transparent_single_field_tuple_delegates() {
    let tuple1 = plain_type(
        "Tuple1",
        Data::Struct(Fields { style: Style::Tuple, fields: vec![pos_field("u32")] }),
    );
    let s = inspect(&tuple1).unwrap();
    assert!(s.contains("use igri::Inspect;\nself.0.inspect(ui, label);\n"));
    assert!(!s.contains("TreeNode"));
}

#[test]
fn skipped_fields_leave_no_trace() {
    let mut z = named_field("z", "Vec<()>");
    z.skip = true;
    let x = plain_type(
        "X",
        Data::Struct(Fields {
            style: Style::Struct,
            fields: vec![named_field("x", "u32"), named_field("y", "String"), z],
        }),
    );
    let s = inspect(&x).unwrap();
    assert!(s.contains("(&mut self.x).inspect(ui, \"x\");"));
    assert!(s.contains("(&mut self.y).inspect(ui, \"y\");"));
    assert!(!s.contains("self.z"));
    assert!(!s.contains("Vec<()>"));
    assert!(s.contains(" where u32: igri::Inspect, String: igri::Inspect {"));
}

#[test]
fn skipped_positional_fields_keep_declared_indices() {
    let mut hidden = pos_field("u64");
    hidden.skip = true;
    let t = plain_type(
        "Tup",
        Data::Struct(Fields {
            style: Style::Tuple,
            fields: vec![pos_field("u32"), hidden, pos_field("u16")],
        }),
    );
    let s = inspect(&t).unwrap();
    assert!(s.contains("(&mut self.0).inspect(ui, \"0\");"));
    assert!(s.contains("(&mut self.2).inspect(ui, \"2\");"));
    assert!(!s.contains("self.1"));
    assert!(!s.contains(" where u64"));
}

#[test]
fn transparent_delegates_to_the_sole_unskipped_field() {
    let mut hidden = pos_field("u64");
    hidden.skip = true;
    let t = plain_type(
        "Lead",
        Data::Struct(Fields { style: Style::Tuple, fields: vec![hidden, pos_field("u32")] }),
    );
    let s = inspect(&t).unwrap();
    assert!(s.contains("use igri::Inspect;\nself.1.inspect(ui, label);\n"));
    assert!(!s.contains("self.0"));
}

#[test]
fn enum_tuple_arms_bind_and_render_declared_positions() {
    let mut mid = pos_field("f32");
    mid.skip = true;
    let t = plain_type(
        "Wrapper",
        Data::Enum(vec![VariantArgs {
            ident: "Tuple".to_string(),
            fields: Fields {
                style: Style::Tuple,
                fields: vec![pos_field("u32"), mid, pos_field("String")],
            },
        }]),
    );
    let s = inspect(&t).unwrap();
    assert!(s.contains("Self::Tuple(f0, f1, f2) => {\n"));
    assert!(s.contains("f0.inspect(ui, \"0\");"));
    assert!(s.contains("f2.inspect(ui, \"2\");"));
    assert!(!s.contains("f1.inspect"));
}

#[test]
fn no_tag_fieldless_enum_exact_text() {
    let mut t = plain_type(
        "Plain",
        Data::Enum(vec![unit_variant("A"), unit_variant("B")]),
    );
    t.no_tag = true;
    let s = inspect(&t).unwrap();
    assert_eq!(
        s,
        "impl igri::Inspect for Plain {\n\
         fn inspect(&mut self, ui: &igri::imgui::Ui, label: &str) {\n\
         let name = {\n\
         const NAMES: &'static [&'static str] = &[\n\
         \"A\",\n\
         \"B\",\n\
         ];\n\
         let ix = match self {\n\
         Plain::A => 0usize,\n\
         Plain::B => 1usize,\n\
         };\n\
         NAMES[ix]\n\
         };\n\
         ui.label_text(label, name);\n\
         }\n\
         }\n"
    );
}

#[test]
fn no_tag_drops_selector_and_default_bound() {
    let mut t = plain_type(
        "W",
        Data::Enum(vec![VariantArgs {
            ident: "A".to_string(),
            fields: Fields { style: Style::Tuple, fields: vec![pos_field("usize")] },
        }]),
    );
    t.no_tag = true;
    let s = inspect(&t).unwrap();
    assert!(s.contains(" where usize: igri::Inspect {"));
    assert!(!s.contains("Default"));
    assert!(!s.contains("combo_simple_string"));
    assert!(s.contains("ui.label_text(label, name);\n"));
    assert!(s.contains("Self::A(f0) => {\nf0.inspect(ui, \"0\");\n},\n"));
}

#[test]
fn generics_carry_into_header() {
    let mut t = plain_type(
        "MyCoolStruct",
        Data::Struct(Fields { style: Style::Struct, fields: vec![named_field("xs", "Vec<T>")] }),
    );
    t.generics = vec![GenericParam { decl: "T".to_string(), ident: "T".to_string() }];
    let s = inspect(&t).unwrap();
    assert!(s.starts_with("impl<T> igri::Inspect for MyCoolStruct<T> where Vec<T>: igri::Inspect {\n"));
}

#[test]
fn generic_parameters_keep_their_declarations() {
    let mut t = plain_type(
        "S",
        Data::Struct(Fields { style: Style::Struct, fields: vec![named_field("x", "T")] }),
    );
    t.generics = vec![
        GenericParam { decl: "'a".to_string(), ident: "'a".to_string() },
        GenericParam { decl: "T: Clone".to_string(), ident: "T".to_string() },
        GenericParam { decl: "const N: usize".to_string(), ident: "N".to_string() },
    ];
    let s = inspect(&t).unwrap();
    assert!(s.starts_with(
        "impl<'a, T: Clone, const N: usize> igri::Inspect for S<'a, T, N> where T: igri::Inspect {\n"
    ));
    assert!(syn::parse_str::<syn::ItemImpl>(&s).is_ok());
}

#[test]
fn wide_tuples_use_decimal_labels() {
    let fields: Vec<FieldArgs> = (0..12).map(|_| pos_field("u8")).collect();
    let t = plain_type("Wide", Data::Struct(Fields { style: Style::Tuple, fields }));
    let s = inspect(&t).unwrap();
    assert!(s.contains("(&mut self.10).inspect(ui, \"10\");"));
    assert!(s.contains("(&mut self.11).inspect(ui, \"11\");"));
}

#[test]
fn in_place_flattens_without_a_node() {
    let mut t = plain_type(
        "Flat",
        Data::Struct(Fields { style: Style::Struct, fields: vec![named_field("x", "u32")] }),
    );
    t.in_place = true;
    let s = inspect(&t).unwrap();
    assert!(s.contains("(&mut self.x).inspect(ui, \"x\");"));
    assert!(!s.contains("TreeNode"));
}

#[test]
fn open_annotation_controls_default_open() {
    let mut t = plain_type(
        "O",
        Data::Struct(Fields { style: Style::Struct, fields: vec![named_field("x", "u32")] }),
    );
    t.default_open = true;
    let s = inspect(&t).unwrap();
    assert!(s.contains(".default_open(true)"));
}

#[test]
fn field_as_round_trips_through_conversion_type() {
    let mut x = named_field("x", "MyCm");
    x.as_ = Some("u64".to_string());
    let t = plain_type("M", Data::Struct(Fields { style: Style::Struct, fields: vec![x] }));
    let s = inspect(&t).unwrap();
    assert!(s.contains("let mut bridge: u64 = (*(&mut self.x)).into();\n"));
    assert!(s.contains("bridge.inspect(ui, label);\n"));
    assert!(s.contains("*(&mut self.x) = bridge.into();\n"));
}

#[test]
fn type_level_with_and_as_conflict_is_rejected() {
    let mut t = plain_type(
        "C",
        Data::Struct(Fields { style: Style::Struct, fields: vec![named_field("x", "u32")] }),
    );
    t.with = Some("f".to_string());
    t.as_ = Some("u64".to_string());
    assert!(matches!(inspect(&t), Err(GenError::WithAsConflict)));
}

#[test]
fn bad_as_argument_is_rejected() {
    let mut x = named_field("x", "u32");
    x.as_ = Some("!!!".to_string());
    let t = plain_type("B", Data::Struct(Fields { style: Style::Struct, fields: vec![x] }));
    assert!(matches!(inspect(&t), Err(GenError::BadAs(s)) if s == "!!!"));
}

#[test]
fn bad_with_argument_is_rejected() {
    let mut x = named_field("x", "u32");
    x.with = Some("1234".to_string());
    let t = plain_type("B", Data::Struct(Fields { style: Style::Struct, fields: vec![x] }));
    assert!(matches!(inspect(&t), Err(GenError::BadWith(s)) if s == "1234"));
}

#[test]
fn bad_bounds_entry_is_rejected_verbatim() {
    let mut t = plain_type(
        "B",
        Data::Struct(Fields { style: Style::Struct, fields: vec![named_field("x", "u32")] }),
    );
    t.bounds = Some("T: Clone, !!!".to_string());
    assert!(matches!(inspect(&t), Err(GenError::BadBound(s)) if s == " !!!"));
}

#[test]
fn bounds_annotation_replaces_generated_predicates() {
    let mut t = plain_type(
        "B",
        Data::Struct(Fields { style: Style::Struct, fields: vec![named_field("x", "Weird")] }),
    );
    t.bounds = Some("T: Clone".to_string());
    let s = inspect(&t).unwrap();
    assert!(s.contains(" where T: Clone {"));
    assert!(!s.contains("Weird: igri::Inspect"));
}

#[test]
fn empty_bounds_annotation_drops_the_where_clause() {
    let mut t = plain_type(
        "B",
        Data::Struct(Fields { style: Style::Struct, fields: vec![named_field("x", "u32")] }),
    );
    t.bounds = Some(String::new());
    let s = inspect(&t).unwrap();
    assert!(!s.contains("where"));
}

#[test]
fn skipped_field_with_bad_annotation_is_ignored() {
    let mut z = named_field("z", "u32");
    z.skip = true;
    z.as_ = Some("!!!".to_string());
    let t = plain_type(
        "S",
        Data::Struct(Fields { style: Style::Struct, fields: vec![named_field("x", "u32"), z] }),
    );
    assert!(inspect(&t).is_ok());
}

#[test]
fn variantless_enum_generates_empty_selector() {
    let t = plain_type("Never", Data::Enum(Vec::new()));
    let s = inspect(&t).unwrap();
    assert!(s.contains("const NAMES: &'static [&'static str] = &[\n];\n"));
}

#[test]
fn newtype_sample_uses_its_override() {
    let t = igri::samples::NewType::type_args();
    let s = inspect(&t).unwrap();
    assert!(s.contains("inspect_newtype(self, ui, label);\n"));
    let v = igri::samples::NewType(100);
    assert_eq!(v.0, 100);
    let u = igri::samples::Uninspectable("Uninspectable".to_string());
    assert_eq!(u.0, "Uninspectable");
}

#[test]
fn emitted_code_parses_as_an_impl() {
    let mut manual = named_field("manual", "u32");
    manual.with = Some("inspect_u32".to_string());
    let mut converted = named_field("converted", "MyCm");
    converted.as_ = Some("u64".to_string());
    let demo = plain_type(
        "AttrDemo",
        Data::Struct(Fields {
            style: Style::Struct,
            fields: vec![
                named_field("name", "String"),
                manual,
                converted,
                named_field("enums", "Vec<AttrDemoEnum>"),
            ],
        }),
    );
    let s = inspect(&demo).unwrap();
    assert!(syn::parse_str::<syn::ItemImpl>(&s).is_ok());

    let complex = plain_type(
        "Complex",
        Data::Enum(vec![
            VariantArgs {
                ident: "Named".to_string(),
                fields: Fields {
                    style: Style::Struct,
                    fields: vec![named_field("x", "u32")],
                },
            },
            VariantArgs {
                ident: "Tuple".to_string(),
                fields: Fields {
                    style: Style::Tuple,
                    fields: vec![pos_field("u32"), pos_field("String")],
                },
            },
            unit_variant("Unit"),
        ]),
    );
    let s = inspect(&complex).unwrap();
    assert!(syn::parse_str::<syn::ItemImpl>(&s).is_ok());
}

#[test]
fn current_tag_text_shows_the_variant_names() {
    let t = plain_type("E", Data::Enum(vec![unit_variant("A"), unit_variant("B")]));
    let variants = vec![unit_variant("A"), unit_variant("B")];
    let s = igri::utils::current_enum_tag(&t, &variants);
    assert!(s.contains("\"A\",\n\"B\",\n"));
    assert!(s.contains("ui.label_text(label, name);\n"));
}

#[test]
fn path_helpers_match_emitted_paths() {
    assert_eq!(igri::utils::imgui_path(), "igri::imgui");
    assert_eq!(igri::utils::inspect_path(), "igri::Inspect");
    let p = plain_type(
        "P",
        Data::Struct(Fields { style: Style::Struct, fields: vec![named_field("x", "u32")] }),
    );
    let s = inspect(&p).unwrap();
    assert!(s.contains(&format!("{}::TreeNode::new(label)", igri::utils::imgui_path())));
    assert!(s.contains(&format!("impl {} for P", igri::utils::inspect_path())));
}

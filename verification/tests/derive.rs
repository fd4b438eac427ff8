//! The generator across the usual type shapes: named and positional
//! structs, skipped fields, overrides, and plain and field-carrying
//! enums.

use igri::args::{Data, FieldArgs, Fields, Style, TypeArgs, VariantArgs};
use igri::inspect::inspect;

fn named_field(name: &str, ty: &str) -> FieldArgs {
    FieldArgs {
        ident: Some(name.to_string()),
        ty: ty.to_string(),
        skip: false,
        as_: None,
        with: None,
    }
}

fn pos_field(ty: &str) -> FieldArgs {
    FieldArgs { ident: None, ty: ty.to_string(), skip: false, as_: None, with: None }
}

fn plain_type(ident: &str, data: Data) -> TypeArgs {
    TypeArgs {
        ident: ident.to_string(),
        generics: Vec::new(),
        data,
        with: None,
        as_: None,
        in_place: false,
        default_open: false,
        bounds: None,
        no_tag: false,
    }
}

fn struct_data(style: Style, fields: Vec<FieldArgs>) -> Data {
    Data::Struct(Fields { style, fields })
}

fn unit_variant(name: &str) -> VariantArgs {
    VariantArgs {
        ident: name.to_string(),
        fields: Fields { style: Style::Unit, fields: Vec::new() },
    }
}

fn tuple_variant(name: &str, tys: &[&str]) -> VariantArgs {
    VariantArgs {
        ident: name.to_string(),
        fields: Fields { style: Style::Tuple, fields: tys.iter().map(|t| pos_field(t)).collect() },
    }
}

#[test]
fn test_derive() {
    let mut z = named_field("z", "Vec<()>");
    z.skip = true;
    let x = plain_type(
        "X",
        struct_data(
            Style::Struct,
            vec![named_field("x", "u32"), named_field("y", "String"), z],
        ),
    );
    assert!(inspect(&x).is_ok());

    let unit = plain_type(
        "Unit",
        Data::Enum(
            ["A", "B", "C", "D", "E", "F", "G"].iter().map(|n| unit_variant(n)).collect(),
        ),
    );
    assert!(inspect(&unit).is_ok());

    let complex = plain_type(
        "Complex",
        Data::Enum(vec![unit_variant("Unit"), tuple_variant("Tuple", &["u32", "u32"])]),
    );
    assert!(inspect(&complex).is_ok());
}

#[test]
fn derive_derive() {
    let mut with_x = named_field("x", "f32");
    with_x.with = Some("f".to_string());
    let st = plain_type(
        "Struct",
        struct_data(Style::Struct, vec![with_x, named_field("y", "u32")]),
    );
    assert!(inspect(&st).is_ok());

    let mut with_f0 = pos_field("f32");
    with_f0.with = Some("f".to_string());
    let tuple1 = plain_type("Tuple1", struct_data(Style::Tuple, vec![with_f0]));
    assert!(inspect(&tuple1).is_ok());

    let tuple2 = plain_type(
        "Tuple2",
        struct_data(Style::Tuple, vec![pos_field("f32"), pos_field("[u32; 2]")]),
    );
    assert!(inspect(&tuple2).is_ok());

    let unit = plain_type("Unit", struct_data(Style::Unit, Vec::new()));
    assert!(inspect(&unit).is_ok());

    let mut hidden = named_field("hidden", "f32");
    hidden.skip = true;
    let virtual_unit_a = plain_type("VirtualUnitA", struct_data(Style::Struct, vec![hidden]));
    assert!(inspect(&virtual_unit_a).is_ok());

    let mut hidden_pos = pos_field("f32");
    hidden_pos.skip = true;
    let virtual_unit_b = plain_type("VirtualUnitB", struct_data(Style::Tuple, vec![hidden_pos]));
    assert!(inspect(&virtual_unit_b).is_ok());

    let plain = plain_type(
        "Plain",
        Data::Enum(vec![unit_variant("A"), unit_variant("B"), unit_variant("C")]),
    );
    assert!(inspect(&plain).is_ok());

    let mut wrapper_b = tuple_variant("B", &["f32"]);
    wrapper_b.fields.fields[0].with = Some("f".to_string());
    let wrapper = plain_type(
        "Wrapper",
        Data::Enum(vec![tuple_variant("A", &["usize"]), wrapper_b, tuple_variant(
            "C",
            &["String"],
        )]),
    );
    assert!(inspect(&wrapper).is_ok());

    let complex = plain_type(
        "Complex",
        Data::Enum(vec![
            VariantArgs {
                ident: "Struct".to_string(),
                fields: Fields {
                    style: Style::Struct,
                    fields: vec![named_field("x", "f32"), named_field("u", "u32")],
                },
            },
            tuple_variant("Tuple", &["f32", "u32"]),
            unit_variant("Unit"),
        ]),
    );
    assert!(inspect(&complex).is_ok());
}

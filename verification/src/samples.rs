//! Worked examples: two small types and the descriptors under which
//! the generator sees them.  They exercise the annotation surface —
//! a type-level `with` override on [`NewType`], and a type left
//! entirely to a hand-written render function for [`Uninspectable`] —
//! and give the tests concrete subjects.

use vstd::prelude::*;
use crate::args::{Data, FieldArgs, FieldArgsView, Fields, FieldsView, Style, TypeArgs,
    TypeArgsView, DataView};

verus! {

/// A one-field wrapper rendered through the override function named by
/// its `with` annotation rather than by a generated tree node.
#[derive(Debug, Clone, PartialEq, Eq, Structural)]
pub struct NewType(pub u32);

/// A type that supplies no generated implementation at all: the host
/// application renders it through a hand-written function.
#[derive(Debug, Clone, PartialEq)]
pub struct Uninspectable(pub String);

/// The descriptor of [`NewType`]: a positional struct of one `u32`
/// field, with the type-level override `with = "inspect_newtype"`.
pub open spec fn spec_newtype_args() -> TypeArgsView {
    TypeArgsView {
        ident: "NewType"@,
        generics: Seq::empty(),
        data: DataView::Struct(
            FieldsView {
                style: Style::Tuple,
                fields: seq![
                    FieldArgsView {
                        ident: None,
                        ty: "u32"@,
                        skip: false,
                        as_: None,
                        with: None,
                    },
                ],
            },
        ),
        with: Some("inspect_newtype"@),
        as_: None,
        in_place: false,
        default_open: false,
        bounds: None,
        no_tag: false,
    }
}

impl NewType {
    /// Builds the descriptor under which the generator sees this type.
    pub fn type_args() -> (r: TypeArgs)
        ensures
            r@ == spec_newtype_args(),
            r@.wf(),
    {
        let field = FieldArgs {
            ident: None,
            ty: "u32".to_owned(),
            skip: false,
            as_: None,
            with: None,
        };
        let mut fields: Vec<FieldArgs> = Vec::new();
        fields.push(field);
        let r = TypeArgs {
            ident: "NewType".to_owned(),
            generics: Vec::new(),
            data: Data::Struct(Fields { style: Style::Tuple, fields }),
            with: Some("inspect_newtype".to_owned()),
            as_: None,
            in_place: false,
            default_open: false,
            bounds: None,
            no_tag: false,
        };
        proof {
            assert(r@.generics =~~= spec_newtype_args().generics);
            assert(r@.data->Struct_0.fields =~~= spec_newtype_args().data->Struct_0.fields);
            assert(r@ =~~= spec_newtype_args());
        }
        r
    }
}

} // verus!

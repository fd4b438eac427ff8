//! Descriptors for the shape of an inspected type.
//!
//! A type is described by a [`TypeArgs`] value: its identifier, its type
//! parameters, its data (named, positional or unit fields for a struct;
//! a list of variants for an enum) and the annotations that steer code
//! generation (`skip`, `with`, `as`, `in_place`, `open`, `bounds`,
//! `no_tag`).
//! Identifiers and types are carried as plain strings, exactly as they
//! appear in the declaration the descriptor was built from.

use vstd::prelude::*;

verus! {

/// Structural style of a set of fields: named (`{ x: T }`), positional
/// (`(T, U)`) or none at all.
#[derive(Clone, Copy, PartialEq, Eq, Structural, Debug)]
pub enum Style {
    Struct,
    Tuple,
    Unit,
}

/// One field of a struct or of an enum variant, with its annotations.
pub struct FieldArgs {
    /// The field's name; present exactly for named (`Style::Struct`) fields.
    pub ident: Option<String>,
    /// The field's declared type, as written.
    pub ty: String,
    /// `skip`: leave the field out of the render body and of the
    /// generated bounds.
    pub skip: bool,
    /// `as = "<Type>"`: round-trip the value through this type (via
    /// `Into`) before and after rendering.
    pub as_: Option<String>,
    /// `with = "<function>"`: replace default rendering with a call to
    /// this function.
    pub with: Option<String>,
}

/// Mathematical image of a [`FieldArgs`] value.
pub ghost struct FieldArgsView {
    pub ident: Option<Seq<char>>,
    pub ty: Seq<char>,
    pub skip: bool,
    pub as_: Option<Seq<char>>,
    pub with: Option<Seq<char>>,
}

/// The view of an optional string: the character sequence, if present.
pub open spec fn opt_view(o: Option<String>) -> Option<Seq<char>> {
    match o {
        Some(s) => Some(s@),
        None => None,
    }
}

impl View for FieldArgs {
    type V = FieldArgsView;

    open spec fn view(&self) -> FieldArgsView {
        FieldArgsView {
            ident: opt_view(self.ident),
            ty: self.ty@,
            skip: self.skip,
            as_: opt_view(self.as_),
            with: opt_view(self.with),
        }
    }
}

/// The fields of a struct or of one enum variant, together with their
/// structural style.
pub struct Fields {
    pub style: Style,
    pub fields: Vec<FieldArgs>,
}

/// Mathematical image of a [`Fields`] value.
pub ghost struct FieldsView {
    pub style: Style,
    pub fields: Seq<FieldArgsView>,
}

/// The views of a sequence of fields, element by element.
pub open spec fn view_fields(s: Seq<FieldArgs>) -> Seq<FieldArgsView> {
    s.map_values(|f: FieldArgs| f@)
}

/// The views of a sequence of variants, element by element.
pub open spec fn view_variants(s: Seq<VariantArgs>) -> Seq<VariantArgsView> {
    s.map_values(|v: VariantArgs| v@)
}

/// The views of a sequence of strings, element by element.
pub open spec fn view_strings(s: Seq<String>) -> Seq<Seq<char>> {
    s.map_values(|x: String| x@)
}

impl View for Fields {
    type V = FieldsView;

    open spec fn view(&self) -> FieldsView {
        FieldsView { style: self.style, fields: view_fields(self.fields@) }
    }
}

impl FieldsView {
    /// Well-formedness: named fields carry a name, positional and unit
    /// fields do not, and a unit field list is empty.
    pub open spec fn wf(self) -> bool {
        &&& self.style is Struct ==> forall|i: int|
            0 <= i < self.fields.len() ==> self.fields[i].ident is Some
        &&& self.style is Unit ==> self.fields.len() == 0
    }
}

/// One variant of an enum: its name and its fields.
pub struct VariantArgs {
    pub ident: String,
    pub fields: Fields,
}

/// Mathematical image of a [`VariantArgs`] value.
pub ghost struct VariantArgsView {
    pub ident: Seq<char>,
    pub fields: FieldsView,
}

impl View for VariantArgs {
    type V = VariantArgsView;

    open spec fn view(&self) -> VariantArgsView {
        VariantArgsView { ident: self.ident@, fields: self.fields@ }
    }
}

/// The data of a described type: a struct's fields, or an enum's
/// variants.
pub enum Data {
    Struct(Fields),
    Enum(Vec<VariantArgs>),
}

/// Mathematical image of a [`Data`] value.
pub ghost enum DataView {
    Struct(FieldsView),
    Enum(Seq<VariantArgsView>),
}

impl View for Data {
    type V = DataView;

    open spec fn view(&self) -> DataView {
        match self {
            Data::Struct(fields) => DataView::Struct(fields@),
            Data::Enum(variants) => DataView::Enum(view_variants(variants@)),
        }
    }
}

/// One generic parameter of the described type: the declaration as
/// written (`T: Clone`, `'a`, `const N: usize`) for the `impl` header,
/// and the bare name (`T`, `'a`, `N`) for the type's argument list.
pub struct GenericParam {
    pub decl: String,
    pub ident: String,
}

/// Mathematical image of a [`GenericParam`] value.
pub ghost struct GenericParamView {
    pub decl: Seq<char>,
    pub ident: Seq<char>,
}

impl View for GenericParam {
    type V = GenericParamView;

    open spec fn view(&self) -> GenericParamView {
        GenericParamView { decl: self.decl@, ident: self.ident@ }
    }
}

/// The views of a sequence of generic parameters, element by element.
pub open spec fn view_params(s: Seq<GenericParam>) -> Seq<GenericParamView> {
    s.map_values(|p: GenericParam| p@)
}

/// The full description of a type for which an implementation is
/// generated.
pub struct TypeArgs {
    /// The type's identifier.
    pub ident: String,
    /// The type's parameters, in declaration order.
    pub generics: Vec<GenericParam>,
    /// The type's fields or variants.
    pub data: Data,
    /// Type-level `with = "<function>"` override.
    pub with: Option<String>,
    /// Type-level `as = "<Type>"` conversion.
    pub as_: Option<String>,
    /// `in_place`: render the fields directly, without a surrounding
    /// tree node.
    pub in_place: bool,
    /// `open = <bool>`: whether the surrounding tree node starts open.
    pub default_open: bool,
    /// `bounds = "<constraint-list>"`: replaces the generated
    /// field-by-field constraints of the implementation's `where`
    /// clause.
    pub bounds: Option<String>,
    /// `no_tag`: leave the tag selector out of an enum's rendering —
    /// the current variant's name is shown read-only — and with it the
    /// `Default` requirement on the fields.
    pub no_tag: bool,
}

/// Mathematical image of a [`TypeArgs`] value.
pub ghost struct TypeArgsView {
    pub ident: Seq<char>,
    pub generics: Seq<GenericParamView>,
    pub data: DataView,
    pub with: Option<Seq<char>>,
    pub as_: Option<Seq<char>>,
    pub in_place: bool,
    pub default_open: bool,
    pub bounds: Option<Seq<char>>,
    pub no_tag: bool,
}

impl View for TypeArgs {
    type V = TypeArgsView;

    open spec fn view(&self) -> TypeArgsView {
        TypeArgsView {
            ident: self.ident@,
            generics: view_params(self.generics@),
            data: self.data@,
            with: opt_view(self.with),
            as_: opt_view(self.as_),
            in_place: self.in_place,
            default_open: self.default_open,
            bounds: opt_view(self.bounds),
            no_tag: self.no_tag,
        }
    }
}

impl TypeArgsView {
    /// Well-formedness: every field list is well formed.
    pub open spec fn wf(self) -> bool {
        match self.data {
            DataView::Struct(fields) => fields.wf(),
            DataView::Enum(variants) => forall|i: int|
                0 <= i < variants.len() ==> (#[trigger] variants[i]).fields.wf(),
        }
    }
}

impl Clone for FieldArgs {
    fn clone(&self) -> (r: Self)
        ensures
            r@ == self@,
    {
        FieldArgs {
            ident: match &self.ident {
                Some(s) => Some(s.clone()),
                None => None,
            },
            ty: self.ty.clone(),
            skip: self.skip,
            as_: match &self.as_ {
                Some(s) => Some(s.clone()),
                None => None,
            },
            with: match &self.with {
                Some(s) => Some(s.clone()),
                None => None,
            },
        }
    }
}

/// The fields of every variant of `variants`, in declaration order.
pub open spec fn spec_variant_fields(variants: Seq<VariantArgsView>) -> Seq<FieldArgsView>
    decreases variants.len(),
{
    if variants.len() == 0 {
        Seq::empty()
    } else {
        variants[0].fields.fields + spec_variant_fields(variants.drop_first())
    }
}

/// All the fields that `data` declares: a struct's own fields, or the
/// fields of every variant of an enum, in declaration order.
pub open spec fn spec_all_fields(data: DataView) -> Seq<FieldArgsView> {
    match data {
        DataView::Struct(fields) => fields.fields,
        DataView::Enum(variants) => spec_variant_fields(variants),
    }
}

/// Clones a field list, element for element.
fn clone_fields(v: &Vec<FieldArgs>) -> (r: Vec<FieldArgs>)
    ensures
        view_fields(r@) == view_fields(v@),
{
    let mut out: Vec<FieldArgs> = Vec::new();
    let ghost gfields = view_fields(v@);
    let n = v.len();
    proof {
        assert(view_fields(out@) =~~= gfields.take(0));
    }
    for i in 0..n
        invariant
            n == v.len(),
            gfields == view_fields(v@),
            view_fields(out@) == gfields.take(i as int),
    {
        let c = v[i].clone();
        let ghost before = out@;
        proof {
            assert(c@ == gfields[i as int]);
        }
        out.push(c);
        proof {
            assert(view_fields(before.push(c)) =~~= view_fields(before).push(c@));
            assert(gfields.take(i as int).push(gfields[i as int]) =~~= gfields.take(i + 1));
        }
    }
    proof {
        assert(gfields.take(n as int) =~~= gfields);
    }
    out
}

impl TypeArgs {
    /// Enumerates all the fields of the struct, or of every enum
    /// variant, in declaration order.
    pub fn all_fields(&self) -> (r: Vec<FieldArgs>)
        ensures
            view_fields(r@) == spec_all_fields(self.data@),
    {
        match &self.data {
            Data::Struct(fields) => clone_fields(&fields.fields),
            Data::Enum(variants) => {
                let mut out: Vec<FieldArgs> = Vec::new();
                let ghost gvars = view_variants(variants@);
                let n = variants.len();
                proof {
                    assert(gvars.skip(0) =~~= gvars);
                    assert(view_fields(out@) + spec_variant_fields(gvars)
                        =~~= spec_variant_fields(gvars));
                }
                for i in 0..n
                    invariant
                        n == variants.len(),
                        gvars == view_variants(variants@),
                        spec_variant_fields(gvars) == view_fields(out@) + spec_variant_fields(
                            gvars.skip(i as int),
                        ),
                {
                    let ghost out0 = view_fields(out@);
                    let mut part = clone_fields(&variants[i].fields.fields);
                    let ghost gfields = view_fields(part@);
                    out.append(&mut part);
                    proof {
                        assert(gvars[i as int] == variants@[i as int]@);
                        assert(gfields == gvars[i as int].fields.fields);
                        assert(view_fields(out@) =~~= out0 + gfields);
                        assert(gvars.skip(i as int).drop_first() =~~= gvars.skip(i + 1));
                        assert(gvars.skip(i as int)[0] == gvars[i as int]);
                        assert(gfields + spec_variant_fields(gvars.skip(i + 1))
                            == spec_variant_fields(gvars.skip(i as int)));
                        assert((out0 + gfields) + spec_variant_fields(gvars.skip(i + 1)) =~~= out0
                            + (gfields + spec_variant_fields(gvars.skip(i + 1))));
                    }
                }
                proof {
                    assert(gvars.skip(n as int) =~~= Seq::<VariantArgsView>::empty());
                    assert(view_fields(out@) + spec_variant_fields(gvars.skip(n as int))
                        =~~= view_fields(out@));
                }
                out
            },
        }
    }
}

} // verus!

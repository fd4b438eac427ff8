//! The generator: from a type descriptor to the implementation.

use vstd::prelude::*;
use crate::args::{Data, Fields, Style, TypeArgs, VariantArgs};
use crate::code::{Body, FieldTarget};

verus! {

/// Why generation rejected a descriptor.  Misuse of the annotation
/// surface is a build-time failure: the generated code itself has no
/// error path.
#[derive(Debug)]
pub enum GenError {
    /// Both `with` and `as` were given at the type level.
    WithAsConflict,
    /// An `as` annotation whose argument is not a type.
    BadAs(String),
    /// A `with` annotation whose argument is not a path.
    BadWith(String),
    /// A `bounds` entry that is not a `where`-clause predicate.
    BadBound(String),
}

/// Mathematical image of a [`GenError`] value.
pub ghost enum GenErrorView {
    WithAsConflict,
    BadAs(Seq<char>),
    BadWith(Seq<char>),
    BadBound(Seq<char>),
}

impl View for GenError {
    type V = GenErrorView;

    open spec fn view(&self) -> GenErrorView {
        match self {
            GenError::WithAsConflict => GenErrorView::WithAsConflict,
            GenError::BadAs(s) => GenErrorView::BadAs(s@),
            GenError::BadWith(s) => GenErrorView::BadWith(s@),
            GenError::BadBound(s) => GenErrorView::BadBound(s@),
        }
    }
}

/// Whether the struct delegates transparently: positional style with
/// exactly one unskipped field.
pub open spec fn spec_transparent(fs: crate::args::FieldsView) -> bool {
    fs.style is Tuple && crate::utils::spec_count_unskipped(fs.fields) == 1
}

/// The declared position of the first unskipped field of `s` (its
/// length when every field is skipped).
pub open spec fn spec_first_unskipped(s: Seq<crate::args::FieldArgsView>) -> nat
    decreases s.len(),
{
    if s.len() == 0 {
        0
    } else if !s[0].skip {
        0
    } else {
        1 + spec_first_unskipped(s.drop_first())
    }
}

/// Finds the declared position of the first unskipped field.
fn first_unskipped(fields: &Vec<crate::args::FieldArgs>) -> (r: usize)
    ensures
        r == spec_first_unskipped(crate::args::view_fields(fields@)),
{
    let ghost g = crate::args::view_fields(fields@);
    let n = fields.len();
    proof {
        assert(g.skip(0) =~~= g);
    }
    for i in 0..n
        invariant
            n == fields.len(),
            g == crate::args::view_fields(fields@),
            spec_first_unskipped(g) == i + spec_first_unskipped(g.skip(i as int)),
            forall|j: int| 0 <= j < i ==> (#[trigger] g[j]).skip,
    {
        proof {
            assert(g.skip(i as int)[0] == g[i as int]);
            assert(g.skip(i as int).drop_first() =~~= g.skip(i + 1));
        }
        if !fields[i].skip {
            return i;
        }
    }
    proof {
        assert(g.skip(n as int) =~~= Seq::<crate::args::FieldArgsView>::empty());
    }
    n
}

/// The `inspect` body generated for a struct.
pub open spec fn spec_struct_body(
    t: crate::args::TypeArgsView,
    fs: crate::args::FieldsView,
) -> crate::code::BodyView {
    if t.as_ is Some {
        crate::code::BodyView::Override(
            crate::code::FieldCodeView::As {
                target: crate::code::FieldTargetView::SelfValue,
                ty: t.as_->0,
            },
        )
    } else if t.with is Some {
        crate::code::BodyView::Override(
            crate::code::FieldCodeView::With {
                target: crate::code::FieldTargetView::SelfValue,
                path: t.with->0,
            },
        )
    } else if spec_transparent(fs) {
        crate::code::BodyView::Transparent(spec_first_unskipped(fs.fields))
    } else if t.in_place {
        crate::code::BodyView::Flatten(
            crate::utils::spec_field_inspectors(crate::utils::TargetKind::SelfField, fs),
        )
    } else if crate::utils::spec_field_inspectors(
        crate::utils::TargetKind::SelfField,
        fs,
    ).len() == 0 {
        crate::code::BodyView::UnitLabel(t.ident)
    } else {
        crate::code::BodyView::Tree {
            default_open: t.default_open,
            stmts: crate::utils::spec_field_inspectors(crate::utils::TargetKind::SelfField, fs),
        }
    }
}

/// Why generation rejects a struct descriptor, if it does; checks run
/// in generation order: the type-level override, then — outside the
/// override and transparent cases — the field annotations, then the
/// `bounds` list.
pub open spec fn spec_struct_error(
    t: crate::args::TypeArgsView,
    fs: crate::args::FieldsView,
) -> Option<GenErrorView> {
    if t.as_ is Some {
        if !crate::parse::is_type_syntax(t.as_->0) {
            Some(GenErrorView::BadAs(t.as_->0))
        } else {
            crate::utils::spec_bounds_error(t)
        }
    } else if t.with is Some {
        if !crate::parse::is_expr_path_syntax(t.with->0) {
            Some(GenErrorView::BadWith(t.with->0))
        } else {
            crate::utils::spec_bounds_error(t)
        }
    } else if spec_transparent(fs) {
        crate::utils::spec_bounds_error(t)
    } else {
        match crate::utils::spec_fields_error(fs.fields) {
            Some(e) => Some(e),
            None => crate::utils::spec_bounds_error(t),
        }
    }
}

/// The implementation generated for a struct.
pub open spec fn spec_struct_impl(
    t: crate::args::TypeArgsView,
    fs: crate::args::FieldsView,
) -> crate::code::InspectImplView {
    crate::code::InspectImplView {
        ty_ident: t.ident,
        generics: t.generics,
        predicates: crate::utils::spec_predicates(t, ": igri::Inspect"@),
        body: spec_struct_body(t, fs),
    }
}

/// Generates the implementation for a struct: a type-level `as` or
/// `with` override, transparent delegation, flattened fields, a label
/// for a field-less struct, or a tree node over the field renderers.
pub fn inspect_struct(ty_args: &TypeArgs, field_args: &Fields) -> (r: Result<
    crate::code::InspectImpl,
    GenError,
>)
    requires
        field_args@.wf(),
    ensures
        r is Ok <==> spec_struct_error(ty_args@, field_args@) is None,
        r matches Ok(im) ==> im@ == spec_struct_impl(ty_args@, field_args@),
        r matches Err(e) ==> Some(e@) == spec_struct_error(ty_args@, field_args@),
{
    let body: Body = if let Some(as_) = &ty_args.as_ {
        match crate::utils::impl_inspect_as(FieldTarget::SelfValue, as_) {
            Ok(c) => Body::Override(c),
            Err(e) => {
                return Err(e);
            },
        }
    } else if let Some(with) = &ty_args.with {
        match crate::utils::impl_inspect_with(FieldTarget::SelfValue, with) {
            Ok(c) => Body::Override(c),
            Err(e) => {
                return Err(e);
            },
        }
    } else {
        let is_transparent = matches!(field_args.style, Style::Tuple) && crate::utils::count_unskipped(
            &field_args.fields,
        ) == 1;
        if is_transparent {
            Body::Transparent(first_unskipped(&field_args.fields))
        } else if ty_args.in_place {
            match crate::utils::field_inspectors(
                crate::utils::TargetKind::SelfField,
                field_args,
            ) {
                Ok(stmts) => Body::Flatten(stmts),
                Err(e) => {
                    return Err(e);
                },
            }
        } else {
            let stmts = match crate::utils::field_inspectors(
                crate::utils::TargetKind::SelfField,
                field_args,
            ) {
                Ok(stmts) => stmts,
                Err(e) => {
                    return Err(e);
                },
            };
            if stmts.len() == 0 {
                Body::UnitLabel(ty_args.ident.clone())
            } else {
                Body::Tree { default_open: ty_args.default_open, stmts }
            }
        }
    };
    let predicates = match crate::utils::struct_inspect_generics(ty_args) {
        Ok(p) => p,
        Err(e) => {
            return Err(e);
        },
    };
    Ok(crate::utils::impl_inspect(ty_args, predicates, body))
}

/// The names of all fields of `s` — the skipped ones included — for a
/// variant pattern's bindings.
pub open spec fn spec_field_names(s: Seq<crate::args::FieldArgsView>) -> Seq<Seq<char>> {
    s.map_values(|f: crate::args::FieldArgsView| f.ident->0)
}

/// The positional bindings `f<i>`, ..., `f<n-1>`.
pub open spec fn spec_tuple_bindings(n: nat, i: nat) -> Seq<Seq<char>>
    decreases n - i,
{
    if i >= n {
        Seq::empty()
    } else {
        seq!["f"@ + crate::text::spec_dec(i)] + spec_tuple_bindings(n, i + 1)
    }
}

/// The pattern of a variant's render arm, with every field bound.
pub open spec fn spec_arm_pattern(v: crate::args::VariantArgsView) -> Seq<char> {
    "Self::"@ + v.ident + match v.fields.style {
        Style::Struct => " { "@ + crate::code::spec_join(spec_field_names(v.fields.fields), ", "@)
            + " }"@,
        Style::Tuple => "("@ + crate::code::spec_join(
            spec_tuple_bindings(v.fields.fields.len(), 0),
            ", "@,
        ) + ")"@,
        Style::Unit => Seq::<char>::empty(),
    }
}

/// The render arm for one variant: its pattern, and the render codes of
/// its unskipped fields over the arm's bindings.
pub open spec fn spec_match_arm(v: crate::args::VariantArgsView) -> crate::code::MatchArmView {
    crate::code::MatchArmView {
        pattern: spec_arm_pattern(v),
        stmts: crate::utils::spec_field_inspectors(crate::utils::TargetKind::ArmBinding, v.fields),
    }
}

/// The render arms of all variants.
pub open spec fn spec_match_arms(
    vs: Seq<crate::args::VariantArgsView>,
) -> Seq<crate::code::MatchArmView> {
    vs.map_values(|v: crate::args::VariantArgsView| spec_match_arm(v))
}

/// The first rejected field annotation over the variants, in order.
pub open spec fn spec_variants_error(vs: Seq<crate::args::VariantArgsView>) -> Option<GenErrorView>
    decreases vs.len(),
{
    if vs.len() == 0 {
        None
    } else {
        match crate::utils::spec_fields_error(vs[0].fields.fields) {
            Some(e) => Some(e),
            None => spec_variants_error(vs.drop_first()),
        }
    }
}

/// Whether no variant carries a field.
pub open spec fn spec_all_variants_empty(vs: Seq<crate::args::VariantArgsView>) -> bool {
    forall|i: int| 0 <= i < vs.len() ==> (#[trigger] vs[i]).fields.fields.len() == 0
}

/// The `inspect` body generated for an enum: the tag selector — or,
/// under `no_tag`, the read-only tag display — alone when no variant
/// carries a field, else inside a tree node together with the matched
/// variant's field renderers.
pub open spec fn spec_enum_body(
    t: crate::args::TypeArgsView,
    vs: Seq<crate::args::VariantArgsView>,
) -> crate::code::BodyView {
    if t.no_tag {
        if spec_all_variants_empty(vs) {
            crate::code::BodyView::CurrentTag(crate::utils::spec_tag_display(t.ident, vs))
        } else {
            crate::code::BodyView::CurrentTagTree {
                display: crate::utils::spec_tag_display(t.ident, vs),
                arms: spec_match_arms(vs),
            }
        }
    } else if spec_all_variants_empty(vs) {
        crate::code::BodyView::TagOnly(crate::utils::spec_tag_selector(t.ident, vs))
    } else {
        crate::code::BodyView::EnumTree {
            selector: crate::utils::spec_tag_selector(t.ident, vs),
            arms: spec_match_arms(vs),
        }
    }
}

/// Why generation rejects an enum descriptor, if it does: a rejected
/// field annotation in variant order, else a rejected `bounds` entry.
pub open spec fn spec_enum_error(
    t: crate::args::TypeArgsView,
    vs: Seq<crate::args::VariantArgsView>,
) -> Option<GenErrorView> {
    match spec_variants_error(vs) {
        Some(e) => Some(e),
        None => crate::utils::spec_bounds_error(t),
    }
}

/// The implementation generated for an enum.
pub open spec fn spec_enum_impl(
    t: crate::args::TypeArgsView,
    vs: Seq<crate::args::VariantArgsView>,
) -> crate::code::InspectImplView {
    crate::code::InspectImplView {
        ty_ident: t.ident,
        generics: t.generics,
        predicates: crate::utils::spec_predicates(t, crate::utils::spec_enum_suffix(t)),
        body: spec_enum_body(t, vs),
    }
}

/// Collects the names of all fields, for a pattern's bindings.
fn field_names(fields: &Vec<crate::args::FieldArgs>) -> (r: Vec<String>)
    requires
        forall|i: int|
            0 <= i < fields@.len() ==> (#[trigger] crate::args::view_fields(
                fields@,
            )[i]).ident is Some,
    ensures
        crate::args::view_strings(r@) == spec_field_names(crate::args::view_fields(fields@)),
{
    let ghost gf = crate::args::view_fields(fields@);
    let ghost g = spec_field_names(gf);
    let mut out: Vec<String> = Vec::new();
    let n = fields.len();
    proof {
        assert(crate::args::view_strings(out@) =~~= g.take(0));
    }
    for i in 0..n
        invariant
            n == fields.len(),
            gf == crate::args::view_fields(fields@),
            g == spec_field_names(gf),
            forall|j: int| 0 <= j < gf.len() ==> (#[trigger] gf[j]).ident is Some,
            crate::args::view_strings(out@) == g.take(i as int),
    {
        let c = fields[i].ident.as_ref().unwrap().clone();
        let ghost before = out@;
        out.push(c);
        proof {
            assert(g[i as int] == gf[i as int].ident->0);
            assert(crate::args::view_strings(before.push(c)) =~~= crate::args::view_strings(
                before,
            ).push(c@));
            assert(g.take(i as int).push(g[i as int]) =~~= g.take(i + 1));
        }
    }
    proof {
        assert(g.take(n as int) =~~= g);
    }
    out
}

/// Builds the positional bindings `f0`, .., `f<n-1>`.
fn tuple_bindings(n: usize) -> (r: Vec<String>)
    ensures
        crate::args::view_strings(r@) == spec_tuple_bindings(n as nat, 0),
{
    let mut out: Vec<String> = Vec::new();
    proof {
        assert(crate::args::view_strings(out@) + spec_tuple_bindings(n as nat, 0)
            =~~= spec_tuple_bindings(n as nat, 0));
    }
    for i in 0..n
        invariant
            spec_tuple_bindings(n as nat, 0) == crate::args::view_strings(out@)
                + spec_tuple_bindings(n as nat, i as nat),
    {
        let mut b = "f".to_owned();
        b.append(crate::text::dec_str(i).as_str());
        let ghost before = out@;
        out.push(b);
        proof {
            assert(crate::args::view_strings(before.push(b)) =~~= crate::args::view_strings(
                before,
            ).push(b@));
            assert(crate::args::view_strings(before).push(b@) + spec_tuple_bindings(
                n as nat,
                (i + 1) as nat,
            ) =~~= crate::args::view_strings(before) + (seq!["f"@ + crate::text::spec_dec(i as nat)]
                + spec_tuple_bindings(n as nat, (i + 1) as nat)));
        }
    }
    out
}

/// Prints the pattern of a variant's render arm.
fn render_arm_pattern(v: &VariantArgs) -> (r: String)
    requires
        v@.fields.wf(),
    ensures
        r@ == spec_arm_pattern(v@),
{
    let mut out = "Self::".to_owned();
    out.append(v.ident.as_str());
    match v.fields.style {
        Style::Struct => {
            let names = field_names(&v.fields.fields);
            out.append(" { ");
            out.append(crate::code::render_join(&names, ", ").as_str());
            out.append(" }");
        },
        Style::Tuple => {
            let bindings = tuple_bindings(v.fields.fields.len());
            out.append("(");
            out.append(crate::code::render_join(&bindings, ", ").as_str());
            out.append(")");
        },
        Style::Unit => {},
    }
    proof {
        assert(out@ =~= spec_arm_pattern(v@));
    }
    out
}

/// Builds the render arm of every variant; the first rejected field
/// annotation aborts generation.
fn variant_arms(variants: &Vec<VariantArgs>) -> (r: Result<Vec<crate::code::MatchArm>, GenError>)
    requires
        forall|i: int|
            0 <= i < variants@.len() ==> (#[trigger] crate::args::view_variants(
                variants@,
            )[i]).fields.wf(),
    ensures
        r is Ok <==> spec_variants_error(crate::args::view_variants(variants@)) is None,
        r matches Ok(v) ==> crate::code::view_arms(v@) == spec_match_arms(
            crate::args::view_variants(variants@),
        ),
        r matches Err(e) ==> Some(e@) == spec_variants_error(crate::args::view_variants(variants@)),
{
    let ghost gvars = crate::args::view_variants(variants@);
    let ghost garms = spec_match_arms(gvars);
    let mut out: Vec<crate::code::MatchArm> = Vec::new();
    let n = variants.len();
    proof {
        assert(gvars.skip(0) =~~= gvars);
        assert(crate::code::view_arms(out@) =~~= garms.take(0));
    }
    for i in 0..n
        invariant
            n == variants.len(),
            gvars == crate::args::view_variants(variants@),
            garms == spec_match_arms(gvars),
            forall|j: int| 0 <= j < gvars.len() ==> (#[trigger] gvars[j]).fields.wf(),
            spec_variants_error(gvars) == spec_variants_error(gvars.skip(i as int)),
            crate::code::view_arms(out@) == garms.take(i as int),
    {
        proof {
            assert(gvars[i as int] == variants@[i as int]@);
            assert(gvars.skip(i as int)[0] == gvars[i as int]);
            assert(gvars.skip(i as int).drop_first() =~~= gvars.skip(i + 1));
        }
        let pattern = render_arm_pattern(&variants[i]);
        let stmts = match crate::utils::field_inspectors(
            crate::utils::TargetKind::ArmBinding,
            &variants[i].fields,
        ) {
            Ok(stmts) => stmts,
            Err(e) => {
                return Err(e);
            },
        };
        let arm = crate::code::MatchArm { pattern, stmts };
        let ghost before = out@;
        out.push(arm);
        proof {
            assert(garms[i as int] == spec_match_arm(gvars[i as int]));
            assert(arm@ == garms[i as int]);
            assert(crate::code::view_arms(before.push(arm)) =~~= crate::code::view_arms(
                before,
            ).push(arm@));
            assert(garms.take(i as int).push(garms[i as int]) =~~= garms.take(i + 1));
        }
    }
    proof {
        assert(gvars.skip(n as int) =~~= Seq::<crate::args::VariantArgsView>::empty());
        assert(garms.take(n as int) =~~= garms);
    }
    Ok(out)
}

/// Whether no variant carries a field.
fn all_variants_empty(variants: &Vec<VariantArgs>) -> (r: bool)
    ensures
        r == spec_all_variants_empty(crate::args::view_variants(variants@)),
{
    let ghost gvars = crate::args::view_variants(variants@);
    let n = variants.len();
    for i in 0..n
        invariant
            n == variants.len(),
            gvars == crate::args::view_variants(variants@),
            forall|j: int| 0 <= j < i ==> (#[trigger] gvars[j]).fields.fields.len() == 0,
    {
        proof {
            assert(gvars[i as int] == variants@[i as int]@);
        }
        if variants[i].fields.fields.len() > 0 {
            return false;
        }
    }
    true
}

/// Generates the implementation for an enum: the tag selector — or,
/// under `no_tag`, the read-only tag display — and, when some variant
/// carries fields, the per-variant field renderers inside a tree node.
pub fn inspect_enum(ty_args: &TypeArgs, variant_args: &Vec<VariantArgs>) -> (r: Result<
    crate::code::InspectImpl,
    GenError,
>)
    requires
        forall|i: int|
            0 <= i < variant_args@.len() ==> (#[trigger] crate::args::view_variants(
                variant_args@,
            )[i]).fields.wf(),
    ensures
        r is Ok <==> spec_enum_error(ty_args@, crate::args::view_variants(variant_args@)) is None,
        r matches Ok(im) ==> im@ == spec_enum_impl(
            ty_args@,
            crate::args::view_variants(variant_args@),
        ),
        r matches Err(e) ==> Some(e@) == spec_enum_error(
            ty_args@,
            crate::args::view_variants(variant_args@),
        ),
{
    let no_fields = all_variants_empty(variant_args);
    if no_fields {
        proof {
            let gvars = crate::args::view_variants(variant_args@);
            assert forall|i: int| 0 <= i < gvars.len() implies crate::utils::spec_fields_error(
                (#[trigger] gvars[i]).fields.fields,
            ) is None by {
                assert(gvars[i].fields.fields.len() == 0);
            }
            assert(spec_variants_error(gvars) is None) by {
                lemma_variants_error_of_empty(gvars);
            }
        }
    }
    let body: Body = if ty_args.no_tag {
        let display = crate::utils::enum_tag_display(ty_args, variant_args);
        if no_fields {
            Body::CurrentTag(display)
        } else {
            let arms = match variant_arms(variant_args) {
                Ok(arms) => arms,
                Err(e) => {
                    return Err(e);
                },
            };
            Body::CurrentTagTree { display, arms }
        }
    } else {
        let selector = crate::utils::enum_tag_selector(ty_args, variant_args);
        if no_fields {
            Body::TagOnly(selector)
        } else {
            let arms = match variant_arms(variant_args) {
                Ok(arms) => arms,
                Err(e) => {
                    return Err(e);
                },
            };
            Body::EnumTree { selector, arms }
        }
    };
    let predicates = match crate::utils::enum_inspect_generics(ty_args) {
        Ok(p) => p,
        Err(e) => {
            return Err(e);
        },
    };
    Ok(crate::utils::impl_inspect(ty_args, predicates, body))
}

/// Variants without fields never carry a rejected field annotation.
proof fn lemma_variants_error_of_empty(vs: Seq<crate::args::VariantArgsView>)
    requires
        forall|i: int| 0 <= i < vs.len() ==> (#[trigger] vs[i]).fields.fields.len() == 0,
    ensures
        spec_variants_error(vs) is None,
    decreases vs.len(),
{
    if vs.len() > 0 {
        lemma_variants_error_of_empty(vs.drop_first());
    }
}

/// Why generation rejects the descriptor `t`, if it does: giving both
/// `with` and `as` at the type level, then the struct or enum checks.
pub open spec fn spec_gen_error(t: crate::args::TypeArgsView) -> Option<GenErrorView> {
    if t.with is Some && t.as_ is Some {
        Some(GenErrorView::WithAsConflict)
    } else {
        match t.data {
            crate::args::DataView::Struct(fs) => spec_struct_error(t, fs),
            crate::args::DataView::Enum(vs) => spec_enum_error(t, vs),
        }
    }
}

/// The implementation generated for the descriptor `t`.
pub open spec fn spec_gen_impl(t: crate::args::TypeArgsView) -> crate::code::InspectImplView {
    match t.data {
        crate::args::DataView::Struct(fs) => spec_struct_impl(t, fs),
        crate::args::DataView::Enum(vs) => spec_enum_impl(t, vs),
    }
}

/// Generates the implementation for the described type.  A descriptor
/// whose annotations are well formed — no type-level `with`/`as`
/// conflict, every `as` argument a type, every `with` argument a path,
/// every `bounds` entry a predicate — is always accepted; any other is
/// rejected with the first offence, and nothing is generated.
pub fn impl_inspect(ast: &TypeArgs) -> (r: Result<crate::code::InspectImpl, GenError>)
    requires
        ast@.wf(),
    ensures
        r is Ok <==> spec_gen_error(ast@) is None,
        r matches Ok(im) ==> im@ == spec_gen_impl(ast@),
        r matches Err(e) ==> Some(e@) == spec_gen_error(ast@),
{
    if ast.with.is_some() && ast.as_.is_some() {
        return Err(GenError::WithAsConflict);
    }
    match &ast.data {
        Data::Struct(fields) => inspect_struct(ast, fields),
        Data::Enum(variants) => inspect_enum(ast, variants),
    }
}

/// Generates the implementation for the described type and prints it
/// as Rust source text.
pub fn inspect(ast: &TypeArgs) -> (r: Result<String, GenError>)
    requires
        ast@.wf(),
    ensures
        r is Ok <==> spec_gen_error(ast@) is None,
        r matches Ok(s) ==> s@ == crate::code::text_impl(spec_gen_impl(ast@)),
        r matches Err(e) ==> Some(e@) == spec_gen_error(ast@),
{
    match impl_inspect(ast) {
        Ok(im) => Ok(crate::code::render_impl(&im)),
        Err(e) => Err(e),
    }
}

} // verus!

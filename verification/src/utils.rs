//! Building blocks of the generator: per-field render code, the enum
//! tag machinery, and the generated `where` clauses.

use vstd::prelude::*;
use crate::args::{FieldArgs, FieldArgsView, Fields, FieldsView, Style, TypeArgs, VariantArgs,
    VariantArgsView, view_fields};
use crate::code::{Body, FieldCode, FieldCodeView, FieldTarget, FieldTargetView, view_codes};
use crate::inspect::{GenError, GenErrorView};
use crate::parse::{is_expr_path_syntax, is_type_syntax};

verus! {

/// The path under which the generated code reaches the UI library.
pub fn imgui_path() -> (r: String)
    ensures
        r@ == "igri::imgui"@,
{
    "igri::imgui".to_owned()
}

/// The path under which the generated code reaches the `Inspect` trait.
pub fn inspect_path() -> (r: String)
    ensures
        r@ == "igri::Inspect"@,
{
    "igri::Inspect".to_owned()
}

/// Where the rendered fields live: on `self`, or bound by a `match`
/// arm.
#[derive(Clone, Copy, PartialEq, Eq, Structural, Debug)]
pub enum TargetKind {
    /// Fields of the inspected struct itself.
    SelfField,
    /// Fields bound by a variant's `match` arm.
    ArmBinding,
}

/// The target for the field `f`, standing at declared position `k`.
pub open spec fn spec_field_target(
    style: Style,
    kind: TargetKind,
    k: nat,
    f: FieldArgsView,
) -> FieldTargetView {
    match kind {
        TargetKind::SelfField => match style {
            Style::Struct => FieldTargetView::SelfNamed(f.ident->0),
            Style::Tuple => FieldTargetView::SelfIndex(k),
            Style::Unit => FieldTargetView::SelfValue,
        },
        TargetKind::ArmBinding => match style {
            Style::Struct => FieldTargetView::Named(f.ident->0),
            Style::Tuple => FieldTargetView::Indexed(k),
            Style::Unit => FieldTargetView::SelfValue,
        },
    }
}

/// The label under which the field `f` is rendered: its name, or its
/// declared position.
pub open spec fn spec_field_label(style: Style, k: nat, f: FieldArgsView) -> Seq<char> {
    match style {
        Style::Struct => f.ident->0,
        Style::Tuple => crate::text::spec_dec(k),
        Style::Unit => Seq::empty(),
    }
}

/// The render code for the field `f`: its `as` conversion or `with`
/// override when one is given (`as` first), else the direct call.
pub open spec fn spec_field_code(
    style: Style,
    kind: TargetKind,
    k: nat,
    f: FieldArgsView,
) -> FieldCodeView {
    let target = spec_field_target(style, kind, k, f);
    if f.as_ is Some {
        FieldCodeView::As { target, ty: f.as_->0 }
    } else if f.with is Some {
        FieldCodeView::With { target, path: f.with->0 }
    } else {
        FieldCodeView::Direct { target, label: spec_field_label(style, k, f) }
    }
}

/// The render codes of the unskipped fields of `s`, whose first field
/// stands at declared position `k`.  A skipped field contributes
/// nothing; the fields after it keep their declared positions.
pub open spec fn spec_field_codes(
    style: Style,
    kind: TargetKind,
    s: Seq<FieldArgsView>,
    k: nat,
) -> Seq<FieldCodeView>
    decreases s.len(),
{
    if s.len() == 0 {
        Seq::empty()
    } else if s[0].skip {
        spec_field_codes(style, kind, s.drop_first(), k + 1)
    } else {
        seq![spec_field_code(style, kind, k, s[0])] + spec_field_codes(
            style,
            kind,
            s.drop_first(),
            k + 1,
        )
    }
}

/// The render codes for a whole field list; a unit field list renders
/// nothing.
pub open spec fn spec_field_inspectors(kind: TargetKind, fs: FieldsView) -> Seq<FieldCodeView> {
    if fs.style is Unit {
        Seq::empty()
    } else {
        spec_field_codes(fs.style, kind, fs.fields, 0)
    }
}

/// The first rejected annotation among the unskipped fields of `s`:
/// an `as` argument that is not a type, or — on a field without `as` —
/// a `with` argument that is not a path.
pub open spec fn spec_fields_error(s: Seq<FieldArgsView>) -> Option<GenErrorView>
    decreases s.len(),
{
    if s.len() == 0 {
        None
    } else if !s[0].skip && s[0].as_ is Some && !is_type_syntax(s[0].as_->0) {
        Some(GenErrorView::BadAs(s[0].as_->0))
    } else if !s[0].skip && s[0].as_ is None && s[0].with is Some && !is_expr_path_syntax(
        s[0].with->0,
    ) {
        Some(GenErrorView::BadWith(s[0].with->0))
    } else {
        spec_fields_error(s.drop_first())
    }
}

/// The number of unskipped fields of `s`.
pub open spec fn spec_count_unskipped(s: Seq<FieldArgsView>) -> nat
    decreases s.len(),
{
    if s.len() == 0 {
        0
    } else if s[0].skip {
        spec_count_unskipped(s.drop_first())
    } else {
        1 + spec_count_unskipped(s.drop_first())
    }
}

/// Counts the unskipped fields.
pub fn count_unskipped(fields: &Vec<FieldArgs>) -> (r: usize)
    ensures
        r == spec_count_unskipped(view_fields(fields@)),
{
    let ghost g = view_fields(fields@);
    let mut count: usize = 0;
    let n = fields.len();
    proof {
        assert(g.skip(0) =~~= g);
    }
    for i in 0..n
        invariant
            n == fields.len(),
            g == view_fields(fields@),
            count <= i,
            spec_count_unskipped(g) == count + spec_count_unskipped(g.skip(i as int)),
    {
        if !fields[i].skip {
            count = count + 1;
        }
        proof {
            assert(g.skip(i as int)[0] == g[i as int]);
            assert(g.skip(i as int).drop_first() =~~= g.skip(i + 1));
        }
    }
    proof {
        assert(g.skip(n as int) =~~= Seq::<FieldArgsView>::empty());
    }
    count
}

/// Render code for an `as` conversion: the value crosses into the
/// named type and back around a nested render call.  The annotation is
/// rejected when its argument is not a type.
pub fn impl_inspect_as(x: FieldTarget, as_: &String) -> (r: Result<FieldCode, GenError>)
    ensures
        is_type_syntax(as_@) ==> (r matches Ok(c) && c@ == (FieldCodeView::As {
            target: x@,
            ty: as_@,
        })),
        !is_type_syntax(as_@) ==> (r matches Err(e) && e@ == GenErrorView::BadAs(as_@)),
{
    if crate::parse::parse_type_ok(as_.as_str()) {
        Ok(FieldCode::As { target: x, ty: as_.clone() })
    } else {
        Err(GenError::BadAs(as_.clone()))
    }
}

/// Render code for a `with` override: a call to the named function.
/// The annotation is rejected when its argument is not a path.
pub fn impl_inspect_with(x_ref: FieldTarget, with: &String) -> (r: Result<FieldCode, GenError>)
    ensures
        is_expr_path_syntax(with@) ==> (r matches Ok(c) && c@ == (FieldCodeView::With {
            target: x_ref@,
            path: with@,
        })),
        !is_expr_path_syntax(with@) ==> (r matches Err(e) && e@ == GenErrorView::BadWith(with@)),
{
    if crate::parse::parse_expr_path_ok(with.as_str()) {
        Ok(FieldCode::With { target: x_ref, path: with.clone() })
    } else {
        Err(GenError::BadWith(with.clone()))
    }
}

/// The render codes of a field list's unskipped fields, in order: each
/// field's `as` or `with` annotation, or the direct call under the
/// field's name or declared position.  The first rejected annotation
/// aborts generation.
pub fn field_inspectors(kind: TargetKind, fields: &Fields) -> (r: Result<Vec<FieldCode>, GenError>)
    requires
        fields@.wf(),
    ensures
        r is Ok <==> spec_fields_error(fields@.fields) is None,
        r matches Ok(v) ==> view_codes(v@) == spec_field_inspectors(kind, fields@),
        r matches Err(e) ==> Some(e@) == spec_fields_error(fields@.fields),
{
    let mut out: Vec<FieldCode> = Vec::new();
    if matches!(fields.style, Style::Unit) {
        return Ok(out);
    }
    let style = fields.style;
    let ghost g = fields@.fields;
    let n = fields.fields.len();
    proof {
        assert(g.skip(0) =~~= g);
        assert(view_codes(out@) + spec_field_codes(style, kind, g, 0) =~~= spec_field_codes(
            style,
            kind,
            g,
            0,
        ));
    }
    for i in 0..n
        invariant
            n == fields.fields.len(),
            g == view_fields(fields.fields@),
            fields@.wf(),
            style == fields.style,
            !(style is Unit),
            spec_fields_error(g) == spec_fields_error(g.skip(i as int)),
            spec_field_codes(style, kind, g, 0) == view_codes(out@) + spec_field_codes(
                style,
                kind,
                g.skip(i as int),
                i as nat,
            ),
    {
        proof {
            assert(g.skip(i as int)[0] == g[i as int]);
            assert(g.skip(i as int).drop_first() =~~= g.skip(i + 1));
        }
        let f = &fields.fields[i];
        if !f.skip {
            let target = if matches!(style, Style::Struct) {
                FieldTarget::SelfNamed(f.ident.as_ref().unwrap().clone())
            } else {
                FieldTarget::SelfIndex(i)
            };
            let target = if matches!(kind, TargetKind::SelfField) {
                target
            } else {
                match target {
                    FieldTarget::SelfNamed(name) => FieldTarget::Named(name),
                    FieldTarget::SelfIndex(idx) => FieldTarget::Indexed(idx),
                    other => other,
                }
            };
            proof {
                assert(target@ == spec_field_target(style, kind, i as nat, g[i as int]));
            }
            let ghost before = out@;
            let code = if let Some(a) = &f.as_ {
                match impl_inspect_as(target, a) {
                    Ok(c) => c,
                    Err(e) => {
                        return Err(e);
                    },
                }
            } else if let Some(w) = &f.with {
                match impl_inspect_with(target, w) {
                    Ok(c) => c,
                    Err(e) => {
                        return Err(e);
                    },
                }
            } else {
                let label = if matches!(style, Style::Struct) {
                    f.ident.as_ref().unwrap().clone()
                } else {
                    crate::text::dec_str(i)
                };
                FieldCode::Direct { target, label }
            };
            proof {
                assert(code@ == spec_field_code(style, kind, i as nat, g[i as int]));
            }
            out.push(code);
            proof {
                assert(view_codes(before.push(code)) =~~= view_codes(before).push(code@));
                assert(view_codes(out@) + spec_field_codes(style, kind, g.skip(i + 1), (i + 1) as nat)
                    =~~= before.map_values(|c: FieldCode| c@) + (seq![
                    spec_field_code(style, kind, i as nat, g[i as int]),
                ] + spec_field_codes(style, kind, g.skip(i + 1), (i + 1) as nat)));
            }
        }
    }
    proof {
        assert(g.skip(n as int) =~~= Seq::<FieldArgsView>::empty());
        assert(view_codes(out@) + spec_field_codes(style, kind, g.skip(n as int), n as nat)
            =~~= view_codes(out@));
    }
    Ok(out)
}

/// The names of the variants, in declaration order.
pub open spec fn spec_variant_names(vs: Seq<VariantArgsView>) -> Seq<Seq<char>> {
    vs.map_values(|v: VariantArgsView| v.ident)
}

/// The tail of a variant's pattern when only the variant matters.
pub open spec fn spec_pattern_tail(style: Style) -> Seq<char> {
    match style {
        Style::Struct => " { .. }"@,
        Style::Tuple => "(..)"@,
        Style::Unit => ""@,
    }
}

/// The `match` arm mapping a value of variant `v` to its index `i`.
pub open spec fn spec_matcher(ty: Seq<char>, v: VariantArgsView, i: nat) -> Seq<char> {
    ty + "::"@ + v.ident + spec_pattern_tail(v.fields.style) + " => "@ + crate::text::spec_dec(i)
        + "usize,\n"@
}

/// The index `match` arms for the variants of `vs`, the first of which
/// has index `i`.
pub open spec fn spec_matchers(ty: Seq<char>, vs: Seq<VariantArgsView>, i: nat) -> Seq<Seq<char>>
    decreases vs.len(),
{
    if vs.len() == 0 {
        Seq::empty()
    } else {
        seq![spec_matcher(ty, vs[0], i)] + spec_matchers(ty, vs.drop_first(), i + 1)
    }
}

/// `name: Default::default(), ` for each named field of `s`.
pub open spec fn spec_default_fields_named(s: Seq<FieldArgsView>) -> Seq<char>
    decreases s.len(),
{
    if s.len() == 0 {
        Seq::empty()
    } else {
        s[0].ident->0 + ": Default::default(), "@ + spec_default_fields_named(s.drop_first())
    }
}

/// `Default::default(), ` repeated `n` times.
pub open spec fn spec_default_fields_tuple(n: nat) -> Seq<char>
    decreases n,
{
    if n == 0 {
        Seq::empty()
    } else {
        "Default::default(), "@ + spec_default_fields_tuple((n - 1) as nat)
    }
}

/// The expression constructing variant `v` of the type `ty` with every
/// field — the skipped ones included — at its default.
pub open spec fn spec_default_expr(ty: Seq<char>, v: VariantArgsView) -> Seq<char> {
    ty + "::"@ + v.ident + match v.fields.style {
        Style::Struct => " { "@ + spec_default_fields_named(v.fields.fields) + "}"@,
        Style::Tuple => "("@ + spec_default_fields_tuple(v.fields.fields.len()) + ")"@,
        Style::Unit => Seq::<char>::empty(),
    }
}

/// The default-construction expressions of the variants of `vs`.
pub open spec fn spec_default_exprs(ty: Seq<char>, vs: Seq<VariantArgsView>) -> Seq<Seq<char>> {
    vs.map_values(|v: VariantArgsView| spec_default_expr(ty, v))
}

/// The whole tag selector for the enum `ty` with variants `vs`.
pub open spec fn spec_tag_selector(
    ty: Seq<char>,
    vs: Seq<VariantArgsView>,
) -> crate::code::TagSelectorView {
    crate::code::TagSelectorView {
        names: spec_variant_names(vs),
        matchers: spec_matchers(ty, vs, 0),
        defaults: spec_default_exprs(ty, vs),
    }
}

/// Collects the variant names.
fn variant_names(variants: &Vec<VariantArgs>) -> (r: Vec<String>)
    ensures
        crate::args::view_strings(r@) == spec_variant_names(crate::args::view_variants(variants@)),
{
    let ghost gvars = crate::args::view_variants(variants@);
    let ghost g = spec_variant_names(gvars);
    let mut out: Vec<String> = Vec::new();
    let n = variants.len();
    proof {
        assert(crate::args::view_strings(out@) =~~= g.take(0));
    }
    for i in 0..n
        invariant
            n == variants.len(),
            gvars == crate::args::view_variants(variants@),
            g == spec_variant_names(gvars),
            crate::args::view_strings(out@) == g.take(i as int),
    {
        let c = variants[i].ident.clone();
        let ghost before = out@;
        out.push(c);
        proof {
            assert(g[i as int] == gvars[i as int].ident);
            assert(crate::args::view_strings(before.push(c)) =~~= crate::args::view_strings(
                before,
            ).push(c@));
            assert(g.take(i as int).push(g[i as int]) =~~= g.take(i + 1));
        }
    }
    proof {
        assert(g.take(n as int) =~~= g);
    }
    out
}

/// Prints the index `match` arm for variant `v` at index `i`.
fn render_matcher(ty: &String, v: &VariantArgs, i: usize) -> (r: String)
    ensures
        r@ == spec_matcher(ty@, v@, i as nat),
{
    let mut out = ty.clone();
    out.append("::");
    out.append(v.ident.as_str());
    match v.fields.style {
        Style::Struct => out.append(" { .. }"),
        Style::Tuple => out.append("(..)"),
        Style::Unit => out.append(""),
    }
    out.append(" => ");
    out.append(crate::text::dec_str(i).as_str());
    out.append("usize,\n");
    proof {
        assert(out@ =~= spec_matcher(ty@, v@, i as nat));
    }
    out
}

/// Collects the index `match` arms of every variant.
fn variant_matchers(ty: &String, variants: &Vec<VariantArgs>) -> (r: Vec<String>)
    ensures
        crate::args::view_strings(r@) == spec_matchers(
            ty@,
            crate::args::view_variants(variants@),
            0,
        ),
{
    let ghost gvars = crate::args::view_variants(variants@);
    let mut out: Vec<String> = Vec::new();
    let n = variants.len();
    proof {
        assert(gvars.skip(0) =~~= gvars);
        assert(crate::args::view_strings(out@) + spec_matchers(ty@, gvars, 0) =~~= spec_matchers(
            ty@,
            gvars,
            0,
        ));
    }
    for i in 0..n
        invariant
            n == variants.len(),
            gvars == crate::args::view_variants(variants@),
            spec_matchers(ty@, gvars, 0) == crate::args::view_strings(out@) + spec_matchers(
                ty@,
                gvars.skip(i as int),
                i as nat,
            ),
    {
        let c = render_matcher(ty, &variants[i], i);
        let ghost before = out@;
        out.push(c);
        proof {
            assert(gvars.skip(i as int)[0] == gvars[i as int]);
            assert(gvars.skip(i as int).drop_first() =~~= gvars.skip(i + 1));
            assert(crate::args::view_strings(before.push(c)) =~~= crate::args::view_strings(
                before,
            ).push(c@));
            assert(crate::args::view_strings(before).push(c@) + spec_matchers(
                ty@,
                gvars.skip(i + 1),
                (i + 1) as nat,
            ) =~~= crate::args::view_strings(before) + (seq![spec_matcher(
                ty@,
                gvars[i as int],
                i as nat,
            )] + spec_matchers(ty@, gvars.skip(i + 1), (i + 1) as nat)));
        }
    }
    proof {
        assert(gvars.skip(n as int) =~~= Seq::<VariantArgsView>::empty());
        assert(crate::args::view_strings(out@) + spec_matchers(ty@, gvars.skip(n as int), n as nat)
            =~~= crate::args::view_strings(out@));
    }
    out
}

/// The variant names and, per variant, the `match` arm giving its
/// index.
fn enum_map(ty_args: &TypeArgs, variants: &Vec<VariantArgs>) -> (r: (Vec<String>, Vec<String>))
    ensures
        crate::args::view_strings(r.0@) == spec_variant_names(
            crate::args::view_variants(variants@),
        ),
        crate::args::view_strings(r.1@) == spec_matchers(
            ty_args.ident@,
            crate::args::view_variants(variants@),
            0,
        ),
{
    let names = variant_names(variants);
    let matchers = variant_matchers(&ty_args.ident, variants);
    (names, matchers)
}

/// Prints `name: Default::default(), ` for every named field.
fn render_default_fields_named(fields: &Vec<FieldArgs>) -> (r: String)
    requires
        forall|i: int| 0 <= i < fields@.len() ==> view_fields(fields@)[i].ident is Some,
    ensures
        r@ == spec_default_fields_named(view_fields(fields@)),
{
    let ghost g = view_fields(fields@);
    let mut out = String::new();
    let n = fields.len();
    proof {
        assert(g.skip(0) =~~= g);
        assert(out@ + spec_default_fields_named(g) =~~= spec_default_fields_named(g));
    }
    for i in 0..n
        invariant
            n == fields.len(),
            g == view_fields(fields@),
            forall|j: int| 0 <= j < g.len() ==> g[j].ident is Some,
            spec_default_fields_named(g) == out@ + spec_default_fields_named(g.skip(i as int)),
    {
        let ghost before = out@;
        proof {
            assert(g.skip(i as int)[0] == g[i as int]);
        }
        out.append(fields[i].ident.as_ref().unwrap().as_str());
        out.append(": Default::default(), ");
        proof {
            assert(g.skip(i as int).drop_first() =~~= g.skip(i + 1));
            assert(out@ + spec_default_fields_named(g.skip(i + 1)) =~~= before + (g[i as int].ident->0
                + ": Default::default(), "@ + spec_default_fields_named(g.skip(i + 1))));
        }
    }
    proof {
        assert(g.skip(n as int) =~~= Seq::<FieldArgsView>::empty());
        assert(out@ + spec_default_fields_named(g.skip(n as int)) =~~= out@);
    }
    out
}

/// Prints `Default::default(), ` once per positional field.
fn render_default_fields_tuple(n: usize) -> (r: String)
    ensures
        r@ == spec_default_fields_tuple(n as nat),
{
    let mut out = String::new();
    proof {
        assert(out@ + spec_default_fields_tuple(n as nat) =~~= spec_default_fields_tuple(n as nat));
    }
    for i in 0..n
        invariant
            spec_default_fields_tuple(n as nat) == out@ + spec_default_fields_tuple(
                (n - i) as nat,
            ),
    {
        let ghost before = out@;
        out.append("Default::default(), ");
        proof {
            assert(out@ + spec_default_fields_tuple((n - i - 1) as nat) =~~= before
                + ("Default::default(), "@ + spec_default_fields_tuple((n - i - 1) as nat)));
        }
    }
    out
}

/// Prints the default-construction expression for variant `v`.
fn render_default_expr(ty: &String, v: &VariantArgs) -> (r: String)
    requires
        v@.fields.wf(),
    ensures
        r@ == spec_default_expr(ty@, v@),
{
    let mut out = ty.clone();
    out.append("::");
    out.append(v.ident.as_str());
    match v.fields.style {
        Style::Struct => {
            out.append(" { ");
            out.append(render_default_fields_named(&v.fields.fields).as_str());
            out.append("}");
        },
        Style::Tuple => {
            out.append("(");
            out.append(render_default_fields_tuple(v.fields.fields.len()).as_str());
            out.append(")");
        },
        Style::Unit => {},
    }
    proof {
        assert(out@ =~= spec_default_expr(ty@, v@));
    }
    out
}

/// The default-construction expression of every variant, for the tag
/// switch: selecting a tag replaces the value by the chosen variant
/// with every field at its default.
pub fn default_variants(ty_args: &TypeArgs, ty_variants: &Vec<VariantArgs>) -> (r: Vec<String>)
    requires
        forall|i: int|
            0 <= i < ty_variants@.len() ==> (#[trigger] crate::args::view_variants(
                ty_variants@,
            )[i]).fields.wf(),
    ensures
        crate::args::view_strings(r@) == spec_default_exprs(
            ty_args.ident@,
            crate::args::view_variants(ty_variants@),
        ),
{
    let ghost gvars = crate::args::view_variants(ty_variants@);
    let ghost g = spec_default_exprs(ty_args.ident@, gvars);
    let mut out: Vec<String> = Vec::new();
    let n = ty_variants.len();
    proof {
        assert(crate::args::view_strings(out@) =~~= g.take(0));
    }
    for i in 0..n
        invariant
            n == ty_variants.len(),
            gvars == crate::args::view_variants(ty_variants@),
            g == spec_default_exprs(ty_args.ident@, gvars),
            forall|j: int| 0 <= j < gvars.len() ==> (#[trigger] gvars[j]).fields.wf(),
            crate::args::view_strings(out@) == g.take(i as int),
    {
        proof {
            assert(gvars[i as int] == ty_variants@[i as int]@);
        }
        let c = render_default_expr(&ty_args.ident, &ty_variants[i]);
        let ghost before = out@;
        out.push(c);
        proof {
            assert(g[i as int] == spec_default_expr(ty_args.ident@, gvars[i as int]));
            assert(crate::args::view_strings(before.push(c)) =~~= crate::args::view_strings(
                before,
            ).push(c@));
            assert(g.take(i as int).push(g[i as int]) =~~= g.take(i + 1));
        }
    }
    proof {
        assert(g.take(n as int) =~~= g);
    }
    out
}

/// Builds the tag selector: the fixed list of selectable tags exactly
/// mirrors the declared variants, and the switch replaces the value by
/// the selected variant's default construction.
pub fn enum_tag_selector(ty_args: &TypeArgs, variant_args: &Vec<VariantArgs>) -> (r:
    crate::code::TagSelector)
    requires
        forall|i: int|
            0 <= i < variant_args@.len() ==> (#[trigger] crate::args::view_variants(
                variant_args@,
            )[i]).fields.wf(),
    ensures
        r@ == spec_tag_selector(ty_args.ident@, crate::args::view_variants(variant_args@)),
{
    let (names, matchers) = enum_map(ty_args, variant_args);
    let defaults = default_variants(ty_args, variant_args);
    crate::code::TagSelector { names, matchers, defaults }
}

/// The read-only tag display for the enum `ty` with variants `vs`.
pub open spec fn spec_tag_display(
    ty: Seq<char>,
    vs: Seq<VariantArgsView>,
) -> crate::code::TagDisplayView {
    crate::code::TagDisplayView {
        names: spec_variant_names(vs),
        matchers: spec_matchers(ty, vs, 0),
    }
}

/// Builds the read-only tag display of a `no_tag` enum: the fixed list
/// of names exactly mirrors the declared variants, and nothing lets
/// the user switch the tag.
pub fn enum_tag_display(ty_args: &TypeArgs, variant_args: &Vec<VariantArgs>) -> (r:
    crate::code::TagDisplay)
    ensures
        r@ == spec_tag_display(ty_args.ident@, crate::args::view_variants(variant_args@)),
{
    let (names, matchers) = enum_map(ty_args, variant_args);
    crate::code::TagDisplay { names, matchers }
}

/// Prints read-only code for the current enum tag: the variant's name
/// is shown as a label, with no way to switch it.
pub fn current_enum_tag(ty_args: &TypeArgs, variant_args: &Vec<VariantArgs>) -> (r: String)
    ensures
        r@ == crate::code::text_display(
            spec_tag_display(ty_args.ident@, crate::args::view_variants(variant_args@)),
        ),
{
    let display = enum_tag_display(ty_args, variant_args);
    crate::code::render_display(&display)
}

/// Clones a list of generic parameters, element for element.
pub fn clone_params(v: &Vec<crate::args::GenericParam>) -> (r: Vec<crate::args::GenericParam>)
    ensures
        crate::args::view_params(r@) == crate::args::view_params(v@),
{
    let ghost g = crate::args::view_params(v@);
    let mut out: Vec<crate::args::GenericParam> = Vec::new();
    let n = v.len();
    proof {
        assert(crate::args::view_params(out@) =~~= g.take(0));
    }
    for i in 0..n
        invariant
            n == v.len(),
            g == crate::args::view_params(v@),
            crate::args::view_params(out@) == g.take(i as int),
    {
        let c = crate::args::GenericParam {
            decl: v[i].decl.clone(),
            ident: v[i].ident.clone(),
        };
        let ghost before = out@;
        out.push(c);
        proof {
            assert(c@ == g[i as int]);
            assert(crate::args::view_params(before.push(c)) =~~= crate::args::view_params(
                before,
            ).push(c@));
            assert(g.take(i as int).push(g[i as int]) =~~= g.take(i + 1));
        }
    }
    proof {
        assert(g.take(n as int) =~~= g);
    }
    out
}

/// Assembles the generated implementation from the descriptor, the
/// `where` predicates and the `inspect` body.
pub fn impl_inspect(ty_args: &TypeArgs, predicates: Vec<String>, inspect_body: Body) -> (r:
    crate::code::InspectImpl)
    ensures
        r@ == (crate::code::InspectImplView {
            ty_ident: ty_args.ident@,
            generics: ty_args@.generics,
            predicates: crate::args::view_strings(predicates@),
            body: inspect_body@,
        }),
{
    crate::code::InspectImpl {
        ty_ident: ty_args.ident.clone(),
        generics: clone_params(&ty_args.generics),
        predicates,
        body: inspect_body,
    }
}

/// One `ty: <suffix>` predicate per unskipped field of `s`.
pub open spec fn spec_inspect_bounds(s: Seq<FieldArgsView>, suffix: Seq<char>) -> Seq<Seq<char>>
    decreases s.len(),
{
    if s.len() == 0 {
        Seq::empty()
    } else if s[0].skip {
        spec_inspect_bounds(s.drop_first(), suffix)
    } else {
        seq![s[0].ty + suffix] + spec_inspect_bounds(s.drop_first(), suffix)
    }
}

/// The first entry of a `bounds` list that is not a `where`-clause
/// predicate.
pub open spec fn spec_pieces_error(ps: Seq<Seq<char>>) -> Option<GenErrorView>
    decreases ps.len(),
{
    if ps.len() == 0 {
        None
    } else if !crate::parse::is_where_predicate_syntax(ps[0]) {
        Some(GenErrorView::BadBound(ps[0]))
    } else {
        spec_pieces_error(ps.drop_first())
    }
}

/// Why the descriptor's `bounds` annotation is rejected, if it is: one
/// of its comma-separated entries is not a predicate.  An absent or
/// empty annotation is never rejected.
pub open spec fn spec_bounds_error(t: crate::args::TypeArgsView) -> Option<GenErrorView> {
    match t.bounds {
        Some(b) => if b.len() == 0 {
            None
        } else {
            spec_pieces_error(crate::text::spec_split_commas(b))
        },
        None => None,
    }
}

/// The `where` predicates generated for the descriptor `t` when each
/// unskipped field's type is bound by `suffix`: the `bounds` annotation
/// verbatim when one is given, else one predicate per unskipped field.
pub open spec fn spec_predicates(
    t: crate::args::TypeArgsView,
    suffix: Seq<char>,
) -> Seq<Seq<char>> {
    match t.bounds {
        Some(b) => if b.len() == 0 {
            Seq::empty()
        } else {
            crate::text::spec_split_commas(b)
        },
        None => spec_inspect_bounds(crate::args::spec_all_fields(t.data), suffix),
    }
}

/// Checks every `bounds` entry; the first that is not a predicate is
/// the error.
fn check_bound_pieces(pieces: &Vec<String>) -> (r: Result<(), GenError>)
    ensures
        r is Ok <==> spec_pieces_error(crate::args::view_strings(pieces@)) is None,
        r matches Err(e) ==> Some(e@) == spec_pieces_error(crate::args::view_strings(pieces@)),
{
    let ghost g = crate::args::view_strings(pieces@);
    let n = pieces.len();
    proof {
        assert(g.skip(0) =~~= g);
    }
    for i in 0..n
        invariant
            n == pieces.len(),
            g == crate::args::view_strings(pieces@),
            spec_pieces_error(g) == spec_pieces_error(g.skip(i as int)),
    {
        proof {
            assert(g.skip(i as int)[0] == g[i as int]);
            assert(g.skip(i as int).drop_first() =~~= g.skip(i + 1));
        }
        if !crate::parse::parse_where_predicate_ok(pieces[i].as_str()) {
            return Err(GenError::BadBound(pieces[i].clone()));
        }
    }
    proof {
        assert(g.skip(n as int) =~~= Seq::<Seq<char>>::empty());
    }
    Ok(())
}

/// One `ty<suffix>` predicate string per unskipped field.
fn render_inspect_bounds(fields: &Vec<FieldArgs>, suffix: &str) -> (r: Vec<String>)
    ensures
        crate::args::view_strings(r@) == spec_inspect_bounds(view_fields(fields@), suffix@),
{
    let ghost g = view_fields(fields@);
    let mut out: Vec<String> = Vec::new();
    let n = fields.len();
    proof {
        assert(g.skip(0) =~~= g);
        assert(crate::args::view_strings(out@) + spec_inspect_bounds(g, suffix@)
            =~~= spec_inspect_bounds(g, suffix@));
    }
    for i in 0..n
        invariant
            n == fields.len(),
            g == view_fields(fields@),
            spec_inspect_bounds(g, suffix@) == crate::args::view_strings(out@)
                + spec_inspect_bounds(g.skip(i as int), suffix@),
    {
        proof {
            assert(g.skip(i as int)[0] == g[i as int]);
            assert(g.skip(i as int).drop_first() =~~= g.skip(i + 1));
        }
        if !fields[i].skip {
            let mut pred = fields[i].ty.clone();
            pred.append(suffix);
            let ghost before = out@;
            out.push(pred);
            proof {
                assert(crate::args::view_strings(before.push(pred)) =~~= crate::args::view_strings(
                    before,
                ).push(pred@));
                assert(crate::args::view_strings(before).push(pred@) + spec_inspect_bounds(
                    g.skip(i + 1),
                    suffix@,
                ) =~~= crate::args::view_strings(before) + (seq![g[i as int].ty + suffix@]
                    + spec_inspect_bounds(g.skip(i + 1), suffix@)));
            }
        }
    }
    proof {
        assert(g.skip(n as int) =~~= Seq::<FieldArgsView>::empty());
        assert(crate::args::view_strings(out@) + spec_inspect_bounds(g.skip(n as int), suffix@)
            =~~= crate::args::view_strings(out@));
    }
    out
}

/// The generated `where` predicates for `t` bounding each unskipped
/// field's type by `suffix`, unless a `bounds` annotation replaces
/// them; a `bounds` entry that is not a predicate is rejected.
fn inspect_generics(ty_args: &TypeArgs, suffix: &str) -> (r: Result<Vec<String>, GenError>)
    ensures
        r is Ok <==> spec_bounds_error(ty_args@) is None,
        r matches Ok(v) ==> crate::args::view_strings(v@) == spec_predicates(ty_args@, suffix@),
        r matches Err(e) ==> Some(e@) == spec_bounds_error(ty_args@),
{
    match &ty_args.bounds {
        Some(b) => {
            if b.as_str().unicode_len() == 0 {
                Ok(Vec::new())
            } else {
                let pieces = crate::text::split_commas(b.as_str());
                match check_bound_pieces(&pieces) {
                    Ok(_) => Ok(pieces),
                    Err(e) => Err(e),
                }
            }
        },
        None => {
            let all = ty_args.all_fields();
            Ok(render_inspect_bounds(&all, suffix))
        },
    }
}

/// The `where` predicates of a struct's implementation: by default each
/// unskipped field's type must itself support inspection.
pub fn struct_inspect_generics(ty_args: &TypeArgs) -> (r: Result<Vec<String>, GenError>)
    ensures
        r is Ok <==> spec_bounds_error(ty_args@) is None,
        r matches Ok(v) ==> crate::args::view_strings(v@) == spec_predicates(
            ty_args@,
            ": igri::Inspect"@,
        ),
        r matches Err(e) ==> Some(e@) == spec_bounds_error(ty_args@),
{
    inspect_generics(ty_args, ": igri::Inspect")
}

/// The bound suffix of an enum's generated predicates: with `no_tag`
/// only inspection is needed; otherwise the tag switch also demands a
/// default value from every field.
pub open spec fn spec_enum_suffix(t: crate::args::TypeArgsView) -> Seq<char> {
    if t.no_tag {
        ": igri::Inspect"@
    } else {
        ": igri::Inspect + Default"@
    }
}

/// The `where` predicates of an enum's implementation: each unskipped
/// field's type must support inspection and — for the tag switch,
/// unless `no_tag` disables it — supply a default value.
pub fn enum_inspect_generics(ty_args: &TypeArgs) -> (r: Result<Vec<String>, GenError>)
    ensures
        r is Ok <==> spec_bounds_error(ty_args@) is None,
        r matches Ok(v) ==> crate::args::view_strings(v@) == spec_predicates(
            ty_args@,
            spec_enum_suffix(ty_args@),
        ),
        r matches Err(e) ==> Some(e@) == spec_bounds_error(ty_args@),
{
    if ty_args.no_tag {
        inspect_generics(ty_args, ": igri::Inspect")
    } else {
        inspect_generics(ty_args, ": igri::Inspect + Default")
    }
}

} // verus!

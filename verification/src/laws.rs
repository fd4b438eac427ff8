//! The library's laws: what holds of every generated implementation.

use vstd::prelude::*;
use crate::args::{DataView, FieldArgsView, FieldsView, TypeArgsView, VariantArgsView,
    spec_all_fields};
use crate::code::{BodyView, text_body};
use crate::inspect::{spec_gen_error, spec_struct_impl, spec_transparent};
use crate::utils::{TargetKind, spec_count_unskipped, spec_default_expr, spec_field_code,
    spec_field_codes, spec_field_inspectors, spec_fields_error, spec_inspect_bounds,
    spec_predicates, spec_tag_selector};

verus! {

/// The unskipped fields of `s`, in order.
pub open spec fn spec_unskipped(s: Seq<FieldArgsView>) -> Seq<FieldArgsView>
    decreases s.len(),
{
    if s.len() == 0 {
        Seq::empty()
    } else if s[0].skip {
        spec_unskipped(s.drop_first())
    } else {
        seq![s[0]] + spec_unskipped(s.drop_first())
    }
}

/// There are as many unskipped fields as their count says.
pub proof fn lemma_unskipped_len(s: Seq<FieldArgsView>)
    ensures
        spec_unskipped(s).len() == spec_count_unskipped(s),
    decreases s.len(),
{
    if s.len() > 0 {
        lemma_unskipped_len(s.drop_first());
    }
}

/// The unskipped fields of `s` paired with their declared positions,
/// the first field of `s` standing at position `base`.
pub open spec fn spec_unskipped_indexed(s: Seq<FieldArgsView>, base: nat) -> Seq<
    (nat, FieldArgsView),
>
    decreases s.len(),
{
    if s.len() == 0 {
        Seq::empty()
    } else if s[0].skip {
        spec_unskipped_indexed(s.drop_first(), base + 1)
    } else {
        seq![(base, s[0])] + spec_unskipped_indexed(s.drop_first(), base + 1)
    }
}

/// The indexed unskipped fields are one per unskipped field; each pair
/// holds a field of `s` at its declared position, never a skipped one,
/// and the positions grow strictly.
pub proof fn lemma_unskipped_indexed(s: Seq<FieldArgsView>, base: nat)
    ensures
        spec_unskipped_indexed(s, base).len() == spec_count_unskipped(s),
        forall|j: int|
            0 <= j < spec_unskipped_indexed(s, base).len() ==> {
                let p = #[trigger] spec_unskipped_indexed(s, base)[j];
                &&& base <= p.0 < base + s.len()
                &&& p.1 == s[p.0 - base]
                &&& !p.1.skip
            },
        forall|j1: int, j2: int|
            0 <= j1 < j2 < spec_unskipped_indexed(s, base).len()
                ==> (#[trigger] spec_unskipped_indexed(s, base)[j1]).0 < (
            #[trigger] spec_unskipped_indexed(s, base)[j2]).0,
    decreases s.len(),
{
    if s.len() > 0 {
        lemma_unskipped_indexed(s.drop_first(), base + 1);
    }
}

/// The render codes of a field list are exactly one per unskipped
/// field, in order: the `j`-th code renders the `j`-th unskipped field
/// at that field's declared position.
pub proof fn lemma_field_codes_unskipped(
    style: crate::args::Style,
    kind: TargetKind,
    s: Seq<FieldArgsView>,
    base: nat,
)
    ensures
        spec_field_codes(style, kind, s, base).len() == spec_unskipped_indexed(s, base).len(),
        forall|j: int|
            0 <= j < spec_unskipped_indexed(s, base).len() ==> spec_field_codes(
                style,
                kind,
                s,
                base,
            )[j] == spec_field_code(
                style,
                kind,
                (#[trigger] spec_unskipped_indexed(s, base)[j]).0,
                spec_unskipped_indexed(s, base)[j].1,
            ),
    decreases s.len(),
{
    if s.len() > 0 {
        lemma_field_codes_unskipped(style, kind, s.drop_first(), base + 1);
    }
}

/// Law: a field marked `skip` is absent from the generated render
/// body.  The body's render codes are exactly one per unskipped field,
/// in declaration order, each addressing its field at the field's
/// declared position; no code of the body touches a skipped field.
pub proof fn lemma_skip_absent_from_body(kind: TargetKind, fs: FieldsView)
    requires
        fs.wf(),
    ensures
        spec_field_inspectors(kind, fs).len() == spec_count_unskipped(fs.fields),
        forall|j: int|
            0 <= j < spec_field_inspectors(kind, fs).len() ==> {
                let p = #[trigger] spec_unskipped_indexed(fs.fields, 0)[j];
                &&& spec_field_inspectors(kind, fs)[j] == spec_field_code(fs.style, kind, p.0, p.1)
                &&& p.0 < fs.fields.len()
                &&& p.1 == fs.fields[p.0 as int]
                &&& !p.1.skip
            },
        forall|j1: int, j2: int|
            0 <= j1 < j2 < spec_field_inspectors(kind, fs).len()
                ==> (#[trigger] spec_unskipped_indexed(fs.fields, 0)[j1]).0 < (
            #[trigger] spec_unskipped_indexed(fs.fields, 0)[j2]).0,
{
    lemma_unskipped_indexed(fs.fields, 0);
    if fs.style is Unit {
    } else {
        lemma_field_codes_unskipped(fs.style, kind, fs.fields, 0);
    }
}

/// The generated bound list has exactly one entry per unskipped field:
/// the field's type under the given suffix.
pub proof fn lemma_inspect_bounds_unskipped(s: Seq<FieldArgsView>, suffix: Seq<char>)
    ensures
        spec_inspect_bounds(s, suffix).len() == spec_unskipped(s).len(),
        forall|j: int|
            0 <= j < spec_unskipped(s).len() ==> spec_inspect_bounds(s, suffix)[j] == (
            #[trigger] spec_unskipped(s)[j]).ty + suffix,
    decreases s.len(),
{
    if s.len() > 0 {
        lemma_inspect_bounds_unskipped(s.drop_first(), suffix);
    }
}

/// Law: a field marked `skip` imposes no constraint on the generated
/// bounds.  Without a `bounds` override, the `where` clause holds
/// exactly one predicate per unskipped field — the field's type bound
/// by `suffix` — and so mentions no skipped field's type.
pub proof fn lemma_skip_imposes_no_bound(t: TypeArgsView, suffix: Seq<char>)
    requires
        t.bounds is None,
    ensures
        spec_predicates(t, suffix).len() == spec_count_unskipped(spec_all_fields(t.data)),
        spec_predicates(t, suffix).len() == spec_unskipped(spec_all_fields(t.data)).len(),
        forall|j: int|
            0 <= j < spec_unskipped(spec_all_fields(t.data)).len() ==> spec_predicates(t, suffix)[j]
                == (#[trigger] spec_unskipped(spec_all_fields(t.data))[j]).ty + suffix,
{
    lemma_unskipped_len(spec_all_fields(t.data));
    lemma_inspect_bounds_unskipped(spec_all_fields(t.data), suffix);
}

/// The first unskipped field stands inside the list, is not skipped,
/// and everything before it is skipped.
pub proof fn lemma_first_unskipped(s: Seq<FieldArgsView>)
    requires
        spec_count_unskipped(s) >= 1,
    ensures
        crate::inspect::spec_first_unskipped(s) < s.len(),
        !s[crate::inspect::spec_first_unskipped(s) as int].skip,
        forall|j: int| 0 <= j < crate::inspect::spec_first_unskipped(s) ==> (#[trigger] s[j]).skip,
    decreases s.len(),
{
    if s.len() > 0 && s[0].skip {
        assert(spec_count_unskipped(s) == spec_count_unskipped(s.drop_first()));
        lemma_first_unskipped(s.drop_first());
        let f0 = crate::inspect::spec_first_unskipped(s.drop_first());
        assert(crate::inspect::spec_first_unskipped(s) == 1 + f0);
        assert(s.drop_first()[f0 as int] == s[f0 as int + 1]);
        assert forall|j: int|
            0 <= j < crate::inspect::spec_first_unskipped(s) implies (#[trigger] s[j]).skip by {
            if j > 0 {
                assert(s.drop_first()[j - 1].skip);
                assert(s.drop_first()[j - 1] == s[j]);
            }
        }
    }
}

/// Law: a positional struct with exactly one unskipped field delegates
/// transparently.  Its generated body is exactly the direct render
/// call on that sole unskipped field, at the field's declared index
/// and under the caller's own label — no tree node, no extra nesting.
pub proof fn lemma_transparent_delegation(t: TypeArgsView, fs: FieldsView)
    requires
        t.data == DataView::Struct(fs),
        t.as_ is None,
        t.with is None,
        fs.style is Tuple,
        spec_count_unskipped(fs.fields) == 1,
    ensures
        spec_struct_impl(t, fs).body == crate::code::BodyView::Transparent(
            crate::inspect::spec_first_unskipped(fs.fields),
        ),
        crate::inspect::spec_first_unskipped(fs.fields) < fs.fields.len(),
        !fs.fields[crate::inspect::spec_first_unskipped(fs.fields) as int].skip,
        text_body(spec_struct_impl(t, fs).body) == "use igri::Inspect;\nself."@
            + crate::text::spec_dec(crate::inspect::spec_first_unskipped(fs.fields))
            + ".inspect(ui, label);\n"@,
{
    assert(spec_transparent(fs));
    lemma_first_unskipped(fs.fields);
}

/// Law: the set of selectable tags is fixed at generation and exactly
/// mirrors the declared variants — name for name, in order — and
/// switching to tag `i` yields the construction of variant `i` with
/// every one of its declared fields at its default value.  The
/// selector stands in the generated body whenever `no_tag` does not
/// disable it (see [`lemma_no_tag_disables_switching`]).
pub proof fn lemma_tag_switch_selects_default(
    t: TypeArgsView,
    vs: Seq<VariantArgsView>,
    i: int,
)
    requires
        t.data == DataView::Enum(vs),
        0 <= i < vs.len(),
    ensures
        spec_tag_selector(t.ident, vs).names.len() == vs.len(),
        spec_tag_selector(t.ident, vs).defaults.len() == vs.len(),
        spec_tag_selector(t.ident, vs).names[i] == vs[i].ident,
        spec_tag_selector(t.ident, vs).defaults[i] == spec_default_expr(t.ident, vs[i]),
        crate::inspect::spec_enum_impl(t, vs).body matches BodyView::TagOnly(sel)
            ==> sel == spec_tag_selector(t.ident, vs),
        crate::inspect::spec_enum_impl(t, vs).body matches BodyView::EnumTree { selector, .. }
            ==> selector == spec_tag_selector(t.ident, vs),
{
}

/// Law: `no_tag` disables tag switching.  The generated body holds the
/// read-only tag display — whose name list still mirrors the declared
/// variants exactly — in place of the selector, and the generated
/// bounds ask each unskipped field's type only for inspection, not for
/// a default value.
pub proof fn lemma_no_tag_disables_switching(t: TypeArgsView, vs: Seq<VariantArgsView>)
    requires
        t.data == DataView::Enum(vs),
        t.no_tag,
    ensures
        crate::inspect::spec_enum_impl(t, vs).predicates == spec_predicates(
            t,
            ": igri::Inspect"@,
        ),
        crate::inspect::spec_all_variants_empty(vs) ==> crate::inspect::spec_enum_impl(t, vs).body
            == crate::code::BodyView::CurrentTag(crate::utils::spec_tag_display(t.ident, vs)),
        !crate::inspect::spec_all_variants_empty(vs) ==> crate::inspect::spec_enum_impl(t, vs).body
            == (crate::code::BodyView::CurrentTagTree {
            display: crate::utils::spec_tag_display(t.ident, vs),
            arms: crate::inspect::spec_match_arms(vs),
        }),
        crate::utils::spec_tag_display(t.ident, vs).names == crate::utils::spec_variant_names(vs),
{
}

/// Whether the descriptor carries no annotation argument at all: no
/// type-level `as`, `with` or `bounds`, and no `as` or `with` on any
/// field.
pub open spec fn spec_plain(t: TypeArgsView) -> bool {
    &&& t.as_ is None
    &&& t.with is None
    &&& t.bounds is None
    &&& match t.data {
        DataView::Struct(fs) => spec_plain_fields(fs.fields),
        DataView::Enum(vs) => forall|i: int|
            0 <= i < vs.len() ==> spec_plain_fields((#[trigger] vs[i]).fields.fields),
    }
}

/// Whether no field of `s` carries an `as` or `with` argument.
pub open spec fn spec_plain_fields(s: Seq<FieldArgsView>) -> bool {
    forall|i: int| 0 <= i < s.len() ==> (#[trigger] s[i]).as_ is None && s[i].with is None
}

/// Plain fields are never rejected.
proof fn lemma_plain_fields_ok(s: Seq<FieldArgsView>)
    requires
        spec_plain_fields(s),
    ensures
        spec_fields_error(s) is None,
    decreases s.len(),
{
    if s.len() > 0 {
        assert(spec_plain_fields(s.drop_first()));
        lemma_plain_fields_ok(s.drop_first());
    }
}

/// Plain variants are never rejected.
proof fn lemma_plain_variants_ok(vs: Seq<VariantArgsView>)
    requires
        forall|i: int| 0 <= i < vs.len() ==> spec_plain_fields((#[trigger] vs[i]).fields.fields),
    ensures
        crate::inspect::spec_variants_error(vs) is None,
    decreases vs.len(),
{
    if vs.len() > 0 {
        lemma_plain_fields_ok(vs[0].fields.fields);
        assert(forall|i: int|
            0 <= i < vs.drop_first().len() ==> spec_plain_fields(
                (#[trigger] vs.drop_first()[i]).fields.fields,
            ));
        lemma_plain_variants_ok(vs.drop_first());
    }
}

/// Law: a type whose fields carry no annotation argument is always
/// accepted — generation returns its implementation and never an
/// error.  (That the generated code then compiles, and renders without
/// failure for every initial field value, is a property of the emitted
/// program, outside this library's reach.)
pub proof fn lemma_plain_descriptor_generates(t: TypeArgsView)
    requires
        spec_plain(t),
    ensures
        spec_gen_error(t) is None,
{
    match t.data {
        DataView::Struct(fs) => {
            lemma_plain_fields_ok(fs.fields);
        },
        DataView::Enum(vs) => {
            lemma_plain_variants_ok(vs);
        },
    }
}

} // verus!

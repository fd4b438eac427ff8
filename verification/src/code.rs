//! The generated implementation, as structured code.
//!
//! The generator does not hand back raw text in one step: it first
//! builds an [`InspectImpl`] value — the implementation's identifier,
//! its type parameters, its `where` predicates and its body, with one
//! [`FieldCode`] per rendered field — and a printer then turns that
//! value into Rust source text.  The structured form is what the
//! library's laws are stated over.

use vstd::prelude::*;

verus! {

/// How the generated code reaches one field.
pub enum FieldTarget {
    /// The whole value: `self`.
    SelfValue,
    /// A named field of the value: `(&mut self.name)`.
    SelfNamed(String),
    /// A positional field of the value: `(&mut self.0)`.
    SelfIndex(usize),
    /// A named binding of a `match` arm: `name`.
    Named(String),
    /// A positional binding of a `match` arm: `f0`.
    Indexed(usize),
}

/// Mathematical image of a [`FieldTarget`] value.
pub ghost enum FieldTargetView {
    SelfValue,
    SelfNamed(Seq<char>),
    SelfIndex(nat),
    Named(Seq<char>),
    Indexed(nat),
}

impl View for FieldTarget {
    type V = FieldTargetView;

    open spec fn view(&self) -> FieldTargetView {
        match self {
            FieldTarget::SelfValue => FieldTargetView::SelfValue,
            FieldTarget::SelfNamed(n) => FieldTargetView::SelfNamed(n@),
            FieldTarget::SelfIndex(i) => FieldTargetView::SelfIndex(*i as nat),
            FieldTarget::Named(n) => FieldTargetView::Named(n@),
            FieldTarget::Indexed(i) => FieldTargetView::Indexed(*i as nat),
        }
    }
}

/// The code rendering one field (or, for a type-level override, the
/// whole value).
pub enum FieldCode {
    /// Default rendering: `target.inspect(ui, "label");`.
    Direct { target: FieldTarget, label: String },
    /// `as` conversion: round-trip the target through the named type
    /// via `Into` around a nested render call.
    As { target: FieldTarget, ty: String },
    /// `with` override: `path(target, ui, label);`.
    With { target: FieldTarget, path: String },
}

/// Mathematical image of a [`FieldCode`] value.
pub ghost enum FieldCodeView {
    Direct { target: FieldTargetView, label: Seq<char> },
    As { target: FieldTargetView, ty: Seq<char> },
    With { target: FieldTargetView, path: Seq<char> },
}

impl View for FieldCode {
    type V = FieldCodeView;

    open spec fn view(&self) -> FieldCodeView {
        match self {
            FieldCode::Direct { target, label } => FieldCodeView::Direct {
                target: target@,
                label: label@,
            },
            FieldCode::As { target, ty } => FieldCodeView::As { target: target@, ty: ty@ },
            FieldCode::With { target, path } => FieldCodeView::With {
                target: target@,
                path: path@,
            },
        }
    }
}

/// The views of a sequence of field codes, element by element.
pub open spec fn view_codes(s: Seq<FieldCode>) -> Seq<FieldCodeView> {
    s.map_values(|c: FieldCode| c@)
}

/// The tag selector of an enum implementation: the variant names shown
/// in the combo box, one `match` arm mapping each variant to its index,
/// and one default-construction expression per variant for the switch.
pub struct TagSelector {
    /// The variant names, in declaration order.
    pub names: Vec<String>,
    /// Per variant, the full `match` arm mapping a value of that
    /// variant to its index.
    pub matchers: Vec<String>,
    /// Per variant, the expression constructing that variant with every
    /// field at its default.
    pub defaults: Vec<String>,
}

/// Mathematical image of a [`TagSelector`] value.
pub ghost struct TagSelectorView {
    pub names: Seq<Seq<char>>,
    pub matchers: Seq<Seq<char>>,
    pub defaults: Seq<Seq<char>>,
}

impl View for TagSelector {
    type V = TagSelectorView;

    open spec fn view(&self) -> TagSelectorView {
        TagSelectorView {
            names: crate::args::view_strings(self.names@),
            matchers: crate::args::view_strings(self.matchers@),
            defaults: crate::args::view_strings(self.defaults@),
        }
    }
}

/// The read-only counterpart of the tag selector, for `no_tag` enums:
/// the variant names and, per variant, the `match` arm giving the
/// current value's index; the current name is shown as a label and
/// cannot be switched.
pub struct TagDisplay {
    /// The variant names, in declaration order.
    pub names: Vec<String>,
    /// Per variant, the full `match` arm mapping a value of that
    /// variant to its index.
    pub matchers: Vec<String>,
}

/// Mathematical image of a [`TagDisplay`] value.
pub ghost struct TagDisplayView {
    pub names: Seq<Seq<char>>,
    pub matchers: Seq<Seq<char>>,
}

impl View for TagDisplay {
    type V = TagDisplayView;

    open spec fn view(&self) -> TagDisplayView {
        TagDisplayView {
            names: crate::args::view_strings(self.names@),
            matchers: crate::args::view_strings(self.matchers@),
        }
    }
}

/// One arm of the `match self` that renders the fields of the matched
/// variant.
pub struct MatchArm {
    /// The arm's pattern, bindings included: `Self::V { a, b }`.
    pub pattern: String,
    /// The render code for the variant's unskipped fields.
    pub stmts: Vec<FieldCode>,
}

/// Mathematical image of a [`MatchArm`] value.
pub ghost struct MatchArmView {
    pub pattern: Seq<char>,
    pub stmts: Seq<FieldCodeView>,
}

impl View for MatchArm {
    type V = MatchArmView;

    open spec fn view(&self) -> MatchArmView {
        MatchArmView { pattern: self.pattern@, stmts: view_codes(self.stmts@) }
    }
}

/// The views of a sequence of match arms, element by element.
pub open spec fn view_arms(s: Seq<MatchArm>) -> Seq<MatchArmView> {
    s.map_values(|a: MatchArm| a@)
}

/// The body of the generated `inspect` method.
pub enum Body {
    /// A type-level `as` or `with` override: one piece of code for the
    /// whole value.
    Override(FieldCode),
    /// Transparent delegation of a positional struct with one unskipped
    /// field: the direct render call on that field, at its declared
    /// index.
    Transparent(usize),
    /// `in_place`: the field renderers, one after the other, with no
    /// surrounding node.
    Flatten(Vec<FieldCode>),
    /// A struct without renderable fields: a label showing the type's
    /// name.
    UnitLabel(String),
    /// The ordinary struct body: a tree node holding the field
    /// renderers.
    Tree { default_open: bool, stmts: Vec<FieldCode> },
    /// An enum whose variants carry no fields: the tag selector alone.
    TagOnly(TagSelector),
    /// An enum with field-carrying variants: a tree node holding the
    /// tag selector and the per-variant field renderers.
    EnumTree { selector: TagSelector, arms: Vec<MatchArm> },
    /// A `no_tag` enum whose variants carry no fields: the read-only
    /// tag display alone.
    CurrentTag(TagDisplay),
    /// A `no_tag` enum with field-carrying variants: a tree node
    /// holding the read-only tag display and the per-variant field
    /// renderers.
    CurrentTagTree { display: TagDisplay, arms: Vec<MatchArm> },
}

/// Mathematical image of a [`Body`] value.
pub ghost enum BodyView {
    Override(FieldCodeView),
    Transparent(nat),
    Flatten(Seq<FieldCodeView>),
    UnitLabel(Seq<char>),
    Tree { default_open: bool, stmts: Seq<FieldCodeView> },
    TagOnly(TagSelectorView),
    EnumTree { selector: TagSelectorView, arms: Seq<MatchArmView> },
    CurrentTag(TagDisplayView),
    CurrentTagTree { display: TagDisplayView, arms: Seq<MatchArmView> },
}

impl View for Body {
    type V = BodyView;

    open spec fn view(&self) -> BodyView {
        match self {
            Body::Override(c) => BodyView::Override(c@),
            Body::Transparent(index) => BodyView::Transparent(*index as nat),
            Body::Flatten(stmts) => BodyView::Flatten(view_codes(stmts@)),
            Body::UnitLabel(ty) => BodyView::UnitLabel(ty@),
            Body::Tree { default_open, stmts } => BodyView::Tree {
                default_open: *default_open,
                stmts: view_codes(stmts@),
            },
            Body::TagOnly(sel) => BodyView::TagOnly(sel@),
            Body::EnumTree { selector, arms } => BodyView::EnumTree {
                selector: selector@,
                arms: view_arms(arms@),
            },
            Body::CurrentTag(display) => BodyView::CurrentTag(display@),
            Body::CurrentTagTree { display, arms } => BodyView::CurrentTagTree {
                display: display@,
                arms: view_arms(arms@),
            },
        }
    }
}

/// The whole generated implementation.
pub struct InspectImpl {
    /// The identifier of the type the implementation is for.
    pub ty_ident: String,
    /// The type's parameters.
    pub generics: Vec<crate::args::GenericParam>,
    /// The predicates of the implementation's `where` clause.
    pub predicates: Vec<String>,
    /// The body of the `inspect` method.
    pub body: Body,
}

/// Mathematical image of an [`InspectImpl`] value.
pub ghost struct InspectImplView {
    pub ty_ident: Seq<char>,
    pub generics: Seq<crate::args::GenericParamView>,
    pub predicates: Seq<Seq<char>>,
    pub body: BodyView,
}

impl View for InspectImpl {
    type V = InspectImplView;

    open spec fn view(&self) -> InspectImplView {
        InspectImplView {
            ty_ident: self.ty_ident@,
            generics: crate::args::view_params(self.generics@),
            predicates: crate::args::view_strings(self.predicates@),
            body: self.body@,
        }
    }
}

/// The concatenation of `ss`.
pub open spec fn spec_cat(ss: Seq<Seq<char>>) -> Seq<char>
    decreases ss.len(),
{
    if ss.len() == 0 {
        Seq::empty()
    } else {
        ss[0] + spec_cat(ss.drop_first())
    }
}

/// `sep` before each element of `ss`, concatenated.
pub open spec fn spec_join_rest(ss: Seq<Seq<char>>, sep: Seq<char>) -> Seq<char>
    decreases ss.len(),
{
    if ss.len() == 0 {
        Seq::empty()
    } else {
        sep + ss[0] + spec_join_rest(ss.drop_first(), sep)
    }
}

/// The elements of `ss` joined by `sep`.
pub open spec fn spec_join(ss: Seq<Seq<char>>, sep: Seq<char>) -> Seq<char> {
    if ss.len() == 0 {
        Seq::empty()
    } else {
        ss[0] + spec_join_rest(ss.drop_first(), sep)
    }
}

/// Concatenates the strings of `ss`.
pub fn render_cat(ss: &Vec<String>) -> (r: String)
    ensures
        r@ == spec_cat(crate::args::view_strings(ss@)),
{
    let ghost g = crate::args::view_strings(ss@);
    let mut out = String::new();
    let n = ss.len();
    proof {
        assert(g.skip(0) =~~= g);
        assert(out@ + spec_cat(g) =~~= spec_cat(g));
    }
    for i in 0..n
        invariant
            n == ss.len(),
            g == crate::args::view_strings(ss@),
            spec_cat(g) == out@ + spec_cat(g.skip(i as int)),
    {
        let ghost before = out@;
        out.append(ss[i].as_str());
        proof {
            assert(g.skip(i as int)[0] == g[i as int]);
            assert(g.skip(i as int).drop_first() =~~= g.skip(i + 1));
            assert(out@ + spec_cat(g.skip(i + 1)) =~~= before + (g[i as int] + spec_cat(
                g.skip(i + 1),
            )));
        }
    }
    proof {
        assert(g.skip(n as int) =~~= Seq::<Seq<char>>::empty());
        assert(out@ + spec_cat(g.skip(n as int)) =~~= out@);
    }
    out
}

/// Joins the strings of `ss` with `sep` between each two.
pub fn render_join(ss: &Vec<String>, sep: &str) -> (r: String)
    ensures
        r@ == spec_join(crate::args::view_strings(ss@), sep@),
{
    let ghost g = crate::args::view_strings(ss@);
    let mut out = String::new();
    let n = ss.len();
    if n == 0 {
        return out;
    }
    out.append(ss[0].as_str());
    proof {
        assert(g.drop_first() =~~= g.skip(1));
        assert(out@ + spec_join_rest(g.skip(1), sep@) =~~= g[0] + spec_join_rest(
            g.skip(1),
            sep@,
        ));
    }
    for i in 1..n
        invariant
            n == ss.len(),
            g == crate::args::view_strings(ss@),
            n > 0,
            spec_join(g, sep@) == out@ + spec_join_rest(g.skip(i as int), sep@),
    {
        let ghost before = out@;
        out.append(sep);
        out.append(ss[i].as_str());
        proof {
            assert(g.skip(i as int)[0] == g[i as int]);
            assert(g.skip(i as int).drop_first() =~~= g.skip(i + 1));
            assert(out@ + spec_join_rest(g.skip(i + 1), sep@) =~~= before + (sep@ + g[i as int]
                + spec_join_rest(g.skip(i + 1), sep@)));
        }
    }
    proof {
        assert(g.skip(n as int) =~~= Seq::<Seq<char>>::empty());
        assert(out@ + spec_join_rest(g.skip(n as int), sep@) =~~= out@);
    }
    out
}

/// The text of a boolean literal.
pub open spec fn spec_bool(b: bool) -> Seq<char> {
    if b {
        "true"@
    } else {
        "false"@
    }
}

/// The text of a field target.
pub open spec fn text_target(t: FieldTargetView) -> Seq<char> {
    match t {
        FieldTargetView::SelfValue => "self"@,
        FieldTargetView::SelfNamed(n) => "(&mut self."@ + n + ")"@,
        FieldTargetView::SelfIndex(i) => "(&mut self."@ + crate::text::spec_dec(i) + ")"@,
        FieldTargetView::Named(n) => n,
        FieldTargetView::Indexed(i) => "f"@ + crate::text::spec_dec(i),
    }
}

/// The text of one field's render code.
pub open spec fn text_code(c: FieldCodeView) -> Seq<char> {
    match c {
        FieldCodeView::Direct { target, label } => text_target(target) + ".inspect(ui, \""@
            + label + "\");\n"@,
        FieldCodeView::As { target, ty } => "let mut bridge: "@ + ty + " = (*"@ + text_target(
            target,
        ) + ").into();\n"@ + "bridge.inspect(ui, label);\n"@ + "*"@ + text_target(target)
            + " = bridge.into();\n"@,
        FieldCodeView::With { target, path } => path + "("@ + text_target(target)
            + ", ui, label);\n"@,
    }
}

/// The texts of a list of field render codes, one after the other.
pub open spec fn text_codes(ss: Seq<FieldCodeView>) -> Seq<char>
    decreases ss.len(),
{
    if ss.len() == 0 {
        Seq::empty()
    } else {
        text_code(ss[0]) + text_codes(ss.drop_first())
    }
}

/// The entries of the `NAMES` array: each name quoted, on its own line.
pub open spec fn text_names(names: Seq<Seq<char>>) -> Seq<char>
    decreases names.len(),
{
    if names.len() == 0 {
        Seq::empty()
    } else {
        "\""@ + names[0] + "\",\n"@ + text_names(names.drop_first())
    }
}

/// The arms of the tag-switch `match`, from index `i` on: each guard
/// compares `ix` with the variant's index and the arm yields that
/// variant's default-construction expression.
pub open spec fn text_switch_arms(defaults: Seq<Seq<char>>, i: nat) -> Seq<char>
    decreases defaults.len() - i,
{
    if i >= defaults.len() {
        Seq::empty()
    } else {
        "_ if ix == "@ + crate::text::spec_dec(i) + " => "@ + defaults[i as int] + ",\n"@
            + text_switch_arms(defaults, i + 1)
    }
}

/// The text of the tag selector: the `NAMES` array, the match from the
/// current value to its index, and the combo box whose change replaces
/// the value by the chosen variant's default construction.
pub open spec fn text_selector(sel: TagSelectorView) -> Seq<char> {
    "const NAMES: &'static [&'static str] = &[\n"@ + text_names(sel.names) + "];\n"@
        + "let mut ix = match self {\n"@ + spec_cat(sel.matchers) + "};\n"@
        + "if ui.combo_simple_string(\"tag\", &mut ix, NAMES) {\n"@ + "*self = match ix {\n"@
        + text_switch_arms(sel.defaults, 0) + "_ => unreachable!(),\n"@ + "};\n"@ + "}\n"@
}

/// The text of one render arm of the `match self`.
pub open spec fn text_arm(a: MatchArmView) -> Seq<char> {
    a.pattern + " => {\n"@ + text_codes(a.stmts) + "},\n"@
}

/// The texts of the render arms, one after the other.
pub open spec fn text_arms(arms: Seq<MatchArmView>) -> Seq<char>
    decreases arms.len(),
{
    if arms.len() == 0 {
        Seq::empty()
    } else {
        text_arm(arms[0]) + text_arms(arms.drop_first())
    }
}

/// The text of the read-only tag display: the `NAMES` array and the
/// match from the current value to its index, with the current name
/// shown as a label and no way to switch it.
pub open spec fn text_display(d: TagDisplayView) -> Seq<char> {
    "let name = {\n"@ + "const NAMES: &'static [&'static str] = &[\n"@ + text_names(d.names)
        + "];\n"@ + "let ix = match self {\n"@ + spec_cat(d.matchers) + "};\n"@ + "NAMES[ix]\n"@
        + "};\n"@ + "ui.label_text(label, name);\n"@
}

/// The text of the `inspect` body.
pub open spec fn text_body(b: BodyView) -> Seq<char> {
    match b {
        BodyView::Override(c) => text_code(c),
        BodyView::Transparent(index) => "use igri::Inspect;\nself."@ + crate::text::spec_dec(
            index,
        ) + ".inspect(ui, label);\n"@,
        BodyView::Flatten(stmts) => text_codes(stmts),
        BodyView::UnitLabel(ty) => "ui.label_text(label, \"<"@ + ty + ">\");\n"@,
        BodyView::Tree { default_open, stmts } => {
            "let _ = igri::imgui::TreeNode::new(label).flags(igri::imgui::TreeNodeFlags::OPEN_ON_ARROW | igri::imgui::TreeNodeFlags::OPEN_ON_DOUBLE_CLICK).default_open("@
                + spec_bool(default_open) + ").build(ui, || {\n"@ + text_codes(stmts) + "});\n"@
        },
        BodyView::TagOnly(sel) => text_selector(sel),
        BodyView::EnumTree { selector, arms } => {
            "if let Some(()) = igri::imgui::TreeNode::new(label).opened(true, igri::imgui::Condition::FirstUseEver).flags(igri::imgui::TreeNodeFlags::OPEN_ON_ARROW | igri::imgui::TreeNodeFlags::OPEN_ON_DOUBLE_CLICK).build(ui, || {\n"@
                + text_selector(selector) + "match self {\n"@ + text_arms(arms) + "}\n"@
                + "}) {}\n"@
        },
        BodyView::CurrentTag(display) => text_display(display),
        BodyView::CurrentTagTree { display, arms } => {
            "if let Some(()) = igri::imgui::TreeNode::new(label).opened(true, igri::imgui::Condition::FirstUseEver).flags(igri::imgui::TreeNodeFlags::OPEN_ON_ARROW | igri::imgui::TreeNodeFlags::OPEN_ON_DOUBLE_CLICK).build(ui, || {\n"@
                + text_display(display) + "match self {\n"@ + text_arms(arms) + "}\n"@
                + "}) {}\n"@
        },
    }
}

/// The `<T, U>` parameter list, absent when there is no parameter.
pub open spec fn text_params(gs: Seq<Seq<char>>) -> Seq<char> {
    if gs.len() == 0 {
        Seq::empty()
    } else {
        "<"@ + spec_join(gs, ", "@) + ">"@
    }
}

/// The `where` clause, absent when there is no predicate.
pub open spec fn text_where(ps: Seq<Seq<char>>) -> Seq<char> {
    if ps.len() == 0 {
        Seq::empty()
    } else {
        " where "@ + spec_join(ps, ", "@)
    }
}

/// The declarations of the parameters, as written.
pub open spec fn spec_param_decls(gs: Seq<crate::args::GenericParamView>) -> Seq<Seq<char>> {
    gs.map_values(|p: crate::args::GenericParamView| p.decl)
}

/// The bare names of the parameters.
pub open spec fn spec_param_idents(gs: Seq<crate::args::GenericParamView>) -> Seq<Seq<char>> {
    gs.map_values(|p: crate::args::GenericParamView| p.ident)
}

/// The text of the whole generated implementation: the parameters are
/// declared in full after `impl` and passed by name to the type.
pub open spec fn text_impl(im: InspectImplView) -> Seq<char> {
    "impl"@ + text_params(spec_param_decls(im.generics)) + " igri::Inspect for "@ + im.ty_ident
        + text_params(spec_param_idents(im.generics)) + text_where(im.predicates) + " {\n"@
        + "fn inspect(&mut self, ui: &igri::imgui::Ui, label: &str) {\n"@ + text_body(im.body)
        + "}\n"@ + "}\n"@
}

/// Prints a field target.
pub fn render_target(t: &FieldTarget) -> (r: String)
    ensures
        r@ == text_target(t@),
{
    match t {
        FieldTarget::SelfValue => "self".to_owned(),
        FieldTarget::SelfNamed(n) => {
            let mut out = "(&mut self.".to_owned();
            out.append(n.as_str());
            out.append(")");
            proof {
                assert(out@ =~= text_target(t@));
            }
            out
        },
        FieldTarget::SelfIndex(i) => {
            let mut out = "(&mut self.".to_owned();
            out.append(crate::text::dec_str(*i).as_str());
            out.append(")");
            proof {
                assert(out@ =~= text_target(t@));
            }
            out
        },
        FieldTarget::Named(n) => n.clone(),
        FieldTarget::Indexed(i) => {
            let mut out = "f".to_owned();
            out.append(crate::text::dec_str(*i).as_str());
            proof {
                assert(out@ =~= text_target(t@));
            }
            out
        },
    }
}

/// Prints one field's render code.
pub fn render_code(c: &FieldCode) -> (r: String)
    ensures
        r@ == text_code(c@),
{
    match c {
        FieldCode::Direct { target, label } => {
            let mut out = render_target(target);
            out.append(".inspect(ui, \"");
            out.append(label.as_str());
            out.append("\");\n");
            proof {
                assert(out@ =~= text_code(c@));
            }
            out
        },
        FieldCode::As { target, ty } => {
            let t = render_target(target);
            let mut out = "let mut bridge: ".to_owned();
            out.append(ty.as_str());
            out.append(" = (*");
            out.append(t.as_str());
            out.append(").into();\n");
            out.append("bridge.inspect(ui, label);\n");
            out.append("*");
            out.append(t.as_str());
            out.append(" = bridge.into();\n");
            proof {
                assert(out@ =~= text_code(c@));
            }
            out
        },
        FieldCode::With { target, path } => {
            let mut out = path.clone();
            out.append("(");
            out.append(render_target(target).as_str());
            out.append(", ui, label);\n");
            proof {
                assert(out@ =~= text_code(c@));
            }
            out
        },
    }
}

/// Prints a list of field render codes, one after the other.
pub fn render_codes(ss: &Vec<FieldCode>) -> (r: String)
    ensures
        r@ == text_codes(view_codes(ss@)),
{
    let ghost g = view_codes(ss@);
    let mut out = String::new();
    let n = ss.len();
    proof {
        assert(g.skip(0) =~~= g);
        assert(out@ + text_codes(g) =~~= text_codes(g));
    }
    for i in 0..n
        invariant
            n == ss.len(),
            g == view_codes(ss@),
            text_codes(g) == out@ + text_codes(g.skip(i as int)),
    {
        let ghost before = out@;
        out.append(render_code(&ss[i]).as_str());
        proof {
            assert(g.skip(i as int)[0] == g[i as int]);
            assert(g.skip(i as int).drop_first() =~~= g.skip(i + 1));
            assert(out@ + text_codes(g.skip(i + 1)) =~~= before + (text_code(g[i as int])
                + text_codes(g.skip(i + 1))));
        }
    }
    proof {
        assert(g.skip(n as int) =~~= Seq::<FieldCodeView>::empty());
        assert(out@ + text_codes(g.skip(n as int)) =~~= out@);
    }
    out
}

/// Prints the entries of the `NAMES` array.
pub fn render_names(names: &Vec<String>) -> (r: String)
    ensures
        r@ == text_names(crate::args::view_strings(names@)),
{
    let ghost g = crate::args::view_strings(names@);
    let mut out = String::new();
    let n = names.len();
    proof {
        assert(g.skip(0) =~~= g);
        assert(out@ + text_names(g) =~~= text_names(g));
    }
    for i in 0..n
        invariant
            n == names.len(),
            g == crate::args::view_strings(names@),
            text_names(g) == out@ + text_names(g.skip(i as int)),
    {
        let ghost before = out@;
        out.append("\"");
        out.append(names[i].as_str());
        out.append("\",\n");
        proof {
            assert(g.skip(i as int)[0] == g[i as int]);
            assert(g.skip(i as int).drop_first() =~~= g.skip(i + 1));
            assert(out@ + text_names(g.skip(i + 1)) =~~= before + ("\""@ + g[i as int] + "\",\n"@
                + text_names(g.skip(i + 1))));
        }
    }
    proof {
        assert(g.skip(n as int) =~~= Seq::<Seq<char>>::empty());
        assert(out@ + text_names(g.skip(n as int)) =~~= out@);
    }
    out
}

/// Prints the arms of the tag-switch `match`.
pub fn render_switch_arms(defaults: &Vec<String>) -> (r: String)
    ensures
        r@ == text_switch_arms(crate::args::view_strings(defaults@), 0),
{
    let ghost g = crate::args::view_strings(defaults@);
    let mut out = String::new();
    let n = defaults.len();
    proof {
        assert(out@ + text_switch_arms(g, 0) =~~= text_switch_arms(g, 0));
    }
    for i in 0..n
        invariant
            n == defaults.len(),
            g == crate::args::view_strings(defaults@),
            text_switch_arms(g, 0) == out@ + text_switch_arms(g, i as nat),
    {
        let ghost before = out@;
        out.append("_ if ix == ");
        out.append(crate::text::dec_str(i).as_str());
        out.append(" => ");
        out.append(defaults[i].as_str());
        out.append(",\n");
        proof {
            assert(out@ + text_switch_arms(g, (i + 1) as nat) =~~= before + ("_ if ix == "@
                + crate::text::spec_dec(i as nat) + " => "@ + g[i as int] + ",\n"@
                + text_switch_arms(g, (i + 1) as nat)));
        }
    }
    out
}

/// Prints the tag selector.
pub fn render_selector(sel: &TagSelector) -> (r: String)
    ensures
        r@ == text_selector(sel@),
{
    let mut out = "const NAMES: &'static [&'static str] = &[\n".to_owned();
    out.append(render_names(&sel.names).as_str());
    out.append("];\n");
    out.append("let mut ix = match self {\n");
    out.append(render_cat(&sel.matchers).as_str());
    out.append("};\n");
    out.append("if ui.combo_simple_string(\"tag\", &mut ix, NAMES) {\n");
    out.append("*self = match ix {\n");
    out.append(render_switch_arms(&sel.defaults).as_str());
    out.append("_ => unreachable!(),\n");
    out.append("};\n");
    out.append("}\n");
    proof {
        assert(out@ =~= text_selector(sel@));
    }
    out
}

/// Prints the read-only tag display.
pub fn render_display(d: &TagDisplay) -> (r: String)
    ensures
        r@ == text_display(d@),
{
    let mut out = "let name = {\n".to_owned();
    out.append("const NAMES: &'static [&'static str] = &[\n");
    out.append(render_names(&d.names).as_str());
    out.append("];\n");
    out.append("let ix = match self {\n");
    out.append(render_cat(&d.matchers).as_str());
    out.append("};\n");
    out.append("NAMES[ix]\n");
    out.append("};\n");
    out.append("ui.label_text(label, name);\n");
    proof {
        assert(out@ =~= text_display(d@));
    }
    out
}

/// Prints the render arms of the `match self`.
pub fn render_arms(arms: &Vec<MatchArm>) -> (r: String)
    ensures
        r@ == text_arms(view_arms(arms@)),
{
    let ghost g = view_arms(arms@);
    let mut out = String::new();
    let n = arms.len();
    proof {
        assert(g.skip(0) =~~= g);
        assert(out@ + text_arms(g) =~~= text_arms(g));
    }
    for i in 0..n
        invariant
            n == arms.len(),
            g == view_arms(arms@),
            text_arms(g) == out@ + text_arms(g.skip(i as int)),
    {
        let ghost before = out@;
        out.append(arms[i].pattern.as_str());
        out.append(" => {\n");
        out.append(render_codes(&arms[i].stmts).as_str());
        out.append("},\n");
        proof {
            assert(g.skip(i as int)[0] == g[i as int]);
            assert(g.skip(i as int).drop_first() =~~= g.skip(i + 1));
            assert(out@ + text_arms(g.skip(i + 1)) =~~= before + (text_arm(g[i as int])
                + text_arms(g.skip(i + 1))));
        }
    }
    proof {
        assert(g.skip(n as int) =~~= Seq::<MatchArmView>::empty());
        assert(out@ + text_arms(g.skip(n as int)) =~~= out@);
    }
    out
}

/// Prints the `inspect` body.
pub fn render_body(b: &Body) -> (r: String)
    ensures
        r@ == text_body(b@),
{
    match b {
        Body::Override(c) => render_code(c),
        Body::Transparent(index) => {
            let mut out = "use igri::Inspect;\nself.".to_owned();
            out.append(crate::text::dec_str(*index).as_str());
            out.append(".inspect(ui, label);\n");
            proof {
                assert(out@ =~= text_body(b@));
            }
            out
        },
        Body::Flatten(stmts) => render_codes(stmts),
        Body::UnitLabel(ty) => {
            let mut out = "ui.label_text(label, \"<".to_owned();
            out.append(ty.as_str());
            out.append(">\");\n");
            proof {
                assert(out@ =~= text_body(b@));
            }
            out
        },
        Body::Tree { default_open, stmts } => {
            let mut out =
                "let _ = igri::imgui::TreeNode::new(label).flags(igri::imgui::TreeNodeFlags::OPEN_ON_ARROW | igri::imgui::TreeNodeFlags::OPEN_ON_DOUBLE_CLICK).default_open(".to_owned();
            if *default_open {
                out.append("true");
            } else {
                out.append("false");
            }
            out.append(").build(ui, || {\n");
            out.append(render_codes(stmts).as_str());
            out.append("});\n");
            proof {
                assert(out@ =~= text_body(b@));
            }
            out
        },
        Body::TagOnly(sel) => render_selector(sel),
        Body::EnumTree { selector, arms } => {
            let mut out =
                "if let Some(()) = igri::imgui::TreeNode::new(label).opened(true, igri::imgui::Condition::FirstUseEver).flags(igri::imgui::TreeNodeFlags::OPEN_ON_ARROW | igri::imgui::TreeNodeFlags::OPEN_ON_DOUBLE_CLICK).build(ui, || {\n".to_owned();
            out.append(render_selector(selector).as_str());
            out.append("match self {\n");
            out.append(render_arms(arms).as_str());
            out.append("}\n");
            out.append("}) {}\n");
            proof {
                assert(out@ =~= text_body(b@));
            }
            out
        },
        Body::CurrentTag(display) => render_display(display),
        Body::CurrentTagTree { display, arms } => {
            let mut out =
                "if let Some(()) = igri::imgui::TreeNode::new(label).opened(true, igri::imgui::Condition::FirstUseEver).flags(igri::imgui::TreeNodeFlags::OPEN_ON_ARROW | igri::imgui::TreeNodeFlags::OPEN_ON_DOUBLE_CLICK).build(ui, || {\n".to_owned();
            out.append(render_display(display).as_str());
            out.append("match self {\n");
            out.append(render_arms(arms).as_str());
            out.append("}\n");
            out.append("}) {}\n");
            proof {
                assert(out@ =~= text_body(b@));
            }
            out
        },
    }
}

/// Collects the parameters' declarations.
fn param_decls(gs: &Vec<crate::args::GenericParam>) -> (r: Vec<String>)
    ensures
        crate::args::view_strings(r@) == spec_param_decls(crate::args::view_params(gs@)),
{
    let ghost g = spec_param_decls(crate::args::view_params(gs@));
    let mut out: Vec<String> = Vec::new();
    let n = gs.len();
    proof {
        assert(crate::args::view_strings(out@) =~~= g.take(0));
    }
    for i in 0..n
        invariant
            n == gs.len(),
            g == spec_param_decls(crate::args::view_params(gs@)),
            crate::args::view_strings(out@) == g.take(i as int),
    {
        let c = gs[i].decl.clone();
        let ghost before = out@;
        out.push(c);
        proof {
            assert(g[i as int] == crate::args::view_params(gs@)[i as int].decl);
            assert(crate::args::view_strings(before.push(c)) =~~= crate::args::view_strings(
                before,
            ).push(c@));
            assert(g.take(i as int).push(g[i as int]) =~~= g.take(i + 1));
        }
    }
    proof {
        assert(g.take(n as int) =~~= g);
    }
    out
}

/// Collects the parameters' bare names.
fn param_idents(gs: &Vec<crate::args::GenericParam>) -> (r: Vec<String>)
    ensures
        crate::args::view_strings(r@) == spec_param_idents(crate::args::view_params(gs@)),
{
    let ghost g = spec_param_idents(crate::args::view_params(gs@));
    let mut out: Vec<String> = Vec::new();
    let n = gs.len();
    proof {
        assert(crate::args::view_strings(out@) =~~= g.take(0));
    }
    for i in 0..n
        invariant
            n == gs.len(),
            g == spec_param_idents(crate::args::view_params(gs@)),
            crate::args::view_strings(out@) == g.take(i as int),
    {
        let c = gs[i].ident.clone();
        let ghost before = out@;
        out.push(c);
        proof {
            assert(g[i as int] == crate::args::view_params(gs@)[i as int].ident);
            assert(crate::args::view_strings(before.push(c)) =~~= crate::args::view_strings(
                before,
            ).push(c@));
            assert(g.take(i as int).push(g[i as int]) =~~= g.take(i + 1));
        }
    }
    proof {
        assert(g.take(n as int) =~~= g);
    }
    out
}

/// Prints the whole generated implementation.
pub fn render_impl(im: &InspectImpl) -> (r: String)
    ensures
        r@ == text_impl(im@),
{
    let decls = param_decls(&im.generics);
    let idents = param_idents(&im.generics);
    let mut out = "impl".to_owned();
    if im.generics.len() > 0 {
        out.append("<");
        out.append(render_join(&decls, ", ").as_str());
        out.append(">");
    }
    out.append(" igri::Inspect for ");
    out.append(im.ty_ident.as_str());
    if im.generics.len() > 0 {
        out.append("<");
        out.append(render_join(&idents, ", ").as_str());
        out.append(">");
    }
    if im.predicates.len() > 0 {
        out.append(" where ");
        out.append(render_join(&im.predicates, ", ").as_str());
    }
    out.append(" {\n");
    out.append("fn inspect(&mut self, ui: &igri::imgui::Ui, label: &str) {\n");
    out.append(render_body(&im.body).as_str());
    out.append("}\n");
    out.append("}\n");
    proof {
        assert(out@ =~= text_impl(im@));
    }
    out
}

} // verus!

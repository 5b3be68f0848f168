//! The utilities that take no value: a key and fixed declarations.

use vstd::prelude::*;
use vstd::string::*;
use crate::builder::{UtilityBuilder, UtilityBuilderView};
use crate::context::DesignSystem;
use crate::css::{nodes_view, AstNode};
use crate::preset::helpers::{
    all_handled, built_all, builders_view, plain, plain_spec, preset, preset_view, register_all,
    registry_view, t0,
};
use crate::process::{decl_node, UtilityHandler, UtilityHandlerView};

verus! {

/// The content of a utility of fixed declarations.
pub open spec fn static_view(key: Seq<char>, decls: Seq<(Seq<char>, Seq<char>)>) -> UtilityBuilderView {
    preset_view(
        key,
        UtilityHandlerView::Static(Seq::new(decls.len(), |i: int| decl_node(decls[i].0, decls[i].1))),
        Seq::<Seq<char>>::empty(),
        None,
        plain_spec(),
        None,
    )
}

/// A utility of fixed declarations.
pub fn static_utility(key: &str, decls: Vec<(&str, &str)>) -> (b: UtilityBuilder)
    ensures
        b@ == static_view(key@, Seq::new(decls@.len(), |i: int| (decls@[i].0@, decls@[i].1@))),
{
    let ghost pairs = Seq::new(decls@.len(), |i: int| (decls@[i].0@, decls@[i].1@));
    let mut nodes: Vec<AstNode> = Vec::new();
    let mut i: usize = 0;
    while i < decls.len()
        invariant
            i <= decls@.len(),
            nodes@.len() == i,
            forall|k: int|
                0 <= k < i ==> (#[trigger] nodes@[k])@ == decl_node(decls@[k].0@, decls@[k].1@),
        decreases decls@.len() - i,
    {
        nodes.push(AstNode::decl(decls[i].0, decls[i].1));
        i += 1;
    }
    assert(nodes_view(nodes@) =~= Seq::new(
        pairs.len(),
        |i: int| decl_node(pairs[i].0, pairs[i].1),
    ));
    preset(key, UtilityHandler::Static(nodes), t0(), None, plain(), None)
}

/// A utility of one fixed declaration.
pub fn fixed1(key: &str, a: (&str, &str)) -> (b: UtilityBuilder)
    ensures
        b@ == static_view(key@, seq![(a.0@, a.1@)]),
{
    let decls: Vec<(&str, &str)> = vec![a];
    assert(Seq::new(decls@.len(), |i: int| (decls@[i].0@, decls@[i].1@)) =~= seq![(a.0@, a.1@)]);
    static_utility(key, decls)
}

/// A utility of two fixed declarations.
pub fn fixed2(key: &str, a: (&str, &str), b: (&str, &str)) -> (r: UtilityBuilder)
    ensures
        r@ == static_view(key@, seq![(a.0@, a.1@), (b.0@, b.1@)]),
{
    let decls: Vec<(&str, &str)> = vec![a, b];
    assert(Seq::new(decls@.len(), |i: int| (decls@[i].0@, decls@[i].1@)) =~= seq![
        (a.0@, a.1@),
        (b.0@, b.1@),
    ]);
    static_utility(key, decls)
}

/// A utility of three fixed declarations.
pub fn fixed3(key: &str, a: (&str, &str), b: (&str, &str), c: (&str, &str)) -> (r: UtilityBuilder)
    ensures
        r@ == static_view(key@, seq![(a.0@, a.1@), (b.0@, b.1@), (c.0@, c.1@)]),
{
    let decls: Vec<(&str, &str)> = vec![a, b, c];
    assert(Seq::new(decls@.len(), |i: int| (decls@[i].0@, decls@[i].1@)) =~= seq![
        (a.0@, a.1@),
        (b.0@, b.1@),
        (c.0@, c.1@),
    ]);
    static_utility(key, decls)
}

/// What kind of box an element is.
#[verifier::opaque]
pub open spec fn display_statics_spec() -> Seq<UtilityBuilderView> {
    seq![
        static_view("block"@, seq![("display"@, "block"@)]),
        static_view("inline-block"@, seq![("display"@, "inline-block"@)]),
        static_view("inline"@, seq![("display"@, "inline"@)]),
        static_view("flow-root"@, seq![("display"@, "flow-root"@)]),
        static_view("contents"@, seq![("display"@, "contents"@)]),
        static_view("grid"@, seq![("display"@, "grid"@)]),
        static_view("inline-flex"@, seq![("display"@, "inline-flex"@)]),
        static_view("inline-grid"@, seq![("display"@, "inline-grid"@)]),
        static_view("table"@, seq![("display"@, "table"@)]),
        static_view("list-item"@, seq![("display"@, "list-item"@)]),
        static_view("hidden"@, seq![("display"@, "none"@)]),
    ]
}

/// What kind of box an element is.
pub fn display_statics() -> (v: Vec<UtilityBuilder>)
    ensures
        builders_view(v@) == display_statics_spec(),
        all_handled(builders_view(v@)),
{
    let mut v: Vec<UtilityBuilder> = Vec::new();
    v.push(fixed1("block", ("display", "block")));
    v.push(fixed1("inline-block", ("display", "inline-block")));
    v.push(fixed1("inline", ("display", "inline")));
    v.push(fixed1("flow-root", ("display", "flow-root")));
    v.push(fixed1("contents", ("display", "contents")));
    v.push(fixed1("grid", ("display", "grid")));
    v.push(fixed1("inline-flex", ("display", "inline-flex")));
    v.push(fixed1("inline-grid", ("display", "inline-grid")));
    v.push(fixed1("table", ("display", "table")));
    v.push(fixed1("list-item", ("display", "list-item")));
    v.push(fixed1("hidden", ("display", "none")));
    proof {
        reveal(display_statics_spec);
        assert(builders_view(v@)[0] == display_statics_spec()[0]);
        assert(builders_view(v@)[1] == display_statics_spec()[1]);
        assert(builders_view(v@)[2] == display_statics_spec()[2]);
        assert(builders_view(v@)[3] == display_statics_spec()[3]);
        assert(builders_view(v@)[4] == display_statics_spec()[4]);
        assert(builders_view(v@)[5] == display_statics_spec()[5]);
        assert(builders_view(v@)[6] == display_statics_spec()[6]);
        assert(builders_view(v@)[7] == display_statics_spec()[7]);
        assert(builders_view(v@)[8] == display_statics_spec()[8]);
        assert(builders_view(v@)[9] == display_statics_spec()[9]);
        assert(builders_view(v@)[10] == display_statics_spec()[10]);
        assert(builders_view(v@) =~= display_statics_spec());
    }
    v
}

/// Where and whether an element shows.
#[verifier::opaque]
pub open spec fn position_statics_spec() -> Seq<UtilityBuilderView> {
    seq![
        static_view("static"@, seq![("position"@, "static"@)]),
        static_view("fixed"@, seq![("position"@, "fixed"@)]),
        static_view("absolute"@, seq![("position"@, "absolute"@)]),
        static_view("relative"@, seq![("position"@, "relative"@)]),
        static_view("sticky"@, seq![("position"@, "sticky"@)]),
        static_view("visible"@, seq![("visibility"@, "visible"@)]),
        static_view("invisible"@, seq![("visibility"@, "hidden"@)]),
        static_view("collapse"@, seq![("visibility"@, "collapse"@)]),
        static_view("isolate"@, seq![("isolation"@, "isolate"@)]),
    ]
}

/// Where and whether an element shows.
pub fn position_statics() -> (v: Vec<UtilityBuilder>)
    ensures
        builders_view(v@) == position_statics_spec(),
        all_handled(builders_view(v@)),
{
    let mut v: Vec<UtilityBuilder> = Vec::new();
    v.push(fixed1("static", ("position", "static")));
    v.push(fixed1("fixed", ("position", "fixed")));
    v.push(fixed1("absolute", ("position", "absolute")));
    v.push(fixed1("relative", ("position", "relative")));
    v.push(fixed1("sticky", ("position", "sticky")));
    v.push(fixed1("visible", ("visibility", "visible")));
    v.push(fixed1("invisible", ("visibility", "hidden")));
    v.push(fixed1("collapse", ("visibility", "collapse")));
    v.push(fixed1("isolate", ("isolation", "isolate")));
    proof {
        reveal(position_statics_spec);
        assert(builders_view(v@)[0] == position_statics_spec()[0]);
        assert(builders_view(v@)[1] == position_statics_spec()[1]);
        assert(builders_view(v@)[2] == position_statics_spec()[2]);
        assert(builders_view(v@)[3] == position_statics_spec()[3]);
        assert(builders_view(v@)[4] == position_statics_spec()[4]);
        assert(builders_view(v@)[5] == position_statics_spec()[5]);
        assert(builders_view(v@)[6] == position_statics_spec()[6]);
        assert(builders_view(v@)[7] == position_statics_spec()[7]);
        assert(builders_view(v@)[8] == position_statics_spec()[8]);
        assert(builders_view(v@) =~= position_statics_spec());
    }
    v
}

/// How text is set.
#[verifier::opaque]
pub open spec fn typography_statics_spec() -> Seq<UtilityBuilderView> {
    seq![
        static_view("italic"@, seq![("font-style"@, "italic"@)]),
        static_view("not-italic"@, seq![("font-style"@, "normal"@)]),
        static_view("underline"@, seq![("text-decoration-line"@, "underline"@)]),
        static_view("overline"@, seq![("text-decoration-line"@, "overline"@)]),
        static_view("line-through"@, seq![("text-decoration-line"@, "line-through"@)]),
        static_view("no-underline"@, seq![("text-decoration-line"@, "none"@)]),
        static_view("uppercase"@, seq![("text-transform"@, "uppercase"@)]),
        static_view("lowercase"@, seq![("text-transform"@, "lowercase"@)]),
        static_view("capitalize"@, seq![("text-transform"@, "capitalize"@)]),
        static_view("normal-case"@, seq![("text-transform"@, "none"@)]),
        static_view(
            "truncate"@,
            seq![
                ("overflow"@, "hidden"@),
                ("text-overflow"@, "ellipsis"@),
                ("white-space"@, "nowrap"@),
            ],
        ),
        static_view(
            "antialiased"@,
            seq![
                ("-webkit-font-smoothing"@, "antialiased"@),
                ("-moz-osx-font-smoothing"@, "grayscale"@),
            ],
        ),
    ]
}

/// How text is set.
pub fn typography_statics() -> (v: Vec<UtilityBuilder>)
    ensures
        builders_view(v@) == typography_statics_spec(),
        all_handled(builders_view(v@)),
{
    let mut v: Vec<UtilityBuilder> = Vec::new();
    v.push(fixed1("italic", ("font-style", "italic")));
    v.push(fixed1("not-italic", ("font-style", "normal")));
    v.push(fixed1("underline", ("text-decoration-line", "underline")));
    v.push(fixed1("overline", ("text-decoration-line", "overline")));
    v.push(fixed1("line-through", ("text-decoration-line", "line-through")));
    v.push(fixed1("no-underline", ("text-decoration-line", "none")));
    v.push(fixed1("uppercase", ("text-transform", "uppercase")));
    v.push(fixed1("lowercase", ("text-transform", "lowercase")));
    v.push(fixed1("capitalize", ("text-transform", "capitalize")));
    v.push(fixed1("normal-case", ("text-transform", "none")));
    v.push(
        fixed3(
            "truncate",
            ("overflow", "hidden"),
            ("text-overflow", "ellipsis"),
            ("white-space", "nowrap"),
        ),
    );
    v.push(
        fixed2(
            "antialiased",
            ("-webkit-font-smoothing", "antialiased"),
            ("-moz-osx-font-smoothing", "grayscale"),
        ),
    );
    proof {
        reveal(typography_statics_spec);
        assert(builders_view(v@)[0] == typography_statics_spec()[0]);
        assert(builders_view(v@)[1] == typography_statics_spec()[1]);
        assert(builders_view(v@)[2] == typography_statics_spec()[2]);
        assert(builders_view(v@)[3] == typography_statics_spec()[3]);
        assert(builders_view(v@)[4] == typography_statics_spec()[4]);
        assert(builders_view(v@)[5] == typography_statics_spec()[5]);
        assert(builders_view(v@)[6] == typography_statics_spec()[6]);
        assert(builders_view(v@)[7] == typography_statics_spec()[7]);
        assert(builders_view(v@)[8] == typography_statics_spec()[8]);
        assert(builders_view(v@)[9] == typography_statics_spec()[9]);
        assert(builders_view(v@)[10] == typography_statics_spec()[10]);
        assert(builders_view(v@)[11] == typography_statics_spec()[11]);
        assert(builders_view(v@) =~= typography_statics_spec());
    }
    v
}

/// All utilities of the preset that take no value, in the order of their
/// registration.
pub open spec fn static_presets() -> Seq<UtilityBuilderView> {
    display_statics_spec() + position_statics_spec() + typography_statics_spec()
}

/// Registers the utilities of the preset that take no value, after those
/// that are registered already.
pub fn load_static_utilities(design: &mut DesignSystem)
    ensures
        registry_view(final(design).utilities@) == registry_view(old(design).utilities@) + built_all(
            static_presets(),
            old(design).theme.model(),
        ),
        final(design).theme == old(design).theme,
        final(design).variants == old(design).variants,
{
    let ghost theme = design.theme.model();
    let ghost start = registry_view(design.utilities@);
    register_all(design, display_statics());
    register_all(design, position_statics());
    register_all(design, typography_statics());
    proof {
        let a = display_statics_spec();
        let b = position_statics_spec();
        let c = typography_statics_spec();
        assert(built_all(a + b + c, theme) =~= built_all(a, theme) + built_all(b, theme) + built_all(
            c,
            theme,
        ));
        assert(registry_view(design.utilities@) =~= start + built_all(static_presets(), theme));
    }
}

} // verus!

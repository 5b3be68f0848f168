//! The variants that the generator starts with: states and parts of an
//! element, variants that take a value, layers such as `group`, media
//! features, and one variant for each screen of the theme.

use vstd::prelude::*;
use vstd::string::*;
use crate::context::DesignSystem;
use crate::text::join3;
use crate::theme::{Theme, ThemeTable, ThemeValue};
use crate::variant::{Variant, VariantKind, VariantView};

verus! {

/// The keys of a registry of variants with the content of its variants,
/// in order.
pub open spec fn variant_registry_view(entries: Seq<(String, Variant)>) -> Seq<(Seq<char>, VariantView)> {
    Seq::new(entries.len(), |i: int| (entries[i].0@, entries[i].1@))
}

/// The content of a registered variant.
pub open spec fn entry(key: Seq<char>, kind: VariantKind, before: Seq<char>, after: Seq<char>) -> (
    Seq<char>,
    VariantView,
) {
    (key, VariantView { kind, before, after })
}

/// A variant to register.
pub fn variant(key: &str, kind: VariantKind, before: &str, after: &str) -> (e: (String, Variant))
    ensures
        (e.0@, e.1@) == entry(key@, kind, before@, after@),
{
    (key.to_owned(), Variant { kind, before: before.to_owned(), after: after.to_owned() })
}

/// The first part of the variants that do not depend on the theme.
#[verifier::opaque]
pub open spec fn first_variants_spec() -> Seq<(Seq<char>, VariantView)> {
    seq![
        entry("hover"@, VariantKind::Selector, "&:hover"@, ""@),
        entry("focus"@, VariantKind::Selector, "&:focus"@, ""@),
        entry("active"@, VariantKind::Selector, "&:active"@, ""@),
        entry("visited"@, VariantKind::Selector, "&:visited"@, ""@),
        entry("disabled"@, VariantKind::Selector, "&:disabled"@, ""@),
        entry("checked"@, VariantKind::Selector, "&:checked"@, ""@),
        entry("required"@, VariantKind::Selector, "&:required"@, ""@),
        entry("first"@, VariantKind::Selector, "&:first-child"@, ""@),
        entry("last"@, VariantKind::Selector, "&:last-child"@, ""@),
        entry("odd"@, VariantKind::Selector, "&:nth-child(odd)"@, ""@),
        entry("even"@, VariantKind::Selector, "&:nth-child(even)"@, ""@),
        entry("empty"@, VariantKind::Selector, "&:empty"@, ""@),
        entry("focus-within"@, VariantKind::Selector, "&:focus-within"@, ""@),
        entry("focus-visible"@, VariantKind::Selector, "&:focus-visible"@, ""@),
        entry("before"@, VariantKind::Selector, "&::before"@, ""@),
        entry("after"@, VariantKind::Selector, "&::after"@, ""@),
        entry("placeholder"@, VariantKind::Selector, "&::placeholder"@, ""@),
    ]
}

/// The first part of the variants that do not depend on the theme.
pub fn first_variants() -> (v: Vec<(String, Variant)>)
    ensures
        variant_registry_view(v@) == first_variants_spec(),
{
    let mut v: Vec<(String, Variant)> = Vec::new();
    v.push(variant("hover", VariantKind::Selector, "&:hover", ""));
    v.push(variant("focus", VariantKind::Selector, "&:focus", ""));
    v.push(variant("active", VariantKind::Selector, "&:active", ""));
    v.push(variant("visited", VariantKind::Selector, "&:visited", ""));
    v.push(variant("disabled", VariantKind::Selector, "&:disabled", ""));
    v.push(variant("checked", VariantKind::Selector, "&:checked", ""));
    v.push(variant("required", VariantKind::Selector, "&:required", ""));
    v.push(variant("first", VariantKind::Selector, "&:first-child", ""));
    v.push(variant("last", VariantKind::Selector, "&:last-child", ""));
    v.push(variant("odd", VariantKind::Selector, "&:nth-child(odd)", ""));
    v.push(variant("even", VariantKind::Selector, "&:nth-child(even)", ""));
    v.push(variant("empty", VariantKind::Selector, "&:empty", ""));
    v.push(variant("focus-within", VariantKind::Selector, "&:focus-within", ""));
    v.push(variant("focus-visible", VariantKind::Selector, "&:focus-visible", ""));
    v.push(variant("before", VariantKind::Selector, "&::before", ""));
    v.push(variant("after", VariantKind::Selector, "&::after", ""));
    v.push(variant("placeholder", VariantKind::Selector, "&::placeholder", ""));
    proof {
        reveal(first_variants_spec);
        assert(variant_registry_view(v@)[0] == first_variants_spec()[0]);
        assert(variant_registry_view(v@)[1] == first_variants_spec()[1]);
        assert(variant_registry_view(v@)[2] == first_variants_spec()[2]);
        assert(variant_registry_view(v@)[3] == first_variants_spec()[3]);
        assert(variant_registry_view(v@)[4] == first_variants_spec()[4]);
        assert(variant_registry_view(v@)[5] == first_variants_spec()[5]);
        assert(variant_registry_view(v@)[6] == first_variants_spec()[6]);
        assert(variant_registry_view(v@)[7] == first_variants_spec()[7]);
        assert(variant_registry_view(v@)[8] == first_variants_spec()[8]);
        assert(variant_registry_view(v@)[9] == first_variants_spec()[9]);
        assert(variant_registry_view(v@)[10] == first_variants_spec()[10]);
        assert(variant_registry_view(v@)[11] == first_variants_spec()[11]);
        assert(variant_registry_view(v@)[12] == first_variants_spec()[12]);
        assert(variant_registry_view(v@)[13] == first_variants_spec()[13]);
        assert(variant_registry_view(v@)[14] == first_variants_spec()[14]);
        assert(variant_registry_view(v@)[15] == first_variants_spec()[15]);
        assert(variant_registry_view(v@)[16] == first_variants_spec()[16]);
        assert(variant_registry_view(v@) =~= first_variants_spec());
    }
    v
}

/// The second part of the variants that do not depend on the theme.
#[verifier::opaque]
pub open spec fn second_variants_spec() -> Seq<(Seq<char>, VariantView)> {
    seq![
        entry("selection"@, VariantKind::Selector, "&::selection"@, ""@),
        entry("marker"@, VariantKind::Selector, "&::marker"@, ""@),
        entry("has"@, VariantKind::Functional, "&:has("@, ")"@),
        entry("not"@, VariantKind::Functional, "&:not("@, ")"@),
        entry("data"@, VariantKind::Functional, "&[data-"@, "]"@),
        entry("aria"@, VariantKind::Functional, "&[aria-"@, "=\"true\"]"@),
        entry("supports"@, VariantKind::Functional, "@supports ("@, ")"@),
        entry("min"@, VariantKind::Functional, "@media (min-width: "@, ")"@),
        entry("max"@, VariantKind::Functional, "@media (max-width: "@, ")"@),
        entry("group"@, VariantKind::Composable, ".group"@, " &"@),
        entry("peer"@, VariantKind::Composable, ".peer"@, " ~ &"@),
        entry("dark"@, VariantKind::AtRule, "@media (prefers-color-scheme: dark)"@, ""@),
        entry("print"@, VariantKind::AtRule, "@media print"@, ""@),
        entry("motion-safe"@, VariantKind::AtRule, "@media (prefers-reduced-motion: no-preference)"@, ""@),
        entry("motion-reduce"@, VariantKind::AtRule, "@media (prefers-reduced-motion: reduce)"@, ""@),
        entry("portrait"@, VariantKind::AtRule, "@media (orientation: portrait)"@, ""@),
        entry("landscape"@, VariantKind::AtRule, "@media (orientation: landscape)"@, ""@),
    ]
}

/// The second part of the variants that do not depend on the theme.
pub fn second_variants() -> (v: Vec<(String, Variant)>)
    ensures
        variant_registry_view(v@) == second_variants_spec(),
{
    let mut v: Vec<(String, Variant)> = Vec::new();
    v.push(variant("selection", VariantKind::Selector, "&::selection", ""));
    v.push(variant("marker", VariantKind::Selector, "&::marker", ""));
    v.push(variant("has", VariantKind::Functional, "&:has(", ")"));
    v.push(variant("not", VariantKind::Functional, "&:not(", ")"));
    v.push(variant("data", VariantKind::Functional, "&[data-", "]"));
    v.push(variant("aria", VariantKind::Functional, "&[aria-", "=\"true\"]"));
    v.push(variant("supports", VariantKind::Functional, "@supports (", ")"));
    v.push(variant("min", VariantKind::Functional, "@media (min-width: ", ")"));
    v.push(variant("max", VariantKind::Functional, "@media (max-width: ", ")"));
    v.push(variant("group", VariantKind::Composable, ".group", " &"));
    v.push(variant("peer", VariantKind::Composable, ".peer", " ~ &"));
    v.push(variant("dark", VariantKind::AtRule, "@media (prefers-color-scheme: dark)", ""));
    v.push(variant("print", VariantKind::AtRule, "@media print", ""));
    v.push(variant("motion-safe", VariantKind::AtRule, "@media (prefers-reduced-motion: no-preference)", ""));
    v.push(variant("motion-reduce", VariantKind::AtRule, "@media (prefers-reduced-motion: reduce)", ""));
    v.push(variant("portrait", VariantKind::AtRule, "@media (orientation: portrait)", ""));
    v.push(variant("landscape", VariantKind::AtRule, "@media (orientation: landscape)", ""));
    proof {
        reveal(second_variants_spec);
        assert(variant_registry_view(v@)[0] == second_variants_spec()[0]);
        assert(variant_registry_view(v@)[1] == second_variants_spec()[1]);
        assert(variant_registry_view(v@)[2] == second_variants_spec()[2]);
        assert(variant_registry_view(v@)[3] == second_variants_spec()[3]);
        assert(variant_registry_view(v@)[4] == second_variants_spec()[4]);
        assert(variant_registry_view(v@)[5] == second_variants_spec()[5]);
        assert(variant_registry_view(v@)[6] == second_variants_spec()[6]);
        assert(variant_registry_view(v@)[7] == second_variants_spec()[7]);
        assert(variant_registry_view(v@)[8] == second_variants_spec()[8]);
        assert(variant_registry_view(v@)[9] == second_variants_spec()[9]);
        assert(variant_registry_view(v@)[10] == second_variants_spec()[10]);
        assert(variant_registry_view(v@)[11] == second_variants_spec()[11]);
        assert(variant_registry_view(v@)[12] == second_variants_spec()[12]);
        assert(variant_registry_view(v@)[13] == second_variants_spec()[13]);
        assert(variant_registry_view(v@)[14] == second_variants_spec()[14]);
        assert(variant_registry_view(v@)[15] == second_variants_spec()[15]);
        assert(variant_registry_view(v@)[16] == second_variants_spec()[16]);
        assert(variant_registry_view(v@) =~= second_variants_spec());
    }
    v
}

/// The variants of the screens: each screen with a plain width becomes
/// the media query of that minimal width, in the order of the table.
pub open spec fn screen_variants(screens: Seq<(String, ThemeValue)>) -> Seq<(Seq<char>, VariantView)>
    decreases screens.len(),
{
    if screens.len() == 0 {
        Seq::empty()
    } else {
        let front = screen_variants(screens.drop_last());
        match screens.last().1 {
            ThemeValue::Plain(width) => front.push(
                entry(
                    screens.last().0@,
                    VariantKind::AtRule,
                    "@media (min-width: "@ + width@ + ")"@,
                    Seq::<char>::empty(),
                ),
            ),
            _ => front,
        }
    }
}

/// The entries of the table of screens of a theme; none if the theme has
/// no such table.
pub open spec fn screens_of(theme: Theme) -> Seq<(String, ThemeValue)> {
    if theme.0@.contains_key("screens"@) {
        theme.0@["screens"@].seq()
    } else {
        Seq::empty()
    }
}

/// All variants of the preset, in the order of their registration, which
/// is the order of their bits in the weight of a rule.
pub open spec fn variant_presets(theme: Theme) -> Seq<(Seq<char>, VariantView)> {
    first_variants_spec() + second_variants_spec() + screen_variants(screens_of(theme))
}

/// Registers the variants in their order.
fn register_variants(design: &mut DesignSystem, variants: Vec<(String, Variant)>)
    ensures
        variant_registry_view(final(design).variants@) == variant_registry_view(old(design).variants@)
            + variant_registry_view(variants@),
        final(design).theme == old(design).theme,
        final(design).utilities == old(design).utilities,
{
    let ghost all = variant_registry_view(variants@);
    let ghost start = variant_registry_view(design.variants@);
    let mut rest = crate::theme::reversed(variants);
    let ghost done: int = 0;
    proof {
        assert(start + all.take(0) =~= start);
    }
    while rest.len() > 0
        invariant
            0 <= done <= all.len(),
            rest@.len() == all.len() - done,
            all == variant_registry_view(variants@),
            forall|k: int| 0 <= k < rest@.len() ==> (#[trigger] rest@[k]) == variants@[all.len() - 1 - k],
            design.theme == old(design).theme,
            design.utilities == old(design).utilities,
            variant_registry_view(design.variants@) == start + all.take(done),
        decreases rest@.len(),
    {
        let ghost before = variant_registry_view(design.variants@);
        let (key, v) = rest.pop().unwrap();
        design.register_variant(key, v);
        proof {
            assert((key, v) == variants@[done]);
            assert(variant_registry_view(design.variants@) =~= before.push((key@, v@)));
            assert(all.take(done + 1) =~= all.take(done).push(all[done]));
            assert(variant_registry_view(design.variants@) =~= start + all.take(done + 1));
            done = done + 1;
        }
    }
    proof {
        assert(all.take(done) =~= all);
    }
}

/// The variants of the screens of a table.
fn screens_from(table: &ThemeTable) -> (v: Vec<(String, Variant)>)
    ensures
        variant_registry_view(v@) == screen_variants(table.seq()),
{
    let mut v: Vec<(String, Variant)> = Vec::new();
    let n = table.len();
    let mut i: usize = 0;
    proof {
        assert(table.seq().take(0) =~= Seq::<(String, ThemeValue)>::empty());
        assert(variant_registry_view(v@) =~= screen_variants(table.seq().take(0)));
    }
    while i < n
        invariant
            n == table.seq().len(),
            i <= n,
            variant_registry_view(v@) == screen_variants(table.seq().take(i as int)),
        decreases n - i,
    {
        let ghost before = variant_registry_view(v@);
        proof {
            assert(table.seq().take(i + 1).drop_last() =~= table.seq().take(i as int));
            assert(table.seq().take(i + 1).last() == table.seq()[i as int]);
        }
        match table.value_at(i) {
            ThemeValue::Plain(width) => {
                let pattern = join3("@media (min-width: ", width.as_str(), ")");
                let key = table.key_at(i).clone();
                let variant = Variant {
                    kind: VariantKind::AtRule,
                    before: pattern,
                    after: String::new(),
                };
                v.push((key, variant));
                assert(variant_registry_view(v@) =~= before.push((key@, variant@)));
            },
            _ => {},
        }
        i += 1;
    }
    proof {
        assert(table.seq().take(n as int) =~= table.seq());
    }
    v
}

/// Registers the variants of the preset, after those that are registered
/// already.
pub fn load_variants(design: &mut DesignSystem)
    ensures
        variant_registry_view(final(design).variants@) == variant_registry_view(old(design).variants@)
            + variant_presets(old(design).theme),
        final(design).theme == old(design).theme,
        final(design).utilities == old(design).utilities,
{
    let ghost start = variant_registry_view(design.variants@);
    let screens = match design.theme.0.get("screens") {
        Some(table) => screens_from(table),
        None => {
            let v: Vec<(String, Variant)> = Vec::new();
            assert(variant_registry_view(v@) =~= screen_variants(Seq::empty()));
            v
        },
    };
    assert(variant_registry_view(screens@) == screen_variants(screens_of(design.theme)));
    register_variants(design, first_variants());
    register_variants(design, second_variants());
    register_variants(design, screens);
    proof {
        assert(variant_registry_view(design.variants@) =~= start + variant_presets(old(design).theme));
    }
}

} // verus!

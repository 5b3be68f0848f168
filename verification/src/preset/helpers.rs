//! Short ways to write down a utility of the preset.

use vstd::prelude::*;
use vstd::string::*;
use crate::builder::{string_texts, RawValueRepr, UtilityBuilder, UtilityBuilderView};
use crate::context::DesignSystem;
use crate::css::{rules_view, RuleView};
use crate::ordering::{OrderingKey, UtilityGroup};
use crate::process::{
    opt_additional, AdditionalCss, AdditionalCssView, Utility, UtilityHandler, UtilityHandlerView,
    UtilityView,
};
use crate::theme::{reversed, ThemeModel};
use crate::types::{CssDataType, CssProperty, Validator};
use crate::value::{DeclTemplate, DeclTemplateView, DeclValueView};

verus! {

/// The content of `name: <the value>`.
pub open spec fn value_view(name: Seq<char>) -> DeclTemplateView {
    DeclTemplateView { name, value: DeclValueView::Value }
}

/// The content of `name: <the value as a color>`.
pub open spec fn color_view(name: Seq<char>) -> DeclTemplateView {
    DeclTemplateView { name, value: DeclValueView::Color }
}

/// The content of `name: text`.
pub open spec fn fixed_view(name: Seq<char>, text: Seq<char>) -> DeclTemplateView {
    DeclTemplateView { name, value: DeclValueView::Fixed(text) }
}

/// The content of `name: before<the value>after`.
pub open spec fn wrapped_view(name: Seq<char>, before: Seq<char>, after: Seq<char>) -> DeclTemplateView {
    DeclTemplateView { name, value: DeclValueView::Wrapped(before, after) }
}

/// A handler of one declaration.
pub fn h1(a: DeclTemplate) -> (h: UtilityHandler)
    ensures
        h@ == UtilityHandlerView::Decls(seq![a@]),
{
    let mut v: Vec<DeclTemplate> = Vec::new();
    v.push(a);
    assert(crate::value::templates_view(v@) =~= seq![a@]);
    UtilityHandler::Decls(v)
}

/// A handler of two declarations.
pub fn h2(a: DeclTemplate, b: DeclTemplate) -> (h: UtilityHandler)
    ensures
        h@ == UtilityHandlerView::Decls(seq![a@, b@]),
{
    let mut v: Vec<DeclTemplate> = Vec::new();
    v.push(a);
    v.push(b);
    assert(crate::value::templates_view(v@) =~= seq![a@, b@]);
    UtilityHandler::Decls(v)
}

/// A handler of three declarations.
pub fn h3(a: DeclTemplate, b: DeclTemplate, c: DeclTemplate) -> (h: UtilityHandler)
    ensures
        h@ == UtilityHandlerView::Decls(seq![a@, b@, c@]),
{
    let mut v: Vec<DeclTemplate> = Vec::new();
    v.push(a);
    v.push(b);
    v.push(c);
    assert(crate::value::templates_view(v@) =~= seq![a@, b@, c@]);
    UtilityHandler::Decls(v)
}

/// A handler of four declarations.
pub fn h4(a: DeclTemplate, b: DeclTemplate, c: DeclTemplate, d: DeclTemplate) -> (h: UtilityHandler)
    ensures
        h@ == UtilityHandlerView::Decls(seq![a@, b@, c@, d@]),
{
    let mut v: Vec<DeclTemplate> = Vec::new();
    v.push(a);
    v.push(b);
    v.push(c);
    v.push(d);
    assert(crate::value::templates_view(v@) =~= seq![a@, b@, c@, d@]);
    UtilityHandler::Decls(v)
}

/// No theme table.
pub fn t0() -> (v: Vec<String>)
    ensures
        string_texts(v@) == Seq::<Seq<char>>::empty(),
{
    let v: Vec<String> = Vec::new();
    assert(string_texts(v@) =~= Seq::<Seq<char>>::empty());
    v
}

/// One theme table.
pub fn t1(a: &str) -> (v: Vec<String>)
    ensures
        string_texts(v@) == seq![a@],
{
    let mut v: Vec<String> = Vec::new();
    v.push(a.to_owned());
    assert(string_texts(v@) =~= seq![a@]);
    v
}

/// Two theme tables, tried in this order.
pub fn t2(a: &str, b: &str) -> (v: Vec<String>)
    ensures
        string_texts(v@) == seq![a@, b@],
{
    let mut v: Vec<String> = Vec::new();
    v.push(a.to_owned());
    v.push(b.to_owned());
    assert(string_texts(v@) =~= seq![a@, b@]);
    v
}

/// Three theme tables, tried in this order.
pub fn t3(a: &str, b: &str, c: &str) -> (v: Vec<String>)
    ensures
        string_texts(v@) == seq![a@, b@, c@],
{
    let mut v: Vec<String> = Vec::new();
    v.push(a.to_owned());
    v.push(b.to_owned());
    v.push(c.to_owned());
    assert(string_texts(v@) =~= seq![a@, b@, c@]);
    v
}

/// A validator by property.
pub open spec fn prop(p: CssProperty) -> Option<Validator> {
    Some(Validator::Property(p))
}

/// A validator by data type.
pub open spec fn data(d: CssDataType) -> Option<Validator> {
    Some(Validator::DataType(d))
}

/// A validator by property.
pub fn by_prop(p: CssProperty) -> (v: Option<Validator>)
    ensures
        v == prop(p),
{
    Some(Validator::Property(p))
}

/// A validator by data type.
pub fn by_data(d: CssDataType) -> (v: Option<Validator>)
    ensures
        v == data(d),
{
    Some(Validator::DataType(d))
}

/// What a utility of the preset has besides its key, handler, tables and
/// validator.
#[derive(Debug, Clone, Copy, PartialEq, Eq, Structural)]
pub struct Traits {
    pub negative: bool,
    pub fraction: bool,
    pub opacity: bool,
    pub ordering: Option<OrderingKey>,
    pub group: Option<UtilityGroup>,
}

/// No trait at all.
pub open spec fn plain_spec() -> Traits {
    Traits { negative: false, fraction: false, opacity: false, ordering: None, group: None }
}

/// No trait at all.
pub fn plain() -> (t: Traits)
    ensures
        t == plain_spec(),
{
    Traits { negative: false, fraction: false, opacity: false, ordering: None, group: None }
}

impl Traits {
    pub open spec fn neg_spec(self) -> Traits {
        Traits { negative: true, ..self }
    }

    pub open spec fn frac_spec(self) -> Traits {
        Traits { fraction: true, ..self }
    }

    pub open spec fn alpha_spec(self) -> Traits {
        Traits { opacity: true, ..self }
    }

    pub open spec fn ordered_spec(self, key: OrderingKey) -> Traits {
        Traits { ordering: Some(key), ..self }
    }

    pub open spec fn grouped_spec(self, group: UtilityGroup) -> Traits {
        Traits { group: Some(group), ..self }
    }

    /// Takes negative values.
    #[verifier::when_used_as_spec(neg_spec)]
    pub fn neg(self) -> (t: Traits)
        ensures
            t == self.neg_spec(),
    {
        Traits { negative: true, ..self }
    }

    /// Takes fractions.
    #[verifier::when_used_as_spec(frac_spec)]
    pub fn frac(self) -> (t: Traits)
        ensures
            t == self.frac_spec(),
    {
        Traits { fraction: true, ..self }
    }

    /// Takes an opacity as its modifier.
    #[verifier::when_used_as_spec(alpha_spec)]
    pub fn alpha(self) -> (t: Traits)
        ensures
            t == self.alpha_spec(),
    {
        Traits { opacity: true, ..self }
    }

    /// Stands in a bucket.
    #[verifier::when_used_as_spec(ordered_spec)]
    pub fn ordered(self, key: OrderingKey) -> (t: Traits)
        ensures
            t == self.ordered_spec(key),
    {
        Traits { ordering: Some(key), ..self }
    }

    /// Belongs to a group.
    #[verifier::when_used_as_spec(grouped_spec)]
    pub fn grouped(self, group: UtilityGroup) -> (t: Traits)
        ensures
            t == self.grouped_spec(group),
    {
        Traits { group: Some(group), ..self }
    }
}

/// The content of a utility of the preset.
pub open spec fn preset_view(
    key: Seq<char>,
    handler: UtilityHandlerView,
    themes: Seq<Seq<char>>,
    validator: Option<Validator>,
    traits: Traits,
    additional: Option<AdditionalCssView>,
) -> UtilityBuilderView {
    UtilityBuilderView {
        key,
        handler: Some(handler),
        modifier: None,
        theme_keys: themes,
        validator,
        wrapper: None,
        supports_negative: traits.negative,
        supports_fraction: traits.fraction,
        opacity_modifier: traits.opacity,
        ordering_key: traits.ordering,
        additional_css: additional,
        group: traits.group,
    }
}

/// A utility of the preset.
pub fn preset(
    key: &str,
    handler: UtilityHandler,
    themes: Vec<String>,
    validator: Option<Validator>,
    traits: Traits,
    additional: Option<AdditionalCss>,
) -> (b: UtilityBuilder)
    ensures
        b@ == preset_view(
            key@,
            handler@,
            string_texts(themes@),
            validator,
            traits,
            opt_additional(additional),
        ),
{
    UtilityBuilder {
        key: key.to_owned(),
        handler: Some(handler),
        modifier: None,
        theme_keys: themes,
        validator,
        wrapper: None,
        supports_negative: traits.negative,
        supports_fraction: traits.fraction,
        opacity_modifier: traits.opacity,
        ordering_key: traits.ordering,
        additional_css: additional,
        group: traits.group,
    }
}

/// The same rules for every value.
pub open spec fn shared(rules: Seq<RuleView>) -> Option<AdditionalCssView> {
    Some(AdditionalCssView::Rules(rules))
}

/// The same rules for every value.
pub fn with_rules(rules: Vec<crate::css::Rule>) -> (a: Option<AdditionalCss>)
    ensures
        opt_additional(a) == shared(rules_view(rules@)),
{
    Some(AdditionalCss::Rules(rules))
}

/// The builder with a wrapper for the class.
pub fn wrapped_in(b: UtilityBuilder, wrapper: &str) -> (r: UtilityBuilder)
    ensures
        r@ == (UtilityBuilderView { wrapper: Some(wrapper@), ..b@ }),
{
    let mut r = b;
    r.wrapper = Some(wrapper.to_owned());
    r
}

/// The builder with modifiers from a theme table.
pub fn modified_by(b: UtilityBuilder, theme_key: &str, validator: Option<Validator>) -> (r: UtilityBuilder)
    ensures
        r@ == (UtilityBuilderView { modifier: Some((seq![theme_key@], validator)), ..b@ }),
{
    let mut r = b;
    let mut keys: Vec<String> = Vec::new();
    keys.push(theme_key.to_owned());
    assert(string_texts(keys@) =~= seq![theme_key@]);
    r.modifier = Some(RawValueRepr { theme_keys: keys, validator });
    r
}

/// The views of the builders, in order.
pub open spec fn builders_view(b: Seq<UtilityBuilder>) -> Seq<UtilityBuilderView> {
    Seq::new(b.len(), |i: int| b[i]@)
}

/// The keys of a registry with the content of its utilities, in order.
pub open spec fn registry_view(entries: Seq<(String, Utility)>) -> Seq<(Seq<char>, UtilityView)> {
    Seq::new(entries.len(), |i: int| (entries[i].0@, entries[i].1@))
}

/// What the builders register against a theme, in order.
pub open spec fn built_all(b: Seq<UtilityBuilderView>, theme: ThemeModel) -> Seq<
    (Seq<char>, UtilityView),
> {
    Seq::new(b.len(), |i: int| (b[i].key, b[i].built(theme)))
}

/// Each builder has a handler.
pub open spec fn all_handled(b: Seq<UtilityBuilderView>) -> bool {
    forall|i: int| 0 <= i < b.len() ==> (#[trigger] b[i]).handler is Some
}

/// Builds the utilities against the theme of the design system and
/// registers them, in order.
pub fn register_all(design: &mut DesignSystem, builders: Vec<UtilityBuilder>)
    requires
        all_handled(builders_view(builders@)),
    ensures
        registry_view(final(design).utilities@) == registry_view(old(design).utilities@) + built_all(
            builders_view(builders@),
            old(design).theme.model(),
        ),
        final(design).theme == old(design).theme,
        final(design).variants == old(design).variants,
{
    let ghost all = builders_view(builders@);
    let ghost theme = design.theme.model();
    let ghost start = registry_view(design.utilities@);
    let mut rest = reversed(builders);
    let ghost done: int = 0;
    proof {
        assert(start + built_all(all.take(0), theme) =~= start);
    }
    while rest.len() > 0
        invariant
            0 <= done <= all.len(),
            rest@.len() == all.len() - done,
            all == builders_view(builders@),
            all_handled(all),
            forall|k: int| 0 <= k < rest@.len() ==> (#[trigger] rest@[k]) == builders@[all.len() - 1 - k],
            design.theme == old(design).theme,
            design.variants == old(design).variants,
            theme == design.theme.model(),
            registry_view(design.utilities@) == start + built_all(all.take(done), theme),
        decreases rest@.len(),
    {
        let ghost before = registry_view(design.utilities@);
        let b = rest.pop().unwrap();
        proof {
            assert(b == builders@[done]);
            assert(all[done] == b@);
            assert(all[done].handler is Some);
        }
        match b.parse(&design.theme) {
            Ok((key, utility)) => {
                design.register_utility(key, utility);
                proof {
                    assert(registry_view(design.utilities@) =~= before.push((key@, utility@)));
                    assert(built_all(all.take(done + 1), theme) =~= built_all(
                        all.take(done),
                        theme,
                    ).push((all[done].key, all[done].built(theme))));
                    assert(registry_view(design.utilities@) =~= start + built_all(
                        all.take(done + 1),
                        theme,
                    ));
                }
            },
            Err(_) => {},
        }
        proof {
            done = done + 1;
        }
    }
    proof {
        assert(all.take(done) =~= all);
    }
}

} // verus!

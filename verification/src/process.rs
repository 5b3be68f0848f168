//! Utilities: what a utility is made of, and how a candidate becomes the
//! nodes of its rule.

use vstd::prelude::*;
use vstd::string::*;
use crate::css::{
    clone_rules, nodes_view, rule_nodes, rules_view, AstNode, Decl, DeclView, NodeView, Rule,
    RuleView,
};
use crate::ordering::{OrderingKey, UtilityGroup};
use crate::parsing::{MaybeArbitrary, MaybeArbitraryView, UtilityCandidate, UtilityCandidateView};
use crate::text::join2;
use crate::theme::{
    clone_table, first_hit, lookup_tables, table_model, table_models, theme_text, FontFamily,
    FontFamilyView, FontSize, FontSizeView, TableModel, ThemeTable, ThemeValue, ThemeValueView,
};
use crate::types::{check_value, passes, Validator};
use crate::value::{
    decode_arbitrary_value, decoded, is_number, check_number, opt_str_text, render_all, rendered,
    templates_view, DeclTemplate, DeclTemplateView,
};

verus! {

/// What a handler is told about the candidate besides its value: the
/// value as it is written, and the modifier.
#[derive(Debug, PartialEq)]
pub struct MetaData {
    pub raw: String,
    pub modifier: Option<String>,
}

impl MetaData {
    /// The data of a value without a modifier.
    pub fn new(raw: &str) -> (m: MetaData)
        ensures
            m.raw@ == raw@,
            m.modifier is None,
    {
        MetaData { raw: raw.to_owned(), modifier: None }
    }

    /// Sets the modifier.
    pub fn with_modifier(self, modifier: Option<String>) -> (m: MetaData)
        ensures
            m.raw == self.raw,
            m.modifier == modifier,
    {
        MetaData { raw: self.raw, modifier }
    }
}

/// How a utility makes its nodes.
#[derive(Debug, PartialEq)]
pub enum UtilityHandler {
    /// One declaration for each template.
    Decls(Vec<DeclTemplate>),
    /// `font-size` with what the theme's font size brings along.
    FontSize,
    /// `font-family` with what the theme's font family brings along.
    FontFamily,
    /// Fixed nodes, for a utility that takes no value.
    Static(Vec<AstNode>),
}

/// The mathematical content of a [`UtilityHandler`].
pub ghost enum UtilityHandlerView {
    Decls(Seq<DeclTemplateView>),
    FontSize,
    FontFamily,
    Static(Seq<NodeView>),
}

impl View for UtilityHandler {
    type V = UtilityHandlerView;

    open spec fn view(&self) -> UtilityHandlerView {
        match self {
            UtilityHandler::Decls(t) => UtilityHandlerView::Decls(templates_view(t@)),
            UtilityHandler::FontSize => UtilityHandlerView::FontSize,
            UtilityHandler::FontFamily => UtilityHandlerView::FontFamily,
            UtilityHandler::Static(nodes) => UtilityHandlerView::Static(nodes_view(nodes@)),
        }
    }
}

/// A declaration as a node.
pub open spec fn decl_node(name: Seq<char>, value: Seq<char>) -> NodeView {
    NodeView::Decl(DeclView { name, value })
}

/// A declaration, if there is a value for it.
pub open spec fn opt_decl(name: Seq<char>, value: Option<Seq<char>>) -> Seq<NodeView> {
    match value {
        Some(v) => seq![decl_node(name, v)],
        None => Seq::<NodeView>::empty(),
    }
}

/// The nodes of a font size: the size, the line height (that of the
/// modifier, if there is one), the letter spacing and the weight.
pub open spec fn font_size_nodes(f: FontSizeView, modifier: Option<Seq<char>>) -> Seq<NodeView> {
    let line_height = match modifier {
        Some(m) => Some(m),
        None => f.line_height,
    };
    seq![decl_node("font-size"@, f.size)] + opt_decl("line-height"@, line_height) + opt_decl(
        "letter-spacing"@,
        f.letter_spacing,
    ) + opt_decl("font-weight"@, f.font_weight)
}

/// The nodes of a font family: the family and its settings.
pub open spec fn font_family_nodes(f: FontFamilyView) -> Seq<NodeView> {
    seq![decl_node("font-family"@, f.family)] + opt_decl(
        "font-feature-settings"@,
        f.feature_settings,
    ) + opt_decl("font-variation-settings"@, f.variation_settings)
}

impl UtilityHandlerView {
    /// The nodes that the handler makes of a value.
    pub open spec fn nodes(
        self,
        value: Seq<char>,
        modifier: Option<Seq<char>>,
        theme_value: Option<ThemeValueView>,
    ) -> Seq<NodeView> {
        match self {
            UtilityHandlerView::Decls(t) => rendered(t, value, modifier),
            UtilityHandlerView::FontSize => match theme_value {
                Some(ThemeValueView::FontSize(f)) => font_size_nodes(f, modifier),
                _ => seq![decl_node("font-size"@, value)] + opt_decl("line-height"@, modifier),
            },
            UtilityHandlerView::FontFamily => match theme_value {
                Some(ThemeValueView::FontFamily(f)) => font_family_nodes(f),
                _ => seq![decl_node("font-family"@, value)],
            },
            UtilityHandlerView::Static(nodes) => nodes,
        }
    }
}

/// Appends a declaration, if there is a value for it.
fn push_opt_decl(nodes: &mut Vec<AstNode>, name: &str, value: Option<&str>)
    ensures
        nodes_view(final(nodes)@) == nodes_view(old(nodes)@) + opt_decl(name@, opt_str_text(value)),
{
    match value {
        Some(v) => {
            nodes.push(AstNode::decl(name, v));
            assert(nodes_view(nodes@) =~= nodes_view(old(nodes)@) + opt_decl(
                name@,
                opt_str_text(value),
            ));
        },
        None => {
            assert(nodes_view(nodes@) =~= nodes_view(old(nodes)@) + opt_decl(
                name@,
                opt_str_text(value),
            ));
        },
    }
}

/// An optional string as an optional slice.
pub fn opt_as_str(s: &Option<String>) -> (r: Option<&str>)
    ensures
        opt_str_text(r) == crate::theme::opt_text(*s),
{
    match s {
        Some(s) => Some(s.as_str()),
        None => None,
    }
}

impl UtilityHandler {
    /// A handler that makes the fixed declaration `name: value`.
    pub fn fixed(name: &str, value: &str) -> (h: UtilityHandler)
        ensures
            h@ == UtilityHandlerView::Static(seq![decl_node(name@, value@)]),
    {
        let mut nodes: Vec<AstNode> = Vec::new();
        nodes.push(AstNode::decl(name, value));
        assert(nodes_view(nodes@) =~= seq![decl_node(name@, value@)]);
        UtilityHandler::Static(nodes)
    }

    /// A handler that makes the declaration `name: <the value>`.
    pub fn decl(name: &str) -> (h: UtilityHandler)
        ensures
            h@ == UtilityHandlerView::Decls(seq![DeclTemplate::value_view(name@)]),
    {
        let mut t: Vec<DeclTemplate> = Vec::new();
        t.push(DeclTemplate::value(name));
        assert(templates_view(t@) =~= seq![DeclTemplate::value_view(name@)]);
        UtilityHandler::Decls(t)
    }

    /// The nodes that the handler makes of a value, with the modifier of
    /// the candidate's data.
    pub fn handle(&self, meta: &MetaData, value: &str, theme_value: Option<&ThemeValue>) -> (nodes: Vec<
        AstNode,
    >)
        ensures
            nodes_view(nodes@) == self@.nodes(
                value@,
                crate::theme::opt_text(meta.modifier),
                match theme_value {
                    Some(v) => Some(v@),
                    None => None,
                },
            ),
    {
        self.call(value, opt_as_str(&meta.modifier), theme_value)
    }

    /// The nodes that the handler makes of a value.
    pub fn call(&self, value: &str, modifier: Option<&str>, theme_value: Option<&ThemeValue>) -> (nodes:
        Vec<AstNode>)
        ensures
            nodes_view(nodes@) == self@.nodes(
                value@,
                opt_str_text(modifier),
                match theme_value {
                    Some(v) => Some(v@),
                    None => None,
                },
            ),
    {
        match self {
            UtilityHandler::Decls(t) => render_all(t, value, modifier),
            UtilityHandler::FontSize => {
                let mut nodes: Vec<AstNode> = Vec::new();
                match theme_value {
                    Some(ThemeValue::FontSize(f)) => {
                        nodes.push(AstNode::decl("font-size", f.size.as_str()));
                        assert(nodes_view(nodes@) =~= seq![decl_node("font-size"@, f.size@)]);
                        let line_height = match modifier {
                            Some(m) => Some(m),
                            None => opt_as_str(&f.line_height),
                        };
                        push_opt_decl(&mut nodes, "line-height", line_height);
                        push_opt_decl(&mut nodes, "letter-spacing", opt_as_str(&f.letter_spacing));
                        push_opt_decl(&mut nodes, "font-weight", opt_as_str(&f.font_weight));
                    },
                    _ => {
                        nodes.push(AstNode::decl("font-size", value));
                        assert(nodes_view(nodes@) =~= seq![decl_node("font-size"@, value@)]);
                        push_opt_decl(&mut nodes, "line-height", modifier);
                    },
                }
                nodes
            },
            UtilityHandler::FontFamily => {
                let mut nodes: Vec<AstNode> = Vec::new();
                match theme_value {
                    Some(ThemeValue::FontFamily(f)) => {
                        nodes.push(AstNode::decl("font-family", f.family.as_str()));
                        assert(nodes_view(nodes@) =~= seq![decl_node("font-family"@, f.family@)]);
                        push_opt_decl(
                            &mut nodes,
                            "font-feature-settings",
                            opt_as_str(&f.feature_settings),
                        );
                        push_opt_decl(
                            &mut nodes,
                            "font-variation-settings",
                            opt_as_str(&f.variation_settings),
                        );
                    },
                    _ => {
                        nodes.push(AstNode::decl("font-family", value));
                        assert(nodes_view(nodes@) =~= seq![decl_node("font-family"@, value@)]);
                    },
                }
                nodes
            },
            UtilityHandler::Static(nodes) => crate::css::clone_nodes(nodes),
        }
    }
}

/// Where the values (or modifiers) of a utility come from: theme tables,
/// tried in order, and a validator for arbitrary values.
#[derive(Debug, PartialEq)]
pub struct ValueRepr {
    pub tables: Vec<ThemeTable>,
    pub validator: Option<Validator>,
}

impl ValueRepr {
    /// No table and no validator.
    pub fn new() -> (r: ValueRepr)
        ensures
            r.tables@.len() == 0,
            r.validator is None,
    {
        ValueRepr { tables: Vec::new(), validator: None }
    }
}

/// Rules that come with a utility's rule: registered custom properties,
/// or the keyframes of an animation.
#[derive(Debug, PartialEq)]
pub enum AdditionalCss {
    /// The same rules for every value.
    Rules(Vec<Rule>),
    /// The keyframes that the table holds under the value's name.
    Keyframes(ThemeTable),
}

/// The rules of the keyframes named `name`, if the table has them.
pub open spec fn keyframes_rules(table: TableModel, name: Seq<char>) -> Option<Seq<RuleView>> {
    if table.contains_key(name) {
        match table[name] {
            ThemeValueView::Keyframes(frames) => Some(
                seq![
                    RuleView { selector: "@keyframes "@ + name, nodes: rule_nodes(frames) },
                ],
            ),
            _ => None,
        }
    } else {
        None
    }
}

/// Something that gives the rules that come with a utility's rule, for
/// the name of the value.
pub trait AdditionalCssHandler {
    /// The rules for a value.
    spec fn rules_for(&self, value: Seq<char>) -> Option<Seq<RuleView>>;

    /// The rules for a value.
    fn handle(&self, value: &str) -> (r: Option<Vec<Rule>>)
        ensures
            match r {
                Some(rules) => self.rules_for(value@) == Some(rules_view(rules@)),
                None => self.rules_for(value@) is None,
            },
    ;
}

impl AdditionalCssHandler for Vec<Rule> {
    open spec fn rules_for(&self, value: Seq<char>) -> Option<Seq<RuleView>> {
        Some(rules_view(self@))
    }

    fn handle(&self, value: &str) -> (r: Option<Vec<Rule>>) {
        Some(clone_rules(self))
    }
}

impl AdditionalCssHandler for AdditionalCss {
    open spec fn rules_for(&self, value: Seq<char>) -> Option<Seq<RuleView>> {
        match self {
            AdditionalCss::Rules(rules) => Some(rules_view(rules@)),
            AdditionalCss::Keyframes(table) => keyframes_rules(table_model(*table), value),
        }
    }

    fn handle(&self, value: &str) -> (r: Option<Vec<Rule>>) {
        match self {
            AdditionalCss::Rules(rules) => Some(clone_rules(rules)),
            AdditionalCss::Keyframes(table) => {
                match table.get(value) {
                    Some(ThemeValue::Keyframes(frames)) => {
                        let selector = join2("@keyframes ", value);
                        let rule = Rule::new_with_rules(selector.as_str(), clone_rules(frames));
                        let mut rules: Vec<Rule> = Vec::new();
                        rules.push(rule);
                        assert(rules_view(rules@) =~= seq![rule@]);
                        Some(rules)
                    },
                    _ => None,
                }
            },
        }
    }
}

impl Clone for AdditionalCss {
    fn clone(&self) -> (c: AdditionalCss)
        ensures
            forall|v: Seq<char>| c.rules_for(v) == self.rules_for(v),
    {
        match self {
            AdditionalCss::Rules(rules) => AdditionalCss::Rules(clone_rules(rules)),
            AdditionalCss::Keyframes(table) => AdditionalCss::Keyframes(clone_table(table)),
        }
    }
}

/// The rules that come with a utility's rule.
pub open spec fn additional_rules(css: Option<AdditionalCss>, name: Seq<char>) -> Seq<RuleView> {
    match css {
        Some(css) => match css.rules_for(name) {
            Some(rules) => rules,
            None => Seq::<RuleView>::empty(),
        },
        None => Seq::<RuleView>::empty(),
    }
}

/// A utility: how to make a rule's nodes from the value that stands after
/// its key.
#[derive(Debug, PartialEq)]
pub struct Utility {
    pub handler: UtilityHandler,
    pub supports_negative: bool,
    pub supports_fraction: bool,
    pub value_repr: ValueRepr,
    pub modifier: Option<ValueRepr>,
    pub wrapper: Option<String>,
    pub additional_css: Option<AdditionalCss>,
    pub ordering_key: Option<OrderingKey>,
    pub group: Option<UtilityGroup>,
    pub opacity_modifier: bool,
}

/// The mathematical content of an [`AdditionalCss`].
pub ghost enum AdditionalCssView {
    Rules(Seq<RuleView>),
    Keyframes(TableModel),
}

impl View for AdditionalCss {
    type V = AdditionalCssView;

    open spec fn view(&self) -> AdditionalCssView {
        match self {
            AdditionalCss::Rules(rules) => AdditionalCssView::Rules(rules_view(rules@)),
            AdditionalCss::Keyframes(table) => AdditionalCssView::Keyframes(table_model(*table)),
        }
    }
}

/// The content of optional additional rules.
pub open spec fn opt_additional(a: Option<AdditionalCss>) -> Option<AdditionalCssView> {
    match a {
        Some(a) => Some(a@),
        None => None,
    }
}

/// The mathematical content of a [`Utility`].
pub ghost struct UtilityView {
    pub handler: UtilityHandlerView,
    pub supports_negative: bool,
    pub supports_fraction: bool,
    pub tables: Seq<TableModel>,
    pub validator: Option<Validator>,
    /// The tables and the validator of the modifier, where the utility
    /// takes one.
    pub modifier: Option<(Seq<TableModel>, Option<Validator>)>,
    pub wrapper: Option<Seq<char>>,
    pub additional_css: Option<AdditionalCssView>,
    pub ordering_key: Option<OrderingKey>,
    pub group: Option<UtilityGroup>,
    pub opacity_modifier: bool,
}

impl View for Utility {
    type V = UtilityView;

    open spec fn view(&self) -> UtilityView {
        UtilityView {
            handler: self.handler@,
            supports_negative: self.supports_negative,
            supports_fraction: self.supports_fraction,
            tables: table_models(self.value_repr.tables@),
            validator: self.value_repr.validator,
            modifier: match self.modifier {
                Some(m) => Some((table_models(m.tables@), m.validator)),
                None => None,
            },
            wrapper: crate::theme::opt_text(self.wrapper),
            additional_css: opt_additional(self.additional_css),
            ordering_key: self.ordering_key,
            group: self.group,
            opacity_modifier: self.opacity_modifier,
        }
    }
}

/// What a utility makes of a candidate.
#[derive(Debug, PartialEq)]
pub struct Applied {
    pub nodes: Vec<AstNode>,
    pub additional: Vec<Rule>,
}

/// The mathematical content of an [`Applied`].
pub ghost struct AppliedView {
    pub nodes: Seq<NodeView>,
    pub additional: Seq<RuleView>,
}

impl View for Applied {
    type V = AppliedView;

    open spec fn view(&self) -> AppliedView {
        AppliedView { nodes: nodes_view(self.nodes@), additional: rules_view(self.additional@) }
    }
}

/// The content of an optional [`Applied`].
pub open spec fn opt_applied(a: Option<Applied>) -> Option<AppliedView> {
    match a {
        Some(a) => Some(a@),
        None => None,
    }
}

/// The value that a candidate resolves to.
pub ghost struct Effective {
    /// The text that goes into the declarations.
    pub value: Seq<char>,
    /// The theme value behind it, if it came from the theme.
    pub theme_value: Option<ThemeValueView>,
    /// Whether value and modifier were read together as a fraction.
    pub fraction: bool,
}

/// The theme value of `key` with its text, from the first table that has
/// the key.
pub open spec fn themed(tables: Seq<TableModel>, key: Seq<char>) -> Option<Effective> {
    match first_hit(tables, key) {
        Some(v) => match theme_text(v) {
            Some(t) => Some(Effective { value: t, theme_value: Some(v), fraction: false }),
            None => None,
        },
        None => None,
    }
}

/// The name under which the rules that come with a utility are looked up:
/// the candidate's value as it is written.
pub open spec fn value_name(value: Option<MaybeArbitraryView>) -> Seq<char> {
    match value {
        Some(MaybeArbitraryView::Named(s)) => s,
        Some(MaybeArbitraryView::Arbitrary(s)) => s,
        None => "DEFAULT"@,
    }
}

impl Utility {
    /// The tables of the values, in order.
    pub open spec fn tables(&self) -> Seq<TableModel> {
        table_models(self.value_repr.tables@)
    }

    /// The tables of the modifiers, in order.
    pub open spec fn modifier_tables(&self) -> Seq<TableModel> {
        match self.modifier {
            Some(m) => table_models(m.tables@),
            None => Seq::<TableModel>::empty(),
        }
    }

    /// The value of a candidate. A utility of fixed nodes takes no value,
    /// and its value is the empty text. For any other, an arbitrary value
    /// is decoded and stands if it was found valid. A named value is looked
    /// up in the tables: where fractions are supported and value and
    /// modifier are both names, first as `value/modifier`, then by itself.
    /// Without a value, `DEFAULT` is looked up.
    pub open spec fn effective(&self, c: UtilityCandidateView, value_ok: bool) -> Option<Effective> {
        if self.handler is Static {
            if c.value is None {
                Some(Effective { value: Seq::<char>::empty(), theme_value: None, fraction: false })
            } else {
                None
            }
        } else {
            self.effective_themed(c, value_ok)
        }
    }

    /// The value of a candidate for a utility that takes a value.
    pub open spec fn effective_themed(&self, c: UtilityCandidateView, value_ok: bool) -> Option<
        Effective,
    > {
        match c.value {
            Some(MaybeArbitraryView::Arbitrary(s)) => if value_ok {
                Some(Effective { value: decoded(s), theme_value: None, fraction: false })
            } else {
                None
            },
            Some(MaybeArbitraryView::Named(s)) => {
                let whole = if self.supports_fraction && c.fraction() is Some {
                    themed(self.tables(), c.fraction().unwrap())
                } else {
                    None
                };
                match whole {
                    Some(e) => Some(Effective { fraction: true, ..e }),
                    None => themed(self.tables(), s),
                }
            },
            None => themed(self.tables(), "DEFAULT"@),
        }
    }

    /// The modifier of a candidate, once its value is known; the outer
    /// `None` rejects the candidate. A modifier that went into a fraction
    /// is gone. An arbitrary modifier needs a utility that takes modifiers
    /// and must have been found valid. A named one is looked up in the
    /// modifier tables; failing that, a number passes where the utility
    /// takes an opacity.
    pub open spec fn effective_modifier(
        &self,
        c: UtilityCandidateView,
        fraction: bool,
        modifier_ok: bool,
    ) -> Option<Option<Seq<char>>> {
        if fraction {
            Some(None)
        } else {
            match c.modifier {
                None => Some(None),
                Some(MaybeArbitraryView::Arbitrary(s)) => if (self.modifier is Some
                    || self.opacity_modifier) && modifier_ok {
                    Some(Some(decoded(s)))
                } else {
                    None
                },
                Some(MaybeArbitraryView::Named(s)) => match themed(self.modifier_tables(), s) {
                    Some(e) => Some(Some(e.value)),
                    None => if self.opacity_modifier && is_number(s) {
                        Some(Some(s))
                    } else {
                        None
                    },
                },
            }
        }
    }

    /// What the utility makes of a candidate, given whether its arbitrary
    /// value and its arbitrary modifier were found valid. A negative
    /// candidate is rejected unless the utility supports negative values,
    /// and then has `-` put before its value.
    pub open spec fn apply_with(
        &self,
        c: UtilityCandidateView,
        value_ok: bool,
        modifier_ok: bool,
    ) -> Option<AppliedView> {
        if c.negative && !self.supports_negative {
            None
        } else {
            match self.effective(c, value_ok) {
                None => None,
                Some(e) => match self.effective_modifier(c, e.fraction, modifier_ok) {
                    None => None,
                    Some(m) => {
                        let value = if c.negative {
                            seq!['-'] + e.value
                        } else {
                            e.value
                        };
                        Some(
                            AppliedView {
                                nodes: self.handler@.nodes(value, m, e.theme_value),
                                additional: additional_rules(
                                    self.additional_css,
                                    value_name(c.value),
                                ),
                            },
                        )
                    },
                },
            }
        }
    }

    /// Whether the candidate's value passes the validator: only an
    /// arbitrary value is tested.
    pub open spec fn value_passes(&self, c: UtilityCandidateView) -> bool {
        match c.value {
            Some(MaybeArbitraryView::Arbitrary(s)) => passes(self.value_repr.validator, decoded(s)),
            _ => true,
        }
    }

    /// Whether the candidate's modifier passes the validator: only an
    /// arbitrary modifier is tested.
    pub open spec fn modifier_passes(&self, c: UtilityCandidateView) -> bool {
        match (c.modifier, self.modifier) {
            (Some(MaybeArbitraryView::Arbitrary(s)), Some(m)) => passes(m.validator, decoded(s)),
            _ => true,
        }
    }

    /// What the utility makes of a candidate.
    pub open spec fn apply_spec(&self, c: UtilityCandidateView) -> Option<AppliedView> {
        self.apply_with(c, self.value_passes(c), self.modifier_passes(c))
    }
}

/// The content of an optional theme value.
pub open spec fn opt_theme_view(v: Option<&ThemeValue>) -> Option<ThemeValueView> {
    match v {
        Some(v) => Some(v@),
        None => None,
    }
}

/// Looks a key up in the tables and takes the text of the hit.
fn themed_lookup<'a>(tables: &'a Vec<ThemeTable>, key: &str) -> (r: Option<(&'a str, &'a ThemeValue)>)
    ensures
        match r {
            Some((t, v)) => themed(table_models(tables@), key@) == Some(
                Effective { value: t@, theme_value: Some(v@), fraction: false },
            ),
            None => themed(table_models(tables@), key@) is None,
        },
{
    match lookup_tables(tables, key) {
        Some(v) => match v.text() {
            Some(t) => Some((t, v)),
            None => None,
        },
        None => None,
    }
}

/// The candidate that stands for the text after a key: a bracketed block
/// is an arbitrary value, anything else a name.
pub open spec fn value_candidate(value: Seq<char>) -> UtilityCandidateView {
    let v = if value.len() >= 2 && value[0] == '[' && value.last() == ']' {
        MaybeArbitraryView::Arbitrary(value.subrange(1, value.len() - 1))
    } else {
        MaybeArbitraryView::Named(value)
    };
    UtilityCandidateView { value: Some(v), ..UtilityCandidateView::with_key(Seq::<char>::empty()) }
}

impl Utility {
    /// A utility with the given handler and nothing else.
    pub fn new(handler: UtilityHandler) -> (u: Utility)
        ensures
            u.handler == handler,
            !u.supports_negative,
            !u.supports_fraction,
            u.value_repr.tables@.len() == 0,
            u.value_repr.validator is None,
            u.modifier is None,
            u.wrapper is None,
            u.additional_css is None,
            u.ordering_key is None,
            u.group is None,
            !u.opacity_modifier,
    {
        Utility {
            handler,
            supports_negative: false,
            supports_fraction: false,
            value_repr: ValueRepr::new(),
            modifier: None,
            wrapper: None,
            additional_css: None,
            ordering_key: None,
            group: None,
            opacity_modifier: false,
        }
    }

    /// Sets the validator of arbitrary values.
    pub fn infer_by(self, validator: Validator) -> (u: Utility)
        ensures
            u == (Utility {
                value_repr: ValueRepr { validator: Some(validator), ..self.value_repr },
                ..self
            }),
    {
        let mut u = self;
        u.value_repr.validator = Some(validator);
        u
    }

    /// Lets the utility take negative values.
    pub fn support_negative(self) -> (u: Utility)
        ensures
            u == (Utility { supports_negative: true, ..self }),
    {
        let mut u = self;
        u.supports_negative = true;
        u
    }

    /// Adds a table of values, tried after those that are there.
    pub fn allow_values(self, values: ThemeTable) -> (u: Utility)
        ensures
            u.tables() == self.tables().push(table_model(values)),
            u.value_repr.validator == self.value_repr.validator,
            u.handler == self.handler,
            u.supports_negative == self.supports_negative,
            u.supports_fraction == self.supports_fraction,
            u.modifier == self.modifier,
            u.wrapper == self.wrapper,
            u.additional_css == self.additional_css,
            u.ordering_key == self.ordering_key,
            u.group == self.group,
            u.opacity_modifier == self.opacity_modifier,
    {
        let mut u = self;
        u.value_repr.tables.push(values);
        assert(u.tables() =~= self.tables().push(table_model(values)));
        u
    }

    /// Adds a table of modifiers, tried after those that are there.
    pub fn allow_modifiers(self, modifiers: ThemeTable) -> (u: Utility)
        ensures
            u.modifier is Some,
            u.modifier_tables() == self.modifier_tables().push(table_model(modifiers)),
            u.value_repr == self.value_repr,
            u.handler == self.handler,
            u.supports_negative == self.supports_negative,
            u.supports_fraction == self.supports_fraction,
            u.wrapper == self.wrapper,
            u.additional_css == self.additional_css,
            u.ordering_key == self.ordering_key,
            u.group == self.group,
            u.opacity_modifier == self.opacity_modifier,
    {
        let Utility {
            handler,
            supports_negative,
            supports_fraction,
            value_repr,
            modifier,
            wrapper,
            additional_css,
            ordering_key,
            group,
            opacity_modifier,
        } = self;
        let mut repr = match modifier {
            Some(m) => m,
            None => ValueRepr::new(),
        };
        let ghost before = table_models(repr.tables@);
        repr.tables.push(modifiers);
        assert(table_models(repr.tables@) =~= before.push(table_model(modifiers)));
        assert(before =~= self.modifier_tables());
        Utility {
            handler,
            supports_negative,
            supports_fraction,
            value_repr,
            modifier: Some(repr),
            wrapper,
            additional_css,
            ordering_key,
            group,
            opacity_modifier,
        }
    }

    /// The value of a candidate: its text, the theme value behind it, and
    /// whether it was read as a fraction.
    fn effective_value<'a>(&'a self, c: &UtilityCandidate, value_ok: bool) -> (r: Option<
        (String, Option<&'a ThemeValue>, bool),
    >)
        ensures
            match r {
                Some((t, v, f)) => self.effective(c@, value_ok) == Some(
                    Effective { value: t@, theme_value: opt_theme_view(v), fraction: f },
                ),
                None => self.effective(c@, value_ok) is None,
            },
    {
        match &self.handler {
            UtilityHandler::Static(_) => {
                if c.value.is_none() {
                    return Some((String::new(), None, false));
                } else {
                    return None;
                }
            },
            _ => {},
        }
        match &c.value {
            Some(MaybeArbitrary::Arbitrary(s)) => {
                if value_ok {
                    Some((decode_arbitrary_value(s.as_str()), None, false))
                } else {
                    None
                }
            },
            Some(MaybeArbitrary::Named(s)) => {
                if self.supports_fraction {
                    match c.take_fraction() {
                        Some(f) => match themed_lookup(&self.value_repr.tables, f.as_str()) {
                            Some((t, v)) => {
                                return Some((t.to_owned(), Some(v), true));
                            },
                            None => {},
                        },
                        None => {},
                    }
                }
                match themed_lookup(&self.value_repr.tables, s.as_str()) {
                    Some((t, v)) => Some((t.to_owned(), Some(v), false)),
                    None => None,
                }
            },
            None => match themed_lookup(&self.value_repr.tables, "DEFAULT") {
                Some((t, v)) => Some((t.to_owned(), Some(v), false)),
                None => None,
            },
        }
    }

    /// The modifier of a candidate; the outer `None` rejects it.
    fn modifier_value(&self, c: &UtilityCandidate, fraction: bool, modifier_ok: bool) -> (r: Option<
        Option<String>,
    >)
        ensures
            match r {
                Some(m) => self.effective_modifier(c@, fraction, modifier_ok) == Some(
                    crate::theme::opt_text(m),
                ),
                None => self.effective_modifier(c@, fraction, modifier_ok) is None,
            },
    {
        if fraction {
            return Some(None);
        }
        match &c.modifier {
            None => Some(None),
            Some(MaybeArbitrary::Arbitrary(s)) => {
                if (self.modifier.is_some() || self.opacity_modifier) && modifier_ok {
                    Some(Some(decode_arbitrary_value(s.as_str())))
                } else {
                    None
                }
            },
            Some(MaybeArbitrary::Named(s)) => {
                let hit = match &self.modifier {
                    Some(m) => {
                        themed_lookup(&m.tables, s.as_str())
                    },
                    None => {
                        None
                    },
                };
                match hit {
                    Some((t, _)) => Some(Some(t.to_owned())),
                    None => {
                        if self.opacity_modifier && check_number(s.as_str()) {
                            Some(Some(s.clone()))
                        } else {
                            None
                        }
                    },
                }
            },
        }
    }

    /// What the utility makes of a candidate, given whether its arbitrary
    /// value and its arbitrary modifier were found valid.
    pub fn apply_checked(&self, c: &UtilityCandidate, value_ok: bool, modifier_ok: bool) -> (r:
        Option<Applied>)
        ensures
            opt_applied(r) == self.apply_with(c@, value_ok, modifier_ok),
    {
        if c.negative && !self.supports_negative {
            return None;
        }
        let (text, theme_value, fraction) = match self.effective_value(c, value_ok) {
            Some(e) => e,
            None => {
                return None;
            },
        };
        let modifier = match self.modifier_value(c, fraction, modifier_ok) {
            Some(m) => m,
            None => {
                return None;
            },
        };
        let value = if c.negative {
            proof {
                reveal_strlit("-");
                assert("-"@ =~= seq!['-']);
            }
            join2("-", text.as_str())
        } else {
            text
        };
        let name: &str = match &c.value {
            Some(MaybeArbitrary::Named(s)) => s.as_str(),
            Some(MaybeArbitrary::Arbitrary(s)) => s.as_str(),
            None => "DEFAULT",
        };
        let meta = MetaData::new(name).with_modifier(modifier);
        let nodes = self.handler.handle(&meta, value.as_str(), theme_value);
        let additional = match &self.additional_css {
            Some(css) => match css.handle(name) {
                Some(rules) => rules,
                None => Vec::new(),
            },
            None => Vec::new(),
        };
        proof {
            assert(rules_view(additional@) =~= additional_rules(
                self.additional_css,
                value_name(c@.value),
            ));
        }
        Some(Applied { nodes, additional })
    }

    /// Whether the candidate's arbitrary value passes the validator.
    pub fn check_candidate_value(&self, c: &UtilityCandidate) -> (ok: bool)
        ensures
            ok == self.value_passes(c@),
    {
        match &c.value {
            Some(MaybeArbitrary::Arbitrary(s)) => {
                let d = decode_arbitrary_value(s.as_str());
                check_value(&self.value_repr.validator, d.as_str())
            },
            _ => true,
        }
    }

    /// Whether the candidate's arbitrary modifier passes the validator.
    pub fn check_candidate_modifier(&self, c: &UtilityCandidate) -> (ok: bool)
        ensures
            ok == self.modifier_passes(c@),
    {
        match (&c.modifier, &self.modifier) {
            (Some(MaybeArbitrary::Arbitrary(s)), Some(m)) => {
                let d = decode_arbitrary_value(s.as_str());
                check_value(&m.validator, d.as_str())
            },
            _ => true,
        }
    }

    /// What the utility makes of a candidate.
    pub fn apply(&self, c: &UtilityCandidate) -> (r: Option<Applied>)
        ensures
            opt_applied(r) == self.apply_spec(c@),
    {
        let value_ok = self.check_candidate_value(c);
        let modifier_ok = self.check_candidate_modifier(c);
        self.apply_checked(c, value_ok, modifier_ok)
    }

    /// The nodes that the utility makes of the text after its key: a
    /// bracketed block is an arbitrary value, anything else a name.
    pub fn apply_to(&self, value: &str) -> (r: Option<Vec<AstNode>>)
        ensures
            match r {
                Some(nodes) => self.apply_spec(value_candidate(value@)) is Some
                    && self.apply_spec(value_candidate(value@)).unwrap().nodes == nodes_view(
                    nodes@,
                ),
                None => self.apply_spec(value_candidate(value@)) is None,
            },
    {
        let v = crate::text::chars_of(value);
        let n = v.len();
        let parsed = if n >= 2 && v[0] == '[' && v[n - 1] == ']' {
            MaybeArbitrary::Arbitrary(crate::text::slice_text(&v, 1, n - 1))
        } else {
            MaybeArbitrary::Named(value.to_owned())
        };
        let mut c = UtilityCandidate::with_key("");
        c.value = Some(parsed);
        proof {
            reveal_strlit("");
            assert(""@ =~= Seq::<char>::empty());
            assert(c@ == value_candidate(value@));
        }
        match self.apply(&c) {
            Some(a) => Some(a.nodes),
            None => None,
        }
    }
}

/// A negative candidate makes nothing of a utility that does not support
/// negative values.
pub proof fn lemma_negative_unsupported(
    u: Utility,
    c: UtilityCandidateView,
    value_ok: bool,
    modifier_ok: bool,
)
    requires
        c.negative,
        !u.supports_negative,
    ensures
        u.apply_with(c, value_ok, modifier_ok) is None,
        u.apply_spec(c) is None,
{
}

/// An arbitrary value that the validator of a utility does not accept
/// makes nothing of the utility.
pub proof fn lemma_validator_mismatch(u: Utility, c: UtilityCandidateView, raw: Seq<char>)
    requires
        c.value == Some(MaybeArbitraryView::Arbitrary(raw)),
        !passes(u.value_repr.validator, decoded(raw)),
    ensures
        u.apply_spec(c) is None,
{
}

/// Where a utility supports fractions and the tables hold `value/modifier`
/// for a candidate whose value and modifier are names, the candidate
/// resolves by that combined key, and the modifier is used up.
pub proof fn lemma_fraction_by_combined_key(
    u: Utility,
    c: UtilityCandidateView,
    value: Seq<char>,
    modifier: Seq<char>,
)
    requires
        !(u.handler is Static),
        u.supports_fraction,
        c.value == Some(MaybeArbitraryView::Named(value)),
        c.modifier == Some(MaybeArbitraryView::Named(modifier)),
        themed(u.tables(), value + seq!['/'] + modifier) is Some,
    ensures
        u.effective(c, true) == Some(
            Effective { fraction: true, ..themed(u.tables(), value + seq!['/'] + modifier).unwrap() },
        ),
        u.effective_modifier(c, true, true) == Some(None::<Seq<char>>),
{
}

/// What a utility makes of a candidate depends on the content of the
/// utility only.
pub proof fn lemma_apply_by_content(a: Utility, b: Utility, c: UtilityCandidateView)
    requires
        a@ == b@,
    ensures
        a.apply_spec(c) == b.apply_spec(c),
{
    assert(a.tables() == b.tables());
    assert(a.modifier_tables() == b.modifier_tables());
    assert(a.handler is Static == b.handler is Static);
    assert(additional_rules(a.additional_css, value_name(c.value)) == additional_rules(
        b.additional_css,
        value_name(c.value),
    ));
    assert(a.value_passes(c) == b.value_passes(c));
    assert(a.modifier_passes(c) == b.modifier_passes(c));
    assert(a.effective(c, a.value_passes(c)) == b.effective(c, b.value_passes(c)));
}

} // verus!

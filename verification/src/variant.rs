//! Variants: how a variant rewrites the selector of a rule or nests the
//! rule in an at-rule, and how the variants of a token compose.

use vstd::prelude::*;
use vstd::string::*;
use smallvec::SmallVec;
use crate::css::{clone_nodes, nodes_view, rule_nodes, rules_view, AstNode, NodeView, Rule, RuleView};
use crate::parsing::{opt_view, MaybeArbitrary, MaybeArbitraryView};
use crate::text::{chars_of, join3};
use crate::value::{decode_arbitrary_value, decoded};
use crate::writer::push_char;

verus! {

/// What kind of thing a variant is.
#[derive(Debug, Clone, Copy, PartialEq, Eq, Structural)]
pub enum VariantKind {
    /// Rewrites the selector: `&:hover`.
    Selector,
    /// Nests the rule in an at-rule: `@media (min-width: 768px)`.
    AtRule,
    /// Wraps the pattern of the variant that follows it: `group-*`.
    Composable,
    /// Takes a value: `data-[state=open]`.
    Functional,
}

/// A variant: its kind, and the text of its pattern before and after the
/// place of the value or of the inner pattern. In a selector pattern `&`
/// stands for the selector of the rule.
#[derive(Debug, PartialEq)]
pub struct Variant {
    pub kind: VariantKind,
    pub before: String,
    pub after: String,
}

/// The mathematical content of a [`Variant`].
pub ghost struct VariantView {
    pub kind: VariantKind,
    pub before: Seq<char>,
    pub after: Seq<char>,
}

impl View for Variant {
    type V = VariantView;

    open spec fn view(&self) -> VariantView {
        VariantView { kind: self.kind, before: self.before@, after: self.after@ }
    }
}

impl Clone for Variant {
    fn clone(&self) -> (c: Variant)
        ensures
            c@ == self@,
    {
        Variant { kind: self.kind, before: self.before.clone(), after: self.after.clone() }
    }
}

impl Variant {
    /// A variant whose whole pattern is `pattern`: a selector with `&`,
    /// or an at-rule.
    pub fn new_static(pattern: &str) -> (v: Variant)
        ensures
            v@ == (VariantView {
                kind: if is_at_rule(pattern@) {
                    VariantKind::AtRule
                } else {
                    VariantKind::Selector
                },
                before: pattern@,
                after: Seq::<char>::empty(),
            }),
    {
        let kind = if starts_with_at(pattern) {
            VariantKind::AtRule
        } else {
            VariantKind::Selector
        };
        Variant { kind, before: pattern.to_owned(), after: String::new() }
    }

    /// A variant that takes a value between `before` and `after`.
    pub fn new_functional(before: &str, after: &str) -> (v: Variant)
        ensures
            v@ == (VariantView { kind: VariantKind::Functional, before: before@, after: after@ }),
    {
        Variant { kind: VariantKind::Functional, before: before.to_owned(), after: after.to_owned() }
    }

    /// A variant that wraps the pattern of the variant that follows it.
    pub fn new_composable(before: &str, after: &str) -> (v: Variant)
        ensures
            v@ == (VariantView { kind: VariantKind::Composable, before: before@, after: after@ }),
    {
        Variant { kind: VariantKind::Composable, before: before.to_owned(), after: after.to_owned() }
    }
}

/// The text starts an at-rule.
pub open spec fn is_at_rule(s: Seq<char>) -> bool {
    s.len() > 0 && s[0] == '@'
}

/// Whether the text starts an at-rule.
pub fn starts_with_at(s: &str) -> (r: bool)
    ensures
        r == is_at_rule(s@),
{
    s.unicode_len() > 0 && s.get_char(0) == '@'
}

/// `pattern` with each `&` replaced by `selector`.
pub open spec fn substitute(pattern: Seq<char>, selector: Seq<char>) -> Seq<char>
    decreases pattern.len(),
{
    if pattern.len() == 0 {
        pattern
    } else if pattern.last() == '&' {
        substitute(pattern.drop_last(), selector) + selector
    } else {
        substitute(pattern.drop_last(), selector).push(pattern.last())
    }
}

/// `pattern` without its `&`.
pub open spec fn strip_amp(pattern: Seq<char>) -> Seq<char> {
    substitute(pattern, Seq::<char>::empty())
}

/// Replaces each `&` of `pattern` by `selector`.
pub fn substitute_selector(pattern: &str, selector: &str) -> (s: String)
    ensures
        s@ == substitute(pattern@, selector@),
{
    let v = chars_of(pattern);
    let mut s = String::new();
    let mut i: usize = 0;
    proof {
        assert(v@.take(0) =~= Seq::<char>::empty());
    }
    while i < v.len()
        invariant
            i <= v@.len(),
            v@ == pattern@,
            s@ == substitute(v@.take(i as int), selector@),
        decreases v@.len() - i,
    {
        proof {
            assert(v@.take(i + 1).drop_last() =~= v@.take(i as int));
        }
        if v[i] == '&' {
            s.append(selector);
        } else {
            push_char(&mut s, v[i]);
        }
        i += 1;
    }
    proof {
        assert(v@.take(i as int) =~= v@);
    }
    s
}

/// The rule with a selector pattern applied: the pattern takes the place
/// of the selector of a style rule; inside an at-rule it goes to the
/// rules that are nested there.
pub open spec fn selector_applied(pattern: Seq<char>, r: RuleView) -> RuleView
    decreases r, 1nat,
{
    if is_at_rule(r.selector) {
        RuleView { selector: r.selector, nodes: nodes_applied(pattern, r.nodes) }
    } else {
        RuleView { selector: substitute(pattern, r.selector), nodes: r.nodes }
    }
}

/// The nodes with a selector pattern applied to their rules.
pub open spec fn nodes_applied(pattern: Seq<char>, nodes: Seq<NodeView>) -> Seq<NodeView>
    decreases nodes, 0nat,
{
    Seq::new(
        nodes.len(),
        |i: int|
            if 0 <= i < nodes.len() {
                match nodes[i] {
                    NodeView::Rule(r) => NodeView::Rule(selector_applied(pattern, r)),
                    NodeView::Decl(d) => NodeView::Decl(d),
                }
            } else {
                arbitrary()
            },
    )
}

/// The rules with a pattern applied: an at-rule takes them all into its
/// block; a selector pattern is applied to each.
pub open spec fn pattern_applied(pattern: Seq<char>, rules: Seq<RuleView>) -> Seq<RuleView> {
    if is_at_rule(pattern) {
        seq![RuleView { selector: pattern, nodes: rule_nodes(rules) }]
    } else {
        Seq::new(rules.len(), |i: int| selector_applied(pattern, rules[i]))
    }
}

/// The rules with the patterns of a token's variants applied, the last
/// one first, so that the first variant of the token is the outermost.
pub open spec fn patterns_applied(patterns: Seq<Seq<char>>, rules: Seq<RuleView>) -> Seq<RuleView>
    decreases patterns.len(),
{
    if patterns.len() == 0 {
        rules
    } else {
        pattern_applied(patterns[0], patterns_applied(patterns.drop_first(), rules))
    }
}

/// Applying the variants `first` followed by `second` is applying
/// `second`, and then `first` to what that gives.
pub proof fn lemma_variants_compose(
    first: Seq<Seq<char>>,
    second: Seq<Seq<char>>,
    rules: Seq<RuleView>,
)
    ensures
        patterns_applied(first + second, rules) == patterns_applied(
            first,
            patterns_applied(second, rules),
        ),
    decreases first.len(),
{
    if first.len() == 0 {
        assert(first + second =~= second);
    } else {
        assert((first + second).drop_first() =~= first.drop_first() + second);
        assert((first + second)[0] == first[0]);
        lemma_variants_compose(first.drop_first(), second, rules);
    }
}

/// Applies a selector pattern to a rule.
pub fn apply_selector(pattern: &str, rule: &Rule) -> (r: Rule)
    ensures
        r@ == selector_applied(pattern@, rule@),
    decreases rule,
{
    if starts_with_at(rule.selector.as_str()) {
        let mut nodes: Vec<AstNode> = Vec::new();
        let mut i: usize = 0;
        while i < rule.nodes.len()
            invariant
                i <= rule.nodes@.len(),
                nodes@.len() == i,
                forall|k: int|
                    0 <= k < i ==> (#[trigger] nodes@[k])@ == nodes_applied(
                        pattern@,
                        nodes_view(rule.nodes@),
                    )[k],
            decreases rule.nodes@.len() - i,
        {
            let n = match &rule.nodes[i] {
                AstNode::Rule(inner) => AstNode::Rule(apply_selector(pattern, inner)),
                AstNode::Decl(d) => AstNode::Decl(d.clone()),
            };
            nodes.push(n);
            i += 1;
        }
        assert(nodes_view(nodes@) =~= nodes_applied(pattern@, nodes_view(rule.nodes@)));
        Rule { selector: rule.selector.clone(), nodes }
    } else {
        Rule {
            selector: substitute_selector(pattern, rule.selector.as_str()),
            nodes: clone_nodes(&rule.nodes),
        }
    }
}

/// Applies a pattern to rules.
pub fn apply_pattern(pattern: &str, rules: Vec<Rule>) -> (r: Vec<Rule>)
    ensures
        rules_view(r@) == pattern_applied(pattern@, rules_view(rules@)),
{
    if starts_with_at(pattern) {
        let rule = Rule::new_with_rules(pattern, rules);
        let mut r: Vec<Rule> = Vec::new();
        r.push(rule);
        assert(rules_view(r@) =~= pattern_applied(pattern@, rules_view(rules@)));
        r
    } else {
        let mut r: Vec<Rule> = Vec::new();
        let mut i: usize = 0;
        while i < rules.len()
            invariant
                i <= rules@.len(),
                r@.len() == i,
                forall|k: int| 0 <= k < i ==> (#[trigger] r@[k])@ == selector_applied(pattern@, rules@[k]@),
            decreases rules@.len() - i,
        {
            r.push(apply_selector(pattern, &rules[i]));
            i += 1;
        }
        assert(rules_view(r@) =~= pattern_applied(pattern@, rules_view(rules@)));
        r
    }
}

/// The text of the value of a variant: a name as it is, an arbitrary
/// value decoded, none as the empty text.
pub open spec fn value_text(v: Option<MaybeArbitraryView>) -> Seq<char> {
    match v {
        Some(MaybeArbitraryView::Named(s)) => s,
        Some(MaybeArbitraryView::Arbitrary(s)) => decoded(s),
        None => Seq::<char>::empty(),
    }
}

/// The views of the variants, in order.
pub open spec fn variants_view(v: Seq<Variant>) -> Seq<VariantView> {
    Seq::new(v.len(), |i: int| v[i]@)
}

/// The pattern of a variant by itself: a functional variant puts the
/// value between its two texts, any other is its first text.
pub open spec fn base_pattern(v: VariantView, value: Seq<char>) -> Seq<char> {
    match v.kind {
        VariantKind::Functional => v.before + value + v.after,
        _ => v.before,
    }
}

/// The pattern `inner` wrapped by the layers, the first layer outermost:
/// a layer puts the pattern, without its `&`, between its two texts.
pub open spec fn layered(layers: Seq<VariantView>, inner: Seq<char>) -> Seq<char>
    decreases layers.len(),
{
    if layers.len() == 0 {
        inner
    } else {
        layers[0].before + strip_amp(layered(layers.drop_first(), inner)) + layers[0].after
    }
}

/// The layers of a variant, kept inline while there is at most one.
#[verifier::external_body]
pub struct LayerList {
    items: SmallVec<[Variant; 1]>,
}

/// The layers that a list holds, in order.
pub uninterp spec fn layer_items(list: LayerList) -> Seq<Variant>;

impl View for LayerList {
    type V = Seq<VariantView>;

    open spec fn view(&self) -> Seq<VariantView> {
        variants_view(layer_items(*self))
    }
}

impl LayerList {
    /// The list of the given layers, in their order:
    /// `SmallVec::from_vec`.
    #[verifier::external_body]
    pub(crate) fn collect(layers: Vec<Variant>) -> (list: LayerList)
        ensures
            layer_items(list) == layers@,
    {
        LayerList { items: SmallVec::from_vec(layers) }
    }

    /// The number of layers: `SmallVec::len`.
    #[verifier::external_body]
    pub(crate) fn len(&self) -> (n: usize)
        ensures
            n == layer_items(*self).len(),
    {
        self.items.len()
    }

    /// The layer at `i`: the index operator of `SmallVec`.
    #[verifier::external_body]
    pub(crate) fn get(&self, i: usize) -> (layer: &Variant)
        requires
            i < layer_items(*self).len(),
        ensures
            *layer == layer_items(*self)[i as int],
    {
        &self.items[i]
    }

    /// The empty list.
    pub fn new() -> (list: LayerList)
        ensures
            list@ == Seq::<VariantView>::empty(),
    {
        let list = LayerList::collect(Vec::new());
        assert(list@ =~= Seq::<VariantView>::empty());
        list
    }

    /// The list of the given layers, in their order.
    pub fn from_vec(layers: Vec<Variant>) -> (list: LayerList)
        ensures
            list@ == variants_view(layers@),
    {
        LayerList::collect(layers)
    }

    /// The layers, in order.
    pub fn to_vec(&self) -> (layers: Vec<Variant>)
        ensures
            variants_view(layers@) == self@,
    {
        let mut layers: Vec<Variant> = Vec::new();
        let n = self.len();
        let mut i: usize = 0;
        while i < n
            invariant
                n == layer_items(*self).len(),
                i <= n,
                layers@.len() == i,
                forall|k: int| 0 <= k < i ==> (#[trigger] layers@[k])@ == layer_items(*self)[k]@,
            decreases n - i,
        {
            layers.push(self.get(i).clone());
            i += 1;
        }
        assert(variants_view(layers@) =~= self@);
        layers
    }
}

/// A variant as it stands in a token, with the definition that handles it
/// and the layers that wrap it.
pub struct VariantCandidate {
    pub key: String,
    pub value: Option<MaybeArbitrary>,
    pub modifier: Option<MaybeArbitrary>,
    /// Fully arbitrary: `[@media(min-width:300px)]`, `[&:nth-child(3)]`.
    pub arbitrary: bool,
    pub processor: Variant,
    /// The layers around the processor, the outermost first.
    pub layers: LayerList,
}

/// The mathematical content of a [`VariantCandidate`].
pub ghost struct VariantCandidateView {
    pub key: Seq<char>,
    pub value: Option<MaybeArbitraryView>,
    pub modifier: Option<MaybeArbitraryView>,
    pub arbitrary: bool,
    pub processor: VariantView,
    pub layers: Seq<VariantView>,
}

impl View for VariantCandidate {
    type V = VariantCandidateView;

    open spec fn view(&self) -> VariantCandidateView {
        VariantCandidateView {
            key: self.key@,
            value: opt_view(self.value),
            modifier: opt_view(self.modifier),
            arbitrary: self.arbitrary,
            processor: self.processor@,
            layers: self.layers@,
        }
    }
}

impl VariantCandidateView {
    /// The pattern that the candidate applies to rules: that of the
    /// processor, wrapped by the layers.
    pub open spec fn pattern(self) -> Seq<char> {
        layered(self.layers, base_pattern(self.processor, value_text(self.value)))
    }
}

impl VariantCandidate {
    pub fn new(processor: Variant, key: &str) -> (c: VariantCandidate)
        ensures
            c@ == (VariantCandidateView {
                key: key@,
                value: None,
                modifier: None,
                arbitrary: false,
                processor: processor@,
                layers: Seq::<VariantView>::empty(),
            }),
    {
        let c = VariantCandidate {
            key: key.to_owned(),
            value: None,
            modifier: None,
            arbitrary: false,
            processor,
            layers: LayerList::new(),
        };
        assert(c.layers@ =~= Seq::<VariantView>::empty());
        c
    }

    pub fn with_value(self, value: Option<MaybeArbitrary>) -> (c: VariantCandidate)
        ensures
            c@ == (VariantCandidateView { value: opt_view(value), ..self@ }),
    {
        let mut c = self;
        c.value = value;
        c
    }

    pub fn with_modifier(self, modifier: Option<MaybeArbitrary>) -> (c: VariantCandidate)
        ensures
            c@ == (VariantCandidateView { modifier: opt_view(modifier), ..self@ }),
    {
        let mut c = self;
        c.modifier = modifier;
        c
    }

    pub fn with_layers(self, layers: LayerList) -> (c: VariantCandidate)
        ensures
            c@ == (VariantCandidateView { layers: layers@, ..self@ }),
    {
        let mut c = self;
        c.layers = layers;
        c
    }

    pub fn arbitrary(self) -> (c: VariantCandidate)
        ensures
            c@ == (VariantCandidateView { arbitrary: true, ..self@ }),
    {
        let mut c = self;
        c.arbitrary = true;
        c
    }

    /// The pattern that the candidate applies to rules.
    pub fn pattern(&self) -> (p: String)
        ensures
            p@ == self@.pattern(),
    {
        let mut p = match self.processor.kind {
            VariantKind::Functional => {
                let value = match &self.value {
                    Some(MaybeArbitrary::Named(s)) => s.clone(),
                    Some(MaybeArbitrary::Arbitrary(s)) => decode_arbitrary_value(s.as_str()),
                    None => String::new(),
                };
                join3(self.processor.before.as_str(), value.as_str(), self.processor.after.as_str())
            },
            _ => self.processor.before.clone(),
        };
        let ghost base = p@;
        let ghost all = self.layers@;
        let mut i: usize = self.layers.len();
        proof {
            assert(all.skip(i as int) =~= Seq::<VariantView>::empty());
        }
        while i > 0
            invariant
                i <= self.layers@.len(),
                all == self.layers@,
                p@ == layered(all.skip(i as int), base),
            decreases i,
        {
            i -= 1;
            proof {
                assert(all.skip(i as int).drop_first() =~= all.skip(i + 1));
                assert(all.skip(i as int)[0] == layer_items(self.layers)[i as int]@);
            }
            let inner = substitute_selector(p.as_str(), "");
            proof {
                reveal_strlit("");
                assert(""@ =~= Seq::<char>::empty());
            }
            let layer = self.layers.get(i);
            p = join3(layer.before.as_str(), inner.as_str(), layer.after.as_str());
        }
        proof {
            assert(all.skip(0) =~= all);
        }
        p
    }

    /// Applies the variant to rules: first the processor, then the layers,
    /// which amounts to applying the candidate's pattern.
    pub fn handle(&self, rule: Vec<Rule>) -> (r: Vec<Rule>)
        ensures
            rules_view(r@) == pattern_applied(self@.pattern(), rules_view(rule@)),
    {
        let p = self.pattern();
        apply_pattern(p.as_str(), rule)
    }
}

} // verus!

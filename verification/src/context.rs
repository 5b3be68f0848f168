//! The design system: the theme with the registries of utilities and
//! variants, and the resolution of a token against them.

use vstd::prelude::*;
use vstd::string::*;
use crate::css::{nodes_view, rules_view, AstNode, Decl, DeclView, NodeView, Rule, RuleView};
use crate::ordering::{OrderingKey, UtilityGroup};
use crate::parsing::{
    best_key, entry_keys, is_key_prefix, match_key, parse_arbitrary_utility, parse_tail,
    read_arbitrary_utility, read_tail, segments, split_segments, strip_flags, sub_chars,
    take_flags, texts, MaybeArbitrary, MaybeArbitraryView, UtilityCandidate, UtilityCandidateView,
};
use crate::process::{Applied, AppliedView, Utility};
use crate::text::{chars_of, join2, text_of};
use crate::theme::{table_model, Theme, ThemeTable};
use crate::value::{decode_arbitrary_value, decoded};
use crate::variant::{
    patterns_applied, variants_view, Variant, VariantCandidate, VariantCandidateView, VariantKind,
    VariantView,
};
use crate::variant_parse::{variant_segment, Modifier, ModifierView, VariantKindView};

verus! {

/// The theme with the registries of utilities and variants.
#[derive(Debug, PartialEq)]
pub struct DesignSystem {
    pub theme: Theme,
    /// The utilities in the order of their registration; a key may have
    /// several definitions.
    pub utilities: Vec<(String, Utility)>,
    /// The variants in the order of their registration.
    pub variants: Vec<(String, Variant)>,
}

/// The class name of a token as it stands in a selector: what the CSS
/// serializer makes of it as a name.
pub uninterp spec fn css_name_escaped(name: Seq<char>) -> Seq<char>;

/// Escapes a token for use as a class name, with `serialize_name` of
/// cssparser, which writes into a string and cannot fail there.
#[verifier::external_body]
pub(crate) fn escape_name(name: &str) -> (escaped: String)
    ensures
        escaped@ == css_name_escaped(name@),
{
    let mut escaped = String::new();
    let _ = cssparser::serialize_name(name, &mut escaped);
    escaped
}

/// A token resolved to its rule, with what orders and groups it.
#[derive(Debug, PartialEq)]
pub struct GenerateResult {
    pub raw_token: String,
    pub rule: Rule,
    /// The rules that come with the utility's rule.
    pub additional: Vec<Rule>,
    /// The keys of the token's variants, in the order of the token.
    pub variants: Vec<String>,
    pub group: Option<UtilityGroup>,
    pub ordering_key: Option<OrderingKey>,
}

/// The mathematical content of a [`GenerateResult`].
pub ghost struct GenerateResultView {
    pub raw_token: Seq<char>,
    pub rule: RuleView,
    pub additional: Seq<RuleView>,
    pub variants: Seq<Seq<char>>,
    pub group: Option<UtilityGroup>,
    pub ordering_key: Option<OrderingKey>,
}

impl View for GenerateResult {
    type V = GenerateResultView;

    open spec fn view(&self) -> GenerateResultView {
        GenerateResultView {
            raw_token: self.raw_token@,
            rule: self.rule@,
            additional: rules_view(self.additional@),
            variants: crate::builder::string_texts(self.variants@),
            group: self.group,
            ordering_key: self.ordering_key,
        }
    }
}

/// The content of an optional [`GenerateResult`].
pub open spec fn opt_result(r: Option<GenerateResult>) -> Option<GenerateResultView> {
    match r {
        Some(r) => Some(r@),
        None => None,
    }
}

/// The content of an optional candidate.
pub open spec fn opt_candidate(c: Option<UtilityCandidate>) -> Option<UtilityCandidateView> {
    match c {
        Some(c) => Some(c@),
        None => None,
    }
}

/// The content of an optional variant candidate.
pub open spec fn opt_variant(c: Option<VariantCandidate>) -> Option<VariantCandidateView> {
    match c {
        Some(c) => Some(c@),
        None => None,
    }
}

/// The utility candidate of a segment: its flags are taken off; what is
/// left is a utility written out in full, or the longest key of the
/// registry with what follows it.
pub open spec fn utility_candidate(keys: Seq<Seq<char>>, seg: Seq<char>) -> Option<
    UtilityCandidateView,
> {
    let s = strip_flags(seg);
    match parse_arbitrary_utility(s.body) {
        Some((k, v)) => Some(
            UtilityCandidateView {
                key: k,
                value: Some(MaybeArbitraryView::Arbitrary(v)),
                modifier: None,
                arbitrary: true,
                important: s.important,
                negative: s.negative,
            },
        ),
        None => match best_key(s.body, keys) {
            None => None,
            Some(i) => match parse_tail(s.body.subrange(keys[i].len() as int, s.body.len() as int)) {
                None => None,
                Some(t) => Some(
                    UtilityCandidateView {
                        key: keys[i],
                        value: t.value,
                        modifier: t.modifier,
                        arbitrary: false,
                        important: s.important,
                        negative: s.negative,
                    },
                ),
            },
        },
    }
}

/// The first definition at or after `i` that has the candidate's key and
/// makes something of the candidate, with what it makes.
pub open spec fn applied_from(utilities: Seq<(String, Utility)>, c: UtilityCandidateView, i: int) -> Option<
    (int, AppliedView),
>
    decreases utilities.len() - i,
{
    if i < 0 || i >= utilities.len() {
        None
    } else if utilities[i].0@ == c.key && utilities[i].1.apply_spec(c) is Some {
        Some((i, utilities[i].1.apply_spec(c).unwrap()))
    } else {
        applied_from(utilities, c, i + 1)
    }
}

/// The first variant with the key `key`.
pub open spec fn variant_at(variants: Seq<(String, Variant)>, key: Seq<char>, i: int) -> Option<int>
    decreases variants.len() - i,
{
    if i < 0 || i >= variants.len() {
        None
    } else if variants[i].0@ == key {
        Some(i)
    } else {
        variant_at(variants, key, i + 1)
    }
}

/// The value of a variant that is given in brackets.
pub open spec fn bracket_value(arbitrary: Option<Seq<char>>) -> Option<MaybeArbitraryView> {
    match arbitrary {
        Some(a) => Some(MaybeArbitraryView::Arbitrary(a)),
        None => None,
    }
}

/// The variant that an arbitrary pattern stands for.
pub open spec fn pattern_variant(pattern: Seq<char>) -> VariantView {
    VariantView {
        kind: if crate::variant::is_at_rule(pattern) {
            VariantKind::AtRule
        } else {
            VariantKind::Selector
        },
        before: pattern,
        after: Seq::<char>::empty(),
    }
}

/// The candidate of a named variant. The longest key of the registry that
/// the name starts with decides. A selector or an at-rule stands alone. A
/// functional variant takes the rest of the name, or the bracketed block,
/// as its value. A composable variant becomes a layer around the variant
/// that the rest of the name gives, or around the pattern in the brackets.
pub open spec fn literal_candidate(
    variants: Seq<(String, Variant)>,
    name: Seq<char>,
    arbitrary: Option<Seq<char>>,
) -> Option<VariantCandidateView>
    decreases name.len(),
{
    match best_key(name, entry_keys(variants)) {
        None => None,
        Some(i) => if 0 <= i < variants.len() && is_key_prefix(name, variants[i].0@) {
            let key = variants[i].0@;
            let def = variants[i].1@;
            let rest = name.subrange(min_len(key.len() as int + 1, name.len() as int), name.len() as int);
            let plain = VariantCandidateView {
                key,
                value: None,
                modifier: None,
                arbitrary: false,
                processor: def,
                layers: Seq::<VariantView>::empty(),
            };
            match def.kind {
                VariantKind::Composable => if rest.len() > 0 {
                    match literal_candidate(variants, rest, arbitrary) {
                        Some(inner) => Some(
                            VariantCandidateView { key, layers: seq![def] + inner.layers, ..inner },
                        ),
                        None => None,
                    }
                } else {
                    match arbitrary {
                        Some(a) => Some(
                            VariantCandidateView {
                                processor: pattern_variant(a),
                                layers: seq![def],
                                ..plain
                            },
                        ),
                        None => None,
                    }
                },
                VariantKind::Functional => if rest.len() > 0 && arbitrary is None {
                    Some(
                        VariantCandidateView {
                            value: Some(MaybeArbitraryView::Named(rest)),
                            ..plain
                        },
                    )
                } else if rest.len() == 0 && arbitrary is Some {
                    Some(VariantCandidateView { value: bracket_value(arbitrary), ..plain })
                } else {
                    None
                },
                _ => if rest.len() == 0 && arbitrary is None {
                    Some(plain)
                } else {
                    None
                },
            }
        } else {
            None
        },
    }
}

/// The smaller of two lengths.
pub open spec fn min_len(a: int, b: int) -> int {
    if a <= b {
        a
    } else {
        b
    }
}

/// The modifier of a variant as the modifier of a candidate.
pub open spec fn candidate_modifier(m: Option<ModifierView>) -> Option<MaybeArbitraryView> {
    match m {
        Some(ModifierView::Arbitrary(s)) => Some(MaybeArbitraryView::Arbitrary(s)),
        Some(ModifierView::Literal(s)) => Some(MaybeArbitraryView::Named(s)),
        None => None,
    }
}

/// The candidate of a variant segment: a bracketed segment is its own
/// pattern; a named one is looked up in the registry.
pub open spec fn variant_candidate(variants: Seq<(String, Variant)>, seg: Seq<char>) -> Option<
    VariantCandidateView,
> {
    match variant_segment(seg) {
        Err(_) => None,
        Ok(VariantKindView::Arbitrary { kind, value }) => Some(
            VariantCandidateView {
                key: value,
                value: None,
                modifier: None,
                arbitrary: true,
                processor: pattern_variant(value),
                layers: Seq::<VariantView>::empty(),
            },
        ),
        Ok(VariantKindView::Literal { value, modifier, arbitrary }) => match literal_candidate(
            variants,
            value,
            arbitrary,
        ) {
            Some(c) => Some(VariantCandidateView { modifier: candidate_modifier(modifier), ..c }),
            None => None,
        },
    }
}

/// The candidates of the variant segments, in order; nothing if one of
/// them is no variant.
pub open spec fn variant_candidates(variants: Seq<(String, Variant)>, segs: Seq<Seq<char>>) -> Option<
    Seq<VariantCandidateView>,
>
    decreases segs.len(),
{
    if segs.len() == 0 {
        Some(Seq::<VariantCandidateView>::empty())
    } else {
        match variant_candidates(variants, segs.drop_last()) {
            None => None,
            Some(front) => match variant_candidate(variants, segs.last()) {
                None => None,
                Some(c) => Some(front.push(c)),
            },
        }
    }
}

/// The patterns of the candidates, in order.
pub open spec fn candidate_patterns(c: Seq<VariantCandidateView>) -> Seq<Seq<char>> {
    Seq::new(c.len(), |i: int| c[i].pattern())
}

/// The keys of the candidates, in order.
pub open spec fn candidate_keys(c: Seq<VariantCandidateView>) -> Seq<Seq<char>> {
    Seq::new(c.len(), |i: int| c[i].key)
}

/// The nodes with `!important` after the value of each declaration.
pub open spec fn important_nodes(nodes: Seq<NodeView>) -> Seq<NodeView>
    decreases nodes,
{
    Seq::new(
        nodes.len(),
        |i: int|
            if 0 <= i < nodes.len() {
                match nodes[i] {
                    NodeView::Decl(d) => NodeView::Decl(
                        DeclView { name: d.name, value: d.value + " !important"@ },
                    ),
                    NodeView::Rule(r) => NodeView::Rule(
                        RuleView { selector: r.selector, nodes: important_nodes(r.nodes) },
                    ),
                }
            } else {
                arbitrary()
            },
    )
}

/// Marks the declarations of the nodes as important.
pub fn mark_important(nodes: &Vec<AstNode>) -> (r: Vec<AstNode>)
    ensures
        nodes_view(r@) == important_nodes(nodes_view(nodes@)),
    decreases nodes,
{
    let mut r: Vec<AstNode> = Vec::new();
    let mut i: usize = 0;
    while i < nodes.len()
        invariant
            i <= nodes@.len(),
            r@.len() == i,
            forall|k: int|
                0 <= k < i ==> (#[trigger] r@[k])@ == important_nodes(nodes_view(nodes@))[k],
        decreases nodes@.len() - i,
    {
        let n = match &nodes[i] {
            AstNode::Decl(d) => AstNode::Decl(
                Decl { name: d.name.clone(), value: join2(d.value.as_str(), " !important") },
            ),
            AstNode::Rule(rule) => AstNode::Rule(
                Rule { selector: rule.selector.clone(), nodes: mark_important(&rule.nodes) },
            ),
        };
        r.push(n);
        i += 1;
    }
    assert(nodes_view(r@) =~= important_nodes(nodes_view(nodes@)));
    r
}

/// The selector of a token's rule: the class of the escaped token, put
/// into the wrapper of the utility where it has one.
pub open spec fn class_selector(escaped: Seq<char>, wrapper: Option<Seq<char>>) -> Seq<char> {
    let class = seq!['.'] + escaped;
    match wrapper {
        Some(w) => crate::variant::substitute(w, class),
        None => class,
    }
}

/// The rule of a token from its parts: the nodes stand under the class
/// selector, marked important where the token says so, and the variants
/// are applied around it, the last one first.
pub open spec fn assembled(
    escaped: Seq<char>,
    wrapper: Option<Seq<char>>,
    important: bool,
    nodes: Seq<NodeView>,
    patterns: Seq<Seq<char>>,
) -> Seq<RuleView> {
    let body = if important {
        important_nodes(nodes)
    } else {
        nodes
    };
    patterns_applied(
        patterns,
        seq![RuleView { selector: class_selector(escaped, wrapper), nodes: body }],
    )
}

impl DesignSystem {
    /// A design system with a theme and empty registries.
    pub fn new(theme: Theme) -> (d: DesignSystem)
        ensures
            d.theme == theme,
            d.utilities@.len() == 0,
            d.variants@.len() == 0,
    {
        DesignSystem { theme, utilities: Vec::new(), variants: Vec::new() }
    }

    /// The table of a namespace of the theme.
    pub fn get_theme(&self, namespace: &str) -> (r: Option<&ThemeTable>)
        ensures
            match r {
                Some(t) => self.theme.model().contains_key(namespace@) && table_model(*t)
                    == self.theme.model()[namespace@],
                None => !self.theme.model().contains_key(namespace@),
            },
    {
        self.theme.get(namespace)
    }

    /// Registers a utility under a key, after those that are registered.
    pub fn register_utility(&mut self, key: String, utility: Utility)
        ensures
            final(self).utilities@ == old(self).utilities@.push((key, utility)),
            final(self).theme == old(self).theme,
            final(self).variants == old(self).variants,
    {
        self.utilities.push((key, utility));
    }

    /// Registers a variant under a key, after those that are registered.
    pub fn register_variant(&mut self, key: String, variant: Variant)
        ensures
            final(self).variants@ == old(self).variants@.push((key, variant)),
            final(self).theme == old(self).theme,
            final(self).utilities == old(self).utilities,
    {
        self.variants.push((key, variant));
    }

    /// The keys of the utilities, in the order of registration.
    pub open spec fn utility_keys(&self) -> Seq<Seq<char>> {
        entry_keys(self.utilities@)
    }

    /// Reads the utility of a token from its last segment.
    pub fn parse_utility(&self, seg: &Vec<char>) -> (r: Option<UtilityCandidate>)
        ensures
            opt_candidate(r) == utility_candidate(self.utility_keys(), seg@),
    {
        let (important, negative, body) = take_flags(seg);
        match read_arbitrary_utility(&body) {
            Some((k, v)) => {
                return Some(
                    UtilityCandidate {
                        key: k,
                        value: Some(MaybeArbitrary::Arbitrary(v)),
                        modifier: None,
                        arbitrary: true,
                        important,
                        negative,
                    },
                );
            },
            None => {},
        }
        match match_key(&body, &self.utilities) {
            None => None,
            Some(i) => {
                let key = self.utilities[i].0.clone();
                let n = key.as_str().unicode_len();
                let rest = sub_chars(&body, n, body.len());
                match read_tail(&rest) {
                    None => None,
                    Some(t) => Some(
                        UtilityCandidate {
                            key,
                            value: t.value,
                            modifier: t.modifier,
                            arbitrary: false,
                            important,
                            negative,
                        },
                    ),
                }
            },
        }
    }

    /// Tries the definitions of the candidate's key in the order of their
    /// registration; the first that makes something of the candidate wins.
    pub fn apply_first(&self, c: &UtilityCandidate) -> (r: Option<(usize, Applied)>)
        ensures
            match r {
                Some((i, a)) => applied_from(self.utilities@, c@, 0) == Some((i as int, a@)) && i
                    < self.utilities@.len(),
                None => applied_from(self.utilities@, c@, 0) is None,
            },
    {
        let mut i: usize = 0;
        while i < self.utilities.len()
            invariant
                i <= self.utilities@.len(),
                applied_from(self.utilities@, c@, 0) == applied_from(self.utilities@, c@, i as int),
            decreases self.utilities@.len() - i,
        {
            if self.utilities[i].0 == c.key {
                match self.utilities[i].1.apply(c) {
                    Some(a) => {
                        return Some((i, a));
                    },
                    None => {},
                }
            }
            i += 1;
        }
        None
    }

    /// The candidate of a named variant.
    pub fn literal_variant(&self, name: &Vec<char>, arbitrary: Option<&String>) -> (r: Option<
        VariantCandidate,
    >)
        ensures
            opt_variant(r) == literal_candidate(
                self.variants@,
                name@,
                match arbitrary {
                    Some(a) => Some(a@),
                    None => None,
                },
            ),
        decreases name@.len(),
    {
        let i = match match_key(name, &self.variants) {
            Some(i) => i,
            None => {
                return None;
            },
        };
        let key = &self.variants[i].0;
        let def = &self.variants[i].1;
        let n = key.as_str().unicode_len();
        let from = if n < name.len() {
            n + 1
        } else {
            name.len()
        };
        let rest = sub_chars(name, from, name.len());
        match def.kind {
            VariantKind::Composable => {
                if rest.len() > 0 {
                    match self.literal_variant(&rest, arbitrary) {
                        Some(inner) => {
                            let VariantCandidate {
                                key: _,
                                value,
                                modifier,
                                arbitrary: is_arbitrary,
                                processor,
                                layers: inner_layers,
                            } = inner;
                            let inner_layers = inner_layers.to_vec();
                            let mut layers: Vec<Variant> = Vec::new();
                            layers.push(def.clone());
                            assert(variants_view(layers@) =~= seq![def@] + variants_view(
                                inner_layers@,
                            ).take(0));
                            let mut k: usize = 0;
                            while k < inner_layers.len()
                                invariant
                                    k <= inner_layers@.len(),
                                    variants_view(layers@) == seq![def@] + variants_view(
                                        inner_layers@,
                                    ).take(k as int),
                                decreases inner_layers@.len() - k,
                            {
                                let ghost before = variants_view(layers@);
                                let layer = inner_layers[k].clone();
                                layers.push(layer);
                                assert(variants_view(layers@) =~= before.push(layer@));
                                assert(variants_view(inner_layers@).take(k + 1) =~= variants_view(
                                    inner_layers@,
                                ).take(k as int).push(inner_layers@[k as int]@));
                                assert(variants_view(layers@) =~= seq![def@] + variants_view(
                                    inner_layers@,
                                ).take(k + 1));
                                k += 1;
                            }
                            assert(variants_view(inner_layers@).take(k as int) =~= variants_view(
                                inner_layers@,
                            ));
                            Some(
                                VariantCandidate {
                                    key: key.clone(),
                                    value,
                                    modifier,
                                    arbitrary: is_arbitrary,
                                    processor,
                                    layers: crate::variant::LayerList::from_vec(layers),
                                },
                            )
                        },
                        None => None,
                    }
                } else {
                    match arbitrary {
                        Some(a) => {
                            let mut layers: Vec<Variant> = Vec::new();
                            layers.push(def.clone());
                            assert(variants_view(layers@) =~= seq![def@]);
                            Some(
                                VariantCandidate {
                                    key: key.clone(),
                                    value: None,
                                    modifier: None,
                                    arbitrary: false,
                                    processor: Variant::new_static(a.as_str()),
                                    layers: crate::variant::LayerList::from_vec(layers),
                                },
                            )
                        },
                        None => None,
                    }
                }
            },
            VariantKind::Functional => {
                if rest.len() > 0 && arbitrary.is_none() {
                    let c = VariantCandidate::new(def.clone(), key.as_str());
                    Some(c.with_value(Some(MaybeArbitrary::Named(text_of(&rest)))))
                } else if rest.len() == 0 && arbitrary.is_some() {
                    let c = VariantCandidate::new(def.clone(), key.as_str());
                    match arbitrary {
                        Some(a) => Some(c.with_value(Some(MaybeArbitrary::Arbitrary(a.clone())))),
                        None => None,
                    }
                } else {
                    None
                }
            },
            _ => {
                if rest.len() == 0 && arbitrary.is_none() {
                    Some(VariantCandidate::new(def.clone(), key.as_str()))
                } else {
                    None
                }
            },
        }
    }

    /// The candidate of a variant segment.
    pub fn parse_variant(&self, seg: &Vec<char>) -> (r: Option<VariantCandidate>)
        ensures
            opt_variant(r) == variant_candidate(self.variants@, seg@),
    {
        match crate::variant_parse::VariantKind::parse(seg) {
            Err(_) => None,
            Ok(crate::variant_parse::VariantKind::Arbitrary(a)) => {
                let c = VariantCandidate::new(Variant::new_static(a.value.as_str()), a.value.as_str());
                Some(c.arbitrary())
            },
            Ok(crate::variant_parse::VariantKind::Literal(l)) => {
                let name = chars_of(l.value.as_str());
                let found = match &l.arbitrary {
                    Some(a) => self.literal_variant(&name, Some(a)),
                    None => self.literal_variant(&name, None),
                };
                match found {
                    Some(c) => {
                        let modifier = match l.modifier {
                            Some(Modifier::Arbitrary(s)) => Some(MaybeArbitrary::Arbitrary(s)),
                            Some(Modifier::Literal(s)) => Some(MaybeArbitrary::Named(s)),
                            None => None,
                        };
                        Some(c.with_modifier(modifier))
                    },
                    None => None,
                }
            },
        }
    }

    /// The candidates of the first `n` segments.
    pub fn parse_variants(&self, segs: &Vec<Vec<char>>, n: usize) -> (r: Option<Vec<VariantCandidate>>)
        requires
            n <= segs@.len(),
        ensures
            match r {
                Some(c) => variant_candidates(self.variants@, texts(segs@).take(n as int)) == Some(
                    candidate_views(c@),
                ),
                None => variant_candidates(self.variants@, texts(segs@).take(n as int)) is None,
            },
    {
        let ghost all = texts(segs@);
        let mut out: Vec<VariantCandidate> = Vec::new();
        let mut i: usize = 0;
        proof {
            assert(all.take(0) =~= Seq::<Seq<char>>::empty());
            assert(candidate_views(out@) =~= Seq::<VariantCandidateView>::empty());
        }
        while i < n
            invariant
                i <= n <= segs@.len(),
                all == texts(segs@),
                variant_candidates(self.variants@, all.take(i as int)) == Some(
                    candidate_views(out@),
                ),
            decreases n - i,
        {
            proof {
                assert(all.take(i + 1).drop_last() =~= all.take(i as int));
                assert(all.take(i + 1).last() == segs@[i as int]@);
            }
            let ghost before = candidate_views(out@);
            match self.parse_variant(&segs[i]) {
                Some(c) => {
                    out.push(c);
                    assert(candidate_views(out@) =~= before.push(c@));
                },
                None => {
                    proof {
                        lemma_candidates_fail(self.variants@, all, i as int, n as int);
                    }
                    return None;
                },
            }
            i += 1;
        }
        Some(out)
    }
}

/// The views of the candidates, in order.
pub open spec fn candidate_views(c: Seq<VariantCandidate>) -> Seq<VariantCandidateView> {
    Seq::new(c.len(), |i: int| c[i]@)
}

/// If one segment is no variant, the segments up to any later place have
/// no candidates.
pub proof fn lemma_candidates_fail(
    variants: Seq<(String, Variant)>,
    segs: Seq<Seq<char>>,
    i: int,
    n: int,
)
    requires
        0 <= i < n <= segs.len(),
        variant_candidate(variants, segs[i]) is None,
    ensures
        variant_candidates(variants, segs.take(n)) is None,
    decreases n - i,
{
    let upto = segs.take(n);
    assert(upto.drop_last() =~= segs.take(n - 1));
    assert(upto.last() == segs[n - 1]);
    if i < n - 1 {
        lemma_candidates_fail(variants, segs, i, n - 1);
    }
}

/// Variants turn one rule into one rule.
pub proof fn lemma_one_rule(patterns: Seq<Seq<char>>, rules: Seq<RuleView>)
    requires
        rules.len() == 1,
    ensures
        patterns_applied(patterns, rules).len() == 1,
    decreases patterns.len(),
{
    if patterns.len() > 0 {
        lemma_one_rule(patterns.drop_first(), rules);
    }
}

/// The result for a token from its parts.
pub open spec fn finished(
    token: Seq<char>,
    escaped: Seq<char>,
    wrapper: Option<Seq<char>>,
    important: bool,
    nodes: Seq<NodeView>,
    additional: Seq<RuleView>,
    candidates: Seq<VariantCandidateView>,
    group: Option<UtilityGroup>,
    ordering_key: Option<OrderingKey>,
) -> GenerateResultView {
    GenerateResultView {
        raw_token: token,
        rule: assembled(escaped, wrapper, important, nodes, candidate_patterns(candidates))[0],
        additional,
        variants: candidate_keys(candidates),
        group,
        ordering_key,
    }
}

/// The nodes of a utility that is written out in full: one declaration.
pub open spec fn arbitrary_nodes(c: UtilityCandidateView) -> Seq<NodeView> {
    seq![
        NodeView::Decl(
            DeclView {
                name: c.key,
                value: match c.value {
                    Some(MaybeArbitraryView::Arbitrary(v)) => decoded(v),
                    Some(MaybeArbitraryView::Named(v)) => v,
                    None => Seq::<char>::empty(),
                },
            },
        ),
    ]
}

/// Puts the parts of a resolved token together: the rule under the class
/// selector with the variants around it, and what orders and groups it.
pub fn assemble(
    token: &str,
    escaped: &str,
    wrapper: Option<&str>,
    important: bool,
    nodes: Vec<AstNode>,
    additional: Vec<Rule>,
    candidates: &Vec<VariantCandidate>,
    group: Option<UtilityGroup>,
    ordering_key: Option<OrderingKey>,
) -> (r: GenerateResult)
    ensures
        r@ == finished(
            token@,
            escaped@,
            crate::value::opt_str_text(wrapper),
            important,
            nodes_view(nodes@),
            rules_view(additional@),
            candidate_views(candidates@),
            group,
            ordering_key,
        ),
{
    proof {
        reveal_strlit(".");
        assert("."@ =~= seq!['.']);
    }
    let class = join2(".", escaped);
    let selector = match wrapper {
        Some(w) => crate::variant::substitute_selector(w, class.as_str()),
        None => class,
    };
    let body = if important {
        mark_important(&nodes)
    } else {
        nodes
    };
    let rule = Rule { selector, nodes: body };
    let ghost start = seq![rule@];
    let ghost patterns = candidate_patterns(candidate_views(candidates@));
    let mut rules: Vec<Rule> = Vec::new();
    rules.push(rule);
    let mut keys: Vec<String> = Vec::new();
    let mut i: usize = candidates.len();
    proof {
        assert(rules_view(rules@) =~= start);
        assert(patterns.skip(i as int) =~= Seq::<Seq<char>>::empty());
    }
    while i > 0
        invariant
            i <= candidates@.len(),
            patterns == candidate_patterns(candidate_views(candidates@)),
            rules_view(rules@) == patterns_applied(patterns.skip(i as int), start),
        decreases i,
    {
        i -= 1;
        proof {
            assert(patterns.skip(i as int).drop_first() =~= patterns.skip(i + 1));
            assert(patterns.skip(i as int)[0] == candidates@[i as int]@.pattern());
        }
        rules = candidates[i].handle(rules);
    }
    let mut k: usize = 0;
    while k < candidates.len()
        invariant
            k <= candidates@.len(),
            keys@.len() == k,
            forall|j: int| 0 <= j < k ==> (#[trigger] keys@[j])@ == candidates@[j].key@,
        decreases candidates@.len() - k,
    {
        keys.push(candidates[k].key.clone());
        k += 1;
    }
    proof {
        assert(patterns.skip(0) =~= patterns);
        lemma_one_rule(patterns, start);
        assert(crate::builder::string_texts(keys@) =~= candidate_keys(candidate_views(candidates@)));
    }
    let rule = rules.pop().unwrap();
    GenerateResult { raw_token: token.to_owned(), rule, additional, variants: keys, group, ordering_key }
}

impl DesignSystem {
    /// What a token resolves to. Its segments before the last are its
    /// variants, its last segment is its utility. A utility written out in
    /// full gives one declaration; any other goes to the first definition
    /// of its key that makes something of it. The rule stands under the
    /// class of the escaped token, inside the variants.
    pub open spec fn resolve_spec(&self, token: Seq<char>) -> Option<GenerateResultView> {
        let segs = segments(token);
        match variant_candidates(self.variants@, segs.drop_last()) {
            None => None,
            Some(candidates) => match utility_candidate(self.utility_keys(), segs.last()) {
                None => None,
                Some(c) => if c.arbitrary {
                    Some(
                        finished(
                            token,
                            css_name_escaped(token),
                            None,
                            c.important,
                            arbitrary_nodes(c),
                            Seq::<RuleView>::empty(),
                            candidates,
                            None,
                            None,
                        ),
                    )
                } else {
                    match applied_from(self.utilities@, c, 0) {
                        None => None,
                        Some((i, a)) => Some(
                            finished(
                                token,
                                css_name_escaped(token),
                                crate::theme::opt_text(self.utilities@[i].1.wrapper),
                                c.important,
                                a.nodes,
                                a.additional,
                                candidates,
                                self.utilities@[i].1.group,
                                self.utilities@[i].1.ordering_key,
                            ),
                        ),
                    }
                },
            },
        }
    }

    /// Resolves a token. A token that the grammar, the registries or a
    /// validator reject resolves to nothing.
    pub fn resolve(&self, token: &str) -> (r: Option<GenerateResult>)
        ensures
            opt_result(r) == self.resolve_spec(token@),
    {
        let chars = chars_of(token);
        let segs = split_segments(&chars);
        let last = segs.len() - 1;
        proof {
            assert(texts(segs@).take(last as int) =~= segments(token@).drop_last());
            assert(texts(segs@)[last as int] == segments(token@).last());
        }
        let candidates = match self.parse_variants(&segs, last) {
            Some(c) => c,
            None => {
                return None;
            },
        };
        let c = match self.parse_utility(&segs[last]) {
            Some(c) => c,
            None => {
                return None;
            },
        };
        let escaped = escape_name(token);
        if c.arbitrary {
            let value = match &c.value {
                Some(MaybeArbitrary::Arbitrary(v)) => decode_arbitrary_value(v.as_str()),
                Some(MaybeArbitrary::Named(v)) => v.clone(),
                None => String::new(),
            };
            let mut nodes: Vec<AstNode> = Vec::new();
            nodes.push(AstNode::decl(c.key.as_str(), value.as_str()));
            assert(nodes_view(nodes@) =~= arbitrary_nodes(c@));
            let additional: Vec<Rule> = Vec::new();
            assert(rules_view(additional@) =~= Seq::<RuleView>::empty());
            return Some(
                assemble(
                    token,
                    escaped.as_str(),
                    None,
                    c.important,
                    nodes,
                    additional,
                    &candidates,
                    None,
                    None,
                ),
            );
        }
        match self.apply_first(&c) {
            None => None,
            Some((i, a)) => {
                let u = &self.utilities[i].1;
                let Applied { nodes, additional } = a;
                Some(
                    assemble(
                        token,
                        escaped.as_str(),
                        crate::process::opt_as_str(&u.wrapper),
                        c.important,
                        nodes,
                        additional,
                        &candidates,
                        u.group,
                        u.ordering_key,
                    ),
                )
            },
        }
    }
}

/// Resolving is a function of the design system and the token: two
/// results for one token are the same.
pub proof fn lemma_resolve_is_function(
    design: DesignSystem,
    token: Seq<char>,
    first: Option<GenerateResult>,
    second: Option<GenerateResult>,
)
    requires
        opt_result(first) == design.resolve_spec(token),
        opt_result(second) == design.resolve_spec(token),
    ensures
        opt_result(first) == opt_result(second),
{
}

impl Clone for GenerateResult {
    fn clone(&self) -> (c: GenerateResult)
        ensures
            c@ == self@,
    {
        let mut variants: Vec<String> = Vec::new();
        let mut i: usize = 0;
        while i < self.variants.len()
            invariant
                i <= self.variants@.len(),
                variants@.len() == i,
                forall|k: int| 0 <= k < i ==> (#[trigger] variants@[k])@ == self.variants@[k]@,
            decreases self.variants@.len() - i,
        {
            variants.push(self.variants[i].clone());
            i += 1;
        }
        assert(crate::builder::string_texts(variants@) =~= crate::builder::string_texts(
            self.variants@,
        ));
        GenerateResult {
            raw_token: self.raw_token.clone(),
            rule: self.rule.clone(),
            additional: crate::css::clone_rules(&self.additional),
            variants,
            group: self.group,
            ordering_key: self.ordering_key,
        }
    }
}

/// The highest bit of a weight, which stands for every variant without a
/// lower bit of its own.
pub const TOP_BIT: u32 = 127;

/// The bit of a variant in the weight of a rule: the place of its key in
/// the registry; a variant that is not registered, or registered far down,
/// has the highest bit.
pub open spec fn variant_bit(variants: Seq<(String, Variant)>, key: Seq<char>) -> nat {
    match variant_at(variants, key, 0) {
        Some(i) => if 0 <= i < TOP_BIT {
            i as nat
        } else {
            TOP_BIT as nat
        },
        None => TOP_BIT as nat,
    }
}

/// The weight of a rule: the bits of its variants.
pub open spec fn variant_weight(variants: Seq<(String, Variant)>, keys: Seq<Seq<char>>) -> u128
    decreases keys.len(),
{
    if keys.len() == 0 {
        0u128
    } else {
        variant_weight(variants, keys.drop_last()) | (1u128 << (variant_bit(
            variants,
            keys.last(),
        ) as u128))
    }
}

impl DesignSystem {
    /// The bit of a variant in the weight of a rule.
    pub fn bit_of(&self, key: &str) -> (bit: u32)
        ensures
            bit == variant_bit(self.variants@, key@),
            bit <= TOP_BIT,
    {
        let wanted = key.to_owned();
        let mut i: usize = 0;
        while i < self.variants.len()
            invariant
                i <= self.variants@.len(),
                wanted@ == key@,
                variant_at(self.variants@, key@, 0) == variant_at(self.variants@, key@, i as int),
            decreases self.variants@.len() - i,
        {
            if self.variants[i].0 == wanted {
                if i < 127 {
                    return i as u32;
                } else {
                    return TOP_BIT;
                }
            }
            i += 1;
        }
        TOP_BIT
    }

    /// The weight of a rule with the given variants.
    pub fn weight_of(&self, keys: &Vec<String>) -> (w: u128)
        ensures
            w == variant_weight(self.variants@, crate::builder::string_texts(keys@)),
    {
        let ghost all = crate::builder::string_texts(keys@);
        let mut w: u128 = 0;
        let mut i: usize = 0;
        proof {
            assert(all.take(0) =~= Seq::<Seq<char>>::empty());
        }
        while i < keys.len()
            invariant
                i <= keys@.len(),
                all == crate::builder::string_texts(keys@),
                w == variant_weight(self.variants@, all.take(i as int)),
            decreases keys@.len() - i,
        {
            proof {
                assert(all.take(i + 1).drop_last() =~= all.take(i as int));
                assert(all.take(i + 1).last() == keys@[i as int]@);
            }
            let bit = self.bit_of(keys[i].as_str());
            w = w | (1u128 << bit);
            i += 1;
        }
        proof {
            assert(all.take(i as int) =~= all);
        }
        w
    }
}

/// Why a token does not resolve.
#[derive(Debug, Clone, Copy, PartialEq, Eq, Structural)]
pub enum RejectReason {
    /// A segment before the utility is no variant: its brackets do not
    /// close, or no variant has its name.
    UnknownVariant,
    /// No utility has the key, or what follows the key is malformed.
    UnknownUtility,
    /// The token is negative, and no definition of its key takes negative
    /// values.
    NegativeUnsupported,
    /// No definition of the key accepts the value: the theme does not have
    /// it, or a validator refuses it.
    ValueRejected,
}

/// A definition at or after `i` has the key and supports negative values.
pub open spec fn negative_from(utilities: Seq<(String, Utility)>, key: Seq<char>, i: int) -> bool
    decreases utilities.len() - i,
{
    if i < 0 || i >= utilities.len() {
        false
    } else if utilities[i].0@ == key && utilities[i].1.supports_negative {
        true
    } else {
        negative_from(utilities, key, i + 1)
    }
}

impl DesignSystem {
    /// Why a token does not resolve; nothing for a token that resolves.
    pub open spec fn reject_spec(&self, token: Seq<char>) -> Option<RejectReason> {
        let segs = segments(token);
        if variant_candidates(self.variants@, segs.drop_last()) is None {
            Some(RejectReason::UnknownVariant)
        } else {
            match utility_candidate(self.utility_keys(), segs.last()) {
                None => Some(RejectReason::UnknownUtility),
                Some(c) => if c.arbitrary || applied_from(self.utilities@, c, 0) is Some {
                    None
                } else if c.negative && !negative_from(self.utilities@, c.key, 0) {
                    Some(RejectReason::NegativeUnsupported)
                } else {
                    Some(RejectReason::ValueRejected)
                },
            }
        }
    }

    /// Whether a definition of the key supports negative values.
    pub fn takes_negative(&self, key: &str) -> (r: bool)
        ensures
            r == negative_from(self.utilities@, key@, 0),
    {
        let wanted = key.to_owned();
        let mut i: usize = 0;
        while i < self.utilities.len()
            invariant
                i <= self.utilities@.len(),
                wanted@ == key@,
                negative_from(self.utilities@, key@, 0) == negative_from(
                    self.utilities@,
                    key@,
                    i as int,
                ),
            decreases self.utilities@.len() - i,
        {
            if self.utilities[i].0 == wanted && self.utilities[i].1.supports_negative {
                return true;
            }
            i += 1;
        }
        false
    }

    /// Says why a token does not resolve.
    pub fn explain(&self, token: &str) -> (r: Option<RejectReason>)
        ensures
            r == self.reject_spec(token@),
            r is None <==> self.resolve_spec(token@) is Some,
    {
        let chars = chars_of(token);
        let segs = split_segments(&chars);
        let last = segs.len() - 1;
        proof {
            assert(texts(segs@).take(last as int) =~= segments(token@).drop_last());
            assert(texts(segs@)[last as int] == segments(token@).last());
        }
        if self.parse_variants(&segs, last).is_none() {
            return Some(RejectReason::UnknownVariant);
        }
        let c = match self.parse_utility(&segs[last]) {
            Some(c) => c,
            None => {
                return Some(RejectReason::UnknownUtility);
            },
        };
        if c.arbitrary || self.apply_first(&c).is_some() {
            None
        } else if c.negative && !self.takes_negative(c.key.as_str()) {
            Some(RejectReason::NegativeUnsupported)
        } else {
            Some(RejectReason::ValueRejected)
        }
    }
}

/// A token has a reason to be rejected exactly if it does not resolve.
pub proof fn lemma_rejected_or_resolved(design: DesignSystem, token: Seq<char>)
    ensures
        design.reject_spec(token) is None <==> design.resolve_spec(token) is Some,
{
}

impl DesignSystem {
    /// Builds the utility of a builder against the theme and registers it,
    /// after those that are registered. A builder without a handler
    /// registers nothing.
    pub fn add(&mut self, builder: crate::builder::UtilityBuilder) -> (r: Result<
        (),
        crate::builder::ThemeParseError,
    >)
        ensures
            final(self).theme == old(self).theme,
            final(self).variants == old(self).variants,
            match r {
                Ok(_) => builder@.handler is Some && crate::preset::helpers::registry_view(
                    final(self).utilities@,
                ) == crate::preset::helpers::registry_view(old(self).utilities@).push(
                    (builder@.key, builder@.built(old(self).theme.model())),
                ),
                Err(e) => builder@.handler is None && final(self).utilities == old(self).utilities
                    && e == crate::builder::ThemeParseError::MissingHandler(builder.key),
            },
    {
        let ghost before = crate::preset::helpers::registry_view(self.utilities@);
        match builder.parse(&self.theme) {
            Ok((key, utility)) => {
                self.register_utility(key, utility);
                assert(crate::preset::helpers::registry_view(self.utilities@) =~= before.push(
                    (key@, utility@),
                ));
                Ok(())
            },
            Err(e) => Err(e),
        }
    }
}

/// Two registries of utilities have the same content.
pub open spec fn same_utilities(a: Seq<(String, Utility)>, b: Seq<(String, Utility)>) -> bool {
    &&& a.len() == b.len()
    &&& forall|i: int| 0 <= i < a.len() ==> (#[trigger] a[i]).0@ == b[i].0@ && a[i].1@ == b[i].1@
}

/// Two registries of variants have the same content.
pub open spec fn same_variants(a: Seq<(String, Variant)>, b: Seq<(String, Variant)>) -> bool {
    &&& a.len() == b.len()
    &&& forall|i: int| 0 <= i < a.len() ==> (#[trigger] a[i]).0@ == b[i].0@ && a[i].1@ == b[i].1@
}

/// Registries of the same content apply the same definition to a
/// candidate.
pub proof fn lemma_applied_by_content(
    a: Seq<(String, Utility)>,
    b: Seq<(String, Utility)>,
    c: UtilityCandidateView,
    i: int,
)
    requires
        same_utilities(a, b),
    ensures
        applied_from(a, c, i) == applied_from(b, c, i),
    decreases a.len() - i,
{
    if 0 <= i < a.len() {
        assert(a[i].0@ == b[i].0@ && a[i].1@ == b[i].1@);
        crate::process::lemma_apply_by_content(a[i].1, b[i].1, c);
        lemma_applied_by_content(a, b, c, i + 1);
    }
}

/// Registries of the same content give a named variant the same
/// candidate.
pub proof fn lemma_literal_by_content(
    a: Seq<(String, Variant)>,
    b: Seq<(String, Variant)>,
    name: Seq<char>,
    arbitrary: Option<Seq<char>>,
)
    requires
        same_variants(a, b),
    ensures
        literal_candidate(a, name, arbitrary) == literal_candidate(b, name, arbitrary),
    decreases name.len(),
{
    assert(entry_keys(a) =~= entry_keys(b)) by {
        assert forall|i: int| 0 <= i < a.len() implies entry_keys(a)[i] == entry_keys(b)[i] by {
            assert(a[i].0@ == b[i].0@);
        }
    }
    match best_key(name, entry_keys(a)) {
        None => {},
        Some(i) => {
            if 0 <= i < a.len() && is_key_prefix(name, a[i].0@) {
                assert(a[i].0@ == b[i].0@ && a[i].1@ == b[i].1@);
                let key = a[i].0@;
                let rest = name.subrange(
                    min_len(key.len() as int + 1, name.len() as int),
                    name.len() as int,
                );
                if a[i].1@.kind == VariantKind::Composable && rest.len() > 0 {
                    lemma_literal_by_content(a, b, rest, arbitrary);
                }
            } else {
                if 0 <= i < a.len() {
                    assert(a[i].0@ == b[i].0@);
                }
            }
        },
    }
}

/// Registries of the same content give segments the same candidates.
pub proof fn lemma_variants_by_content(
    a: Seq<(String, Variant)>,
    b: Seq<(String, Variant)>,
    segs: Seq<Seq<char>>,
)
    requires
        same_variants(a, b),
    ensures
        variant_candidates(a, segs) == variant_candidates(b, segs),
    decreases segs.len(),
{
    if segs.len() > 0 {
        lemma_variants_by_content(a, b, segs.drop_last());
        match variant_segment(segs.last()) {
            Ok(VariantKindView::Literal { value, modifier, arbitrary }) => {
                lemma_literal_by_content(a, b, value, arbitrary);
            },
            _ => {},
        }
    }
}

/// What a token resolves to depends on the token and on the content of the
/// registries only: design systems whose registries have the same content
/// resolve every token alike.
pub proof fn lemma_resolve_by_content(a: DesignSystem, b: DesignSystem, token: Seq<char>)
    requires
        same_utilities(a.utilities@, b.utilities@),
        same_variants(a.variants@, b.variants@),
    ensures
        a.resolve_spec(token) == b.resolve_spec(token),
{
    let segs = segments(token);
    lemma_variants_by_content(a.variants@, b.variants@, segs.drop_last());
    assert(a.utility_keys() =~= b.utility_keys()) by {
        assert forall|i: int| 0 <= i < a.utilities@.len() implies a.utility_keys()[i]
            == b.utility_keys()[i] by {
            assert(a.utilities@[i].0@ == b.utilities@[i].0@);
        }
    }
    match utility_candidate(a.utility_keys(), segs.last()) {
        Some(c) => {
            lemma_applied_by_content(a.utilities@, b.utilities@, c, 0);
            lemma_applied_index(a.utilities@, c, 0);
            match applied_from(a.utilities@, c, 0) {
                Some((i, _)) => {
                    assert(a.utilities@[i].1@ == b.utilities@[i].1@);
                },
                None => {},
            }
        },
        None => {},
    }
}

/// The definition that is applied stands in the registry.
pub proof fn lemma_applied_index(utilities: Seq<(String, Utility)>, c: UtilityCandidateView, i: int)
    requires
        0 <= i,
    ensures
        match applied_from(utilities, c, i) {
            Some((k, _)) => i <= k < utilities.len(),
            None => true,
        },
    decreases utilities.len() - i,
{
    if i < utilities.len() {
        lemma_applied_index(utilities, c, i + 1);
    }
}

} // verus!

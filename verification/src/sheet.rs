//! What holds of every style sheet: the order of its rules is total, and
//! each group brings one shared rule besides the rules of its tokens.

use vstd::prelude::*;
use vstd::string::*;
use crate::css::RuleView;
use crate::generator::{
    chunks, entry_key, group_rule, group_text, groups_text, is_listing, listing_keys, members,
    ResultsModel,
};
use crate::ordering::UtilityGroup;
use crate::sorting::{key_less, lemma_key_irreflexive, lemma_key_total, lemma_key_transitive};
use crate::variant::Variant;
use crate::writer::{rule_text, rules_text};

verus! {

/// The order of the style sheet is a strict total order of the resolved
/// tokens: of two different tokens exactly one comes before the other.
pub proof fn lemma_order_total(
    variants: Seq<(String, Variant)>,
    m: ResultsModel,
    a: Seq<char>,
    b: Seq<char>,
)
    requires
        a != b,
    ensures
        key_less(entry_key(variants, a, m[a]), entry_key(variants, b, m[b])) != key_less(
            entry_key(variants, b, m[b]),
            entry_key(variants, a, m[a]),
        ),
{
    let ka = entry_key(variants, a, m[a]);
    let kb = entry_key(variants, b, m[b]);
    lemma_key_total(ka, kb);
    if key_less(ka, kb) && key_less(kb, ka) {
        lemma_key_transitive(ka, kb, ka);
        lemma_key_irreflexive(ka);
    }
}

/// In a style sheet the tokens stand in the order of their keys, and no
/// two of them have the same bucket, weight and token.
pub proof fn lemma_listing_strict(
    variants: Seq<(String, Variant)>,
    m: ResultsModel,
    names: Seq<Seq<char>>,
    i: int,
    j: int,
)
    requires
        is_listing(variants, m, names),
        0 <= i < j < names.len(),
    ensures
        key_less(listing_keys(variants, m, names)[i], listing_keys(variants, m, names)[j]),
        !key_less(listing_keys(variants, m, names)[j], listing_keys(variants, m, names)[i]),
        listing_keys(variants, m, names)[i] != listing_keys(variants, m, names)[j],
        names[i] != names[j],
{
    let keys = listing_keys(variants, m, names);
    assert(key_less(keys[i], keys[j]));
    lemma_key_irreflexive(keys[i]);
    if key_less(keys[j], keys[i]) {
        lemma_key_transitive(keys[i], keys[j], keys[i]);
    }
    if names[i] == names[j] {
        assert(keys[i] == keys[j]);
    }
}

/// The rules of the tokens, in order: for each token its rule, then the
/// rules that come with it.
pub open spec fn token_rules(m: ResultsModel, names: Seq<Seq<char>>) -> Seq<RuleView>
    decreases names.len(),
{
    if names.len() == 0 {
        Seq::empty()
    } else {
        token_rules(m, names.drop_last()) + seq![m[names.last()].rule] + m[names.last()].additional
    }
}

/// The shared rule of a group: one rule if the group has tokens, none
/// otherwise.
pub open spec fn shared_rules(m: ResultsModel, names: Seq<Seq<char>>, group: UtilityGroup) -> Seq<
    RuleView,
> {
    let tokens = members(m, names, group);
    if tokens.len() == 0 {
        Seq::empty()
    } else {
        seq![group_rule(tokens, group)]
    }
}

/// All rules of a style sheet at its top level, in order.
pub open spec fn sheet_rules(m: ResultsModel, names: Seq<Seq<char>>) -> Seq<RuleView> {
    token_rules(m, names) + shared_rules(m, names, UtilityGroup::Transform) + shared_rules(
        m,
        names,
        UtilityGroup::Filter,
    ) + shared_rules(m, names, UtilityGroup::BackdropFilter)
}

/// The text of rules one after the other is the text of the first rules
/// followed by the text of the others.
pub proof fn lemma_rules_text_concat(a: Seq<RuleView>, b: Seq<RuleView>)
    ensures
        rules_text(a + b, Seq::<char>::empty(), false) == rules_text(a, Seq::<char>::empty(), false)
            + rules_text(b, Seq::<char>::empty(), false),
    decreases b.len(),
{
    let e = Seq::<char>::empty();
    if b.len() == 0 {
        assert(a + b =~= a);
        assert(rules_text(a, e, false) + rules_text(b, e, false) =~= rules_text(a, e, false));
    } else {
        assert((a + b).drop_last() =~= a + b.drop_last());
        assert((a + b).last() == b.last());
        lemma_rules_text_concat(a, b.drop_last());
        assert(rules_text(a + b, e, false) =~= rules_text(a, e, false) + rules_text(b, e, false));
    }
}

/// The text of one rule as the text of a list of one rule.
pub proof fn lemma_rules_text_one(r: RuleView)
    ensures
        rules_text(seq![r], Seq::<char>::empty(), false) == rule_text(r, Seq::<char>::empty(), false),
{
    let e = Seq::<char>::empty();
    reveal_with_fuel(rules_text, 2);
    assert(seq![r].drop_last() =~= Seq::<RuleView>::empty());
    assert(seq![r].last() == r);
    assert(rules_text(seq![r].drop_last(), e, false) =~= e);
    assert(rules_text(seq![r], e, false) =~= rule_text(r, e, false));
}

/// The text of the tokens is the text of their rules.
pub proof fn lemma_chunks_are_rules(m: ResultsModel, names: Seq<Seq<char>>)
    ensures
        chunks(m, names) == rules_text(token_rules(m, names), Seq::<char>::empty(), false),
    decreases names.len(),
{
    let e = Seq::<char>::empty();
    if names.len() > 0 {
        let r = m[names.last()];
        lemma_chunks_are_rules(m, names.drop_last());
        let front = token_rules(m, names.drop_last());
        lemma_rules_text_concat(front + seq![r.rule], r.additional);
        lemma_rules_text_concat(front, seq![r.rule]);
        lemma_rules_text_one(r.rule);
        assert(chunks(m, names) =~= rules_text(token_rules(m, names), e, false));
    }
}

/// The text of a group is the text of its shared rule.
pub proof fn lemma_group_is_rule(m: ResultsModel, names: Seq<Seq<char>>, group: UtilityGroup)
    ensures
        group_text(m, names, group) == rules_text(
            shared_rules(m, names, group),
            Seq::<char>::empty(),
            false,
        ),
{
    if members(m, names, group).len() > 0 {
        lemma_rules_text_one(group_rule(members(m, names, group), group));
    }
}

/// The text of a style sheet is the text of its rules: the rules of its
/// tokens, then one shared rule for each group that has tokens.
pub proof fn lemma_sheet_is_rules(m: ResultsModel, names: Seq<Seq<char>>)
    ensures
        chunks(m, names) + groups_text(m, names) == rules_text(
            sheet_rules(m, names),
            Seq::<char>::empty(),
            false,
        ),
{
    let a = token_rules(m, names);
    let t = shared_rules(m, names, UtilityGroup::Transform);
    let f = shared_rules(m, names, UtilityGroup::Filter);
    let b = shared_rules(m, names, UtilityGroup::BackdropFilter);
    lemma_chunks_are_rules(m, names);
    lemma_group_is_rule(m, names, UtilityGroup::Transform);
    lemma_group_is_rule(m, names, UtilityGroup::Filter);
    lemma_group_is_rule(m, names, UtilityGroup::BackdropFilter);
    lemma_rules_text_concat(a, t);
    lemma_rules_text_concat(a + t, f);
    lemma_rules_text_concat(a + t + f, b);
    assert(chunks(m, names) + groups_text(m, names) =~= rules_text(
        sheet_rules(m, names),
        Seq::<char>::empty(),
        false,
    ));
}

/// The rules that a style sheet holds for a group: the rule of each token
/// of the group, and the shared rule.
pub open spec fn rules_of_group(m: ResultsModel, names: Seq<Seq<char>>, group: UtilityGroup) -> Seq<
    RuleView,
> {
    let tokens = members(m, names, group);
    Seq::new(tokens.len(), |i: int| m[tokens[i]].rule) + shared_rules(m, names, group)
}

/// The tokens of a group among the first `names` are those among all of
/// them, up to some place.
proof fn lemma_members_without(
    m: ResultsModel,
    names: Seq<Seq<char>>,
    group: UtilityGroup,
    i: int,
)
    requires
        0 <= i < names.len(),
        forall|a: int, b: int| 0 <= a < b < names.len() ==> names[a] != names[b],
    ensures
        members(m.remove(names[i]), names.remove(i), group).len() == members(m, names, group).len()
            - (if m[names[i]].group == Some(group) {
            1int
        } else {
            0int
        }),
    decreases names.len(),
{
    let rest = names.remove(i);
    let less = m.remove(names[i]);
    if i == names.len() - 1 {
        assert(rest =~= names.drop_last());
        lemma_members_same(m, less, rest, group);
    } else {
        let front = names.drop_last();
        assert forall|a: int, b: int| 0 <= a < b < front.len() implies front[a] != front[b] by {
            assert(names[a] != names[b]);
        }
        lemma_members_without(m, front, group, i);
        assert(rest.drop_last() =~= front.remove(i));
        assert(rest.last() == names.last());
        assert(names[i] != names[names.len() - 1]);
        assert(less[names.last()] == m[names.last()]);
    }
}

/// Tokens that two maps agree on have the same members of a group.
proof fn lemma_members_same(
    m: ResultsModel,
    other: ResultsModel,
    names: Seq<Seq<char>>,
    group: UtilityGroup,
)
    requires
        forall|i: int| 0 <= i < names.len() ==> other[#[trigger] names[i]] == m[names[i]],
    ensures
        members(other, names, group) == members(m, names, group),
    decreases names.len(),
{
    if names.len() > 0 {
        let front = names.drop_last();
        assert forall|i: int| 0 <= i < front.len() implies other[#[trigger] front[i]] == m[front[i]] by {
            assert(front[i] == names[i]);
        }
        lemma_members_same(m, other, front, group);
        assert(names.last() == names[names.len() - 1]);
    }
}

/// Without one of its tokens, a style sheet lists the other tokens in the
/// same order.
pub proof fn lemma_listing_without(
    variants: Seq<(String, Variant)>,
    m: ResultsModel,
    names: Seq<Seq<char>>,
    i: int,
)
    requires
        is_listing(variants, m, names),
        0 <= i < names.len(),
    ensures
        is_listing(variants, m.remove(names[i]), names.remove(i)),
{
    let rest = names.remove(i);
    let less = m.remove(names[i]);
    let keys = listing_keys(variants, m, names);
    assert forall|a: int, b: int| 0 <= a < b < names.len() implies names[a] != names[b] by {
        lemma_listing_strict(variants, m, names, a, b);
    }
    assert forall|k: int| 0 <= k < rest.len() implies less.contains_key(#[trigger] rest[k]) by {
        let k0 = if k < i { k } else { k + 1 };
        assert(rest[k] == names[k0]);
        assert(m.contains_key(names[k0]));
        if k0 < i {
            assert(names[k0] != names[i]);
        } else {
            assert(names[i] != names[k0]);
        }
    }
    assert forall|t: Seq<char>| #[trigger] less.contains_key(t) implies rest.contains(t) by {
        assert(m.contains_key(t));
        assert(names.contains(t));
        let k0 = choose|k0: int| 0 <= k0 < names.len() && names[k0] == t;
        let k = if k0 < i { k0 } else { k0 - 1 };
        assert(rest[k] == t);
    }
    let rest_keys = listing_keys(variants, less, rest);
    assert forall|a: int, b: int| 0 <= a < b < rest_keys.len() implies key_less(
        #[trigger] rest_keys[a],
        #[trigger] rest_keys[b],
    ) by {
        let a0 = if a < i { a } else { a + 1 };
        let b0 = if b < i { b } else { b + 1 };
        assert(rest[a] == names[a0]);
        assert(rest[b] == names[b0]);
        if a0 < i {
            assert(names[a0] != names[i]);
        } else {
            assert(names[i] != names[a0]);
        }
        if b0 < i {
            assert(names[b0] != names[i]);
        } else {
            assert(names[i] != names[b0]);
        }
        assert(rest_keys[a] == keys[a0]);
        assert(rest_keys[b] == keys[b0]);
        assert(key_less(keys[a0], keys[b0]));
    }
}

/// Where a group has tokens, the style sheet holds one rule for each of
/// them and one shared rule besides. Taking one token of the group away
/// takes away one of these rules, the token's own, and leaves the other
/// tokens in their order.
pub proof fn lemma_group_hoisting(
    variants: Seq<(String, Variant)>,
    m: ResultsModel,
    names: Seq<Seq<char>>,
    group: UtilityGroup,
    i: int,
)
    requires
        is_listing(variants, m, names),
        0 <= i < names.len(),
        m[names[i]].group == Some(group),
    ensures
        members(m, names, group).len() >= 1,
        rules_of_group(m, names, group).len() == members(m, names, group).len() + 1,
        is_listing(variants, m.remove(names[i]), names.remove(i)),
        members(m.remove(names[i]), names.remove(i), group).len() == members(m, names, group).len()
            - 1,
{
    assert forall|a: int, b: int| 0 <= a < b < names.len() implies names[a] != names[b] by {
        lemma_listing_strict(variants, m, names, a, b);
    }
    lemma_members_without(m, names, group, i);
    lemma_listing_without(variants, m, names, i);
}

} // verus!

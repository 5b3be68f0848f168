//! The generator: resolves a set of tokens and writes the style sheet, the
//! rules in their order and the shared declarations of groups at the end.

use vstd::prelude::*;
use vstd::string::*;
use crate::context::{opt_result, variant_weight, DesignSystem, GenerateResult, GenerateResultView};
use crate::css::{decl_nodes, rules_view, Rule, RuleView};
use crate::ordering::{bucket_rank, UtilityGroup, ORDERING_KEYS};
use crate::sorting::{
    ascending, key_less, lemma_ascending_unique, lemma_key_total, lemma_key_transitive,
    text_before, ItemKey,
};
use crate::table::{distinct_keys, entries_map, lemma_keys, Table};
use crate::text::chars_of;
use crate::variant::Variant;
use crate::writer::{rule_text, rules_text, Writer};

verus! {

/// A resolved token on its way into the order of the style sheet.
#[derive(Debug, PartialEq)]
pub struct OrderingItem {
    pub name: String,
    pub item: GenerateResult,
    /// The weight of the token's variants.
    pub key: u128,
}

impl OrderingItem {
    pub fn new(name: String, item: GenerateResult, key: u128) -> (r: OrderingItem)
        ensures
            r.name == name,
            r.item == item,
            r.key == key,
    {
        OrderingItem { name, item, key }
    }

    /// What orders the item.
    pub open spec fn sort_key(&self) -> ItemKey {
        ItemKey {
            rank: bucket_rank(self.item.ordering_key),
            weight: self.key as nat,
            name: self.name@,
        }
    }

    /// Whether this item comes before `other` in the style sheet.
    pub fn before(&self, other: &OrderingItem) -> (r: bool)
        ensures
            r == key_less(self.sort_key(), other.sort_key()),
    {
        let a = match self.item.ordering_key {
            Some(k) => k.rank(),
            None => ORDERING_KEYS,
        };
        let b = match other.item.ordering_key {
            Some(k) => k.rank(),
            None => ORDERING_KEYS,
        };
        if a != b {
            a < b
        } else if self.key != other.key {
            self.key < other.key
        } else {
            let x = chars_of(self.name.as_str());
            let y = chars_of(other.name.as_str());
            text_before(&x, &y)
        }
    }
}

/// The keys of the items, in order.
pub open spec fn item_keys(items: Seq<OrderingItem>) -> Seq<ItemKey> {
    Seq::new(items.len(), |i: int| items[i].sort_key())
}

/// Resolved tokens in the order of the style sheet.
#[derive(Debug, PartialEq)]
pub struct OrderingMap {
    pub items: Vec<OrderingItem>,
}

impl OrderingMap {
    /// The items stand in ascending order.
    pub open spec fn sorted(&self) -> bool {
        ascending(item_keys(self.items@))
    }

    /// No item has the token `name`.
    pub open spec fn lacks(&self, name: Seq<char>) -> bool {
        forall|i: int| 0 <= i < self.items@.len() ==> (#[trigger] self.items@[i]).name@ != name
    }

    pub fn new() -> (m: OrderingMap)
        ensures
            m.items@.len() == 0,
            m.sorted(),
    {
        OrderingMap { items: Vec::new() }
    }

    /// Whether an item has the token `name`.
    pub fn contains_name(&self, name: &str) -> (r: bool)
        ensures
            r == !self.lacks(name@),
    {
        let wanted = name.to_owned();
        let mut i: usize = 0;
        while i < self.items.len()
            invariant
                i <= self.items@.len(),
                wanted@ == name@,
                forall|j: int| 0 <= j < i ==> (#[trigger] self.items@[j]).name@ != name@,
            decreases self.items@.len() - i,
        {
            if self.items[i].name == wanted {
                return true;
            }
            i += 1;
        }
        false
    }

    /// Puts an item at its place in the order.
    pub fn insert(&mut self, item: OrderingItem) -> (pos: usize)
        requires
            old(self).sorted(),
            old(self).lacks(item.name@),
        ensures
            final(self).sorted(),
            pos <= old(self).items@.len(),
            final(self).items@ == old(self).items@.insert(pos as int, item),
    {
        let ghost before = self.items@;
        let ghost keys = item_keys(before);
        let mut pos: usize = 0;
        while pos < self.items.len() && self.items[pos].before(&item)
            invariant
                pos <= self.items@.len(),
                self.items@ == before,
                keys == item_keys(before),
                forall|j: int| 0 <= j < pos ==> key_less(#[trigger] keys[j], item.sort_key()),
            decreases self.items@.len() - pos,
        {
            assert(keys[pos as int] == before[pos as int].sort_key());
            pos += 1;
        }
        proof {
            let k = item.sort_key();
            let after = before.insert(pos as int, item);
            let after_keys = item_keys(after);
            // every item from `pos` on comes after the new one
            assert forall|j: int| pos <= j < before.len() implies key_less(k, #[trigger] keys[j]) by {
                let first = keys[pos as int];
                assert(first == before[pos as int].sort_key());
                assert(!key_less(first, k));
                lemma_key_total(first, k);
                assert(before[pos as int].name@ != item.name@);
                assert(key_less(k, first));
                if j > pos {
                    assert(key_less(keys[pos as int], keys[j]));
                    lemma_key_transitive(k, first, keys[j]);
                }
            }
            assert forall|a: int, b: int| 0 <= a < b < after_keys.len() implies key_less(
                #[trigger] after_keys[a],
                #[trigger] after_keys[b],
            ) by {
                let ia = if a < pos { a } else { a - 1 };
                let ib = if b < pos { b } else { b - 1 };
                if a == pos {
                    assert(after_keys[b] == keys[ib]);
                } else if b == pos {
                    assert(after_keys[a] == keys[ia]);
                } else {
                    assert(after_keys[a] == keys[ia]);
                    assert(after_keys[b] == keys[ib]);
                    assert(key_less(keys[ia], keys[ib]));
                }
            }
        }
        self.items.insert(pos, item);
        pos
    }

    /// The items in the order of the style sheet.
    pub fn get_ordered(&self) -> (items: &Vec<OrderingItem>)
        ensures
            items == self.items,
    {
        &self.items
    }
}

/// Resolved tokens by token.
pub type ResultsModel = Map<Seq<char>, GenerateResultView>;

/// The content of a table of results.
pub open spec fn results_model(results: Seq<(String, GenerateResult)>) -> ResultsModel {
    entries_map(results).map_values(|r: GenerateResult| r@)
}

/// What orders a resolved token: its bucket, the weight of its variants
/// by the registry, and the token.
pub open spec fn entry_key(
    variants: Seq<(String, Variant)>,
    name: Seq<char>,
    r: GenerateResultView,
) -> ItemKey {
    ItemKey {
        rank: bucket_rank(r.ordering_key),
        weight: variant_weight(variants, r.variants) as nat,
        name,
    }
}

/// The keys of the tokens, in order.
pub open spec fn listing_keys(
    variants: Seq<(String, Variant)>,
    m: ResultsModel,
    names: Seq<Seq<char>>,
) -> Seq<ItemKey> {
    Seq::new(names.len(), |i: int| entry_key(variants, names[i], m[names[i]]))
}

/// `names` lists the tokens of `m`, each once, in the order of the style
/// sheet.
pub open spec fn is_listing(
    variants: Seq<(String, Variant)>,
    m: ResultsModel,
    names: Seq<Seq<char>>,
) -> bool {
    &&& forall|i: int| 0 <= i < names.len() ==> m.contains_key(#[trigger] names[i])
    &&& forall|k: Seq<char>| #[trigger] m.contains_key(k) ==> names.contains(k)
    &&& ascending(listing_keys(variants, m, names))
}

/// The tokens of `m` in the order of the style sheet.
pub open spec fn listing(variants: Seq<(String, Variant)>, m: ResultsModel) -> Seq<Seq<char>> {
    choose|names: Seq<Seq<char>>| is_listing(variants, m, names)
}

/// There is one way only to list the tokens in order.
pub proof fn lemma_listing_unique(
    variants: Seq<(String, Variant)>,
    m: ResultsModel,
    a: Seq<Seq<char>>,
    b: Seq<Seq<char>>,
)
    requires
        is_listing(variants, m, a),
        is_listing(variants, m, b),
    ensures
        a == b,
{
    let ka = listing_keys(variants, m, a);
    let kb = listing_keys(variants, m, b);
    assert forall|i: int| 0 <= i < ka.len() implies kb.contains(#[trigger] ka[i]) by {
        assert(m.contains_key(a[i]));
        assert(b.contains(a[i]));
        let j = choose|j: int| 0 <= j < b.len() && b[j] == a[i];
        assert(kb[j] == ka[i]);
    }
    assert forall|i: int| 0 <= i < kb.len() implies ka.contains(#[trigger] kb[i]) by {
        assert(m.contains_key(b[i]));
        assert(a.contains(b[i]));
        let j = choose|j: int| 0 <= j < a.len() && a[j] == b[i];
        assert(ka[j] == kb[i]);
    }
    lemma_ascending_unique(ka, kb);
    assert(a.len() == b.len());
    assert forall|i: int| 0 <= i < a.len() implies a[i] == b[i] by {
        assert(ka[i].name == a[i]);
        assert(kb[i].name == b[i]);
    }
    assert(a =~= b);
}

/// The text of a resolved token: its rule, then the rules that come with
/// it.
pub open spec fn chunk(r: GenerateResultView) -> Seq<char> {
    rule_text(r.rule, Seq::<char>::empty(), false) + rules_text(
        r.additional,
        Seq::<char>::empty(),
        false,
    )
}

/// The texts of the tokens, one after the other.
pub open spec fn chunks(m: ResultsModel, names: Seq<Seq<char>>) -> Seq<char>
    decreases names.len(),
{
    if names.len() == 0 {
        Seq::<char>::empty()
    } else {
        chunks(m, names.drop_last()) + chunk(m[names.last()])
    }
}

/// The tokens of a group among `names`, in their order.
pub open spec fn members(m: ResultsModel, names: Seq<Seq<char>>, group: UtilityGroup) -> Seq<
    Seq<char>,
>
    decreases names.len(),
{
    if names.len() == 0 {
        Seq::<Seq<char>>::empty()
    } else {
        let front = members(m, names.drop_last(), group);
        if m[names.last()].group == Some(group) {
            front.push(names.last())
        } else {
            front
        }
    }
}

/// The selector of a group's rule: the classes of its tokens, joined by
/// commas.
pub open spec fn group_selector(tokens: Seq<Seq<char>>) -> Seq<char>
    decreases tokens.len(),
{
    if tokens.len() == 0 {
        Seq::<char>::empty()
    } else if tokens.len() == 1 {
        seq!['.'] + crate::context::css_name_escaped(tokens[0])
    } else {
        group_selector(tokens.drop_last()) + seq![',', ' '] + seq!['.']
            + crate::context::css_name_escaped(tokens.last())
    }
}

/// The rule of a group: the shared declarations under the classes of the
/// group's tokens.
pub open spec fn group_rule(tokens: Seq<Seq<char>>, group: UtilityGroup) -> RuleView {
    RuleView { selector: group_selector(tokens), nodes: decl_nodes(group.decls_spec()) }
}

/// The text of a group: its rule, if it has tokens.
pub open spec fn group_text(m: ResultsModel, names: Seq<Seq<char>>, group: UtilityGroup) -> Seq<char> {
    let tokens = members(m, names, group);
    if tokens.len() == 0 {
        Seq::<char>::empty()
    } else {
        rule_text(group_rule(tokens, group), Seq::<char>::empty(), false)
    }
}

/// The texts of the groups, in the order of their declaration.
pub open spec fn groups_text(m: ResultsModel, names: Seq<Seq<char>>) -> Seq<char> {
    group_text(m, names, UtilityGroup::Transform) + group_text(m, names, UtilityGroup::Filter)
        + group_text(m, names, UtilityGroup::BackdropFilter)
}

/// The style sheet of resolved tokens: the rules of the tokens in order,
/// then the rules of the groups.
pub open spec fn sheet_text(variants: Seq<(String, Variant)>, m: ResultsModel) -> Seq<char> {
    let names = listing(variants, m);
    chunks(m, names) + groups_text(m, names)
}

/// The tokens of the items, in order.
pub open spec fn item_names(items: Seq<OrderingItem>) -> Seq<Seq<char>> {
    Seq::new(items.len(), |i: int| items[i].name@)
}

/// Each item holds what `m` holds for its token, with the weight of the
/// registry.
pub open spec fn items_hold(
    variants: Seq<(String, Variant)>,
    m: ResultsModel,
    items: Seq<OrderingItem>,
) -> bool {
    forall|i: int|
        0 <= i < items.len() ==> {
            &&& m.contains_key((#[trigger] items[i]).name@)
            &&& m[items[i].name@] == items[i].item@
            &&& items[i].key == variant_weight(variants, items[i].item@.variants)
        }
}

/// Writes a rule from the left edge.
fn write_rule(writer: &mut Writer, rule: &Rule)
    requires
        old(writer).margin@.len() == 0,
        !old(writer).minify,
        old(writer).line_start,
    ensures
        final(writer).dest@ == old(writer).dest@ + rule_text(rule@, Seq::<char>::empty(), false),
        final(writer).margin@.len() == 0,
        !final(writer).minify,
        final(writer).line_start,
{
    rule.to_css(writer);
    assert(old(writer).margin@ =~= Seq::<char>::empty());
    assert(writer.dest@ =~= old(writer).dest@ + rule_text(rule@, Seq::<char>::empty(), false));
}

/// Writes rules from the left edge.
fn write_rules(writer: &mut Writer, rules: &Vec<Rule>)
    requires
        old(writer).margin@.len() == 0,
        !old(writer).minify,
        old(writer).line_start,
    ensures
        final(writer).dest@ == old(writer).dest@ + rules_text(
            rules_view(rules@),
            Seq::<char>::empty(),
            false,
        ),
        final(writer).margin@.len() == 0,
        !final(writer).minify,
        final(writer).line_start,
{
    let ghost all = rules_view(rules@);
    let mut i: usize = 0;
    proof {
        assert(all.take(0) =~= Seq::<RuleView>::empty());
        assert(writer.dest@ =~= old(writer).dest@ + rules_text(
            all.take(0),
            Seq::<char>::empty(),
            false,
        ));
    }
    while i < rules.len()
        invariant
            i <= rules@.len(),
            all == rules_view(rules@),
            writer.margin@.len() == 0,
            !writer.minify,
            writer.line_start,
            writer.dest@ == old(writer).dest@ + rules_text(
                all.take(i as int),
                Seq::<char>::empty(),
                false,
            ),
        decreases rules@.len() - i,
    {
        let ghost before = writer.dest@;
        write_rule(writer, &rules[i]);
        proof {
            assert(all.take(i + 1).drop_last() =~= all.take(i as int));
            assert(all.take(i + 1).last() == rules@[i as int]@);
            assert(writer.dest@ =~= old(writer).dest@ + rules_text(
                all.take(i + 1),
                Seq::<char>::empty(),
                false,
            ));
        }
        i += 1;
    }
    proof {
        assert(all.take(i as int) =~= all);
    }
}

/// An entry at or after `n` has the token `name`.
#[verifier::opaque]
pub open spec fn entry_named(entries: Seq<(String, GenerateResult)>, n: int, name: Seq<char>) -> bool {
    exists|j: int| n <= j < entries.len() && (#[trigger] entries[j]).0@ == name
}

/// An item has the token `name`.
#[verifier::opaque]
pub open spec fn item_named(items: Seq<OrderingItem>, name: Seq<char>) -> bool {
    exists|i: int| 0 <= i < items.len() && (#[trigger] items[i]).name@ == name
}

/// Each item has the token of an entry at or after `n`.
pub open spec fn items_from(
    entries: Seq<(String, GenerateResult)>,
    n: int,
    items: Seq<OrderingItem>,
) -> bool {
    forall|i: int| 0 <= i < items.len() ==> entry_named(entries, n, (#[trigger] items[i]).name@)
}

/// Each entry at or after `n` has an item with its token.
pub open spec fn entries_in(
    entries: Seq<(String, GenerateResult)>,
    n: int,
    items: Seq<OrderingItem>,
) -> bool {
    forall|j: int| n <= j < entries.len() ==> item_named(items, (#[trigger] entries[j]).0@)
}

/// The entry at `n` is what the map holds for its token, and no item made
/// of later entries has that token.
proof fn lemma_entry_fresh(entries: Seq<(String, GenerateResult)>, n: int, items: Seq<OrderingItem>)
    requires
        0 <= n < entries.len(),
        distinct_keys(entries),
        items_from(entries, n + 1, items),
    ensures
        results_model(entries).contains_key(entries[n].0@),
        results_model(entries)[entries[n].0@] == entries[n].1@,
        forall|i: int| 0 <= i < items.len() ==> (#[trigger] items[i]).name@ != entries[n].0@,
{
    reveal(entry_named);
    assert forall|j: int| n < j < entries.len() implies (#[trigger] entries[j]).0@ != entries[n].0@ by {
        assert(entries[n].0@ != entries[j].0@);
    }
    crate::table::lemma_last_occurrence(entries, n);
    assert forall|i: int| 0 <= i < items.len() implies (#[trigger] items[i]).name@ != entries[n].0@ by {
        assert(entry_named(entries, n + 1, items[i].name@));
        let j = choose|j: int|
            n + 1 <= j < entries.len() && (#[trigger] entries[j]).0@ == items[i].name@;
        assert(entries[n].0@ != entries[j].0@);
    }
}

/// With the item of the entry at `n` put in, the items hold what the map
/// holds.
proof fn lemma_added_hold(
    variants: Seq<(String, Variant)>,
    m: ResultsModel,
    before: Seq<OrderingItem>,
    pos: int,
    item: OrderingItem,
)
    requires
        0 <= pos <= before.len(),
        m.contains_key(item.name@),
        m[item.name@] == item.item@,
        item.key == variant_weight(variants, item.item@.variants),
        items_hold(variants, m, before),
    ensures
        items_hold(variants, m, before.insert(pos, item)),
{
    let after = before.insert(pos, item);
    assert forall|i: int| 0 <= i < after.len() implies {
        &&& m.contains_key((#[trigger] after[i]).name@)
        &&& m[after[i].name@] == after[i].item@
        &&& after[i].key == variant_weight(variants, after[i].item@.variants)
    } by {
        if i < pos {
            assert(after[i] == before[i]);
        } else if i > pos {
            assert(after[i] == before[i - 1]);
        }
    }
}

/// With the item of the entry at `n` put in, each item has the token of
/// an entry from `n` on.
proof fn lemma_added_from(
    entries: Seq<(String, GenerateResult)>,
    n: int,
    before: Seq<OrderingItem>,
    pos: int,
    item: OrderingItem,
)
    requires
        0 <= n < entries.len(),
        0 <= pos <= before.len(),
        item.name@ == entries[n].0@,
        items_from(entries, n + 1, before),
    ensures
        items_from(entries, n, before.insert(pos, item)),
{
    reveal(entry_named);
    let after = before.insert(pos, item);
    assert forall|i: int| 0 <= i < after.len() implies entry_named(
        entries,
        n,
        (#[trigger] after[i]).name@,
    ) by {
        if i == pos {
            assert(entries[n].0@ == after[i].name@);
        } else {
            let b = if i < pos { i } else { i - 1 };
            assert(after[i] == before[b]);
            assert(entry_named(entries, n + 1, before[b].name@));
            let j = choose|j: int|
                n + 1 <= j < entries.len() && (#[trigger] entries[j]).0@ == before[b].name@;
            assert(entries[j].0@ == after[i].name@);
        }
    }
}

/// With the item of the entry at `n` put in, each entry from `n` on has
/// its item.
proof fn lemma_added_in(
    entries: Seq<(String, GenerateResult)>,
    n: int,
    before: Seq<OrderingItem>,
    pos: int,
    item: OrderingItem,
)
    requires
        0 <= n < entries.len(),
        0 <= pos <= before.len(),
        item.name@ == entries[n].0@,
        entries_in(entries, n + 1, before),
    ensures
        entries_in(entries, n, before.insert(pos, item)),
{
    reveal(item_named);
    let after = before.insert(pos, item);
    assert forall|j: int| n <= j < entries.len() implies item_named(
        after,
        (#[trigger] entries[j]).0@,
    ) by {
        if j == n {
            assert(after[pos].name@ == entries[j].0@);
        } else {
            assert(item_named(before, entries[j].0@));
            let b = choose|b: int|
                0 <= b < before.len() && (#[trigger] before[b]).name@ == entries[j].0@;
            let i = if b < pos { b } else { b + 1 };
            assert(after[i] == before[b]);
            assert(after[i].name@ == entries[j].0@);
        }
    }
}

/// Sorted items that hold all entries list the tokens of the entries.
proof fn lemma_items_list(
    variants: Seq<(String, Variant)>,
    entries: Seq<(String, GenerateResult)>,
    items: Seq<OrderingItem>,
)
    requires
        ascending(item_keys(items)),
        items_hold(variants, results_model(entries), items),
        entries_in(entries, 0, items),
    ensures
        is_listing(variants, results_model(entries), item_names(items)),
{
    reveal(item_named);
    let m = results_model(entries);
    let names = item_names(items);
    assert forall|i: int| 0 <= i < names.len() implies m.contains_key(#[trigger] names[i]) by {
        assert(m.contains_key(items[i].name@));
    }
    assert forall|k: Seq<char>| #[trigger] m.contains_key(k) implies names.contains(k) by {
        lemma_keys(entries, k);
        let j = choose|j: int| 0 <= j < entries.len() && (#[trigger] entries[j]).0@ == k;
        assert(item_named(items, entries[j].0@));
        let i = choose|i: int| 0 <= i < items.len() && (#[trigger] items[i]).name@ == entries[j].0@;
        assert(names[i] == k);
    }
    assert forall|i: int| 0 <= i < names.len() implies listing_keys(variants, m, names)[i]
        == item_keys(items)[i] by {
        let it = items[i];
        assert(m[it.name@] == it.item@);
    }
    assert(listing_keys(variants, m, names) =~= item_keys(items));
}

/// Sorts resolved tokens into the order of the style sheet.
pub fn order_results(design: &DesignSystem, results: Table<GenerateResult>) -> (ordered: OrderingMap)
    ensures
        ordered.sorted(),
        items_hold(design.variants@, results_model(results.seq()), ordered.items@),
        is_listing(design.variants@, results_model(results.seq()), item_names(ordered.items@)),
{
    let ghost entries = results.seq();
    let mut rest = results.into_entries();
    let mut ordered = OrderingMap::new();
    proof {
        assert(rest@ =~= entries.take(rest@.len() as int));
    }
    while rest.len() > 0
        invariant
            rest@.len() <= entries.len(),
            rest@ == entries.take(rest@.len() as int),
            distinct_keys(entries),
            ordered.sorted(),
            items_hold(design.variants@, results_model(entries), ordered.items@),
            items_from(entries, rest@.len() as int, ordered.items@),
            entries_in(entries, rest@.len() as int, ordered.items@),
        decreases rest@.len(),
    {
        let ghost n = rest@.len() - 1;
        let ghost before = ordered.items@;
        proof {
            lemma_entry_fresh(entries, n, before);
        }
        let (name, result) = rest.pop().unwrap();
        let weight = design.weight_of(&result.variants);
        let item = OrderingItem::new(name, result, weight);
        let pos = ordered.insert(item);
        proof {
            lemma_added_hold(design.variants@, results_model(entries), before, pos as int, item);
            lemma_added_from(entries, n, before, pos as int, item);
            lemma_added_in(entries, n, before, pos as int, item);
            assert(rest@ =~= entries.take(n));
        }
    }
    proof {
        lemma_items_list(design.variants@, entries, ordered.items@);
    }
    ordered
}

/// Writes the rules of the items, in their order.
fn write_items(writer: &mut Writer, items: &Vec<OrderingItem>, Ghost(m): Ghost<ResultsModel>)
    requires
        old(writer).margin@.len() == 0,
        !old(writer).minify,
        old(writer).line_start,
        forall|i: int|
            0 <= i < items@.len() ==> m.contains_key((#[trigger] items@[i]).name@) && m[items@[i].name@]
                == items@[i].item@,
    ensures
        final(writer).dest@ == old(writer).dest@ + chunks(m, item_names(items@)),
        final(writer).margin@.len() == 0,
        !final(writer).minify,
        final(writer).line_start,
{
    let ghost names = item_names(items@);
    let mut i: usize = 0;
    proof {
        assert(names.take(0) =~= Seq::<Seq<char>>::empty());
        assert(writer.dest@ =~= old(writer).dest@ + chunks(m, names.take(0)));
    }
    while i < items.len()
        invariant
            i <= items@.len(),
            names == item_names(items@),
            forall|i: int|
                0 <= i < items@.len() ==> m.contains_key((#[trigger] items@[i]).name@)
                    && m[items@[i].name@] == items@[i].item@,
            writer.margin@.len() == 0,
            !writer.minify,
            writer.line_start,
            writer.dest@ == old(writer).dest@ + chunks(m, names.take(i as int)),
        decreases items@.len() - i,
    {
        write_rule(writer, &items[i].item.rule);
        write_rules(writer, &items[i].item.additional);
        proof {
            assert(names.take(i + 1).drop_last() =~= names.take(i as int));
            assert(names.take(i + 1).last() == items@[i as int].name@);
            assert(m[items@[i as int].name@] == items@[i as int].item@);
            assert(writer.dest@ =~= old(writer).dest@ + chunks(m, names.take(i + 1)));
        }
        i += 1;
    }
    proof {
        assert(names.take(i as int) =~= names);
    }
}

/// The selector of a group's rule for the items of the group.
fn group_selector_of(items: &Vec<OrderingItem>, group: UtilityGroup, Ghost(m): Ghost<ResultsModel>) -> (r:
    (String, usize))
    requires
        forall|i: int|
            0 <= i < items@.len() ==> m.contains_key((#[trigger] items@[i]).name@) && m[items@[i].name@]
                == items@[i].item@,
    ensures
        r.0@ == group_selector(members(m, item_names(items@), group)),
        r.1 == members(m, item_names(items@), group).len(),
{
    let ghost names = item_names(items@);
    let mut selector = String::new();
    let mut count: usize = 0;
    let mut i: usize = 0;
    proof {
        assert(names.take(0) =~= Seq::<Seq<char>>::empty());
        reveal_strlit(", ");
        reveal_strlit(".");
        assert(", "@ =~= seq![',', ' ']);
        assert("."@ =~= seq!['.']);
    }
    while i < items.len()
        invariant
            i <= items@.len(),
            count <= i,
            names == item_names(items@),
            ", "@ == seq![',', ' '],
            "."@ == seq!['.'],
            forall|i: int|
                0 <= i < items@.len() ==> m.contains_key((#[trigger] items@[i]).name@)
                    && m[items@[i].name@] == items@[i].item@,
            selector@ == group_selector(members(m, names.take(i as int), group)),
            count == members(m, names.take(i as int), group).len(),
        decreases items@.len() - i,
    {
        proof {
            assert(names.take(i + 1).drop_last() =~= names.take(i as int));
            assert(names.take(i + 1).last() == items@[i as int].name@);
            assert(m[items@[i as int].name@] == items@[i as int].item@);
        }
        let ghost before = members(m, names.take(i as int), group);
        let belongs = match items[i].item.group {
            Some(g) => g.index() == group.index(),
            None => false,
        };
        proof {
            if items@[i as int].item.group is Some {
                crate::ordering::lemma_index_injective(items@[i as int].item.group.unwrap(), group);
            }
        }
        if belongs {
            let ghost old_selector = selector@;
            if count > 0 {
                selector.append(", ");
            }
            selector.append(".");
            let escaped = crate::context::escape_name(items[i].name.as_str());
            selector.append(escaped.as_str());
            count += 1;
            proof {
                let now = members(m, names.take(i + 1), group);
                assert(now == before.push(items@[i as int].name@));
                assert(now.drop_last() =~= before);
                if before.len() == 0 {
                    assert(old_selector =~= Seq::<char>::empty());
                    assert(selector@ =~= seq!['.'] + crate::context::css_name_escaped(now[0]));
                } else {
                    assert(selector@ =~= group_selector(before) + seq![',', ' '] + seq!['.']
                        + crate::context::css_name_escaped(now.last()));
                }
            }
        }
        i += 1;
    }
    proof {
        assert(names.take(i as int) =~= names);
    }
    (selector, count)
}

/// Writes the rule of a group, if the group has items.
fn write_group(
    writer: &mut Writer,
    items: &Vec<OrderingItem>,
    group: UtilityGroup,
    Ghost(m): Ghost<ResultsModel>,
)
    requires
        old(writer).margin@.len() == 0,
        !old(writer).minify,
        old(writer).line_start,
        forall|i: int|
            0 <= i < items@.len() ==> m.contains_key((#[trigger] items@[i]).name@) && m[items@[i].name@]
                == items@[i].item@,
    ensures
        final(writer).dest@ == old(writer).dest@ + group_text(m, item_names(items@), group),
        final(writer).margin@.len() == 0,
        !final(writer).minify,
        final(writer).line_start,
{
    let (selector, count) = group_selector_of(items, group, Ghost(m));
    if count > 0 {
        let rule = Rule::new_with_decls(selector.as_str(), group.as_decls());
        write_rule(writer, &rule);
    } else {
        assert(writer.dest@ =~= old(writer).dest@ + Seq::<char>::empty());
    }
}

/// Writes the style sheet of the ordered items: their rules, then the
/// rules of the groups.
fn write_sheet(design: &DesignSystem, ordered: &OrderingMap, Ghost(m): Ghost<ResultsModel>) -> (css:
    String)
    requires
        items_hold(design.variants@, m, ordered.items@),
        is_listing(design.variants@, m, item_names(ordered.items@)),
    ensures
        css@ == sheet_text(design.variants@, m),
        is_listing(design.variants@, m, listing(design.variants@, m)),
{
    let ghost names = item_names(ordered.items@);
    let mut writer = Writer::default(String::new());
    let items = ordered.get_ordered();
    write_items(&mut writer, items, Ghost(m));
    write_group(&mut writer, items, UtilityGroup::Transform, Ghost(m));
    write_group(&mut writer, items, UtilityGroup::Filter, Ghost(m));
    write_group(&mut writer, items, UtilityGroup::BackdropFilter, Ghost(m));
    proof {
        lemma_listing_unique(design.variants@, m, names, listing(design.variants@, m));
        assert(writer.dest@ =~= chunks(m, names) + groups_text(m, names));
    }
    writer.dest
}

/// The switches of the generator.
#[derive(Debug, Clone, Copy, PartialEq, Eq, Structural)]
pub struct Features {
    /// Whether a rejected token is reported.
    pub strict_mode: bool,
}

/// What the generator is made from.
#[derive(Debug, PartialEq)]
pub struct ArrowConfig {
    pub theme: crate::theme::Theme,
    pub features: Features,
}

/// The tokens of a sequence, as a set.
pub open spec fn token_set(tokens: Seq<String>) -> Set<Seq<char>> {
    Set::new(|t: Seq<char>| exists|i: int| 0 <= i < tokens.len() && (#[trigger] tokens[i])@ == t)
}

/// The tokens of several sequences, as a set.
pub open spec fn all_tokens(inputs: Seq<Vec<String>>) -> Set<Seq<char>> {
    Set::new(|t: Seq<char>| exists|i: int| 0 <= i < inputs.len() && token_set((#[trigger] inputs[i])@).contains(t))
}

/// What the tokens of a set resolve to: each token that resolves, with
/// its result.
pub open spec fn resolved(design: DesignSystem, tokens: Set<Seq<char>>) -> ResultsModel {
    Map::new(
        |t: Seq<char>| tokens.contains(t) && design.resolve_spec(t) is Some,
        |t: Seq<char>| design.resolve_spec(t).unwrap(),
    )
}

/// The style sheet of a set of tokens.
pub open spec fn generated(design: DesignSystem, tokens: Set<Seq<char>>) -> Seq<char> {
    sheet_text(design.variants@, resolved(design, tokens))
}

/// The tokens of a set that resolve can be listed in the order of the
/// style sheet.
pub open spec fn listed(design: DesignSystem, tokens: Set<Seq<char>>) -> bool {
    is_listing(
        design.variants@,
        resolved(design, tokens),
        listing(design.variants@, resolved(design, tokens)),
    )
}

/// The style sheet depends on the set of tokens only: the tokens in
/// another order, or with repetitions, give the same style sheet.
pub proof fn lemma_generate_deterministic(design: DesignSystem, first: Seq<String>, second: Seq<String>)
    requires
        forall|i: int| 0 <= i < first.len() ==> token_set(second).contains((#[trigger] first[i])@),
        forall|i: int| 0 <= i < second.len() ==> token_set(first).contains((#[trigger] second[i])@),
    ensures
        generated(design, token_set(first)) == generated(design, token_set(second)),
{
    assert(token_set(first) =~= token_set(second));
}

/// The generator: a design system with the cache of the tokens that it
/// has resolved.
pub struct Application {
    ctx: DesignSystem,
    cache: Table<Option<GenerateResult>>,
    strict_mode: bool,
}

/// What the generator hands back.
#[derive(Debug, PartialEq)]
pub struct GenerateOutput {
    pub css: String,
    /// The number of different tokens among those given.
    pub tokens_seen: usize,
}

impl Application {
    /// Each token of the cache has there what it resolves to.
    #[verifier::type_invariant]
    spec fn cache_valid(&self) -> bool {
        forall|t: Seq<char>| #[trigger]
            self.cache@.contains_key(t) ==> opt_result(self.cache@[t]) == self.ctx.resolve_spec(t)
    }

    /// The design system of the generator.
    pub closed spec fn design(&self) -> DesignSystem {
        self.ctx
    }

    /// The tokens that the cache holds.
    pub closed spec fn cached(&self) -> Set<Seq<char>> {
        self.cache@.dom()
    }

    /// Whether rejected tokens are reported.
    pub closed spec fn strict(&self) -> bool {
        self.strict_mode
    }

    /// A generator with the theme of the configuration, empty registries
    /// and an empty cache.
    pub fn new(config: ArrowConfig) -> (app: Application)
        ensures
            app.design().theme == config.theme,
            app.design().utilities@.len() == 0,
            app.design().variants@.len() == 0,
            app.cached() == Set::<Seq<char>>::empty(),
            app.strict() == config.features.strict_mode,
    {
        let app = Application {
            ctx: DesignSystem::new(config.theme),
            cache: Table::new(),
            strict_mode: config.features.strict_mode,
        };
        assert(app.cache@.dom() =~= Set::<Seq<char>>::empty());
        app
    }

    /// The design system of the generator.
    pub fn ctx(&self) -> (d: &DesignSystem)
        ensures
            *d == self.design(),
    {
        &self.ctx
    }

    /// Whether rejected tokens are reported.
    pub fn strict_mode(&self) -> (s: bool)
        ensures
            s == self.strict(),
    {
        self.strict_mode
    }

    /// Whether the cache holds `token`.
    pub fn is_cached(&self, token: &str) -> (r: bool)
        ensures
            r == self.cached().contains(token@),
    {
        self.cache.contains_key(token)
    }

    /// Changes the design system; the cache is emptied, since its results
    /// belong to the old one.
    pub fn replace_design(&mut self, design: DesignSystem)
        ensures
            final(self).design() == design,
            final(self).cached() == Set::<Seq<char>>::empty(),
            final(self).strict() == old(self).strict(),
    {
        self.cache = Table::new();
        self.ctx = design;
        assert(self.cache@.dom() =~= Set::<Seq<char>>::empty());
    }

    /// Takes the design system out, leaving an empty one; the cache is
    /// emptied.
    pub fn take_design(&mut self) -> (design: DesignSystem)
        ensures
            design == old(self).design(),
            final(self).cached() == Set::<Seq<char>>::empty(),
            final(self).strict() == old(self).strict(),
    {
        self.cache = Table::new();
        let mut design = DesignSystem::new(crate::theme::Theme::default());
        core::mem::swap(&mut design, &mut self.ctx);
        assert(self.cache@.dom() =~= Set::<Seq<char>>::empty());
        design
    }

    /// Resolves a token, through the cache: a token that was resolved
    /// before is not resolved again, whether it was accepted or rejected.
    pub fn lookup(&mut self, token: &str) -> (r: Option<GenerateResult>)
        ensures
            opt_result(r) == old(self).design().resolve_spec(token@),
            final(self).design() == old(self).design(),
            final(self).strict() == old(self).strict(),
            final(self).cached() == old(self).cached().insert(token@),
    {
        proof {
            use_type_invariant(&*self);
        }
        match self.cache.get(token) {
            Some(entry) => {
                let r = match entry {
                    Some(found) => Some(found.clone()),
                    None => None,
                };
                assert(self.cache@.dom() =~= old(self).cache@.dom().insert(token@));
                return r;
            },
            None => {},
        }
        let r = self.ctx.resolve(token);
        let copy = match &r {
            Some(found) => Some(found.clone()),
            None => None,
        };
        let mut cache: Table<Option<GenerateResult>> = Table::new();
        core::mem::swap(&mut cache, &mut self.cache);
        cache.insert(token.to_owned(), copy);
        self.cache = cache;
        assert(self.cache@.dom() =~= old(self).cache@.dom().insert(token@));
        r
    }

    /// Writes the style sheet of resolved tokens: the rules in the order
    /// of bucket, variant weight and token, then the rules of the groups.
    pub fn run_inner(&mut self, res: Table<GenerateResult>) -> (css: String)
        ensures
            css@ == sheet_text(old(self).design().variants@, results_model(res.seq())),
            is_listing(
                old(self).design().variants@,
                results_model(res.seq()),
                listing(old(self).design().variants@, results_model(res.seq())),
            ),
            final(self).design() == old(self).design(),
            final(self).cached() == old(self).cached(),
            final(self).strict() == old(self).strict(),
    {
        let ghost m = results_model(res.seq());
        let ordered = order_results(&self.ctx, res);
        write_sheet(&self.ctx, &ordered, Ghost(m))
    }

    /// Resolves the tokens, each once, and collects those that resolve.
    fn collect(&mut self, tokens: &Vec<String>, results: &mut Table<GenerateResult>, Ghost(seen): Ghost<Set<Seq<char>>>)
        requires
            results_model(old(results).seq()) == resolved(old(self).design(), seen),
        ensures
            results_model(final(results).seq()) == resolved(
                old(self).design(),
                seen.union(token_set(tokens@)),
            ),
            final(self).design() == old(self).design(),
            final(self).strict() == old(self).strict(),
            old(self).cached().subset_of(final(self).cached()),
    {
        let ghost design = self.ctx;
        let mut i: usize = 0;
        proof {
            assert(seen.union(token_set(tokens@.take(0))) =~= seen);
        }
        while i < tokens.len()
            invariant
                i <= tokens@.len(),
                self.design() == design,
                self.strict() == old(self).strict(),
                old(self).cached().subset_of(self.cached()),
                results_model(results.seq()) == resolved(
                    design,
                    seen.union(token_set(tokens@.take(i as int))),
                ),
            decreases tokens@.len() - i,
        {
            let ghost before = results_model(results.seq());
            let ghost so_far = seen.union(token_set(tokens@.take(i as int)));
            let found = self.lookup(tokens[i].as_str());
            proof {
                let next = seen.union(token_set(tokens@.take(i + 1)));
                assert(next =~= so_far.insert(tokens@[i as int]@)) by {
                    assert forall|t: Seq<char>| next.contains(t) <==> so_far.insert(
                        tokens@[i as int]@,
                    ).contains(t) by {
                        if token_set(tokens@.take(i + 1)).contains(t) {
                            let k = choose|k: int|
                                0 <= k < i + 1 && (#[trigger] tokens@.take(i + 1)[k])@ == t;
                            if k < i {
                                assert(tokens@.take(i as int)[k]@ == t);
                            }
                        }
                        if token_set(tokens@.take(i as int)).contains(t) {
                            let k = choose|k: int|
                                0 <= k < i && (#[trigger] tokens@.take(i as int)[k])@ == t;
                            assert(tokens@.take(i + 1)[k]@ == t);
                        }
                        if t == tokens@[i as int]@ {
                            assert(tokens@.take(i + 1)[i as int]@ == t);
                        }
                    }
                }
            }
            match found {
                Some(r) => {
                    results.insert(tokens[i].clone(), r);
                    proof {
                        assert(results_model(results.seq()) =~= before.insert(tokens@[i as int]@, r@));
                        assert(results_model(results.seq()) =~= resolved(
                            design,
                            so_far.insert(tokens@[i as int]@),
                        ));
                    }
                },
                None => {
                    proof {
                        assert(before =~= resolved(design, so_far.insert(tokens@[i as int]@)));
                    }
                },
            }
            i += 1;
        }
        proof {
            assert(tokens@.take(i as int) =~= tokens@);
        }
    }

    /// The style sheet of the tokens. It depends on the set of tokens
    /// only, not on their order or on repetitions.
    pub fn run(&mut self, tokens: &Vec<String>) -> (css: String)
        ensures
            css@ == generated(old(self).design(), token_set(tokens@)),
            listed(old(self).design(), token_set(tokens@)),
            final(self).design() == old(self).design(),
            final(self).strict() == old(self).strict(),
            old(self).cached().subset_of(final(self).cached()),
    {
        let mut results: Table<GenerateResult> = Table::new();
        let ghost none = Set::<Seq<char>>::empty();
        proof {
            assert(results_model(results.seq()) =~= resolved(self.design(), none));
        }
        self.collect(tokens, &mut results, Ghost(none));
        proof {
            assert(none.union(token_set(tokens@)) =~= token_set(tokens@));
        }
        self.run_inner(results)
    }
}

/// The number of different tokens in a sequence.
pub open spec fn distinct_count(tokens: Seq<String>) -> nat
    decreases tokens.len(),
{
    if tokens.len() == 0 {
        0
    } else {
        distinct_count(tokens.drop_last()) + (if token_set(tokens.drop_last()).contains(
            tokens.last()@,
        ) {
            0nat
        } else {
            1nat
        })
    }
}

/// Counts the different tokens of a sequence.
pub fn count_distinct(tokens: &Vec<String>) -> (n: usize)
    ensures
        n == distinct_count(tokens@),
{
    let mut seen: Table<bool> = Table::new();
    let mut n: usize = 0;
    let mut i: usize = 0;
    proof {
        assert(seen@.dom() =~= token_set(tokens@.take(0)));
    }
    while i < tokens.len()
        invariant
            i <= tokens@.len(),
            n <= i,
            n == distinct_count(tokens@.take(i as int)),
            seen@.dom() == token_set(tokens@.take(i as int)),
        decreases tokens@.len() - i,
    {
        proof {
            assert(tokens@.take(i + 1).drop_last() =~= tokens@.take(i as int));
            assert(tokens@.take(i + 1).last() == tokens@[i as int]);
        }
        let ghost before = seen@.dom();
        if !seen.contains_key(tokens[i].as_str()) {
            n += 1;
        }
        seen.insert(tokens[i].clone(), true);
        proof {
            let next = token_set(tokens@.take(i + 1));
            assert forall|t: Seq<char>| next.contains(t) <==> before.insert(
                tokens@[i as int]@,
            ).contains(t) by {
                if next.contains(t) {
                    let k = choose|k: int| 0 <= k < i + 1 && (#[trigger] tokens@.take(i + 1)[k])@ == t;
                    if k < i {
                        assert(tokens@.take(i as int)[k]@ == t);
                    }
                }
                if before.contains(t) {
                    let k = choose|k: int| 0 <= k < i && (#[trigger] tokens@.take(i as int)[k])@ == t;
                    assert(tokens@.take(i + 1)[k]@ == t);
                }
                if t == tokens@[i as int]@ {
                    assert(tokens@.take(i + 1)[i as int]@ == t);
                }
            }
            assert(seen@.dom() =~= next);
        }
        i += 1;
    }
    proof {
        assert(tokens@.take(i as int) =~= tokens@);
    }
    n
}

impl Application {
    /// The style sheet of the tokens of all inputs together.
    pub fn run_parallel(&mut self, inputs: &Vec<Vec<String>>) -> (css: String)
        ensures
            css@ == generated(old(self).design(), all_tokens(inputs@)),
            listed(old(self).design(), all_tokens(inputs@)),
            final(self).design() == old(self).design(),
            final(self).strict() == old(self).strict(),
            old(self).cached().subset_of(final(self).cached()),
    {
        let mut results: Table<GenerateResult> = Table::new();
        let ghost design = self.design();
        let mut i: usize = 0;
        proof {
            assert(all_tokens(inputs@.take(0)) =~= Set::<Seq<char>>::empty());
            assert(results_model(results.seq()) =~= resolved(design, all_tokens(inputs@.take(0))));
        }
        while i < inputs.len()
            invariant
                i <= inputs@.len(),
                self.design() == design,
                self.strict() == old(self).strict(),
                old(self).cached().subset_of(self.cached()),
                results_model(results.seq()) == resolved(design, all_tokens(inputs@.take(i as int))),
            decreases inputs@.len() - i,
        {
            let ghost seen = all_tokens(inputs@.take(i as int));
            self.collect(&inputs[i], &mut results, Ghost(seen));
            proof {
                let next = all_tokens(inputs@.take(i + 1));
                let now = seen.union(token_set(inputs@[i as int]@));
                assert forall|t: Seq<char>| next.contains(t) <==> now.contains(t) by {
                    if next.contains(t) {
                        let k = choose|k: int|
                            0 <= k < i + 1 && token_set((#[trigger] inputs@.take(i + 1)[k])@).contains(t);
                        if k < i {
                            assert(token_set(inputs@.take(i as int)[k]@).contains(t));
                        }
                    }
                    if seen.contains(t) {
                        let k = choose|k: int|
                            0 <= k < i && token_set((#[trigger] inputs@.take(i as int)[k])@).contains(t);
                        assert(token_set(inputs@.take(i + 1)[k]@).contains(t));
                    }
                    if token_set(inputs@[i as int]@).contains(t) {
                        assert(token_set(inputs@.take(i + 1)[i as int]@).contains(t));
                    }
                }
                assert(next =~= now);
            }
            i += 1;
        }
        proof {
            assert(inputs@.take(i as int) =~= inputs@);
        }
        self.run_inner(results)
    }

    /// The style sheet of the tokens, with the number of different tokens
    /// among them.
    pub fn generate(&mut self, tokens: &Vec<String>) -> (out: GenerateOutput)
        ensures
            out.css@ == generated(old(self).design(), token_set(tokens@)),
            listed(old(self).design(), token_set(tokens@)),
            out.tokens_seen == distinct_count(tokens@),
            final(self).design() == old(self).design(),
            final(self).strict() == old(self).strict(),
            old(self).cached().subset_of(final(self).cached()),
    {
        let css = self.run(tokens);
        GenerateOutput { css, tokens_seen: count_distinct(tokens) }
    }
}

impl Application {
    /// Loads the preset: the utilities without a value, the utilities with
    /// a value, and the variants, each after what is registered already.
    /// The cache is emptied.
    pub fn init(&mut self) -> (r: &mut Application)
        ensures
            *final(self) == *final(r),
            r.design().theme == old(self).design().theme,
            crate::preset::helpers::registry_view(r.design().utilities@)
                == crate::preset::helpers::registry_view(old(self).design().utilities@)
                + crate::preset::helpers::built_all(
                crate::preset::statics::static_presets(),
                old(self).design().theme.model(),
            ) + crate::preset::helpers::built_all(
                crate::preset::dynamics::dynamic_presets(old(self).design().theme.model()),
                old(self).design().theme.model(),
            ),
            crate::preset::variants::variant_registry_view(r.design().variants@)
                == crate::preset::variants::variant_registry_view(old(self).design().variants@)
                + crate::preset::variants::variant_presets(old(self).design().theme),
            r.cached() == Set::<Seq<char>>::empty(),
            r.strict() == old(self).strict(),
    {
        let mut design = self.take_design();
        crate::preset::statics::load_static_utilities(&mut design);
        crate::preset::dynamics::load_dynamic_utilities(&mut design);
        crate::preset::variants::load_variants(&mut design);
        self.replace_design(design);
        self
    }
}

} // verus!

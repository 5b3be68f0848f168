//! The theme: named value tables that utilities read their values from.

use vstd::prelude::*;
use vstd::string::*;
use crate::css::{rules_view, Rule, RuleView};
use crate::table::{distinct_keys, entries_map, lemma_keys, Table};

verus! {

/// A font size with what goes with it.
#[derive(Debug, PartialEq)]
pub struct FontSize {
    pub size: String,
    pub line_height: Option<String>,
    pub letter_spacing: Option<String>,
    pub font_weight: Option<String>,
}

/// A font family (a comma-separated list) with what goes with it.
#[derive(Debug, PartialEq)]
pub struct FontFamily {
    pub family: String,
    pub feature_settings: Option<String>,
    pub variation_settings: Option<String>,
}

/// A value of a theme table.
#[derive(Debug, PartialEq)]
pub enum ThemeValue {
    Plain(String),
    FontSize(FontSize),
    FontFamily(FontFamily),
    Keyframes(Vec<Rule>),
}

/// The mathematical content of a [`FontSize`].
pub ghost struct FontSizeView {
    pub size: Seq<char>,
    pub line_height: Option<Seq<char>>,
    pub letter_spacing: Option<Seq<char>>,
    pub font_weight: Option<Seq<char>>,
}

/// The mathematical content of a [`FontFamily`].
pub ghost struct FontFamilyView {
    pub family: Seq<char>,
    pub feature_settings: Option<Seq<char>>,
    pub variation_settings: Option<Seq<char>>,
}

/// The mathematical content of a [`ThemeValue`].
pub ghost enum ThemeValueView {
    Plain(Seq<char>),
    FontSize(FontSizeView),
    FontFamily(FontFamilyView),
    Keyframes(Seq<RuleView>),
}

/// The text of an optional string.
pub open spec fn opt_text(s: Option<String>) -> Option<Seq<char>> {
    match s {
        Some(s) => Some(s@),
        None => None,
    }
}

impl View for FontSize {
    type V = FontSizeView;

    open spec fn view(&self) -> FontSizeView {
        FontSizeView {
            size: self.size@,
            line_height: opt_text(self.line_height),
            letter_spacing: opt_text(self.letter_spacing),
            font_weight: opt_text(self.font_weight),
        }
    }
}

impl View for FontFamily {
    type V = FontFamilyView;

    open spec fn view(&self) -> FontFamilyView {
        FontFamilyView {
            family: self.family@,
            feature_settings: opt_text(self.feature_settings),
            variation_settings: opt_text(self.variation_settings),
        }
    }
}

impl View for ThemeValue {
    type V = ThemeValueView;

    open spec fn view(&self) -> ThemeValueView {
        match self {
            ThemeValue::Plain(s) => ThemeValueView::Plain(s@),
            ThemeValue::FontSize(f) => ThemeValueView::FontSize(f@),
            ThemeValue::FontFamily(f) => ThemeValueView::FontFamily(f@),
            ThemeValue::Keyframes(rules) => ThemeValueView::Keyframes(rules_view(rules@)),
        }
    }
}

/// A table of theme values by key.
pub type ThemeTable = Table<ThemeValue>;

/// The content of a table: each key with the content of its value.
pub type TableModel = Map<Seq<char>, ThemeValueView>;

/// The content of a theme: each namespace with the content of its table.
pub type ThemeModel = Map<Seq<char>, TableModel>;

/// The content of a theme table.
pub open spec fn table_model(t: ThemeTable) -> TableModel {
    t@.map_values(|v: ThemeValue| v@)
}

/// Last writer wins: `later` over `earlier`, key by key.
pub open spec fn merge_tables(earlier: TableModel, later: TableModel) -> TableModel {
    earlier.union_prefer_right(later)
}

/// Deep merge: a namespace of both themes holds the keys of both, those of
/// `later` winning; any other namespace is taken as it is.
pub open spec fn merge_models(earlier: ThemeModel, later: ThemeModel) -> ThemeModel {
    Map::new(
        |ns: Seq<char>| earlier.contains_key(ns) || later.contains_key(ns),
        |ns: Seq<char>|
            if earlier.contains_key(ns) && later.contains_key(ns) {
                merge_tables(earlier[ns], later[ns])
            } else if later.contains_key(ns) {
                later[ns]
            } else {
                earlier[ns]
            },
    )
}

/// The content of the theme that the entries stand for.
pub open spec fn theme_model(entries: Seq<(String, ThemeTable)>) -> ThemeModel {
    entries_map(entries).map_values(|t: ThemeTable| table_model(t))
}

/// The content of the table that the entries stand for.
pub open spec fn entries_model(entries: Seq<(String, ThemeValue)>) -> TableModel {
    entries_map(entries).map_values(|v: ThemeValue| v@)
}

/// A theme: value tables by namespace.
#[derive(Debug, PartialEq)]
pub struct Theme(pub Table<ThemeTable>);

impl Theme {
    /// The content of the theme.
    pub open spec fn model(&self) -> ThemeModel {
        theme_model(self.0.seq())
    }

    /// The theme without any namespace.
    pub fn default() -> (t: Theme)
        ensures
            t.model() == Map::<Seq<char>, TableModel>::empty(),
    {
        let t = Theme(Table::new());
        assert(t.model() =~= Map::<Seq<char>, TableModel>::empty());
        t
    }

    /// The table of a namespace.
    pub fn get(&self, namespace: &str) -> (r: Option<&ThemeTable>)
        ensures
            match r {
                Some(t) => self.model().contains_key(namespace@) && table_model(*t)
                    == self.model()[namespace@],
                None => !self.model().contains_key(namespace@),
            },
    {
        self.0.get(namespace)
    }

    /// Sets the table of a namespace.
    pub fn insert(&mut self, namespace: String, table: ThemeTable)
        ensures
            final(self).model() == old(self).model().insert(namespace@, table_model(table)),
    {
        self.0.insert(namespace, table);
        assert(self.model() =~= old(self).model().insert(namespace@, table_model(table)));
    }

    /// The value of `key` in `namespace`.
    pub fn lookup(&self, namespace: &str, key: &str) -> (r: Option<&ThemeValue>)
        ensures
            match r {
                Some(v) => self.model().contains_key(namespace@) && self.model()[namespace@].contains_key(
                    key@,
                ) && v@ == self.model()[namespace@][key@],
                None => !(self.model().contains_key(namespace@)
                    && self.model()[namespace@].contains_key(key@)),
            },
    {
        match self.0.get(namespace) {
            Some(table) => table.get(key),
            None => None,
        }
    }

    /// Merges `other` into this theme, namespace by namespace; where both
    /// have a key, the value of `other` stays.
    pub fn merge(self, other: Theme) -> (merged: Theme)
        ensures
            merged.model() == merge_models(self.model(), other.model()),
    {
        let mut merged = self;
        let ghost later = other.0.seq();
        let mut rest = reversed(other.0.into_entries());
        let ghost done: int = 0;
        proof {
            assert(later.take(0) =~= Seq::<(String, ThemeTable)>::empty());
            assert(merged.model() =~= merge_models(self.model(), theme_model(later.take(0))));
            assert(later.subrange(0, later.len() as int) =~= later);
        }
        while rest.len() > 0
            invariant
                0 <= done <= later.len(),
                distinct_keys(later),
                rest@ == later.subrange(done, later.len() as int).reverse(),
                merged.model() == merge_models(self.model(), theme_model(later.take(done))),
            decreases rest@.len(),
        {
            let ghost before = merged.model();
            let ghost tail = later.subrange(done, later.len() as int);
            proof {
                assert(tail.len() == rest@.len());
                assert(tail.reverse()[tail.len() - 1] == tail[0]);
            }
            let (namespace, table) = rest.pop().unwrap();
            merged.absorb(namespace, table);
            proof {
                assert((namespace, table) == later[done]);
                let seen = later.take(done);
                let next = later.take(done + 1);
                assert(next.drop_last() =~= seen);
                assert(next.last() == later[done]);
                lemma_keys(seen, namespace@);
                assert(!entries_map(seen).contains_key(namespace@)) by {
                    if exists|j: int| 0 <= j < seen.len() && (#[trigger] seen[j]).0@ == namespace@ {
                        let j = choose|j: int| 0 <= j < seen.len() && (#[trigger] seen[j]).0@ == namespace@;
                        assert(later[j].0@ != later[done].0@);
                    }
                }
                assert(theme_model(next) =~= theme_model(seen).insert(
                    namespace@,
                    table_model(table),
                ));
                assert(merged.model() =~= merge_models(self.model(), theme_model(next)));
                assert(rest@ =~= later.subrange(done + 1, later.len() as int).reverse());
                done = done + 1;
            }
        }
        proof {
            assert(later.take(done) =~= later);
        }
        merged
    }

    /// Merges one table into a namespace, which is made if it is missing.
    pub fn absorb(&mut self, namespace: String, table: ThemeTable)
        ensures
            final(self).model() == old(self).model().insert(
                namespace@,
                if old(self).model().contains_key(namespace@) {
                    merge_tables(old(self).model()[namespace@], table_model(table))
                } else {
                    table_model(table)
                },
            ),
    {
        match self.0.remove(namespace.as_str()) {
            None => {
                self.insert(namespace, table);
            },
            Some(earlier) => {
                let ghost later = table.seq();
                let mut target = earlier;
                let mut rest = reversed(table.into_entries());
                let ghost done: int = 0;
                proof {
                    assert(later.take(0) =~= Seq::<(String, ThemeValue)>::empty());
                    assert(later.subrange(0, later.len() as int) =~= later);
                    assert(table_model(target) =~= merge_tables(
                        table_model(earlier),
                        entries_model(later.take(0)),
                    ));
                }
                while rest.len() > 0
                    invariant
                        0 <= done <= later.len(),
                        rest@ == later.subrange(done, later.len() as int).reverse(),
                        table_model(target) == merge_tables(
                            table_model(earlier),
                            entries_model(later.take(done)),
                        ),
                    decreases rest@.len(),
                {
                    let ghost tail = later.subrange(done, later.len() as int);
                    let ghost before = target;
                    proof {
                        assert(tail.len() == rest@.len());
                        assert(tail.reverse()[tail.len() - 1] == tail[0]);
                    }
                    let (k, v) = rest.pop().unwrap();
                    target.insert(k, v);
                    proof {
                        assert((k, v) == later[done]);
                        let seen = later.take(done);
                        let next = later.take(done + 1);
                        assert(next.drop_last() =~= seen);
                        assert(next.last() == later[done]);
                        assert(entries_model(next) =~= entries_model(seen).insert(k@, v@));
                        assert(table_model(target) =~= table_model(before).insert(k@, v@));
                        assert(table_model(target) =~= merge_tables(
                            table_model(earlier),
                            entries_model(next),
                        ));
                        assert(rest@ =~= later.subrange(done + 1, later.len() as int).reverse());
                        done = done + 1;
                    }
                }
                proof {
                    assert(later.take(done) =~= later);
                }
                let ghost mid = self.model();
                self.insert(namespace, target);
                assert(mid =~= old(self).model().remove(namespace@));
                assert(self.model() =~= old(self).model().insert(
                    namespace@,
                    merge_tables(old(self).model()[namespace@], table_model(table)),
                ));
            },
        }
    }
}

/// The elements of `v` in reverse order.
pub fn reversed<T>(v: Vec<T>) -> (r: Vec<T>)
    ensures
        r@ == v@.reverse(),
{
    let mut rest = v;
    let mut r: Vec<T> = Vec::new();
    while rest.len() > 0
        invariant
            r@.len() + rest@.len() == v@.len(),
            forall|j: int| 0 <= j < rest@.len() ==> rest@[j] == v@[j],
            forall|j: int| 0 <= j < r@.len() ==> r@[j] == v@[v@.len() - 1 - j],
        decreases rest@.len(),
    {
        let x = rest.pop().unwrap();
        r.push(x);
    }
    assert(r@ =~= v@.reverse());
    r
}

/// A copy of an optional string.
pub fn clone_opt(s: &Option<String>) -> (c: Option<String>)
    ensures
        opt_text(c) == opt_text(*s),
{
    match s {
        Some(s) => Some(s.clone()),
        None => None,
    }
}

impl Clone for FontSize {
    fn clone(&self) -> (c: FontSize)
        ensures
            c@ == self@,
    {
        FontSize {
            size: self.size.clone(),
            line_height: clone_opt(&self.line_height),
            letter_spacing: clone_opt(&self.letter_spacing),
            font_weight: clone_opt(&self.font_weight),
        }
    }
}

impl Clone for FontFamily {
    fn clone(&self) -> (c: FontFamily)
        ensures
            c@ == self@,
    {
        FontFamily {
            family: self.family.clone(),
            feature_settings: clone_opt(&self.feature_settings),
            variation_settings: clone_opt(&self.variation_settings),
        }
    }
}

impl Clone for ThemeValue {
    fn clone(&self) -> (c: ThemeValue)
        ensures
            c@ == self@,
    {
        match self {
            ThemeValue::Plain(s) => ThemeValue::Plain(s.clone()),
            ThemeValue::FontSize(f) => ThemeValue::FontSize(f.clone()),
            ThemeValue::FontFamily(f) => ThemeValue::FontFamily(f.clone()),
            ThemeValue::Keyframes(rules) => ThemeValue::Keyframes(crate::css::clone_rules(rules)),
        }
    }
}

/// A copy of a table.
pub fn clone_table(table: &ThemeTable) -> (copy: ThemeTable)
    ensures
        table_model(copy) == table_model(*table),
{
    let mut copy: ThemeTable = Table::new();
    let n = table.len();
    let mut i: usize = 0;
    proof {
        assert(table.seq().take(0) =~= Seq::<(String, ThemeValue)>::empty());
        assert(table_model(copy) =~= entries_model(table.seq().take(0)));
    }
    while i < n
        invariant
            n == table.seq().len(),
            i <= n,
            table_model(copy) == entries_model(table.seq().take(i as int)),
        decreases n - i,
    {
        let ghost before = copy;
        let k = table.key_at(i).clone();
        let v = table.value_at(i).clone();
        copy.insert(k, v);
        proof {
            let next = table.seq().take(i + 1);
            assert(next.drop_last() =~= table.seq().take(i as int));
            assert(next.last() == table.seq()[i as int]);
            assert(entries_model(next) =~= entries_model(table.seq().take(i as int)).insert(
                k@,
                v@,
            ));
            assert(table_model(copy) =~= table_model(before).insert(k@, v@));
        }
        i += 1;
    }
    proof {
        assert(table.seq().take(n as int) =~= table.seq());
    }
    copy
}

/// The text that a theme value gives a declaration: a plain value, the
/// size of a font size, the family of a font family.
pub open spec fn theme_text(v: ThemeValueView) -> Option<Seq<char>> {
    match v {
        ThemeValueView::Plain(s) => Some(s),
        ThemeValueView::FontSize(f) => Some(f.size),
        ThemeValueView::FontFamily(f) => Some(f.family),
        ThemeValueView::Keyframes(_) => None,
    }
}

impl ThemeValue {
    /// The text that the value gives a declaration.
    pub fn text(&self) -> (r: Option<&str>)
        ensures
            crate::value::opt_str_text(r) == theme_text(self@),
    {
        match self {
            ThemeValue::Plain(s) => Some(s.as_str()),
            ThemeValue::FontSize(f) => Some(f.size.as_str()),
            ThemeValue::FontFamily(f) => Some(f.family.as_str()),
            ThemeValue::Keyframes(_) => None,
        }
    }
}

/// The models of the tables, in order.
pub open spec fn table_models(tables: Seq<ThemeTable>) -> Seq<TableModel> {
    Seq::new(tables.len(), |i: int| table_model(tables[i]))
}

/// The value of `key` in the first table that has it.
pub open spec fn first_hit(tables: Seq<TableModel>, key: Seq<char>) -> Option<ThemeValueView>
    decreases tables.len(),
{
    if tables.len() == 0 {
        None
    } else if tables[0].contains_key(key) {
        Some(tables[0][key])
    } else {
        first_hit(tables.drop_first(), key)
    }
}

/// Looks `key` up in the tables, in their order; the first hit wins.
pub fn lookup_tables<'a>(tables: &'a Vec<ThemeTable>, key: &str) -> (r: Option<&'a ThemeValue>)
    ensures
        match r {
            Some(v) => first_hit(table_models(tables@), key@) == Some(v@),
            None => first_hit(table_models(tables@), key@) is None,
        },
{
    let ghost all = table_models(tables@);
    let mut i: usize = 0;
    proof {
        assert(all.skip(0) =~= all);
    }
    while i < tables.len()
        invariant
            i <= tables@.len(),
            all == table_models(tables@),
            first_hit(all, key@) == first_hit(all.skip(i as int), key@),
        decreases tables@.len() - i,
    {
        proof {
            assert(all.skip(i as int).drop_first() =~= all.skip(i + 1));
            assert(all.skip(i as int)[0] == table_model(tables@[i as int]));
        }
        match tables[i].get(key) {
            Some(v) => {
                return Some(v);
            },
            None => {},
        }
        i += 1;
    }
    None
}

} // verus!

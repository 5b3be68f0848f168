//! The shape of a configuration: a JSON document as a value, and the theme
//! that a document of themes stands for.

use vstd::prelude::*;
use vstd::string::*;
use crate::builder::{
    string_texts, RawValueRepr, ThemeParseError, UtilityBuilder, UtilityBuilderView,
};
use crate::css::{nodes_view, rules_view, AstNode, Decl, DeclView, NodeView, Rule, RuleView};
use crate::ordering::{OrderingKey, UtilityGroup};
use crate::process::{UtilityHandler, UtilityHandlerView};
use crate::table::{entries_map, Table};
use crate::types::Validator;
use crate::value::{template_of, templates_view, DeclTemplate, DeclTemplateView, DeclValue};
use crate::text::{join3, same_text};
use crate::theme::{
    table_model, FontFamily, FontFamilyView, FontSize, FontSizeView, TableModel, Theme, ThemeModel,
    ThemeTable, ThemeValue, ThemeValueView,
};

verus! {

/// A JSON value. A number is kept as its text; the members of an object
/// stand in the order of the document.
#[derive(Debug, PartialEq)]
pub enum JsonValue {
    Null,
    Bool(bool),
    Number(String),
    String(String),
    Array(Vec<JsonValue>),
    Object(Vec<(String, JsonValue)>),
}

/// The mathematical content of a [`ThemeParseError`].
pub ghost enum ParseErrorView {
    MissingHandler(Seq<char>),
    NotAnObject(Seq<char>),
    InvalidValue(Seq<char>, Seq<char>),
}

impl View for ThemeParseError {
    type V = ParseErrorView;

    open spec fn view(&self) -> ParseErrorView {
        match self {
            ThemeParseError::MissingHandler(k) => ParseErrorView::MissingHandler(k@),
            ThemeParseError::NotAnObject(n) => ParseErrorView::NotAnObject(n@),
            ThemeParseError::InvalidValue(n, k) => ParseErrorView::InvalidValue(n@, k@),
        }
    }
}

/// The key of a nested color: `parent-child`, and the parent itself for
/// the child `DEFAULT`.
pub open spec fn flat_key(parent: Seq<char>, child: Seq<char>) -> Seq<char> {
    if child == "DEFAULT"@ {
        parent
    } else {
        parent + seq!['-'] + child
    }
}

/// The colors of a nested object added to a table: each member that is a
/// string, under its flat key; any other member is passed over.
pub open spec fn nested_colors(
    parent: Seq<char>,
    nested: Seq<(String, JsonValue)>,
    table: TableModel,
) -> TableModel
    decreases nested.len(),
{
    if nested.len() == 0 {
        table
    } else {
        let front = nested_colors(parent, nested.drop_last(), table);
        match nested.last().1 {
            JsonValue::String(color) => front.insert(
                flat_key(parent, nested.last().0@),
                ThemeValueView::Plain(color@),
            ),
            _ => front,
        }
    }
}

/// The table of colors that an object stands for. A string is a color
/// under its key; an object holds colors one level down, which are
/// flattened; anything else is an error, and the first error counts.
pub open spec fn flattened(members: Seq<(String, JsonValue)>) -> Result<TableModel, ParseErrorView>
    decreases members.len(),
{
    if members.len() == 0 {
        Ok(Map::empty())
    } else {
        match flattened(members.drop_last()) {
            Err(e) => Err(e),
            Ok(front) => match members.last().1 {
                JsonValue::String(color) => Ok(
                    front.insert(members.last().0@, ThemeValueView::Plain(color@)),
                ),
                JsonValue::Object(nested) => Ok(nested_colors(members.last().0@, nested@, front)),
                _ => Err(ParseErrorView::InvalidValue("colors"@, members.last().0@)),
            },
        }
    }
}

/// An error among the first members is the error of all members.
pub proof fn lemma_flattened_fails(members: Seq<(String, JsonValue)>, n: int)
    requires
        0 <= n <= members.len(),
        flattened(members.take(n)) is Err,
    ensures
        flattened(members) == flattened(members.take(n)),
    decreases members.len() - n,
{
    if n == members.len() {
        assert(members.take(n) =~= members);
    } else {
        assert(members.take(n + 1).drop_last() =~= members.take(n));
        lemma_flattened_fails(members, n + 1);
    }
}

/// A table of colors, with nested colors flattened.
#[derive(Debug, PartialEq)]
pub struct FlattenedColors(pub ThemeTable);

/// The content of the result of reading a table.
pub open spec fn table_result(r: Result<ThemeTable, ThemeParseError>) -> Result<TableModel, ParseErrorView> {
    match r {
        Ok(t) => Ok(table_model(t)),
        Err(e) => Err(e@),
    }
}

/// Adds the colors of a nested object to a table.
fn add_nested(table: &mut ThemeTable, parent: &str, nested: &Vec<(String, JsonValue)>)
    ensures
        table_model(*final(table)) == nested_colors(parent@, nested@, table_model(*old(table))),
{
    let mut i: usize = 0;
    proof {
        assert(nested@.take(0) =~= Seq::<(String, JsonValue)>::empty());
    }
    while i < nested.len()
        invariant
            i <= nested@.len(),
            table_model(*table) == nested_colors(parent@, nested@.take(i as int), table_model(*old(table))),
        decreases nested@.len() - i,
    {
        proof {
            assert(nested@.take(i + 1).drop_last() =~= nested@.take(i as int));
            assert(nested@.take(i + 1).last() == nested@[i as int]);
        }
        let ghost before = *table;
        match &nested[i].1 {
            JsonValue::String(color) => {
                let child = nested[i].0.as_str();
                let key = if same_text(child, "DEFAULT") {
                    parent.to_owned()
                } else {
                    proof {
                        reveal_strlit("-");
                        assert("-"@ =~= seq!['-']);
                    }
                    join3(parent, "-", child)
                };
                let value = ThemeValue::Plain(color.clone());
                table.insert(key, value);
                assert(table_model(*table) =~= table_model(before).insert(key@, value@));
            },
            _ => {},
        }
        i += 1;
    }
    proof {
        assert(nested@.take(i as int) =~= nested@);
    }
}

/// Reads the members of an object of colors.
pub fn flatten_colors(members: &Vec<(String, JsonValue)>) -> (r: Result<ThemeTable, ThemeParseError>)
    ensures
        table_result(r) == flattened(members@),
{
    let mut table: ThemeTable = Table::new();
    let mut i: usize = 0;
    proof {
        assert(members@.take(0) =~= Seq::<(String, JsonValue)>::empty());
        assert(table_model(table) =~= Map::empty());
    }
    while i < members.len()
        invariant
            i <= members@.len(),
            flattened(members@.take(i as int)) == Ok::<TableModel, ParseErrorView>(table_model(table)),
        decreases members@.len() - i,
    {
        proof {
            assert(members@.take(i + 1).drop_last() =~= members@.take(i as int));
            assert(members@.take(i + 1).last() == members@[i as int]);
        }
        let ghost before = table;
        match &members[i].1 {
            JsonValue::String(color) => {
                let key = members[i].0.clone();
                let value = ThemeValue::Plain(color.clone());
                table.insert(key, value);
                assert(table_model(table) =~= table_model(before).insert(key@, value@));
            },
            JsonValue::Object(nested) => {
                add_nested(&mut table, members[i].0.as_str(), nested);
            },
            _ => {
                proof {
                    lemma_flattened_fails(members@, i + 1);
                }
                return Err(ThemeParseError::InvalidValue("colors".to_owned(), members[i].0.clone()));
            },
        }
        i += 1;
    }
    proof {
        assert(members@.take(i as int) =~= members@);
    }
    Ok(table)
}

impl FlattenedColors {
    /// Reads a table of colors from a JSON object.
    pub fn from_json(value: &JsonValue) -> (r: Result<FlattenedColors, ThemeParseError>)
        ensures
            match value {
                JsonValue::Object(members) => match r {
                    Ok(c) => flattened(members@) == Ok::<TableModel, ParseErrorView>(
                        table_model(c.0),
                    ),
                    Err(e) => flattened(members@) == Err::<TableModel, ParseErrorView>(e@),
                },
                _ => r is Err && r->Err_0@ == ParseErrorView::NotAnObject("colors"@),
            },
    {
        match value {
            JsonValue::Object(members) => match flatten_colors(members) {
                Ok(t) => Ok(FlattenedColors(t)),
                Err(e) => Err(e),
            },
            _ => Err(ThemeParseError::NotAnObject("colors".to_owned())),
        }
    }

    /// The color under a key.
    pub fn get(&self, key: &str) -> (r: Option<&ThemeValue>)
        ensures
            match r {
                Some(v) => self.0@.contains_key(key@) && *v == self.0@[key@],
                None => !self.0@.contains_key(key@),
            },
    {
        self.0.get(key)
    }
}

/// The text of a string or a number.
pub open spec fn scalar_text(v: JsonValue) -> Option<Seq<char>> {
    match v {
        JsonValue::String(s) => Some(s@),
        JsonValue::Number(n) => Some(n@),
        _ => None,
    }
}

/// The text of a string or a number.
pub fn scalar(v: &JsonValue) -> (r: Option<&str>)
    ensures
        crate::value::opt_str_text(r) == scalar_text(*v),
{
    match v {
        JsonValue::String(s) => Some(s.as_str()),
        JsonValue::Number(n) => Some(n.as_str()),
        _ => None,
    }
}

/// The text of the member `key` of an object, if it is a string or a
/// number; of several members with one key the last counts.
pub open spec fn member_text(members: Seq<(String, JsonValue)>, key: Seq<char>) -> Option<Seq<char>> {
    if entries_map(members).contains_key(key) {
        scalar_text(entries_map(members)[key])
    } else {
        None
    }
}

/// The text of the member `key` of an object.
pub fn member(members: &Vec<(String, JsonValue)>, key: &str) -> (r: Option<String>)
    ensures
        crate::theme::opt_text(r) == member_text(members@, key@),
{
    let wanted = key.to_owned();
    let mut i: usize = members.len();
    while i > 0
        invariant
            i <= members@.len(),
            wanted@ == key@,
            forall|j: int| i <= j < members@.len() ==> (#[trigger] members@[j]).0@ != key@,
        decreases i,
    {
        i -= 1;
        if members[i].0 == wanted {
            proof {
                crate::table::lemma_last_occurrence(members@, i as int);
            }
            return match scalar(&members[i].1) {
                Some(t) => Some(t.to_owned()),
                None => None,
            };
        }
    }
    proof {
        crate::table::lemma_keys(members@, key@);
    }
    None
}

/// The font size that an array stands for: a size with a line height, or
/// a size with an object of line height, letter spacing and font weight.
pub open spec fn font_size_of(items: Seq<JsonValue>) -> Option<FontSizeView> {
    if items.len() == 2 && scalar_text(items[0]) is Some {
        let size = scalar_text(items[0]).unwrap();
        match items[1] {
            JsonValue::Object(settings) => Some(
                FontSizeView {
                    size,
                    line_height: member_text(settings@, "lineHeight"@),
                    letter_spacing: member_text(settings@, "letterSpacing"@),
                    font_weight: member_text(settings@, "fontWeight"@),
                },
            ),
            other => match scalar_text(other) {
                Some(line_height) => Some(
                    FontSizeView {
                        size,
                        line_height: Some(line_height),
                        letter_spacing: None,
                        font_weight: None,
                    },
                ),
                None => None,
            },
        }
    } else {
        None
    }
}

/// Reads a font size from an array.
pub fn read_font_size(items: &Vec<JsonValue>) -> (r: Option<FontSize>)
    ensures
        match r {
            Some(f) => font_size_of(items@) == Some(f@),
            None => font_size_of(items@) is None,
        },
{
    if items.len() != 2 {
        return None;
    }
    let size = match scalar(&items[0]) {
        Some(s) => s.to_owned(),
        None => {
            return None;
        },
    };
    match &items[1] {
        JsonValue::Object(settings) => Some(
            FontSize {
                size,
                line_height: member(settings, "lineHeight"),
                letter_spacing: member(settings, "letterSpacing"),
                font_weight: member(settings, "fontWeight"),
            },
        ),
        other => match scalar(other) {
            Some(line_height) => Some(
                FontSize {
                    size,
                    line_height: Some(line_height.to_owned()),
                    letter_spacing: None,
                    font_weight: None,
                },
            ),
            None => None,
        },
    }
}

/// The families of an array of strings, joined by commas; nothing if a
/// member is no string or the array is empty.
pub open spec fn families(items: Seq<JsonValue>) -> Option<Seq<char>>
    decreases items.len(),
{
    if items.len() == 0 {
        None
    } else {
        match items.last() {
            JsonValue::String(name) => if items.len() == 1 {
                Some(name@)
            } else {
                match families(items.drop_last()) {
                    Some(front) => Some(front + seq![',', ' '] + name@),
                    None => None,
                }
            },
            _ => None,
        }
    }
}

/// A family that is missing among the first items is missing in all.
pub proof fn lemma_families_fail(items: Seq<JsonValue>, n: int)
    requires
        1 <= n <= items.len(),
        families(items.take(n)) is None,
    ensures
        families(items) is None,
    decreases items.len() - n,
{
    if n == items.len() {
        assert(items.take(n) =~= items);
    } else {
        assert(items.take(n + 1).drop_last() =~= items.take(n));
        lemma_families_fail(items, n + 1);
    }
}

/// Joins the families of an array of strings.
pub fn read_families(items: &Vec<JsonValue>) -> (r: Option<String>)
    ensures
        crate::theme::opt_text(r) == families(items@),
{
    if items.len() == 0 {
        return None;
    }
    let mut family = String::new();
    let mut i: usize = 0;
    proof {
        reveal_strlit(", ");
        assert(", "@ =~= seq![',', ' ']);
    }
    while i < items.len()
        invariant
            i <= items@.len(),
            ", "@ == seq![',', ' '],
            i == 0 ==> family@.len() == 0,
            i > 0 ==> families(items@.take(i as int)) == Some(family@),
        decreases items@.len() - i,
    {
        proof {
            assert(items@.take(i + 1).drop_last() =~= items@.take(i as int));
            assert(items@.take(i + 1).last() == items@[i as int]);
        }
        match &items[i] {
            JsonValue::String(name) => {
                let ghost before = family@;
                if i > 0 {
                    family.append(", ");
                }
                family.append(name.as_str());
                proof {
                    if i == 0 {
                        assert(family@ =~= name@);
                    } else {
                        assert(family@ =~= before + seq![',', ' '] + name@);
                    }
                }
            },
            _ => {
                proof {
                    lemma_families_fail(items@, i + 1);
                }
                return None;
            },
        }
        i += 1;
    }
    proof {
        assert(items@.take(i as int) =~= items@);
    }
    Some(family)
}

/// The family that a value names: a string, or an array of strings joined
/// by commas.
pub open spec fn family_text(v: JsonValue) -> Option<Seq<char>> {
    match v {
        JsonValue::String(s) => Some(s@),
        JsonValue::Array(items) => families(items@),
        _ => None,
    }
}

/// The font family that an array stands for: families with an object of
/// feature and variation settings, or else a list of families.
pub open spec fn font_family_of(items: Seq<JsonValue>) -> Option<FontFamilyView> {
    if items.len() == 2 && items[1] is Object {
        match family_text(items[0]) {
            Some(family) => Some(
                FontFamilyView {
                    family,
                    feature_settings: member_text(items[1]->Object_0@, "fontFeatureSettings"@),
                    variation_settings: member_text(items[1]->Object_0@, "fontVariationSettings"@),
                },
            ),
            None => None,
        }
    } else {
        match families(items) {
            Some(family) => Some(
                FontFamilyView { family, feature_settings: None, variation_settings: None },
            ),
            None => None,
        }
    }
}

/// Reads a font family from an array.
pub fn read_font_family(items: &Vec<JsonValue>) -> (r: Option<FontFamily>)
    ensures
        match r {
            Some(f) => font_family_of(items@) == Some(f@),
            None => font_family_of(items@) is None,
        },
{
    if items.len() == 2 {
        match &items[1] {
            JsonValue::Object(settings) => {
                let family = match &items[0] {
                    JsonValue::String(s) => Some(s.clone()),
                    JsonValue::Array(names) => read_families(names),
                    _ => None,
                };
                return match family {
                    Some(family) => Some(
                        FontFamily {
                            family,
                            feature_settings: member(settings, "fontFeatureSettings"),
                            variation_settings: member(settings, "fontVariationSettings"),
                        },
                    ),
                    None => None,
                };
            },
            _ => {},
        }
    }
    match read_families(items) {
        Some(family) => Some(FontFamily { family, feature_settings: None, variation_settings: None }),
        None => None,
    }
}

/// The declarations of an object: each member that is a string or a
/// number, in order.
pub open spec fn decls_of(members: Seq<(String, JsonValue)>) -> Seq<NodeView>
    decreases members.len(),
{
    if members.len() == 0 {
        Seq::empty()
    } else {
        let front = decls_of(members.drop_last());
        match scalar_text(members.last().1) {
            Some(value) => front.push(
                NodeView::Decl(DeclView { name: members.last().0@, value }),
            ),
            None => front,
        }
    }
}

/// Reads the declarations of an object.
pub fn read_decls(members: &Vec<(String, JsonValue)>) -> (nodes: Vec<AstNode>)
    ensures
        nodes_view(nodes@) == decls_of(members@),
{
    let mut nodes: Vec<AstNode> = Vec::new();
    let mut i: usize = 0;
    proof {
        assert(members@.take(0) =~= Seq::<(String, JsonValue)>::empty());
        assert(nodes_view(nodes@) =~= decls_of(members@.take(0)));
    }
    while i < members.len()
        invariant
            i <= members@.len(),
            nodes_view(nodes@) == decls_of(members@.take(i as int)),
        decreases members@.len() - i,
    {
        proof {
            assert(members@.take(i + 1).drop_last() =~= members@.take(i as int));
            assert(members@.take(i + 1).last() == members@[i as int]);
        }
        let ghost before = nodes_view(nodes@);
        match scalar(&members[i].1) {
            Some(value) => {
                let node = AstNode::decl(members[i].0.as_str(), value);
                nodes.push(node);
                assert(nodes_view(nodes@) =~= before.push(node@));
            },
            None => {},
        }
        i += 1;
    }
    proof {
        assert(members@.take(i as int) =~= members@);
    }
    nodes
}

/// The frames of an object of keyframes: each member that is an object,
/// as the rule of its declarations under the member's key.
pub open spec fn frames_of(members: Seq<(String, JsonValue)>) -> Seq<RuleView>
    decreases members.len(),
{
    if members.len() == 0 {
        Seq::empty()
    } else {
        let front = frames_of(members.drop_last());
        match members.last().1 {
            JsonValue::Object(decls) => front.push(
                RuleView { selector: members.last().0@, nodes: decls_of(decls@) },
            ),
            _ => front,
        }
    }
}

/// Reads the frames of an object of keyframes.
pub fn read_frames(members: &Vec<(String, JsonValue)>) -> (rules: Vec<Rule>)
    ensures
        rules_view(rules@) == frames_of(members@),
{
    let mut rules: Vec<Rule> = Vec::new();
    let mut i: usize = 0;
    proof {
        assert(members@.take(0) =~= Seq::<(String, JsonValue)>::empty());
        assert(rules_view(rules@) =~= frames_of(members@.take(0)));
    }
    while i < members.len()
        invariant
            i <= members@.len(),
            rules_view(rules@) == frames_of(members@.take(i as int)),
        decreases members@.len() - i,
    {
        proof {
            assert(members@.take(i + 1).drop_last() =~= members@.take(i as int));
            assert(members@.take(i + 1).last() == members@[i as int]);
        }
        let ghost before = rules_view(rules@);
        match &members[i].1 {
            JsonValue::Object(decls) => {
                let rule = Rule::new(members[i].0.as_str(), read_decls(decls));
                rules.push(rule);
                assert(rules_view(rules@) =~= before.push(rule@));
            },
            _ => {},
        }
        i += 1;
    }
    proof {
        assert(members@.take(i as int) =~= members@);
    }
    rules
}

/// The theme value that a JSON value stands for in a namespace. A string
/// or a number is a plain value. An array is a font size in `fontSize` and
/// a font family in `fontFamily`. An object is a set of keyframes in
/// `keyframes`. Anything else is no theme value.
pub open spec fn theme_value_of(namespace: Seq<char>, v: JsonValue) -> Option<ThemeValueView> {
    match v {
        JsonValue::String(s) => Some(ThemeValueView::Plain(s@)),
        JsonValue::Number(n) => Some(ThemeValueView::Plain(n@)),
        JsonValue::Array(items) => if namespace == "fontSize"@ {
            match font_size_of(items@) {
                Some(f) => Some(ThemeValueView::FontSize(f)),
                None => None,
            }
        } else if namespace == "fontFamily"@ {
            match font_family_of(items@) {
                Some(f) => Some(ThemeValueView::FontFamily(f)),
                None => None,
            }
        } else {
            None
        },
        JsonValue::Object(members) => if namespace == "keyframes"@ {
            Some(ThemeValueView::Keyframes(frames_of(members@)))
        } else {
            None
        },
        _ => None,
    }
}

/// Reads a theme value of a namespace.
pub fn read_theme_value(namespace: &str, v: &JsonValue) -> (r: Option<ThemeValue>)
    ensures
        match r {
            Some(t) => theme_value_of(namespace@, *v) == Some(t@),
            None => theme_value_of(namespace@, *v) is None,
        },
{
    match v {
        JsonValue::String(s) => Some(ThemeValue::Plain(s.clone())),
        JsonValue::Number(n) => Some(ThemeValue::Plain(n.clone())),
        JsonValue::Array(items) => {
            if same_text(namespace, "fontSize") {
                match read_font_size(items) {
                    Some(f) => Some(ThemeValue::FontSize(f)),
                    None => None,
                }
            } else if same_text(namespace, "fontFamily") {
                match read_font_family(items) {
                    Some(f) => Some(ThemeValue::FontFamily(f)),
                    None => None,
                }
            } else {
                None
            }
        },
        JsonValue::Object(members) => {
            if same_text(namespace, "keyframes") {
                Some(ThemeValue::Keyframes(read_frames(members)))
            } else {
                None
            }
        },
        _ => None,
    }
}

/// The table that the members of a namespace stand for: each member that
/// is a theme value of the namespace, under its key; any other member is
/// passed over.
pub open spec fn namespace_table(namespace: Seq<char>, members: Seq<(String, JsonValue)>) -> TableModel
    decreases members.len(),
{
    if members.len() == 0 {
        Map::empty()
    } else {
        let front = namespace_table(namespace, members.drop_last());
        match theme_value_of(namespace, members.last().1) {
            Some(v) => front.insert(members.last().0@, v),
            None => front,
        }
    }
}

/// Reads the table of a namespace.
pub fn read_namespace(namespace: &str, members: &Vec<(String, JsonValue)>) -> (table: ThemeTable)
    ensures
        table_model(table) == namespace_table(namespace@, members@),
{
    let mut table: ThemeTable = Table::new();
    let mut i: usize = 0;
    proof {
        assert(members@.take(0) =~= Seq::<(String, JsonValue)>::empty());
        assert(table_model(table) =~= namespace_table(namespace@, members@.take(0)));
    }
    while i < members.len()
        invariant
            i <= members@.len(),
            table_model(table) == namespace_table(namespace@, members@.take(i as int)),
        decreases members@.len() - i,
    {
        proof {
            assert(members@.take(i + 1).drop_last() =~= members@.take(i as int));
            assert(members@.take(i + 1).last() == members@[i as int]);
        }
        let ghost before = table;
        match read_theme_value(namespace, &members[i].1) {
            Some(value) => {
                let key = members[i].0.clone();
                table.insert(key, value);
                assert(table_model(table) =~= table_model(before).insert(key@, value@));
            },
            None => {},
        }
        i += 1;
    }
    proof {
        assert(members@.take(i as int) =~= members@);
    }
    table
}

/// The theme that the members of a document stand for. Each member is a
/// namespace and must be an object: `colors` a table of colors, any other
/// the table of its namespace. The first error counts.
pub open spec fn themes_of(members: Seq<(String, JsonValue)>) -> Result<ThemeModel, ParseErrorView>
    decreases members.len(),
{
    if members.len() == 0 {
        Ok(Map::empty())
    } else {
        match themes_of(members.drop_last()) {
            Err(e) => Err(e),
            Ok(front) => {
                let namespace = members.last().0@;
                match members.last().1 {
                    JsonValue::Object(inner) => if namespace == "colors"@ {
                        match flattened(inner@) {
                            Ok(table) => Ok(front.insert(namespace, table)),
                            Err(e) => Err(e),
                        }
                    } else {
                        Ok(front.insert(namespace, namespace_table(namespace, inner@)))
                    },
                    _ => Err(ParseErrorView::NotAnObject(namespace)),
                }
            },
        }
    }
}

/// An error among the first namespaces is the error of the document.
pub proof fn lemma_themes_fail(members: Seq<(String, JsonValue)>, n: int)
    requires
        0 <= n <= members.len(),
        themes_of(members.take(n)) is Err,
    ensures
        themes_of(members) == themes_of(members.take(n)),
    decreases members.len() - n,
{
    if n == members.len() {
        assert(members.take(n) =~= members);
    } else {
        assert(members.take(n + 1).drop_last() =~= members.take(n));
        lemma_themes_fail(members, n + 1);
    }
}

/// The content of the result of reading a theme.
pub open spec fn theme_result(r: Result<Theme, ThemeParseError>) -> Result<ThemeModel, ParseErrorView> {
    match r {
        Ok(t) => Ok(t.model()),
        Err(e) => Err(e@),
    }
}

/// Reads a theme from the members of a document.
pub fn read_theme(members: &Vec<(String, JsonValue)>) -> (r: Result<Theme, ThemeParseError>)
    ensures
        theme_result(r) == themes_of(members@),
{
    let mut theme = Theme::default();
    let mut i: usize = 0;
    proof {
        assert(members@.take(0) =~= Seq::<(String, JsonValue)>::empty());
    }
    while i < members.len()
        invariant
            i <= members@.len(),
            themes_of(members@.take(i as int)) == Ok::<ThemeModel, ParseErrorView>(theme.model()),
        decreases members@.len() - i,
    {
        proof {
            assert(members@.take(i + 1).drop_last() =~= members@.take(i as int));
            assert(members@.take(i + 1).last() == members@[i as int]);
        }
        let namespace = members[i].0.as_str();
        match &members[i].1 {
            JsonValue::Object(inner) => {
                if same_text(namespace, "colors") {
                    match flatten_colors(inner) {
                        Ok(table) => {
                            theme.insert(namespace.to_owned(), table);
                        },
                        Err(e) => {
                            proof {
                                lemma_themes_fail(members@, i + 1);
                            }
                            return Err(e);
                        },
                    }
                } else {
                    theme.insert(namespace.to_owned(), read_namespace(namespace, inner));
                }
            },
            _ => {
                proof {
                    lemma_themes_fail(members@, i + 1);
                }
                return Err(ThemeParseError::NotAnObject(namespace.to_owned()));
            },
        }
        i += 1;
    }
    proof {
        assert(members@.take(i as int) =~= members@);
    }
    Ok(theme)
}

impl Theme {
    /// Reads a theme from a JSON document, which must be an object of
    /// namespaces.
    pub fn from_json(value: &JsonValue) -> (r: Result<Theme, ThemeParseError>)
        ensures
            match value {
                JsonValue::Object(members) => theme_result(r) == themes_of(members@),
                _ => theme_result(r) == Err::<ThemeModel, ParseErrorView>(
                    ParseErrorView::NotAnObject("theme"@),
                ),
            },
    {
        match value {
            JsonValue::Object(members) => read_theme(members),
            _ => Err(ThemeParseError::NotAnObject("theme".to_owned())),
        }
    }
}

/// Why a utility of a configuration could not be read.
#[derive(Debug, PartialEq)]
pub enum ConfigError {
    /// The utility is no object.
    NotAnObject,
    /// The utility has a member that utilities do not have.
    UnknownField(String),
    /// The member has the wrong shape, or names something that does not
    /// exist.
    InvalidField(String),
    /// The member is missing.
    MissingField(String),
}

/// The mathematical content of a [`ConfigError`].
pub ghost enum ConfigErrorView {
    NotAnObject,
    UnknownField(Seq<char>),
    InvalidField(Seq<char>),
    MissingField(Seq<char>),
}

impl View for ConfigError {
    type V = ConfigErrorView;

    open spec fn view(&self) -> ConfigErrorView {
        match self {
            ConfigError::NotAnObject => ConfigErrorView::NotAnObject,
            ConfigError::UnknownField(f) => ConfigErrorView::UnknownField(f@),
            ConfigError::InvalidField(f) => ConfigErrorView::InvalidField(f@),
            ConfigError::MissingField(f) => ConfigErrorView::MissingField(f@),
        }
    }
}

impl ConfigError {
    /// The error as a message.
    pub open spec fn message(&self) -> Seq<char> {
        match self {
            ConfigError::NotAnObject => "a utility must be an object"@,
            ConfigError::UnknownField(f) => "unknown field: "@ + f@,
            ConfigError::InvalidField(f) => "invalid field: "@ + f@,
            ConfigError::MissingField(f) => "missing field: "@ + f@,
        }
    }

    /// The error as a message.
    pub fn to_string(&self) -> (s: String)
        ensures
            s@ == self.message(),
    {
        match self {
            ConfigError::NotAnObject => "a utility must be an object".to_owned(),
            ConfigError::UnknownField(f) => crate::text::join2("unknown field: ", f.as_str()),
            ConfigError::InvalidField(f) => crate::text::join2("invalid field: ", f.as_str()),
            ConfigError::MissingField(f) => crate::text::join2("missing field: ", f.as_str()),
        }
    }
}

/// The templates of an object of declarations: each member that is a
/// string, as a declaration whose value is made by the member's template.
pub open spec fn css_templates(members: Seq<(String, JsonValue)>) -> Seq<DeclTemplateView>
    decreases members.len(),
{
    if members.len() == 0 {
        Seq::empty()
    } else {
        let front = css_templates(members.drop_last());
        match members.last().1 {
            JsonValue::String(t) => front.push(
                DeclTemplateView { name: members.last().0@, value: template_of(t@) },
            ),
            _ => front,
        }
    }
}

/// Reads the templates of an object of declarations.
pub fn read_templates(members: &Vec<(String, JsonValue)>) -> (v: Vec<DeclTemplate>)
    ensures
        templates_view(v@) == css_templates(members@),
{
    let mut v: Vec<DeclTemplate> = Vec::new();
    let mut i: usize = 0;
    proof {
        assert(members@.take(0) =~= Seq::<(String, JsonValue)>::empty());
        assert(templates_view(v@) =~= css_templates(members@.take(0)));
    }
    while i < members.len()
        invariant
            i <= members@.len(),
            templates_view(v@) == css_templates(members@.take(i as int)),
        decreases members@.len() - i,
    {
        proof {
            assert(members@.take(i + 1).drop_last() =~= members@.take(i as int));
            assert(members@.take(i + 1).last() == members@[i as int]);
        }
        let ghost before = templates_view(v@);
        match &members[i].1 {
            JsonValue::String(t) => {
                let d = DeclTemplate { name: members[i].0.clone(), value: DeclValue::parse(t.as_str()) };
                v.push(d);
                assert(templates_view(v@) =~= before.push(d@));
            },
            _ => {},
        }
        i += 1;
    }
    proof {
        assert(members@.take(i as int) =~= members@);
    }
    v
}

/// The builder that nothing was read into yet.
pub open spec fn blank_builder() -> UtilityBuilderView {
    UtilityBuilderView {
        key: Seq::empty(),
        handler: None,
        modifier: None,
        theme_keys: Seq::empty(),
        validator: None,
        wrapper: None,
        supports_negative: false,
        supports_fraction: false,
        opacity_modifier: false,
        ordering_key: None,
        additional_css: None,
        group: None,
    }
}

/// The modifier that an object stands for: its `theme` names the table of
/// the modifiers, its `type` their validator.
pub open spec fn modifier_of(members: Seq<(String, JsonValue)>) -> Result<
    (Seq<Seq<char>>, Option<Validator>),
    ConfigErrorView,
>
    decreases members.len(),
{
    if members.len() == 0 {
        Ok((Seq::empty(), None))
    } else {
        match modifier_of(members.drop_last()) {
            Err(e) => Err(e),
            Ok((keys, validator)) => {
                let field = members.last().0@;
                match members.last().1 {
                    JsonValue::String(s) => if field == "theme"@ {
                        Ok((seq![s@], validator))
                    } else if field == "type"@ {
                        match Validator::named(s@) {
                            Some(v) => Ok((keys, Some(v))),
                            None => Err(ConfigErrorView::InvalidField(field)),
                        }
                    } else {
                        Err(ConfigErrorView::UnknownField(field))
                    },
                    _ => if field == "theme"@ || field == "type"@ {
                        Err(ConfigErrorView::InvalidField(field))
                    } else {
                        Err(ConfigErrorView::UnknownField(field))
                    },
                }
            },
        }
    }
}

/// An error among the first members is the error of all members.
pub proof fn lemma_modifier_fails(members: Seq<(String, JsonValue)>, n: int)
    requires
        0 <= n <= members.len(),
        modifier_of(members.take(n)) is Err,
    ensures
        modifier_of(members) == modifier_of(members.take(n)),
    decreases members.len() - n,
{
    if n == members.len() {
        assert(members.take(n) =~= members);
    } else {
        assert(members.take(n + 1).drop_last() =~= members.take(n));
        lemma_modifier_fails(members, n + 1);
    }
}

/// Reads a modifier from the members of an object.
pub fn read_modifier_repr(members: &Vec<(String, JsonValue)>) -> (r: Result<RawValueRepr, ConfigError>)
    ensures
        match r {
            Ok(m) => modifier_of(members@) == Ok::<
                (Seq<Seq<char>>, Option<Validator>),
                ConfigErrorView,
            >((string_texts(m.theme_keys@), m.validator)),
            Err(e) => modifier_of(members@) == Err::<
                (Seq<Seq<char>>, Option<Validator>),
                ConfigErrorView,
            >(e@),
        },
{
    let mut repr = RawValueRepr { theme_keys: Vec::new(), validator: None };
    let mut i: usize = 0;
    proof {
        assert(members@.take(0) =~= Seq::<(String, JsonValue)>::empty());
        assert(string_texts(repr.theme_keys@) =~= Seq::<Seq<char>>::empty());
    }
    while i < members.len()
        invariant
            i <= members@.len(),
            modifier_of(members@.take(i as int)) == Ok::<
                (Seq<Seq<char>>, Option<Validator>),
                ConfigErrorView,
            >((string_texts(repr.theme_keys@), repr.validator)),
        decreases members@.len() - i,
    {
        proof {
            assert(members@.take(i + 1).drop_last() =~= members@.take(i as int));
            assert(members@.take(i + 1).last() == members@[i as int]);
        }
        let field = members[i].0.as_str();
        let is_theme = same_text(field, "theme");
        let is_type = same_text(field, "type");
        match &members[i].1 {
            JsonValue::String(s) => {
                if is_theme {
                    let mut keys: Vec<String> = Vec::new();
                    keys.push(s.clone());
                    assert(string_texts(keys@) =~= seq![s@]);
                    repr.theme_keys = keys;
                } else if is_type {
                    match Validator::from_name(s.as_str()) {
                        Some(v) => {
                            repr.validator = Some(v);
                        },
                        None => {
                            proof {
                                lemma_modifier_fails(members@, i + 1);
                            }
                            return Err(ConfigError::InvalidField(field.to_owned()));
                        },
                    }
                } else {
                    proof {
                        lemma_modifier_fails(members@, i + 1);
                    }
                    return Err(ConfigError::UnknownField(field.to_owned()));
                }
            },
            _ => {
                proof {
                    lemma_modifier_fails(members@, i + 1);
                }
                if is_theme || is_type {
                    return Err(ConfigError::InvalidField(field.to_owned()));
                } else {
                    return Err(ConfigError::UnknownField(field.to_owned()));
                }
            },
        }
        i += 1;
    }
    proof {
        assert(members@.take(i as int) =~= members@);
    }
    Ok(repr)
}

/// The builder with one member of a utility read into it. The members are
/// `key`, `css`, `theme`, `type`, `modifier`, `wrapper`,
/// `supportsNegative`, `supportsFraction`, `orderingKey` and `group`; any
/// other is an error, and so is a member of the wrong shape.
pub open spec fn field_applied(b: UtilityBuilderView, field: Seq<char>, value: JsonValue) -> Result<
    UtilityBuilderView,
    ConfigErrorView,
> {
    let invalid = Err::<UtilityBuilderView, ConfigErrorView>(ConfigErrorView::InvalidField(field));
    if field == "key"@ {
        match value {
            JsonValue::String(s) => Ok(UtilityBuilderView { key: s@, ..b }),
            _ => invalid,
        }
    } else if field == "css"@ {
        match value {
            JsonValue::Object(members) => Ok(
                UtilityBuilderView {
                    handler: Some(UtilityHandlerView::Decls(css_templates(members@))),
                    ..b
                },
            ),
            _ => invalid,
        }
    } else if field == "theme"@ {
        match value {
            JsonValue::String(s) => Ok(UtilityBuilderView { theme_keys: seq![s@], ..b }),
            _ => invalid,
        }
    } else if field == "type"@ {
        match value {
            JsonValue::String(s) => match Validator::named(s@) {
                Some(v) => Ok(UtilityBuilderView { validator: Some(v), ..b }),
                None => invalid,
            },
            _ => invalid,
        }
    } else if field == "modifier"@ {
        match value {
            JsonValue::Object(members) => match modifier_of(members@) {
                Ok(m) => Ok(UtilityBuilderView { modifier: Some(m), ..b }),
                Err(e) => Err(e),
            },
            _ => invalid,
        }
    } else if field == "wrapper"@ {
        match value {
            JsonValue::String(s) => Ok(UtilityBuilderView { wrapper: Some(s@), ..b }),
            _ => invalid,
        }
    } else if field == "supportsNegative"@ {
        match value {
            JsonValue::Bool(x) => Ok(UtilityBuilderView { supports_negative: x, ..b }),
            _ => invalid,
        }
    } else if field == "supportsFraction"@ {
        match value {
            JsonValue::Bool(x) => Ok(UtilityBuilderView { supports_fraction: x, ..b }),
            _ => invalid,
        }
    } else if field == "orderingKey"@ {
        match value {
            JsonValue::String(s) => match OrderingKey::named(s@) {
                Some(k) => Ok(UtilityBuilderView { ordering_key: Some(k), ..b }),
                None => invalid,
            },
            _ => invalid,
        }
    } else if field == "group"@ {
        match value {
            JsonValue::String(s) => match UtilityGroup::named(s@) {
                Some(g) => Ok(UtilityBuilderView { group: Some(g), ..b }),
                None => invalid,
            },
            _ => invalid,
        }
    } else {
        Err(ConfigErrorView::UnknownField(field))
    }
}

/// The content of the result of reading into a builder.
pub open spec fn builder_result(r: Result<UtilityBuilder, ConfigError>) -> Result<
    UtilityBuilderView,
    ConfigErrorView,
> {
    match r {
        Ok(b) => Ok(b@),
        Err(e) => Err(e@),
    }
}

/// Reads one member of a utility into a builder.
pub fn set_field(b: UtilityBuilder, field: &str, value: &JsonValue) -> (r: Result<
    UtilityBuilder,
    ConfigError,
>)
    ensures
        builder_result(r) == field_applied(b@, field@, *value),
{
    let mut b = b;
    if same_text(field, "key") {
        match value {
            JsonValue::String(s) => {
                b.key = s.clone();
                Ok(b)
            },
            _ => Err(ConfigError::InvalidField(field.to_owned())),
        }
    } else if same_text(field, "css") {
        match value {
            JsonValue::Object(members) => {
                b.handler = Some(UtilityHandler::Decls(read_templates(members)));
                Ok(b)
            },
            _ => Err(ConfigError::InvalidField(field.to_owned())),
        }
    } else if same_text(field, "theme") {
        match value {
            JsonValue::String(s) => {
                let mut keys: Vec<String> = Vec::new();
                keys.push(s.clone());
                assert(string_texts(keys@) =~= seq![s@]);
                b.theme_keys = keys;
                Ok(b)
            },
            _ => Err(ConfigError::InvalidField(field.to_owned())),
        }
    } else if same_text(field, "type") {
        match value {
            JsonValue::String(s) => match Validator::from_name(s.as_str()) {
                Some(v) => {
                    b.validator = Some(v);
                    Ok(b)
                },
                None => Err(ConfigError::InvalidField(field.to_owned())),
            },
            _ => Err(ConfigError::InvalidField(field.to_owned())),
        }
    } else if same_text(field, "modifier") {
        match value {
            JsonValue::Object(members) => match read_modifier_repr(members) {
                Ok(m) => {
                    b.modifier = Some(m);
                    Ok(b)
                },
                Err(e) => Err(e),
            },
            _ => Err(ConfigError::InvalidField(field.to_owned())),
        }
    } else if same_text(field, "wrapper") {
        match value {
            JsonValue::String(s) => {
                b.wrapper = Some(s.clone());
                Ok(b)
            },
            _ => Err(ConfigError::InvalidField(field.to_owned())),
        }
    } else if same_text(field, "supportsNegative") {
        match value {
            JsonValue::Bool(x) => {
                b.supports_negative = *x;
                Ok(b)
            },
            _ => Err(ConfigError::InvalidField(field.to_owned())),
        }
    } else if same_text(field, "supportsFraction") {
        match value {
            JsonValue::Bool(x) => {
                b.supports_fraction = *x;
                Ok(b)
            },
            _ => Err(ConfigError::InvalidField(field.to_owned())),
        }
    } else if same_text(field, "orderingKey") {
        match value {
            JsonValue::String(s) => match OrderingKey::from_name(s.as_str()) {
                Some(k) => {
                    b.ordering_key = Some(k);
                    Ok(b)
                },
                None => Err(ConfigError::InvalidField(field.to_owned())),
            },
            _ => Err(ConfigError::InvalidField(field.to_owned())),
        }
    } else if same_text(field, "group") {
        match value {
            JsonValue::String(s) => match UtilityGroup::from_name(s.as_str()) {
                Some(g) => {
                    b.group = Some(g);
                    Ok(b)
                },
                None => Err(ConfigError::InvalidField(field.to_owned())),
            },
            _ => Err(ConfigError::InvalidField(field.to_owned())),
        }
    } else {
        Err(ConfigError::UnknownField(field.to_owned()))
    }
}

/// The builder with the members of a utility read into it, in their
/// order; the first error counts.
pub open spec fn fields_applied(members: Seq<(String, JsonValue)>) -> Result<
    UtilityBuilderView,
    ConfigErrorView,
>
    decreases members.len(),
{
    if members.len() == 0 {
        Ok(blank_builder())
    } else {
        match fields_applied(members.drop_last()) {
            Err(e) => Err(e),
            Ok(b) => field_applied(b, members.last().0@, members.last().1),
        }
    }
}

/// An error among the first members is the error of all members.
pub proof fn lemma_fields_fail(members: Seq<(String, JsonValue)>, n: int)
    requires
        0 <= n <= members.len(),
        fields_applied(members.take(n)) is Err,
    ensures
        fields_applied(members) == fields_applied(members.take(n)),
    decreases members.len() - n,
{
    if n == members.len() {
        assert(members.take(n) =~= members);
    } else {
        assert(members.take(n + 1).drop_last() =~= members.take(n));
        lemma_fields_fail(members, n + 1);
    }
}

/// The utility that a JSON value stands for: an object of the members of
/// a utility, with at least a key and declarations.
pub open spec fn utility_of(value: JsonValue) -> Result<UtilityBuilderView, ConfigErrorView> {
    match value {
        JsonValue::Object(members) => match fields_applied(members@) {
            Err(e) => Err(e),
            Ok(b) => if b.key.len() == 0 {
                Err(ConfigErrorView::MissingField("key"@))
            } else if b.handler is None {
                Err(ConfigErrorView::MissingField("css"@))
            } else {
                Ok(b)
            },
        },
        _ => Err(ConfigErrorView::NotAnObject),
    }
}

/// Reads the members of a utility into a builder.
pub fn read_fields(members: &Vec<(String, JsonValue)>) -> (r: Result<UtilityBuilder, ConfigError>)
    ensures
        builder_result(r) == fields_applied(members@),
{
    let mut b = UtilityBuilder {
        key: String::new(),
        handler: None,
        modifier: None,
        theme_keys: Vec::new(),
        validator: None,
        wrapper: None,
        supports_negative: false,
        supports_fraction: false,
        opacity_modifier: false,
        ordering_key: None,
        additional_css: None,
        group: None,
    };
    let mut i: usize = 0;
    proof {
        assert(members@.take(0) =~= Seq::<(String, JsonValue)>::empty());
        assert(string_texts(b.theme_keys@) =~= Seq::<Seq<char>>::empty());
        assert(b@ == blank_builder());
    }
    while i < members.len()
        invariant
            i <= members@.len(),
            fields_applied(members@.take(i as int)) == Ok::<UtilityBuilderView, ConfigErrorView>(b@),
        decreases members@.len() - i,
    {
        proof {
            assert(members@.take(i + 1).drop_last() =~= members@.take(i as int));
            assert(members@.take(i + 1).last() == members@[i as int]);
        }
        let ghost before = b@;
        match set_field(b, members[i].0.as_str(), &members[i].1) {
            Ok(next) => {
                b = next;
            },
            Err(e) => {
                proof {
                    assert(fields_applied(members@.take(i + 1)) == field_applied(
                        before,
                        members@[i as int].0@,
                        members@[i as int].1,
                    ));
                    lemma_fields_fail(members@, i + 1);
                }
                return Err(e);
            },
        }
        i += 1;
    }
    proof {
        assert(members@.take(i as int) =~= members@);
    }
    Ok(b)
}

impl UtilityBuilder {
    /// Reads a utility from a JSON value.
    pub fn from_json(value: &JsonValue) -> (r: Result<UtilityBuilder, ConfigError>)
        ensures
            builder_result(r) == utility_of(*value),
    {
        match value {
            JsonValue::Object(members) => match read_fields(members) {
                Err(e) => Err(e),
                Ok(b) => {
                    if b.key.as_str().unicode_len() == 0 {
                        Err(ConfigError::MissingField("key".to_owned()))
                    } else if b.handler.is_none() {
                        Err(ConfigError::MissingField("css".to_owned()))
                    } else {
                        Ok(b)
                    }
                },
            },
            _ => Err(ConfigError::NotAnObject),
        }
    }
}

/// The utilities without a value that an object stands for: each member
/// that is an object, as the utility of its declarations under the
/// member's key; any other member is passed over.
pub open spec fn static_utilities_of(members: Seq<(String, JsonValue)>) -> Seq<UtilityBuilderView>
    decreases members.len(),
{
    if members.len() == 0 {
        Seq::empty()
    } else {
        let front = static_utilities_of(members.drop_last());
        match members.last().1 {
            JsonValue::Object(decls) => front.push(
                UtilityBuilderView {
                    key: members.last().0@,
                    handler: Some(UtilityHandlerView::Static(decls_of(decls@))),
                    ..blank_builder()
                },
            ),
            _ => front,
        }
    }
}

/// Reads the utilities without a value from the members of an object.
pub fn read_static_utilities(members: &Vec<(String, JsonValue)>) -> (v: Vec<UtilityBuilder>)
    ensures
        crate::preset::helpers::builders_view(v@) == static_utilities_of(members@),
        crate::preset::helpers::all_handled(crate::preset::helpers::builders_view(v@)),
{
    let mut v: Vec<UtilityBuilder> = Vec::new();
    let mut i: usize = 0;
    proof {
        assert(members@.take(0) =~= Seq::<(String, JsonValue)>::empty());
        assert(crate::preset::helpers::builders_view(v@) =~= static_utilities_of(members@.take(0)));
    }
    while i < members.len()
        invariant
            i <= members@.len(),
            crate::preset::helpers::builders_view(v@) == static_utilities_of(
                members@.take(i as int),
            ),
            crate::preset::helpers::all_handled(crate::preset::helpers::builders_view(v@)),
        decreases members@.len() - i,
    {
        proof {
            assert(members@.take(i + 1).drop_last() =~= members@.take(i as int));
            assert(members@.take(i + 1).last() == members@[i as int]);
        }
        let ghost before = crate::preset::helpers::builders_view(v@);
        match &members[i].1 {
            JsonValue::Object(decls) => {
                let b = UtilityBuilder::new(
                    members[i].0.as_str(),
                    UtilityHandler::Static(read_decls(decls)),
                );
                v.push(b);
                proof {
                    let after = crate::preset::helpers::builders_view(v@);
                    assert(after =~= before.push(b@));
                    assert forall|k: int| 0 <= k < after.len() implies (
                    #[trigger] after[k]).handler is Some by {
                        if k < before.len() {
                            assert(after[k] == before[k]);
                        }
                    }
                }
            },
            _ => {},
        }
        i += 1;
    }
    proof {
        assert(members@.take(i as int) =~= members@);
    }
    v
}

} // verus!

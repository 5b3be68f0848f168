//! Values on their way into declarations: decoding of arbitrary values,
//! the opacity shortcut for colors, and the templates of declarations.

use vstd::prelude::*;
use vstd::string::*;
use crate::css::{nodes_view, AstNode, Decl, DeclView, NodeView};
use crate::text::{chars_of, join3};
use crate::writer::push_char;

verus! {

/// An arbitrary value as CSS text: an underscore stands for a blank,
/// unless a backslash stands before it, which then goes away.
pub open spec fn decoded(s: Seq<char>) -> Seq<char>
    decreases s.len(),
{
    if s.len() == 0 {
        s
    } else if s[0] == '\\' && s.len() >= 2 && s[1] == '_' {
        seq!['_'] + decoded(s.subrange(2, s.len() as int))
    } else if s[0] == '_' {
        seq![' '] + decoded(s.drop_first())
    } else {
        seq![s[0]] + decoded(s.drop_first())
    }
}

/// Decodes an arbitrary value.
pub fn decode_arbitrary_value(raw: &str) -> (value: String)
    ensures
        value@ == decoded(raw@),
{
    let v = chars_of(raw);
    let mut out = String::new();
    let mut i: usize = 0;
    proof {
        assert(v@.subrange(0, v@.len() as int) =~= v@);
        assert(out@ + decoded(v@) =~= decoded(v@));
    }
    while i < v.len()
        invariant
            i <= v@.len(),
            v@ == raw@,
            out@ + decoded(v@.subrange(i as int, v@.len() as int)) == decoded(v@),
        decreases v@.len() - i,
    {
        let ghost rest = v@.subrange(i as int, v@.len() as int);
        let ghost before = out@;
        if v[i] == '\\' && i + 1 < v.len() && v[i + 1] == '_' {
            push_char(&mut out, '_');
            proof {
                assert(rest.subrange(2, rest.len() as int) =~= v@.subrange(i + 2, v@.len() as int));
                assert(out@ + decoded(v@.subrange(i + 2, v@.len() as int)) =~= before + decoded(
                    rest,
                ));
            }
            i += 2;
        } else {
            let c = if v[i] == '_' {
                ' '
            } else {
                v[i]
            };
            push_char(&mut out, c);
            proof {
                assert(rest.drop_first() =~= v@.subrange(i + 1, v@.len() as int));
                assert(out@ + decoded(v@.subrange(i + 1, v@.len() as int)) =~= before + decoded(
                    rest,
                ));
            }
            i += 1;
        }
    }
    proof {
        assert(v@.subrange(i as int, v@.len() as int) =~= Seq::<char>::empty());
        assert(out@ =~= out@ + decoded(v@.subrange(i as int, v@.len() as int)));
    }
    out
}

/// A decimal digit.
pub open spec fn is_digit(c: char) -> bool {
    '0' <= c && c <= '9'
}

/// The number of positions of `s` that hold `c`.
pub open spec fn count_char(s: Seq<char>, c: char) -> nat
    decreases s.len(),
{
    if s.len() == 0 {
        0
    } else {
        count_char(s.drop_last(), c) + (if s.last() == c {
            1nat
        } else {
            0nat
        })
    }
}

/// A plain decimal number: digits with at most one point among them, and
/// at least one digit.
pub open spec fn is_number(s: Seq<char>) -> bool {
    &&& forall|i: int| 0 <= i < s.len() ==> is_digit(#[trigger] s[i]) || s[i] == '.'
    &&& count_char(s, '.') <= 1
    &&& count_char(s, '.') < s.len()
}

/// Whether `s` is a plain decimal number.
pub fn check_number(s: &str) -> (r: bool)
    ensures
        r == is_number(s@),
{
    let v = chars_of(s);
    let mut points: usize = 0;
    let mut i: usize = 0;
    while i < v.len()
        invariant
            i <= v@.len(),
            v@ == s@,
            points == count_char(v@.take(i as int), '.'),
            points <= i,
            forall|j: int| 0 <= j < i ==> is_digit(#[trigger] v@[j]) || v@[j] == '.',
        decreases v@.len() - i,
    {
        let c = v[i];
        proof {
            assert(v@.take(i + 1).drop_last() =~= v@.take(i as int));
        }
        if c == '.' {
            points += 1;
        } else if !('0' <= c && c <= '9') {
            return false;
        }
        i += 1;
    }
    proof {
        assert(v@.take(i as int) =~= v@);
    }
    points <= 1 && points < v.len()
}

/// The percentage that an opacity modifier stands for: the modifier
/// itself, where it is a number.
pub open spec fn opacity_percent(modifier: Option<Seq<char>>) -> Option<Seq<char>> {
    match modifier {
        Some(m) => if is_number(m) {
            Some(m)
        } else {
            None
        },
        None => None,
    }
}

/// A color with the opacity of its modifier mixed in; without a numeric
/// modifier, the color itself.
pub open spec fn color_text(value: Seq<char>, modifier: Option<Seq<char>>) -> Seq<char> {
    match opacity_percent(modifier) {
        Some(n) => "color-mix(in srgb, "@ + value + " "@ + n + "%, transparent)"@,
        None => value,
    }
}

/// The text of an optional string slice.
pub open spec fn opt_str_text(s: Option<&str>) -> Option<Seq<char>> {
    match s {
        Some(s) => Some(s@),
        None => None,
    }
}

/// A color with the opacity of its modifier mixed in.
pub fn as_color(value: &str, modifier: Option<&str>) -> (color: String)
    ensures
        color@ == color_text(value@, opt_str_text(modifier)),
{
    match modifier {
        Some(m) => {
            if check_number(m) {
                let mut s = join3("color-mix(in srgb, ", value, " ");
                s.append(m);
                s.append("%, transparent)");
                s
            } else {
                value.to_owned()
            }
        },
        None => value.to_owned(),
    }
}

/// How the value of a declaration is made from the value of the utility.
#[derive(Debug, PartialEq)]
pub enum DeclValue {
    /// A fixed text.
    Fixed(String),
    /// The value itself.
    Value,
    /// The value as a color, with the opacity of the modifier.
    Color,
    /// The value between two fixed texts.
    Wrapped(String, String),
}

/// The mathematical content of a [`DeclValue`].
pub ghost enum DeclValueView {
    Fixed(Seq<char>),
    Value,
    Color,
    Wrapped(Seq<char>, Seq<char>),
}

impl View for DeclValue {
    type V = DeclValueView;

    open spec fn view(&self) -> DeclValueView {
        match self {
            DeclValue::Fixed(s) => DeclValueView::Fixed(s@),
            DeclValue::Value => DeclValueView::Value,
            DeclValue::Color => DeclValueView::Color,
            DeclValue::Wrapped(a, b) => DeclValueView::Wrapped(a@, b@),
        }
    }
}

/// The first place at or after `from` where `$1` stands in `t`; the
/// length of `t` if it stands nowhere.
pub open spec fn placeholder_from(t: Seq<char>, from: int) -> int
    decreases t.len() - from,
{
    if from < 0 || from + 1 >= t.len() {
        t.len() as int
    } else if t[from] == '$' && t[from + 1] == '1' {
        from
    } else {
        placeholder_from(t, from + 1)
    }
}

/// `placeholder_from` points at or after `from`, and inside `t` at `$1`.
pub proof fn lemma_placeholder_from(t: Seq<char>, from: int)
    requires
        0 <= from <= t.len(),
    ensures
        from <= placeholder_from(t, from) <= t.len(),
        placeholder_from(t, from) < t.len() ==> placeholder_from(t, from) + 2 <= t.len(),
    decreases t.len() - from,
{
    if from + 1 < t.len() && !(t[from] == '$' && t[from + 1] == '1') {
        lemma_placeholder_from(t, from + 1);
    }
}

/// What a template stands for, where `$1` is the place of the value: the
/// value itself, the value between the texts around the first `$1`, or a
/// fixed text if there is no `$1`.
pub open spec fn template_of(t: Seq<char>) -> DeclValueView {
    let p = placeholder_from(t, 0);
    if p >= t.len() {
        DeclValueView::Fixed(t)
    } else if t.len() == 2 {
        DeclValueView::Value
    } else {
        DeclValueView::Wrapped(t.subrange(0, p), t.subrange(p + 2, t.len() as int))
    }
}

impl DeclValueView {
    /// The text of the declaration's value.
    pub open spec fn render(self, value: Seq<char>, modifier: Option<Seq<char>>) -> Seq<char> {
        match self {
            DeclValueView::Fixed(s) => s,
            DeclValueView::Value => value,
            DeclValueView::Color => color_text(value, modifier),
            DeclValueView::Wrapped(a, b) => a + value + b,
        }
    }
}

impl DeclValue {
    /// Reads a template, where `$1` is the place of the value.
    pub fn parse(template: &str) -> (v: DeclValue)
        ensures
            v@ == template_of(template@),
    {
        let t = chars_of(template);
        let n = t.len();
        let mut p: usize = 0;
        proof {
            lemma_placeholder_from(t@, 0);
        }
        while n >= 2 && p < n - 1
            invariant
                n == t@.len(),
                p <= n,
                t@ == template@,
                placeholder_from(t@, 0) == placeholder_from(t@, p as int),
            decreases n - p,
        {
            if t[p] == '$' && t[p + 1] == '1' {
                if n == 2 {
                    return DeclValue::Value;
                }
                return DeclValue::Wrapped(
                    crate::text::slice_text(&t, 0, p),
                    crate::text::slice_text(&t, p + 2, n),
                );
            }
            p += 1;
        }
        DeclValue::Fixed(template.to_owned())
    }

    /// The text of the declaration's value.
    pub fn render(&self, value: &str, modifier: Option<&str>) -> (text: String)
        ensures
            text@ == self@.render(value@, opt_str_text(modifier)),
    {
        match self {
            DeclValue::Fixed(s) => s.clone(),
            DeclValue::Value => value.to_owned(),
            DeclValue::Color => as_color(value, modifier),
            DeclValue::Wrapped(a, b) => join3(a.as_str(), value, b.as_str()),
        }
    }
}

impl Clone for DeclValue {
    fn clone(&self) -> (c: DeclValue)
        ensures
            c@ == self@,
    {
        match self {
            DeclValue::Fixed(s) => DeclValue::Fixed(s.clone()),
            DeclValue::Value => DeclValue::Value,
            DeclValue::Color => DeclValue::Color,
            DeclValue::Wrapped(a, b) => DeclValue::Wrapped(a.clone(), b.clone()),
        }
    }
}

/// A declaration whose value is made from the value of the utility.
#[derive(Debug, PartialEq)]
pub struct DeclTemplate {
    pub name: String,
    pub value: DeclValue,
}

/// The mathematical content of a [`DeclTemplate`].
pub ghost struct DeclTemplateView {
    pub name: Seq<char>,
    pub value: DeclValueView,
}

impl View for DeclTemplate {
    type V = DeclTemplateView;

    open spec fn view(&self) -> DeclTemplateView {
        DeclTemplateView { name: self.name@, value: self.value@ }
    }
}

impl DeclTemplateView {
    /// The declaration for a value.
    pub open spec fn render(self, value: Seq<char>, modifier: Option<Seq<char>>) -> DeclView {
        DeclView { name: self.name, value: self.value.render(value, modifier) }
    }
}

impl DeclTemplate {
    /// The content of `name: <the value>`.
    pub open spec fn value_view(name: Seq<char>) -> DeclTemplateView {
        DeclTemplateView { name, value: DeclValueView::Value }
    }

    /// `name: <the value>`.
    pub fn value(name: &str) -> (t: DeclTemplate)
        ensures
            t@ == (DeclTemplateView { name: name@, value: DeclValueView::Value }),
    {
        DeclTemplate { name: name.to_owned(), value: DeclValue::Value }
    }

    /// `name: <the value as a color>`.
    pub fn color(name: &str) -> (t: DeclTemplate)
        ensures
            t@ == (DeclTemplateView { name: name@, value: DeclValueView::Color }),
    {
        DeclTemplate { name: name.to_owned(), value: DeclValue::Color }
    }

    /// `name: text`.
    pub fn fixed(name: &str, text: &str) -> (t: DeclTemplate)
        ensures
            t@ == (DeclTemplateView { name: name@, value: DeclValueView::Fixed(text@) }),
    {
        DeclTemplate { name: name.to_owned(), value: DeclValue::Fixed(text.to_owned()) }
    }

    /// `name: before<the value>after`.
    pub fn wrapped(name: &str, before: &str, after: &str) -> (t: DeclTemplate)
        ensures
            t@ == (DeclTemplateView {
                name: name@,
                value: DeclValueView::Wrapped(before@, after@),
            }),
    {
        DeclTemplate {
            name: name.to_owned(),
            value: DeclValue::Wrapped(before.to_owned(), after.to_owned()),
        }
    }

    /// The declaration for a value.
    pub fn render(&self, value: &str, modifier: Option<&str>) -> (d: Decl)
        ensures
            d@ == self@.render(value@, opt_str_text(modifier)),
    {
        Decl { name: self.name.clone(), value: self.value.render(value, modifier) }
    }
}

impl Clone for DeclTemplate {
    fn clone(&self) -> (c: DeclTemplate)
        ensures
            c@ == self@,
    {
        DeclTemplate { name: self.name.clone(), value: self.value.clone() }
    }
}

/// The views of the templates, in order.
pub open spec fn templates_view(templates: Seq<DeclTemplate>) -> Seq<DeclTemplateView> {
    Seq::new(templates.len(), |i: int| templates[i]@)
}

/// The declarations of the templates for a value, as nodes.
pub open spec fn rendered(
    templates: Seq<DeclTemplateView>,
    value: Seq<char>,
    modifier: Option<Seq<char>>,
) -> Seq<NodeView> {
    Seq::new(templates.len(), |i: int| NodeView::Decl(templates[i].render(value, modifier)))
}

/// The declarations of the templates for a value, as nodes.
pub fn render_all(templates: &Vec<DeclTemplate>, value: &str, modifier: Option<&str>) -> (nodes: Vec<
    AstNode,
>)
    ensures
        nodes_view(nodes@) == rendered(templates_view(templates@), value@, opt_str_text(modifier)),
{
    let mut nodes: Vec<AstNode> = Vec::new();
    let mut i: usize = 0;
    while i < templates.len()
        invariant
            i <= templates@.len(),
            nodes@.len() == i,
            forall|k: int|
                0 <= k < i ==> (#[trigger] nodes@[k])@ == NodeView::Decl(
                    templates@[k]@.render(value@, opt_str_text(modifier)),
                ),
        decreases templates@.len() - i,
    {
        nodes.push(AstNode::Decl(templates[i].render(value, modifier)));
        i += 1;
    }
    assert(nodes_view(nodes@) =~= rendered(
        templates_view(templates@),
        value@,
        opt_str_text(modifier),
    ));
    nodes
}

} // verus!

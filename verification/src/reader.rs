//! Reading back what the writer wrote: the text of a rule, pretty-printed,
//! as the rule.

use vstd::prelude::*;
use vstd::string::*;
use crate::css::{nodes_view, AstNode, Decl, DeclView, NodeView, Rule, RuleView};
use crate::parsing::sub_chars;
use crate::text::{
    chars_of, find_char, lemma_position_from, matches_at, occurs_at, position_from, slice_text,
};
use crate::writer::{decl_text, indent_unit, node_text, nodes_text, rule_text};

verus! {

/// The declaration of a line `name: value;`. The name ends at the first
/// `:` of the line.
pub open spec fn read_decl(line: Seq<char>) -> Option<DeclView> {
    let c = position_from(line, ':', 0);
    if c + 3 <= line.len() && line[c + 1] == ' ' && line.last() == ';' {
        Some(DeclView { name: line.subrange(0, c), value: line.subrange(c + 2, line.len() - 1) })
    } else {
        None
    }
}

/// The rule that is written at `pos` with the margin `margin`, and where
/// its text ends: a line `selector {`, the nodes one level deeper, and a
/// line `}`.
#[verifier::opaque]
pub open spec fn read_rule(s: Seq<char>, pos: int, margin: Seq<char>) -> Option<(RuleView, int)>
    decreases s.len() - pos, 0int,
{
    if pos < 0 || !occurs_at(s, margin, pos) {
        None
    } else {
        let start = pos + margin.len();
        let end = position_from(s, '\n', start);
        if end >= s.len() || end < start + 2 || s[end - 2] != ' ' || s[end - 1] != '{' {
            None
        } else {
            match read_nodes(s, end + 1, margin) {
                Some((nodes, close)) => if occurs_at(s, margin + seq!['}', '\n'], close) {
                    Some(
                        (
                            RuleView { selector: s.subrange(start, end - 2), nodes },
                            close + margin.len() + 2,
                        ),
                    )
                } else {
                    None
                },
                None => None,
            }
        }
    }
}

/// The nodes that are written from `pos` on inside a rule with the margin
/// `outer`, up to the line that closes the rule, and where that line
/// starts. A line that ends in `{` opens a rule; any other line is a
/// declaration.
#[verifier::opaque]
pub open spec fn read_nodes(s: Seq<char>, pos: int, outer: Seq<char>) -> Option<(Seq<NodeView>, int)>
    decreases s.len() - pos, 1int,
{
    let inner = outer + indent_unit();
    if pos < 0 || pos >= s.len() {
        None
    } else if occurs_at(s, outer + seq!['}'], pos) {
        Some((Seq::empty(), pos))
    } else if !occurs_at(s, inner, pos) {
        None
    } else {
        let start = pos + inner.len();
        let end = position_from(s, '\n', start);
        if end >= s.len() || end < start {
            None
        } else if end > start && s[end - 1] == '{' {
            match read_rule(s, pos, inner) {
                Some((r, next)) => if pos < next <= s.len() {
                    match read_nodes(s, next, outer) {
                        Some((rest, close)) => Some((seq![NodeView::Rule(r)] + rest, close)),
                        None => None,
                    }
                } else {
                    None
                },
                None => None,
            }
        } else {
            match read_decl(s.subrange(start, end)) {
                Some(d) => match read_nodes(s, end + 1, outer) {
                    Some((rest, close)) => Some((seq![NodeView::Decl(d)] + rest, close)),
                    None => None,
                },
                None => None,
            }
        }
    }
}

/// The rule that a text holds from its first to its last character.
pub open spec fn read_text(s: Seq<char>) -> Option<RuleView> {
    match read_rule(s, 0, Seq::<char>::empty()) {
        Some((r, end)) => if end == s.len() {
            Some(r)
        } else {
            None
        },
        None => None,
    }
}

/// Reads the declaration of a line.
fn parse_decl(line: &Vec<char>) -> (r: Option<Decl>)
    ensures
        match r {
            Some(d) => read_decl(line@) == Some(d@),
            None => read_decl(line@) is None,
        },
{
    let n = line.len();
    let c = find_char(line, ':', 0);
    if n >= 3 && c <= n - 3 && line[c + 1] == ' ' && line[n - 1] == ';' {
        Some(Decl { name: slice_text(line, 0, c), value: slice_text(line, c + 2, n - 1) })
    } else {
        None
    }
}

/// `margin` followed by `tail`.
fn extended(margin: &Vec<char>, tail: &str) -> (r: Vec<char>)
    ensures
        r@ == margin@ + tail@,
{
    let t = chars_of(tail);
    let mut r = sub_chars(margin, 0, margin.len());
    let mut i: usize = 0;
    assert(r@ =~= margin@ + t@.take(0));
    while i < t.len()
        invariant
            i <= t@.len(),
            r@ == margin@ + t@.take(i as int),
        decreases t@.len() - i,
    {
        r.push(t[i]);
        assert(r@ =~= margin@ + t@.take(i + 1));
        i += 1;
    }
    assert(t@.take(i as int) =~= t@);
    r
}

/// Reads the rule that is written at `pos`.
fn parse_rule_at(s: &Vec<char>, pos: usize, margin: &Vec<char>) -> (r: Option<(Rule, usize)>)
    requires
        pos <= s@.len(),
    ensures
        match r {
            Some((rule, end)) => read_rule(s@, pos as int, margin@) == Some((rule@, end as int))
                && pos < end <= s@.len(),
            None => read_rule(s@, pos as int, margin@) is None,
        },
    decreases s@.len() - pos, 0int,
{
    proof {
        reveal(read_rule);
        reveal(read_nodes);
    }
    let n = s.len();
    if !matches_at(s, margin, pos) {
        return None;
    }
    let start = pos + margin.len();
    let end = find_char(s, '\n', start);
    if end >= n || end - start < 2 || s[end - 2] != ' ' || s[end - 1] != '{' {
        return None;
    }
    let (nodes, close) = match parse_nodes_at(s, end + 1, margin) {
        Some(x) => x,
        None => {
            return None;
        },
    };
    proof {
        reveal_strlit("}\n");
        assert("}\n"@ =~= seq!['}', '\n']);
    }
    let closing = extended(margin, "}\n");
    if !matches_at(s, &closing, close) {
        return None;
    }
    Some((Rule { selector: slice_text(s, start, end - 2), nodes }, close + margin.len() + 2))
}

/// Reads the nodes that are written from `pos` on.
fn parse_nodes_at(s: &Vec<char>, pos: usize, outer: &Vec<char>) -> (r: Option<(Vec<AstNode>, usize)>)
    requires
        pos <= s@.len(),
    ensures
        match r {
            Some((nodes, close)) => read_nodes(s@, pos as int, outer@) == Some(
                (nodes_view(nodes@), close as int),
            ) && pos <= close <= s@.len(),
            None => read_nodes(s@, pos as int, outer@) is None,
        },
    decreases s@.len() - pos, 1int,
{
    let n = s.len();
    proof {
        reveal(read_nodes);
        reveal(read_rule);
    }
    if pos >= n {
        return None;
    }
    proof {
        reveal_strlit("}");
        reveal_strlit("  ");
        assert("}"@ =~= seq!['}']);
        assert("  "@ =~= indent_unit());
    }
    let closing = extended(outer, "}");
    if matches_at(s, &closing, pos) {
        let nodes: Vec<AstNode> = Vec::new();
        assert(nodes_view(nodes@) =~= Seq::<NodeView>::empty());
        return Some((nodes, pos));
    }
    let inner = extended(outer, "  ");
    if !matches_at(s, &inner, pos) {
        return None;
    }
    let start = pos + inner.len();
    let end = find_char(s, '\n', start);
    if end >= n {
        return None;
    }
    if end > start && s[end - 1] == '{' {
        let (rule, next) = match parse_rule_at(s, pos, &inner) {
            Some(x) => x,
            None => {
                return None;
            },
        };
        match parse_nodes_at(s, next, outer) {
            Some((rest, close)) => {
                let mut nodes = rest;
                nodes.insert(0, AstNode::Rule(rule));
                assert(nodes_view(nodes@) =~= seq![NodeView::Rule(rule@)] + nodes_view(rest@));
                Some((nodes, close))
            },
            None => None,
        }
    } else {
        let line = sub_chars(s, start, end);
        let decl = match parse_decl(&line) {
            Some(d) => d,
            None => {
                return None;
            },
        };
        match parse_nodes_at(s, end + 1, outer) {
            Some((rest, close)) => {
                let mut nodes = rest;
                nodes.insert(0, AstNode::Decl(decl));
                assert(nodes_view(nodes@) =~= seq![NodeView::Decl(decl@)] + nodes_view(rest@));
                Some((nodes, close))
            },
            None => None,
        }
    }
}

impl Rule {
    /// Reads a rule from its pretty-printed text.
    pub fn parse(css: &str) -> (r: Option<Rule>)
        ensures
            match r {
                Some(rule) => read_text(css@) == Some(rule@),
                None => read_text(css@) is None,
            },
    {
        let s = chars_of(css);
        let margin: Vec<char> = Vec::new();
        assert(margin@ =~= Seq::<char>::empty());
        match parse_rule_at(&s, 0, &margin) {
            Some((rule, end)) => {
                if end == s.len() {
                    Some(rule)
                } else {
                    None
                }
            },
            None => None,
        }
    }
}

/// A text that stays on one line.
pub open spec fn one_line(s: Seq<char>) -> bool {
    forall|i: int| 0 <= i < s.len() ==> s[i] != '\n'
}

/// A declaration that can be read back: its name and its value stay on
/// one line, and its name has no `:`.
pub open spec fn readable_decl(d: DeclView) -> bool {
    &&& one_line(d.name)
    &&& one_line(d.value)
    &&& forall|i: int| 0 <= i < d.name.len() ==> d.name[i] != ':'
}

/// A rule that can be read back: its selector stays on one line, and its
/// nodes can be read back.
pub open spec fn readable(r: RuleView) -> bool
    decreases r,
{
    &&& one_line(r.selector)
    &&& forall|i: int| 0 <= i < r.nodes.len() ==> readable_node(#[trigger] r.nodes[i])
}

/// A node that can be read back.
pub open spec fn readable_node(n: NodeView) -> bool
    decreases n,
{
    match n {
        NodeView::Rule(r) => readable(r),
        NodeView::Decl(d) => readable_decl(d),
    }
}

/// The text of nodes is the text of the first node followed by the text
/// of the others.
pub proof fn lemma_nodes_text_front(nodes: Seq<NodeView>, margin: Seq<char>)
    requires
        nodes.len() > 0,
    ensures
        nodes_text(nodes, margin, false) == node_text(nodes[0], margin, false) + nodes_text(
            nodes.drop_first(),
            margin,
            false,
        ),
    decreases nodes.len(),
{
    if nodes.len() == 1 {
        assert(nodes.drop_last() =~= Seq::<NodeView>::empty());
        assert(nodes.drop_first() =~= Seq::<NodeView>::empty());
        assert(nodes_text(nodes.drop_last(), margin, false) =~= Seq::<char>::empty());
        assert(nodes_text(nodes, margin, false) =~= node_text(nodes[0], margin, false)
            + nodes_text(nodes.drop_first(), margin, false));
    } else {
        let front = nodes.drop_last();
        lemma_nodes_text_front(front, margin);
        assert(front[0] == nodes[0]);
        assert(front.drop_first() =~= nodes.drop_first().drop_last());
        assert(nodes.drop_first().last() == nodes.last());
        assert(nodes_text(nodes, margin, false) =~= node_text(nodes[0], margin, false)
            + nodes_text(nodes.drop_first(), margin, false));
    }
}

/// The first `c` at or after `from` is at `p`, if `c` is there and
/// nowhere before.
pub proof fn lemma_first_at(s: Seq<char>, c: char, from: int, p: int)
    requires
        0 <= from <= p < s.len(),
        s[p] == c,
        forall|j: int| from <= j < p ==> s[j] != c,
    ensures
        position_from(s, c, from) == p,
{
    lemma_position_from(s, c, from);
}

/// A line `name: value;` of a readable declaration is read as the
/// declaration.
pub proof fn lemma_decl_reads(d: DeclView)
    requires
        readable_decl(d),
    ensures
        read_decl(d.name + seq![':', ' '] + d.value + seq![';']) == Some(d),
{
    let line = d.name + seq![':', ' '] + d.value + seq![';'];
    let c = d.name.len() as int;
    assert(line[c] == ':');
    assert forall|j: int| 0 <= j < c implies line[j] != ':' by {
        assert(line[j] == d.name[j]);
    }
    lemma_first_at(line, ':', 0, c);
    assert(line[c + 1] == ' ');
    assert(line.last() == ';');
    assert(line.subrange(0, c) =~= d.name);
    assert(line.subrange(c + 2, line.len() - 1) =~= d.value);
}

/// The text of a rule: its margin, its selector, ` {`, its nodes one
/// level deeper, and its margin with `}`.
pub proof fn lemma_rule_shape(r: RuleView, margin: Seq<char>)
    ensures
        rule_text(r, margin, false) == margin + r.selector + seq![' ', '{', '\n'] + nodes_text(
            r.nodes,
            margin + indent_unit(),
            false,
        ) + margin + seq!['}', '\n'],
{
    assert(rule_text(r, margin, false) =~= margin + r.selector + seq![' ', '{', '\n']
        + nodes_text(r.nodes, margin + indent_unit(), false) + margin + seq!['}', '\n']);
}

/// The text of a declaration: its margin, its name, `: `, its value and
/// `;`.
pub proof fn lemma_decl_shape(d: DeclView, margin: Seq<char>)
    ensures
        decl_text(d, margin, false) == margin + d.name + seq![':', ' '] + d.value + seq![';', '\n'],
{
    assert(decl_text(d, margin, false) =~= margin + d.name + seq![':', ' '] + d.value + seq![
        ';',
        '\n',
    ]);
}

/// A line `selector {`, nodes that are read, and the closing line are
/// read as the rule of the selector and the nodes.
proof fn lemma_rule_frame(
    selector: Seq<char>,
    nodes: Seq<NodeView>,
    margin: Seq<char>,
    pre: Seq<char>,
    body: Seq<char>,
    post: Seq<char>,
)
    requires
        one_line(selector),
        read_nodes(
            pre + margin + selector + seq![' ', '{', '\n'] + body + margin + seq!['}', '\n'] + post,
            (pre.len() + margin.len() + selector.len() + 3) as int,
            margin,
        ) == Some((nodes, (pre.len() + margin.len() + selector.len() + 3 + body.len()) as int)),
    ensures
        read_rule(
            pre + margin + selector + seq![' ', '{', '\n'] + body + margin + seq!['}', '\n'] + post,
            pre.len() as int,
            margin,
        ) == Some(
            (
                RuleView { selector, nodes },
                (pre.len() + 2 * margin.len() + selector.len() + 5 + body.len()) as int,
            ),
        ),
{
    reveal(read_rule);
    reveal(read_nodes);
    let s = pre + margin + selector + seq![' ', '{', '\n'] + body + margin + seq!['}', '\n'] + post;
    let pos = pre.len() as int;
    let start = pos + margin.len();
    let end = start + selector.len() + 2;
    assert(s.subrange(pos, pos + margin.len()) =~= margin);
    assert(s[end] == '\n');
    assert forall|j: int| start <= j < end implies s[j] != '\n' by {
        if j < start + selector.len() {
            assert(s[j] == selector[j - start]);
        }
    }
    lemma_first_at(s, '\n', start, end);
    assert(s[end - 2] == ' ');
    assert(s[end - 1] == '{');
    let close = end + 1 + body.len();
    assert(s.subrange(close, close + margin.len() + 2) =~= margin + seq!['}', '\n']);
    assert(s.subrange(start, end - 2) =~= selector);
}

/// The same as `lemma_rule_frame`, for the text of the rule as one piece.
proof fn lemma_rule_glue(
    selector: Seq<char>,
    nodes: Seq<NodeView>,
    margin: Seq<char>,
    pre: Seq<char>,
    body: Seq<char>,
    post: Seq<char>,
    text: Seq<char>,
)
    requires
        one_line(selector),
        text == margin + selector + seq![' ', '{', '\n'] + body + margin + seq!['}', '\n'],
        read_nodes(
            (pre + (margin + selector + seq![' ', '{', '\n'])) + body + margin + seq!['}'] + (seq![
                '\n',
            ] + post),
            (pre + (margin + selector + seq![' ', '{', '\n'])).len() as int,
            margin,
        ) == Some(
            (nodes, ((pre + (margin + selector + seq![' ', '{', '\n'])).len() + body.len()) as int),
        ),
    ensures
        read_rule(pre + text + post, pre.len() as int, margin) == Some(
            (RuleView { selector, nodes }, (pre.len() + text.len()) as int),
        ),
{
    let s = pre + margin + selector + seq![' ', '{', '\n'] + body + margin + seq!['}', '\n'] + post;
    assert(s =~= pre + text + post);
    assert(s =~= (pre + (margin + selector + seq![' ', '{', '\n'])) + body + margin + seq!['}'] + (
    seq!['\n'] + post));
    lemma_rule_frame(selector, nodes, margin, pre, body, post);
}

/// The text of a readable rule, wherever it stands, is read as the rule.
pub proof fn lemma_rule_reads(r: RuleView, margin: Seq<char>, pre: Seq<char>, post: Seq<char>)
    requires
        readable(r),
    ensures
        read_rule(pre + rule_text(r, margin, false) + post, pre.len() as int, margin) == Some(
            (r, (pre.len() + rule_text(r, margin, false).len()) as int),
        ),
    decreases r, 1int,
{
    let body = nodes_text(r.nodes, margin + indent_unit(), false);
    lemma_rule_shape(r, margin);
    assert forall|i: int| 0 <= i < r.nodes.len() implies readable_node(#[trigger] r.nodes[i]) by {}
    lemma_nodes_read(
        r.nodes,
        margin,
        pre + (margin + r.selector + seq![' ', '{', '\n']),
        seq!['\n'] + post,
    );
    lemma_rule_glue(r.selector, r.nodes, margin, pre, body, post, rule_text(r, margin, false));
}

/// Where nothing but the closing line follows, no node is read.
proof fn lemma_no_nodes(outer: Seq<char>, pre: Seq<char>, text: Seq<char>, post: Seq<char>)
    requires
        text.len() == 0,
    ensures
        read_nodes(pre + text + outer + seq!['}'] + post, pre.len() as int, outer) == Some(
            (Seq::<NodeView>::empty(), (pre.len() + text.len()) as int),
        ),
{
    reveal(read_nodes);
    let s = pre + text + outer + seq!['}'] + post;
    let pos = pre.len() as int;
    assert(s.subrange(pos, pos + outer.len() + 1) =~= outer + seq!['}']);
}

/// A line that starts one level deeper does not close the rule.
proof fn lemma_not_closing(s: Seq<char>, pos: int, outer: Seq<char>)
    requires
        0 <= pos,
        occurs_at(s, outer + indent_unit(), pos),
    ensures
        !occurs_at(s, outer + seq!['}'], pos),
{
    let inner = outer + indent_unit();
    if occurs_at(s, outer + seq!['}'], pos) {
        let a = s.subrange(pos, pos + inner.len());
        let b = s.subrange(pos, pos + outer.len() + 1);
        assert(a[outer.len() as int] == inner[outer.len() as int]);
        assert(inner[outer.len() as int] == ' ');
        assert(b[outer.len() as int] == (outer + seq!['}'])[outer.len() as int]);
        assert(a[outer.len() as int] == s[pos + outer.len()]);
        assert(b[outer.len() as int] == s[pos + outer.len()]);
    }
}

/// A readable declaration in front of nodes that are read is read with
/// them.
proof fn lemma_decl_first(
    d: DeclView,
    outer: Seq<char>,
    pre: Seq<char>,
    tail: Seq<char>,
    rest: Seq<NodeView>,
    close: int,
)
    requires
        readable_decl(d),
        read_nodes(
            pre + (outer + indent_unit() + d.name + seq![':', ' '] + d.value + seq![';', '\n']) + tail,
            (pre.len() + outer.len() + d.name.len() + d.value.len() + 6) as int,
            outer,
        ) == Some((rest, close)),
    ensures
        read_nodes(
            pre + (outer + indent_unit() + d.name + seq![':', ' '] + d.value + seq![';', '\n']) + tail,
            pre.len() as int,
            outer,
        ) == Some((seq![NodeView::Decl(d)] + rest, close)),
{
    reveal(read_nodes);
    reveal(read_rule);
    let inner = outer + indent_unit();
    let line = d.name + seq![':', ' '] + d.value + seq![';'];
    let text = inner + d.name + seq![':', ' '] + d.value + seq![';', '\n'];
    let s = pre + text + tail;
    let pos = pre.len() as int;
    let start = pos + inner.len();
    let end = start + line.len();
    assert(s.subrange(pos, pos + inner.len()) =~= inner);
    lemma_not_closing(s, pos, outer);
    assert(s[end] == '\n');
    assert forall|j: int| start <= j < end implies s[j] != '\n' by {
        assert(s[j] == line[j - start]);
        if j - start < d.name.len() {
            assert(line[j - start] == d.name[j - start]);
        } else if j - start >= d.name.len() + 2 && j - start < line.len() - 1 {
            assert(line[j - start] == d.value[j - start - d.name.len() - 2]);
        }
    }
    lemma_first_at(s, '\n', start, end);
    assert(s[end - 1] == ';');
    assert(s.subrange(start, end) =~= line);
    lemma_decl_reads(d);
}

/// A rule that is read in front of nodes that are read is read with
/// them.
proof fn lemma_rule_first(
    r: RuleView,
    outer: Seq<char>,
    pre: Seq<char>,
    mid: Seq<char>,
    tail: Seq<char>,
    rest: Seq<NodeView>,
    close: int,
)
    requires
        one_line(r.selector),
        read_rule(
            pre + (outer + indent_unit() + r.selector + seq![' ', '{', '\n'] + mid) + tail,
            pre.len() as int,
            outer + indent_unit(),
        ) == Some((r, (pre.len() + outer.len() + r.selector.len() + 5 + mid.len()) as int)),
        read_nodes(
            pre + (outer + indent_unit() + r.selector + seq![' ', '{', '\n'] + mid) + tail,
            (pre.len() + outer.len() + r.selector.len() + 5 + mid.len()) as int,
            outer,
        ) == Some((rest, close)),
    ensures
        read_nodes(
            pre + (outer + indent_unit() + r.selector + seq![' ', '{', '\n'] + mid) + tail,
            pre.len() as int,
            outer,
        ) == Some((seq![NodeView::Rule(r)] + rest, close)),
{
    reveal(read_nodes);
    reveal(read_rule);
    let inner = outer + indent_unit();
    let line = r.selector + seq![' ', '{'];
    let s = pre + (inner + r.selector + seq![' ', '{', '\n'] + mid) + tail;
    let pos = pre.len() as int;
    let start = pos + inner.len();
    let end = start + line.len();
    assert(s.subrange(pos, pos + inner.len()) =~= inner);
    lemma_not_closing(s, pos, outer);
    assert(s[end] == '\n');
    assert forall|j: int| start <= j < end implies s[j] != '\n' by {
        if j - start < r.selector.len() {
            assert(s[j] == r.selector[j - start]);
        }
    }
    lemma_first_at(s, '\n', start, end);
    assert(s[end - 1] == '{');
}

/// The same as `lemma_decl_first`, for the nodes as one sequence.
proof fn lemma_nodes_glue_decl(
    d: DeclView,
    nodes: Seq<NodeView>,
    outer: Seq<char>,
    pre: Seq<char>,
    first_text: Seq<char>,
    rest_text: Seq<char>,
    post: Seq<char>,
)
    requires
        readable_decl(d),
        nodes.len() > 0,
        nodes[0] == NodeView::Decl(d),
        first_text == outer + indent_unit() + d.name + seq![':', ' '] + d.value + seq![';', '\n'],
        read_nodes(
            (pre + first_text) + rest_text + outer + seq!['}'] + post,
            (pre + first_text).len() as int,
            outer,
        ) == Some((nodes.drop_first(), ((pre + first_text).len() + rest_text.len()) as int)),
    ensures
        read_nodes(
            pre + (first_text + rest_text) + outer + seq!['}'] + post,
            pre.len() as int,
            outer,
        ) == Some((nodes, (pre.len() + (first_text + rest_text).len()) as int)),
{
    let tail = rest_text + outer + seq!['}'] + post;
    let s = pre + first_text + tail;
    assert(s =~= (pre + first_text) + rest_text + outer + seq!['}'] + post);
    assert(s =~= pre + (first_text + rest_text) + outer + seq!['}'] + post);
    let close = ((pre + first_text).len() + rest_text.len()) as int;
    lemma_decl_first(d, outer, pre, tail, nodes.drop_first(), close);
    assert(seq![NodeView::Decl(d)] + nodes.drop_first() =~= nodes);
}

/// The same as `lemma_rule_first`, for the nodes as one sequence.
proof fn lemma_nodes_glue_rule(
    r: RuleView,
    nodes: Seq<NodeView>,
    outer: Seq<char>,
    pre: Seq<char>,
    first_text: Seq<char>,
    mid: Seq<char>,
    rest_text: Seq<char>,
    post: Seq<char>,
)
    requires
        one_line(r.selector),
        nodes.len() > 0,
        nodes[0] == NodeView::Rule(r),
        first_text == outer + indent_unit() + r.selector + seq![' ', '{', '\n'] + mid,
        read_rule(
            pre + first_text + (rest_text + outer + seq!['}'] + post),
            pre.len() as int,
            outer + indent_unit(),
        ) == Some((r, (pre.len() + first_text.len()) as int)),
        read_nodes(
            (pre + first_text) + rest_text + outer + seq!['}'] + post,
            (pre + first_text).len() as int,
            outer,
        ) == Some((nodes.drop_first(), ((pre + first_text).len() + rest_text.len()) as int)),
    ensures
        read_nodes(
            pre + (first_text + rest_text) + outer + seq!['}'] + post,
            pre.len() as int,
            outer,
        ) == Some((nodes, (pre.len() + (first_text + rest_text).len()) as int)),
{
    let tail = rest_text + outer + seq!['}'] + post;
    let s = pre + first_text + tail;
    assert(s =~= (pre + first_text) + rest_text + outer + seq!['}'] + post);
    assert(s =~= pre + (first_text + rest_text) + outer + seq!['}'] + post);
    let close = ((pre + first_text).len() + rest_text.len()) as int;
    lemma_rule_first(r, outer, pre, mid, tail, nodes.drop_first(), close);
    assert(seq![NodeView::Rule(r)] + nodes.drop_first() =~= nodes);
}

/// The text of readable nodes, followed by the line that closes their
/// rule, is read as the nodes.
pub proof fn lemma_nodes_read(nodes: Seq<NodeView>, outer: Seq<char>, pre: Seq<char>, post: Seq<char>)
    requires
        forall|i: int| 0 <= i < nodes.len() ==> readable_node(#[trigger] nodes[i]),
    ensures
        read_nodes(
            pre + nodes_text(nodes, outer + indent_unit(), false) + outer + seq!['}'] + post,
            pre.len() as int,
            outer,
        ) == Some(
            (nodes, (pre.len() + nodes_text(nodes, outer + indent_unit(), false).len()) as int),
        ),
    decreases nodes, 0int,
{
    let inner = outer + indent_unit();
    let text = nodes_text(nodes, inner, false);
    if nodes.len() == 0 {
        lemma_no_nodes(outer, pre, text, post);
        assert(nodes =~= Seq::<NodeView>::empty());
    } else {
        let first = nodes[0];
        let rest = nodes.drop_first();
        lemma_nodes_text_front(nodes, inner);
        let first_text = node_text(first, inner, false);
        let rest_text = nodes_text(rest, inner, false);
        assert forall|i: int| 0 <= i < rest.len() implies readable_node(#[trigger] rest[i]) by {
            assert(rest[i] == nodes[i + 1]);
        }
        assert(readable_node(first));
        lemma_nodes_read(rest, outer, pre + first_text, post);
        match first {
            NodeView::Decl(d) => {
                lemma_decl_shape(d, inner);
                lemma_nodes_glue_decl(d, nodes, outer, pre, first_text, rest_text, post);
            },
            NodeView::Rule(r) => {
                lemma_rule_shape(r, inner);
                let mid = nodes_text(r.nodes, inner + indent_unit(), false) + inner + seq![
                    '}',
                    '\n',
                ];
                lemma_mid(inner, r.selector, nodes_text(r.nodes, inner + indent_unit(), false));
                lemma_rule_reads(r, inner, pre, rest_text + outer + seq!['}'] + post);
                lemma_nodes_glue_rule(r, nodes, outer, pre, first_text, mid, rest_text, post);
            },
        }
    }
}

/// The text of a rule, with what follows its first line taken together.
proof fn lemma_mid(margin: Seq<char>, selector: Seq<char>, body: Seq<char>)
    ensures
        margin + selector + seq![' ', '{', '\n'] + body + margin + seq!['}', '\n'] == margin
            + selector + seq![' ', '{', '\n'] + (body + margin + seq!['}', '\n']),
{
    assert(margin + selector + seq![' ', '{', '\n'] + body + margin + seq!['}', '\n'] =~= margin
        + selector + seq![' ', '{', '\n'] + (body + margin + seq!['}', '\n']));
}

/// What the writer writes of a readable rule is read back as the rule.
pub proof fn lemma_round_trip(r: RuleView)
    requires
        readable(r),
    ensures
        read_text(rule_text(r, Seq::<char>::empty(), false)) == Some(r),
{
    let e = Seq::<char>::empty();
    let text = rule_text(r, e, false);
    lemma_rule_reads(r, e, e, e);
    assert(e + text + e =~= text);
}

} // verus!

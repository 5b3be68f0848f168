//! Serialization of the CSS tree: the text of a rule, and the sink that
//! produces it line by line.

use vstd::prelude::*;
use vstd::string::*;
use crate::css::{nodes_view, AstNode, Decl, DeclView, NodeView, Rule, RuleView};

verus! {

/// One level of indentation.
pub open spec fn indent_unit() -> Seq<char> {
    seq![' ', ' ']
}

/// What stands before the first character of a line: nothing when
/// minifying, else the margin.
pub open spec fn line_lead(margin: Seq<char>, minify: bool) -> Seq<char> {
    if minify {
        Seq::<char>::empty()
    } else {
        margin
    }
}

/// The optional blank between tokens.
pub open spec fn blank(minify: bool) -> Seq<char> {
    if minify {
        Seq::<char>::empty()
    } else {
        seq![' ']
    }
}

/// The optional line break.
pub open spec fn line_break(minify: bool) -> Seq<char> {
    if minify {
        Seq::<char>::empty()
    } else {
        seq!['\n']
    }
}

/// A declaration from its name on: `name: value;` and the line break.
pub open spec fn decl_tail(d: DeclView, minify: bool) -> Seq<char> {
    d.name + seq![':'] + blank(minify) + d.value + seq![';'] + line_break(minify)
}

/// The full line of a declaration.
pub open spec fn decl_text(d: DeclView, margin: Seq<char>, minify: bool) -> Seq<char> {
    line_lead(margin, minify) + decl_tail(d, minify)
}

/// A rule from its selector on: `selector {`, the nodes one level deeper,
/// and the closing brace on a line of its own.
pub open spec fn rule_tail(r: RuleView, margin: Seq<char>, minify: bool) -> Seq<char>
    decreases r, 1nat,
{
    r.selector + blank(minify) + seq!['{'] + line_break(minify) + nodes_text(
        r.nodes,
        margin + indent_unit(),
        minify,
    ) + line_lead(margin, minify) + seq!['}'] + line_break(minify)
}

/// The full text of a rule that starts on a fresh line.
pub open spec fn rule_text(r: RuleView, margin: Seq<char>, minify: bool) -> Seq<char>
    decreases r, 2nat,
{
    line_lead(margin, minify) + rule_tail(r, margin, minify)
}

/// The full text of a node that starts on a fresh line.
pub open spec fn node_text(n: NodeView, margin: Seq<char>, minify: bool) -> Seq<char>
    decreases n, 3nat,
{
    match n {
        NodeView::Rule(r) => rule_text(r, margin, minify),
        NodeView::Decl(d) => decl_text(d, margin, minify),
    }
}

/// A node from its first own character on.
pub open spec fn node_tail(n: NodeView, margin: Seq<char>, minify: bool) -> Seq<char>
    decreases n, 3nat,
{
    match n {
        NodeView::Rule(r) => rule_tail(r, margin, minify),
        NodeView::Decl(d) => decl_tail(d, minify),
    }
}

/// The texts of the nodes, one after the other.
pub open spec fn nodes_text(nodes: Seq<NodeView>, margin: Seq<char>, minify: bool) -> Seq<char>
    decreases nodes, nodes.len(),
{
    if nodes.len() == 0 {
        Seq::<char>::empty()
    } else {
        nodes_text(nodes.drop_last(), margin, minify) + node_text(nodes.last(), margin, minify)
    }
}

/// The texts of the rules, one after the other.
pub open spec fn rules_text(rules: Seq<RuleView>, margin: Seq<char>, minify: bool) -> Seq<char>
    decreases rules.len(),
{
    if rules.len() == 0 {
        Seq::<char>::empty()
    } else {
        rules_text(rules.drop_last(), margin, minify) + rule_text(rules.last(), margin, minify)
    }
}

/// A text sink that keeps track of the margin of the current block and of
/// whether the next character starts a line.
pub struct Writer {
    pub dest: String,
    pub margin: String,
    pub minify: bool,
    pub line_start: bool,
}

/// The mathematical content of a [`Writer`].
pub ghost struct WriterView {
    pub dest: Seq<char>,
    pub margin: Seq<char>,
    pub minify: bool,
    pub line_start: bool,
}

impl WriterView {
    /// What the next write puts in front of its text.
    pub open spec fn pending(self) -> Seq<char> {
        if self.line_start {
            line_lead(self.margin, self.minify)
        } else {
            Seq::<char>::empty()
        }
    }

    /// The state after writing `text`, which ends inside a line.
    pub open spec fn put(self, text: Seq<char>) -> WriterView {
        WriterView { dest: self.dest + self.pending() + text, line_start: false, ..self }
    }

    /// The state after writing `text`, which ends with a finished line.
    pub open spec fn put_lines(self, text: Seq<char>) -> WriterView {
        WriterView { dest: self.dest + self.pending() + text, line_start: !self.minify, ..self }
    }

    /// The state after an optional blank.
    pub open spec fn put_blank(self) -> WriterView {
        if self.minify {
            self
        } else {
            self.put(seq![' '])
        }
    }

    /// The state after an optional line break.
    pub open spec fn put_break(self) -> WriterView {
        if self.minify {
            self
        } else {
            WriterView { dest: self.dest + seq!['\n'], line_start: true, ..self }
        }
    }

    /// One level deeper.
    pub open spec fn deeper(self) -> WriterView {
        WriterView { margin: self.margin + indent_unit(), ..self }
    }

    /// One level up; at the left edge nothing changes.
    pub open spec fn shallower(self) -> WriterView {
        if self.margin.len() >= 2 {
            WriterView { margin: self.margin.subrange(0, self.margin.len() - 2), ..self }
        } else {
            self
        }
    }
}

impl View for Writer {
    type V = WriterView;

    open spec fn view(&self) -> WriterView {
        WriterView {
            dest: self.dest@,
            margin: self.margin@,
            minify: self.minify,
            line_start: self.line_start,
        }
    }
}

impl Writer {
    /// A pretty-printing writer that appends to `dest`.
    pub fn default(dest: String) -> (w: Writer)
        ensures
            w@ == (WriterView {
                dest: dest@,
                margin: Seq::<char>::empty(),
                minify: false,
                line_start: true,
            }),
    {
        Writer { dest, margin: String::new(), minify: false, line_start: true }
    }

    /// A minifying writer that appends to `dest`.
    pub fn minified(dest: String) -> (w: Writer)
        ensures
            w@ == (WriterView {
                dest: dest@,
                margin: Seq::<char>::empty(),
                minify: true,
                line_start: true,
            }),
    {
        Writer { dest, margin: String::new(), minify: true, line_start: true }
    }

    /// Writes the pending margin, if a line starts here.
    fn flush_margin(&mut self)
        ensures
            final(self)@ == old(self)@.put(Seq::<char>::empty()),
    {
        if self.line_start && !self.minify {
            self.dest.append(self.margin.as_str());
        }
        self.line_start = false;
        assert(self.dest@ =~= old(self).dest@ + old(self)@.pending() + Seq::<char>::empty());
    }

    pub fn write_str(&mut self, s: &str)
        ensures
            final(self)@ == old(self)@.put(s@),
    {
        self.flush_margin();
        self.dest.append(s);
        assert(self.dest@ =~= old(self).dest@ + old(self)@.pending() + s@);
    }

    pub fn write_char(&mut self, c: char)
        ensures
            final(self)@ == old(self)@.put(seq![c]),
    {
        self.flush_margin();
        push_char(&mut self.dest, c);
        assert(self.dest@ =~= old(self).dest@ + old(self)@.pending() + seq![c]);
    }

    pub fn whitespace(&mut self)
        ensures
            final(self)@ == old(self)@.put_blank(),
    {
        if !self.minify {
            self.write_char(' ');
        }
    }

    pub fn newline(&mut self)
        ensures
            final(self)@ == old(self)@.put_break(),
    {
        if !self.minify {
            push_char(&mut self.dest, '\n');
            self.line_start = true;
            assert(self.dest@ =~= old(self).dest@ + seq!['\n']);
        }
    }

    pub fn indent(&mut self)
        ensures
            final(self)@ == old(self)@.deeper(),
    {
        proof {
            reveal_strlit("  ");
        }
        self.margin.append("  ");
        assert(self.margin@ =~= old(self).margin@ + indent_unit());
    }

    pub fn dedent(&mut self)
        ensures
            final(self)@ == old(self)@.shallower(),
    {
        let n = self.margin.as_str().unicode_len();
        if n >= 2 {
            let shorter = self.margin.as_str().substring_char(0, n - 2).to_owned();
            self.margin = shorter;
        }
    }
}

/// Appends one character to a string: `String::push`.
#[verifier::external_body]
pub(crate) fn push_char(s: &mut String, c: char)
    ensures
        final(s)@ == old(s)@.push(c),
{
    s.push(c)
}

impl Decl {
    /// Writes `name: value;` and ends the line.
    pub fn to_css(&self, writer: &mut Writer)
        ensures
            final(writer)@ == old(writer)@.put_lines(decl_tail(self@, old(writer).minify)),
    {
        writer.write_str(self.name.as_str());
        writer.write_char(':');
        writer.whitespace();
        writer.write_str(self.value.as_str());
        writer.write_char(';');
        writer.newline();
        assert(writer.dest@ =~= old(writer).dest@ + old(writer)@.pending() + decl_tail(
            self@,
            old(writer).minify,
        ));
    }
}

impl AstNode {
    /// Writes the node, which ends its last line.
    pub fn to_css(&self, writer: &mut Writer)
        ensures
            final(writer)@ == old(writer)@.put_lines(
                node_tail(self@, old(writer).margin@, old(writer).minify),
            ),
        decreases self,
    {
        match self {
            AstNode::Rule(rule) => rule.to_css(writer),
            AstNode::Decl(decl) => decl.to_css(writer),
        }
    }
}

impl Rule {
    /// Writes `selector {`, the nodes one level deeper, and `}` on a line of
    /// its own.
    pub fn to_css(&self, writer: &mut Writer)
        ensures
            final(writer)@ == old(writer)@.put_lines(
                rule_tail(self@, old(writer).margin@, old(writer).minify),
            ),
        decreases self,
    {
        let ghost start = writer@;
        let ghost inner = start.margin + indent_unit();
        writer.write_str(self.selector.as_str());
        writer.whitespace();
        writer.write_char('{');
        writer.indent();
        writer.newline();
        let ghost head = start.dest + start.pending() + self.selector@ + blank(start.minify)
            + seq!['{'] + line_break(start.minify);
        assert(writer.dest@ =~= head);
        let mut i: usize = 0;
        while i < self.nodes.len()
            invariant
                i <= self.nodes@.len(),
                writer.margin@ == inner,
                writer.minify == start.minify,
                writer.line_start == !start.minify,
                writer.dest@ == head + nodes_text(
                    nodes_view(self.nodes@).take(i as int),
                    inner,
                    start.minify,
                ),
            decreases self.nodes@.len() - i,
        {
            let ghost before = writer@;
            self.nodes[i].to_css(writer);
            proof {
                let all = nodes_view(self.nodes@);
                assert(all.take(i + 1).drop_last() =~= all.take(i as int));
                assert(all.take(i + 1).last() == self.nodes@[i as int]@);
                assert(before.pending() == line_lead(inner, start.minify));
                lemma_node_text_split(self.nodes@[i as int]@, inner, start.minify);
                assert(writer.dest@ =~= head + nodes_text(all.take(i + 1), inner, start.minify));
            }
            i += 1;
        }
        assert(nodes_view(self.nodes@).take(i as int) =~= nodes_view(self.nodes@));
        writer.dedent();
        assert(writer.margin@ =~= start.margin);
        writer.write_char('}');
        writer.newline();
        assert(writer.dest@ =~= start.dest + start.pending() + rule_tail(
            self@,
            start.margin,
            start.minify,
        ));
    }

    /// The rule as text, pretty-printed from the left edge.
    pub fn to_css_string(&self) -> (css: String)
        ensures
            css@ == rule_text(self@, Seq::<char>::empty(), false),
    {
        let mut writer = Writer::default(String::new());
        self.to_css(&mut writer);
        assert(writer.dest@ =~= rule_text(self@, Seq::<char>::empty(), false));
        writer.dest
    }
}

/// A node's text is its lead followed by its tail.
pub proof fn lemma_node_text_split(n: NodeView, margin: Seq<char>, minify: bool)
    ensures
        node_text(n, margin, minify) == line_lead(margin, minify) + node_tail(n, margin, minify),
{
}

} // verus!

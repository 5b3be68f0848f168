//! The CSS tree (rules and declarations) and the writer that serializes it.

use vstd::prelude::*;
use vstd::string::*;
use smallvec::SmallVec;

verus! {

/// A single `name: value` declaration.
#[derive(Debug, PartialEq)]
pub struct Decl {
    pub name: String,
    pub value: String,
}

/// The mathematical content of a [`Decl`].
pub ghost struct DeclView {
    pub name: Seq<char>,
    pub value: Seq<char>,
}

/// A node of a rule's body: a nested rule or a declaration.
#[derive(Debug, PartialEq)]
pub enum AstNode {
    Rule(Rule),
    Decl(Decl),
}

/// The mathematical content of an [`AstNode`].
pub ghost enum NodeView {
    Rule(RuleView),
    Decl(DeclView),
}

/// A selector (or at-rule prelude) with the nodes of its block.
#[derive(Debug, PartialEq)]
pub struct Rule {
    pub selector: String,
    pub nodes: Vec<AstNode>,
}

/// The mathematical content of a [`Rule`].
pub ghost struct RuleView {
    pub selector: Seq<char>,
    pub nodes: Seq<NodeView>,
}

/// An ordered sequence of rules.
pub type RuleList = Vec<Rule>;

/// An ordered sequence of nodes.
pub type NodeList = Vec<AstNode>;

impl View for Decl {
    type V = DeclView;

    open spec fn view(&self) -> DeclView {
        DeclView { name: self.name@, value: self.value@ }
    }
}

impl View for AstNode {
    type V = NodeView;

    open spec fn view(&self) -> NodeView
        decreases self,
    {
        match self {
            AstNode::Rule(r) => NodeView::Rule(r.view()),
            AstNode::Decl(d) => NodeView::Decl(d.view()),
        }
    }
}

impl View for Rule {
    type V = RuleView;

    open spec fn view(&self) -> RuleView
        decreases self,
    {
        RuleView { selector: self.selector@, nodes: nodes_view(self.nodes@) }
    }
}

/// The views of a sequence of nodes, in order.
pub open spec fn nodes_view(nodes: Seq<AstNode>) -> Seq<NodeView>
    decreases nodes,
{
    Seq::new(
        nodes.len(),
        |i: int|
            if 0 <= i < nodes.len() {
                nodes[i].view()
            } else {
                arbitrary()
            },
    )
}

/// The views of a sequence of rules, in order.
pub open spec fn rules_view(rules: Seq<Rule>) -> Seq<RuleView> {
    Seq::new(rules.len(), |i: int| rules[i]@)
}

/// The views of a sequence of declarations, in order.
pub open spec fn decls_view(decls: Seq<Decl>) -> Seq<DeclView> {
    Seq::new(decls.len(), |i: int| decls[i]@)
}

/// Each declaration as a node, in order.
pub open spec fn decl_nodes(decls: Seq<DeclView>) -> Seq<NodeView> {
    Seq::new(decls.len(), |i: int| NodeView::Decl(decls[i]))
}

/// Each rule as a node, in order.
pub open spec fn rule_nodes(rules: Seq<RuleView>) -> Seq<NodeView> {
    Seq::new(rules.len(), |i: int| NodeView::Rule(rules[i]))
}

impl Decl {
    pub fn new(name: &str, value: &str) -> (d: Decl)
        ensures
            d@ == (DeclView { name: name@, value: value@ }),
    {
        Decl { name: name.to_owned(), value: value.to_owned() }
    }
}

impl Clone for Decl {
    fn clone(&self) -> (d: Decl)
        ensures
            d@ == self@,
    {
        Decl { name: self.name.clone(), value: self.value.clone() }
    }
}

impl AstNode {
    pub fn decl(name: &str, value: &str) -> (n: AstNode)
        ensures
            n@ == NodeView::Decl(DeclView { name: name@, value: value@ }),
    {
        AstNode::Decl(Decl::new(name, value))
    }

    pub fn rule(selector: &str, nodes: Vec<AstNode>) -> (n: AstNode)
        ensures
            n@ == NodeView::Rule(RuleView { selector: selector@, nodes: nodes_view(nodes@) }),
    {
        AstNode::Rule(Rule { selector: selector.to_owned(), nodes })
    }
}

impl Clone for AstNode {
    fn clone(&self) -> (n: AstNode)
        ensures
            n@ == self@,
        decreases self,
    {
        match self {
            AstNode::Rule(r) => AstNode::Rule(r.clone()),
            AstNode::Decl(d) => AstNode::Decl(d.clone()),
        }
    }
}

impl Clone for Rule {
    fn clone(&self) -> (r: Rule)
        ensures
            r@ == self@,
        decreases self,
    {
        let mut nodes: Vec<AstNode> = Vec::new();
        let mut i: usize = 0;
        while i < self.nodes.len()
            invariant
                i <= self.nodes@.len(),
                nodes@.len() == i,
                forall|k: int| 0 <= k < i ==> (#[trigger] nodes@[k])@ == self.nodes@[k]@,
            decreases self.nodes@.len() - i,
        {
            let n = self.nodes[i].clone();
            nodes.push(n);
            i += 1;
        }
        assert(nodes_view(nodes@) =~= nodes_view(self.nodes@));
        Rule { selector: self.selector.clone(), nodes }
    }
}

/// A list of declarations, kept inline while it holds at most one.
#[verifier::external_body]
pub struct DeclList {
    items: SmallVec<[Decl; 1]>,
}

/// The declarations that a list holds, in order.
pub uninterp spec fn decl_list_items(list: DeclList) -> Seq<Decl>;

impl View for DeclList {
    type V = Seq<DeclView>;

    open spec fn view(&self) -> Seq<DeclView> {
        decls_view(decl_list_items(*self))
    }
}

impl DeclList {
    /// The empty list.
    pub fn new() -> (list: DeclList)
        ensures
            decl_list_items(list) == Seq::<Decl>::empty(),
    {
        DeclList::multi(Vec::new())
    }

    /// The list of the given declarations, in their order:
    /// `SmallVec::from_vec`.
    #[verifier::external_body]
    pub fn multi(decls: Vec<Decl>) -> (list: DeclList)
        ensures
            decl_list_items(list) == decls@,
    {
        DeclList { items: SmallVec::from_vec(decls) }
    }

    /// The number of declarations: `SmallVec::len`.
    #[verifier::external_body]
    pub(crate) fn len(&self) -> (n: usize)
        ensures
            n == decl_list_items(*self).len(),
    {
        self.items.len()
    }

    /// The declaration at `i`: the index operator of `SmallVec`.
    #[verifier::external_body]
    pub(crate) fn get(&self, i: usize) -> (decl: &Decl)
        requires
            i < decl_list_items(*self).len(),
        ensures
            *decl == decl_list_items(*self)[i as int],
    {
        &self.items[i]
    }

    /// The declarations, in order.
    pub fn to_vec(&self) -> (decls: Vec<Decl>)
        ensures
            decls_view(decls@) == self@,
    {
        let mut decls: Vec<Decl> = Vec::new();
        let n = self.len();
        let mut i: usize = 0;
        while i < n
            invariant
                n == decl_list_items(*self).len(),
                i <= n,
                decls@.len() == i,
                forall|k: int| 0 <= k < i ==> (#[trigger] decls@[k])@ == decl_list_items(*self)[k]@,
            decreases n - i,
        {
            decls.push(self.get(i).clone());
            i += 1;
        }
        assert(decls_view(decls@) =~= self@);
        decls
    }

    /// The declarations as nodes, in order.
    pub fn to_nodes(&self) -> (nodes: Vec<AstNode>)
        ensures
            nodes_view(nodes@) == decl_nodes(self@),
    {
        let mut nodes: Vec<AstNode> = Vec::new();
        let n = self.len();
        let mut i: usize = 0;
        while i < n
            invariant
                n == decl_list_items(*self).len(),
                i <= n,
                nodes@.len() == i,
                forall|k: int|
                    0 <= k < i ==> (#[trigger] nodes@[k])@ == NodeView::Decl(
                        decl_list_items(*self)[k]@,
                    ),
            decreases n - i,
        {
            nodes.push(AstNode::Decl(self.get(i).clone()));
            i += 1;
        }
        assert(nodes_view(nodes@) =~= decl_nodes(self@));
        nodes
    }
}

impl Rule {
    /// A rule whose block holds the given nodes.
    pub fn new(selector: &str, nodes: Vec<AstNode>) -> (r: Rule)
        ensures
            r@ == (RuleView { selector: selector@, nodes: nodes_view(nodes@) }),
    {
        Rule { selector: selector.to_owned(), nodes }
    }

    /// A rule whose block holds the given declarations.
    pub fn new_with_decls(selector: &str, decls: DeclList) -> (r: Rule)
        ensures
            r@ == (RuleView { selector: selector@, nodes: decl_nodes(decls@) }),
    {
        Rule { selector: selector.to_owned(), nodes: decls.to_nodes() }
    }

    /// A rule whose block holds the given rules.
    pub fn new_with_rules(selector: &str, rules: Vec<Rule>) -> (r: Rule)
        ensures
            r@ == (RuleView { selector: selector@, nodes: rule_nodes(rules_view(rules@)) }),
    {
        let ghost all = rules@;
        let mut rest = rules;
        let mut nodes: Vec<AstNode> = Vec::new();
        let mut i: usize = 0;
        let n = rest.len();
        while i < n
            invariant
                n == all.len(),
                rest@.len() == n,
                i <= n,
                nodes@.len() == i,
                forall|k: int| i <= k < n ==> rest@[k] == all[k],
                forall|k: int| 0 <= k < i ==> (#[trigger] nodes@[k])@ == NodeView::Rule(all[k]@),
            decreases n - i,
        {
            let r = rest[i].clone();
            nodes.push(AstNode::Rule(r));
            i += 1;
        }
        assert(nodes_view(nodes@) =~= rule_nodes(rules_view(all)));
        Rule { selector: selector.to_owned(), nodes }
    }
}

/// A copy of the rules.
pub fn clone_rules(rules: &Vec<Rule>) -> (copy: Vec<Rule>)
    ensures
        rules_view(copy@) == rules_view(rules@),
{
    let mut copy: Vec<Rule> = Vec::new();
    let mut i: usize = 0;
    while i < rules.len()
        invariant
            i <= rules@.len(),
            copy@.len() == i,
            forall|k: int| 0 <= k < i ==> (#[trigger] copy@[k])@ == rules@[k]@,
        decreases rules@.len() - i,
    {
        copy.push(rules[i].clone());
        i += 1;
    }
    assert(rules_view(copy@) =~= rules_view(rules@));
    copy
}

/// A copy of the nodes.
pub fn clone_nodes(nodes: &Vec<AstNode>) -> (copy: Vec<AstNode>)
    ensures
        nodes_view(copy@) == nodes_view(nodes@),
{
    let mut copy: Vec<AstNode> = Vec::new();
    let mut i: usize = 0;
    while i < nodes.len()
        invariant
            i <= nodes@.len(),
            copy@.len() == i,
            forall|k: int| 0 <= k < i ==> (#[trigger] copy@[k])@ == nodes@[k]@,
        decreases nodes@.len() - i,
    {
        copy.push(nodes[i].clone());
        i += 1;
    }
    assert(nodes_view(copy@) =~= nodes_view(nodes@));
    copy
}

} // verus!

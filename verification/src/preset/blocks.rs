//! Registrations of custom properties that utilities bring along.

use vstd::prelude::*;
use vstd::string::*;
use crate::css::{rules_view, AstNode, Rule, RuleView};
use crate::process::{decl_node, opt_decl};
use crate::text::join3;
use crate::value::opt_str_text;

verus! {

/// The registration of a custom property: its syntax in quotes, no
/// inheritance, and its initial value if it has one.
pub open spec fn property_view(name: Seq<char>, syntax: Seq<char>, initial: Option<Seq<char>>) -> RuleView {
    RuleView {
        selector: "@property "@ + name,
        nodes: seq![
            decl_node("syntax"@, seq!['"'] + syntax + seq!['"']),
            decl_node("inherits"@, "false"@),
        ] + opt_decl("initial-value"@, initial),
    }
}

/// The registration of a custom property.
pub fn property(name: &str, syntax: &str, initial: Option<&str>) -> (r: Rule)
    ensures
        r@ == property_view(name@, syntax@, opt_str_text(initial)),
{
    proof {
        reveal_strlit("\"");
        assert("\""@ =~= seq!['"']);
    }
    let mut nodes: Vec<AstNode> = Vec::new();
    nodes.push(AstNode::decl("syntax", join3("\"", syntax, "\"").as_str()));
    nodes.push(AstNode::decl("inherits", "false"));
    match initial {
        Some(v) => {
            nodes.push(AstNode::decl("initial-value", v));
        },
        None => {},
    }
    let selector = crate::text::join2("@property ", name);
    let r = Rule { selector, nodes };
    assert(r@.nodes =~= property_view(name@, syntax@, opt_str_text(initial)).nodes);
    r
}

/// `--tw-translate-x` and `-y`.
pub open spec fn translate_xy_spec() -> Seq<RuleView> {
    seq![
        property_view("--tw-translate-x"@, "<length-percentage>"@, Some("0"@)),
        property_view("--tw-translate-y"@, "<length-percentage>"@, Some("0"@)),
    ]
}

/// `--tw-translate-x` and `-y`.
pub fn translate_xy() -> (rules: Vec<Rule>)
    ensures
        rules_view(rules@) == translate_xy_spec(),
{
    let mut rules: Vec<Rule> = Vec::new();
    rules.push(property("--tw-translate-x", "<length-percentage>", Some("0")));
    rules.push(property("--tw-translate-y", "<length-percentage>", Some("0")));
    assert(rules_view(rules@) =~= translate_xy_spec());
    rules
}

/// `--tw-translate-x`, `-y` and `-z`.
pub open spec fn translate_xyz_spec() -> Seq<RuleView> {
    seq![
        property_view("--tw-translate-x"@, "<length-percentage>"@, Some("0"@)),
        property_view("--tw-translate-y"@, "<length-percentage>"@, Some("0"@)),
        property_view("--tw-translate-z"@, "<length-percentage>"@, Some("0"@)),
    ]
}

/// `--tw-translate-x`, `-y` and `-z`.
pub fn translate_xyz() -> (rules: Vec<Rule>)
    ensures
        rules_view(rules@) == translate_xyz_spec(),
{
    let mut rules: Vec<Rule> = Vec::new();
    rules.push(property("--tw-translate-x", "<length-percentage>", Some("0")));
    rules.push(property("--tw-translate-y", "<length-percentage>", Some("0")));
    rules.push(property("--tw-translate-z", "<length-percentage>", Some("0")));
    assert(rules_view(rules@) =~= translate_xyz_spec());
    rules
}

/// `--tw-scale-x` and `-y`.
pub open spec fn scale_xy_spec() -> Seq<RuleView> {
    seq![
        property_view("--tw-scale-x"@, "<number>"@, Some("1"@)),
        property_view("--tw-scale-y"@, "<number>"@, Some("1"@)),
    ]
}

/// `--tw-scale-x` and `-y`.
pub fn scale_xy() -> (rules: Vec<Rule>)
    ensures
        rules_view(rules@) == scale_xy_spec(),
{
    let mut rules: Vec<Rule> = Vec::new();
    rules.push(property("--tw-scale-x", "<number>", Some("1")));
    rules.push(property("--tw-scale-y", "<number>", Some("1")));
    assert(rules_view(rules@) =~= scale_xy_spec());
    rules
}

/// `--tw-scale-x`, `-y` and `-z`.
pub open spec fn scale_xyz_spec() -> Seq<RuleView> {
    seq![
        property_view("--tw-scale-x"@, "<number>"@, Some("1"@)),
        property_view("--tw-scale-y"@, "<number>"@, Some("1"@)),
        property_view("--tw-scale-z"@, "<number>"@, Some("1"@)),
    ]
}

/// `--tw-scale-x`, `-y` and `-z`.
pub fn scale_xyz() -> (rules: Vec<Rule>)
    ensures
        rules_view(rules@) == scale_xyz_spec(),
{
    let mut rules: Vec<Rule> = Vec::new();
    rules.push(property("--tw-scale-x", "<number>", Some("1")));
    rules.push(property("--tw-scale-y", "<number>", Some("1")));
    rules.push(property("--tw-scale-z", "<number>", Some("1")));
    assert(rules_view(rules@) =~= scale_xyz_spec());
    rules
}

/// The rotations and skews that `transform` composes.
pub open spec fn transform_spec() -> Seq<RuleView> {
    seq![
        property_view("--tw-rotate-x"@, "<angle>"@, Some("0"@)),
        property_view("--tw-rotate-y"@, "<angle>"@, Some("0"@)),
        property_view("--tw-rotate-z"@, "<angle>"@, Some("0"@)),
        property_view("--tw-skew-x"@, "<angle>"@, Some("0"@)),
        property_view("--tw-skew-y"@, "<angle>"@, Some("0"@)),
    ]
}

/// The rotations and skews that `transform` composes.
pub fn transform() -> (rules: Vec<Rule>)
    ensures
        rules_view(rules@) == transform_spec(),
{
    let mut rules: Vec<Rule> = Vec::new();
    rules.push(property("--tw-rotate-x", "<angle>", Some("0")));
    rules.push(property("--tw-rotate-y", "<angle>", Some("0")));
    rules.push(property("--tw-rotate-z", "<angle>", Some("0")));
    rules.push(property("--tw-skew-x", "<angle>", Some("0")));
    rules.push(property("--tw-skew-y", "<angle>", Some("0")));
    assert(rules_view(rules@) =~= transform_spec());
    rules
}

/// `--tw-border-spacing-x` and `-y`.
pub open spec fn border_spacing_xy_spec() -> Seq<RuleView> {
    seq![
        property_view("--tw-border-spacing-x"@, "<length>"@, Some("0"@)),
        property_view("--tw-border-spacing-y"@, "<length>"@, Some("0"@)),
    ]
}

/// `--tw-border-spacing-x` and `-y`.
pub fn border_spacing_xy() -> (rules: Vec<Rule>)
    ensures
        rules_view(rules@) == border_spacing_xy_spec(),
{
    let mut rules: Vec<Rule> = Vec::new();
    rules.push(property("--tw-border-spacing-x", "<length>", Some("0")));
    rules.push(property("--tw-border-spacing-y", "<length>", Some("0")));
    assert(rules_view(rules@) =~= border_spacing_xy_spec());
    rules
}

/// `--tw-space-x-reverse`.
pub open spec fn space_x_reverse_spec() -> Seq<RuleView> {
    seq![
        property_view("--tw-space-x-reverse"@, "<number>"@, Some("0"@)),
    ]
}

/// `--tw-space-x-reverse`.
pub fn space_x_reverse() -> (rules: Vec<Rule>)
    ensures
        rules_view(rules@) == space_x_reverse_spec(),
{
    let mut rules: Vec<Rule> = Vec::new();
    rules.push(property("--tw-space-x-reverse", "<number>", Some("0")));
    assert(rules_view(rules@) =~= space_x_reverse_spec());
    rules
}

/// `--tw-space-y-reverse`.
pub open spec fn space_y_reverse_spec() -> Seq<RuleView> {
    seq![
        property_view("--tw-space-y-reverse"@, "<number>"@, Some("0"@)),
    ]
}

/// `--tw-space-y-reverse`.
pub fn space_y_reverse() -> (rules: Vec<Rule>)
    ensures
        rules_view(rules@) == space_y_reverse_spec(),
{
    let mut rules: Vec<Rule> = Vec::new();
    rules.push(property("--tw-space-y-reverse", "<number>", Some("0")));
    assert(rules_view(rules@) =~= space_y_reverse_spec());
    rules
}

/// `--tw-divide-x-reverse`.
pub open spec fn divide_x_reverse_spec() -> Seq<RuleView> {
    seq![
        property_view("--tw-divide-x-reverse"@, "<number>"@, Some("0"@)),
    ]
}

/// `--tw-divide-x-reverse`.
pub fn divide_x_reverse() -> (rules: Vec<Rule>)
    ensures
        rules_view(rules@) == divide_x_reverse_spec(),
{
    let mut rules: Vec<Rule> = Vec::new();
    rules.push(property("--tw-divide-x-reverse", "<number>", Some("0")));
    assert(rules_view(rules@) =~= divide_x_reverse_spec());
    rules
}

/// `--tw-divide-y-reverse`.
pub open spec fn divide_y_reverse_spec() -> Seq<RuleView> {
    seq![
        property_view("--tw-divide-y-reverse"@, "<number>"@, Some("0"@)),
    ]
}

/// `--tw-divide-y-reverse`.
pub fn divide_y_reverse() -> (rules: Vec<Rule>)
    ensures
        rules_view(rules@) == divide_y_reverse_spec(),
{
    let mut rules: Vec<Rule> = Vec::new();
    rules.push(property("--tw-divide-y-reverse", "<number>", Some("0")));
    assert(rules_view(rules@) =~= divide_y_reverse_spec());
    rules
}

/// The stops of a gradient.
pub open spec fn gradient_properties_spec() -> Seq<RuleView> {
    seq![
        property_view("--tw-gradient-from"@, "<color>"@, Some("#0000"@)),
        property_view("--tw-gradient-to"@, "<color>"@, Some("#0000"@)),
        property_view("--tw-gradient-from"@, "<color>"@, Some("transparent"@)),
        property_view("--tw-gradient-via"@, "<color>"@, Some("transparent"@)),
        property_view("--tw-gradient-to"@, "<color>"@, Some("transparent"@)),
        property_view("--tw-gradient-stops"@, "*"@, None),
        property_view("--tw-gradient-via-stops"@, "*"@, None),
        property_view("--tw-gradient-from-position"@, "<length-percentage>"@, Some("0%"@)),
        property_view("--tw-gradient-via-position"@, "<length-percentage>"@, Some("50%"@)),
        property_view("--tw-gradient-to-position"@, "<length-percentage>"@, Some("100%"@)),
    ]
}

/// The stops of a gradient.
pub fn gradient_properties() -> (rules: Vec<Rule>)
    ensures
        rules_view(rules@) == gradient_properties_spec(),
{
    let mut rules: Vec<Rule> = Vec::new();
    rules.push(property("--tw-gradient-from", "<color>", Some("#0000")));
    rules.push(property("--tw-gradient-to", "<color>", Some("#0000")));
    rules.push(property("--tw-gradient-from", "<color>", Some("transparent")));
    rules.push(property("--tw-gradient-via", "<color>", Some("transparent")));
    rules.push(property("--tw-gradient-to", "<color>", Some("transparent")));
    rules.push(property("--tw-gradient-stops", "*", None));
    rules.push(property("--tw-gradient-via-stops", "*", None));
    rules.push(property("--tw-gradient-from-position", "<length-percentage>", Some("0%")));
    rules.push(property("--tw-gradient-via-position", "<length-percentage>", Some("50%")));
    rules.push(property("--tw-gradient-to-position", "<length-percentage>", Some("100%")));
    assert(rules_view(rules@) =~= gradient_properties_spec());
    rules
}

/// `--tw-border-style`.
pub open spec fn border_style_spec() -> Seq<RuleView> {
    seq![
        property_view("--tw-border-style"@, "<custom-ident>"@, Some("solid"@)),
    ]
}

/// `--tw-border-style`.
pub fn border_style() -> (rules: Vec<Rule>)
    ensures
        rules_view(rules@) == border_style_spec(),
{
    let mut rules: Vec<Rule> = Vec::new();
    rules.push(property("--tw-border-style", "<custom-ident>", Some("solid")));
    assert(rules_view(rules@) =~= border_style_spec());
    rules
}

/// The parts of a box shadow with its rings.
pub open spec fn box_shadow_properties_spec() -> Seq<RuleView> {
    seq![
        property_view("--tw-shadow"@, "*"@, Some("0 0 #0000"@)),
        property_view("--tw-shadow-colored"@, "*"@, Some("0 0 #0000"@)),
        property_view("--tw-inset-shadow"@, "*"@, Some("0 0 #0000"@)),
        property_view("--tw-inset-shadow-colored"@, "*"@, Some("0 0 #0000"@)),
        property_view("--tw-ring-color"@, "*"@, None),
        property_view("--tw-ring-shadow"@, "*"@, Some("0 0 #0000"@)),
        property_view("--tw-inset-ring-color"@, "*"@, None),
        property_view("--tw-inset-ring-shadow"@, "*"@, Some("0 0 0 0 #0000"@)),
        property_view("--tw-ring-inset"@, "*"@, None),
        property_view("--tw-ring-offset-width"@, "<length>"@, Some("0px"@)),
        property_view("--tw-ring-offset-color"@, "<color>"@, Some("#fff"@)),
        property_view("--tw-ring-offset-shadow"@, "*"@, Some("0 0 #0000"@)),
    ]
}

/// The parts of a box shadow with its rings.
pub fn box_shadow_properties() -> (rules: Vec<Rule>)
    ensures
        rules_view(rules@) == box_shadow_properties_spec(),
{
    let mut rules: Vec<Rule> = Vec::new();
    rules.push(property("--tw-shadow", "*", Some("0 0 #0000")));
    rules.push(property("--tw-shadow-colored", "*", Some("0 0 #0000")));
    rules.push(property("--tw-inset-shadow", "*", Some("0 0 #0000")));
    rules.push(property("--tw-inset-shadow-colored", "*", Some("0 0 #0000")));
    rules.push(property("--tw-ring-color", "*", None));
    rules.push(property("--tw-ring-shadow", "*", Some("0 0 #0000")));
    rules.push(property("--tw-inset-ring-color", "*", None));
    rules.push(property("--tw-inset-ring-shadow", "*", Some("0 0 0 0 #0000")));
    rules.push(property("--tw-ring-inset", "*", None));
    rules.push(property("--tw-ring-offset-width", "<length>", Some("0px")));
    rules.push(property("--tw-ring-offset-color", "<color>", Some("#fff")));
    rules.push(property("--tw-ring-offset-shadow", "*", Some("0 0 #0000")));
    assert(rules_view(rules@) =~= box_shadow_properties_spec());
    rules
}

} // verus!

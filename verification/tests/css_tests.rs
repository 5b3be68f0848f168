use arrowcss::css::{AstNode, Decl, DeclList, Rule};
use arrowcss::process::{Utility, UtilityHandler};
use arrowcss::types::{CssProperty, Validator};

#[test]
fn test_css_decl_macro() {
    let decls: Vec<AstNode> = vec![
        AstNode::decl("color", "red"),
        AstNode::rule("@media", vec![AstNode::decl("display", "flex")]),
    ];

    assert_eq!(decls[0], AstNode::Decl(Decl::new("color", "red")));
    assert_eq!(
        decls[1],
        AstNode::Rule(Rule {
            selector: "@media".to_string(),
            nodes: vec![AstNode::Decl(Decl::new("display", "flex"))],
        })
    );
}

#[test]
fn test_rule_handler() {
    let rule = Utility::new(UtilityHandler::decl("font-size"))
        .support_negative()
        .infer_by(Validator::Property(CssProperty::FontSize));

    assert_eq!(rule.apply_to("[16px]"), Some(vec![AstNode::decl("font-size", "16px")]));
    assert_eq!(rule.apply_to("[larger]"), Some(vec![AstNode::decl("font-size", "larger")]));
    assert_eq!(rule.apply_to("[.5%]"), Some(vec![AstNode::decl("font-size", ".5%")]));
}

#[test]
fn test_rule_builder() {
    let rule = Utility::new(UtilityHandler::decl("font-size"))
        .support_negative()
        .infer_by(Validator::Property(CssProperty::FontSize));

    assert!(rule.supports_negative);
    assert!(rule.value_repr.validator.is_some());
}

#[test]
fn decl_list_keeps_order() {
    let list = DeclList::multi(vec![Decl::new("a", "1"), Decl::new("b", "2")]);
    assert_eq!(list.to_vec(), vec![Decl::new("a", "1"), Decl::new("b", "2")]);
    assert_eq!(DeclList::new().to_vec(), Vec::<Decl>::new());
    let rule = Rule::new_with_decls(".x", list);
    assert_eq!(rule.to_css_string(), ".x {\n  a: 1;\n  b: 2;\n}\n");
}

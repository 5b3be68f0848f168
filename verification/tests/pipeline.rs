use arrowcss::context::DesignSystem;
use arrowcss::css::{AstNode, Rule};
use arrowcss::generator::{Application, ArrowConfig, Features};
use arrowcss::parsing::UtilityCandidate;
use arrowcss::process::{Utility, UtilityHandler};
use arrowcss::table::Table;
use arrowcss::theme::{Theme, ThemeTable, ThemeValue};
use arrowcss::types::{CssProperty, Validator};
use arrowcss::variant::Variant;
use arrowcss::writer::Writer;

fn table(entries: &[(&str, &str)]) -> ThemeTable {
    let mut t: ThemeTable = Table::new();
    for (k, v) in entries {
        t.insert(k.to_string(), ThemeValue::Plain(v.to_string()));
    }
    t
}

#[test]
fn test_rule_to_css() {
    let nodes = Rule::new(
        "@media (min-width: 768px)",
        vec![AstNode::decl("color", "red"), AstNode::decl("background-color", "blue")],
    );
    let mut writer = Writer::default(String::new());
    nodes.to_css(&mut writer);
    assert_eq!(
        writer.dest,
        "@media (min-width: 768px) {\n  color: red;\n  background-color: blue;\n}\n"
    );
}

#[test]
fn test_handle_background_position() {
    let rule = Utility::new(UtilityHandler::decl("background-position"))
        .support_negative()
        .infer_by(Validator::Property(CssProperty::BackgroundPosition));

    assert_eq!(rule.apply_to("[top]"), Some(vec![AstNode::decl("background-position", "top")]));
    assert_eq!(
        rule.apply_to("[center]").unwrap(),
        vec![AstNode::decl("background-position", "center")]
    );
    assert_eq!(
        rule.apply_to("[50% 50%]").unwrap(),
        vec![AstNode::decl("background-position", "50% 50%")]
    );
    assert_eq!(
        rule.apply_to("[50% top]").unwrap(),
        vec![AstNode::decl("background-position", "50% top")]
    );
    assert_eq!(
        rule.apply_to("[left 50%]").unwrap(),
        vec![AstNode::decl("background-position", "left 50%")]
    );
    assert_eq!(
        rule.apply_to("[bottom 10px right 20px]").unwrap(),
        vec![AstNode::decl("background-position", "bottom 10px right 20px")]
    );
}

#[test]
fn resolves_with_variants() {
    let mut theme = Theme::default();
    theme.insert("colors".to_string(), table(&[("red-500", "#ef4444")]));
    let mut design = DesignSystem::new(theme);
    let colors = table(&[("red-500", "#ef4444")]);
    design.register_utility(
        "text".to_string(),
        Utility::new(UtilityHandler::decl("color")).allow_values(colors),
    );
    design.register_variant("hover".to_string(), Variant::new_static("&:hover"));
    design.register_variant("md".to_string(), Variant::new_static("@media (min-width: 768px)"));
    let r = design.resolve("md:hover:text-red-500").unwrap();
    assert_eq!(
        r.rule.to_css_string(),
        "@media (min-width: 768px) {\n  .md\\:hover\\:text-red-500:hover {\n    color: #ef4444;\n  }\n}\n"
    );
    assert!(design.resolve("md:hover:text-blue-500").is_none());
    let mut app = Application::new(ArrowConfig { theme: Theme::default(), features: Features { strict_mode: false } });
    app.replace_design(design);
    let css = app.run(&vec!["hover:text-red-500".to_string(), "text-red-500".to_string(), "nope".to_string()]);
    assert_eq!(
        css,
        ".text-red-500 {\n  color: #ef4444;\n}\n.hover\\:text-red-500:hover {\n  color: #ef4444;\n}\n"
    );
    let c = UtilityCandidate::with_key("flex");
    assert_eq!(c.key, "flex");
}

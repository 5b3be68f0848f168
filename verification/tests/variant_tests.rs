use arrowcss::context::DesignSystem;
use arrowcss::css::{AstNode, Rule};
use arrowcss::theme::Theme;
use arrowcss::variant::{LayerList, Variant as VariantDef, VariantCandidate};
use arrowcss::variant_parse::{
    ArbitraryVariant, ArbitraryVariantKind, LiteralVariant, Modifier, ParserError, Variant,
    VariantKind,
};

fn create_variant(input: &str) -> Variant {
    Variant::parse(input).unwrap()
}

#[test]
fn test_plain_variant() {
    assert_eq!(
        create_variant("group-hover:"),
        Variant {
            raw: "group-hover:".into(),
            kind: VariantKind::Literal(LiteralVariant {
                value: "group-hover".into(),
                modifier: None,
                arbitrary: None,
            })
        }
    );
}

#[test]
fn test_arbitrary_variant() {
    assert_eq!(
        create_variant("[@media(min-width:200px)]:"),
        Variant {
            raw: "[@media(min-width:200px)]:".into(),
            kind: VariantKind::Arbitrary(ArbitraryVariant {
                kind: ArbitraryVariantKind::Nested,
                value: "@media(min-width:200px)".into(),
            })
        }
    );
}

// group-[&:hover]
#[test]
fn test_literal_variant_with_arbitrary() {
    assert_eq!(
        create_variant("group-[&:hover]:"),
        Variant {
            raw: "group-[&:hover]:".into(),
            kind: VariantKind::Literal(LiteralVariant {
                value: "group".into(),
                modifier: None,
                arbitrary: Some("&:hover".into()),
            })
        }
    );
}

// @md
#[test]
fn test_at() {
    assert_eq!(
        create_variant("@md:"),
        Variant {
            raw: "@md:".into(),
            kind: VariantKind::Literal(LiteralVariant {
                value: "@md".into(),
                modifier: None,
                arbitrary: None,
            })
        }
    );
}

#[test]
fn variant_grammar_edges() {
    assert_eq!(Variant::parse("hover"), Err(ParserError::UnexpectedEnd));
    assert_eq!(Variant::parse(":"), Err(ParserError::UnexpectedEnd));
    assert_eq!(Variant::parse("[&:hover:"), Err(ParserError::UnexpectedEnd));
    assert_eq!(Variant::parse("[color]:"), Err(ParserError::UnexpectedToken));
    assert_eq!(Variant::parse("[&]x:"), Err(ParserError::UnexpectedToken));
    assert_eq!(Variant::parse("group/:"), Err(ParserError::UnexpectedEnd));
    assert_eq!(
        create_variant("[&:nth-child(3)]:flex"),
        Variant {
            raw: "[&:nth-child(3)]:".into(),
            kind: VariantKind::Arbitrary(ArbitraryVariant {
                kind: ArbitraryVariantKind::Replacement,
                value: "&:nth-child(3)".into(),
            })
        }
    );
    assert_eq!(
        create_variant("group-hover/name:flex"),
        Variant {
            raw: "group-hover/name:".into(),
            kind: VariantKind::Literal(LiteralVariant {
                value: "group-hover".into(),
                modifier: Some(Modifier::Literal("name".into())),
                arbitrary: None,
            })
        }
    );
    assert_eq!(
        create_variant("data-[state=open]/[x]:"),
        Variant {
            raw: "data-[state=open]/[x]:".into(),
            kind: VariantKind::Literal(LiteralVariant {
                value: "data".into(),
                modifier: Some(Modifier::Arbitrary("x".into())),
                arbitrary: Some("state=open".into()),
            })
        }
    );
}

fn rule() -> Vec<Rule> {
    vec![Rule::new(".x", vec![AstNode::decl("color", "red")])]
}

fn design() -> DesignSystem {
    let mut d = DesignSystem::new(Theme::default());
    arrowcss::preset::variants::load_variants(&mut d);
    d
}

fn selector_of(token_variant: &str) -> String {
    let d = design();
    let chars: Vec<char> = token_variant.chars().collect();
    let c = d.parse_variant(&chars).unwrap();
    let out = c.handle(rule());
    assert_eq!(out.len(), 1);
    out[0].selector.clone()
}

#[test]
fn variants_rewrite_selectors() {
    assert_eq!(selector_of("hover"), ".x:hover");
    assert_eq!(selector_of("before"), ".x::before");
    assert_eq!(selector_of("group-hover"), ".group:hover .x");
    assert_eq!(selector_of("peer-checked"), ".peer:checked ~ .x");
    assert_eq!(selector_of("group-[&:hover]"), ".group:hover .x");
    assert_eq!(selector_of("group-has-[:checked]"), ".group:has(:checked) .x");
    assert_eq!(selector_of("data-[state=open]"), ".x[data-state=open]");
    assert_eq!(selector_of("aria-checked"), ".x[aria-checked=\"true\"]");
    assert_eq!(selector_of("[&:nth-child(3)]"), ".x:nth-child(3)");
    assert_eq!(selector_of("has-[>_img]"), ".x:has(> img)");
    assert_eq!(selector_of("group-peer-hover"), ".group.peer:hover ~  .x");
    assert_eq!(LayerList::new().to_vec().len(), 0);
}

#[test]
fn variants_nest_in_at_rules() {
    assert_eq!(selector_of("dark"), "@media (prefers-color-scheme: dark)");
    assert_eq!(selector_of("[@media(min-width:200px)]"), "@media(min-width:200px)");
    assert_eq!(selector_of("min-[200px]"), "@media (min-width: 200px)");
    assert_eq!(selector_of("supports-[display:grid]"), "@supports (display:grid)");
    let d = design();
    for bad in ["nope", "hover-x", "group", "data", "[color:red]", "min"] {
        let chars: Vec<char> = bad.chars().collect();
        assert!(d.parse_variant(&chars).is_none(), "{}", bad);
    }
}

#[test]
fn layers_wrap_the_processor_outermost_first() {
    let layers = LayerList::from_vec(vec![
        VariantDef::new_composable(".group", " &"),
        VariantDef::new_composable(":is(", ")"),
    ]);
    assert_eq!(layers.to_vec().len(), 2);
    let c = VariantCandidate::new(VariantDef::new_static("&:hover"), "group").with_layers(layers);
    assert_eq!(c.pattern(), ".group:is(:hover) &");
    assert_eq!(c.handle(rule())[0].selector, ".group:is(:hover) .x");
    let f = VariantCandidate::new(VariantDef::new_functional("&[data-", "]"), "data")
        .with_value(Some(arrowcss::parsing::MaybeArbitrary::Arbitrary("a_b".to_string())))
        .with_modifier(None)
        .arbitrary();
    assert_eq!(f.pattern(), "&[data-a b]");
    assert!(f.arbitrary);
}

#[test]
fn variant_composition_is_right_to_left() {
    let hover = VariantCandidate::new(VariantDef::new_static("&:hover"), "hover");
    let md = VariantCandidate::new(VariantDef::new_static("@media (min-width: 768px)"), "md");
    // [md, hover] applied to R is md applied to (hover applied to R)
    let both = md.handle(hover.handle(rule()));
    assert_eq!(
        both[0].to_css_string(),
        "@media (min-width: 768px) {\n  .x:hover {\n    color: red;\n  }\n}\n"
    );
    // a selector variant outside an at-rule reaches the rule inside
    let other = hover.handle(md.handle(rule()));
    assert_eq!(other, both);
}

use arrowcss::builder::{RawValueRepr, ThemeParseError, UtilityBuilder};
use arrowcss::context::DesignSystem;
use arrowcss::css::{AstNode, Decl, Rule};
use arrowcss::generator::{count_distinct, OrderingItem, OrderingMap};
use arrowcss::ordering::{OrderingKey, UtilityGroup};
use arrowcss::parsing::{
    find_closing, find_colon, key_prefix, read_arbitrary_utility, read_modifier, read_tail,
    split_segments, take_flags, MaybeArbitrary, UtilityCandidate,
};
use arrowcss::preset::adder::{add_utility, RuleAdder, UtilityAdder};
use arrowcss::process::{AdditionalCss, AdditionalCssHandler, MetaData, Utility, UtilityHandler};
use arrowcss::sorting::text_before;
use arrowcss::table::Table;
use arrowcss::theme::{Theme, ThemeTable, ThemeValue};
use arrowcss::types::{CssDataType, CssProperty, Validator};
use arrowcss::value::{as_color, check_number, decode_arbitrary_value, DeclTemplate};
use arrowcss::watch::{on_changes, Change, ChangeKind, WatchAction};
use arrowcss::writer::Writer;

fn chars(s: &str) -> Vec<char> {
    s.chars().collect()
}

fn plain(entries: &[(&str, &str)]) -> ThemeTable {
    let mut t: ThemeTable = Table::new();
    for (k, v) in entries {
        t.insert(k.to_string(), ThemeValue::Plain(v.to_string()));
    }
    t
}

#[test]
fn with_key_sets_only_the_key() {
    let c = UtilityCandidate::with_key("bg");
    assert_eq!(
        c,
        UtilityCandidate {
            key: "bg".to_string(),
            value: None,
            modifier: None,
            arbitrary: false,
            important: false,
            negative: false,
        }
    );
    assert_eq!(c.take_fraction(), None);
}

#[test]
fn take_fraction_needs_two_names() {
    let mut c = UtilityCandidate::with_key("w");
    c.value = Some(MaybeArbitrary::Named("1".to_string()));
    assert_eq!(c.take_fraction(), None);
    c.modifier = Some(MaybeArbitrary::Named("2".to_string()));
    assert_eq!(c.take_fraction(), Some("1/2".to_string()));
    c.modifier = Some(MaybeArbitrary::Arbitrary("2".to_string()));
    assert_eq!(c.take_fraction(), None);
}

#[test]
fn meta_data_starts_without_modifier() {
    let m = MetaData::new("blue-500");
    assert_eq!(m.raw, "blue-500");
    assert_eq!(m.modifier, None);
    assert_eq!(m.with_modifier(Some("50".to_string())).modifier, Some("50".to_string()));
}

#[test]
fn writer_indents_lazily_and_minifies() {
    let rule = Rule::new(
        "@media print",
        vec![AstNode::rule(".a", vec![AstNode::decl("color", "red")]), AstNode::decl("x", "y")],
    );
    let mut w = Writer::default(String::new());
    rule.to_css(&mut w);
    assert_eq!(w.dest, "@media print {\n  .a {\n    color: red;\n  }\n  x: y;\n}\n");
    let mut m = Writer::minified(String::new());
    rule.to_css(&mut m);
    assert_eq!(m.dest, "@media print{.a{color:red;}x:y;}");
    let mut w = Writer::default("/* head */".to_string());
    w.newline();
    w.indent();
    w.write_str("a");
    w.whitespace();
    w.write_char('b');
    w.newline();
    w.dedent();
    w.dedent();
    w.write_str("c");
    assert_eq!(w.dest, "/* head */\n  a b\nc");
}

#[test]
fn rules_read_back() {
    let rule = Rule::new(
        "@media (min-width: 768px)",
        vec![
            AstNode::decl("color", "red"),
            AstNode::rule(".a:hover", vec![AstNode::decl("--x", "a: b; c")]),
            AstNode::rule("", vec![]),
        ],
    );
    assert_eq!(Rule::parse(&rule.to_css_string()), Some(rule));
    // a name with a colon does not come back as it was
    let odd = Rule::new(".a", vec![AstNode::decl("a:b", "c")]);
    assert_eq!(Rule::parse(&odd.to_css_string()), None);
    let odder = Rule::new(".a", vec![AstNode::decl("a: b", "c")]);
    assert_eq!(
        Rule::parse(&odder.to_css_string()),
        Some(Rule::new(".a", vec![AstNode::Decl(Decl::new("a", "b: c"))]))
    );
    // nor does a selector of two lines
    let two = Rule::new(".a\n.b", vec![]);
    assert_eq!(Rule::parse(&two.to_css_string()), None);
    assert_eq!(Rule::parse(""), None);
    assert_eq!(Rule::parse(".a {\n}\n.b {\n}\n"), None);
    assert_eq!(Rule::parse(".a {\n  color red;\n}\n"), None);
    assert_eq!(Rule::parse(".a {\n color: red;\n}\n"), None);
}

#[test]
fn arbitrary_values_decode() {
    assert_eq!(decode_arbitrary_value("a_b"), "a b");
    assert_eq!(decode_arbitrary_value("a\\_b"), "a_b");
    assert_eq!(decode_arbitrary_value("_\\__"), " _ ");
    assert_eq!(decode_arbitrary_value("a\\b"), "a\\b");
    assert_eq!(decode_arbitrary_value(""), "");
}

#[test]
fn colors_mix_with_numeric_modifiers() {
    assert_eq!(as_color("#fff", Some("50")), "color-mix(in srgb, #fff 50%, transparent)");
    assert_eq!(as_color("#fff", Some("12.5")), "color-mix(in srgb, #fff 12.5%, transparent)");
    assert_eq!(as_color("#fff", Some("half")), "#fff");
    assert_eq!(as_color("#fff", Some("1.2.3")), "#fff");
    assert_eq!(as_color("#fff", Some(".")), "#fff");
    assert_eq!(as_color("#fff", Some("")), "#fff");
    assert_eq!(as_color("#fff", None), "#fff");
    assert!(check_number("0.5"));
    assert!(check_number(".5"));
    assert!(!check_number("5%"));
}

#[test]
fn templates_render() {
    assert_eq!(DeclTemplate::value("a").render("v", None), Decl::new("a", "v"));
    assert_eq!(DeclTemplate::fixed("a", "f").render("v", Some("50")), Decl::new("a", "f"));
    assert_eq!(DeclTemplate::wrapped("a", "x(", ")").render("v", None), Decl::new("a", "x(v)"));
    assert_eq!(
        DeclTemplate::color("a").render("red", Some("50")),
        Decl::new("a", "color-mix(in srgb, red 50%, transparent)")
    );
}

#[test]
fn token_grammar_pieces() {
    assert_eq!(find_closing(&chars("a[b]c]d"), 0), 5);
    assert_eq!(find_closing(&chars("abc"), 0), 3);
    assert_eq!(find_colon(&chars("[a:b]:c"), 0), 5);
    assert_eq!(find_colon(&chars("a]:b"), 0), 2);
    assert_eq!(
        split_segments(&chars("md:[&:hover]:bg-[url(a:b)]")),
        vec![chars("md"), chars("[&:hover]"), chars("bg-[url(a:b)]")]
    );
    assert_eq!(split_segments(&chars("")), vec![chars("")]);
    assert_eq!(take_flags(&chars("!-mx-4")), (true, true, chars("mx-4")));
    assert_eq!(take_flags(&chars("mx-4!")), (true, false, chars("mx-4")));
    assert_eq!(take_flags(&chars("-")), (false, true, chars("")));
    assert_eq!(take_flags(&chars("!")), (true, false, chars("")));
    assert!(key_prefix(&chars("bg-red"), &chars("bg")));
    assert!(key_prefix(&chars("bg"), &chars("bg")));
    assert!(!key_prefix(&chars("bgx"), &chars("bg")));
    assert!(!key_prefix(&chars("b"), &chars("bg")));
    assert!(!key_prefix(&chars("bg"), &chars("")));
    assert_eq!(read_modifier(&chars("[a]")), Some(MaybeArbitrary::Arbitrary("a".to_string())));
    assert_eq!(read_modifier(&chars("50")), Some(MaybeArbitrary::Named("50".to_string())));
    assert_eq!(read_modifier(&chars("[a")), None);
    assert_eq!(read_modifier(&chars("")), None);
    assert_eq!(
        read_arbitrary_utility(&chars("[color:red]")),
        Some(("color".to_string(), "red".to_string()))
    );
    assert_eq!(read_arbitrary_utility(&chars("[color]")), None);
    assert_eq!(read_arbitrary_utility(&chars("[:red]")), None);
    let t = read_tail(&chars("-[10px]/[a]")).unwrap();
    assert_eq!(t.value, Some(MaybeArbitrary::Arbitrary("10px".to_string())));
    assert_eq!(t.modifier, Some(MaybeArbitrary::Arbitrary("a".to_string())));
    let t = read_tail(&chars("-blue-500/50")).unwrap();
    assert_eq!(t.value, Some(MaybeArbitrary::Named("blue-500".to_string())));
    assert_eq!(t.modifier, Some(MaybeArbitrary::Named("50".to_string())));
    let t = read_tail(&chars("")).unwrap();
    assert_eq!((t.value, t.modifier), (None, None));
    assert!(read_tail(&chars("-")).is_none());
    assert!(read_tail(&chars("x")).is_none());
    assert!(read_tail(&chars("-/5")).is_none());
    assert!(read_tail(&chars("-[a")).is_none());
    assert!(read_tail(&chars("-[a]b")).is_none());
    assert!(read_tail(&chars("-a/")).is_none());
}

#[test]
fn longest_key_wins() {
    let mut d = DesignSystem::new(Theme::default());
    for key in ["border", "border-x", "b"] {
        d.register_utility(
            key.to_string(),
            Utility::new(UtilityHandler::decl("p")).allow_values(plain(&[("2", "2px"), ("x-2", "no")])),
        );
    }
    let c = d.parse_utility(&chars("border-x-2")).unwrap();
    assert_eq!(c.key, "border-x");
    assert_eq!(c.value, Some(MaybeArbitrary::Named("2".to_string())));
    assert_eq!(d.parse_utility(&chars("border-2")).unwrap().key, "border");
    assert!(d.parse_utility(&chars("bord-2")).is_none());
    assert_eq!(
        d.resolve("border-x-2").unwrap().rule.to_css_string(),
        ".border-x-2 {\n  p: 2px;\n}\n"
    );
    assert_eq!(
        d.resolve("border-x-2!").unwrap().rule.to_css_string(),
        ".border-x-2\\! {\n  p: 2px !important;\n}\n"
    );
    assert_eq!(
        d.resolve("[mask-type:luminance]").unwrap().rule.to_css_string(),
        ".\\[mask-type\\:luminance\\] {\n  mask-type: luminance;\n}\n"
    );
}

#[test]
fn first_definition_that_accepts_wins() {
    let mut d = DesignSystem::new(Theme::default());
    d.register_utility(
        "bg".to_string(),
        Utility::new(UtilityHandler::decl("background-color"))
            .allow_values(plain(&[("red", "#f00")]))
            .infer_by(Validator::Property(CssProperty::Color)),
    );
    d.register_utility(
        "bg".to_string(),
        Utility::new(UtilityHandler::decl("background-position"))
            .allow_values(plain(&[("top", "top"), ("red", "shadowed")]))
            .infer_by(Validator::Property(CssProperty::BackgroundPosition)),
    );
    let css = |t: &str| d.resolve(t).map(|r| r.rule.to_css_string());
    assert_eq!(css("bg-red"), Some(".bg-red {\n  background-color: #f00;\n}\n".to_string()));
    assert_eq!(css("bg-top"), Some(".bg-top {\n  background-position: top;\n}\n".to_string()));
    assert_eq!(
        css("bg-[#123]"),
        Some(".bg-\\[\\#123\\] {\n  background-color: #123;\n}\n".to_string())
    );
    assert_eq!(
        css("bg-[left_50%]"),
        Some(".bg-\\[left_50\\%\\] {\n  background-position: left 50%;\n}\n".to_string())
    );
    assert_eq!(css("bg-[what_is_this]"), None);
    assert_eq!(css("bg-blue"), None);
    assert_eq!(css("bg"), None);
}

#[test]
fn validators_ask_the_css_parser() {
    let length = Validator::DataType(CssDataType::Length);
    assert!(length.validate("10px"));
    assert!(!length.validate("red"));
    assert!(Validator::DataType(CssDataType::Angle).validate("45deg"));
    assert!(!Validator::DataType(CssDataType::Angle).validate("45px"));
    assert!(Validator::DataType(CssDataType::Percentage).validate("50%"));
    assert!(Validator::DataType(CssDataType::Number).validate("1.5"));
    assert!(Validator::DataType(CssDataType::Color).validate("#fff"));
    assert!(Validator::DataType(CssDataType::Any).validate("anything at all"));
    assert!(Validator::Property(CssProperty::FontWeight).validate("700"));
    assert!(!Validator::Property(CssProperty::FontWeight).validate("heavy"));
    assert_eq!(CssProperty::BackgroundPosition.name(), "background-position");
    assert_eq!(CssDataType::LengthPercentage.syntax(), "<length-percentage>");
}

#[test]
fn builder_resolves_theme_keys() {
    let mut theme = Theme::default();
    theme.insert("spacing".to_string(), plain(&[("4", "1rem")]));
    let mut b = UtilityBuilder::new("basis", UtilityHandler::decl("flex-basis"));
    b.with_theme("flexBasis").with_theme("spacing").support_negative().with_ordering(OrderingKey::Size);
    b.with_group(UtilityGroup::Filter).with_wrapper("&>*").support_fraction().with_opacity_modifier();
    b.with_validator(Validator::DataType(CssDataType::Length));
    b.with_modifier(RawValueRepr::new("spacing").with_validator(Validator::DataType(CssDataType::Any)));
    b.with_additional_css(AdditionalCss::Rules(vec![Rule::new("@x", vec![])]));
    let (key, u) = b.parse(&theme).unwrap();
    assert_eq!(key, "basis");
    assert_eq!(u.value_repr.tables, vec![plain(&[("4", "1rem")])]);
    assert!(u.supports_negative && u.supports_fraction && u.opacity_modifier);
    assert_eq!(u.ordering_key, Some(OrderingKey::Size));
    assert_eq!(u.group, Some(UtilityGroup::Filter));
    assert_eq!(u.wrapper, Some("&>*".to_string()));
    assert_eq!(u.modifier.as_ref().unwrap().tables.len(), 1);
    let applied = u.apply(&{
        let mut c = UtilityCandidate::with_key("basis");
        c.value = Some(MaybeArbitrary::Named("4".to_string()));
        c.negative = true;
        c
    })
    .unwrap();
    assert_eq!(applied.nodes, vec![AstNode::decl("flex-basis", "-1rem")]);
    assert_eq!(applied.additional, vec![Rule::new("@x", vec![])]);

    let mut broken = UtilityBuilder::new("x", UtilityHandler::decl("x"));
    broken.handler = None;
    assert_eq!(broken.parse(&theme), Err(ThemeParseError::MissingHandler("x".to_string())));
    assert_eq!(
        ThemeParseError::MissingHandler("x".to_string()).to_string(),
        "utility without a handler: x"
    );
    assert_eq!(
        ThemeParseError::InvalidValue("colors".to_string(), "red".to_string()).to_string(),
        "unexpected theme value: colors.red"
    );
}

#[test]
fn checked_application_takes_the_verdicts() {
    let u = Utility::new(UtilityHandler::decl("width"));
    let mut c = UtilityCandidate::with_key("w");
    c.value = Some(MaybeArbitrary::Arbitrary("10px_oops".to_string()));
    assert_eq!(u.apply_checked(&c, false, true), None);
    assert_eq!(
        u.apply_checked(&c, true, true).unwrap().nodes,
        vec![AstNode::decl("width", "10px oops")]
    );
    c.modifier = Some(MaybeArbitrary::Arbitrary("x".to_string()));
    assert_eq!(u.apply_checked(&c, true, true), None);
    let v = Utility::new(UtilityHandler::decl("width")).allow_modifiers(plain(&[("a", "b")]));
    assert!(v.apply_checked(&c, true, true).is_some());
    assert_eq!(v.apply_checked(&c, true, false), None);
    let fixed = Utility::new(UtilityHandler::fixed("display", "block"));
    assert_eq!(
        fixed.apply(&UtilityCandidate::with_key("block")).unwrap().nodes,
        vec![AstNode::decl("display", "block")]
    );
    assert_eq!(fixed.apply(&c), None);
}

#[test]
fn additional_css_by_value() {
    let rules = vec![Rule::new("@property --x", vec![])];
    assert_eq!(rules.handle("anything"), Some(vec![Rule::new("@property --x", vec![])]));
    let mut frames: ThemeTable = Table::new();
    frames.insert(
        "spin".to_string(),
        ThemeValue::Keyframes(vec![Rule::new("to", vec![AstNode::decl("rotate", "1turn")])]),
    );
    frames.insert("plain".to_string(), ThemeValue::Plain("x".to_string()));
    let css = AdditionalCss::Keyframes(frames);
    assert_eq!(
        css.handle("spin").unwrap()[0].to_css_string(),
        "@keyframes spin {\n  to {\n    rotate: 1turn;\n  }\n}\n"
    );
    assert_eq!(css.handle("plain"), None);
    assert_eq!(css.handle("none"), None);
}

#[test]
fn adders_register_in_order() {
    let mut theme = Theme::default();
    theme.insert("colors".to_string(), plain(&[("red", "#f00")]));
    let mut design = DesignSystem::new(theme);
    {
        let mut rules = RuleAdder::new(&mut design);
        let mut a = rules.add("text", UtilityHandler::decl("color"));
        a.builder.with_theme("colors");
        a.finish();
        let b = rules.add("fill", UtilityHandler::decl("fill"));
        b.finish();
        rules.done();
    }
    UtilityAdder::new(&mut design, "stroke", UtilityHandler::decl("stroke")).finish();
    add_utility(&mut design, "caret", UtilityHandler::decl("caret-color"));
    let keys: Vec<&str> = design.utilities.iter().map(|(k, _)| k.as_str()).collect();
    assert_eq!(keys, vec!["text", "fill", "stroke", "caret"]);
    assert_eq!(design.utilities[0].1.value_repr.tables.len(), 1);
    assert!(design.resolve("text-red").is_some());
}

#[test]
fn tables_behave_like_maps() {
    let mut t: Table<u8> = Table::new();
    assert_eq!(t.len(), 0);
    t.insert("a".to_string(), 1);
    t.insert("b".to_string(), 2);
    t.insert("a".to_string(), 3);
    assert_eq!(t.len(), 2);
    assert_eq!(t.get("a"), Some(&3));
    assert_eq!(t.find("b"), Some(1));
    assert_eq!(t.key_at(0), "a");
    assert_eq!(*t.value_at(1), 2);
    assert!(t.contains_key("b") && !t.contains_key("c"));
    assert_eq!(t.remove("a"), Some(3));
    assert_eq!(t.remove("a"), None);
    assert_eq!(t.into_entries(), vec![("b".to_string(), 2)]);
}

#[test]
fn order_of_texts_and_items() {
    assert!(text_before(&chars("a"), &chars("b")));
    assert!(text_before(&chars("a"), &chars("ab")));
    assert!(text_before(&chars(""), &chars("a")));
    assert!(!text_before(&chars("a"), &chars("a")));
    assert!(!text_before(&chars("b"), &chars("ab")));
    assert!(OrderingKey::Margin.rank() < OrderingKey::MarginAxis.rank());
    assert!(OrderingKey::MarginSide.rank() < OrderingKey::Padding.rank());
    assert!(OrderingKey::FromColor.rank() < OrderingKey::ToColor.rank());
    assert_eq!(UtilityGroup::from_index(UtilityGroup::Filter.index()), UtilityGroup::Filter);
    assert_eq!(UtilityGroup::Transform.as_decls().to_vec()[0].name, "transform");

    let design = DesignSystem::new(Theme::default());
    let item = |name: &str, key: Option<OrderingKey>, weight: u128| {
        let mut r = design_result(name);
        r.ordering_key = key;
        OrderingItem::new(name.to_string(), r, weight)
    };
    let mut map = OrderingMap::new();
    for it in [
        item("z", Some(OrderingKey::Margin), 0),
        item("b", None, 0),
        item("a", None, 4),
        item("y", Some(OrderingKey::Padding), 0),
        item("a2", None, 0),
        item("x", Some(OrderingKey::Margin), 2),
    ] {
        assert!(!map.contains_name(&it.name));
        map.insert(it);
    }
    let names: Vec<&str> = map.get_ordered().iter().map(|i| i.name.as_str()).collect();
    assert_eq!(names, vec!["z", "x", "y", "a2", "b", "a"]);
    assert!(map.contains_name("y"));
    let _ = design;
}

fn design_result(name: &str) -> arrowcss::context::GenerateResult {
    arrowcss::context::GenerateResult {
        raw_token: name.to_string(),
        rule: Rule::new(name, vec![]),
        additional: vec![],
        variants: vec![],
        group: None,
        ordering_key: None,
    }
}

#[test]
fn weights_follow_registration() {
    let mut d = DesignSystem::new(Theme::default());
    d.register_variant("hover".to_string(), arrowcss::variant::Variant::new_static("&:hover"));
    d.register_variant("md".to_string(), arrowcss::variant::Variant::new_static("@media x"));
    assert_eq!(d.bit_of("hover"), 0);
    assert_eq!(d.bit_of("md"), 1);
    assert_eq!(d.bit_of("unknown"), 127);
    assert_eq!(d.weight_of(&vec![]), 0);
    assert_eq!(d.weight_of(&vec!["md".to_string(), "hover".to_string()]), 3);
    assert_eq!(d.weight_of(&vec!["x".to_string()]), 1u128 << 127);
}

#[test]
fn distinct_tokens_are_counted_once() {
    let t: Vec<String> = ["a", "b", "a", "c", "b"].iter().map(|s| s.to_string()).collect();
    assert_eq!(count_distinct(&t), 3);
    assert_eq!(count_distinct(&vec![]), 0);
}

#[test]
fn watcher_regenerates_for_changed_sources() {
    let change = |kind, path: &str, is_source| Change { kind, path: path.to_string(), is_source };
    assert_eq!(on_changes(&vec![]), WatchAction::Skip);
    assert_eq!(
        on_changes(&vec![
            change(ChangeKind::Remove, "a.html", true),
            change(ChangeKind::Other, "b.html", true),
            change(ChangeKind::Modify, "c.txt", false),
        ]),
        WatchAction::Skip
    );
    assert_eq!(
        on_changes(&vec![
            change(ChangeKind::Modify, "b.html", true),
            change(ChangeKind::Create, "a.html", true),
            change(ChangeKind::Modify, "b.html", true),
            change(ChangeKind::Remove, "c.html", true),
        ]),
        WatchAction::Regenerate(vec!["b.html".to_string(), "a.html".to_string()])
    );
}

use arrowcss::builder::UtilityBuilder;
use arrowcss::config::{read_static_utilities, ConfigError, JsonValue};
use arrowcss::context::{DesignSystem, RejectReason};
use arrowcss::ordering::{OrderingKey, UtilityGroup};
use arrowcss::table::Table;
use arrowcss::theme::{Theme, ThemeTable, ThemeValue};
use arrowcss::types::{CssDataType, CssProperty, Validator};
use arrowcss::value::DeclValue;

fn parse(text: &str) -> JsonValue {
    fn convert(v: serde_json::Value) -> JsonValue {
        match v {
            serde_json::Value::Null => JsonValue::Null,
            serde_json::Value::Bool(b) => JsonValue::Bool(b),
            serde_json::Value::Number(n) => JsonValue::Number(n.to_string()),
            serde_json::Value::String(s) => JsonValue::String(s),
            serde_json::Value::Array(a) => JsonValue::Array(a.into_iter().map(convert).collect()),
            serde_json::Value::Object(o) => {
                JsonValue::Object(o.into_iter().map(|(k, v)| (k, convert(v))).collect())
            }
        }
    }
    convert(serde_json::from_str::<serde_json::Value>(text).unwrap())
}

fn design() -> DesignSystem {
    let mut theme = Theme::default();
    let mut spacing: ThemeTable = Table::new();
    spacing.insert("4".to_string(), ThemeValue::Plain("1rem".to_string()));
    theme.insert("spacing".to_string(), spacing);
    DesignSystem::new(theme)
}

#[test]
fn templates_put_the_value_at_the_placeholder() {
    assert_eq!(DeclValue::parse("$1"), DeclValue::Value);
    assert_eq!(DeclValue::parse("red"), DeclValue::Fixed("red".to_string()));
    assert_eq!(DeclValue::parse(""), DeclValue::Fixed("".to_string()));
    assert_eq!(DeclValue::parse("$"), DeclValue::Fixed("$".to_string()));
    assert_eq!(DeclValue::parse("$2"), DeclValue::Fixed("$2".to_string()));
    assert_eq!(
        DeclValue::parse("calc($1 * 2)"),
        DeclValue::Wrapped("calc(".to_string(), " * 2)".to_string())
    );
    assert_eq!(DeclValue::parse("$1$1"), DeclValue::Wrapped("".to_string(), "$1".to_string()));
    assert_eq!(DeclValue::parse("$$1"), DeclValue::Wrapped("$".to_string(), "".to_string()));
}

#[test]
fn names_of_validators_and_keys() {
    assert_eq!(Validator::from_name("<length>"), Some(Validator::DataType(CssDataType::Length)));
    assert_eq!(Validator::from_name("*"), Some(Validator::DataType(CssDataType::Any)));
    assert_eq!(Validator::from_name("color"), Some(Validator::Property(CssProperty::Color)));
    assert_eq!(Validator::from_name("length"), None);
    assert_eq!(OrderingKey::from_name("MarginAxis"), Some(OrderingKey::MarginAxis));
    assert_eq!(OrderingKey::from_name("marginAxis"), None);
    assert_eq!(OrderingKey::MarginAxis.name(), "MarginAxis");
    assert_eq!(UtilityGroup::from_name("Filter"), Some(UtilityGroup::Filter));
    assert_eq!(UtilityGroup::from_name("filter"), None);
}

#[test]
fn utilities_come_from_configuration() {
    let b = UtilityBuilder::from_json(&parse(
        r##"{
            "key": "indent",
            "css": {"text-indent": "$1", "padding-left": "calc($1 / 2)", "ignored": 3},
            "theme": "spacing",
            "type": "<length-percentage>",
            "modifier": {"theme": "opacity", "type": "<number>"},
            "wrapper": "& > p",
            "supportsNegative": true,
            "supportsFraction": false,
            "orderingKey": "Padding",
            "group": "Filter"
        }"##,
    ))
    .unwrap();
    assert_eq!(b.key, "indent");
    assert_eq!(b.theme_keys, vec!["spacing".to_string()]);
    assert_eq!(b.validator, Some(Validator::DataType(CssDataType::LengthPercentage)));
    assert_eq!(b.ordering_key, Some(OrderingKey::Padding));
    assert_eq!(b.group, Some(UtilityGroup::Filter));
    assert!(b.supports_negative && !b.supports_fraction);
    assert_eq!(b.modifier.as_ref().unwrap().validator, Some(Validator::DataType(CssDataType::Number)));
    let mut d = design();
    d.add(b).unwrap();
    assert_eq!(
        d.resolve("-indent-4").unwrap().rule.to_css_string(),
        ".-indent-4 > p {\n  padding-left: calc(-1rem / 2);\n  text-indent: -1rem;\n}\n"
    );
    assert_eq!(
        d.resolve("indent-[2px]").unwrap().rule.to_css_string(),
        ".indent-\\[2px\\] > p {\n  padding-left: calc(2px / 2);\n  text-indent: 2px;\n}\n"
    );
}

#[test]
fn configuration_errors() {
    let err = |text: &str| UtilityBuilder::from_json(&parse(text)).unwrap_err();
    assert_eq!(err(r##"[]"##), ConfigError::NotAnObject);
    assert_eq!(err(r##"{"css": {}}"##), ConfigError::MissingField("key".to_string()));
    assert_eq!(err(r##"{"key": "a"}"##), ConfigError::MissingField("css".to_string()));
    assert_eq!(err(r##"{"key": "a", "css": {}, "x": 1}"##), ConfigError::UnknownField("x".to_string()));
    assert_eq!(err(r##"{"key": 1}"##), ConfigError::InvalidField("key".to_string()));
    assert_eq!(err(r##"{"type": "nothing"}"##), ConfigError::InvalidField("type".to_string()));
    assert_eq!(err(r##"{"orderingKey": "Nowhere"}"##), ConfigError::InvalidField("orderingKey".to_string()));
    assert_eq!(err(r##"{"modifier": {"other": "x"}}"##), ConfigError::UnknownField("other".to_string()));
    assert_eq!(err(r##"{"modifier": {"theme": 1}}"##), ConfigError::InvalidField("theme".to_string()));
    assert_eq!(err(r##"{"supportsNegative": "yes"}"##), ConfigError::InvalidField("supportsNegative".to_string()));
    assert_eq!(ConfigError::UnknownField("x".to_string()).to_string(), "unknown field: x");
    assert_eq!(ConfigError::NotAnObject.to_string(), "a utility must be an object");
    assert_eq!(ConfigError::MissingField("key".to_string()).to_string(), "missing field: key");
    assert_eq!(ConfigError::InvalidField("key".to_string()).to_string(), "invalid field: key");
}

#[test]
fn static_utilities_come_from_configuration() {
    let members = match parse(r##"{"card": {"padding": "1rem", "z-index": 3}, "skip": "x"}"##) {
        JsonValue::Object(m) => m,
        _ => unreachable!(),
    };
    let builders = read_static_utilities(&members);
    assert_eq!(builders.len(), 1);
    let mut d = design();
    for b in builders {
        d.add(b).unwrap();
    }
    assert_eq!(
        d.resolve("card").unwrap().rule.to_css_string(),
        ".card {\n  padding: 1rem;\n  z-index: 3;\n}\n"
    );
    let mut broken = UtilityBuilder::new("x", arrowcss::process::UtilityHandler::decl("x"));
    broken.handler = None;
    assert!(d.add(broken).is_err());
    assert_eq!(d.utilities.len(), 1);
}

#[test]
fn rejected_tokens_have_a_reason() {
    let mut d = design();
    d.add(UtilityBuilder::from_json(&parse(
        r##"{"key": "p", "css": {"padding": "$1"}, "theme": "spacing", "type": "<length>"}"##,
    )).unwrap()).unwrap();
    d.register_variant("hover".to_string(), arrowcss::variant::Variant::new_static("&:hover"));
    assert_eq!(d.explain("p-4"), None);
    assert_eq!(d.explain("hover:p-[2px]"), None);
    assert_eq!(d.explain("[color:red]"), None);
    assert_eq!(d.explain("focus:p-4"), Some(RejectReason::UnknownVariant));
    assert_eq!(d.explain("[x:p-4"), Some(RejectReason::UnknownUtility));
    assert_eq!(d.explain("[nothing]:p-4"), Some(RejectReason::UnknownVariant));
    assert_eq!(d.explain("q-4"), Some(RejectReason::UnknownUtility));
    assert_eq!(d.explain("p-"), Some(RejectReason::UnknownUtility));
    assert_eq!(d.explain("-p-4"), Some(RejectReason::NegativeUnsupported));
    assert_eq!(d.explain("p-5"), Some(RejectReason::ValueRejected));
    assert_eq!(d.explain("p-[red]"), Some(RejectReason::ValueRejected));
    assert!(d.takes_negative("p") == false);
}

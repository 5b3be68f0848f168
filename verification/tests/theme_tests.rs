use arrowcss::builder::ThemeParseError;
use arrowcss::config::{FlattenedColors, JsonValue};
use arrowcss::table::Table;
use arrowcss::theme::{FontFamily, FontSize, Theme, ThemeTable, ThemeValue};

fn convert(v: serde_json::Value) -> JsonValue {
    match v {
        serde_json::Value::Null => JsonValue::Null,
        serde_json::Value::Bool(b) => JsonValue::Bool(b),
        serde_json::Value::Number(n) => JsonValue::Number(n.to_string()),
        serde_json::Value::String(s) => JsonValue::String(s),
        serde_json::Value::Array(a) => JsonValue::Array(a.into_iter().map(convert).collect()),
        serde_json::Value::Object(o) => {
            JsonValue::Object(o.into_iter().map(|(k, v)| (k, convert(v))).collect())
        }
    }
}

fn parse(text: &str) -> JsonValue {
    convert(serde_json::from_str::<serde_json::Value>(text).unwrap())
}

fn plain(s: &str) -> ThemeValue {
    ThemeValue::Plain(s.to_string())
}

fn map(entries: &[(&str, &str)]) -> ThemeTable {
    let mut t: ThemeTable = Table::new();
    for (k, v) in entries {
        t.insert(k.to_string(), plain(v));
    }
    t
}

#[test]
fn test_theme_deserialization() {
    let json_str = r##"{
            "spacing": {
                "1": "0.25rem"
            },
            "colors": {
                "inherit": "inherit",
                "slate": {
                    "50": "#f8fafc"
                }
            }
        }"##;

    let theme = Theme::from_json(&parse(json_str)).unwrap();

    assert_eq!(theme.get("colors").unwrap().get("inherit"), Some(&plain("inherit")));
    assert_eq!(theme.get("colors").unwrap().get("slate-50"), Some(&plain("#f8fafc")));
    assert_eq!(theme.get("spacing").unwrap().get("1"), Some(&plain("0.25rem")));
}

#[test]
fn test_flattened_colors_deserialization() {
    let json_str = r##"{
            "inherit": "inherit",
            "slate": {
                "50": "#f8fafc"
            }
        }"##;

    let flattened_colors = FlattenedColors::from_json(&parse(json_str)).unwrap();

    assert_eq!(flattened_colors.get("inherit"), Some(&plain("inherit")));
    assert_eq!(flattened_colors.get("slate-50"), Some(&plain("#f8fafc")));
}

#[test]
fn test_theme_merge() {
    let mut theme1 = Theme::default();
    let mut theme2 = Theme::default();

    theme1.insert("colors".to_string(), map(&[("inherit", "inherit"), ("slate-50", "#f8fafc")]));

    theme2.insert("spacing".to_string(), map(&[("1", "0.25rem")]));

    theme2.insert("colors".to_string(), map(&[("inherit", "inherit-merged")]));

    let theme1 = theme1.merge(theme2);

    assert_eq!(
        theme1.get("colors").unwrap().get("slate-50").map(|s| s.text().unwrap().to_string()),
        Some("#f8fafc".to_string())
    );
    assert_eq!(
        theme1.get("spacing").unwrap().get("1").map(|s| s.text().unwrap().to_string()),
        Some("0.25rem".to_string())
    );
    assert_eq!(
        theme1.get("colors").unwrap().get("inherit").map(|s| s.text().unwrap().to_string()),
        Some("inherit-merged".to_string())
    );
}

#[test]
fn default_color_collapses_to_parent() {
    let colors = FlattenedColors::from_json(&parse(
        r##"{"blue": {"DEFAULT": "#00f", "500": "#3b82f6", "deep": {"x": "y"}}}"##,
    ))
    .unwrap();
    assert_eq!(colors.get("blue"), Some(&plain("#00f")));
    assert_eq!(colors.get("blue-500"), Some(&plain("#3b82f6")));
    assert_eq!(colors.get("blue-DEFAULT"), None);
    assert_eq!(colors.get("blue-deep"), None);
}

#[test]
fn theme_errors_name_the_place() {
    assert_eq!(
        Theme::from_json(&parse(r##"{"spacing": "1rem"}"##)),
        Err(ThemeParseError::NotAnObject("spacing".to_string()))
    );
    assert_eq!(
        Theme::from_json(&parse(r##"{"colors": {"red": 3}}"##)),
        Err(ThemeParseError::InvalidValue("colors".to_string(), "red".to_string()))
    );
    assert_eq!(
        Theme::from_json(&parse(r##"[1, 2]"##)),
        Err(ThemeParseError::NotAnObject("theme".to_string()))
    );
    assert_eq!(
        FlattenedColors::from_json(&parse(r##""red""##)),
        Err(ThemeParseError::NotAnObject("colors".to_string()))
    );
    assert_eq!(
        ThemeParseError::NotAnObject("spacing".to_string()).to_string(),
        "theme only accepts object value: spacing"
    );
}

#[test]
fn structured_theme_values() {
    let theme = Theme::from_json(&parse(
        r##"{
            "fontSize": {"sm": ["0.875rem", "1.25rem"], "lg": ["1.125rem", {"lineHeight": "1.75rem", "fontWeight": "500"}], "bad": [1, 2, 3]},
            "fontFamily": {"sans": ["ui-sans-serif", "system-ui"], "mono": [["a", "b"], {"fontFeatureSettings": "\"liga\""}], "one": ["x", {"fontVariationSettings": "w 1"}], "bad": [1]},
            "keyframes": {"spin": {"to": {"transform": "rotate(360deg)"}}},
            "opacity": {"50": 0.5, "skip": ["x"]}
        }"##,
    ))
    .unwrap();
    assert_eq!(
        theme.lookup("fontSize", "sm"),
        Some(&ThemeValue::FontSize(FontSize {
            size: "0.875rem".to_string(),
            line_height: Some("1.25rem".to_string()),
            letter_spacing: None,
            font_weight: None,
        }))
    );
    assert_eq!(
        theme.lookup("fontSize", "lg"),
        Some(&ThemeValue::FontSize(FontSize {
            size: "1.125rem".to_string(),
            line_height: Some("1.75rem".to_string()),
            letter_spacing: None,
            font_weight: Some("500".to_string()),
        }))
    );
    assert_eq!(theme.lookup("fontSize", "bad"), None);
    assert_eq!(theme.lookup("fontFamily", "sans").unwrap().text(), Some("ui-sans-serif, system-ui"));
    assert_eq!(
        theme.lookup("fontFamily", "mono"),
        Some(&ThemeValue::FontFamily(FontFamily {
            family: "a, b".to_string(),
            feature_settings: Some("\"liga\"".to_string()),
            variation_settings: None,
        }))
    );
    assert_eq!(
        theme.lookup("fontFamily", "one"),
        Some(&ThemeValue::FontFamily(FontFamily {
            family: "x".to_string(),
            feature_settings: None,
            variation_settings: Some("w 1".to_string()),
        }))
    );
    assert_eq!(theme.lookup("fontFamily", "bad"), None);
    assert_eq!(theme.lookup("opacity", "50"), Some(&plain("0.5")));
    assert_eq!(theme.lookup("opacity", "skip"), None);
    match theme.lookup("keyframes", "spin") {
        Some(ThemeValue::Keyframes(frames)) => {
            assert_eq!(frames.len(), 1);
            assert_eq!(frames[0].to_css_string(), "to {\n  transform: rotate(360deg);\n}\n");
        }
        other => panic!("{:?}", other),
    }
}

#[test]
fn merge_is_deep_and_last_writer_wins() {
    let mut a = Theme::default();
    a.insert("colors".to_string(), map(&[("x", "1"), ("y", "2")]));
    a.insert("only-a".to_string(), map(&[("k", "a")]));
    let mut b = Theme::default();
    b.insert("colors".to_string(), map(&[("y", "3"), ("z", "4")]));
    b.insert("only-b".to_string(), map(&[("k", "b")]));
    let m = a.merge(b);
    assert_eq!(m.lookup("colors", "x"), Some(&plain("1")));
    assert_eq!(m.lookup("colors", "y"), Some(&plain("3")));
    assert_eq!(m.lookup("colors", "z"), Some(&plain("4")));
    assert_eq!(m.lookup("only-a", "k"), Some(&plain("a")));
    assert_eq!(m.lookup("only-b", "k"), Some(&plain("b")));
    assert_eq!(m.lookup("nowhere", "k"), None);
}

use arrowcss::config::JsonValue;
use arrowcss::context::DesignSystem;
use arrowcss::generator::{Application, ArrowConfig, Features};
use arrowcss::preset::dynamics::load_dynamic_utilities;
use arrowcss::preset::statics::load_static_utilities;
use arrowcss::preset::variants::load_variants;
use arrowcss::theme::Theme;

fn object(members: Vec<(&str, JsonValue)>) -> JsonValue {
    JsonValue::Object(members.into_iter().map(|(k, v)| (k.to_string(), v)).collect())
}

fn text(s: &str) -> JsonValue {
    JsonValue::String(s.to_string())
}

fn theme() -> Theme {
    Theme::from_json(&object(vec![
        ("flex", object(vec![("DEFAULT", text("1 1 0%"))])),
        ("spacing", object(vec![("2", text("0.5rem")), ("4", text("1rem"))])),
        ("colors", object(vec![("red", object(vec![("500", text("#ef4444"))]))])),
        (
            "fontSize",
            object(vec![("sm", JsonValue::Array(vec![text("0.875rem"), text("1.25rem")]))]),
        ),
        ("lineHeight", object(vec![("6", text("1.5rem"))])),
        ("fontFamily", object(vec![("sans", JsonValue::Array(vec![text("a"), text("b")]))])),
        ("fontWeight", object(vec![("bold", text("700"))])),
        ("animation", object(vec![("spin", text("spin 1s linear infinite"))])),
        (
            "keyframes",
            object(vec![(
                "spin",
                object(vec![("to", object(vec![("transform", text("rotate(360deg)"))]))]),
            )]),
        ),
        ("blur", object(vec![("sm", text("4px"))])),
        ("borderWidth", object(vec![("DEFAULT", text("1px")), ("2", text("2px"))])),
        ("screens", object(vec![("sm", text("640px")), ("lg", text("1024px"))])),
    ]))
    .unwrap()
}

fn app() -> Application {
    let mut app =
        Application::new(ArrowConfig { theme: theme(), features: Features { strict_mode: true } });
    app.init();
    app
}

fn css(token: &str) -> String {
    app().run(&vec![token.to_string()])
}

fn tokens_of(text: &str) -> Vec<String> {
    text.split(|c: char| c.is_whitespace() || "\"'<>=".contains(c))
        .filter(|t| !t.is_empty())
        .map(str::to_owned)
        .collect()
}

#[test]
fn test_application() {
    let mut app = app();
    let input = tokens_of(r#"<div class="flex">"#);
    assert_eq!(input, vec!["div", "class", "flex"]);
    let res = app.run_parallel(&vec![input]);

    println!("{}", res);
    assert_eq!(res, ".flex {\n  flex: 1 1 0%;\n}\n");
    assert!(app.strict_mode());
}

#[test]
fn preset_is_loaded_in_order() {
    let mut d = DesignSystem::new(theme());
    load_static_utilities(&mut d);
    let statics = d.utilities.len();
    assert_eq!(d.utilities[0].0, "block");
    load_dynamic_utilities(&mut d);
    assert_eq!(d.utilities.len(), statics + 177);
    assert_eq!(d.utilities[statics].0, "flex");
    assert_eq!(d.utilities[d.utilities.len() - 1].0, "scroll-pl");
    load_variants(&mut d);
    assert_eq!(d.variants[0].0, "hover");
    let keys: Vec<&str> = d.variants.iter().map(|(k, _)| k.as_str()).collect();
    assert_eq!(&keys[keys.len() - 2..], ["sm", "lg"]);
    assert_eq!(&d.variants[d.variants.len() - 1].1.before, "@media (min-width: 1024px)");
    assert_eq!(app().ctx().utilities.len(), d.utilities.len());
}

#[test]
fn static_utilities_take_no_value() {
    assert_eq!(css("hidden"), ".hidden {\n  display: none;\n}\n");
    assert_eq!(
        css("truncate"),
        ".truncate {\n  overflow: hidden;\n  text-overflow: ellipsis;\n  white-space: nowrap;\n}\n"
    );
    assert_eq!(css("hidden-4"), "");
    assert_eq!(css("lg:hover:hidden"), "@media (min-width: 1024px) {\n  .lg\\:hover\\:hidden:hover {\n    display: none;\n  }\n}\n");
}

#[test]
fn font_utilities_read_structured_values() {
    assert_eq!(css("text-sm"), ".text-sm {\n  font-size: 0.875rem;\n  line-height: 1.25rem;\n}\n");
    assert_eq!(css("text-sm/6"), ".text-sm\\/6 {\n  font-size: 0.875rem;\n  line-height: 1.5rem;\n}\n");
    assert_eq!(css("text-[12px]"), ".text-\\[12px\\] {\n  font-size: 12px;\n}\n");
    assert_eq!(css("text-red-500"), ".text-red-500 {\n  color: #ef4444;\n}\n");
    assert_eq!(css("font-sans"), ".font-sans {\n  font-family: a, b;\n}\n");
    assert_eq!(css("font-bold"), ".font-bold {\n  font-weight: 700;\n}\n");
}

#[test]
fn wrapper_replaces_the_class() {
    assert_eq!(
        css("space-x-4"),
        ".space-x-4:where(.space-x-4 > :not(:last-child)) {\n  --tw-space-x-reverse: 0;\n  margin-right: calc(1rem * var(--tw-space-x-reverse));\n  margin-left: calc(1rem * calc(1 - var(--tw-space-x-reverse)));\n}\n@property --tw-space-x-reverse {\n  syntax: \"<number>\";\n  inherits: false;\n  initial-value: 0;\n}\n"
    );
}

#[test]
fn animation_brings_its_keyframes() {
    assert_eq!(
        css("animate-spin"),
        ".animate-spin {\n  animation: spin 1s linear infinite;\n}\n@keyframes spin {\n  to {\n    transform: rotate(360deg);\n  }\n}\n"
    );
}

#[test]
fn border_without_value_reads_default() {
    assert_eq!(
        css("border"),
        ".border {\n  border-style: var(--tw-border-style);\n  border-width: 1px;\n}\n@property --tw-border-style {\n  syntax: \"<custom-ident>\";\n  inherits: false;\n  initial-value: solid;\n}\n"
    );
}

#[test]
fn filters_share_one_rule() {
    let out = app().run(&vec!["blur-sm".to_string(), "backdrop-blur-sm".to_string(), "blur-[2px]".to_string()]);
    assert_eq!(
        out,
        ".backdrop-blur-sm {\n  --tw-backdrop-blur: blur(4px);\n}\n.blur-\\[2px\\] {\n  --tw-blur: blur(2px);\n}\n.blur-sm {\n  --tw-blur: blur(4px);\n}\n.blur-\\[2px\\], .blur-sm {\n  filter: var(--tw-blur,) var(--tw-brightness,) var(--tw-contrast,) var(--tw-grayscale,) var(--tw-hue-rotate,) var(--tw-invert,) var(--tw-saturate,) var(--tw-sepia,) var(--tw-drop-shadow,);\n}\n.backdrop-blur-sm {\n  backdrop-filter: var(--tw-backdrop-blur,) var(--tw-backdrop-brightness,) var(--tw-backdrop-contrast,) var(--tw-backdrop-grayscale,) var(--tw-backdrop-hue-rotate,) var(--tw-backdrop-invert,) var(--tw-backdrop-opacity,) var(--tw-backdrop-saturate,) var(--tw-backdrop-sepia,);\n}\n"
    );
    // one token less: one rule less, and the shared rule stays
    let fewer = app().run(&vec!["blur-sm".to_string(), "backdrop-blur-sm".to_string()]);
    assert_eq!(out.matches(" {\n").count(), 5);
    assert_eq!(fewer.matches(" {\n").count(), 4);
    assert!(fewer.contains("\n.blur-sm {\n  filter:"));
}

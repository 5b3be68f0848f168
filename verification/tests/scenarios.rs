use arrowcss::generator::{Application, ArrowConfig, Features};
use arrowcss::table::Table;
use arrowcss::theme::{Theme, ThemeTable, ThemeValue};

fn plain(entries: &[(&str, &str)]) -> ThemeTable {
    let mut t: ThemeTable = Table::new();
    for (k, v) in entries {
        t.insert(k.to_string(), ThemeValue::Plain(v.to_string()));
    }
    t
}

fn app() -> Application {
    let mut theme = Theme::default();
    theme.insert("flex".to_string(), plain(&[("DEFAULT", "1 1 0%"), ("1", "1 1 0%")]));
    theme.insert(
        "spacing".to_string(),
        plain(&[("1", "0.25rem"), ("4", "1rem"), ("1/2", "50%"), ("full", "100%")]),
    );
    theme.insert(
        "colors".to_string(),
        plain(&[("blue-500", "#3b82f6"), ("red-500", "#ef4444")]),
    );
    theme.insert("screens".to_string(), plain(&[("sm", "640px"), ("md", "768px")]));
    theme.insert("rotate".to_string(), plain(&[("45", "45deg")]));
    theme.insert("skew".to_string(), plain(&[("12", "12deg")]));
    let mut app = Application::new(ArrowConfig { theme, features: Features { strict_mode: false } });
    app.init();
    app
}

fn css(token: &str) -> String {
    app().run(&vec![token.to_string()])
}

#[test]
fn scenario_flex_default() {
    assert_eq!(css("flex"), ".flex {\n  flex: 1 1 0%;\n}\n");
}

#[test]
fn scenario_negative_margin() {
    assert_eq!(css("-mx-4"), ".-mx-4 {\n  margin-left: -1rem;\n  margin-right: -1rem;\n}\n");
}

#[test]
fn scenario_opacity_modifier() {
    assert_eq!(
        css("bg-blue-500/50"),
        ".bg-blue-500\\/50 {\n  background-color: color-mix(in srgb, #3b82f6 50%, transparent);\n}\n"
    );
}

#[test]
fn scenario_variants() {
    assert_eq!(
        css("md:hover:text-red-500"),
        "@media (min-width: 768px) {\n  .md\\:hover\\:text-red-500:hover {\n    color: #ef4444;\n  }\n}\n"
    );
}

#[test]
fn scenario_arbitrary_translate() {
    let out = css("translate-x-[10px]");
    let rule = ".translate-x-\\[10px\\] {\n  --tw-translate-x: 10px;\n  translate: var(--tw-translate-x) var(--tw-translate-y);\n}\n";
    assert!(out.starts_with(rule), "{}", out);
    assert_eq!(
        &out[rule.len()..],
        "@property --tw-translate-x {\n  syntax: \"<length-percentage>\";\n  inherits: false;\n  initial-value: 0;\n}\n@property --tw-translate-y {\n  syntax: \"<length-percentage>\";\n  inherits: false;\n  initial-value: 0;\n}\n"
    );
}

#[test]
fn scenario_group_hoisting() {
    let out = app().run(&vec!["skew-y-12".to_string(), "rotate-x-45".to_string()]);
    assert!(
        out.ends_with(".rotate-x-45, .skew-y-12 {\n  transform: var(--tw-rotate-x) var(--tw-rotate-y) var(--tw-rotate-z) var(--tw-skew-x) var(--tw-skew-y);\n}\n"),
        "{}",
        out
    );
    assert!(out.starts_with(".rotate-x-45 {\n  --tw-rotate-x: 45deg;\n}\n"), "{}", out);
}

#[test]
fn boundary_negative_unsupported_is_dropped() {
    assert_eq!(css("-p-4"), "");
    assert_eq!(css("p-4"), ".p-4 {\n  padding: 1rem;\n}\n");
}

#[test]
fn boundary_fraction_resolves_by_combined_key() {
    assert_eq!(css("w-1/2"), ".w-1\\/2 {\n  width: 50%;\n}\n");
}

#[test]
fn boundary_validator_mismatch_is_dropped() {
    assert_eq!(css("translate-x-[red]"), "");
    assert_eq!(css("bg-[10px_oops]"), "");
}

#[test]
fn boundary_unknown_theme_key_falls_through() {
    // `basis` reads `flexBasis`, which this theme lacks, and then `spacing`
    assert_eq!(css("basis-4"), ".basis-4 {\n  flex-basis: 1rem;\n}\n");
}

#[test]
fn determinism_under_permutation_and_repetition() {
    let a = vec!["p-4", "md:p-4", "flex", "hover:flex", "w-1/2", "nope", "rotate-x-45"];
    let mut b = a.clone();
    b.reverse();
    b.push("flex");
    let a: Vec<String> = a.iter().map(|s| s.to_string()).collect();
    let b: Vec<String> = b.iter().map(|s| s.to_string()).collect();
    let first = app().run(&a);
    let second = app().run(&b);
    assert_eq!(first, second);
    let out = app().generate(&b);
    assert_eq!(out.css, first);
    assert_eq!(out.tokens_seen, 7);
    let things = app().run_parallel(&vec![a[..3].to_vec(), a[3..].to_vec(), a[1..5].to_vec()]);
    assert_eq!(things, first);
}

#[test]
fn order_is_bucket_then_weight_then_token() {
    let tokens: Vec<String> =
        ["flex", "md:p-4", "p-4", "hover:p-4", "m-4", "sm:p-4"].iter().map(|s| s.to_string()).collect();
    let out = app().run(&tokens);
    let pos = |s: &str| out.find(s).unwrap_or_else(|| panic!("{} not in {}", s, out));
    // margin comes before padding, and both before the utilities without a bucket
    assert!(pos(".m-4 ") < pos(".p-4 "));
    assert!(pos(".p-4 ") < pos(".hover\\:p-4:hover"));
    assert!(pos(".hover\\:p-4:hover") < pos(".sm\\:p-4"));
    assert!(pos(".sm\\:p-4") < pos(".md\\:p-4"));
    assert!(pos(".md\\:p-4") < pos(".flex "));
}

#[test]
fn cache_keeps_results() {
    let mut app = app();
    assert!(!app.is_cached("flex"));
    let first = app.lookup("flex").unwrap();
    assert!(app.is_cached("flex"));
    let second = app.lookup("flex").unwrap();
    assert_eq!(first, second);
    assert!(app.lookup("no-such-thing").is_none());
    assert!(app.is_cached("no-such-thing"));
    assert!(app.lookup("no-such-thing").is_none());
}

use system_herald::config::{get_config_path, Config};
use system_herald::dispatch::decimal_text;
use system_herald::i18n::{replace_text, I18nError, I18nManager};
use system_herald::locale::effective_locale;
use system_herald::voice::find_voice;

#[test]
fn table_from_json_keeps_string_members() {
    let t = I18nManager::from_json(r#"{"a": "Alpha", "n": 5, "b": "Beta {x}", "o": {"c": "d"}}"#).unwrap();
    assert_eq!(t.get_text("a"), Some("Alpha".to_string()));
    assert_eq!(t.get_text("b"), Some("Beta {x}".to_string()));
    assert_eq!(t.get_text("n"), None);
    assert_eq!(t.get_text("o"), None);
    assert_eq!(t.get_text("c"), None);
}

#[test]
fn table_from_malformed_json_fails() {
    assert!(matches!(I18nManager::from_json("{\"a\": "), Err(I18nError::Malformed)));
    assert!(matches!(I18nManager::from_json(""), Err(I18nError::Malformed)));
}

#[test]
fn table_from_non_object_json_is_empty() {
    let t = I18nManager::from_json("[\"a\", \"b\"]").unwrap();
    assert_eq!(t.get_text("a"), None);
    let t = I18nManager::from_json("\"a\"").unwrap();
    assert_eq!(t.get_text("a"), None);
}

#[test]
fn text_with_param_substitutes_every_placeholder() {
    let mut t = I18nManager::empty();
    t.insert("k".to_string(), "Hi {user}, bye {user}; keep {other} and {USER}".to_string());
    assert_eq!(
        t.get_text_with_param("k", "user", "Ann"),
        Some("Hi Ann, bye Ann; keep {other} and {USER}".to_string())
    );
    assert_eq!(t.get_text_with_param("missing", "user", "Ann"), None);
}

#[test]
fn text_with_param_without_placeholder_is_unchanged() {
    let mut t = I18nManager::empty();
    t.insert("k".to_string(), "user".to_string());
    assert_eq!(t.get_text_with_param("k", "user", "Ann"), Some("user".to_string()));
}

#[test]
fn insert_replaces_template() {
    let mut t = I18nManager::empty();
    t.insert("k".to_string(), "one".to_string());
    t.insert("k".to_string(), "two".to_string());
    assert_eq!(t.get_text("k"), Some("two".to_string()));
}

#[test]
fn decimal_text_of_bytes() {
    assert_eq!(decimal_text(0), "0");
    assert_eq!(decimal_text(7), "7");
    assert_eq!(decimal_text(10), "10");
    assert_eq!(decimal_text(85), "85");
    assert_eq!(decimal_text(100), "100");
    assert_eq!(decimal_text(255), "255");
}

#[test]
fn locale_from_configuration_wins() {
    let r = effective_locale(&Some("ja".to_string()), &Some("zh-CN".to_string()));
    assert_eq!(r, "ja");
}

#[test]
fn locale_from_system_tag() {
    assert_eq!(effective_locale(&None, &Some("zh-CN".to_string())), "zh");
    assert_eq!(effective_locale(&None, &Some("ja-JP".to_string())), "ja");
    assert_eq!(effective_locale(&None, &Some("zh".to_string())), "zh");
    assert_eq!(effective_locale(&None, &Some("fr-FR".to_string())), "en");
    assert_eq!(effective_locale(&None, &Some("zho".to_string())), "en");
    assert_eq!(effective_locale(&None, &Some("".to_string())), "en");
    assert_eq!(effective_locale(&None, &None), "en");
}

#[test]
fn voice_found_by_exact_name() {
    let names = vec!["Alice".to_string(), "Bob".to_string(), "Bob".to_string()];
    assert_eq!(find_voice(&names, "Bob"), Some(1));
    assert_eq!(find_voice(&names, "Alice"), Some(0));
    assert_eq!(find_voice(&names, "bob"), None);
    assert_eq!(find_voice(&Vec::new(), "Bob"), None);
}

#[test]
fn config_defaults() {
    let c = Config::default();
    assert_eq!(c.custom_voice, None);
    assert!(!c.auto_start);
    assert_eq!(c.language, None);
    assert_eq!(get_config_path(), "config.json");
}

#[test]
fn table_from_json_later_duplicate_wins() {
    let t = I18nManager::from_json(r#"{"k": "first", "k": "second"}"#).unwrap();
    assert_eq!(t.get_text("k"), Some("second".to_string()));
}

#[test]
fn table_from_json_rejects_deep_nesting() {
    let deep = format!("{}{}", "[".repeat(200), "]".repeat(200));
    assert!(matches!(I18nManager::from_json(&deep), Err(I18nError::Malformed)));
}

#[test]
fn replacement_is_left_to_right_and_non_overlapping() {
    assert_eq!(replace_text("aaa", "aa", "b"), "ba");
    assert_eq!(replace_text("abcabc", "bc", "X"), "aXaX");
    assert_eq!(replace_text("ab", "abc", "X"), "ab");
    assert_eq!(replace_text("", "a", "X"), "");
    assert_eq!(replace_text("{a}{a}", "{a}", ""), "");
}

#[test]
fn replacement_in_non_ascii_template() {
    let mut t = I18nManager::empty();
    t.insert("system_online".to_string(), "你好，{user}！系统在线。".to_string());
    assert_eq!(
        t.get_text_with_param("system_online", "user", "小明"),
        Some("你好，小明！系统在线。".to_string())
    );
}

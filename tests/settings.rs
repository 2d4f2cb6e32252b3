use system_herald::config::{language_code, language_index, Config, LANGUAGE_COUNT};
use system_herald::voice::{starts_with, voices_for_language, VoiceDetail};

fn voice(name: &str, language: &str) -> VoiceDetail {
    VoiceDetail { name: name.to_string(), language: language.to_string() }
}

#[test]
fn prefix_test() {
    assert!(starts_with("en-US", "en"));
    assert!(starts_with("en", "en"));
    assert!(starts_with("anything", ""));
    assert!(!starts_with("e", "en"));
    assert!(!starts_with("ja-JP", "en"));
    assert!(!starts_with("En-US", "en"));
}

#[test]
fn voices_filtered_by_language() {
    let voices = vec![
        voice("David", "en-US"),
        voice("Huihui", "zh-CN"),
        voice("Zira", "en-GB"),
        voice("Haruka", "ja-JP"),
    ];
    assert_eq!(voices_for_language(&voices, "en"), vec![0, 2]);
    assert_eq!(voices_for_language(&voices, "zh"), vec![1]);
    assert_eq!(voices_for_language(&voices, "fr"), Vec::<usize>::new());
    assert_eq!(voices_for_language(&Vec::new(), "en"), Vec::<usize>::new());
}

#[test]
fn language_list() {
    assert_eq!(LANGUAGE_COUNT, 3);
    assert_eq!(language_code(0), Some("en"));
    assert_eq!(language_code(1), Some("zh"));
    assert_eq!(language_code(2), Some("ja"));
    assert_eq!(language_code(3), None);
    assert_eq!(language_index(&Some("ja".to_string())), 2);
    assert_eq!(language_index(&Some("zh".to_string())), 1);
    assert_eq!(language_index(&Some("fr".to_string())), 0);
    assert_eq!(language_index(&None), 0);
}

#[test]
fn applying_settings_reports_language_change() {
    let mut c = Config::default();
    assert!(c.apply_settings(Some("zh"), Some("Huihui".to_string()), true));
    assert_eq!(c.language, Some("zh".to_string()));
    assert_eq!(c.custom_voice, Some("Huihui".to_string()));
    assert!(c.auto_start);
    assert!(!c.apply_settings(Some("zh"), None, false));
    assert_eq!(c.language, Some("zh".to_string()));
    assert_eq!(c.custom_voice, None);
    assert!(!c.auto_start);
    assert!(!c.apply_settings(None, None, false));
    assert_eq!(c.language, Some("zh".to_string()));
    assert!(c.apply_settings(Some("en"), None, false));
    assert_eq!(c.language, Some("en".to_string()));
}

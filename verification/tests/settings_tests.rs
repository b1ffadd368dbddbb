use voxbridge::settings::{get_api_key, get_settings, save_settings, AppSettingsInput, StoredSettings};

#[test]
fn defaults_are_malayalam_to_english_dark_without_key() {
    let s = StoredSettings::default();
    assert_eq!(s.api_key, None);
    assert_eq!(s.input_language, "ml");
    assert_eq!(s.output_language, "en");
    assert_eq!(s.theme, "dark");
    assert_eq!(s.preferred_input_device, None);
    assert_eq!(s.preferred_output_device, None);
    assert!(!get_settings(&s).has_api_key);
}

#[test]
fn empty_key_is_not_usable() {
    let mut s = StoredSettings::default();
    s.api_key = Some(String::new());
    assert_eq!(get_api_key(&s), None);
    assert!(!get_settings(&s).has_api_key);
}

#[test]
fn stored_key_is_used_but_not_shown() {
    let mut s = StoredSettings::default();
    s.api_key = Some("sk-test".to_string());
    assert_eq!(get_api_key(&s), Some("sk-test".to_string()));
    let view = get_settings(&s);
    assert!(view.has_api_key);
    assert_eq!(view.theme, "dark");
    assert_eq!(view.input_language, "ml");
    assert_eq!(view.output_language, "en");
}

#[test]
fn update_replaces_only_given_fields() {
    let mut s = StoredSettings::default();
    s.api_key = Some("old".to_string());
    save_settings(
        &mut s,
        AppSettingsInput {
            theme: Some("light".to_string()),
            preferred_output_device: Some("Speakers".to_string()),
            ..AppSettingsInput::default()
        },
    );
    assert_eq!(s.api_key, Some("old".to_string()));
    assert_eq!(s.theme, "light");
    assert_eq!(s.input_language, "ml");
    assert_eq!(s.output_language, "en");
    assert_eq!(s.preferred_input_device, None);
    assert_eq!(s.preferred_output_device, Some("Speakers".to_string()));
}

#[test]
fn saved_key_is_then_used() {
    let mut s = StoredSettings::default();
    save_settings(&mut s, AppSettingsInput { api_key: Some("sk-new".to_string()), ..AppSettingsInput::default() });
    assert_eq!(get_api_key(&s), Some("sk-new".to_string()));
    assert!(get_settings(&s).has_api_key);
}

#[test]
fn empty_update_changes_nothing() {
    let mut s = StoredSettings::default();
    s.api_key = Some("k".to_string());
    s.preferred_input_device = Some("Mic".to_string());
    save_settings(&mut s, AppSettingsInput::default());
    assert_eq!(s.api_key, Some("k".to_string()));
    assert_eq!(s.preferred_input_device, Some("Mic".to_string()));
    assert_eq!(s.theme, "dark");
}

#[test]
fn same_update_twice_equals_once() {
    let update = || AppSettingsInput {
        input_language: Some("en".to_string()),
        output_language: Some("ml".to_string()),
        ..AppSettingsInput::default()
    };
    let mut once = StoredSettings::default();
    save_settings(&mut once, update());
    let mut twice = StoredSettings::default();
    save_settings(&mut twice, update());
    save_settings(&mut twice, update());
    assert_eq!(once.input_language, twice.input_language);
    assert_eq!(once.output_language, twice.output_language);
    assert_eq!(twice.input_language, "en");
    assert_eq!(twice.output_language, "ml");
}

#[test]
fn disjoint_updates_commute() {
    let a = || AppSettingsInput { theme: Some("light".to_string()), ..AppSettingsInput::default() };
    let b = || AppSettingsInput { api_key: Some("k".to_string()), ..AppSettingsInput::default() };
    let mut ab = StoredSettings::default();
    save_settings(&mut ab, a());
    save_settings(&mut ab, b());
    let mut ba = StoredSettings::default();
    save_settings(&mut ba, b());
    save_settings(&mut ba, a());
    assert_eq!(ab.theme, ba.theme);
    assert_eq!(ab.api_key, ba.api_key);
}

use headset_battery_indicator::lang::{
    lang_from_locale, lang_from_reported_locale, system_lang, t, translate, Key, Lang,
};

const KEYS: [Key; 11] = [
    Key::battery_remaining,
    Key::no_adapter_found,
    Key::view_logs,
    Key::quit_program,
    Key::device_charging,
    Key::device_disconnected,
    Key::battery_unavailable,
    Key::show_notifications,
    Key::notifications_enabled_message,
    Key::version,
    Key::update_available,
];

#[test]
fn translations_of_each_language() {
    assert_eq!(translate(Lang::En, Key::no_adapter_found), "No headphone adapter found");
    assert_eq!(translate(Lang::Fi, Key::battery_remaining), "jäljellä");
    assert_eq!(translate(Lang::De, Key::battery_unavailable), "(Akkustand nicht verfügbar)");
    assert_eq!(translate(Lang::It, Key::quit_program), "Chiudi");
    assert_eq!(translate(Lang::De, Key::version), "Version");
    assert_eq!(translate(Lang::Fi, Key::update_available), "Päivitys saatavilla");
}

#[test]
fn locale_tags_choose_languages() {
    assert_eq!(lang_from_locale("fi"), Lang::Fi);
    assert_eq!(lang_from_locale("fi-FI"), Lang::Fi);
    assert_eq!(lang_from_locale("de"), Lang::De);
    assert_eq!(lang_from_locale("de-DE"), Lang::De);
    assert_eq!(lang_from_locale("de-AT"), Lang::De);
    assert_eq!(lang_from_locale("de-CH"), Lang::De);
    assert_eq!(lang_from_locale("it"), Lang::It);
    assert_eq!(lang_from_locale("it-IT"), Lang::It);
    assert_eq!(lang_from_locale("it-CH"), Lang::It);
    assert_eq!(lang_from_locale("en-US"), Lang::En);
}

#[test]
fn other_tags_fall_back_to_english() {
    assert_eq!(lang_from_locale("fi-SE"), Lang::En);
    assert_eq!(lang_from_locale("de-LU"), Lang::En);
    assert_eq!(lang_from_locale("FI"), Lang::En);
    assert_eq!(lang_from_locale("sv-FI"), Lang::En);
    assert_eq!(lang_from_locale(""), Lang::En);
    assert_eq!(lang_from_reported_locale(None), Lang::En);
    assert_eq!(lang_from_reported_locale(Some("de-AT".to_string())), Lang::De);
}

#[test]
fn system_texts_are_of_the_system_language() {
    let lang = system_lang();
    for key in KEYS {
        assert_eq!(t(key), translate(lang, key));
    }
    // The answer differs with the locale, so only its language is checked.
    assert!([Lang::En, Lang::Fi, Lang::De, Lang::It].contains(&lang));
}

#[test]
fn every_text_is_present_in_every_language() {
    for lang in [Lang::En, Lang::Fi, Lang::De, Lang::It] {
        for key in KEYS {
            assert!(!translate(lang, key).is_empty());
        }
    }
}

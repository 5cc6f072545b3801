//! User-facing texts in the supported languages, and the choice of language
//! from a BCP 47 locale tag.
use vstd::prelude::*;

verus! {

/// The languages that the indicator has translations for.
#[derive(Debug, Clone, Copy, PartialEq, Eq, Structural)]
pub enum Lang {
    En,
    Fi,
    De,
    It,
}

/// The texts that the indicator shows.
#[allow(non_camel_case_types)]
#[derive(Debug, Clone, Copy, PartialEq, Eq, Structural)]
pub enum Key {
    battery_remaining,
    no_adapter_found,
    view_logs,
    quit_program,
    device_charging,
    device_disconnected,
    battery_unavailable,
    show_notifications,
    notifications_enabled_message,
    version,
    update_available,
}

/// The English texts.
pub open spec fn english(key: Key) -> Seq<char> {
    match key {
        Key::battery_remaining => "remaining"@,
        Key::no_adapter_found => "No headphone adapter found"@,
        Key::view_logs => "View logs"@,
        Key::quit_program => "Close"@,
        Key::device_charging => "(Charging)"@,
        Key::device_disconnected => "(Disconnected)"@,
        Key::battery_unavailable => "(Battery unavailable)"@,
        Key::show_notifications => "Show notifications"@,
        Key::notifications_enabled_message => "Notifications enabled"@,
        Key::version => "Version"@,
        Key::update_available => "Update available"@,
    }
}

/// The Finnish texts.
pub open spec fn finnish(key: Key) -> Seq<char> {
    match key {
        Key::battery_remaining => "jäljellä"@,
        Key::no_adapter_found => "Kuulokeadapteria ei löytynyt"@,
        Key::view_logs => "Näytä lokitiedostot"@,
        Key::quit_program => "Sulje"@,
        Key::device_charging => "(Latautuu)"@,
        Key::device_disconnected => "(Ei yhteyttä)"@,
        Key::battery_unavailable => "(Akku ei saatavilla)"@,
        Key::show_notifications => "Näytä ilmoitukset"@,
        Key::notifications_enabled_message => "Ilmoitukset käytössä"@,
        Key::version => "Versio"@,
        Key::update_available => "Päivitys saatavilla"@,
    }
}

/// The German texts.
pub open spec fn german(key: Key) -> Seq<char> {
    match key {
        Key::battery_remaining => "verbleibend"@,
        Key::no_adapter_found => "Kein Kopfhöreradapter gefunden"@,
        Key::view_logs => "Protokolle anzeigen"@,
        Key::quit_program => "Beenden"@,
        Key::device_charging => "(Wird geladen)"@,
        Key::device_disconnected => "(Getrennt)"@,
        Key::battery_unavailable => "(Akkustand nicht verfügbar)"@,
        Key::show_notifications => "Benachrichtigungen aktivieren"@,
        Key::notifications_enabled_message => "Benachrichtigungen aktiviert"@,
        Key::version => "Version"@,
        Key::update_available => "Update verfügbar"@,
    }
}

/// The Italian texts.
pub open spec fn italian(key: Key) -> Seq<char> {
    match key {
        Key::battery_remaining => "rimanente"@,
        Key::no_adapter_found => "Nessun adattatore per cuffie trovato"@,
        Key::view_logs => "Visualizza file di log"@,
        Key::quit_program => "Chiudi"@,
        Key::device_charging => "(In carica)"@,
        Key::device_disconnected => "(Disconnesso)"@,
        Key::battery_unavailable => "(Batteria non disponibile)"@,
        Key::show_notifications => "Mostra notifiche"@,
        Key::notifications_enabled_message => "Notifiche attivate"@,
        Key::version => "Versione"@,
        Key::update_available => "Aggiornamento disponibile"@,
    }
}

/// The text of `key` in `lang`.
pub open spec fn text(lang: Lang, key: Key) -> Seq<char> {
    match lang {
        Lang::En => english(key),
        Lang::Fi => finnish(key),
        Lang::De => german(key),
        Lang::It => italian(key),
    }
}

/// Returns the text of `key` in `lang`.
pub fn translate(lang: Lang, key: Key) -> (res: &'static str)
    ensures
        res@ == text(lang, key),
{
    match lang {
        Lang::En => match key {
            Key::battery_remaining => "remaining",
            Key::no_adapter_found => "No headphone adapter found",
            Key::view_logs => "View logs",
            Key::quit_program => "Close",
            Key::device_charging => "(Charging)",
            Key::device_disconnected => "(Disconnected)",
            Key::battery_unavailable => "(Battery unavailable)",
            Key::show_notifications => "Show notifications",
            Key::notifications_enabled_message => "Notifications enabled",
            Key::version => "Version",
            Key::update_available => "Update available",
        },
        Lang::Fi => match key {
            Key::battery_remaining => "jäljellä",
            Key::no_adapter_found => "Kuulokeadapteria ei löytynyt",
            Key::view_logs => "Näytä lokitiedostot",
            Key::quit_program => "Sulje",
            Key::device_charging => "(Latautuu)",
            Key::device_disconnected => "(Ei yhteyttä)",
            Key::battery_unavailable => "(Akku ei saatavilla)",
            Key::show_notifications => "Näytä ilmoitukset",
            Key::notifications_enabled_message => "Ilmoitukset käytössä",
            Key::version => "Versio",
            Key::update_available => "Päivitys saatavilla",
        },
        Lang::De => match key {
            Key::battery_remaining => "verbleibend",
            Key::no_adapter_found => "Kein Kopfhöreradapter gefunden",
            Key::view_logs => "Protokolle anzeigen",
            Key::quit_program => "Beenden",
            Key::device_charging => "(Wird geladen)",
            Key::device_disconnected => "(Getrennt)",
            Key::battery_unavailable => "(Akkustand nicht verfügbar)",
            Key::show_notifications => "Benachrichtigungen aktivieren",
            Key::notifications_enabled_message => "Benachrichtigungen aktiviert",
            Key::version => "Version",
            Key::update_available => "Update verfügbar",
        },
        Lang::It => match key {
            Key::battery_remaining => "rimanente",
            Key::no_adapter_found => "Nessun adattatore per cuffie trovato",
            Key::view_logs => "Visualizza file di log",
            Key::quit_program => "Chiudi",
            Key::device_charging => "(In carica)",
            Key::device_disconnected => "(Disconnesso)",
            Key::battery_unavailable => "(Batteria non disponibile)",
            Key::show_notifications => "Mostra notifiche",
            Key::notifications_enabled_message => "Notifiche attivate",
            Key::version => "Versione",
            Key::update_available => "Aggiornamento disponibile",
        },
    }
}


/// The language chosen for a BCP 47 locale tag: Finnish, German and Italian
/// for the tags of those languages that the indicator knows, English for
/// every other tag.
pub open spec fn lang_for_locale(locale: Seq<char>) -> Lang {
    if locale == "fi"@ || locale == "fi-FI"@ {
        Lang::Fi
    } else if locale == "de"@ || locale == "de-DE"@ || locale == "de-AT"@ || locale == "de-CH"@ {
        Lang::De
    } else if locale == "it"@ || locale == "it-IT"@ || locale == "it-CH"@ {
        Lang::It
    } else {
        Lang::En
    }
}

fn is_tag(locale: &String, tag: &str) -> (res: bool)
    ensures
        res == (locale@ == tag@),
{
    *locale == tag.to_owned()
}

/// Chooses the language for the locale tag `locale`.
pub fn lang_from_locale(locale: &str) -> (res: Lang)
    ensures
        res == lang_for_locale(locale@),
{
    let tag = locale.to_owned();
    if is_tag(&tag, "fi") || is_tag(&tag, "fi-FI") {
        Lang::Fi
    } else if is_tag(&tag, "de") || is_tag(&tag, "de-DE") || is_tag(&tag, "de-AT") || is_tag(
        &tag,
        "de-CH",
    ) {
        Lang::De
    } else if is_tag(&tag, "it") || is_tag(&tag, "it-IT") || is_tag(&tag, "it-CH") {
        Lang::It
    } else {
        Lang::En
    }
}

/// The locale tag assumed where the system reports none.
pub open spec fn fallback_locale() -> Seq<char> {
    "en-US"@
}

/// The language for what the system reported as its locale: that of the
/// reported tag, or that of `en-US` where the system reported none.
pub open spec fn lang_for_reported_locale(reported: Option<Seq<char>>) -> Lang {
    match reported {
        Some(tag) => lang_for_locale(tag),
        None => lang_for_locale(fallback_locale()),
    }
}

/// Chooses the language for what the system reported as its locale.
pub fn lang_from_reported_locale(reported: Option<String>) -> (res: Lang)
    ensures
        res == lang_for_reported_locale(
            match reported {
                Some(s) => Some(s@),
                None => None,
            },
        ),
{
    match reported {
        Some(tag) => lang_from_locale(tag.as_str()),
        None => lang_from_locale("en-US"),
    }
}

/// Asks the system for its most preferred locale, by
/// `sys_locale::get_locale`. The answer depends on the machine's settings,
/// so nothing is stated of it: `None` where the locale could not be obtained,
/// else a BCP 47 language tag.
#[verifier::external_body]
fn system_locale() -> (res: Option<String>) {
    sys_locale::get_locale()
}

/// The language of the system's most preferred locale, English where the
/// system reports none. Which locale the system reports depends on the
/// machine; whichever it is, the language is the one chosen for it.
pub fn system_lang() -> (res: Lang)
    ensures
        exists|reported: Option<Seq<char>>| res == #[trigger] lang_for_reported_locale(reported),
{
    lang_from_reported_locale(system_locale())
}

/// The text of `key` in the system's language. The language depends on the
/// machine; whichever it is, the text is that language's text of `key`.
pub fn t(key: Key) -> (res: &'static str)
    ensures
        exists|lang: Lang| res@ == #[trigger] text(lang, key),
{
    translate(system_lang(), key)
}

/// Within one language, different texts stand for different keys: no two
/// keys share a text, so what the user reads tells which key was meant.
pub proof fn texts_distinct_within_language(lang: Lang, k1: Key, k2: Key)
    ensures
        text(lang, k1) == text(lang, k2) ==> k1 == k2,
{
    reveal_strlit("remaining");
    reveal_strlit("No headphone adapter found");
    reveal_strlit("View logs");
    reveal_strlit("Close");
    reveal_strlit("(Charging)");
    reveal_strlit("(Disconnected)");
    reveal_strlit("(Battery unavailable)");
    reveal_strlit("Show notifications");
    reveal_strlit("Notifications enabled");
    reveal_strlit("Version");
    reveal_strlit("Update available");
    reveal_strlit("jäljellä");
    reveal_strlit("Kuulokeadapteria ei löytynyt");
    reveal_strlit("Näytä lokitiedostot");
    reveal_strlit("Sulje");
    reveal_strlit("(Latautuu)");
    reveal_strlit("(Ei yhteyttä)");
    reveal_strlit("(Akku ei saatavilla)");
    reveal_strlit("Näytä ilmoitukset");
    reveal_strlit("Ilmoitukset käytössä");
    reveal_strlit("Versio");
    reveal_strlit("Päivitys saatavilla");
    reveal_strlit("verbleibend");
    reveal_strlit("Kein Kopfhöreradapter gefunden");
    reveal_strlit("Protokolle anzeigen");
    reveal_strlit("Beenden");
    reveal_strlit("(Wird geladen)");
    reveal_strlit("(Getrennt)");
    reveal_strlit("(Akkustand nicht verfügbar)");
    reveal_strlit("Benachrichtigungen aktivieren");
    reveal_strlit("Benachrichtigungen aktiviert");
    reveal_strlit("Update verfügbar");
    reveal_strlit("rimanente");
    reveal_strlit("Nessun adattatore per cuffie trovato");
    reveal_strlit("Visualizza file di log");
    reveal_strlit("Chiudi");
    reveal_strlit("(In carica)");
    reveal_strlit("(Disconnesso)");
    reveal_strlit("(Batteria non disponibile)");
    reveal_strlit("Mostra notifiche");
    reveal_strlit("Notifiche attivate");
    reveal_strlit("Versione");
    reveal_strlit("Aggiornamento disponibile");
    if text(lang, k1) == text(lang, k2) {
        assert(text(lang, k1).len() == text(lang, k2).len());
        assert(text(lang, k1)[0] == text(lang, k2)[0]);
        assert(text(lang, k1)[1] == text(lang, k2)[1]);
        assert(text(lang, k1)[3] == text(lang, k2)[3]);
    }
}

} // verus!

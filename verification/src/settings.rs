//! Local settings: what is stored, the partial update the frontend sends,
//! and the view handed back, which never carries the API key itself.
use vstd::prelude::*;

verus! {

/// The stored settings. Never handed to the frontend as they are: the API
/// key must not reach the webview (see `AppSettingsView`).
pub struct StoredSettings {
    pub api_key: Option<String>,
    pub input_language: String,
    pub output_language: String,
    pub theme: String,
    pub preferred_input_device: Option<String>,
    pub preferred_output_device: Option<String>,
}

/// A partial update from the frontend; a field left `None` keeps its stored
/// value.
#[derive(Default)]
pub struct AppSettingsInput {
    pub api_key: Option<String>,
    pub theme: Option<String>,
    pub input_language: Option<String>,
    pub output_language: Option<String>,
    pub preferred_input_device: Option<String>,
    pub preferred_output_device: Option<String>,
}

/// What the frontend may see of the settings: whether a key is set, not the
/// key.
pub struct AppSettingsView {
    pub has_api_key: bool,
    pub theme: String,
    pub input_language: String,
    pub output_language: String,
}

/// The view of an optional string field.
pub open spec fn opt_view(o: Option<String>) -> Option<Seq<char>> {
    match o {
        Some(s) => Some(s@),
        None => None,
    }
}

/// An optional field after a partial update.
pub open spec fn updated_opt(current: Option<String>, update: Option<String>) -> Option<Seq<char>> {
    match update {
        Some(u) => Some(u@),
        None => opt_view(current),
    }
}

/// A required field after a partial update.
pub open spec fn updated(current: String, update: Option<String>) -> Seq<char> {
    match update {
        Some(u) => u@,
        None => current@,
    }
}

/// The key used to authenticate: the stored key when it is not empty.
pub open spec fn usable_api_key(s: StoredSettings) -> Option<Seq<char>> {
    match s.api_key {
        Some(k) => if k@.len() > 0 {
            Some(k@)
        } else {
            None
        },
        None => None,
    }
}

/// Two settings values hold the same texts.
pub open spec fn same_settings(a: StoredSettings, b: StoredSettings) -> bool {
    &&& opt_view(a.api_key) == opt_view(b.api_key)
    &&& a.input_language@ == b.input_language@
    &&& a.output_language@ == b.output_language@
    &&& a.theme@ == b.theme@
    &&& opt_view(a.preferred_input_device) == opt_view(b.preferred_input_device)
    &&& opt_view(a.preferred_output_device) == opt_view(b.preferred_output_device)
}

/// `after` is `before` with the partial update `input` applied.
pub open spec fn merged(before: StoredSettings, input: AppSettingsInput, after: StoredSettings) -> bool {
    &&& opt_view(after.api_key) == updated_opt(before.api_key, input.api_key)
    &&& after.theme@ == updated(before.theme, input.theme)
    &&& after.input_language@ == updated(before.input_language, input.input_language)
    &&& after.output_language@ == updated(before.output_language, input.output_language)
    &&& opt_view(after.preferred_input_device) == updated_opt(
        before.preferred_input_device,
        input.preferred_input_device,
    )
    &&& opt_view(after.preferred_output_device) == updated_opt(
        before.preferred_output_device,
        input.preferred_output_device,
    )
}

impl Default for StoredSettings {
    /// No key, Malayalam in, English out, dark theme, no preferred devices.
    fn default() -> (s: Self)
        ensures
            s.api_key is None,
            s.input_language@ == "ml"@,
            s.output_language@ == "en"@,
            s.theme@ == "dark"@,
            s.preferred_input_device is None,
            s.preferred_output_device is None,
    {
        StoredSettings {
            api_key: None,
            input_language: "ml".to_owned(),
            output_language: "en".to_owned(),
            theme: "dark".to_owned(),
            preferred_input_device: None,
            preferred_output_device: None,
        }
    }
}

fn clone_opt(o: &Option<String>) -> (r: Option<String>)
    ensures
        opt_view(r) == opt_view(*o),
{
    match o {
        Some(s) => Some(s.clone()),
        None => None,
    }
}

/// The key to authenticate with: the stored key, unless it is missing or
/// empty.
pub fn get_api_key(settings: &StoredSettings) -> (key: Option<String>)
    ensures
        opt_view(key) == usable_api_key(*settings),
{
    match &settings.api_key {
        Some(k) => {
            if k.as_str().is_empty() {
                None
            } else {
                Some(k.clone())
            }
        },
        None => None,
    }
}

/// The view handed to the frontend: whether a non-empty key is stored, the
/// theme and the two languages.
pub fn get_settings(settings: &StoredSettings) -> (view: AppSettingsView)
    ensures
        view.has_api_key == (usable_api_key(*settings) is Some),
        view.theme@ == settings.theme@,
        view.input_language@ == settings.input_language@,
        view.output_language@ == settings.output_language@,
{
    let has_api_key = match &settings.api_key {
        Some(k) => !k.as_str().is_empty(),
        None => false,
    };
    AppSettingsView {
        has_api_key,
        theme: settings.theme.clone(),
        input_language: settings.input_language.clone(),
        output_language: settings.output_language.clone(),
    }
}

/// Applies a partial update: each field given replaces the stored one, each
/// field left out keeps its stored value.
pub fn save_settings(current: &mut StoredSettings, settings: AppSettingsInput)
    ensures
        merged(*old(current), settings, *final(current)),
{
    let ghost input = settings;
    if let Some(api_key) = settings.api_key {
        current.api_key = Some(api_key);
    }
    if let Some(theme) = settings.theme {
        current.theme = theme;
    }
    if let Some(input_language) = settings.input_language {
        current.input_language = input_language;
    }
    if let Some(output_language) = settings.output_language {
        current.output_language = output_language;
    }
    if let Some(device) = settings.preferred_input_device {
        current.preferred_input_device = Some(device);
    }
    if let Some(device) = settings.preferred_output_device {
        current.preferred_output_device = Some(device);
    }
}

/// The frontend is told a key is set exactly when the session would find a
/// key to authenticate with.
pub proof fn law_view_reports_usable_key(s: StoredSettings, view: AppSettingsView, key: Option<
    Seq<char>,
>)
    requires
        view.has_api_key == (usable_api_key(s) is Some),
        key == usable_api_key(s),
    ensures
        view.has_api_key <==> key is Some,
{
}

/// Every field an update gives is stored exactly as given (an empty key
/// included, which clears the key the session would use), and every field
/// it leaves out keeps its stored value.
pub proof fn law_update_stores_given_fields(before: StoredSettings, input: AppSettingsInput, after: StoredSettings)
    requires
        merged(before, input, after),
    ensures
        input.api_key matches Some(k) ==> opt_view(after.api_key) == Some(k@),
        input.api_key matches Some(k) && k@.len() == 0 ==> usable_api_key(after) is None,
        input.api_key is None ==> opt_view(after.api_key) == opt_view(before.api_key),
        input.theme matches Some(t) ==> after.theme@ == t@,
        input.theme is None ==> after.theme@ == before.theme@,
        input.input_language matches Some(l) ==> after.input_language@ == l@,
        input.input_language is None ==> after.input_language@ == before.input_language@,
        input.output_language matches Some(l) ==> after.output_language@ == l@,
        input.output_language is None ==> after.output_language@ == before.output_language@,
        input.preferred_input_device matches Some(d) ==> opt_view(after.preferred_input_device)
            == Some(d@),
        input.preferred_input_device is None ==> opt_view(after.preferred_input_device)
            == opt_view(before.preferred_input_device),
        input.preferred_output_device matches Some(d) ==> opt_view(after.preferred_output_device)
            == Some(d@),
        input.preferred_output_device is None ==> opt_view(after.preferred_output_device)
            == opt_view(before.preferred_output_device),
{
    if input.api_key is Some && input.api_key->0@.len() == 0 {
        assert(after.api_key is Some);
        assert(after.api_key->0@.len() == 0);
    }
}

/// After saving a non-empty key, the session authenticates with that key.
pub proof fn law_saved_key_is_used(before: StoredSettings, input: AppSettingsInput, after: StoredSettings)
    requires
        merged(before, input, after),
        input.api_key matches Some(k) && k@.len() > 0,
    ensures
        usable_api_key(after) == opt_view(input.api_key),
{
}

/// An update that sets nothing leaves the settings as they were.
pub proof fn law_empty_update_keeps_settings(before: StoredSettings, input: AppSettingsInput, after: StoredSettings)
    requires
        merged(before, input, after),
        input.api_key is None,
        input.theme is None,
        input.input_language is None,
        input.output_language is None,
        input.preferred_input_device is None,
        input.preferred_output_device is None,
    ensures
        same_settings(before, after),
{
}

/// Applying the same update twice gives the same settings as applying it
/// once.
pub proof fn law_update_idempotent(
    s0: StoredSettings,
    input: AppSettingsInput,
    s1: StoredSettings,
    s2: StoredSettings,
)
    requires
        merged(s0, input, s1),
        merged(s1, input, s2),
    ensures
        same_settings(s1, s2),
{
}

/// Updates of different fields commute: applying one then the other gives
/// the same settings either way.
pub proof fn law_disjoint_updates_commute(
    s0: StoredSettings,
    a: AppSettingsInput,
    b: AppSettingsInput,
    sa: StoredSettings,
    sab: StoredSettings,
    sb: StoredSettings,
    sba: StoredSettings,
)
    requires
        a.api_key is None || b.api_key is None,
        a.theme is None || b.theme is None,
        a.input_language is None || b.input_language is None,
        a.output_language is None || b.output_language is None,
        a.preferred_input_device is None || b.preferred_input_device is None,
        a.preferred_output_device is None || b.preferred_output_device is None,
        merged(s0, a, sa),
        merged(sa, b, sab),
        merged(s0, b, sb),
        merged(sb, a, sba),
    ensures
        same_settings(sab, sba),
{
}

} // verus!

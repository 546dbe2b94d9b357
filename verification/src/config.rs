//! Mapping the application's settings onto the gateway's configuration.
//!
//! The interface's provider and locale identifiers differ from the ones
//! the gateway configuration uses. The mappings themselves are decided
//! here; reading and rewriting the configuration files is the runner's
//! work.

use vstd::prelude::*;
use vstd::string::StringExecFns;

verus! {

/// The provider name the first-listed interface id maps to, tried in
/// order; `None` for providers that have no gateway configuration.
pub open spec fn spec_provider_map(p: Seq<char>) -> Option<Seq<char>> {
    if p == "gemini"@ || p == "nextain"@ {
        Option::Some("google"@)
    } else if p == "anthropic"@ {
        Option::Some("anthropic"@)
    } else if p == "openai"@ {
        Option::Some("openai"@)
    } else if p == "xai"@ {
        Option::Some("xai"@)
    } else if p == "zai"@ {
        Option::Some("zai"@)
    } else {
        Option::None
    }
}

/// The gateway's provider name for an interface provider id, or `None`
/// for providers that have no gateway configuration at all.
pub fn map_provider(provider: &String) -> (r: Option<&'static str>)
    ensures
        match r {
            Some(s) => spec_provider_map(provider@) == Option::Some(s@),
            None => spec_provider_map(provider@) is None,
        },
{
    if *provider == String::from_str("gemini") || *provider == String::from_str("nextain") {
        Some("google")
    } else if *provider == String::from_str("anthropic") {
        Some("anthropic")
    } else if *provider == String::from_str("openai") {
        Some("openai")
    } else if *provider == String::from_str("xai") {
        Some("xai")
    } else if *provider == String::from_str("zai") {
        Some("zai")
    } else {
        None
    }
}

/// The configured model reference: the gateway's provider name and the
/// model name joined by a slash.
pub fn model_primary(oc_provider: &str, model: &String) -> (r: String)
    ensures
        r@ == oc_provider@ + "/"@ + model@,
{
    let joined = String::from_str(oc_provider).concat("/");
    joined.concat(model.as_str())
}

/// The language name a locale code maps to, tried in order; an unknown
/// code is kept as it stands.
pub open spec fn spec_locale_language(l: Seq<char>) -> Seq<char> {
    if l == "ko"@ {
        "Korean"@
    } else if l == "en"@ {
        "English"@
    } else if l == "ja"@ {
        "Japanese"@
    } else if l == "zh"@ {
        "Chinese"@
    } else if l == "fr"@ {
        "French"@
    } else if l == "de"@ {
        "German"@
    } else if l == "ru"@ {
        "Russian"@
    } else if l == "es"@ {
        "Spanish"@
    } else if l == "ar"@ {
        "Arabic"@
    } else if l == "hi"@ {
        "Hindi"@
    } else if l == "bn"@ {
        "Bengali"@
    } else if l == "pt"@ {
        "Portuguese"@
    } else if l == "id"@ {
        "Indonesian"@
    } else if l == "vi"@ {
        "Vietnamese"@
    } else {
        l
    }
}

/// The language name written into the user profile for a locale code.
pub fn map_locale_language(locale: &String) -> (r: String)
    ensures
        r@ == spec_locale_language(locale@),
{
    if *locale == String::from_str("ko") {
        String::from_str("Korean")
    } else if *locale == String::from_str("en") {
        String::from_str("English")
    } else if *locale == String::from_str("ja") {
        String::from_str("Japanese")
    } else if *locale == String::from_str("zh") {
        String::from_str("Chinese")
    } else if *locale == String::from_str("fr") {
        String::from_str("French")
    } else if *locale == String::from_str("de") {
        String::from_str("German")
    } else if *locale == String::from_str("ru") {
        String::from_str("Russian")
    } else if *locale == String::from_str("es") {
        String::from_str("Spanish")
    } else if *locale == String::from_str("ar") {
        String::from_str("Arabic")
    } else if *locale == String::from_str("hi") {
        String::from_str("Hindi")
    } else if *locale == String::from_str("bn") {
        String::from_str("Bengali")
    } else if *locale == String::from_str("pt") {
        String::from_str("Portuguese")
    } else if *locale == String::from_str("id") {
        String::from_str("Indonesian")
    } else if *locale == String::from_str("vi") {
        String::from_str("Vietnamese")
    } else {
        locale.clone()
    }
}

} // verus!

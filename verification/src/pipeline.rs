//! The decisions around transcription and formatting of a recording, and
//! the classification of the errors they produce.
use vstd::prelude::*;

use crate::dictation::{ErrorTitle, SettingsSection};
use crate::text::{
    chars_of, concat2, contains, contains_str, str_lower, string_of, to_lowercase, trim, trim_chars,
};

verus! {

/// Whether a lower-cased error message says that credentials were refused.
pub open spec fn is_provider_settings_error_spec(lower: Seq<char>) -> bool {
    ||| contains(lower, "401"@)
    ||| contains(lower, "403"@)
    ||| contains(lower, "unauthorized"@)
    ||| contains(lower, "forbidden"@)
    ||| contains(lower, "authentication"@)
    ||| contains(lower, "authorization"@)
    ||| contains(lower, "invalid api key"@)
    ||| contains(lower, "api key invalid"@)
    ||| contains(lower, "missing api key"@)
    ||| contains(lower, "invalid token"@)
}

/// The message shown for an error whose lower-cased text is `lower`.
pub open spec fn classify_spec(lower: Seq<char>) -> ErrorTitle {
    if contains(lower, "choose an api provider"@) {
        ErrorTitle::ChooseProvider
    } else if contains(lower, "set up a formatting api key"@) {
        ErrorTitle::SetUpFormattingKey
    } else if contains(lower, "set up an api key"@) {
        ErrorTitle::SetUpApiKey
    } else if contains(lower, "quota"@) || contains(lower, "rate"@) || contains(lower, "429"@) {
        ErrorTitle::RateLimited
    } else if is_provider_settings_error_spec(lower) {
        ErrorTitle::InvalidApiKey
    } else if contains(lower, "timed out"@) || contains(lower, "timeout"@) {
        ErrorTitle::TimedOut
    } else if contains(lower, "offline"@) || contains(lower, "network"@) || contains(
        lower,
        "internet"@,
    ) {
        ErrorTitle::NoInternet
    } else {
        ErrorTitle::SomethingWentWrong
    }
}

/// The settings section to open for an error whose lower-cased text is `lower`.
pub open spec fn settings_section_spec(lower: Seq<char>) -> Option<SettingsSection> {
    if contains(lower, "set up a formatting api key"@) {
        Some(SettingsSection::Formatting)
    } else if contains(lower, "choose an api provider"@) || contains(lower, "set up an api key"@) {
        Some(SettingsSection::Transcription)
    } else if !is_provider_settings_error_spec(lower) {
        None
    } else if contains(lower, "format"@) {
        Some(SettingsSection::Formatting)
    } else {
        Some(SettingsSection::Transcription)
    }
}

/// Whether a lower-cased model answer repeats the instructions it was given.
pub open spec fn is_prompt_regurgitation_spec(lower: Seq<char>) -> bool {
    ||| contains(lower, "transcribe this audio"@)
    ||| contains(lower, "respond with only a json"@)
    ||| contains(lower, "dictation commands"@)
}

/// Whether the model answer `t` repeats the instructions it was given: it
/// is not empty and, lower-cased, holds one of their phrases.
pub open spec fn regurgitation(t: Seq<char>) -> bool {
    t.len() > 0 && is_prompt_regurgitation_spec(str_lower(t))
}

/// The text of an error title.
pub open spec fn error_title_spec(t: ErrorTitle) -> Seq<char> {
    match t {
        ErrorTitle::RecordingFailed => "Recording failed"@,
        ErrorTitle::PasteFailed => "Paste failed"@,
        ErrorTitle::ChooseProvider => "Choose an API provider in Settings"@,
        ErrorTitle::SetUpFormattingKey => "Set up a formatting API key in Settings"@,
        ErrorTitle::SetUpApiKey => "Set up an API key in Settings"@,
        ErrorTitle::RateLimited => "Rate limited -- try again"@,
        ErrorTitle::InvalidApiKey => "Invalid API key"@,
        ErrorTitle::TimedOut => "Request timed out"@,
        ErrorTitle::NoInternet => "No internet connection"@,
        ErrorTitle::SomethingWentWrong => "Something went wrong"@,
    }
}

/// The text of an error title.
pub fn error_title_text(t: ErrorTitle) -> (r: &'static str)
    ensures
        r@ == error_title_spec(t),
{
    match t {
        ErrorTitle::RecordingFailed => "Recording failed",
        ErrorTitle::PasteFailed => "Paste failed",
        ErrorTitle::ChooseProvider => "Choose an API provider in Settings",
        ErrorTitle::SetUpFormattingKey => "Set up a formatting API key in Settings",
        ErrorTitle::SetUpApiKey => "Set up an API key in Settings",
        ErrorTitle::RateLimited => "Rate limited -- try again",
        ErrorTitle::InvalidApiKey => "Invalid API key",
        ErrorTitle::TimedOut => "Request timed out",
        ErrorTitle::NoInternet => "No internet connection",
        ErrorTitle::SomethingWentWrong => "Something went wrong",
    }
}

/// The name of a settings section.
pub fn settings_section_name(s: SettingsSection) -> (r: &'static str)
    ensures
        r@ == (match s {
            SettingsSection::Transcription => "transcription"@,
            SettingsSection::Formatting => "formatting"@,
        }),
{
    match s {
        SettingsSection::Transcription => "transcription",
        SettingsSection::Formatting => "formatting",
    }
}

fn is_provider_settings_error_chars(lower: &[char]) -> (r: bool)
    ensures
        r == is_provider_settings_error_spec(lower@),
{
    contains_str(lower, "401") || contains_str(lower, "403") || contains_str(lower, "unauthorized")
        || contains_str(lower, "forbidden") || contains_str(lower, "authentication")
        || contains_str(lower, "authorization") || contains_str(lower, "invalid api key")
        || contains_str(lower, "api key invalid") || contains_str(lower, "missing api key")
        || contains_str(lower, "invalid token")
}

/// Whether the lower-cased error message `lower` says that credentials were refused.
pub fn is_provider_settings_error(lower: &str) -> (r: bool)
    ensures
        r == is_provider_settings_error_spec(lower@),
{
    let v = chars_of(lower);
    is_provider_settings_error_chars(v.as_slice())
}

/// The lower-cased message names none of the provider or key setup steps.
pub open spec fn no_setup_phrase(lower: Seq<char>) -> bool {
    &&& !contains(lower, "choose an api provider"@)
    &&& !contains(lower, "set up a formatting api key"@)
    &&& !contains(lower, "set up an api key"@)
}

/// The lower-cased message speaks of a quota, a rate or HTTP status 429.
pub open spec fn mentions_rate_limit(lower: Seq<char>) -> bool {
    ||| contains(lower, "quota"@)
    ||| contains(lower, "rate"@)
    ||| contains(lower, "429"@)
}

/// A message that names no setup step and mentions a quota, a rate or status 429 (each
/// of them alone suffices) is shown as rate limited, and only such a message is.
pub proof fn law_rate_limit_classification(lower: Seq<char>)
    ensures
        no_setup_phrase(lower) && contains(lower, "429"@) ==> classify_spec(lower)
            == ErrorTitle::RateLimited,
        no_setup_phrase(lower) && contains(lower, "quota"@) ==> classify_spec(lower)
            == ErrorTitle::RateLimited,
        no_setup_phrase(lower) && contains(lower, "rate"@) ==> classify_spec(lower)
            == ErrorTitle::RateLimited,
        classify_spec(lower) == ErrorTitle::RateLimited <==> no_setup_phrase(lower)
            && mentions_rate_limit(lower),
{
}

/// The message to show for `error`.
pub fn classify_error(error: &str) -> (t: ErrorTitle)
    ensures
        t == classify_spec(str_lower(error@)),
        no_setup_phrase(str_lower(error@)) && contains(str_lower(error@), "429"@) ==> t
            == ErrorTitle::RateLimited,
        t == ErrorTitle::RateLimited <==> no_setup_phrase(str_lower(error@)) && mentions_rate_limit(
            str_lower(error@),
        ),
{
    proof {
        law_rate_limit_classification(str_lower(error@));
    }
    let lower_s = to_lowercase(error);
    let lv = chars_of(lower_s.as_str());
    let lower = lv.as_slice();
    if contains_str(lower, "choose an api provider") {
        ErrorTitle::ChooseProvider
    } else if contains_str(lower, "set up a formatting api key") {
        ErrorTitle::SetUpFormattingKey
    } else if contains_str(lower, "set up an api key") {
        ErrorTitle::SetUpApiKey
    } else if contains_str(lower, "quota") || contains_str(lower, "rate") || contains_str(
        lower,
        "429",
    ) {
        ErrorTitle::RateLimited
    } else if is_provider_settings_error_chars(lower) {
        ErrorTitle::InvalidApiKey
    } else if contains_str(lower, "timed out") || contains_str(lower, "timeout") {
        ErrorTitle::TimedOut
    } else if contains_str(lower, "offline") || contains_str(lower, "network") || contains_str(
        lower,
        "internet",
    ) {
        ErrorTitle::NoInternet
    } else {
        ErrorTitle::SomethingWentWrong
    }
}

/// The settings section that fixes `error`, if any.
pub fn provider_settings_section_for_error(error: &str) -> (r: Option<SettingsSection>)
    ensures
        r == settings_section_spec(str_lower(error@)),
{
    let lower_s = to_lowercase(error);
    let lv = chars_of(lower_s.as_str());
    let lower = lv.as_slice();
    if contains_str(lower, "set up a formatting api key") {
        return Some(SettingsSection::Formatting);
    }
    if contains_str(lower, "choose an api provider") || contains_str(lower, "set up an api key") {
        return Some(SettingsSection::Transcription);
    }
    if !is_provider_settings_error_chars(lower) {
        return None;
    }
    if contains_str(lower, "format") {
        Some(SettingsSection::Formatting)
    } else {
        Some(SettingsSection::Transcription)
    }
}

/// Whether the model answer `text` repeats the instructions it was given.
pub fn is_prompt_regurgitation(text: &str) -> (r: bool)
    ensures
        r == regurgitation(text@),
{
    let lower_s = to_lowercase(text);
    let lv = chars_of(lower_s.as_str());
    let lower = lv.as_slice();
    let r = contains_str(lower, "transcribe this audio") || contains_str(
        lower,
        "respond with only a json",
    ) || contains_str(lower, "dictation commands");
    proof {
        if text@.len() == 0 {
            assert(lv@.len() == 0);
            reveal_strlit("transcribe this audio");
            reveal_strlit("respond with only a json");
            reveal_strlit("dictation commands");
        }
    }
    r
}

/// The configuration check before transcription: without an on-device
/// recognizer a provider must be chosen, and a chosen provider needs a key.
pub fn pipeline_preflight(on_device_available: bool, no_provider: bool, tx_api_key: &str) -> (r:
    Result<(), String>)
    ensures
        !on_device_available && no_provider ==> (r matches Err(m) && m@
            == "Choose an API provider in Settings"@),
        (on_device_available || !no_provider) && !no_provider && tx_api_key@.len() == 0 ==> (
        r matches Err(m) && m@ == "Set up an API key in Settings"@),
        (on_device_available || !no_provider) && (no_provider || tx_api_key@.len() > 0) ==> r is Ok,
{
    if !on_device_available && no_provider {
        return Err(crate::text::owned("Choose an API provider in Settings"));
    }
    if !no_provider && tx_api_key.is_empty() {
        return Err(crate::text::owned("Set up an API key in Settings"));
    }
    Ok(())
}

/// What follows a transcription.
pub enum PipelineStep {
    /// The pipeline ends with this result.
    Finished(Result<String, String>),
    /// The trimmed transcript is to be formatted with this API key.
    Format { text: String, api_key: String },
}

/// The formatting key: the formatting provider's own key, else the
/// transcription key.
pub open spec fn formatting_key_spec(fmt_api_key: Seq<char>, tx_api_key: Seq<char>) -> Seq<char> {
    if fmt_api_key.len() == 0 {
        tx_api_key
    } else {
        fmt_api_key
    }
}

/// What follows a transcription whose result is `raw`.
///
/// `oneshot` tells whether the transcription already formatted the text,
/// `no_formatting` whether no formatting provider is configured.
pub fn after_transcription(
    raw: Result<String, String>,
    oneshot: bool,
    no_formatting: bool,
    fmt_api_key: &str,
    tx_api_key: &str,
) -> (r: PipelineStep)
    ensures
        raw matches Err(e) ==> (r matches PipelineStep::Finished(Err(m)) && m@
            == "Transcription failed: "@ + e@),
        raw matches Ok(text) ==> {
            let t = trim(text@);
            let key = formatting_key_spec(fmt_api_key@, tx_api_key@);
            if t.len() == 0 {
                r matches PipelineStep::Finished(Ok(x)) && x@ == t
            } else if regurgitation(t) {
                r matches PipelineStep::Finished(Ok(x)) && x@.len() == 0
            } else if oneshot || no_formatting {
                r matches PipelineStep::Finished(Ok(x)) && x@ == t
            } else if key.len() == 0 {
                r matches PipelineStep::Finished(Err(m)) && m@
                    == "Set up a formatting API key in Settings"@
            } else {
                r matches PipelineStep::Format { text: x, api_key: k } && x@ == t && k@ == key
            }
        },
        r matches PipelineStep::Finished(Ok(x)) ==> !regurgitation(x@),
        r matches PipelineStep::Format { text: x, api_key: _ } ==> !regurgitation(x@),
{
    match raw {
        Err(e) => PipelineStep::Finished(Err(concat2("Transcription failed: ", e.as_str()))),
        Ok(text) => {
            let tv = chars_of(text.as_str());
            let trimmed_v = trim_chars(tv.as_slice());
            let trimmed = string_of(trimmed_v.as_slice());
            if trimmed_v.len() == 0 {
                return PipelineStep::Finished(Ok(trimmed));
            }
            if is_prompt_regurgitation(trimmed.as_str()) {
                return PipelineStep::Finished(Ok(String::new()));
            }
            if oneshot {
                return PipelineStep::Finished(Ok(trimmed));
            }
            let key = if fmt_api_key.is_empty() {
                crate::text::owned(tx_api_key)
            } else {
                crate::text::owned(fmt_api_key)
            };
            if no_formatting {
                return PipelineStep::Finished(Ok(trimmed));
            }
            if key.as_str().is_empty() {
                return PipelineStep::Finished(
                    Err(crate::text::owned("Set up a formatting API key in Settings")),
                );
            }
            PipelineStep::Format { text: trimmed, api_key: key }
        },
    }
}

/// The pipeline's result once the trimmed transcript `trimmed` was formatted into `formatted`.
pub fn after_formatting(trimmed: String, formatted: Result<String, String>) -> (r: Result<
    String,
    String,
>)
    ensures
        formatted matches Err(e) ==> (r matches Err(m) && m@ == "Formatting failed: "@ + e@),
        formatted matches Ok(f) ==> (r matches Ok(x) && x@ == (if regurgitation(f@) {
            trimmed@
        } else {
            f@
        })),
        !regurgitation(trimmed@) ==> (r matches Ok(x) ==> !regurgitation(x@)),
{
    match formatted {
        Err(e) => Err(concat2("Formatting failed: ", e.as_str())),
        Ok(f) => {
            if is_prompt_regurgitation(f.as_str()) {
                Ok(trimmed)
            } else {
                Ok(f)
            }
        },
    }
}

} // verus!

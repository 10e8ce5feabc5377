//! Resolution of the client settings from raw configuration values, with
//! the documented defaults.

use vstd::prelude::*;

use crate::num::parse_u64_spec;
use crate::num::parse_u64_digits;
use crate::text::chars_vec;
use crate::text::eq_ci;
use crate::text::trim_spec;
use crate::text::trim_vec;
use crate::text::vec_eq_ci;
use crate::urls::norm_spec;
use crate::urls::normalize_base_url;

verus! {

/// The resolved client configuration.
pub struct Settings {
    pub api_key: String,
    /// Normalized: free of trailing slashes.
    pub base_url: String,
    pub default_model: String,
    pub fallback_model: String,
    pub enable_reasoner_fallback: bool,
    pub timeout_ms: u64,
}

/// How a raw flag value reads as a boolean: `1`, `true`, `yes` or `on`,
/// ignoring ASCII case and surrounding whitespace; everything else is
/// false.
pub open spec fn bool_flag_spec(s: Seq<char>) -> bool {
    eq_ci(trim_spec(s), "1"@) || eq_ci(trim_spec(s), "true"@) || eq_ci(trim_spec(s), "yes"@)
        || eq_ci(trim_spec(s), "on"@)
}

/// Reads a raw flag value as a boolean.
pub fn parse_bool_flag(raw: &str) -> (r: bool)
    ensures
        r == bool_flag_spec(raw@),
{
    let cv = chars_vec(raw);
    let t = trim_vec(&cv);
    vec_eq_ci(&t, "1") || vec_eq_ci(&t, "true") || vec_eq_ci(&t, "yes") || vec_eq_ci(&t, "on")
}

/// A configured model name is used only when it has visible characters;
/// otherwise the default stands.
pub open spec fn picked_model(given: Option<String>, default: Seq<char>) -> Seq<char> {
    match given {
        Some(m) => if trim_spec(m@).len() > 0 {
            m@
        } else {
            default
        },
        None => default,
    }
}

/// The timeout in milliseconds: the trimmed raw value when it parses as a
/// decimal `u64`, else the default of two minutes.
pub open spec fn timeout_spec(raw: Option<String>) -> u64 {
    match raw {
        Some(s) => match parse_u64_spec(trim_spec(s@)) {
            Some(v) => v,
            None => 120000u64,
        },
        None => 120000u64,
    }
}

/// Resolves the client settings from raw configuration values: the
/// credential is required and must not be empty; the base URL defaults to
/// the public endpoint and is normalized; both model names default to the
/// standard chat model; the reasoner fallback defaults to enabled; the
/// timeout defaults to two minutes.
pub fn resolve_settings(
    api_key: Option<String>,
    base_url: Option<String>,
    default_model: Option<String>,
    fallback_model: Option<String>,
    reasoner_fallback_raw: Option<String>,
    timeout_raw: Option<String>,
) -> (r: Result<Settings, String>)
    ensures
        r is Err <==> (api_key is None || api_key->0@.len() == 0),
        r matches Err(m) ==> m@ == "DEEPSEEK_API_KEY is required"@,
        r matches Ok(s) ==> {
            &&& api_key matches Some(k) && s.api_key == k
            &&& s.base_url@ == norm_spec(
                match base_url {
                    Some(b) => b@,
                    None => "https://api.deepseek.com"@,
                },
            )
            &&& s.default_model@ == picked_model(default_model, "deepseek-chat"@)
            &&& s.fallback_model@ == picked_model(fallback_model, "deepseek-chat"@)
            &&& s.enable_reasoner_fallback == (match reasoner_fallback_raw {
                Some(f) => bool_flag_spec(f@),
                None => true,
            })
            &&& s.timeout_ms == timeout_spec(timeout_raw)
        },
{
    let key = match api_key {
        Some(k) => {
            if k.as_str().unicode_len() == 0 {
                return Err("DEEPSEEK_API_KEY is required".to_owned());
            }
            k
        },
        None => {
            return Err("DEEPSEEK_API_KEY is required".to_owned());
        },
    };
    let base = match base_url {
        Some(b) => normalize_base_url(b.as_str()),
        None => normalize_base_url("https://api.deepseek.com"),
    };
    let default_model_s = pick_model(default_model);
    let fallback_model_s = pick_model(fallback_model);
    let enable = match reasoner_fallback_raw {
        Some(f) => parse_bool_flag(f.as_str()),
        None => true,
    };
    let timeout_ms = match timeout_raw {
        Some(t) => {
            let cv = chars_vec(t.as_str());
            let trimmed = trim_vec(&cv);
            match parse_u64_digits(&trimmed) {
                Some(v) => v,
                None => 120000,
            }
        },
        None => 120000,
    };
    Ok(
        Settings {
            api_key: key,
            base_url: base,
            default_model: default_model_s,
            fallback_model: fallback_model_s,
            enable_reasoner_fallback: enable,
            timeout_ms,
        },
    )
}

/// Uses the given model name when it has visible characters, else the
/// standard chat model.
fn pick_model(given: Option<String>) -> (r: String)
    ensures
        r@ == picked_model(given, "deepseek-chat"@),
{
    match given {
        Some(m) => {
            let cv = chars_vec(m.as_str());
            let t = trim_vec(&cv);
            if t.len() > 0 {
                m
            } else {
                "deepseek-chat".to_owned()
            }
        },
        None => "deepseek-chat".to_owned(),
    }
}

} // verus!

//! Requests and answers on API keys and service configurations.

use vstd::prelude::*;
use vstd::string::StringExecFns;
use crate::domain::models::{ServiceConfig, ServiceType};
use crate::utils::text::{chars_of, str_equal, string_of};

verus! {

/// A request to keep an API key.
#[derive(Debug, Clone)]
pub struct SaveApiKeyRequest {
    /// "asr" or "llm".
    pub service_type: String,
    pub provider: String,
    pub api_key: String,
}

/// A request for the state of an API key.
#[derive(Debug, Clone)]
pub struct GetApiKeyRequest {
    pub service_type: String,
    pub provider: String,
}

/// The state of an API key: whether one is kept, and its masked form.
#[derive(Debug, Clone)]
pub struct ApiKeyStatus {
    pub has_key: bool,
    /// Three dots and the last four characters of the key.
    pub masked_key: Option<String>,
}

/// A request to store the configuration of a service.
#[derive(Debug, Clone)]
pub struct SaveServiceConfigRequest {
    pub service_type: String,
    pub provider: String,
    pub is_active: bool,
    /// Settings of the provider, as JSON text.
    pub settings: Option<String>,
}

/// The configuration of a service, as it is shown.
#[derive(Debug, Clone)]
pub struct ServiceConfigResponse {
    pub id: Option<i64>,
    pub service_type: String,
    pub provider: String,
    pub is_active: bool,
    pub settings: Option<String>,
    pub has_api_key: bool,
}

/// The masked form of a key: three dots, followed by the last four
/// characters where the key has more than four.
pub open spec fn masked(key: Seq<char>) -> Seq<char> {
    if key.len() > 4 {
        "..."@ + key.subrange(key.len() - 4, key.len() as int)
    } else {
        "..."@
    }
}

/// The masked form of a key.
pub fn mask_api_key(key: &str) -> (m: String)
    ensures
        m@ == masked(key@),
{
    let chars = chars_of(key);
    let n = chars.len();
    if n > 4 {
        let mut tail: Vec<char> = Vec::new();
        let mut i: usize = n - 4;
        while i < n
            invariant
                n == chars.len(),
                n > 4,
                n - 4 <= i <= n,
                tail@ =~= chars@.subrange(n - 4, i as int),
            decreases n - i,
        {
            tail.push(chars[i]);
            i = i + 1;
        }
        let tail_text = string_of(&tail);
        "...".to_owned().concat(tail_text.as_str())
    } else {
        "...".to_owned()
    }
}

/// The state to report of a key: kept and masked where the store has one,
/// absent otherwise.
pub fn get_api_key_status(stored: Option<&str>) -> (status: ApiKeyStatus)
    ensures
        status.has_key == (stored is Some),
        match stored {
            Some(key) => status.masked_key is Some && status.masked_key->0@ == masked(key@),
            None => status.masked_key is None,
        },
{
    match stored {
        Some(key) => ApiKeyStatus { has_key: true, masked_key: Some(mask_api_key(key)) },
        None => ApiKeyStatus { has_key: false, masked_key: None },
    }
}

/// A stored configuration as it is shown, with the state of its API key.
pub fn service_config_response(config: ServiceConfig, has_api_key: bool) -> (r:
    ServiceConfigResponse)
    ensures
        r.id == config.id,
        r.service_type@ == config.service_type.name(),
        r.provider == config.provider,
        r.is_active == config.is_active,
        r.settings == config.settings,
        r.has_api_key == has_api_key,
{
    ServiceConfigResponse {
        id: config.id,
        service_type: config.service_type.to_string(),
        provider: config.provider,
        is_active: config.is_active,
        settings: config.settings,
        has_api_key,
    }
}

/// What the activation of a provider does to a stored configuration: a
/// configuration of the same service type is active afterwards if and only
/// if it is the provider's, and one of another type is left alone.
pub open spec fn activation_of(
    config: ServiceConfig,
    service_type: ServiceType,
    provider: Seq<char>,
) -> Option<ServiceConfig> {
    if config.service_type == service_type {
        Some(ServiceConfig { is_active: config.provider@ == provider, ..config })
    } else {
        None
    }
}

/// The configuration to store in place of `config` when `provider`
/// becomes the active provider of `service_type`, or `None` where `config`
/// is to be left alone.
pub fn activate_service(config: ServiceConfig, service_type: ServiceType, provider: &str) -> (updated:
    Option<ServiceConfig>)
    ensures
        updated == activation_of(config, service_type, provider@),
{
    if config.service_type == service_type {
        let is_active = str_equal(config.provider.as_str(), provider);
        Some(config.with_active(is_active))
    } else {
        None
    }
}

} // verus!

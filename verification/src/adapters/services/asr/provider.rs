//! Which speech-recognition service is in use.

use vstd::prelude::*;
use vstd::string::StringExecFns;
use crate::domain::models::{ServiceConfig, ServiceType};
use crate::error::{AppError, Result};
use crate::utils::text::str_equal;

verus! {

/// A provider of speech recognition.
#[derive(Debug, Clone, Copy, PartialEq, Eq, Structural)]
pub enum AsrProvider {
    AssemblyAi,
    Deepgram,
}

impl AsrProvider {
    /// The name of the provider in a stored configuration.
    pub open spec fn name(self) -> Seq<char> {
        match self {
            AsrProvider::AssemblyAi => "assemblyai"@,
            AsrProvider::Deepgram => "deepgram"@,
        }
    }
}

/// The configuration counts as the active speech recognition.
pub open spec fn is_active_asr(config: ServiceConfig) -> bool {
    config.service_type == ServiceType::Asr && config.is_active
}

/// The place of the first active configuration of speech recognition, or
/// the number of configurations where there is none.
pub open spec fn place_of_active_asr(configs: Seq<ServiceConfig>) -> nat
    decreases configs.len(),
{
    if configs.len() == 0 || is_active_asr(configs[0]) {
        0
    } else {
        1 + place_of_active_asr(configs.drop_first())
    }
}

/// The provider of speech recognition that is in use: that of the first
/// active configuration of speech recognition. Without such a configuration,
/// and with one whose provider is not known, the answer is a configuration
/// error.
pub fn get_active_asr_service(configs: &Vec<ServiceConfig>) -> (r: Result<AsrProvider>)
    ensures
        ({
            let place = place_of_active_asr(configs@);
            if place < configs.len() {
                let name = configs[place as int].provider@;
                match r {
                    Ok(provider) => name == provider.name(),
                    Err(e) => name != "assemblyai"@ && name != "deepgram"@ && (
                    e matches AppError::Config(words) && words@ == "Unknown ASR provider: "@
                        + name),
                }
            } else {
                r matches Err(AppError::Config(words)) && words@
                    == "No active ASR service configured"@
            }
        }),
{
    let mut i: usize = 0;
    proof {
        assert(configs@.skip(0) =~= configs@);
    }
    while i < configs.len()
        invariant
            i <= configs.len(),
            place_of_active_asr(configs@) == i + place_of_active_asr(configs@.skip(i as int)),
        decreases configs.len() - i,
    {
        let ghost rest = configs@.skip(i as int);
        proof {
            assert(rest[0] == configs@[i as int]);
            assert(rest.drop_first() =~= configs@.skip(i + 1));
        }
        let config = &configs[i];
        if config.service_type == ServiceType::Asr && config.is_active {
            let name = config.provider.as_str();
            return if str_equal(name, "assemblyai") {
                Ok(AsrProvider::AssemblyAi)
            } else if str_equal(name, "deepgram") {
                Ok(AsrProvider::Deepgram)
            } else {
                Err(AppError::Config("Unknown ASR provider: ".to_owned().concat(name)))
            };
        }
        i = i + 1;
    }
    Err(AppError::Config("No active ASR service configured".to_owned()))
}

} // verus!

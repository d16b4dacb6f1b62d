//! Quick-start configuration for sidecar services: the last-used model and
//! channel identifiers, persisted so each service can be restarted with one
//! action.

use vstd::prelude::*;

verus! {

/// The last-used sidecar settings.
#[derive(Debug, Clone)]
pub struct SidecarQuickConfig {
    pub last_llm_model_id: Option<String>,
    pub last_tts_model_id: Option<String>,
    pub last_discord_guild_id: Option<String>,
    pub last_discord_channel_id: Option<String>,
    pub last_discord_guild_name: Option<String>,
    pub last_discord_channel_name: Option<String>,
    pub last_embedding_model_id: Option<String>,
}

/// A configuration with nothing remembered yet.
pub fn default_config() -> (r: SidecarQuickConfig)
    ensures
        r.last_llm_model_id is None,
        r.last_tts_model_id is None,
        r.last_discord_guild_id is None,
        r.last_discord_channel_id is None,
        r.last_discord_guild_name is None,
        r.last_discord_channel_name is None,
        r.last_embedding_model_id is None,
{
    SidecarQuickConfig {
        last_llm_model_id: None,
        last_tts_model_id: None,
        last_discord_guild_id: None,
        last_discord_channel_id: None,
        last_discord_guild_name: None,
        last_discord_channel_name: None,
        last_embedding_model_id: None,
    }
}

} // verus!

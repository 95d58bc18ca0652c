//! Chat service settings: WebSocket limits and message moderation, read
//! from the environment.
use vstd::prelude::*;
use crate::common::{
    ServerConfig, DatabaseConfig, RedisConfig, JwtConfig, server_config_matches,
    database_config_matches, redis_config_matches, jwt_config_matches,
};
use crate::env::{EnvVars, setting_text, setting_num, setting_bool, setting_list};
use crate::text::{lower_text, to_lower, chars_of};

verus! {

pub struct ChatConfig {
    pub server: ServerConfig,
    pub database: DatabaseConfig,
    pub redis: RedisConfig,
    pub jwt: JwtConfig,
    pub websocket: WebSocketConfig,
    pub moderation: ModerationConfig,
}

pub struct WebSocketConfig {
    pub max_connections_per_user: u32,
    pub heartbeat_interval_seconds: u64,
    pub connection_timeout_seconds: u64,
    pub max_message_size: usize,
    pub rate_limit_messages_per_minute: u32,
}

pub struct ModerationConfig {
    pub enable_auto_moderation: bool,
    pub safety_service_url: String,
    pub max_message_length: usize,
    pub blocked_words: Vec<String>,
}

/// The lower-cased pieces, without those that are empty.
pub open spec fn lowered_words(pieces: Seq<Seq<char>>) -> Seq<Seq<char>>
    decreases pieces.len(),
{
    if pieces.len() == 0 {
        Seq::empty()
    } else {
        let rest = lowered_words(pieces.drop_last());
        let w = lower_text(pieces.last());
        if w.len() > 0 {
            rest.push(w)
        } else {
            rest
        }
    }
}

pub open spec fn websocket_config_matches(c: WebSocketConfig, vars: Seq<(String, String)>) -> bool {
    &&& c.max_connections_per_user as nat == setting_num(vars, "WS_MAX_CONNECTIONS_PER_USER"@, u32::MAX as nat, 5)
    &&& c.heartbeat_interval_seconds as nat == setting_num(vars, "WS_HEARTBEAT_INTERVAL"@, u64::MAX as nat, 30)
    &&& c.connection_timeout_seconds as nat == setting_num(vars, "WS_CONNECTION_TIMEOUT"@, u64::MAX as nat, 300)
    &&& c.max_message_size as nat == setting_num(vars, "WS_MAX_MESSAGE_SIZE"@, usize::MAX as nat, 65536)
    &&& c.rate_limit_messages_per_minute as nat == setting_num(vars, "WS_RATE_LIMIT_MESSAGES"@, u32::MAX as nat, 60)
}

pub open spec fn moderation_config_matches(c: ModerationConfig, vars: Seq<(String, String)>) -> bool {
    let words = lowered_words(setting_list(vars, "BLOCKED_WORDS"@, ""@));
    &&& c.enable_auto_moderation == setting_bool(vars, "ENABLE_AUTO_MODERATION"@, true)
    &&& c.safety_service_url@ == setting_text(vars, "SAFETY_SERVICE_URL"@, "http://localhost:8007"@)
    &&& c.max_message_length as nat == setting_num(vars, "MAX_MESSAGE_LENGTH"@, usize::MAX as nat, 2000)
    &&& c.blocked_words@.len() == words.len()
    &&& forall|i: int| 0 <= i < words.len() ==> #[trigger] c.blocked_words@[i]@ == words[i]
}

impl WebSocketConfig {
    pub fn from_env(env: &EnvVars) -> (c: Self)
        ensures
            websocket_config_matches(c, env.vars@),
    {
        WebSocketConfig {
            max_connections_per_user: env.u32_or("WS_MAX_CONNECTIONS_PER_USER", 5),
            heartbeat_interval_seconds: env.u64_or("WS_HEARTBEAT_INTERVAL", 30),
            connection_timeout_seconds: env.u64_or("WS_CONNECTION_TIMEOUT", 300),
            max_message_size: env.usize_or("WS_MAX_MESSAGE_SIZE", 65536),
            rate_limit_messages_per_minute: env.u32_or("WS_RATE_LIMIT_MESSAGES", 60),
        }
    }
}

impl ModerationConfig {
    /// Moderation settings; `BLOCKED_WORDS` is a comma-separated list whose
    /// pieces are trimmed and lower-cased, empty ones dropped.
    pub fn from_env(env: &EnvVars) -> (c: Self)
        ensures
            moderation_config_matches(c, env.vars@),
    {
        let pieces = env.list_or("BLOCKED_WORDS", "");
        let ghost l = setting_list(env.vars@, "BLOCKED_WORDS"@, ""@);
        let mut words: Vec<String> = Vec::new();
        let mut i: usize = 0;
        assert(l.subrange(0, 0) =~= Seq::<Seq<char>>::empty());
        while i < pieces.len()
            invariant
                i <= pieces@.len(),
                pieces@.len() == l.len(),
                forall|k: int| 0 <= k < pieces@.len() ==> #[trigger] pieces@[k]@ == l[k],
                words@.len() == lowered_words(l.subrange(0, i as int)).len(),
                forall|k: int| 0 <= k < words@.len() ==> #[trigger] words@[k]@ == lowered_words(l.subrange(0, i as int))[k],
            decreases pieces.len() - i,
        {
            assert(l.subrange(0, i + 1).drop_last() =~= l.subrange(0, i as int));
            assert(pieces@[i as int]@ == l[i as int]);
            let w = to_lower(pieces[i].as_str());
            if chars_of(w.as_str()).len() > 0 {
                words.push(w);
            }
            i = i + 1;
        }
        assert(l.subrange(0, l.len() as int) =~= l);
        ModerationConfig {
            enable_auto_moderation: env.bool_or("ENABLE_AUTO_MODERATION", true),
            safety_service_url: env.text_or("SAFETY_SERVICE_URL", "http://localhost:8007"),
            max_message_length: env.usize_or("MAX_MESSAGE_LENGTH", 2000),
            blocked_words: words,
        }
    }
}

impl ChatConfig {
    /// The chat service's settings from the environment; every variable has
    /// a fallback, so this always succeeds.
    pub fn from_env(env: &EnvVars) -> (c: Self)
        ensures
            server_config_matches(c.server, env.vars@, "SERVER_HOST"@, "SERVER_PORT"@, 8002),
            database_config_matches(c.database, env.vars@),
            redis_config_matches(c.redis, env.vars@, 0),
            jwt_config_matches(c.jwt, env.vars@),
            websocket_config_matches(c.websocket, env.vars@),
            moderation_config_matches(c.moderation, env.vars@),
    {
        ChatConfig {
            server: ServerConfig::from_env(env, "SERVER_HOST", "SERVER_PORT", 8002),
            database: DatabaseConfig::from_env(env),
            redis: RedisConfig::from_env(env, 0),
            jwt: JwtConfig::from_env(env),
            websocket: WebSocketConfig::from_env(env),
            moderation: ModerationConfig::from_env(env),
        }
    }
}

} // verus!

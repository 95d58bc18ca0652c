//! Analytics service settings: retention, aggregation and query limits,
//! read from the environment.
use vstd::prelude::*;
use crate::common::{
    ServerConfig, DatabaseConfig, RedisConfig, JwtConfig, server_config_matches,
    database_config_matches, redis_config_matches, jwt_config_matches,
};
use crate::env::{EnvVars, setting_num, setting_bool};

verus! {

pub struct AnalyticsConfig {
    pub server: ServerConfig,
    pub database: DatabaseConfig,
    pub redis: RedisConfig,
    pub jwt: JwtConfig,
    pub analytics: AnalyticsServiceConfig,
}

pub struct AnalyticsServiceConfig {
    pub data_retention_days: u32,
    pub aggregation_interval_minutes: u32,
    pub batch_size: u32,
    pub enable_real_time_metrics: bool,
    pub cache_ttl_seconds: u32,
    pub max_query_results: u32,
}

pub open spec fn analytics_service_matches(c: AnalyticsServiceConfig, vars: Seq<(String, String)>) -> bool {
    &&& c.data_retention_days as nat == setting_num(vars, "ANALYTICS_DATA_RETENTION_DAYS"@, u32::MAX as nat, 365)
    &&& c.aggregation_interval_minutes as nat == setting_num(vars, "ANALYTICS_AGGREGATION_INTERVAL"@, u32::MAX as nat, 15)
    &&& c.batch_size as nat == setting_num(vars, "ANALYTICS_BATCH_SIZE"@, u32::MAX as nat, 1000)
    &&& c.enable_real_time_metrics == setting_bool(vars, "ANALYTICS_REAL_TIME"@, true)
    &&& c.cache_ttl_seconds as nat == setting_num(vars, "ANALYTICS_CACHE_TTL"@, u32::MAX as nat, 300)
    &&& c.max_query_results as nat == setting_num(vars, "ANALYTICS_MAX_RESULTS"@, u32::MAX as nat, 10000)
}

impl AnalyticsServiceConfig {
    pub fn from_env(env: &EnvVars) -> (c: Self)
        ensures
            analytics_service_matches(c, env.vars@),
    {
        AnalyticsServiceConfig {
            data_retention_days: env.u32_or("ANALYTICS_DATA_RETENTION_DAYS", 365),
            aggregation_interval_minutes: env.u32_or("ANALYTICS_AGGREGATION_INTERVAL", 15),
            batch_size: env.u32_or("ANALYTICS_BATCH_SIZE", 1000),
            enable_real_time_metrics: env.bool_or("ANALYTICS_REAL_TIME", true),
            cache_ttl_seconds: env.u32_or("ANALYTICS_CACHE_TTL", 300),
            max_query_results: env.u32_or("ANALYTICS_MAX_RESULTS", 10000),
        }
    }
}

impl AnalyticsConfig {
    /// The analytics service's settings from the environment; every variable
    /// has a fallback, so this always succeeds.
    pub fn from_env(env: &EnvVars) -> (c: Self)
        ensures
            server_config_matches(c.server, env.vars@, "ANALYTICS_HOST"@, "ANALYTICS_PORT"@, 8008),
            database_config_matches(c.database, env.vars@),
            redis_config_matches(c.redis, env.vars@, 5),
            jwt_config_matches(c.jwt, env.vars@),
            analytics_service_matches(c.analytics, env.vars@),
    {
        AnalyticsConfig {
            server: ServerConfig::from_env(env, "ANALYTICS_HOST", "ANALYTICS_PORT", 8008),
            database: DatabaseConfig::from_env(env),
            redis: RedisConfig::from_env(env, 5),
            jwt: JwtConfig::from_env(env),
            analytics: AnalyticsServiceConfig::from_env(env),
        }
    }
}

} // verus!

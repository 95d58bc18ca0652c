//! Notification service settings: delivery workers, e-mail, SMS and push
//! channels and message templates, read from the environment.
use vstd::prelude::*;
use crate::common::{
    ServerConfig, DatabaseConfig, RedisConfig, JwtConfig, server_config_matches,
    database_config_matches, redis_config_matches, jwt_config_matches,
};
use crate::env::{EnvVars, env_lookup, setting_text, setting_num, setting_bool, setting_list, strings_are};

verus! {

pub struct NotificationConfig {
    pub server: ServerConfig,
    pub database: DatabaseConfig,
    pub redis: RedisConfig,
    pub jwt: JwtConfig,
    pub notification: NotificationServiceConfig,
    pub email: EmailConfig,
    pub sms: SmsConfig,
    pub push: PushConfig,
    pub templates: TemplateConfig,
}

pub struct NotificationServiceConfig {
    pub max_retry_attempts: u32,
    pub retry_delay_seconds: u64,
    pub batch_size: u32,
    pub worker_count: u32,
    pub rate_limit_per_minute: u32,
    pub enable_delivery_tracking: bool,
    pub default_timezone: String,
}

pub struct EmailConfig {
    pub enabled: bool,
    pub smtp_host: String,
    pub smtp_port: u16,
    pub smtp_username: String,
    pub smtp_password: String,
    /// `none`, `tls` or `starttls`.
    pub smtp_encryption: String,
    pub from_email: String,
    pub from_name: String,
    pub reply_to: Option<String>,
    pub max_recipients: u32,
}

pub struct SmsConfig {
    pub enabled: bool,
    /// `twilio`, `aws_sns`, ...
    pub provider: String,
    pub api_key: String,
    pub api_secret: String,
    pub from_number: String,
    pub webhook_url: String,
}

pub struct PushConfig {
    pub enabled: bool,
    pub fcm_server_key: String,
    pub fcm_sender_id: String,
    pub apns_key_id: String,
    pub apns_team_id: String,
    pub apns_bundle_id: String,
    pub apns_key_path: String,
    pub web_push_vapid_public_key: String,
    pub web_push_vapid_private_key: String,
    pub web_push_contact_email: String,
}

pub struct TemplateConfig {
    pub template_dir: String,
    pub cache_templates: bool,
    pub default_language: String,
    pub supported_languages: Vec<String>,
}

pub open spec fn notification_service_matches(c: NotificationServiceConfig, vars: Seq<(String, String)>) -> bool {
    &&& c.max_retry_attempts as nat == setting_num(vars, "NOTIFICATION_MAX_RETRIES"@, u32::MAX as nat, 3)
    &&& c.retry_delay_seconds as nat == setting_num(vars, "NOTIFICATION_RETRY_DELAY"@, u64::MAX as nat, 60)
    &&& c.batch_size as nat == setting_num(vars, "NOTIFICATION_BATCH_SIZE"@, u32::MAX as nat, 100)
    &&& c.worker_count as nat == setting_num(vars, "NOTIFICATION_WORKERS"@, u32::MAX as nat, 4)
    &&& c.rate_limit_per_minute as nat == setting_num(vars, "NOTIFICATION_RATE_LIMIT"@, u32::MAX as nat, 1000)
    &&& c.enable_delivery_tracking == setting_bool(vars, "NOTIFICATION_TRACK_DELIVERY"@, true)
    &&& c.default_timezone@ == setting_text(vars, "DEFAULT_TIMEZONE"@, "UTC"@)
}

pub open spec fn email_config_matches(c: EmailConfig, vars: Seq<(String, String)>) -> bool {
    &&& c.enabled == setting_bool(vars, "EMAIL_ENABLED"@, true)
    &&& c.smtp_host@ == setting_text(vars, "SMTP_HOST"@, "smtp.gmail.com"@)
    &&& c.smtp_port as nat == setting_num(vars, "SMTP_PORT"@, u16::MAX as nat, 587)
    &&& c.smtp_username@ == setting_text(vars, "SMTP_USERNAME"@, "noreply@linkwithmentor.com"@)
    &&& c.smtp_password@ == setting_text(vars, "SMTP_PASSWORD"@, "smtp_password"@)
    &&& c.smtp_encryption@ == setting_text(vars, "SMTP_ENCRYPTION"@, "starttls"@)
    &&& c.from_email@ == setting_text(vars, "FROM_EMAIL"@, "noreply@linkwithmentor.com"@)
    &&& c.from_name@ == setting_text(vars, "FROM_NAME"@, "LinkWithMentor"@)
    &&& match env_lookup(vars, "REPLY_TO_EMAIL"@) {
        Some(t) => c.reply_to is Some && c.reply_to->0@ == t,
        None => c.reply_to is None,
    }
    &&& c.max_recipients as nat == setting_num(vars, "EMAIL_MAX_RECIPIENTS"@, u32::MAX as nat, 50)
}

pub open spec fn sms_config_matches(c: SmsConfig, vars: Seq<(String, String)>) -> bool {
    &&& c.enabled == setting_bool(vars, "SMS_ENABLED"@, true)
    &&& c.provider@ == setting_text(vars, "SMS_PROVIDER"@, "twilio"@)
    &&& c.api_key@ == setting_text(vars, "SMS_API_KEY"@, "sms_api_key"@)
    &&& c.api_secret@ == setting_text(vars, "SMS_API_SECRET"@, "sms_api_secret"@)
    &&& c.from_number@ == setting_text(vars, "SMS_FROM_NUMBER"@, "+1234567890"@)
    &&& c.webhook_url@ == setting_text(vars, "SMS_WEBHOOK_URL"@, "https://api.linkwithmentor.com/webhooks/sms"@)
}

pub open spec fn push_config_matches(c: PushConfig, vars: Seq<(String, String)>) -> bool {
    &&& c.enabled == setting_bool(vars, "PUSH_ENABLED"@, true)
    &&& c.fcm_server_key@ == setting_text(vars, "FCM_SERVER_KEY"@, "fcm_server_key"@)
    &&& c.fcm_sender_id@ == setting_text(vars, "FCM_SENDER_ID"@, "fcm_sender_id"@)
    &&& c.apns_key_id@ == setting_text(vars, "APNS_KEY_ID"@, "apns_key_id"@)
    &&& c.apns_team_id@ == setting_text(vars, "APNS_TEAM_ID"@, "apns_team_id"@)
    &&& c.apns_bundle_id@ == setting_text(vars, "APNS_BUNDLE_ID"@, "com.linkwithmentor.app"@)
    &&& c.apns_key_path@ == setting_text(vars, "APNS_KEY_PATH"@, "/app/keys/apns.p8"@)
    &&& c.web_push_vapid_public_key@ == setting_text(vars, "WEB_PUSH_VAPID_PUBLIC_KEY"@, "vapid_public_key"@)
    &&& c.web_push_vapid_private_key@ == setting_text(vars, "WEB_PUSH_VAPID_PRIVATE_KEY"@, "vapid_private_key"@)
    &&& c.web_push_contact_email@ == setting_text(vars, "WEB_PUSH_CONTACT_EMAIL"@, "admin@linkwithmentor.com"@)
}

pub open spec fn template_config_matches(c: TemplateConfig, vars: Seq<(String, String)>) -> bool {
    &&& c.template_dir@ == setting_text(vars, "TEMPLATE_DIR"@, "./templates"@)
    &&& c.cache_templates == setting_bool(vars, "CACHE_TEMPLATES"@, true)
    &&& c.default_language@ == setting_text(vars, "DEFAULT_LANGUAGE"@, "en"@)
    &&& strings_are(c.supported_languages@, setting_list(vars, "SUPPORTED_LANGUAGES"@, "en,hi,es,fr"@))
}

impl NotificationServiceConfig {
    pub fn from_env(env: &EnvVars) -> (c: Self)
        ensures
            notification_service_matches(c, env.vars@),
    {
        NotificationServiceConfig {
            max_retry_attempts: env.u32_or("NOTIFICATION_MAX_RETRIES", 3),
            retry_delay_seconds: env.u64_or("NOTIFICATION_RETRY_DELAY", 60),
            batch_size: env.u32_or("NOTIFICATION_BATCH_SIZE", 100),
            worker_count: env.u32_or("NOTIFICATION_WORKERS", 4),
            rate_limit_per_minute: env.u32_or("NOTIFICATION_RATE_LIMIT", 1000),
            enable_delivery_tracking: env.bool_or("NOTIFICATION_TRACK_DELIVERY", true),
            default_timezone: env.text_or("DEFAULT_TIMEZONE", "UTC"),
        }
    }
}

impl EmailConfig {
    pub fn from_env(env: &EnvVars) -> (c: Self)
        ensures
            email_config_matches(c, env.vars@),
    {
        EmailConfig {
            enabled: env.bool_or("EMAIL_ENABLED", true),
            smtp_host: env.text_or("SMTP_HOST", "smtp.gmail.com"),
            smtp_port: env.u16_or("SMTP_PORT", 587),
            smtp_username: env.text_or("SMTP_USERNAME", "noreply@linkwithmentor.com"),
            smtp_password: env.text_or("SMTP_PASSWORD", "smtp_password"),
            smtp_encryption: env.text_or("SMTP_ENCRYPTION", "starttls"),
            from_email: env.text_or("FROM_EMAIL", "noreply@linkwithmentor.com"),
            from_name: env.text_or("FROM_NAME", "LinkWithMentor"),
            reply_to: env.get("REPLY_TO_EMAIL"),
            max_recipients: env.u32_or("EMAIL_MAX_RECIPIENTS", 50),
        }
    }
}

impl SmsConfig {
    pub fn from_env(env: &EnvVars) -> (c: Self)
        ensures
            sms_config_matches(c, env.vars@),
    {
        SmsConfig {
            enabled: env.bool_or("SMS_ENABLED", true),
            provider: env.text_or("SMS_PROVIDER", "twilio"),
            api_key: env.text_or("SMS_API_KEY", "sms_api_key"),
            api_secret: env.text_or("SMS_API_SECRET", "sms_api_secret"),
            from_number: env.text_or("SMS_FROM_NUMBER", "+1234567890"),
            webhook_url: env.text_or("SMS_WEBHOOK_URL", "https://api.linkwithmentor.com/webhooks/sms"),
        }
    }
}

impl PushConfig {
    pub fn from_env(env: &EnvVars) -> (c: Self)
        ensures
            push_config_matches(c, env.vars@),
    {
        PushConfig {
            enabled: env.bool_or("PUSH_ENABLED", true),
            fcm_server_key: env.text_or("FCM_SERVER_KEY", "fcm_server_key"),
            fcm_sender_id: env.text_or("FCM_SENDER_ID", "fcm_sender_id"),
            apns_key_id: env.text_or("APNS_KEY_ID", "apns_key_id"),
            apns_team_id: env.text_or("APNS_TEAM_ID", "apns_team_id"),
            apns_bundle_id: env.text_or("APNS_BUNDLE_ID", "com.linkwithmentor.app"),
            apns_key_path: env.text_or("APNS_KEY_PATH", "/app/keys/apns.p8"),
            web_push_vapid_public_key: env.text_or("WEB_PUSH_VAPID_PUBLIC_KEY", "vapid_public_key"),
            web_push_vapid_private_key: env.text_or("WEB_PUSH_VAPID_PRIVATE_KEY", "vapid_private_key"),
            web_push_contact_email: env.text_or("WEB_PUSH_CONTACT_EMAIL", "admin@linkwithmentor.com"),
        }
    }
}

impl TemplateConfig {
    pub fn from_env(env: &EnvVars) -> (c: Self)
        ensures
            template_config_matches(c, env.vars@),
    {
        TemplateConfig {
            template_dir: env.text_or("TEMPLATE_DIR", "./templates"),
            cache_templates: env.bool_or("CACHE_TEMPLATES", true),
            default_language: env.text_or("DEFAULT_LANGUAGE", "en"),
            supported_languages: env.list_or("SUPPORTED_LANGUAGES", "en,hi,es,fr"),
        }
    }
}

impl NotificationConfig {
    /// The notification service's settings from the environment; every
    /// variable has a fallback, so this always succeeds.
    pub fn from_env(env: &EnvVars) -> (c: Self)
        ensures
            server_config_matches(c.server, env.vars@, "NOTIFICATIONS_HOST"@, "NOTIFICATIONS_PORT"@, 8006),
            database_config_matches(c.database, env.vars@),
            redis_config_matches(c.redis, env.vars@, 4),
            jwt_config_matches(c.jwt, env.vars@),
            notification_service_matches(c.notification, env.vars@),
            email_config_matches(c.email, env.vars@),
            sms_config_matches(c.sms, env.vars@),
            push_config_matches(c.push, env.vars@),
            template_config_matches(c.templates, env.vars@),
    {
        NotificationConfig {
            server: ServerConfig::from_env(env, "NOTIFICATIONS_HOST", "NOTIFICATIONS_PORT", 8006),
            database: DatabaseConfig::from_env(env),
            redis: RedisConfig::from_env(env, 4),
            jwt: JwtConfig::from_env(env),
            notification: NotificationServiceConfig::from_env(env),
            email: EmailConfig::from_env(env),
            sms: SmsConfig::from_env(env),
            push: PushConfig::from_env(env),
            templates: TemplateConfig::from_env(env),
        }
    }
}

} // verus!

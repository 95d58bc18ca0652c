//! Meetings service settings: session rules, reminders, notification and
//! calendar integration, read from the environment.
use vstd::prelude::*;
use crate::common::{
    ServerConfig, DatabaseConfig, RedisConfig, JwtConfig, server_config_matches,
    database_config_matches, redis_config_matches, jwt_config_matches,
};
use crate::env::{EnvVars, env_lookup, setting_text, setting_num, setting_bool, setting_list, opt_text_is, parsed_u32s};

verus! {

pub struct MeetingsConfig {
    pub server: ServerConfig,
    pub database: DatabaseConfig,
    pub redis: RedisConfig,
    pub jwt: JwtConfig,
    pub meetings: MeetingsServiceConfig,
    pub notifications: NotificationConfig,
    pub calendar: CalendarConfig,
}

pub struct MeetingsServiceConfig {
    pub max_session_duration_hours: u32,
    pub default_session_duration_minutes: u32,
    pub advance_booking_days: u32,
    pub cancellation_window_hours: u32,
    pub reminder_intervals_minutes: Vec<u32>,
    pub max_participants_per_session: u32,
    pub enable_recurring_sessions: bool,
    pub max_recurring_sessions: u32,
    pub whiteboard_storage_path: String,
    pub session_materials_path: String,
    pub enable_session_recording: bool,
    pub auto_save_interval_seconds: u32,
}

pub struct NotificationConfig {
    pub smtp_host: String,
    pub smtp_port: u16,
    pub smtp_username: String,
    pub smtp_password: String,
    pub from_email: String,
    pub from_name: String,
    pub enable_email_notifications: bool,
    pub enable_sms_notifications: bool,
    pub sms_provider: String,
    pub sms_api_key: Option<String>,
}

pub struct CalendarConfig {
    pub enable_ical_export: bool,
    pub calendar_name: String,
    pub timezone: String,
    pub enable_google_calendar: bool,
    pub google_client_id: Option<String>,
    pub google_client_secret: Option<String>,
    pub enable_outlook_calendar: bool,
    pub outlook_client_id: Option<String>,
    pub outlook_client_secret: Option<String>,
}

pub open spec fn meetings_service_matches(c: MeetingsServiceConfig, vars: Seq<(String, String)>) -> bool {
    &&& c.max_session_duration_hours as nat == setting_num(vars, "MEETINGS_MAX_DURATION_HOURS"@, u32::MAX as nat, 4)
    &&& c.default_session_duration_minutes as nat == setting_num(vars, "MEETINGS_DEFAULT_DURATION"@, u32::MAX as nat, 60)
    &&& c.advance_booking_days as nat == setting_num(vars, "MEETINGS_ADVANCE_BOOKING_DAYS"@, u32::MAX as nat, 30)
    &&& c.cancellation_window_hours as nat == setting_num(vars, "MEETINGS_CANCELLATION_WINDOW"@, u32::MAX as nat, 24)
    &&& c.reminder_intervals_minutes@ == parsed_u32s(setting_list(vars, "MEETINGS_REMINDER_INTERVALS"@, "1440,60,15"@))
    &&& c.max_participants_per_session as nat == setting_num(vars, "MEETINGS_MAX_PARTICIPANTS"@, u32::MAX as nat, 10)
    &&& c.enable_recurring_sessions == setting_bool(vars, "MEETINGS_ENABLE_RECURRING"@, true)
    &&& c.max_recurring_sessions as nat == setting_num(vars, "MEETINGS_MAX_RECURRING"@, u32::MAX as nat, 52)
    &&& c.whiteboard_storage_path@ == setting_text(vars, "MEETINGS_WHITEBOARD_PATH"@, "/app/whiteboards"@)
    &&& c.session_materials_path@ == setting_text(vars, "MEETINGS_MATERIALS_PATH"@, "/app/materials"@)
    &&& c.enable_session_recording == setting_bool(vars, "MEETINGS_ENABLE_RECORDING"@, true)
    &&& c.auto_save_interval_seconds as nat == setting_num(vars, "MEETINGS_AUTO_SAVE_INTERVAL"@, u32::MAX as nat, 30)
}

pub open spec fn meetings_notification_matches(c: NotificationConfig, vars: Seq<(String, String)>) -> bool {
    &&& c.smtp_host@ == setting_text(vars, "SMTP_HOST"@, "localhost"@)
    &&& c.smtp_port as nat == setting_num(vars, "SMTP_PORT"@, u16::MAX as nat, 587)
    &&& c.smtp_username@ == setting_text(vars, "SMTP_USERNAME"@, "noreply@linkwithmentor.com"@)
    &&& c.smtp_password@ == setting_text(vars, "SMTP_PASSWORD"@, "password"@)
    &&& c.from_email@ == setting_text(vars, "FROM_EMAIL"@, "noreply@linkwithmentor.com"@)
    &&& c.from_name@ == setting_text(vars, "FROM_NAME"@, "LinkWithMentor"@)
    &&& c.enable_email_notifications == setting_bool(vars, "ENABLE_EMAIL_NOTIFICATIONS"@, true)
    &&& c.enable_sms_notifications == setting_bool(vars, "ENABLE_SMS_NOTIFICATIONS"@, false)
    &&& c.sms_provider@ == setting_text(vars, "SMS_PROVIDER"@, "twilio"@)
    &&& opt_text_is(c.sms_api_key, env_lookup(vars, "SMS_API_KEY"@))
}

pub open spec fn calendar_config_matches(c: CalendarConfig, vars: Seq<(String, String)>) -> bool {
    &&& c.enable_ical_export == setting_bool(vars, "CALENDAR_ENABLE_ICAL"@, true)
    &&& c.calendar_name@ == setting_text(vars, "CALENDAR_NAME"@, "LinkWithMentor Sessions"@)
    &&& c.timezone@ == setting_text(vars, "CALENDAR_TIMEZONE"@, "UTC"@)
    &&& c.enable_google_calendar == setting_bool(vars, "CALENDAR_ENABLE_GOOGLE"@, false)
    &&& opt_text_is(c.google_client_id, env_lookup(vars, "GOOGLE_CLIENT_ID"@))
    &&& opt_text_is(c.google_client_secret, env_lookup(vars, "GOOGLE_CLIENT_SECRET"@))
    &&& c.enable_outlook_calendar == setting_bool(vars, "CALENDAR_ENABLE_OUTLOOK"@, false)
    &&& opt_text_is(c.outlook_client_id, env_lookup(vars, "OUTLOOK_CLIENT_ID"@))
    &&& opt_text_is(c.outlook_client_secret, env_lookup(vars, "OUTLOOK_CLIENT_SECRET"@))
}

impl MeetingsServiceConfig {
    pub fn from_env(env: &EnvVars) -> (c: Self)
        ensures
            meetings_service_matches(c, env.vars@),
    {
        MeetingsServiceConfig {
            max_session_duration_hours: env.u32_or("MEETINGS_MAX_DURATION_HOURS", 4),
            default_session_duration_minutes: env.u32_or("MEETINGS_DEFAULT_DURATION", 60),
            advance_booking_days: env.u32_or("MEETINGS_ADVANCE_BOOKING_DAYS", 30),
            cancellation_window_hours: env.u32_or("MEETINGS_CANCELLATION_WINDOW", 24),
            reminder_intervals_minutes: env.u32_list_or("MEETINGS_REMINDER_INTERVALS", "1440,60,15"),
            max_participants_per_session: env.u32_or("MEETINGS_MAX_PARTICIPANTS", 10),
            enable_recurring_sessions: env.bool_or("MEETINGS_ENABLE_RECURRING", true),
            max_recurring_sessions: env.u32_or("MEETINGS_MAX_RECURRING", 52),
            whiteboard_storage_path: env.text_or("MEETINGS_WHITEBOARD_PATH", "/app/whiteboards"),
            session_materials_path: env.text_or("MEETINGS_MATERIALS_PATH", "/app/materials"),
            enable_session_recording: env.bool_or("MEETINGS_ENABLE_RECORDING", true),
            auto_save_interval_seconds: env.u32_or("MEETINGS_AUTO_SAVE_INTERVAL", 30),
        }
    }
}

impl NotificationConfig {
    pub fn from_env(env: &EnvVars) -> (c: Self)
        ensures
            meetings_notification_matches(c, env.vars@),
    {
        NotificationConfig {
            smtp_host: env.text_or("SMTP_HOST", "localhost"),
            smtp_port: env.u16_or("SMTP_PORT", 587),
            smtp_username: env.text_or("SMTP_USERNAME", "noreply@linkwithmentor.com"),
            smtp_password: env.text_or("SMTP_PASSWORD", "password"),
            from_email: env.text_or("FROM_EMAIL", "noreply@linkwithmentor.com"),
            from_name: env.text_or("FROM_NAME", "LinkWithMentor"),
            enable_email_notifications: env.bool_or("ENABLE_EMAIL_NOTIFICATIONS", true),
            enable_sms_notifications: env.bool_or("ENABLE_SMS_NOTIFICATIONS", false),
            sms_provider: env.text_or("SMS_PROVIDER", "twilio"),
            sms_api_key: env.get("SMS_API_KEY"),
        }
    }
}

impl CalendarConfig {
    pub fn from_env(env: &EnvVars) -> (c: Self)
        ensures
            calendar_config_matches(c, env.vars@),
    {
        CalendarConfig {
            enable_ical_export: env.bool_or("CALENDAR_ENABLE_ICAL", true),
            calendar_name: env.text_or("CALENDAR_NAME", "LinkWithMentor Sessions"),
            timezone: env.text_or("CALENDAR_TIMEZONE", "UTC"),
            enable_google_calendar: env.bool_or("CALENDAR_ENABLE_GOOGLE", false),
            google_client_id: env.get("GOOGLE_CLIENT_ID"),
            google_client_secret: env.get("GOOGLE_CLIENT_SECRET"),
            enable_outlook_calendar: env.bool_or("CALENDAR_ENABLE_OUTLOOK", false),
            outlook_client_id: env.get("OUTLOOK_CLIENT_ID"),
            outlook_client_secret: env.get("OUTLOOK_CLIENT_SECRET"),
        }
    }
}

impl MeetingsConfig {
    /// The meetings service's settings from the environment; every variable
    /// has a fallback, so this always succeeds.
    pub fn from_env(env: &EnvVars) -> (c: Self)
        ensures
            server_config_matches(c.server, env.vars@, "MEETINGS_HOST"@, "MEETINGS_PORT"@, 8004),
            database_config_matches(c.database, env.vars@),
            redis_config_matches(c.redis, env.vars@, 2),
            jwt_config_matches(c.jwt, env.vars@),
            meetings_service_matches(c.meetings, env.vars@),
            meetings_notification_matches(c.notifications, env.vars@),
            calendar_config_matches(c.calendar, env.vars@),
    {
        MeetingsConfig {
            server: ServerConfig::from_env(env, "MEETINGS_HOST", "MEETINGS_PORT", 8004),
            database: DatabaseConfig::from_env(env),
            redis: RedisConfig::from_env(env, 2),
            jwt: JwtConfig::from_env(env),
            meetings: MeetingsServiceConfig::from_env(env),
            notifications: NotificationConfig::from_env(env),
            calendar: CalendarConfig::from_env(env),
        }
    }
}

} // verus!

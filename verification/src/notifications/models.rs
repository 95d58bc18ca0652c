//! The kinds, channels, priorities and states of notifications.
use vstd::prelude::*;

verus! {

/// What a notification is about.
#[derive(Clone, Debug, PartialEq, Eq, Hash)]
pub enum NotificationType {
    SessionReminder,
    SessionStarted,
    SessionEnded,
    PaymentReceived,
    PaymentFailed,
    MessageReceived,
    MentorshipRequest,
    MentorshipAccepted,
    MentorshipRejected,
    ProfileUpdate,
    SecurityAlert,
    SystemMaintenance,
    Welcome,
    PasswordReset,
    EmailVerification,
    Custom(String),
}

/// How a notification reaches its recipient.
#[derive(PartialEq, Eq, Structural, Clone, Copy, Debug, Hash)]
pub enum NotificationChannel {
    Email,
    SMS,
    Push,
    InApp,
    WebPush,
}

#[derive(PartialEq, Eq, Structural, Clone, Copy, Debug)]
pub enum NotificationPriority {
    Low,
    Normal,
    High,
    Critical,
}

#[derive(PartialEq, Eq, Structural, Clone, Copy, Debug)]
pub enum NotificationStatus {
    Pending,
    Scheduled,
    Processing,
    Sent,
    Failed,
    Cancelled,
}

#[derive(PartialEq, Eq, Structural, Clone, Copy, Debug)]
pub enum DeliveryStatus {
    Pending,
    Sent,
    Delivered,
    Failed,
    Bounced,
    Clicked,
    Opened,
}

/// The channels a user accepts for one kind of notification.
pub struct ChannelPreferences {
    pub enabled_channels: Vec<NotificationChannel>,
    pub disabled: bool,
}

} // verus!

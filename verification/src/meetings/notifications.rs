//! Meetings e-mails: the subject and HTML body of each kind of session
//! notification, who receives it, and when one is sent at all.
use vstd::prelude::*;
use crate::common::AppError;
use crate::meetings::models::NotificationType;
use crate::time::Timestamp;
use crate::text::{own, join2, join3, push_uuid, uuid_text, push_char};

verus! {

/// A notification about a session.
pub struct NotificationRequest {
    pub recipient_id: u128,
    pub notification_type: NotificationType,
    pub title: String,
    pub message: String,
    pub session_id: Option<u128>,
    pub scheduled_for: Option<Timestamp>,
}

/// An e-mail ready to be sent.
pub struct OutgoingEmail {
    pub to: String,
    pub subject: String,
    pub html_body: String,
}

/// The parts of a notification's e-mail body around its title and message.
pub open spec fn body_parts(kind: NotificationType) -> (Seq<char>, Seq<char>, Seq<char>) {
    match kind {
        NotificationType::SessionReminder => ("\n            <html>\n            <body>\n                <h2>Session Reminder</h2>\n                <p>Hello,</p>\n                <p>This is a reminder that your session \"<strong>"@, "</strong>\" is starting soon.</p>\n                <p>"@, "</p>\n                <p>Please make sure you're ready to join at the scheduled time.</p>\n                <p>Best regards,<br>The LinkWithMentor Team</p>\n            </body>\n            </html>\n            "@),
        NotificationType::SessionConfirmation => ("\n            <html>\n            <body>\n                <h2>Session Confirmed</h2>\n                <p>Hello,</p>\n                <p>Your session \"<strong>"@, "</strong>\" has been confirmed.</p>\n                <p>"@, "</p>\n                <p>We look forward to your session!</p>\n                <p>Best regards,<br>The LinkWithMentor Team</p>\n            </body>\n            </html>\n            "@),
        NotificationType::SessionCancellation => ("\n            <html>\n            <body>\n                <h2>Session Cancelled</h2>\n                <p>Hello,</p>\n                <p>Unfortunately, your session \"<strong>"@, "</strong>\" has been cancelled.</p>\n                <p>"@, "</p>\n                <p>Please feel free to reschedule at your convenience.</p>\n                <p>Best regards,<br>The LinkWithMentor Team</p>\n            </body>\n            </html>\n            "@),
        NotificationType::SessionRescheduled => ("\n            <html>\n            <body>\n                <h2>Session Rescheduled</h2>\n                <p>Hello,</p>\n                <p>Your session \"<strong>"@, "</strong>\" has been rescheduled.</p>\n                <p>"@, "</p>\n                <p>Please note the new time and make sure you're available.</p>\n                <p>Best regards,<br>The LinkWithMentor Team</p>\n            </body>\n            </html>\n            "@),
        NotificationType::SessionStarted => ("\n            <html>\n            <body>\n                <h2>Session Started</h2>\n                <p>Hello,</p>\n                <p>Your session \"<strong>"@, "</strong>\" has started.</p>\n                <p>"@, "</p>\n                <p>Join now to participate!</p>\n                <p>Best regards,<br>The LinkWithMentor Team</p>\n            </body>\n            </html>\n            "@),
        NotificationType::SessionEnded => ("\n            <html>\n            <body>\n                <h2>Session Completed</h2>\n                <p>Hello,</p>\n                <p>Your session \"<strong>"@, "</strong>\" has been completed.</p>\n                <p>"@, "</p>\n                <p>Thank you for using LinkWithMentor!</p>\n                <p>Best regards,<br>The LinkWithMentor Team</p>\n            </body>\n            </html>\n            "@),
        NotificationType::MaterialShared => ("\n            <html>\n            <body>\n                <h2>New Material Shared</h2>\n                <p>Hello,</p>\n                <p>New material has been shared for your session \"<strong>"@, "</strong>\".</p>\n                <p>"@, "</p>\n                <p>You can access it in your session dashboard.</p>\n                <p>Best regards,<br>The LinkWithMentor Team</p>\n            </body>\n            </html>\n            "@),
        NotificationType::InvitationReceived => ("\n            <html>\n            <body>\n                <h2>Session Invitation</h2>\n                <p>Hello,</p>\n                <p>You've been invited to join the session \"<strong>"@, "</strong>\".</p>\n                <p>"@, "</p>\n                <p>Please confirm your attendance.</p>\n                <p>Best regards,<br>The LinkWithMentor Team</p>\n            </body>\n            </html>\n            "@),
    }
}

fn body_pieces(kind: NotificationType) -> (r: (&'static str, &'static str, &'static str))
    ensures
        (r.0@, r.1@, r.2@) == body_parts(kind),
{
    match kind {
        NotificationType::SessionReminder => ("\n            <html>\n            <body>\n                <h2>Session Reminder</h2>\n                <p>Hello,</p>\n                <p>This is a reminder that your session \"<strong>", "</strong>\" is starting soon.</p>\n                <p>", "</p>\n                <p>Please make sure you're ready to join at the scheduled time.</p>\n                <p>Best regards,<br>The LinkWithMentor Team</p>\n            </body>\n            </html>\n            "),
        NotificationType::SessionConfirmation => ("\n            <html>\n            <body>\n                <h2>Session Confirmed</h2>\n                <p>Hello,</p>\n                <p>Your session \"<strong>", "</strong>\" has been confirmed.</p>\n                <p>", "</p>\n                <p>We look forward to your session!</p>\n                <p>Best regards,<br>The LinkWithMentor Team</p>\n            </body>\n            </html>\n            "),
        NotificationType::SessionCancellation => ("\n            <html>\n            <body>\n                <h2>Session Cancelled</h2>\n                <p>Hello,</p>\n                <p>Unfortunately, your session \"<strong>", "</strong>\" has been cancelled.</p>\n                <p>", "</p>\n                <p>Please feel free to reschedule at your convenience.</p>\n                <p>Best regards,<br>The LinkWithMentor Team</p>\n            </body>\n            </html>\n            "),
        NotificationType::SessionRescheduled => ("\n            <html>\n            <body>\n                <h2>Session Rescheduled</h2>\n                <p>Hello,</p>\n                <p>Your session \"<strong>", "</strong>\" has been rescheduled.</p>\n                <p>", "</p>\n                <p>Please note the new time and make sure you're available.</p>\n                <p>Best regards,<br>The LinkWithMentor Team</p>\n            </body>\n            </html>\n            "),
        NotificationType::SessionStarted => ("\n            <html>\n            <body>\n                <h2>Session Started</h2>\n                <p>Hello,</p>\n                <p>Your session \"<strong>", "</strong>\" has started.</p>\n                <p>", "</p>\n                <p>Join now to participate!</p>\n                <p>Best regards,<br>The LinkWithMentor Team</p>\n            </body>\n            </html>\n            "),
        NotificationType::SessionEnded => ("\n            <html>\n            <body>\n                <h2>Session Completed</h2>\n                <p>Hello,</p>\n                <p>Your session \"<strong>", "</strong>\" has been completed.</p>\n                <p>", "</p>\n                <p>Thank you for using LinkWithMentor!</p>\n                <p>Best regards,<br>The LinkWithMentor Team</p>\n            </body>\n            </html>\n            "),
        NotificationType::MaterialShared => ("\n            <html>\n            <body>\n                <h2>New Material Shared</h2>\n                <p>Hello,</p>\n                <p>New material has been shared for your session \"<strong>", "</strong>\".</p>\n                <p>", "</p>\n                <p>You can access it in your session dashboard.</p>\n                <p>Best regards,<br>The LinkWithMentor Team</p>\n            </body>\n            </html>\n            "),
        NotificationType::InvitationReceived => ("\n            <html>\n            <body>\n                <h2>Session Invitation</h2>\n                <p>Hello,</p>\n                <p>You've been invited to join the session \"<strong>", "</strong>\".</p>\n                <p>", "</p>\n                <p>Please confirm your attendance.</p>\n                <p>Best regards,<br>The LinkWithMentor Team</p>\n            </body>\n            </html>\n            "),
    }
}

/// The text before and after the title in a notification's subject.
pub open spec fn subject_parts(kind: NotificationType) -> (Seq<char>, Seq<char>) {
    match kind {
        NotificationType::SessionReminder => ("Reminder: "@, " starting soon"@),
        NotificationType::SessionConfirmation => ("Session Confirmed: "@, ""@),
        NotificationType::SessionCancellation => ("Session Cancelled: "@, ""@),
        NotificationType::SessionRescheduled => ("Session Rescheduled: "@, ""@),
        NotificationType::SessionStarted => ("Session Started: "@, ""@),
        NotificationType::SessionEnded => ("Session Completed: "@, ""@),
        NotificationType::MaterialShared => ("New Material Shared: "@, ""@),
        NotificationType::InvitationReceived => ("Session Invitation: "@, ""@),
    }
}

fn subject_pieces(kind: NotificationType) -> (r: (&'static str, &'static str))
    ensures
        (r.0@, r.1@) == subject_parts(kind),
{
    match kind {
        NotificationType::SessionReminder => ("Reminder: ", " starting soon"),
        NotificationType::SessionConfirmation => ("Session Confirmed: ", ""),
        NotificationType::SessionCancellation => ("Session Cancelled: ", ""),
        NotificationType::SessionRescheduled => ("Session Rescheduled: ", ""),
        NotificationType::SessionStarted => ("Session Started: ", ""),
        NotificationType::SessionEnded => ("Session Completed: ", ""),
        NotificationType::MaterialShared => ("New Material Shared: ", ""),
        NotificationType::InvitationReceived => ("Session Invitation: ", ""),
    }
}

/// The subject of a notification e-mail.
pub open spec fn subject_text(kind: NotificationType, title: Seq<char>) -> Seq<char> {
    subject_parts(kind).0 + title + subject_parts(kind).1
}

/// The HTML body of a notification e-mail.
pub open spec fn body_text(kind: NotificationType, title: Seq<char>, message: Seq<char>) -> Seq<char> {
    body_parts(kind).0 + title + body_parts(kind).1 + message + body_parts(kind).2
}

/// The address that stands for a user: `user_<id>@example.com`.
pub open spec fn user_address(id: u128) -> Seq<char> {
    "user_"@ + uuid_text(id) + "@example.com"@
}

/// The subject of a notification e-mail.
pub fn email_subject(kind: NotificationType, title: &str) -> (s: String)
    ensures
        s@ == subject_text(kind, title@),
{
    let (a, b) = subject_pieces(kind);
    join3(a, title, b)
}

/// The HTML body of a notification e-mail.
pub fn email_body(kind: NotificationType, title: &str, message: &str) -> (s: String)
    ensures
        s@ == body_text(kind, title@, message@),
{
    let (a, b, c) = body_pieces(kind);
    let first = join3(a, title, b);
    join3(first.as_str(), message, c)
}

/// The address that stands for a user.
pub fn recipient_address(id: u128) -> (s: String)
    ensures
        s@ == user_address(id),
{
    let mut s = own("user_");
    push_uuid(&mut s, id);
    s.append("@example.com");
    s
}

/// The e-mail a notification sends; none when e-mail notifications are
/// off.
pub fn plan_email(email_enabled: bool, request: &NotificationRequest) -> (r: Option<OutgoingEmail>)
    ensures
        !email_enabled ==> r is None,
        email_enabled ==> (r matches Some(m) && m.to@ == user_address(request.recipient_id)
            && m.subject@ == subject_text(request.notification_type, request.title@)
            && m.html_body@ == body_text(request.notification_type, request.title@, request.message@)),
{
    if !email_enabled {
        return None;
    }
    Some(OutgoingEmail {
        to: recipient_address(request.recipient_id),
        subject: email_subject(request.notification_type, request.title.as_str()),
        html_body: email_body(request.notification_type, request.title.as_str(), request.message.as_str()),
    })
}

/// Sending needs an SMTP transport, which exists only when e-mail
/// notifications are on.
pub fn transport_outcome(transport_configured: bool) -> (r: Result<(), AppError>)
    ensures
        !transport_configured ==> (r matches Err(AppError::Internal(m)) && m@ == "SMTP transport not configured"@),
        transport_configured ==> r is Ok,
{
    if !transport_configured {
        return Err(AppError::Internal(own("SMTP transport not configured")));
    }
    Ok(())
}

/// The template that a kind of notification uses.
pub fn get_notification_template(kind: NotificationType) -> (s: &'static str)
    ensures
        s@ == match kind {
            NotificationType::SessionReminder => "session_reminder"@,
            NotificationType::SessionConfirmation => "session_confirmation"@,
            NotificationType::SessionCancellation => "session_cancellation"@,
            NotificationType::SessionRescheduled => "session_rescheduled"@,
            NotificationType::SessionStarted => "session_started"@,
            NotificationType::SessionEnded => "session_ended"@,
            NotificationType::MaterialShared => "material_shared"@,
            NotificationType::InvitationReceived => "invitation_received"@,
        },
{
    match kind {
        NotificationType::SessionReminder => "session_reminder",
        NotificationType::SessionConfirmation => "session_confirmation",
        NotificationType::SessionCancellation => "session_cancellation",
        NotificationType::SessionRescheduled => "session_rescheduled",
        NotificationType::SessionStarted => "session_started",
        NotificationType::SessionEnded => "session_ended",
        NotificationType::MaterialShared => "material_shared",
        NotificationType::InvitationReceived => "invitation_received",
    }
}

/// A user's notification preferences until they are stored: e-mail
/// reminders, confirmations and push on, SMS reminders off.
pub fn default_notification_preferences() -> (v: Vec<(String, bool)>)
    ensures
        v@.len() == 4,
        v@[0].0@ == "email_reminders"@ && v@[0].1,
        v@[1].0@ == "sms_reminders"@ && !v@[1].1,
        v@[2].0@ == "email_confirmations"@ && v@[2].1,
        v@[3].0@ == "push_notifications"@ && v@[3].1,
{
    let mut v: Vec<(String, bool)> = Vec::new();
    v.push((own("email_reminders"), true));
    v.push((own("sms_reminders"), false));
    v.push((own("email_confirmations"), true));
    v.push((own("push_notifications"), true));
    v
}

} // verus!

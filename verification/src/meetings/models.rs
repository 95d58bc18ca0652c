//! The kinds and states of mentoring sessions, their participants,
//! materials, whiteboard elements and calendar providers, and the meetings
//! service's errors.
use vstd::prelude::*;
use crate::text::str_eq;
use crate::time::Timestamp;

verus! {

#[derive(PartialEq, Eq, Structural, Clone, Copy, Debug)]
pub enum SessionType {
    OneOnOne,
    GroupSession,
    Workshop,
    Consultation,
    FollowUp,
}

#[derive(PartialEq, Eq, Structural, Clone, Copy, Debug)]
pub enum SessionStatus {
    Scheduled,
    Confirmed,
    InProgress,
    Completed,
    Cancelled,
    NoShow,
    Rescheduled,
}

#[derive(PartialEq, Eq, Structural, Clone, Copy, Debug)]
pub enum RecurrenceFrequency {
    Daily,
    Weekly,
    Monthly,
    Custom,
}

#[derive(PartialEq, Eq, Structural, Clone, Copy, Debug)]
pub enum ParticipantRole {
    Mentor,
    Mentee,
    Observer,
    Guest,
}

#[derive(PartialEq, Eq, Structural, Clone, Copy, Debug)]
pub enum ParticipantStatus {
    Invited,
    Confirmed,
    Declined,
    Attended,
    NoShow,
}

#[derive(PartialEq, Eq, Structural, Clone, Copy, Debug)]
pub enum MaterialType {
    Document,
    Presentation,
    Video,
    Audio,
    Image,
    Link,
    Note,
}

/// A material shared in a session.
#[derive(Clone)]
pub struct SessionMaterial {
    pub material_id: u128,
    pub name: String,
    pub description: Option<String>,
    pub file_path: Option<String>,
    pub file_size: Option<i64>,
    pub mime_type: Option<String>,
    pub material_type: MaterialType,
    pub uploaded_by: u128,
    pub uploaded_at: Timestamp,
}

/// A material to attach to a session; notes and links carry their content.
pub struct UploadMaterialRequest {
    pub name: String,
    pub description: Option<String>,
    pub material_type: MaterialType,
    pub content: Option<String>,
}

#[derive(PartialEq, Eq, Structural, Clone, Copy, Debug)]
pub enum ElementType {
    Text,
    Shape,
    Line,
    FreeDrawing,
    Image,
    Sticky,
}

#[derive(PartialEq, Eq, Structural, Clone, Copy, Debug)]
pub enum OperationType {
    Create,
    Update,
    Delete,
    Move,
    Clear,
}

/// What a meetings notification is about.
#[derive(PartialEq, Eq, Structural, Clone, Copy, Debug)]
pub enum NotificationType {
    SessionReminder,
    SessionConfirmation,
    SessionCancellation,
    SessionRescheduled,
    SessionStarted,
    SessionEnded,
    MaterialShared,
    InvitationReceived,
}

#[derive(PartialEq, Eq, Structural, Clone, Copy, Debug)]
pub enum CalendarProvider {
    Google,
    Outlook,
    Apple,
    ICalendar,
}

#[derive(PartialEq, Eq, Structural, Clone, Copy, Debug)]
pub enum MeetingsError {
    SessionNotFound,
    ConflictingSchedule,
    InvalidTimeSlot,
    MaxParticipantsReached,
    PermissionDenied,
    RecurringSeriesNotFound,
    WhiteboardNotFound,
    MaterialNotFound,
    NotificationFailed,
    CalendarSyncFailed,
}

/// What each error says.
pub open spec fn meetings_error_text(e: MeetingsError) -> Seq<char> {
    match e {
        MeetingsError::SessionNotFound => "Session not found"@,
        MeetingsError::ConflictingSchedule => "Conflicting schedule"@,
        MeetingsError::InvalidTimeSlot => "Invalid time slot"@,
        MeetingsError::MaxParticipantsReached => "Maximum participants reached"@,
        MeetingsError::PermissionDenied => "Permission denied"@,
        MeetingsError::RecurringSeriesNotFound => "Recurring series not found"@,
        MeetingsError::WhiteboardNotFound => "Whiteboard not found"@,
        MeetingsError::MaterialNotFound => "Material not found"@,
        MeetingsError::NotificationFailed => "Notification failed"@,
        MeetingsError::CalendarSyncFailed => "Calendar sync failed"@,
    }
}

/// A status's name as it is stored.
pub open spec fn status_name(s: SessionStatus) -> Seq<char> {
    match s {
        SessionStatus::Scheduled => "Scheduled"@,
        SessionStatus::Confirmed => "Confirmed"@,
        SessionStatus::InProgress => "InProgress"@,
        SessionStatus::Completed => "Completed"@,
        SessionStatus::Cancelled => "Cancelled"@,
        SessionStatus::NoShow => "NoShow"@,
        SessionStatus::Rescheduled => "Rescheduled"@,
    }
}

/// A session type's name as it is stored.
pub open spec fn session_type_name(t: SessionType) -> Seq<char> {
    match t {
        SessionType::OneOnOne => "OneOnOne"@,
        SessionType::GroupSession => "GroupSession"@,
        SessionType::Workshop => "Workshop"@,
        SessionType::Consultation => "Consultation"@,
        SessionType::FollowUp => "FollowUp"@,
    }
}

/// The status stored under a name, if any.
pub open spec fn stored_status(name: Seq<char>) -> Option<SessionStatus> {
    if name == "Scheduled"@ {
        Some(SessionStatus::Scheduled)
    } else if name == "Confirmed"@ {
        Some(SessionStatus::Confirmed)
    } else if name == "InProgress"@ {
        Some(SessionStatus::InProgress)
    } else if name == "Completed"@ {
        Some(SessionStatus::Completed)
    } else if name == "Cancelled"@ {
        Some(SessionStatus::Cancelled)
    } else if name == "NoShow"@ {
        Some(SessionStatus::NoShow)
    } else if name == "Rescheduled"@ {
        Some(SessionStatus::Rescheduled)
    } else {
        None
    }
}

/// Storing a status by its name and reading the name back gives the same
/// status.
pub proof fn law_status_round_trip(s: SessionStatus)
    ensures
        stored_status(status_name(s)) == Some(s),
{
    reveal_strlit("Scheduled");
    reveal_strlit("Confirmed");
    reveal_strlit("InProgress");
    reveal_strlit("Completed");
    reveal_strlit("Cancelled");
    reveal_strlit("NoShow");
    reveal_strlit("Rescheduled");
    let n = status_name(s);
    assert(n.len() > 0);
    assert("Scheduled"@[0] == 'S' && "Confirmed"@[0] == 'C' && "InProgress"@[0] == 'I' && "Completed"@[0] == 'C'
        && "Cancelled"@[0] == 'C' && "NoShow"@[0] == 'N' && "Rescheduled"@[0] == 'R');
    assert("Confirmed"@[1] == 'o' && "Completed"@[1] == 'o' && "Cancelled"@[1] == 'a');
    assert("Confirmed"@[2] == 'n' && "Completed"@[2] == 'm');
}

/// The session type stored under a name, if any.
pub open spec fn stored_session_type(name: Seq<char>) -> Option<SessionType> {
    if name == "OneOnOne"@ {
        Some(SessionType::OneOnOne)
    } else if name == "GroupSession"@ {
        Some(SessionType::GroupSession)
    } else if name == "Workshop"@ {
        Some(SessionType::Workshop)
    } else if name == "Consultation"@ {
        Some(SessionType::Consultation)
    } else if name == "FollowUp"@ {
        Some(SessionType::FollowUp)
    } else {
        None
    }
}

/// Storing a session type by its name and reading the name back gives the
/// same type.
pub proof fn law_session_type_round_trip(t: SessionType)
    ensures
        stored_session_type(session_type_name(t)) == Some(t),
{
    reveal_strlit("OneOnOne");
    reveal_strlit("GroupSession");
    reveal_strlit("Workshop");
    reveal_strlit("Consultation");
    reveal_strlit("FollowUp");
    assert("OneOnOne"@[0] == 'O' && "GroupSession"@[0] == 'G' && "Workshop"@[0] == 'W' && "Consultation"@[0] == 'C'
        && "FollowUp"@[0] == 'F');
}

impl MeetingsError {
    /// The error's message.
    pub fn message(&self) -> (m: &'static str)
        ensures
            m@ == meetings_error_text(*self),
    {
        match self {
            MeetingsError::SessionNotFound => "Session not found",
            MeetingsError::ConflictingSchedule => "Conflicting schedule",
            MeetingsError::InvalidTimeSlot => "Invalid time slot",
            MeetingsError::MaxParticipantsReached => "Maximum participants reached",
            MeetingsError::PermissionDenied => "Permission denied",
            MeetingsError::RecurringSeriesNotFound => "Recurring series not found",
            MeetingsError::WhiteboardNotFound => "Whiteboard not found",
            MeetingsError::MaterialNotFound => "Material not found",
            MeetingsError::NotificationFailed => "Notification failed",
            MeetingsError::CalendarSyncFailed => "Calendar sync failed",
        }
    }
}

impl SessionStatus {
    /// The status stored under `name`, falling back to `Scheduled` for a
    /// name that is none of them.
    pub fn from_stored(name: &str) -> (s: SessionStatus)
        ensures
            s == match stored_status(name@) {
                Some(t) => t,
                None => SessionStatus::Scheduled,
            },
    {
        if str_eq(name, "Scheduled") {
            SessionStatus::Scheduled
        } else if str_eq(name, "Confirmed") {
            SessionStatus::Confirmed
        } else if str_eq(name, "InProgress") {
            SessionStatus::InProgress
        } else if str_eq(name, "Completed") {
            SessionStatus::Completed
        } else if str_eq(name, "Cancelled") {
            SessionStatus::Cancelled
        } else if str_eq(name, "NoShow") {
            SessionStatus::NoShow
        } else if str_eq(name, "Rescheduled") {
            SessionStatus::Rescheduled
        } else {
            SessionStatus::Scheduled
        }
    }

    /// The name the status is stored under.
    pub fn stored_name(&self) -> (n: &'static str)
        ensures
            n@ == status_name(*self),
    {
        match self {
            SessionStatus::Scheduled => "Scheduled",
            SessionStatus::Confirmed => "Confirmed",
            SessionStatus::InProgress => "InProgress",
            SessionStatus::Completed => "Completed",
            SessionStatus::Cancelled => "Cancelled",
            SessionStatus::NoShow => "NoShow",
            SessionStatus::Rescheduled => "Rescheduled",
        }
    }
}

impl SessionType {
    /// The type stored under `name`, falling back to `OneOnOne` for a name
    /// that is none of them.
    pub fn from_stored(name: &str) -> (t: SessionType)
        ensures
            t == match stored_session_type(name@) {
                Some(u) => u,
                None => SessionType::OneOnOne,
            },
    {
        if str_eq(name, "OneOnOne") {
            SessionType::OneOnOne
        } else if str_eq(name, "GroupSession") {
            SessionType::GroupSession
        } else if str_eq(name, "Workshop") {
            SessionType::Workshop
        } else if str_eq(name, "Consultation") {
            SessionType::Consultation
        } else if str_eq(name, "FollowUp") {
            SessionType::FollowUp
        } else {
            SessionType::OneOnOne
        }
    }

    /// The name the type is stored under.
    pub fn stored_name(&self) -> (n: &'static str)
        ensures
            n@ == session_type_name(*self),
    {
        match self {
            SessionType::OneOnOne => "OneOnOne",
            SessionType::GroupSession => "GroupSession",
            SessionType::Workshop => "Workshop",
            SessionType::Consultation => "Consultation",
            SessionType::FollowUp => "FollowUp",
        }
    }
}

} // verus!

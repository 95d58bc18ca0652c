//! Calendar integration: iCalendar exports of sessions, the calendar events
//! that stand for sessions, subscriptions, and which providers are on.
use vstd::prelude::*;
use icalendar::{Component, EventLike};
use crate::common::AppError;
use crate::meetings::config::CalendarConfig;
use crate::meetings::models::CalendarProvider;
use crate::env::opt_text_is;
use crate::time::{Timestamp, ts_valid, ts_plus, MAX_SECS};
use crate::text::{own, join2, join3, push_uuid, uuid_text};

verus! {

/// A session as the calendar sees it.
pub struct CalendarSession {
    pub session_id: u128,
    pub title: String,
    pub description: Option<String>,
    pub scheduled_start: Timestamp,
    pub scheduled_end: Timestamp,
    pub participant_ids: Vec<u128>,
}

/// An event of an iCalendar document.
pub struct IcalEvent {
    pub uid: String,
    pub summary: String,
    pub description: String,
    pub starts: Timestamp,
    pub ends: Timestamp,
    pub location: String,
}

/// The event that stands for a session in a calendar.
pub struct CalendarEvent {
    pub event_id: String,
    pub session_id: u128,
    pub title: String,
    pub description: Option<String>,
    pub start_time: Timestamp,
    pub end_time: Timestamp,
    pub location: Option<String>,
    pub attendees: Vec<String>,
    pub calendar_provider: CalendarProvider,
}

pub struct CalendarService {
    pub config: CalendarConfig,
}

/// The address that stands for a participant: `user_<id>@example.com`.
pub open spec fn attendee_address(id: u128) -> Seq<char> {
    "user_"@ + uuid_text(id) + "@example.com"@
}

/// The id of a session's calendar event: `lwm-session-<id>`.
pub open spec fn event_id_of(session_id: u128) -> Seq<char> {
    "lwm-session-"@ + uuid_text(session_id)
}

/// The platform's place name for sessions.
pub open spec fn platform_location() -> Seq<char> {
    "LinkWithMentor Platform"@
}

/// The iCalendar event of a session.
pub open spec fn session_ical_event(s: CalendarSession, e: IcalEvent) -> bool {
    &&& e.uid@ == "session-"@ + uuid_text(s.session_id)
    &&& e.summary@ == s.title@
    &&& e.description@ == match s.description { Some(d) => d@, None => Seq::empty() }
    &&& e.starts == s.scheduled_start
    &&& e.ends == s.scheduled_end
    &&& e.location@ == platform_location()
}

/// Two calendar settings agree.
pub open spec fn same_calendar_config(a: CalendarConfig, b: CalendarConfig) -> bool {
    &&& a.enable_ical_export == b.enable_ical_export
    &&& a.calendar_name@ == b.calendar_name@
    &&& a.timezone@ == b.timezone@
    &&& a.enable_google_calendar == b.enable_google_calendar
    &&& opt_text_is(a.google_client_id, match b.google_client_id { Some(t) => Some(t@), None => None })
    &&& opt_text_is(a.google_client_secret, match b.google_client_secret { Some(t) => Some(t@), None => None })
    &&& a.enable_outlook_calendar == b.enable_outlook_calendar
    &&& opt_text_is(a.outlook_client_id, match b.outlook_client_id { Some(t) => Some(t@), None => None })
    &&& opt_text_is(a.outlook_client_secret, match b.outlook_client_secret { Some(t) => Some(t@), None => None })
}

fn copy_opt(o: &Option<String>) -> (r: Option<String>)
    ensures
        opt_text_is(r, match *o { Some(t) => Some(t@), None => None }),
{
    match o {
        Some(t) => Some(own(t.as_str())),
        None => None,
    }
}

#[verifier::external_type_specification]
#[verifier::external_body]
pub struct ExIcalendarEvent(icalendar::Event);

/// What the rendering reads of an event: uid, summary, description, start
/// and end (seconds and nanoseconds), location.
pub type IcalEventView = (Seq<char>, Seq<char>, Seq<char>, (i64, u32), (i64, u32), Seq<char>);

/// An event as the rendering reads it.
pub open spec fn ical_event_view(e: IcalEvent) -> IcalEventView {
    (e.uid@, e.summary@, e.description@, (e.starts.secs, e.starts.nanos), (e.ends.secs, e.ends.nanos), e.location@)
}

/// Events, in order, as the rendering reads them.
pub open spec fn event_views(events: Seq<IcalEvent>) -> Seq<IcalEventView> {
    events.map_values(|e: IcalEvent| ical_event_view(e))
}

/// The event of a session as the rendering reads it (see
/// `session_ical_event`).
pub open spec fn session_event_view(s: CalendarSession) -> IcalEventView {
    (
        "session-"@ + uuid_text(s.session_id),
        s.title@,
        match s.description { Some(d) => d@, None => Seq::empty() },
        (s.scheduled_start.secs, s.scheduled_start.nanos),
        (s.scheduled_end.secs, s.scheduled_end.nanos),
        platform_location(),
    )
}

/// The events of the sessions, in order, as the rendering reads them.
pub open spec fn sessions_event_views(s: Seq<CalendarSession>) -> Seq<IcalEventView> {
    s.map_values(|x: CalendarSession| session_event_view(x))
}

/// The lines with which every calendar that icalendar renders opens: the
/// calendar's start and the three properties `Calendar::new` fills in.
pub open spec fn ical_opening() -> Seq<char> {
    "BEGIN:VCALENDAR\r\nVERSION:2.0\r\nPRODID:ICALENDAR-RS\r\nCALSCALE:GREGORIAN\r\n"@
}

/// The line with which every calendar that icalendar renders closes.
pub open spec fn ical_closing() -> Seq<char> {
    "END:VCALENDAR\r\n"@
}

/// `text` is a rendered calendar: it opens with `ical_opening` and closes
/// with `ical_closing`.
pub open spec fn ical_document(text: Seq<char>) -> bool {
    &&& text.len() >= ical_opening().len() + ical_closing().len()
    &&& text.subrange(0, ical_opening().len() as int) == ical_opening()
    &&& text.subrange(text.len() - ical_closing().len(), text.len() as int) == ical_closing()
}

/// The text icalendar renders for a calendar named `name` in `timezone`,
/// stamped at `stamp`, with the given events in order.
pub uninterp spec fn ical_rendered(name: Seq<char>, timezone: Seq<char>, stamp: (i64, u32), events: Seq<IcalEventView>) -> Seq<char>;

/// `icalendar::Calendar::new()` named `name` in `timezone`, with one
/// `icalendar::Event` per event pushed in order (`uid`, `summary`,
/// `description`, `starts`, `ends`, `location` from the event and the
/// `DTSTAMP` `timestamp` set to `stamp`; an instant that chrono cannot hold
/// becomes the epoch), rendered by `to_string`. With every event's `UID`
/// and `DTSTAMP` set, the rendering reads neither the clock nor a random
/// source, so the text is named `ical_rendered` of the arguments.
/// `Calendar::fmt_write` writes `BEGIN:VCALENDAR`, the properties in the
/// order they were added (`Calendar::new` starts with `VERSION:2.0`,
/// `PRODID:ICALENDAR-RS` and `CALSCALE:GREGORIAN`), the events, then
/// `END:VCALENDAR`, each line ending in CRLF; writing to a `String` cannot
/// fail.
#[verifier::external_body]
fn render_calendar(name: &str, timezone: &str, stamp: Timestamp, events: &Vec<IcalEvent>) -> (r: String)
    ensures
        r@ == ical_rendered(name@, timezone@, (stamp.secs, stamp.nanos), event_views(events@)),
        ical_document(r@),
{
    let at = |t: Timestamp| chrono::DateTime::from_timestamp(t.secs, t.nanos).unwrap_or_default();
    let mut calendar = icalendar::Calendar::new();
    calendar.name(name).timezone(timezone);
    for e in events.iter() {
        calendar.push(icalendar::Event::new().uid(&e.uid).summary(&e.summary).description(&e.description)
            .starts(at(e.starts)).ends(at(e.ends)).location(&e.location).timestamp(at(stamp)).done());
    }
    calendar.to_string()
}

/// The rendered iCalendar document of `events`, stamped at `stamp`.
fn render_ical(name: &str, timezone: &str, stamp: Timestamp, events: &Vec<IcalEvent>) -> (r: String)
    ensures
        r@ == ical_rendered(name@, timezone@, (stamp.secs, stamp.nanos), event_views(events@)),
        ical_document(r@),
{
    render_calendar(name, timezone, stamp, events)
}

/// The events of sessions, read as the rendering reads them, are the
/// sessions' event views.
proof fn lemma_session_views(sessions: Seq<CalendarSession>, events: Seq<IcalEvent>)
    requires
        events.len() == sessions.len(),
        forall|i: int| 0 <= i < events.len() ==> session_ical_event(sessions[i], #[trigger] events[i]),
    ensures
        event_views(events) == sessions_event_views(sessions),
{
    assert forall|i: int| 0 <= i < events.len() implies
        #[trigger] event_views(events)[i] == sessions_event_views(sessions)[i] by {
        assert(session_ical_event(sessions[i], events[i]));
    }
    assert(event_views(events) =~= sessions_event_views(sessions));
}

/// The name of a user's calendar feed: `<calendar name> - User <id>`.
pub open spec fn feed_name(calendar_name: Seq<char>, user_id: u128) -> Seq<char> {
    calendar_name + " - User "@ + uuid_text(user_id)
}

/// The event of a user's calendar feed at `now`, as the rendering reads
/// it: a sample session from `now` for an hour.
pub open spec fn feed_event_view(user_id: u128, now: Timestamp) -> IcalEventView {
    (
        "user-"@ + uuid_text(user_id) + "-feed"@,
        "Sample Session"@,
        "This is a sample session"@,
        (now.secs, now.nanos),
        (ts_plus(now, 3600).secs, ts_plus(now, 3600).nanos),
        platform_location(),
    )
}

impl CalendarService {
    /// A service with a copy of the calendar settings.
    pub fn new(config: &CalendarConfig) -> (s: Self)
        ensures
            same_calendar_config(s.config, *config),
    {
        CalendarService {
            config: CalendarConfig {
                enable_ical_export: config.enable_ical_export,
                calendar_name: own(config.calendar_name.as_str()),
                timezone: own(config.timezone.as_str()),
                enable_google_calendar: config.enable_google_calendar,
                google_client_id: copy_opt(&config.google_client_id),
                google_client_secret: copy_opt(&config.google_client_secret),
                enable_outlook_calendar: config.enable_outlook_calendar,
                outlook_client_id: copy_opt(&config.outlook_client_id),
                outlook_client_secret: copy_opt(&config.outlook_client_secret),
            },
        }
    }

    /// The iCalendar event of a session (see `session_ical_event`).
    pub fn ical_event(session: &CalendarSession) -> (e: IcalEvent)
        ensures
            session_ical_event(*session, e),
    {
        let mut uid = own("session-");
        push_uuid(&mut uid, session.session_id);
        IcalEvent {
            uid,
            summary: own(session.title.as_str()),
            description: match &session.description {
                Some(d) => own(d.as_str()),
                None => String::new(),
            },
            starts: session.scheduled_start,
            ends: session.scheduled_end,
            location: own("LinkWithMentor Platform"),
        }
    }

    /// The iCalendar document of the given sessions, one event each, in the
    /// calendar's name and time zone; refused when iCalendar export is off.
    pub fn generate_ical_for_sessions(&self, sessions: &Vec<CalendarSession>, now: Timestamp) -> (r: Result<String, AppError>)
        ensures
            !self.config.enable_ical_export ==> (r matches Err(AppError::BadRequest(m)) && m@ == "iCalendar export is disabled"@),
            self.config.enable_ical_export ==> (r matches Ok(t)
                && t@ == ical_rendered(self.config.calendar_name@, self.config.timezone@, (now.secs, now.nanos), sessions_event_views(sessions@))
                && ical_document(t@)),
    {
        if !self.config.enable_ical_export {
            return Err(AppError::BadRequest(own("iCalendar export is disabled")));
        }
        let events = Self::ical_events(sessions);
        proof {
            lemma_session_views(sessions@, events@);
        }
        Ok(render_ical(self.config.calendar_name.as_str(), self.config.timezone.as_str(), now, &events))
    }

    /// The iCalendar document of one session (see
    /// `generate_ical_for_sessions`).
    pub fn generate_ical_for_session(&self, session: &CalendarSession, now: Timestamp) -> (r: Result<String, AppError>)
        ensures
            !self.config.enable_ical_export ==> (r matches Err(AppError::BadRequest(m)) && m@ == "iCalendar export is disabled"@),
            self.config.enable_ical_export ==> (r matches Ok(t)
                && t@ == ical_rendered(self.config.calendar_name@, self.config.timezone@, (now.secs, now.nanos), seq![session_event_view(*session)])
                && ical_document(t@)),
    {
        if !self.config.enable_ical_export {
            return Err(AppError::BadRequest(own("iCalendar export is disabled")));
        }
        let mut events: Vec<IcalEvent> = Vec::new();
        events.push(Self::ical_event(session));
        proof {
            assert(event_views(events@) =~= seq![session_event_view(*session)]);
        }
        Ok(render_ical(self.config.calendar_name.as_str(), self.config.timezone.as_str(), now, &events))
    }

    /// The events of the sessions, in order.
    pub fn ical_events(sessions: &Vec<CalendarSession>) -> (v: Vec<IcalEvent>)
        ensures
            v@.len() == sessions@.len(),
            forall|i: int| 0 <= i < v@.len() ==> session_ical_event(sessions@[i], #[trigger] v@[i]),
    {
        let mut v: Vec<IcalEvent> = Vec::new();
        let mut i: usize = 0;
        while i < sessions.len()
            invariant
                i <= sessions@.len(),
                v@.len() == i,
                forall|k: int| 0 <= k < i ==> session_ical_event(sessions@[k], #[trigger] v@[k]),
            decreases sessions.len() - i,
        {
            v.push(Self::ical_event(&sessions[i]));
            i = i + 1;
        }
        v
    }

    /// The addresses of a session's participants, in order.
    pub fn get_session_attendees(session: &CalendarSession) -> (v: Vec<String>)
        ensures
            v@.len() == session.participant_ids@.len(),
            forall|i: int| 0 <= i < v@.len() ==> (#[trigger] v@[i])@ == attendee_address(session.participant_ids@[i]),
    {
        let mut v: Vec<String> = Vec::new();
        let mut i: usize = 0;
        while i < session.participant_ids.len()
            invariant
                i <= session.participant_ids@.len(),
                v@.len() == i,
                forall|k: int| 0 <= k < i ==> (#[trigger] v@[k])@ == attendee_address(session.participant_ids@[k]),
            decreases session.participant_ids.len() - i,
        {
            let mut a = own("user_");
            push_uuid(&mut a, session.participant_ids[i]);
            a.append("@example.com");
            v.push(a);
            i = i + 1;
        }
        v
    }

    /// The calendar event that stands for a session.
    pub fn create_calendar_event(&self, session: &CalendarSession) -> (e: CalendarEvent)
        ensures
            e.event_id@ == event_id_of(session.session_id),
            e.session_id == session.session_id,
            e.title@ == session.title@,
            opt_text_is(e.description, match session.description { Some(d) => Some(d@), None => None }),
            e.start_time == session.scheduled_start,
            e.end_time == session.scheduled_end,
            opt_text_is(e.location, Some(platform_location())),
            e.attendees@.len() == session.participant_ids@.len(),
            forall|i: int| 0 <= i < e.attendees@.len() ==> (#[trigger] e.attendees@[i])@ == attendee_address(session.participant_ids@[i]),
            e.calendar_provider == CalendarProvider::ICalendar,
    {
        CalendarEvent {
            event_id: Self::event_id(session.session_id),
            session_id: session.session_id,
            title: own(session.title.as_str()),
            description: copy_opt(&session.description),
            start_time: session.scheduled_start,
            end_time: session.scheduled_end,
            location: Some(own("LinkWithMentor Platform")),
            attendees: Self::get_session_attendees(session),
            calendar_provider: CalendarProvider::ICalendar,
        }
    }

    /// The id of a session's calendar event.
    pub fn event_id(session_id: u128) -> (id: String)
        ensures
            id@ == event_id_of(session_id),
    {
        let mut id = own("lwm-session-");
        push_uuid(&mut id, session_id);
        id
    }

    /// The external calendars that events are synchronised with: Google,
    /// then Outlook, each when enabled.
    pub fn sync_targets(&self) -> (v: Vec<CalendarProvider>)
        ensures
            v@ == (if self.config.enable_google_calendar { seq![CalendarProvider::Google] } else { Seq::empty() })
                + (if self.config.enable_outlook_calendar { seq![CalendarProvider::Outlook] } else { Seq::empty() }),
    {
        let mut v: Vec<CalendarProvider> = Vec::new();
        if self.config.enable_google_calendar {
            v.push(CalendarProvider::Google);
        }
        if self.config.enable_outlook_calendar {
            v.push(CalendarProvider::Outlook);
        }
        assert(v@ =~= (if self.config.enable_google_calendar { seq![CalendarProvider::Google] } else { Seq::empty() })
            + (if self.config.enable_outlook_calendar { seq![CalendarProvider::Outlook] } else { Seq::empty() }));
        v
    }

    /// Which integrations are on: Google Calendar, Outlook Calendar and
    /// iCalendar export.
    pub fn get_integration_status(&self) -> (v: Vec<(String, bool)>)
        ensures
            v@.len() == 3,
            v@[0].0@ == "google_calendar"@ && v@[0].1 == self.config.enable_google_calendar,
            v@[1].0@ == "outlook_calendar"@ && v@[1].1 == self.config.enable_outlook_calendar,
            v@[2].0@ == "ical_export"@ && v@[2].1 == self.config.enable_ical_export,
    {
        let mut v: Vec<(String, bool)> = Vec::new();
        v.push((own("google_calendar"), self.config.enable_google_calendar));
        v.push((own("outlook_calendar"), self.config.enable_outlook_calendar));
        v.push((own("ical_export"), self.config.enable_ical_export));
        v
    }

    /// The feed address of a calendar subscription.
    pub fn create_calendar_subscription(user_id: u128, subscription_id: u128) -> (url: String)
        ensures
            url@ == "https://api.linkwithmentor.com/calendar/feed/"@ + uuid_text(user_id) + "/"@ + uuid_text(subscription_id),
    {
        let mut url = own("https://api.linkwithmentor.com/calendar/feed/");
        push_uuid(&mut url, user_id);
        crate::text::push_char(&mut url, '/');
        push_uuid(&mut url, subscription_id);
        proof {
            reveal_strlit("/");
        }
        url
    }

    /// The name and the event of a user's calendar feed: the calendar named
    /// after the user, with a sample session starting `now` and lasting an
    /// hour.
    pub fn feed_calendar(&self, user_id: u128, now: Timestamp) -> (r: (String, IcalEvent))
        requires
            ts_valid(now),
            now.secs + 3600 <= MAX_SECS,
        ensures
            r.0@ == self.config.calendar_name@ + " - User "@ + uuid_text(user_id),
            r.1.uid@ == "user-"@ + uuid_text(user_id) + "-feed"@,
            r.1.summary@ == "Sample Session"@,
            r.1.description@ == "This is a sample session"@,
            r.1.starts == now,
            r.1.ends == ts_plus(now, 3600),
            r.1.location@ == platform_location(),
    {
        let mut name = join2(self.config.calendar_name.as_str(), " - User ");
        push_uuid(&mut name, user_id);
        let mut uid = own("user-");
        push_uuid(&mut uid, user_id);
        uid.append("-feed");
        let event = IcalEvent {
            uid,
            summary: own("Sample Session"),
            description: own("This is a sample session"),
            starts: now,
            ends: now.plus_seconds(3600),
            location: own("LinkWithMentor Platform"),
        };
        (name, event)
    }

    /// A user's calendar feed (see `feed_calendar`), rendered.
    pub fn export_calendar_feed(&self, user_id: u128, now: Timestamp) -> (r: String)
        requires
            ts_valid(now),
            now.secs + 3600 <= MAX_SECS,
        ensures
            r@ == ical_rendered(feed_name(self.config.calendar_name@, user_id), self.config.timezone@, (now.secs, now.nanos),
                seq![feed_event_view(user_id, now)]),
            ical_document(r@),
    {
        let (name, event) = self.feed_calendar(user_id, now);
        let mut events: Vec<IcalEvent> = Vec::new();
        events.push(event);
        proof {
            assert(event_views(events@) =~= seq![feed_event_view(user_id, now)]);
        }
        render_ical(name.as_str(), self.config.timezone.as_str(), now, &events)
    }
}

} // verus!

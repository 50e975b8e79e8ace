//! The reminder tool: when a reminder is due and what it says.

use crate::agent::tools::outcome_text;
use crate::agent::tools::schema::{
    optional_text, optional_text_arg, property, property_value, required_text, schema,
    schema_value, text_arg,
};
use crate::json::{entry_views, lemma_entry_views, Json, JsonValue};
use crate::providers::types::option_text;
use crate::text::{decimal, decimal_of, same_text, string_of, string_views};
use vstd::prelude::*;
use vstd::string::StringExecFns;

verus! {

/// A message to be sent at a moment. Moments are seconds since 1970, in
/// UTC.
#[derive(Debug)]
pub struct Reminder {
    pub id: String,
    pub user_id: String,
    pub channel: String,
    pub message: String,
    pub scheduled_time: i64,
    pub created_at: i64,
    pub repeat_pattern: Option<String>,
}

/// A [`Reminder`] as mathematical data.
pub struct ReminderView {
    pub id: Seq<char>,
    pub user_id: Seq<char>,
    pub channel: Seq<char>,
    pub message: Seq<char>,
    pub scheduled_time: i64,
    pub created_at: i64,
    pub repeat_pattern: Option<Seq<char>>,
}

impl View for Reminder {
    type V = ReminderView;

    open spec fn view(&self) -> ReminderView {
        ReminderView {
            id: self.id@,
            user_id: self.user_id@,
            channel: self.channel@,
            message: self.message@,
            scheduled_time: self.scheduled_time,
            created_at: self.created_at,
            repeat_pattern: option_text(self.repeat_pattern),
        }
    }
}

/// Keeps the reminders of a workspace.
#[derive(Debug)]
pub struct ReminderTool {
    pub reminders: Vec<Reminder>,
    pub workspace_path: String,
}

/// The moment that `text` names in the form `YYYY-MM-DD HH:MM:SS`, or why
/// it names none.
pub uninterp spec fn parsed_moment(text: Seq<char>) -> Result<i64, Seq<char>>;

/// What parsing a moment gave, as mathematical data.
pub open spec fn moment_view(r: Result<i64, String>) -> Result<i64, Seq<char>> {
    match r {
        Ok(t) => Ok(t),
        Err(e) => Err(e@),
    }
}

/// `chrono::NaiveDateTime::parse_from_str` with the format
/// `%Y-%m-%d %H:%M:%S`, then `NaiveDateTime::and_utc` and
/// `DateTime::timestamp`: the seconds since 1970 of the date and time that
/// the text names, read as UTC; where the text names none, the error as
/// `ParseError::to_string` gives it. The result depends on the text alone.
#[verifier::external_body]
fn read_moment(text: &str) -> (r: Result<i64, String>)
    ensures
        moment_view(r) == parsed_moment(text@),
{
    match chrono::NaiveDateTime::parse_from_str(text, "%Y-%m-%d %H:%M:%S") {
        Ok(naive) => Ok(naive.and_utc().timestamp()),
        Err(e) => Err(e.to_string()),
    }
}

/// The moment that `text` names in the form `YYYY-MM-DD HH:MM:SS`, read as
/// UTC, or why it names none.
pub fn parse_moment(text: &str) -> (r: Result<i64, String>)
    ensures
        moment_view(r) == parsed_moment(text@),
{
    read_moment(text)
}

/// `chrono::Utc::now` and `DateTime::timestamp`: the seconds since 1970 of
/// the moment. It is the clock's answer, so nothing is promised of it.
#[verifier::external_body]
fn clock_seconds() -> i64 {
    chrono::Utc::now().timestamp()
}

/// The id of a reminder for `user_id` at the moment `scheduled`.
pub open spec fn reminder_id(user_id: Seq<char>, scheduled: i64) -> Seq<char> {
    "reminder_"@ + user_id + "_"@ + decimal(scheduled as int)
}

/// The reminder that the arguments ask for at the moment `now`, given what
/// parsing its time gave. Message, time, user and channel must be given, the
/// time must name a moment, and the moment must lie after `now`.
pub open spec fn planned(args: JsonValue, moment: Result<i64, Seq<char>>, now: i64) -> Result<
    ReminderView,
    Seq<char>,
> {
    match required_text(args, "message"@, "Missing message parameter"@) {
        Err(e) => Err(e),
        Ok(message) => match required_text(args, "time"@, "Missing time parameter"@) {
            Err(e) => Err(e),
            Ok(_) => match required_text(args, "user_id"@, "Missing user_id parameter"@) {
                Err(e) => Err(e),
                Ok(user_id) => match required_text(args, "channel"@, "Missing channel parameter"@) {
                    Err(e) => Err(e),
                    Ok(channel) => match moment {
                        Err(e) => Err("Failed to parse time: "@ + e),
                        Ok(scheduled) => if scheduled <= now {
                            Err("Scheduled time must be in the future"@)
                        } else {
                            Ok(
                                ReminderView {
                                    id: reminder_id(user_id, scheduled),
                                    user_id,
                                    channel,
                                    message,
                                    scheduled_time: scheduled,
                                    created_at: now,
                                    repeat_pattern: optional_text(args, "repeat"@),
                                },
                            )
                        },
                    },
                },
            },
        },
    }
}

/// The time that the arguments give, where they give one.
pub open spec fn time_of(args: JsonValue) -> Seq<char> {
    match optional_text(args, "time"@) {
        Some(text) => text,
        None => Seq::empty(),
    }
}

/// How long to wait from `now` for the moment `scheduled`, in seconds: not
/// at all where the moment has passed.
pub open spec fn delay(scheduled: i64, now: i64) -> nat {
    if scheduled > now {
        (scheduled - now) as nat
    } else {
        0
    }
}

/// The views of a list of reminders.
pub open spec fn reminder_views(reminders: Seq<Reminder>) -> Seq<ReminderView> {
    Seq::new(reminders.len(), |i: int| reminders[i]@)
}

/// The reminder that follows a daily reminder: one day later, made at
/// `now`.
pub open spec fn following(reminder: ReminderView, now: i64) -> Option<ReminderView> {
    if reminder.repeat_pattern == Some("daily"@) && reminder.scheduled_time + 86400 <= i64::MAX {
        Some(
            ReminderView {
                id: reminder.id + "_repeat_"@ + decimal(reminder.scheduled_time + 86400),
                scheduled_time: (reminder.scheduled_time + 86400) as i64,
                created_at: now,
                ..reminder
            },
        )
    } else {
        None
    }
}

impl ReminderTool {
    /// A tool without reminders for the workspace `workspace_path`.
    pub fn new(workspace_path: String) -> (r: Self)
        ensures
            r.workspace_path == workspace_path,
            r.reminders@ == Seq::<Reminder>::empty(),
    {
        Self { reminders: Vec::new(), workspace_path }
    }

    pub fn name(&self) -> (r: &'static str)
        ensures
            r@ == "reminder"@,
    {
        "reminder"
    }

    pub fn description(&self) -> (r: &'static str)
        ensures
            r@ == "Schedule a reminder message to be sent at a specific time"@,
    {
        "Schedule a reminder message to be sent at a specific time"
    }

    pub fn parameters(&self) -> (r: Json)
        ensures
            r@ == schema_value(
                seq![
                    ("message"@, property_value("string"@, "The reminder message content"@)),
                    (
                        "time"@,
                        property_value(
                            "string"@,
                            "Time for the reminder in format YYYY-MM-DD HH:MM:SS UTC"@,
                        ),
                    ),
                    ("user_id"@, property_value("string"@, "User ID to send the reminder to"@)),
                    (
                        "channel"@,
                        property_value(
                            "string"@,
                            "Channel to send the reminder to (e.g., telegram)"@,
                        ),
                    ),
                    (
                        "repeat"@,
                        property_value("string"@, "Repeat pattern (optional): daily, weekly"@),
                    ),
                ],
                seq!["message"@, "time"@, "user_id"@, "channel"@],
            ),
    {
        let mut properties: Vec<(String, Json)> = Vec::new();
        properties.push(
            (String::from_str("message"), property("string", "The reminder message content")),
        );
        properties.push(
            (
                String::from_str("time"),
                property("string", "Time for the reminder in format YYYY-MM-DD HH:MM:SS UTC"),
            ),
        );
        properties.push(
            (String::from_str("user_id"), property("string", "User ID to send the reminder to")),
        );
        properties.push(
            (
                String::from_str("channel"),
                property("string", "Channel to send the reminder to (e.g., telegram)"),
            ),
        );
        properties.push(
            (
                String::from_str("repeat"),
                property("string", "Repeat pattern (optional): daily, weekly"),
            ),
        );
        let mut required: Vec<String> = Vec::new();
        required.push(String::from_str("message"));
        required.push(String::from_str("time"));
        required.push(String::from_str("user_id"));
        required.push(String::from_str("channel"));
        proof {
            lemma_entry_views(properties@);
            assert(entry_views(properties@) =~= seq![
                ("message"@, property_value("string"@, "The reminder message content"@)),
                (
                    "time"@,
                    property_value(
                        "string"@,
                        "Time for the reminder in format YYYY-MM-DD HH:MM:SS UTC"@,
                    ),
                ),
                ("user_id"@, property_value("string"@, "User ID to send the reminder to"@)),
                (
                    "channel"@,
                    property_value("string"@, "Channel to send the reminder to (e.g., telegram)"@),
                ),
                ("repeat"@, property_value("string"@, "Repeat pattern (optional): daily, weekly"@)),
            ]);
            assert(string_views(required@) =~= seq!["message"@, "time"@, "user_id"@, "channel"@]);
        }
        schema(properties, required)
    }

    /// The file in which the reminders are kept.
    pub fn storage_path(&self) -> (r: String)
        ensures
            r@ == self.workspace_path@ + "/reminders.json"@,
    {
        let mut path = self.workspace_path.clone();
        path.append("/reminders.json");
        path
    }

    /// The reminder that the arguments ask for at the moment `now`, given
    /// what parsing its time gave.
    pub fn plan(&self, args: &Json, moment: Result<i64, String>, now: i64) -> (r: Result<
        Reminder,
        String,
    >)
        ensures
            match r {
                Ok(reminder) => planned(args@, moment_view(moment), now) == Ok::<
                    ReminderView,
                    Seq<char>,
                >(reminder@),
                Err(e) => planned(args@, moment_view(moment), now) == Err::<
                    ReminderView,
                    Seq<char>,
                >(e@),
            },
    {
        let message = match text_arg(args, "message", "Missing message parameter") {
            Ok(message) => message,
            Err(e) => {
                return Err(e);
            },
        };
        match text_arg(args, "time", "Missing time parameter") {
            Ok(_) => {},
            Err(e) => {
                return Err(e);
            },
        }
        let user_id = match text_arg(args, "user_id", "Missing user_id parameter") {
            Ok(user_id) => user_id,
            Err(e) => {
                return Err(e);
            },
        };
        let channel = match text_arg(args, "channel", "Missing channel parameter") {
            Ok(channel) => channel,
            Err(e) => {
                return Err(e);
            },
        };
        let repeat_pattern = optional_text_arg(args, "repeat");
        let scheduled = match moment {
            Ok(scheduled) => scheduled,
            Err(e) => {
                let mut text = String::from_str("Failed to parse time: ");
                text.append(e.as_str());
                return Err(text);
            },
        };
        if scheduled <= now {
            return Err(String::from_str("Scheduled time must be in the future"));
        }
        let mut id = String::from_str("reminder_");
        id.append(user_id.as_str());
        id.append("_");
        id.append(string_of(&decimal_of(scheduled)).as_str());
        Ok(
            Reminder {
                id,
                user_id,
                channel,
                message,
                scheduled_time: scheduled,
                created_at: now,
                repeat_pattern,
            },
        )
    }

    /// Takes in the reminder that the arguments ask for at the moment
    /// `now`, and says for when it is scheduled.
    pub fn schedule_at(&mut self, args: &Json, now: i64) -> (r: Result<String, String>)
        ensures
            final(self).workspace_path == old(self).workspace_path,
            match planned(args@, parsed_moment(time_of(args@)), now) {
                Ok(reminder) => outcome_text(r) == Ok::<Seq<char>, Seq<char>>(
                    "Reminder scheduled successfully for "@ + time_of(args@),
                ) && reminder_views(final(self).reminders@) == reminder_views(
                    old(self).reminders@,
                ).push(reminder),
                Err(e) => outcome_text(r) == Err::<Seq<char>, Seq<char>>(e) && final(self).reminders == old(self).reminders,
            },
    {
        let time = match optional_text_arg(args, "time") {
            Some(time) => time,
            None => String::new(),
        };
        let moment = parse_moment(time.as_str());
        match self.plan(args, moment, now) {
            Ok(reminder) => {
                let ghost before = reminder_views(self.reminders@);
                let ghost view = reminder@;
                self.reminders.push(reminder);
                assert(reminder_views(self.reminders@) =~= before.push(view));
                let mut text = String::from_str("Reminder scheduled successfully for ");
                text.append(time.as_str());
                Ok(text)
            },
            Err(e) => Err(e),
        }
    }

    /// Takes in the reminder that the arguments ask for now, by the clock.
    pub fn schedule(&mut self, args: &Json) -> (r: Result<String, String>)
        ensures
            final(self).workspace_path == old(self).workspace_path,
            exists|now: i64|
                match #[trigger] planned(args@, parsed_moment(time_of(args@)), now) {
                    Ok(reminder) => outcome_text(r) == Ok::<Seq<char>, Seq<char>>(
                        "Reminder scheduled successfully for "@ + time_of(args@),
                    ) && reminder_views(final(self).reminders@) == reminder_views(
                        old(self).reminders@,
                    ).push(reminder),
                    Err(e) => outcome_text(r) == Err::<Seq<char>, Seq<char>>(e) && final(self).reminders == old(self).reminders,
                },
    {
        let now = clock_seconds();
        let r = self.schedule_at(args, now);
        proof {
            let witness = planned(args@, parsed_moment(time_of(args@)), now);
            assert(witness is Ok || witness is Err);
        }
        r
    }

    /// How long to wait from `now` for a reminder, in seconds.
    pub fn delay_seconds(&self, reminder: &Reminder, now: i64) -> (r: u64)
        ensures
            r == delay(reminder.scheduled_time, now),
    {
        if reminder.scheduled_time > now {
            ((reminder.scheduled_time as i128) - (now as i128)) as u64
        } else {
            0
        }
    }

    /// What a reminder says when it is due.
    pub fn reminder_text(&self, reminder: &Reminder) -> (r: String)
        ensures
            r@ == "⏰ **REMINDER**: "@ + reminder.message@,
    {
        let mut text = String::from_str("⏰ **REMINDER**: ");
        text.append(reminder.message.as_str());
        text
    }

    /// The reminder that follows a daily reminder, made at `now`.
    pub fn next_daily(&self, reminder: &Reminder, now: i64) -> (r: Option<Reminder>)
        ensures
            match r {
                Some(next) => following(reminder@, now) == Some(next@),
                None => following(reminder@, now) is None,
            },
    {
        let daily = match &reminder.repeat_pattern {
            Some(pattern) => same_text(pattern.as_str(), "daily"),
            None => false,
        };
        if !daily || reminder.scheduled_time > i64::MAX - 86400 {
            return None;
        }
        let next_time: i64 = reminder.scheduled_time + 86400;
        let mut id = reminder.id.clone();
        id.append("_repeat_");
        id.append(string_of(&decimal_of(next_time)).as_str());
        Some(
            Reminder {
                id,
                user_id: reminder.user_id.clone(),
                channel: reminder.channel.clone(),
                message: reminder.message.clone(),
                scheduled_time: next_time,
                created_at: now,
                repeat_pattern: Some(String::from_str("daily")),
            },
        )
    }
}

} // verus!

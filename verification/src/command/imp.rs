//! When an activity starts: reading the start time, the wait until then,
//! the race between timer and cancellation, and the start itself.

use std::collections::hash_map::Entry;
use std::collections::HashMap;

use chrono::FixedOffset;
use chrono::LocalResult;
use chrono::TimeZone;
use vstd::prelude::*;
use vstd::string::StringExecFns;

use crate::command::data::guilds_wf;
use crate::command::data::opened;
use crate::command::data::Activity;
use crate::command::data::GuildData;
use crate::command::data::MessageRef;
use crate::command::data::RosterEmbed;
use crate::command::data::Store;
use crate::text::chars_of;
use crate::text::decimal;
use crate::text::decimal_string;
use crate::text::lower_char;
use crate::text::lowered;
use crate::text::mention_address;
use crate::text::number;
use crate::text::parse_u64;
use crate::text::pieces;
use crate::text::render_mention_address;
use crate::text::split;
use crate::text::split_chars;
use crate::text::to_lowercase;
use crate::util::CancelActivity;

verus! {

broadcast use vstd::std_specs::hash::group_hash_axioms;

/// The last day that a date may name in `month`. February has 28: the
/// 29th cannot be scheduled.
pub open spec fn max_day(month: int) -> int {
    if month == 2 {
        28
    } else if month == 4 || month == 6 || month == 9 || month == 11 {
        30
    } else {
        31
    }
}

/// The last day that a date may name in `month`.
pub fn max_day_value(month: u32) -> (day: u32)
    requires
        1 <= month <= 12,
    ensures
        day == max_day(month as int),
{
    if month == 2 {
        28
    } else if month == 4 || month == 6 || month == 9 || month == 11 {
        30
    } else {
        31
    }
}

/// A start time as the wall clock shows it, on the 24-hour clock.
#[derive(Copy, Clone, Eq, PartialEq, Hash, Debug, Structural)]
pub struct StartTime {
    pub year: i32,
    pub month: u32,
    pub day: u32,
    pub hour: u32,
    pub minute: u32,
}

impl StartTime {
    /// A day that the calendar has in every year of this century, and a
    /// time of day.
    pub open spec fn valid(&self) -> bool {
        &&& 2000 < self.year < 2100
        &&& 1 <= self.month <= 12
        &&& 1 <= self.day <= max_day(self.month as int)
        &&& self.hour <= 23
        &&& self.minute <= 59
    }
}

/// The number that `text` writes, where it lies between `low` and `high`.
pub open spec fn field(text: Seq<char>, low: nat, high: nat) -> Option<nat> {
    match number(text) {
        Some(value) => if low <= value <= high {
            Some(value)
        } else {
            None
        },
        None => None,
    }
}

/// Whether `word` is `am`, in any mix of capitals.
pub open spec fn is_am(word: Seq<char>) -> bool {
    word.len() == 2 && lowered(word)[0] == 'a' && lowered(word)[1] == 'm'
}

/// Whether `word` is `pm`, in any mix of capitals.
pub open spec fn is_pm(word: Seq<char>) -> bool {
    word.len() == 2 && lowered(word)[0] == 'p' && lowered(word)[1] == 'm'
}

/// The hour on the 24-hour clock. Twelve stays twelve, before noon and
/// after it.
pub open spec fn hour_of_day(hour: nat, after_noon: bool) -> nat {
    if after_noon && hour != 12 {
        hour + 12
    } else {
        hour
    }
}

/// The start time that `text` names in the form `mm/dd/yyyy hh:mm am|pm`:
/// three words with one space between them, the date with two `/`, the
/// time with one `:`. The month is 1 to 12, the day 1 to the last day of
/// the month, the year 2001 to 2099, the hour 1 to 12, the minute 0 to 59.
pub open spec fn start_time(text: Seq<char>) -> Option<StartTime> {
    let words = split(text, ' ');
    if words.len() != 3 {
        None
    } else {
        let date = split(words[0], '/');
        let time = split(words[1], ':');
        if date.len() != 3 || time.len() != 2 || !(is_am(words[2]) || is_pm(words[2])) {
            None
        } else {
            match (
                field(date[0], 1, 12),
                field(date[2], 2001, 2099),
                field(time[0], 1, 12),
                field(time[1], 0, 59),
            ) {
                (Some(month), Some(year), Some(hour), Some(minute)) => match field(
                    date[1],
                    1,
                    max_day(month as int) as nat,
                ) {
                    Some(day) => Some(
                        StartTime {
                            year: year as i32,
                            month: month as u32,
                            day: day as u32,
                            hour: hour_of_day(hour, is_pm(words[2])) as u32,
                            minute: minute as u32,
                        },
                    ),
                    None => None,
                },
                _ => None,
            }
        }
    }
}

/// Reads a number between `low` and `high`.
fn parse_field(chars: &Vec<char>, low: u64, high: u64) -> (value: Option<u64>)
    ensures
        match value {
            Some(v) => field(chars@, low as nat, high as nat) == Some(v as nat),
            None => field(chars@, low as nat, high as nat) is None,
        },
{
    match parse_u64(chars) {
        Some(v) => if low <= v && v <= high {
            Some(v)
        } else {
            None
        },
        None => None,
    }
}

/// Whether `word` is the two letters `first` and `second`, in any mix of
/// capitals.
fn is_word(word: &Vec<char>, first: char, second: char) -> (same: bool)
    ensures
        same == (word@.len() == 2 && lowered(word@)[0] == first && lowered(word@)[1] == second),
{
    word.len() == 2 && lower_char(word[0]) == first && lower_char(word[1]) == second
}

/// Reads a start time in the form `mm/dd/yyyy hh:mm am|pm`. With the time
/// comes the text in lower case, as the roster shows it.
pub fn parse_date_time(date_time_str: &str) -> (parsed: Option<(StartTime, String)>)
    ensures
        match parsed {
            Some((start, shown)) => {
                &&& start_time(date_time_str@) == Some(start)
                &&& start.valid()
                &&& shown@ == lowered(date_time_str@)
            },
            None => start_time(date_time_str@) is None,
        },
{
    let chars = chars_of(date_time_str);
    let words = split_chars(&chars, ' ');
    if words.len() != 3 {
        return None;
    }
    let date = split_chars(&words[0], '/');
    let time = split_chars(&words[1], ':');
    if date.len() != 3 || time.len() != 2 {
        return None;
    }
    let after_noon = is_word(&words[2], 'p', 'm');
    if !after_noon && !is_word(&words[2], 'a', 'm') {
        return None;
    }
    let month = match parse_field(&date[0], 1, 12) {
        Some(month) => month,
        None => { return None; },
    };
    let day = match parse_field(&date[1], 1, max_day_value(month as u32) as u64) {
        Some(day) => day,
        None => { return None; },
    };
    let year = match parse_field(&date[2], 2001, 2099) {
        Some(year) => year,
        None => { return None; },
    };
    let hour = match parse_field(&time[0], 1, 12) {
        Some(hour) => hour,
        None => { return None; },
    };
    let minute = match parse_field(&time[1], 0, 59) {
        Some(minute) => minute,
        None => { return None; },
    };
    let hour = if after_noon && hour != 12 {
        hour + 12
    } else {
        hour
    };
    let start = StartTime {
        year: year as i32,
        month: month as u32,
        day: day as u32,
        hour: hour as u32,
        minute: minute as u32,
    };
    Some((start, to_lowercase(date_time_str)))
}

/// The zone of the start times, in seconds west of Greenwich.
pub const ZONE_WEST: i32 = 18000;

/// The Unix time of the moment at which a clock `west` seconds west of
/// Greenwich shows the given date and time, where there is such a moment.
pub uninterp spec fn zoned_timestamp(
    west: int,
    year: int,
    month: int,
    day: int,
    hour: int,
    minute: int,
    second: int,
) -> Option<int>;

/// The same time, or none, as a mathematical integer.
pub open spec fn widened(seconds: Option<i64>) -> Option<int> {
    match seconds {
        Some(at) => Some(at as int),
        None => None,
    }
}

/// chrono's `FixedOffset::west_opt`, `TimeZone::with_ymd_and_hms` on it and
/// `DateTime::timestamp` of what that gives: the Unix time of a date and
/// time on the clock of a zone. chrono gives no time where the zone, the
/// date or the time of day does not exist.
#[verifier::external_body]
fn timestamp_in_zone(
    west: i32,
    year: i32,
    month: u32,
    day: u32,
    hour: u32,
    minute: u32,
    second: u32,
) -> (seconds: Option<i64>)
    ensures
        widened(seconds) == zoned_timestamp(
            west as int,
            year as int,
            month as int,
            day as int,
            hour as int,
            minute as int,
            second as int,
        ),
{
    match FixedOffset::west_opt(west) {
        Some(zone) => match zone.with_ymd_and_hms(year, month, day, hour, minute, second) {
            LocalResult::Single(at) => Some(at.timestamp()),
            _ => None,
        },
        None => None,
    }
}

impl StartTime {
    /// The Unix time of this start time on the clock of the zone.
    pub open spec fn spec_timestamp(&self) -> Option<int> {
        zoned_timestamp(
            ZONE_WEST as int,
            self.year as int,
            self.month as int,
            self.day as int,
            self.hour as int,
            self.minute as int,
            0,
        )
    }

    /// The Unix time of this start time on the clock of the zone.
    pub fn timestamp(&self) -> (seconds: Option<i64>)
        ensures
            widened(seconds) == self.spec_timestamp(),
    {
        timestamp_in_zone(
            ZONE_WEST,
            self.year,
            self.month,
            self.day,
            self.hour,
            self.minute,
            0,
        )
    }
}

/// A moment: seconds since the Unix epoch, and the nanoseconds after
/// that second.
#[derive(Copy, Clone, Eq, PartialEq, Hash, Debug, Structural)]
pub struct Instant {
    pub seconds: i64,
    pub nanos: u32,
}

/// A wait: whole seconds, and nanoseconds below one second.
#[derive(Copy, Clone, Eq, PartialEq, Hash, Debug, Structural)]
pub struct Delay {
    pub seconds: u64,
    pub nanos: u32,
}

impl Instant {
    /// Nanoseconds since the Unix epoch.
    pub open spec fn total_nanos(&self) -> int {
        self.seconds * 1_000_000_000 + self.nanos
    }
}

impl Delay {
    /// The wait in nanoseconds.
    pub open spec fn total_nanos(&self) -> int {
        self.seconds * 1_000_000_000 + self.nanos
    }
}

/// The wait from `now` until the second `start` begins. A start that lies
/// before `now` has no wait: it is refused, never scheduled.
pub fn delay_until(start: i64, now: Instant) -> (delay: Option<Delay>)
    ensures
        match delay {
            Some(wait) => {
                &&& wait.nanos < 1_000_000_000
                &&& wait.total_nanos() == start * 1_000_000_000 - now.total_nanos()
            },
            None => start * 1_000_000_000 < now.total_nanos(),
        },
{
    let gap: i128 = (start as i128 - now.seconds as i128) * 1_000_000_000 - now.nanos as i128;
    if gap < 0 {
        None
    } else {
        let seconds: i128 = gap / 1_000_000_000;
        let nanos: i128 = gap % 1_000_000_000;
        Some(Delay { seconds: seconds as u64, nanos: nanos as u32 })
    }
}

/// Whether `delay` is the wait from `now` until the second `start`.
pub open spec fn is_delay(delay: Delay, start: int, now: Instant) -> bool {
    delay.nanos < 1_000_000_000 && delay.total_nanos() == start * 1_000_000_000 - now.total_nanos()
}

/// Where a scheduled start stands.
#[derive(Copy, Clone, Eq, PartialEq, Hash, Debug, Structural)]
pub enum ScheduleState {
    Scheduled,
    Cancelled,
    Fired,
}

/// What the task that waits on timer and cancellation saw first.
#[derive(Copy, Clone, Eq, PartialEq, Hash, Debug, Structural)]
pub enum ScheduleEvent {
    Elapsed,
    Cancel,
}

/// What the task has to do after an event.
#[derive(Copy, Clone, Eq, PartialEq, Hash, Debug, Structural)]
pub enum ScheduleAction {
    Nothing,
    Start,
}

impl ScheduleState {
    /// The state after `event`. The first event decides; what comes after
    /// it changes nothing.
    pub open spec fn after(self, event: ScheduleEvent) -> ScheduleState {
        match (self, event) {
            (ScheduleState::Scheduled, ScheduleEvent::Elapsed) => ScheduleState::Fired,
            (ScheduleState::Scheduled, ScheduleEvent::Cancel) => ScheduleState::Cancelled,
            _ => self,
        }
    }

    /// What `event` asks for: the start, where the timer ran out on a
    /// start that was still scheduled, and nothing otherwise.
    pub open spec fn action(self, event: ScheduleEvent) -> ScheduleAction {
        match (self, event) {
            (ScheduleState::Scheduled, ScheduleEvent::Elapsed) => ScheduleAction::Start,
            _ => ScheduleAction::Nothing,
        }
    }

    /// The state after the events of `events`, first to last.
    pub open spec fn after_all(self, events: Seq<ScheduleEvent>) -> ScheduleState
        decreases events.len(),
    {
        if events.len() == 0 {
            self
        } else {
            self.after_all(events.drop_last()).after(events.last())
        }
    }

    /// How often the events of `events` ask for the start.
    pub open spec fn starts(self, events: Seq<ScheduleEvent>) -> nat
        decreases events.len(),
    {
        if events.len() == 0 {
            0
        } else {
            let before = self.starts(events.drop_last());
            if self.after_all(events.drop_last()).action(events.last()) == ScheduleAction::Start {
                before + 1
            } else {
                before
            }
        }
    }

    /// Takes one event: the state after it, and what is to be done.
    pub fn step(self, event: ScheduleEvent) -> (next: (ScheduleState, ScheduleAction))
        ensures
            next.0 == self.after(event),
            next.1 == self.action(event),
    {
        match (self, event) {
            (ScheduleState::Scheduled, ScheduleEvent::Elapsed) => (
                ScheduleState::Fired,
                ScheduleAction::Start,
            ),
            (ScheduleState::Scheduled, ScheduleEvent::Cancel) => (
                ScheduleState::Cancelled,
                ScheduleAction::Nothing,
            ),
            _ => (self, ScheduleAction::Nothing),
        }
    }
}

/// Of timer and cancellation exactly one decides a scheduled start, the
/// one that is seen first. Whatever events follow, and however many: the
/// start is asked for once if the timer came first and never if the
/// cancellation did, and the state is `Fired` in the one case and
/// `Cancelled` in the other.
pub proof fn lemma_first_event_decides(events: Seq<ScheduleEvent>)
    requires
        events.len() > 0,
    ensures
        events[0] == ScheduleEvent::Elapsed ==> ScheduleState::Scheduled.after_all(events)
            == ScheduleState::Fired && ScheduleState::Scheduled.starts(events) == 1,
        events[0] == ScheduleEvent::Cancel ==> ScheduleState::Scheduled.after_all(events)
            == ScheduleState::Cancelled && ScheduleState::Scheduled.starts(events) == 0,
    decreases events.len(),
{
    let start = ScheduleState::Scheduled;
    if events.len() == 1 {
        assert(start.starts(events.drop_last()) == 0);
    } else {
        lemma_first_event_decides(events.drop_last());
    }
}

/// What the bot says when an activity starts.
pub struct StartNotice {
    pub channel_id: u64,
    pub content: String,
}

/// The call to the fireteam `order` of the activity `name`.
pub open spec fn start_text(order: Seq<u64>, name: Seq<char>) -> Seq<char> {
    "Hey "@ + mention_address(order) + "! "@ + name + " is starting now. Good luck and have fun!"@
}

/// The notice for `activity`, with the fireteam addressed in the order
/// `order`. It goes to the channel of the roster message.
pub fn render_start_notice(activity: &Activity, order: &Vec<u64>) -> (notice: StartNotice)
    ensures
        notice.channel_id == activity.embed_msg.channel_id,
        notice.content@ == start_text(order@, activity.name@),
{
    let mut content = String::from_str("Hey ");
    let address = render_mention_address(order);
    content.append(address.as_str());
    content.append("! ");
    content.append(activity.name.as_str());
    content.append(" is starting now. Good luck and have fun!");
    StartNotice { channel_id: activity.embed_msg.channel_id, content }
}

/// Whether `notice` is what the start of `activity` calls for: nothing
/// where the fireteam is empty, and otherwise the call to the fireteam,
/// in some order, alternates left out.
pub open spec fn is_start_notice(notice: Option<StartNotice>, activity: Activity) -> bool {
    match notice {
        Some(notice) => {
            &&& activity.members@.len() > 0
            &&& notice.channel_id == activity.embed_msg.channel_id
            &&& exists|order: Seq<u64>|
                order.no_duplicates() && order.to_set() == activity.members@
                    && notice.content@ == #[trigger] start_text(order, activity.name@)
        },
        None => activity.members@.len() == 0,
    }
}

/// The notice that the start of `activity` calls for.
pub fn start_notice(activity: &Activity) -> (notice: Option<StartNotice>)
    ensures
        is_start_notice(notice, *activity),
{
    if activity.members.len() == 0 {
        None
    } else {
        let order = activity.member_order();
        Some(render_start_notice(activity, &order))
    }
}

/// Starts the activity `activity_id` of the guild `guild_id`: it leaves
/// the store, its id is free again, and its fireteam is called. Where the
/// guild or the activity is not there, nothing happens.
pub fn start_activity(
    guild_map: &mut HashMap<u64, GuildData>,
    guild_id: u64,
    activity_id: u64,
) -> (notice: Option<StartNotice>)
    ensures
        guilds_wf(old(guild_map)@) ==> guilds_wf(final(guild_map)@),
        final(guild_map)@.dom() == old(guild_map)@.dom(),
        forall|guild: u64|
            guild != guild_id && #[trigger] old(guild_map)@.contains_key(guild) ==> final(guild_map)@[guild]
                == old(guild_map)@[guild],
        old(guild_map)@.contains_key(guild_id) ==> {
            let before = old(guild_map)@[guild_id];
            let after = final(guild_map)@[guild_id];
            &&& after@ == before@.remove_activity(activity_id)
            &&& after.spec_guild_id() == before.spec_guild_id()
        },
        notice is Some ==> old(guild_map)@.contains_key(guild_id) && old(guild_map)@[guild_id]@.live.contains_key(activity_id),
        old(guild_map)@.contains_key(guild_id) && old(guild_map)@[guild_id]@.live.contains_key(activity_id)
            ==> is_start_notice(notice, old(guild_map)@[guild_id]@.live[activity_id]),
{
    match guild_map.entry(guild_id) {
        Entry::Occupied(entry) => {
            let guild_data = entry.into_mut();
            match guild_data.remove_activity(activity_id) {
                Some(activity) => start_notice(&activity),
                None => None,
            }
        },
        Entry::Vacant(_) => {
            None
        },
    }
}

/// The colour of a roster.
pub const ROSTER_COLOR: u32 = 0x212121;

/// What is to be done after an activity got a new schedule.
pub enum EditOutcome {
    /// Say this where the command was given.
    Reply(String),
    /// The activity has its new schedule: show `embed` in the roster
    /// message, say `reply`, wait `delay` or until `waiter` is done, and
    /// start the activity where the wait ran out first. `woke` tells
    /// whether the task that waited on the old schedule was woken.
    Rescheduled {
        message: MessageRef,
        embed: RosterEmbed,
        reply: String,
        delay: Delay,
        waiter: CancelActivity,
        woke: bool,
    },
}

impl EditOutcome {
    /// Whether the outcome is to say `text`.
    pub open spec fn says(&self, text: Seq<char>) -> bool {
        self matches EditOutcome::Reply(reply) && reply@ == text
    }
}

/// What is said when the activity is gone by the time its new schedule
/// has been asked for.
pub open spec fn missing_text() -> Seq<char> {
    "Could not get the old activity from GuildData. Please contact Factorial about this."@
}

/// What is said when `activity` has its new schedule.
pub open spec fn updated_text(activity: Activity) -> Seq<char> {
    "Activity "@ + decimal(activity.id as nat) + " ("@ + activity.name@
        + ") updated successfully."@
}

/// Whether `after` is `before` with the time `date` and the description
/// `description`, and with another cancellation signal. The lists and
/// everything else are as they were.
pub open spec fn is_rescheduled(
    before: Activity,
    after: Activity,
    date: String,
    description: String,
) -> bool {
    &&& after.name == before.name
    &&& after.description == description
    &&& after.date == date
    &&& after.id == before.id
    &&& after.size == before.size
    &&& after.creator == before.creator
    &&& after.embed_msg == before.embed_msg
    &&& after.roster() == before.roster()
}

/// Gives the activity `activity_id` of the guild `guild` the start time
/// `start`, shown as `date`, and the description `description`. A start
/// time that does not exist or lies before `now` is refused, and nothing
/// changes. Else, in one step on the store: the signal of the old
/// schedule is given, so that the task that waits on it starts nothing,
/// and the activity gets a fresh signal together with its new time and
/// description.
pub fn reschedule(
    guild_map: &mut HashMap<u64, GuildData>,
    guild: u64,
    activity_id: u64,
    start: StartTime,
    date: String,
    description: String,
    now: Instant,
) -> (outcome: EditOutcome)
    ensures
        guilds_wf(old(guild_map)@) ==> guilds_wf(final(guild_map)@),
        match start.spec_timestamp() {
            Some(at) if at * 1_000_000_000 >= now.total_nanos() => {
                if !old(guild_map)@.contains_key(guild) {
                    final(guild_map)@ == old(guild_map)@ && outcome.says(missing_text())
                } else {
                    let was = old(guild_map)@[guild]@;
                    let is = final(guild_map)@[guild]@;
                    &&& opened(old(guild_map)@, final(guild_map)@, guild)
                    &&& if !was.live.contains_key(activity_id) {
                        is == was && outcome.says(missing_text())
                    } else {
                        &&& is == Store {
                            live: was.live.insert(activity_id, is.live[activity_id]),
                            ..was
                        }
                        &&& is_rescheduled(
                            was.live[activity_id],
                            is.live[activity_id],
                            date,
                            description,
                        )
                        &&& outcome matches EditOutcome::Rescheduled {
                            message,
                            embed,
                            reply,
                            delay,
                            waiter,
                            woke,
                        }
                        &&& message == was.live[activity_id].embed_msg
                        &&& is.live[activity_id].shows(&embed, ROSTER_COLOR)
                        &&& reply@ == updated_text(was.live[activity_id])
                        &&& is_delay(delay, at, now)
                        &&& waiter.signal() == is.live[activity_id].cancel_token.signal()
                    }
                }
            },
            _ => final(guild_map)@ == old(guild_map)@ && outcome.says(
                "Invalid date and time. Please enter a valid date and time that is in the future."@,
            ),
        },
{
    let delay = match start.timestamp() {
        Some(at) => delay_until(at, now),
        None => None,
    };
    let delay = match delay {
        Some(delay) => delay,
        None => {
            return EditOutcome::Reply(
                String::from_str(
                    "Invalid date and time. Please enter a valid date and time that is in the future.",
                ),
            );
        },
    };
    let missing =
        "Could not get the old activity from GuildData. Please contact Factorial about this.";
    match guild_map.entry(guild) {
        Entry::Occupied(entry) => {
            let guild_data = entry.into_mut();
            match guild_data.activity_mut(activity_id) {
                Some(activity) => {
                    let woke = activity.cancel_token.cancel();
                    let (waiter, token) = CancelActivity::new_pair();
                    activity.date = date;
                    activity.description = description;
                    activity.cancel_token = token;
                    let mut reply = String::from_str("Activity ");
                    reply.append(decimal_string(activity.id).as_str());
                    reply.append(" (");
                    reply.append(activity.name.as_str());
                    reply.append(") updated successfully.");
                    EditOutcome::Rescheduled {
                        message: activity.embed_msg,
                        embed: activity.as_create_embed(ROSTER_COLOR),
                        reply,
                        delay,
                        waiter,
                        woke,
                    }
                },
                None => EditOutcome::Reply(String::from_str(missing)),
            }
        },
        Entry::Vacant(_) => {
            EditOutcome::Reply(String::from_str(missing))
        },
    }
}

} // verus!

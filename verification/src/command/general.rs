//! The commands that every member may give.

use std::collections::HashMap;

use vstd::prelude::*;
use vstd::string::StringExecFns;

use crate::command::data::guilds_wf;
use crate::command::data::is_listing;
use crate::command::data::opened;
use crate::command::data::store_of;
use crate::command::data::untouched;
use crate::command::data::Activity;
use crate::command::data::ActivityError;
use crate::command::data::EmbedField;
use crate::command::data::GuildData;
use crate::command::data::MessageRef;
use crate::command::data::Roster;
use crate::command::data::RosterEmbed;
use crate::command::data::Store;
use crate::command::imp::delay_until;
use crate::command::imp::is_delay;
use crate::command::imp::Delay;
use crate::command::imp::Instant;
use crate::command::imp::ROSTER_COLOR;
use crate::command::imp::StartTime;
use crate::text::byte_len;
use crate::text::chars_of;
use crate::text::count_bytes;
use crate::text::decimal;
use crate::text::decimal_string;
use crate::text::mention_field;
use crate::text::number_u64;
use crate::text::parse_u64;
use crate::text::render_mention_field;
use crate::text::same_text;
use crate::util::CancelActivity;

verus! {

broadcast use vstd::std_specs::hash::group_hash_axioms;

/// What a roster command asks for.
#[derive(Copy, Clone, Eq, PartialEq, Hash, Debug, Structural)]
pub enum Change {
    Join,
    Alternate,
    Leave,
}

impl Change {
    /// Whether the roster takes the change.
    pub open spec fn result(self, roster: Roster, user: u64) -> Result<(), ActivityError> {
        match self {
            Change::Join => roster.add_member_result(user),
            Change::Alternate => roster.add_member_alt_result(user),
            Change::Leave => roster.leave_result(user),
        }
    }

    /// The roster after the change, taken or refused.
    pub open spec fn apply(self, roster: Roster, user: u64) -> Roster {
        match self {
            Change::Join => roster.add_member(user),
            Change::Alternate => roster.add_member_alt(user),
            Change::Leave => roster.leave(user),
        }
    }
}

/// What a command says for each refusal of the roster.
#[derive(Copy, Clone)]
pub struct Wording {
    pub fireteam_full: &'static str,
    pub already_in_fireteam: &'static str,
    pub not_in_fireteam: &'static str,
    pub alternate_full: &'static str,
    pub already_in_alternate: &'static str,
    pub not_in_alternate: &'static str,
}

impl Wording {
    /// What is said for `error`.
    pub open spec fn spec_text(&self, error: ActivityError) -> &'static str {
        match error {
            ActivityError::FireteamFull => self.fireteam_full,
            ActivityError::MemberAlreadyInFireteam => self.already_in_fireteam,
            ActivityError::MemberNotInFireteam => self.not_in_fireteam,
            ActivityError::AlternateFull => self.alternate_full,
            ActivityError::MemberAlreadyInAlternate => self.already_in_alternate,
            ActivityError::MemberNotInAlternate => self.not_in_alternate,
        }
    }

    /// What is said for `error`.
    #[verifier::when_used_as_spec(spec_text)]
    pub fn text(&self, error: ActivityError) -> (text: &'static str)
        ensures
            text == self.spec_text(error),
    {
        match error {
            ActivityError::FireteamFull => self.fireteam_full,
            ActivityError::MemberAlreadyInFireteam => self.already_in_fireteam,
            ActivityError::MemberNotInFireteam => self.not_in_fireteam,
            ActivityError::AlternateFull => self.alternate_full,
            ActivityError::MemberAlreadyInAlternate => self.already_in_alternate,
            ActivityError::MemberNotInAlternate => self.not_in_alternate,
        }
    }
}

/// What is to be done after a roster command.
pub enum Outcome {
    /// Say this where the command was given.
    Reply(String),
    /// Show `embed` in the roster message, and delete the command.
    Updated { message: MessageRef, embed: RosterEmbed },
}

impl Outcome {
    /// Whether the outcome is to say `text`.
    pub open spec fn says(&self, text: Seq<char>) -> bool {
        self matches Outcome::Reply(reply) && reply@ == text
    }

    /// The outcome that says `text`.
    pub fn reply(text: &str) -> (outcome: Self)
        ensures
            outcome.says(text@),
    {
        Outcome::Reply(String::from_str(text))
    }
}

/// Whether `after` is `before` with the roster of the activity `id` of
/// `guild` replaced by `roster`, and nothing else changed.
pub open spec fn with_roster(
    before: Map<u64, GuildData>,
    after: Map<u64, GuildData>,
    guild: u64,
    id: u64,
    roster: Roster,
) -> bool {
    let was = store_of(before, guild);
    let is = after[guild]@;
    &&& opened(before, after, guild)
    &&& is.free == was.free
    &&& is.next == was.next
    &&& is.live.dom() =~= was.live.dom()
    &&& forall|other: u64|
        other != id && #[trigger] was.live.contains_key(other) ==> is.live[other]
            == was.live[other]
    &&& is.live[id].roster() == roster
    &&& is.live[id].same_details(&was.live[id])
}

/// The id that an argument names.
pub open spec fn named_id(arg: Option<&str>) -> Option<u64> {
    match arg {
        Some(text) => number_u64(text@),
        None => None,
    }
}

/// Reads the id that an argument names.
pub fn parse_id(arg: Option<&str>) -> (id: Option<u64>)
    ensures
        id == named_id(arg),
{
    match arg {
        Some(text) => {
            let chars = chars_of(text);
            parse_u64(&chars)
        },
        None => None,
    }
}

/// What a roster command does to the stores, and what is to be done
/// after it. An argument that names no activity, or none of this guild,
/// and a command outside a guild are answered and change nothing. Else
/// the roster of the activity takes or refuses the change: a change that
/// it takes is shown, a refusal is answered in the words of the command.
pub open spec fn command_effect(
    before: Map<u64, GuildData>,
    after: Map<u64, GuildData>,
    outcome: Outcome,
    guild_id: Option<u64>,
    id: Option<u64>,
    user: u64,
    change: Change,
    wording: Wording,
) -> bool {
    if id is None {
        after == before && outcome.says("Invalid activity ID."@)
    } else if guild_id is None {
        after == before && outcome.says("This command is not supported in DMs."@)
    } else {
        let guild = guild_id->0;
        let id = id->0;
        let was = store_of(before, guild);
        if !was.live.contains_key(id) {
            untouched(before, after, guild) && outcome.says("Invalid activity ID."@)
        } else {
            let activity = was.live[id];
            &&& with_roster(before, after, guild, id, change.apply(activity.roster(), user))
            &&& match change.result(activity.roster(), user) {
                Ok(()) => {
                    &&& outcome matches Outcome::Updated { message, embed }
                    &&& message == activity.embed_msg
                    &&& after[guild]@.live[id].shows(&embed, ROSTER_COLOR)
                },
                Err(error) => outcome.says(wording.text(error)@),
            }
        }
    }
}

/// Applies `change` for `user` to the activity that `id_arg` names, and
/// answers a refusal in the words of `wording`.
pub fn change_roster(
    guild_map: &mut HashMap<u64, GuildData>,
    guild_id: Option<u64>,
    id_arg: Option<&str>,
    user: u64,
    change: Change,
    wording: Wording,
) -> (outcome: Outcome)
    ensures
        guilds_wf(old(guild_map)@) ==> guilds_wf(final(guild_map)@),
        command_effect(
            old(guild_map)@,
            final(guild_map)@,
            outcome,
            guild_id,
            named_id(id_arg),
            user,
            change,
            wording,
        ),
{
    let id = match parse_id(id_arg) {
        Some(id) => id,
        None => { return Outcome::reply("Invalid activity ID."); },
    };
    let guild = match guild_id {
        Some(guild) => guild,
        None => { return Outcome::reply("This command is not supported in DMs."); },
    };
    let guild_data = guild_map.entry(guild).or_insert(GuildData::new(guild));
    let activity = match guild_data.activity_mut(id) {
        Some(activity) => activity,
        None => { return Outcome::reply("Invalid activity ID."); },
    };
    let result = match change {
        Change::Join => activity.add_member(user),
        Change::Alternate => activity.add_member_alt(user),
        Change::Leave => activity.leave(user),
    };
    match result {
        Ok(()) => Outcome::Updated {
            message: activity.embed_msg,
            embed: activity.as_create_embed(ROSTER_COLOR),
        },
        Err(error) => Outcome::reply(wording.text(error)),
    }
}

/// What `activity_join` says to a refusal.
pub open spec fn spec_join_wording() -> Wording {
    Wording {
        fireteam_full: "The member list for that activity is already full.",
        already_in_fireteam: "You are already in that member list.",
        not_in_fireteam: "Some other error occurred adding you to the member list.",
        alternate_full: "Some other error occurred adding you to the member list.",
        already_in_alternate: "Some other error occurred adding you to the member list.",
        not_in_alternate: "Attempted to move you to the member list, but you were not an alternate. Please try again.",
    }
}

/// What `activity_join` says to a refusal.
#[verifier::when_used_as_spec(spec_join_wording)]
pub fn join_wording() -> (wording: Wording)
    ensures
        wording == spec_join_wording(),
{
    Wording {
        fireteam_full: "The member list for that activity is already full.",
        already_in_fireteam: "You are already in that member list.",
        not_in_fireteam: "Some other error occurred adding you to the member list.",
        alternate_full: "Some other error occurred adding you to the member list.",
        already_in_alternate: "Some other error occurred adding you to the member list.",
        not_in_alternate: "Attempted to move you to the member list, but you were not an alternate. Please try again.",
    }
}

/// What `activity_alt` says to a refusal.
pub open spec fn spec_alt_wording() -> Wording {
    Wording {
        fireteam_full: "Some other error occurred adding you to the member list.",
        already_in_fireteam: "Some other error occurred adding you to the member list.",
        not_in_fireteam: "Some other error occurred adding you to the member list.",
        alternate_full: "The alternate member list for that activity is already full.",
        already_in_alternate: "You are already in that alternate member list.",
        not_in_alternate: "Some other error occurred adding you to the member list.",
    }
}

/// What `activity_alt` says to a refusal.
#[verifier::when_used_as_spec(spec_alt_wording)]
pub fn alt_wording() -> (wording: Wording)
    ensures
        wording == spec_alt_wording(),
{
    Wording {
        fireteam_full: "Some other error occurred adding you to the member list.",
        already_in_fireteam: "Some other error occurred adding you to the member list.",
        not_in_fireteam: "Some other error occurred adding you to the member list.",
        alternate_full: "The alternate member list for that activity is already full.",
        already_in_alternate: "You are already in that alternate member list.",
        not_in_alternate: "Some other error occurred adding you to the member list.",
    }
}

/// What `activity_leave` says to a refusal.
pub open spec fn spec_leave_wording() -> Wording {
    Wording {
        fireteam_full: "Some other error occurred removing you from the member list.",
        already_in_fireteam: "Some other error occurred removing you from the member list.",
        not_in_fireteam: "Some other error occurred removing you from the member list.",
        alternate_full: "Some other error occurred removing you from the member list.",
        already_in_alternate: "Some other error occurred removing you from the member list.",
        not_in_alternate: "You are not in that activity's member list.",
    }
}

/// What `activity_leave` says to a refusal.
#[verifier::when_used_as_spec(spec_leave_wording)]
pub fn leave_wording() -> (wording: Wording)
    ensures
        wording == spec_leave_wording(),
{
    Wording {
        fireteam_full: "Some other error occurred removing you from the member list.",
        already_in_fireteam: "Some other error occurred removing you from the member list.",
        not_in_fireteam: "Some other error occurred removing you from the member list.",
        alternate_full: "Some other error occurred removing you from the member list.",
        already_in_alternate: "Some other error occurred removing you from the member list.",
        not_in_alternate: "You are not in that activity's member list.",
    }
}

/// `author` joins the fireteam of the activity that `id_arg` names.
pub fn activity_join(
    guild_map: &mut HashMap<u64, GuildData>,
    guild_id: Option<u64>,
    id_arg: Option<&str>,
    author: u64,
) -> (outcome: Outcome)
    ensures
        guilds_wf(old(guild_map)@) ==> guilds_wf(final(guild_map)@),
        command_effect(
            old(guild_map)@,
            final(guild_map)@,
            outcome,
            guild_id,
            named_id(id_arg),
            author,
            Change::Join,
            join_wording(),
        ),
{
    change_roster(guild_map, guild_id, id_arg, author, Change::Join, join_wording())
}

/// `author` joins the alternates of the activity that `id_arg` names.
pub fn activity_alt(
    guild_map: &mut HashMap<u64, GuildData>,
    guild_id: Option<u64>,
    id_arg: Option<&str>,
    author: u64,
) -> (outcome: Outcome)
    ensures
        guilds_wf(old(guild_map)@) ==> guilds_wf(final(guild_map)@),
        command_effect(
            old(guild_map)@,
            final(guild_map)@,
            outcome,
            guild_id,
            named_id(id_arg),
            author,
            Change::Alternate,
            alt_wording(),
        ),
{
    change_roster(guild_map, guild_id, id_arg, author, Change::Alternate, alt_wording())
}

/// `author` leaves the activity that `id_arg` names: the fireteam where
/// they are on it, and the alternates otherwise.
pub fn activity_leave(
    guild_map: &mut HashMap<u64, GuildData>,
    guild_id: Option<u64>,
    id_arg: Option<&str>,
    author: u64,
) -> (outcome: Outcome)
    ensures
        guilds_wf(old(guild_map)@) ==> guilds_wf(final(guild_map)@),
        command_effect(
            old(guild_map)@,
            final(guild_map)@,
            outcome,
            guild_id,
            named_id(id_arg),
            author,
            Change::Leave,
            leave_wording(),
        ),
{
    change_roster(guild_map, guild_id, id_arg, author, Change::Leave, leave_wording())
}

/// What is to be done after a delete command.
pub enum DeleteOutcome {
    /// Say this where the command was given.
    Reply(String),
    /// The activity is gone: delete the roster message and say `reply`.
    /// `woke` tells whether a waiting task was woken by the cancellation;
    /// where none was, a timer may linger until it runs out.
    Deleted { message: MessageRef, reply: String, woke: bool },
    /// There was no such activity: nothing is said.
    Nothing,
}

impl DeleteOutcome {
    /// Whether the outcome is to say `text`.
    pub open spec fn says(&self, text: Seq<char>) -> bool {
        self matches DeleteOutcome::Reply(reply) && reply@ == text
    }
}

/// What is said when `activity` has been deleted.
pub open spec fn deleted_text(activity: Activity) -> Seq<char> {
    "Deleted activity "@ + decimal(activity.id as nat) + ": "@ + activity.name@ + "."@
}

/// Takes the activity `id` out of the store, cancels its timer and words
/// the answer.
pub fn delete_activity(guild_data: &mut GuildData, id: u64) -> (outcome: DeleteOutcome)
    ensures
        old(guild_data)@.wf() ==> final(guild_data)@.wf(),
        final(guild_data)@ == old(guild_data)@.remove_activity(id),
        final(guild_data).spec_guild_id() == old(guild_data).spec_guild_id(),
        if old(guild_data)@.live.contains_key(id) {
            let activity = old(guild_data)@.live[id];
            &&& outcome matches DeleteOutcome::Deleted { message, reply, woke }
            &&& message == activity.embed_msg
            &&& reply@ == deleted_text(activity)
        } else {
            outcome is Nothing
        },
{
    match guild_data.remove_activity(id) {
        Some(activity) => {
            let woke = activity.cancel_token.cancel();
            let mut reply = String::from_str("Deleted activity ");
            reply.append(decimal_string(activity.id).as_str());
            reply.append(": ");
            reply.append(activity.name.as_str());
            reply.append(".");
            DeleteOutcome::Deleted { message: activity.embed_msg, reply, woke }
        },
        None => DeleteOutcome::Nothing,
    }
}

/// `author` deletes the activity that `id_arg` names. Only its creator
/// may do so. The activity leaves the store, its id is free again, and
/// its timer is cancelled.
pub fn activity_delete(
    guild_map: &mut HashMap<u64, GuildData>,
    guild_id: Option<u64>,
    id_arg: Option<&str>,
    author: u64,
) -> (outcome: DeleteOutcome)
    ensures
        guilds_wf(old(guild_map)@) ==> guilds_wf(final(guild_map)@),
        match (named_id(id_arg), guild_id) {
            (None, _) => final(guild_map)@ == old(guild_map)@ && outcome.says(
                "Invalid activity ID."@,
            ),
            (Some(_), None) => final(guild_map)@ == old(guild_map)@ && outcome.says(
                "This command is not supported in DMs."@,
            ),
            (Some(id), Some(guild)) => {
                let was = store_of(old(guild_map)@, guild);
                if !was.live.contains_key(id) {
                    untouched(old(guild_map)@, final(guild_map)@, guild) && outcome.says(
                        "Invalid activity ID."@,
                    )
                } else if was.live[id].creator != author {
                    untouched(old(guild_map)@, final(guild_map)@, guild) && outcome.says(
                        "You cannot delete that activity."@,
                    )
                } else {
                    &&& opened(old(guild_map)@, final(guild_map)@, guild)
                    &&& final(guild_map)@[guild]@ == was.remove_activity(id)
                    &&& outcome matches DeleteOutcome::Deleted { message, reply, woke }
                    &&& message == was.live[id].embed_msg
                    &&& reply@ == deleted_text(was.live[id])
                }
            },
        },
{
    let id = match parse_id(id_arg) {
        Some(id) => id,
        None => { return DeleteOutcome::Reply(String::from_str("Invalid activity ID.")); },
    };
    let guild = match guild_id {
        Some(guild) => guild,
        None => {
            return DeleteOutcome::Reply(
                String::from_str("This command is not supported in DMs."),
            );
        },
    };
    let guild_data = guild_map.entry(guild).or_insert(GuildData::new(guild));
    let creator = match guild_data.activity(id) {
        Some(activity) => activity.creator,
        None => { return DeleteOutcome::Reply(String::from_str("Invalid activity ID.")); },
    };
    if author == creator {
        delete_activity(guild_data, id)
    } else {
        DeleteOutcome::Reply(String::from_str("You cannot delete that activity."))
    }
}

/// What a member asks for when they set up an activity.
pub struct NewActivity {
    pub name: String,
    pub description: String,
    pub start: StartTime,
    pub date: String,
    pub size: u8,
    pub author: u64,
    pub message: MessageRef,
}

/// What is to be done after an activity was set up.
pub enum CreateOutcome {
    /// Say this where the roster message is.
    Reply(String),
    /// The command came in a direct message: nothing is done.
    Ignored,
    /// The activity is in the store: show `embed` in the roster message,
    /// wait `delay` or until `waiter` is done, and start the activity
    /// `activity_id` where the wait ran out first.
    Scheduled { activity_id: u64, embed: RosterEmbed, delay: Delay, waiter: CancelActivity },
}

impl CreateOutcome {
    /// Whether the outcome is to say `text`.
    pub open spec fn says(&self, text: Seq<char>) -> bool {
        self matches CreateOutcome::Reply(reply) && reply@ == text
    }
}

/// Whether `activity` is what `request` asks for, under the id `id`, with
/// nobody on its lists yet.
pub open spec fn is_new_activity(activity: Activity, request: NewActivity, id: u64) -> bool {
    &&& activity.name == request.name
    &&& activity.description == request.description
    &&& activity.date == request.date
    &&& activity.id == id
    &&& activity.size == request.size
    &&& activity.creator == request.author
    &&& activity.embed_msg == request.message
    &&& activity.members@ == Set::<u64>::empty()
    &&& activity.alternate@ == Seq::<u64>::empty()
}

/// Whether an activity can be set up in `guild_id`: the store's counter
/// of fresh ids has not reached its last value.
pub open spec fn has_room(guilds: Map<u64, GuildData>, guild_id: Option<u64>) -> bool {
    guild_id matches Some(guild) ==> store_of(guilds, guild).next < u64::MAX
}

/// Whether an activity can be set up in `guild_id`.
pub fn can_create(guild_map: &HashMap<u64, GuildData>, guild_id: Option<u64>) -> (ok: bool)
    ensures
        ok == has_room(guild_map@, guild_id),
{
    match guild_id {
        Some(guild) => match guild_map.get(&guild) {
            Some(guild_data) => !guild_data.is_exhausted(),
            None => true,
        },
        None => true,
    }
}

/// Sets up the activity that `request` asks for, at the moment `now`. A
/// start time that does not exist or lies before `now` is refused, and
/// nothing changes. Else the activity goes into the store of the guild
/// under the id that the store hands out, with a fresh cancellation
/// signal, and its start is scheduled.
pub fn activity_create(
    guild_map: &mut HashMap<u64, GuildData>,
    guild_id: Option<u64>,
    request: NewActivity,
    now: Instant,
) -> (outcome: CreateOutcome)
    requires
        has_room(old(guild_map)@, guild_id),
    ensures
        guilds_wf(old(guild_map)@) ==> guilds_wf(final(guild_map)@),
        match request.start.spec_timestamp() {
            Some(start) if start * 1_000_000_000 >= now.total_nanos() => match guild_id {
                None => final(guild_map)@ == old(guild_map)@ && outcome is Ignored,
                Some(guild) => {
                    let was = store_of(old(guild_map)@, guild);
                    let id = was.activity_id() as u64;
                    if was.live.contains_key(id) {
                        untouched(old(guild_map)@, final(guild_map)@, guild) && outcome.says(
                            "Error: that activity already exists. Please contact Factorial about this."@,
                        )
                    } else {
                        let activity = final(guild_map)@[guild]@.live[id];
                        &&& opened(old(guild_map)@, final(guild_map)@, guild)
                        &&& final(guild_map)@[guild]@ == was.add_activity(activity)
                        &&& is_new_activity(activity, request, id)
                        &&& outcome matches CreateOutcome::Scheduled {
                            activity_id,
                            embed,
                            delay,
                            waiter,
                        }
                        &&& activity_id == id
                        &&& activity.shows(&embed, ROSTER_COLOR)
                        &&& is_delay(delay, start, now)
                        &&& waiter.signal() == activity.cancel_token.signal()
                    }
                },
            },
            _ => final(guild_map)@ == old(guild_map)@ && outcome.says(
                "Invalid date and time. Please enter a valid date and time that is in the future."@,
            ),
        },
{
    let delay = match request.start.timestamp() {
        Some(start) => delay_until(start, now),
        None => None,
    };
    let delay = match delay {
        Some(delay) => delay,
        None => {
            return CreateOutcome::Reply(
                String::from_str(
                    "Invalid date and time. Please enter a valid date and time that is in the future.",
                ),
            );
        },
    };
    let guild = match guild_id {
        Some(guild) => guild,
        None => { return CreateOutcome::Ignored; },
    };
    let guild_data = guild_map.entry(guild).or_insert(GuildData::new(guild));
    proof {
        guild_data.lemma_next_fits();
    }
    let activity_id = guild_data.activity_id();
    let (waiter, token) = CancelActivity::new_pair();
    let activity = Activity::new(
        request.name,
        request.description,
        request.date,
        activity_id,
        request.size,
        request.author,
        request.message,
        token,
    );
    let embed = activity.as_create_embed(ROSTER_COLOR);
    match guild_data.add_activity(activity) {
        Ok(()) => CreateOutcome::Scheduled { activity_id, embed, delay, waiter },
        Err(_) => CreateOutcome::Reply(
            String::from_str(
                "Error: that activity already exists. Please contact Factorial about this.",
            ),
        ),
    }
}

/// What is to be done after an edit command.
pub enum EditRequest {
    /// Say this where the command was given.
    Reply(String),
    /// Ask for the new start time and description of the activity, then
    /// reschedule it.
    Ask { guild: u64, activity_id: u64 },
}

impl EditRequest {
    /// Whether the outcome is to say `text`.
    pub open spec fn says(&self, text: Seq<char>) -> bool {
        self matches EditRequest::Reply(reply) && reply@ == text
    }
}

/// What an edit command leaves behind: an argument that names no
/// activity, or none of this guild, a command outside a guild and, where
/// `creator_only` holds, a command of anyone but the creator are answered.
/// Else the new schedule is to be asked for.
pub open spec fn edit_effect(
    before: Map<u64, GuildData>,
    after: Map<u64, GuildData>,
    outcome: EditRequest,
    guild_id: Option<u64>,
    id: Option<u64>,
    author: u64,
    creator_only: bool,
) -> bool {
    match (id, guild_id) {
        (None, _) => after == before && outcome.says("Invalid activity ID."@),
        (Some(_), None) => after == before && outcome.says(
            "This command is not supported in DMs."@,
        ),
        (Some(id), Some(guild)) => {
            let was = store_of(before, guild);
            &&& untouched(before, after, guild)
            &&& if !was.live.contains_key(id) {
                outcome.says("Invalid activity ID."@)
            } else if creator_only && was.live[id].creator != author {
                outcome.says("You cannot edit that activity."@)
            } else {
                outcome == (EditRequest::Ask { guild, activity_id: id })
            }
        },
    }
}

/// Whether the activity that `id_arg` names can be edited by `author`.
pub fn edit_request(
    guild_map: &mut HashMap<u64, GuildData>,
    guild_id: Option<u64>,
    id_arg: Option<&str>,
    author: u64,
    creator_only: bool,
) -> (outcome: EditRequest)
    ensures
        guilds_wf(old(guild_map)@) ==> guilds_wf(final(guild_map)@),
        edit_effect(
            old(guild_map)@,
            final(guild_map)@,
            outcome,
            guild_id,
            named_id(id_arg),
            author,
            creator_only,
        ),
{
    let id = match parse_id(id_arg) {
        Some(id) => id,
        None => { return EditRequest::Reply(String::from_str("Invalid activity ID.")); },
    };
    let guild = match guild_id {
        Some(guild) => guild,
        None => {
            return EditRequest::Reply(String::from_str("This command is not supported in DMs."));
        },
    };
    let guild_data = guild_map.entry(guild).or_insert(GuildData::new(guild));
    match guild_data.activity(id) {
        Some(activity) => {
            if creator_only && activity.creator != author {
                EditRequest::Reply(String::from_str("You cannot edit that activity."))
            } else {
                EditRequest::Ask { guild, activity_id: id }
            }
        },
        None => EditRequest::Reply(String::from_str("Invalid activity ID.")),
    }
}

/// `author` asks to edit the activity that `id_arg` names. Only its
/// creator may do so.
pub fn activity_edit(
    guild_map: &mut HashMap<u64, GuildData>,
    guild_id: Option<u64>,
    id_arg: Option<&str>,
    author: u64,
) -> (outcome: EditRequest)
    ensures
        guilds_wf(old(guild_map)@) ==> guilds_wf(final(guild_map)@),
        edit_effect(
            old(guild_map)@,
            final(guild_map)@,
            outcome,
            guild_id,
            named_id(id_arg),
            author,
            true,
        ),
{
    edit_request(guild_map, guild_id, id_arg, author, true)
}

/// What is to be done after a list command.
pub enum ListOutcome {
    /// Say this where the command was given.
    Reply(String),
    /// Send this embed where the command was given.
    Page(RosterEmbed),
}

impl ListOutcome {
    /// Whether the outcome is to say `text`.
    pub open spec fn says(&self, text: Seq<char>) -> bool {
        self matches ListOutcome::Reply(reply) && reply@ == text
    }
}

/// The activities that one page of the list holds.
pub const PAGE_SIZE: usize = 3;

/// The pages that `count` activities fill.
pub open spec fn page_count(count: nat) -> nat {
    (count + 2) / 3
}

/// The page that an argument names: the first page for 0 and for 1, the
/// second for 2, and so on.
pub open spec fn named_page(arg: Option<&str>) -> Option<nat> {
    match named_id(arg) {
        Some(number) => if number == 0 {
            Some(0)
        } else {
            Some((number - 1) as nat)
        },
        None => None,
    }
}

/// Whether the six fields from `at` on list `activity`, its fireteam in
/// the order `order`.
pub open spec fn is_list_entry(
    fields: Seq<EmbedField>,
    at: int,
    activity: Activity,
    order: Seq<u64>,
) -> bool {
    &&& fields[at].is("Activity:"@, activity.name@, true)
    &&& fields[at + 1].is("Time:"@, activity.date@, true)
    &&& fields[at + 2].is("Activity ID:"@, decimal(activity.id as nat), true)
    &&& fields[at + 3].is("Description:"@, activity.description@, false)
    &&& fields[at + 4].is("Member List:"@, mention_field(order), false)
    &&& fields[at + 5].is("Alternate Members:"@, mention_field(activity.alternate@), false)
}

/// Whether the six fields from `at` on list `activity`, its fireteam in
/// some order.
pub open spec fn lists(fields: Seq<EmbedField>, at: int, activity: Activity) -> bool {
    exists|order: Seq<u64>|
        order.no_duplicates() && order.to_set() == activity.members@ && #[trigger] is_list_entry(
            fields,
            at,
            activity,
            order,
        )
}

/// What the foot of a page says.
pub open spec fn page_footer(page: nat, pages: nat) -> Seq<char> {
    "Page "@ + decimal(page + 1) + "/"@ + decimal(pages)
}

/// Whether `embed` is the page `page` of the list of `store`, whose ids
/// are `ids`, smallest first: up to three activities, six fields each.
pub open spec fn is_list_page(embed: RosterEmbed, store: Store, ids: Seq<u64>, page: nat) -> bool {
    let first = 3 * page;
    let count = if ids.len() - first < 3 {
        ids.len() - first
    } else {
        3
    };
    &&& embed.color is None
    &&& embed.title@ == "Activity List"@
    &&& embed.fields@.len() == 6 * count
    &&& forall|k: int|
        0 <= k < count ==> #[trigger] lists(embed.fields@, 6 * k, store.live[ids[first + k]])
    &&& embed.footer@ == page_footer(page, page_count(ids.len()))
}

/// What is said to a page that the list does not have.
pub open spec fn out_of_range_text(pages: nat) -> Seq<char> {
    "That page number is out of range. The maximum page number is "@ + decimal(pages)
}

/// What a list command gives: the page that the argument names of the
/// activities of the guild, smallest id first, three to a page.
pub open spec fn list_effect(
    guilds: Map<u64, GuildData>,
    outcome: ListOutcome,
    guild_id: Option<u64>,
    page: Option<nat>,
) -> bool {
    match (guild_id, page) {
        (None, _) => outcome.says("This command is not supported in DMs."@),
        (Some(_), None) => outcome.says("Invalid page number."@),
        (Some(guild), Some(page)) => {
            if !guilds.contains_key(guild) {
                outcome.says(
                    "No activities have been created in this server. Be the first to make one!"@,
                )
            } else {
                let store = guilds[guild]@;
                let count = store.live.dom().len();
                if count == 0 {
                    outcome.says("No activities are currently scheduled in this server."@)
                } else if page >= page_count(count) {
                    outcome.says(out_of_range_text(page_count(count)))
                } else {
                    &&& outcome matches ListOutcome::Page(embed)
                    &&& exists|ids: Seq<u64>|
                        is_listing(ids, store.live.dom()) && #[trigger] is_list_page(
                            embed,
                            store,
                            ids,
                            page,
                        )
                }
            }
        },
    }
}

/// Adds the six fields that list `activity`.
fn push_list_entry(fields: &mut Vec<EmbedField>, activity: &Activity)
    ensures
        final(fields)@.len() == old(fields)@.len() + 6,
        final(fields)@.subrange(0, old(fields)@.len() as int) == old(fields)@,
        lists(final(fields)@, old(fields)@.len() as int, *activity),
{
    let ghost at = fields@.len() as int;
    let order = activity.member_order();
    fields.push(EmbedField::new("Activity:", activity.name.clone(), true));
    fields.push(EmbedField::new("Time:", activity.date.clone(), true));
    fields.push(EmbedField::new("Activity ID:", decimal_string(activity.id), true));
    fields.push(EmbedField::new("Description:", activity.description.clone(), false));
    fields.push(EmbedField::new("Member List:", render_mention_field(&order), false));
    fields.push(
        EmbedField::new("Alternate Members:", render_mention_field(&activity.alternate), false),
    );
    proof {
        assert(is_list_entry(fields@, at, *activity, order@));
    }
}

/// Lists the activities of the guild, smallest id first, three to a page,
/// and gives the page that `page_arg` names.
pub fn activity_list(
    guild_map: &HashMap<u64, GuildData>,
    guild_id: Option<u64>,
    page_arg: Option<&str>,
) -> (outcome: ListOutcome)
    ensures
        list_effect(guild_map@, outcome, guild_id, named_page(page_arg)),
{
    let guild = match guild_id {
        Some(guild) => guild,
        None => {
            return ListOutcome::Reply(String::from_str("This command is not supported in DMs."));
        },
    };
    let page: u64 = match parse_id(page_arg) {
        Some(number) => if number == 0 {
            0
        } else {
            number - 1
        },
        None => { return ListOutcome::Reply(String::from_str("Invalid page number.")); },
    };
    let guild_data = match guild_map.get(&guild) {
        Some(guild_data) => guild_data,
        None => {
            return ListOutcome::Reply(
                String::from_str(
                    "No activities have been created in this server. Be the first to make one!",
                ),
            );
        },
    };
    let ids = guild_data.sorted_activity_ids();
    if ids.len() == 0 {
        return ListOutcome::Reply(
            String::from_str("No activities are currently scheduled in this server."),
        );
    }
    let pages: usize = (ids.len() - 1) / PAGE_SIZE + 1;
    if page >= pages as u64 {
        let mut reply = String::from_str(
            "That page number is out of range. The maximum page number is ",
        );
        reply.append(decimal_string(pages as u64).as_str());
        return ListOutcome::Reply(reply);
    }
    let first: usize = PAGE_SIZE * (page as usize);
    let last: usize = if ids.len() - first < PAGE_SIZE {
        ids.len()
    } else {
        first + PAGE_SIZE
    };
    let mut fields: Vec<EmbedField> = Vec::new();
    let mut at: usize = first;
    while at < last
        invariant
            first <= at <= last <= ids.len(),
            last - first <= 3,
            is_listing(ids@, guild_data@.live.dom()),
            fields@.len() == 6 * (at - first),
            forall|k: int|
                0 <= k < at - first ==> #[trigger] lists(
                    fields@,
                    6 * k,
                    guild_data@.live[ids@[first + k]],
                ),
        decreases last - at,
    {
        match guild_data.activity(ids[at]) {
            Some(activity) => {
                let ghost before = fields@;
                push_list_entry(&mut fields, activity);
                proof {
                    assert forall|k: int| 0 <= k < at + 1 - first implies #[trigger] lists(
                        fields@,
                        6 * k,
                        guild_data@.live[ids@[first + k]],
                    ) by {
                        if k < at - first {
                            let shown = guild_data@.live[ids@[first + k]];
                            assert(lists(before, 6 * k, shown));
                            let order = choose|order: Seq<u64>|
                                order.no_duplicates() && order.to_set() == shown.members@
                                    && #[trigger] is_list_entry(before, 6 * k, shown, order);
                            assert(forall|j: int|
                                0 <= j < before.len() ==> before[j] == fields@.subrange(
                                    0,
                                    before.len() as int,
                                )[j]);
                            assert(is_list_entry(fields@, 6 * k, shown, order));
                        }
                    }
                }
            },
            None => {},
        }
        at = at + 1;
    }
    let mut footer = String::from_str("Page ");
    footer.append(decimal_string(page + 1).as_str());
    footer.append("/");
    footer.append(decimal_string(pages as u64).as_str());
    let embed = RosterEmbed {
        color: None,
        title: String::from_str("Activity List"),
        fields,
        footer,
    };
    proof {
        assert(is_list_page(embed, guild_data@, ids@, page as nat));
    }
    ListOutcome::Page(embed)
}

/// The parts of the activity command.
#[derive(Copy, Clone, Eq, PartialEq, Hash, Debug, Structural)]
pub enum Subcommand {
    Create,
    Join,
    Alt,
    Leave,
    Edit,
    Delete,
    List,
}

/// The part of the activity command that `word` names.
pub open spec fn subcommand(word: Seq<char>) -> Option<Subcommand> {
    if word == "create"@ {
        Some(Subcommand::Create)
    } else if word == "join"@ {
        Some(Subcommand::Join)
    } else if word == "alt"@ {
        Some(Subcommand::Alt)
    } else if word == "leave"@ {
        Some(Subcommand::Leave)
    } else if word == "edit"@ {
        Some(Subcommand::Edit)
    } else if word == "delete"@ {
        Some(Subcommand::Delete)
    } else if word == "list"@ {
        Some(Subcommand::List)
    } else {
        None
    }
}

/// Which part of the activity command is asked for. Without a word, and
/// with a word that names no part, the answer to give comes back.
pub fn activity(word: Option<&str>) -> (part: Result<Subcommand, String>)
    ensures
        match word {
            None => part matches Err(reply) && reply@ == "Please provide a subcommand."@,
            Some(word) => match subcommand(word@) {
                Some(named) => part == Ok::<Subcommand, String>(named),
                None => part matches Err(reply) && reply@
                    == "Invalid subcommand. Valid subcommands are `create`, `join`, `alt`, `leave`, `edit`, `delete`, and `list`."@,
            },
        },
{
    let word = match word {
        Some(word) => word,
        None => { return Err(String::from_str("Please provide a subcommand.")); },
    };
    if same_text(word, "create") {
        Ok(Subcommand::Create)
    } else if same_text(word, "join") {
        Ok(Subcommand::Join)
    } else if same_text(word, "alt") {
        Ok(Subcommand::Alt)
    } else if same_text(word, "leave") {
        Ok(Subcommand::Leave)
    } else if same_text(word, "edit") {
        Ok(Subcommand::Edit)
    } else if same_text(word, "delete") {
        Ok(Subcommand::Delete)
    } else if same_text(word, "list") {
        Ok(Subcommand::List)
    } else {
        Err(
            String::from_str(
                "Invalid subcommand. Valid subcommands are `create`, `join`, `alt`, `leave`, `edit`, `delete`, and `list`.",
            ),
        )
    }
}

/// The longest description that an activity may have, in bytes.
pub const MAX_DESCRIPTION: usize = 1024;

/// Whether `description` is short enough for an activity.
pub fn description_fits(description: &str) -> (fits: bool)
    ensures
        fits == (byte_len(description@) <= MAX_DESCRIPTION),
{
    count_bytes(description) <= MAX_DESCRIPTION
}

} // verus!

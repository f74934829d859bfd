//! The commands that only admins may give. They name the user that they
//! act for.

use std::collections::HashMap;

use vstd::prelude::*;
use vstd::string::StringExecFns;

use crate::command::data::guilds_wf;
use crate::command::data::opened;
use crate::command::data::store_of;
use crate::command::data::untouched;
use crate::command::data::Activity;
use crate::command::data::GuildData;
use crate::command::general::change_roster;
use crate::command::general::command_effect;
use crate::command::general::delete_activity;
use crate::command::general::deleted_text;
use crate::command::general::edit_effect;
use crate::command::general::edit_request;
use crate::command::general::named_id;
use crate::command::general::parse_id;
use crate::command::general::Change;
use crate::command::general::DeleteOutcome;
use crate::command::general::EditRequest;
use crate::command::general::Outcome;
use crate::command::general::Wording;
use crate::command::imp::is_start_notice;
use crate::command::imp::start_notice;
use crate::command::imp::StartNotice;
use crate::text::byte_len;
use crate::text::count_bytes;
use crate::text::mention_address;
use crate::text::render_mention_address;
use crate::text::same_text;

verus! {

broadcast use vstd::std_specs::hash::group_hash_axioms;

/// The parts of the admins' activity command.
#[derive(Copy, Clone, Eq, PartialEq, Hash, Debug, Structural)]
pub enum AdminSubcommand {
    Add,
    Alt,
    Remove,
    Edit,
    Delete,
    Start,
    Ping,
}

/// The part of the admins' activity command that `word` names.
pub open spec fn admin_subcommand(word: Seq<char>) -> Option<AdminSubcommand> {
    if word == "add"@ {
        Some(AdminSubcommand::Add)
    } else if word == "alt"@ {
        Some(AdminSubcommand::Alt)
    } else if word == "remove"@ {
        Some(AdminSubcommand::Remove)
    } else if word == "edit"@ {
        Some(AdminSubcommand::Edit)
    } else if word == "delete"@ {
        Some(AdminSubcommand::Delete)
    } else if word == "start"@ {
        Some(AdminSubcommand::Start)
    } else if word == "ping"@ {
        Some(AdminSubcommand::Ping)
    } else {
        None
    }
}

/// Which part of the admins' activity command is asked for. Who is no
/// admin gets no answer at all. Without a word, and with a word that
/// names no part, the answer to give comes back.
pub fn activity(is_admin: bool, word: Option<&str>) -> (part: Option<
    Result<AdminSubcommand, String>,
>)
    ensures
        !is_admin ==> part is None,
        is_admin ==> part is Some && match word {
            None => part->0 matches Err(reply) && reply@ == "Please provide a subcommand."@,
            Some(word) => match admin_subcommand(word@) {
                Some(named) => part->0 == Ok::<AdminSubcommand, String>(named),
                None => part->0 matches Err(reply) && reply@
                    == "Invalid subcommand. Valid subcommands are `add`, `alt`, `remove`, `delete`, `start`, and `ping`."@,
            },
        },
{
    if !is_admin {
        return None;
    }
    let word = match word {
        Some(word) => word,
        None => { return Some(Err(String::from_str("Please provide a subcommand."))); },
    };
    let part = if same_text(word, "add") {
        Ok(AdminSubcommand::Add)
    } else if same_text(word, "alt") {
        Ok(AdminSubcommand::Alt)
    } else if same_text(word, "remove") {
        Ok(AdminSubcommand::Remove)
    } else if same_text(word, "edit") {
        Ok(AdminSubcommand::Edit)
    } else if same_text(word, "delete") {
        Ok(AdminSubcommand::Delete)
    } else if same_text(word, "start") {
        Ok(AdminSubcommand::Start)
    } else if same_text(word, "ping") {
        Ok(AdminSubcommand::Ping)
    } else {
        Err(
            String::from_str(
                "Invalid subcommand. Valid subcommands are `add`, `alt`, `remove`, `delete`, `start`, and `ping`.",
            ),
        )
    };
    Some(part)
}

/// What an admin's roster command does: an argument that names no user
/// is answered, and nothing changes. Else the command does for that user
/// what the member's command does for its author.
pub open spec fn admin_effect(
    before: Map<u64, GuildData>,
    after: Map<u64, GuildData>,
    outcome: Outcome,
    guild_id: Option<u64>,
    user: Option<u64>,
    id: Option<u64>,
    change: Change,
    wording: Wording,
) -> bool {
    match user {
        None => after == before && outcome.says("Invalid user ID."@),
        Some(user) => command_effect(before, after, outcome, guild_id, id, user, change, wording),
    }
}

/// Applies `change` for the user that `user_arg` names.
fn admin_change(
    guild_map: &mut HashMap<u64, GuildData>,
    guild_id: Option<u64>,
    user_arg: Option<&str>,
    id_arg: Option<&str>,
    change: Change,
    wording: Wording,
) -> (outcome: Outcome)
    ensures
        guilds_wf(old(guild_map)@) ==> guilds_wf(final(guild_map)@),
        admin_effect(
            old(guild_map)@,
            final(guild_map)@,
            outcome,
            guild_id,
            named_id(user_arg),
            named_id(id_arg),
            change,
            wording,
        ),
{
    match parse_id(user_arg) {
        Some(user) => change_roster(guild_map, guild_id, id_arg, user, change, wording),
        None => Outcome::reply("Invalid user ID."),
    }
}

/// What `admin_activity_add` says to a refusal.
pub open spec fn spec_add_wording() -> Wording {
    Wording {
        fireteam_full: "The fireteam for that activity is already full.",
        already_in_fireteam: "That user is already in that fireteam.",
        not_in_fireteam: "Some other error occurred adding that user to the fireteam.",
        alternate_full: "Some other error occurred adding that user to the fireteam.",
        already_in_alternate: "Some other error occurred adding that user to the fireteam.",
        not_in_alternate: "Attempted to move that user to the fireteam, but they were not an alternate. Please try again.",
    }
}

/// What `admin_activity_add` says to a refusal.
#[verifier::when_used_as_spec(spec_add_wording)]
pub fn add_wording() -> (wording: Wording)
    ensures
        wording == spec_add_wording(),
{
    Wording {
        fireteam_full: "The fireteam for that activity is already full.",
        already_in_fireteam: "That user is already in that fireteam.",
        not_in_fireteam: "Some other error occurred adding that user to the fireteam.",
        alternate_full: "Some other error occurred adding that user to the fireteam.",
        already_in_alternate: "Some other error occurred adding that user to the fireteam.",
        not_in_alternate: "Attempted to move that user to the fireteam, but they were not an alternate. Please try again.",
    }
}

/// What `admin_activity_alt` says to a refusal.
pub open spec fn spec_alt_wording() -> Wording {
    Wording {
        fireteam_full: "Some other error occurred adding that user to the fireteam.",
        already_in_fireteam: "Some other error occurred adding that user to the fireteam.",
        not_in_fireteam: "Some other error occurred adding that user to the fireteam.",
        alternate_full: "The alternate fireteam for that activity is already full.",
        already_in_alternate: "That user are already in that alternate fireteam.",
        not_in_alternate: "Some other error occurred adding that user to the fireteam.",
    }
}

/// What `admin_activity_alt` says to a refusal.
#[verifier::when_used_as_spec(spec_alt_wording)]
pub fn alt_wording() -> (wording: Wording)
    ensures
        wording == spec_alt_wording(),
{
    Wording {
        fireteam_full: "Some other error occurred adding that user to the fireteam.",
        already_in_fireteam: "Some other error occurred adding that user to the fireteam.",
        not_in_fireteam: "Some other error occurred adding that user to the fireteam.",
        alternate_full: "The alternate fireteam for that activity is already full.",
        already_in_alternate: "That user are already in that alternate fireteam.",
        not_in_alternate: "Some other error occurred adding that user to the fireteam.",
    }
}

/// What `admin_activity_remove` says to a refusal.
pub open spec fn spec_remove_wording() -> Wording {
    Wording {
        fireteam_full: "Some other error occurred removing that user from the fireteam.",
        already_in_fireteam: "Some other error occurred removing that user from the fireteam.",
        not_in_fireteam: "Some other error occurred removing that user from the fireteam.",
        alternate_full: "Some other error occurred removing that user from the fireteam.",
        already_in_alternate: "Some other error occurred removing that user from the fireteam.",
        not_in_alternate: "That user is not in that activity's fireteam.",
    }
}

/// What `admin_activity_remove` says to a refusal.
#[verifier::when_used_as_spec(spec_remove_wording)]
pub fn remove_wording() -> (wording: Wording)
    ensures
        wording == spec_remove_wording(),
{
    Wording {
        fireteam_full: "Some other error occurred removing that user from the fireteam.",
        already_in_fireteam: "Some other error occurred removing that user from the fireteam.",
        not_in_fireteam: "Some other error occurred removing that user from the fireteam.",
        alternate_full: "Some other error occurred removing that user from the fireteam.",
        already_in_alternate: "Some other error occurred removing that user from the fireteam.",
        not_in_alternate: "That user is not in that activity's fireteam.",
    }
}

/// The user that `user_arg` names joins the fireteam of the activity that
/// `id_arg` names.
pub fn admin_activity_add(
    guild_map: &mut HashMap<u64, GuildData>,
    guild_id: Option<u64>,
    user_arg: Option<&str>,
    id_arg: Option<&str>,
) -> (outcome: Outcome)
    ensures
        guilds_wf(old(guild_map)@) ==> guilds_wf(final(guild_map)@),
        admin_effect(
            old(guild_map)@,
            final(guild_map)@,
            outcome,
            guild_id,
            named_id(user_arg),
            named_id(id_arg),
            Change::Join,
            add_wording(),
        ),
{
    admin_change(guild_map, guild_id, user_arg, id_arg, Change::Join, add_wording())
}

/// The user that `user_arg` names joins the alternates of the activity
/// that `id_arg` names.
pub fn admin_activity_alt(
    guild_map: &mut HashMap<u64, GuildData>,
    guild_id: Option<u64>,
    user_arg: Option<&str>,
    id_arg: Option<&str>,
) -> (outcome: Outcome)
    ensures
        guilds_wf(old(guild_map)@) ==> guilds_wf(final(guild_map)@),
        admin_effect(
            old(guild_map)@,
            final(guild_map)@,
            outcome,
            guild_id,
            named_id(user_arg),
            named_id(id_arg),
            Change::Alternate,
            alt_wording(),
        ),
{
    admin_change(guild_map, guild_id, user_arg, id_arg, Change::Alternate, alt_wording())
}

/// The user that `user_arg` names leaves the activity that `id_arg`
/// names: the fireteam where they are on it, and the alternates
/// otherwise.
pub fn admin_activity_remove(
    guild_map: &mut HashMap<u64, GuildData>,
    guild_id: Option<u64>,
    user_arg: Option<&str>,
    id_arg: Option<&str>,
) -> (outcome: Outcome)
    ensures
        guilds_wf(old(guild_map)@) ==> guilds_wf(final(guild_map)@),
        admin_effect(
            old(guild_map)@,
            final(guild_map)@,
            outcome,
            guild_id,
            named_id(user_arg),
            named_id(id_arg),
            Change::Leave,
            remove_wording(),
        ),
{
    admin_change(guild_map, guild_id, user_arg, id_arg, Change::Leave, remove_wording())
}

/// An admin asks to edit the activity that `id_arg` names.
pub fn admin_activity_edit(
    guild_map: &mut HashMap<u64, GuildData>,
    guild_id: Option<u64>,
    id_arg: Option<&str>,
    author: u64,
) -> (outcome: EditRequest)
    ensures
        guilds_wf(old(guild_map)@) ==> guilds_wf(final(guild_map)@),
        edit_effect(
            old(guild_map)@,
            final(guild_map)@,
            outcome,
            guild_id,
            named_id(id_arg),
            author,
            false,
        ),
{
    edit_request(guild_map, guild_id, id_arg, author, false)
}

/// An admin deletes the activity that `id_arg` names. The activity leaves
/// the store, its id is free again, and its timer is cancelled. Where
/// there is no such activity, nothing is said.
pub fn admin_activity_delete(
    guild_map: &mut HashMap<u64, GuildData>,
    guild_id: Option<u64>,
    id_arg: Option<&str>,
) -> (outcome: DeleteOutcome)
    ensures
        guilds_wf(old(guild_map)@) ==> guilds_wf(final(guild_map)@),
        match (named_id(id_arg), guild_id) {
            (None, _) => final(guild_map)@ == old(guild_map)@ && outcome.says(
                "Invalid activity ID."@,
            ),
            (Some(_), None) => final(guild_map)@ == old(guild_map)@ && outcome.says(
                "This command is not supported in DMs."@,
            ),
            (Some(id), Some(guild)) => {
                let was = store_of(old(guild_map)@, guild);
                &&& opened(old(guild_map)@, final(guild_map)@, guild)
                &&& final(guild_map)@[guild]@ == was.remove_activity(id)
                &&& if was.live.contains_key(id) {
                    &&& outcome matches DeleteOutcome::Deleted { message, reply, woke }
                    &&& message == was.live[id].embed_msg
                    &&& reply@ == deleted_text(was.live[id])
                } else {
                    outcome is Nothing
                }
            },
        },
{
    let id = match parse_id(id_arg) {
        Some(id) => id,
        None => { return DeleteOutcome::Reply(String::from_str("Invalid activity ID.")); },
    };
    let guild = match guild_id {
        Some(guild) => guild,
        None => {
            return DeleteOutcome::Reply(
                String::from_str("This command is not supported in DMs."),
            );
        },
    };
    let guild_data = guild_map.entry(guild).or_insert(GuildData::new(guild));
    delete_activity(guild_data, id)
}

/// What is to be done after an admin started an activity by hand.
pub enum StartOutcome {
    /// Say this where the command was given.
    Reply(String),
    /// The activity has started: send the notice, where there is one.
    /// `woke` tells whether the task that waited for the start time was
    /// woken by the cancellation.
    Started { notice: Option<StartNotice>, woke: bool },
}

impl StartOutcome {
    /// Whether the outcome is to say `text`.
    pub open spec fn says(&self, text: Seq<char>) -> bool {
        self matches StartOutcome::Reply(reply) && reply@ == text
    }
}

/// An admin starts the activity that `id_arg` names now. Its timer is
/// cancelled, it leaves the store, its id is free again, and its fireteam
/// is called.
pub fn admin_activity_start(
    guild_map: &mut HashMap<u64, GuildData>,
    guild_id: Option<u64>,
    id_arg: Option<&str>,
) -> (outcome: StartOutcome)
    ensures
        guilds_wf(old(guild_map)@) ==> guilds_wf(final(guild_map)@),
        match (named_id(id_arg), guild_id) {
            (None, _) => final(guild_map)@ == old(guild_map)@ && outcome.says(
                "Invalid activity ID."@,
            ),
            (Some(_), None) => final(guild_map)@ == old(guild_map)@ && outcome.says(
                "This command is not supported in DMs."@,
            ),
            (Some(id), Some(guild)) => {
                let was = store_of(old(guild_map)@, guild);
                &&& opened(old(guild_map)@, final(guild_map)@, guild)
                &&& final(guild_map)@[guild]@ == was.remove_activity(id)
                &&& if was.live.contains_key(id) {
                    &&& outcome matches StartOutcome::Started { notice, woke }
                    &&& is_start_notice(notice, was.live[id])
                } else {
                    outcome.says("Invalid activity ID."@)
                }
            },
        },
{
    let id = match parse_id(id_arg) {
        Some(id) => id,
        None => { return StartOutcome::Reply(String::from_str("Invalid activity ID.")); },
    };
    let guild = match guild_id {
        Some(guild) => guild,
        None => {
            return StartOutcome::Reply(String::from_str("This command is not supported in DMs."));
        },
    };
    let guild_data = guild_map.entry(guild).or_insert(GuildData::new(guild));
    match guild_data.remove_activity(id) {
        Some(activity) => {
            let woke = activity.cancel_token.cancel();
            StartOutcome::Started { notice: start_notice(&activity), woke }
        },
        None => StartOutcome::Reply(String::from_str("Invalid activity ID.")),
    }
}

/// What is to be done after a ping command.
pub enum PingOutcome {
    /// Say this where the command was given.
    Reply(String),
    /// Say `content` in the channel `channel_id`, where the roster is.
    Ping { channel_id: u64, content: String },
    /// The fireteam is empty: nothing is said.
    Nothing,
}

impl PingOutcome {
    /// Whether the outcome is to say `text`.
    pub open spec fn says(&self, text: Seq<char>) -> bool {
        self matches PingOutcome::Reply(reply) && reply@ == text
    }
}

/// Whether `outcome` is the ping of the fireteam of `activity`: nothing
/// where it is empty, and otherwise its members addressed in some order.
pub open spec fn is_ping(outcome: PingOutcome, activity: Activity) -> bool {
    if activity.members@.len() == 0 {
        outcome is Nothing
    } else {
        &&& outcome matches PingOutcome::Ping { channel_id, content }
        &&& channel_id == activity.embed_msg.channel_id
        &&& exists|order: Seq<u64>|
            order.no_duplicates() && order.to_set() == activity.members@ && content@
                == #[trigger] mention_address(order)
    }
}

/// An admin pings the fireteam of the activity that `id_arg` names.
pub fn admin_activity_ping(
    guild_map: &mut HashMap<u64, GuildData>,
    guild_id: Option<u64>,
    id_arg: Option<&str>,
) -> (outcome: PingOutcome)
    ensures
        guilds_wf(old(guild_map)@) ==> guilds_wf(final(guild_map)@),
        match (named_id(id_arg), guild_id) {
            (None, _) => final(guild_map)@ == old(guild_map)@ && outcome.says(
                "Invalid activity ID."@,
            ),
            (Some(_), None) => final(guild_map)@ == old(guild_map)@ && outcome.says(
                "This command is not supported in DMs."@,
            ),
            (Some(id), Some(guild)) => {
                let was = store_of(old(guild_map)@, guild);
                &&& untouched(old(guild_map)@, final(guild_map)@, guild)
                &&& if was.live.contains_key(id) {
                    is_ping(outcome, was.live[id])
                } else {
                    outcome.says("Invalid activity ID."@)
                }
            },
        },
{
    let id = match parse_id(id_arg) {
        Some(id) => id,
        None => { return PingOutcome::Reply(String::from_str("Invalid activity ID.")); },
    };
    let guild = match guild_id {
        Some(guild) => guild,
        None => {
            return PingOutcome::Reply(String::from_str("This command is not supported in DMs."));
        },
    };
    let guild_data = guild_map.entry(guild).or_insert(GuildData::new(guild));
    match guild_data.activity(id) {
        Some(activity) => {
            if activity.members.len() == 0 {
                PingOutcome::Nothing
            } else {
                let order = activity.member_order();
                PingOutcome::Ping {
                    channel_id: activity.embed_msg.channel_id,
                    content: render_mention_address(&order),
                }
            }
        },
        None => PingOutcome::Reply(String::from_str("Invalid activity ID.")),
    }
}

/// The words of `words` with one space between them.
pub open spec fn spaced(words: Seq<String>) -> Seq<char>
    decreases words.len(),
{
    if words.len() == 0 {
        Seq::empty()
    } else if words.len() == 1 {
        words[0]@
    } else {
        spaced(words.drop_last()) + " "@ + words.last()@
    }
}

/// What the bot repeats for an admin: the words of the command with one
/// space between them. Who is no admin gets nothing repeated.
pub fn echo(is_admin: bool, words: &Vec<String>) -> (message: Option<String>)
    ensures
        !is_admin ==> message is None,
        is_admin ==> (message matches Some(text) && text@ == spaced(words@)),
{
    if !is_admin {
        return None;
    }
    let mut text = String::new();
    let mut i: usize = 0;
    while i < words.len()
        invariant
            i <= words.len(),
            text@ == spaced(words@.take(i as int)),
        decreases words.len() - i,
    {
        proof {
            assert(words@.take(i + 1).drop_last() =~= words@.take(i as int));
        }
        if i > 0 {
            text.append(" ");
        }
        text.append(words[i].as_str());
        i = i + 1;
    }
    proof {
        assert(words@.take(words.len() as int) =~= words@);
    }
    Some(text)
}

/// The message that an admin asks to pin. Who is no admin gets no answer
/// at all, and an argument that names no message is answered.
pub fn pin(is_admin: bool, arg: Option<&str>) -> (message: Option<Result<u64, String>>)
    ensures
        !is_admin ==> message is None,
        is_admin ==> message is Some && match named_id(arg) {
            Some(id) => message->0 == Ok::<u64, String>(id),
            None => message->0 matches Err(reply) && reply@ == "Please enter a valid message ID"@,
        },
{
    if !is_admin {
        return None;
    }
    match parse_id(arg) {
        Some(id) => Some(Ok(id)),
        None => Some(Err(String::from_str("Please enter a valid message ID"))),
    }
}

/// The words of `words`, each followed by one space.
pub open spec fn trailed(words: Seq<String>) -> Seq<char>
    decreases words.len(),
{
    if words.len() == 0 {
        Seq::empty()
    } else {
        trailed(words.drop_last()) + words.last()@ + " "@
    }
}

/// The longest nickname that the bot may get, in bytes.
pub const MAX_NICKNAME: usize = 32;

/// What is to be done after a nickname command.
pub enum NickOutcome {
    /// Say this where the command was given.
    Reply(String),
    /// Take the nickname away, and mark the command as done.
    Reset,
    /// Take this nickname, and mark the command as done.
    Rename(String),
}

/// What a nickname command of an admin leaves to do, given the name that
/// its words make up.
pub open spec fn nick_effect(outcome: NickOutcome, name: Seq<char>, guild_id: Option<u64>) -> bool {
    if byte_len(name) > MAX_NICKNAME {
        outcome matches NickOutcome::Reply(reply) && reply@
            == "Please ensure that the bot's new nickname is between 1 and 32 characters long."@
    } else if guild_id is None {
        outcome matches NickOutcome::Reply(reply) && reply@
            == "This command is not supported in DMs."@
    } else if name.len() == 0 {
        outcome is Reset
    } else {
        outcome matches NickOutcome::Rename(taken) && taken@ == name
    }
}

/// Decides on the nickname `name`: one of more than 32 bytes is refused,
/// an empty one takes the nickname away.
pub fn nick_decision(name: String, guild_id: Option<u64>) -> (outcome: NickOutcome)
    ensures
        nick_effect(outcome, name@, guild_id),
{
    if count_bytes(name.as_str()) > MAX_NICKNAME {
        NickOutcome::Reply(
            String::from_str(
                "Please ensure that the bot's new nickname is between 1 and 32 characters long.",
            ),
        )
    } else if guild_id.is_none() {
        NickOutcome::Reply(String::from_str("This command is not supported in DMs."))
    } else if name.as_str().is_empty() {
        NickOutcome::Reset
    } else {
        NickOutcome::Rename(name)
    }
}

/// The nickname that an admin gives the bot: the words of the command,
/// each followed by one space. Who is no admin gets no answer at all.
pub fn nick(is_admin: bool, words: &Vec<String>, guild_id: Option<u64>) -> (outcome: Option<
    NickOutcome,
>)
    ensures
        !is_admin ==> outcome is None,
        is_admin ==> outcome is Some && nick_effect(outcome->0, trailed(words@), guild_id),
{
    if !is_admin {
        return None;
    }
    let mut name = String::new();
    let mut i: usize = 0;
    while i < words.len()
        invariant
            i <= words.len(),
            name@ == trailed(words@.take(i as int)),
        decreases words.len() - i,
    {
        proof {
            assert(words@.take(i + 1).drop_last() =~= words@.take(i as int));
        }
        name.append(words[i].as_str());
        name.append(" ");
        i = i + 1;
    }
    proof {
        assert(words@.take(words.len() as int) =~= words@);
    }
    Some(nick_decision(name, guild_id))
}

} // verus!

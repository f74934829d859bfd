use std::collections::HashMap;

use bingus::command::admin::{
    admin_activity_add, admin_activity_alt, admin_activity_delete, admin_activity_edit,
    admin_activity_ping, admin_activity_remove, admin_activity_start, echo, nick, pin,
    AdminSubcommand, NickOutcome, PingOutcome, StartOutcome,
};
use bingus::command::data::{Activity, GuildData, MessageRef};
use bingus::command::data::ActivityError;
use bingus::command::general::{
    alt_wording, join_wording, leave_wording, activity, activity_alt, activity_delete, activity_edit, activity_join, activity_leave,
    activity_list, description_fits, parse_id, DeleteOutcome, EditRequest, ListOutcome, Outcome,
    Subcommand,
};
use bingus::util::CancelActivity;

fn stored(id: u64, name: &str, size: u8, creator: u64) -> Activity {
    let (_waiter, token) = CancelActivity::new_pair();
    Activity::new(
        String::from(name),
        String::from("about ") + name,
        String::from("1/2/2031 3:04 am"),
        id,
        size,
        creator,
        MessageRef { channel_id: 100 + id, message_id: 200 + id },
        token,
    )
}

fn guilds_with(count: u64) -> HashMap<u64, GuildData> {
    let mut store = GuildData::new(7);
    for id in 0..count {
        assert!(store.add_activity(stored(id, &format!("act{}", id), 2, 1)).is_ok());
    }
    let mut guilds = HashMap::new();
    guilds.insert(7, store);
    guilds
}

fn said(outcome: Outcome) -> String {
    match outcome {
        Outcome::Reply(text) => text,
        Outcome::Updated { .. } => panic!("the roster was updated"),
    }
}

fn shown(outcome: Outcome) -> (MessageRef, String, String) {
    match outcome {
        Outcome::Updated { message, embed } => {
            (message, embed.fields[4].value.clone(), embed.fields[5].value.clone())
        }
        Outcome::Reply(text) => panic!("refused: {}", text),
    }
}

#[test]
fn parse_id_reads_decimal_numbers() {
    assert_eq!(parse_id(Some("0")), Some(0));
    assert_eq!(parse_id(Some("42")), Some(42));
    assert_eq!(parse_id(Some("+42")), Some(42));
    assert_eq!(parse_id(Some("007")), Some(7));
    assert_eq!(parse_id(Some("18446744073709551615")), Some(u64::MAX));
    assert_eq!(parse_id(Some("18446744073709551616")), None);
    assert_eq!(parse_id(Some("99999999999999999999999999")), None);
    assert_eq!(parse_id(Some("")), None);
    assert_eq!(parse_id(Some("+")), None);
    assert_eq!(parse_id(Some("-1")), None);
    assert_eq!(parse_id(Some("4 2")), None);
    assert_eq!(parse_id(Some("4a")), None);
    assert_eq!(parse_id(Some("\u{0664}")), None);
    assert_eq!(parse_id(None), None);
}

#[test]
fn activity_names_its_parts() {
    assert_eq!(activity(Some("create")), Ok(Subcommand::Create));
    assert_eq!(activity(Some("join")), Ok(Subcommand::Join));
    assert_eq!(activity(Some("alt")), Ok(Subcommand::Alt));
    assert_eq!(activity(Some("leave")), Ok(Subcommand::Leave));
    assert_eq!(activity(Some("edit")), Ok(Subcommand::Edit));
    assert_eq!(activity(Some("delete")), Ok(Subcommand::Delete));
    assert_eq!(activity(Some("list")), Ok(Subcommand::List));
    assert_eq!(activity(None), Err(String::from("Please provide a subcommand.")));
    assert_eq!(
        activity(Some("Join")),
        Err(String::from(
            "Invalid subcommand. Valid subcommands are `create`, `join`, `alt`, `leave`, `edit`, `delete`, and `list`."
        ))
    );
}

#[test]
fn admin_activity_names_its_parts() {
    assert_eq!(bingus::command::admin::activity(false, Some("add")), None);
    assert_eq!(bingus::command::admin::activity(true, Some("add")), Some(Ok(AdminSubcommand::Add)));
    assert_eq!(bingus::command::admin::activity(true, Some("alt")), Some(Ok(AdminSubcommand::Alt)));
    assert_eq!(bingus::command::admin::activity(true, Some("remove")), Some(Ok(AdminSubcommand::Remove)));
    assert_eq!(bingus::command::admin::activity(true, Some("edit")), Some(Ok(AdminSubcommand::Edit)));
    assert_eq!(bingus::command::admin::activity(true, Some("delete")), Some(Ok(AdminSubcommand::Delete)));
    assert_eq!(bingus::command::admin::activity(true, Some("start")), Some(Ok(AdminSubcommand::Start)));
    assert_eq!(bingus::command::admin::activity(true, Some("ping")), Some(Ok(AdminSubcommand::Ping)));
    assert_eq!(
        bingus::command::admin::activity(true, None),
        Some(Err(String::from("Please provide a subcommand.")))
    );
    assert_eq!(
        bingus::command::admin::activity(true, Some("join")),
        Some(Err(String::from(
            "Invalid subcommand. Valid subcommands are `add`, `alt`, `remove`, `delete`, `start`, and `ping`."
        )))
    );
}

#[test]
fn join_shows_the_roster() {
    let mut guilds = guilds_with(1);
    let (message, members, alternates) = shown(activity_join(&mut guilds, Some(7), Some("0"), 5));
    assert_eq!(message, MessageRef { channel_id: 100, message_id: 200 });
    assert_eq!(members, "<@5>");
    assert_eq!(alternates, "None");
    assert!(guilds[&7].activity(0).map(|a| a.members.contains(&5)).unwrap_or(false));
}

#[test]
fn join_is_refused_in_words() {
    let mut guilds = guilds_with(1);
    assert_eq!(said(activity_join(&mut guilds, Some(7), None, 5)), "Invalid activity ID.");
    assert_eq!(said(activity_join(&mut guilds, Some(7), Some("x"), 5)), "Invalid activity ID.");
    assert_eq!(said(activity_join(&mut guilds, Some(7), Some("3"), 5)), "Invalid activity ID.");
    assert_eq!(
        said(activity_join(&mut guilds, None, Some("0"), 5)),
        "This command is not supported in DMs."
    );
    assert_eq!(said(activity_join(&mut guilds, None, Some("x"), 5)), "Invalid activity ID.");
    shown(activity_join(&mut guilds, Some(7), Some("0"), 5));
    assert_eq!(
        said(activity_join(&mut guilds, Some(7), Some("0"), 5)),
        "You are already in that member list."
    );
    shown(activity_join(&mut guilds, Some(7), Some("0"), 6));
    assert_eq!(
        said(activity_join(&mut guilds, Some(7), Some("0"), 8)),
        "The member list for that activity is already full."
    );
}

#[test]
fn join_in_a_new_guild_opens_its_store() {
    let mut guilds: HashMap<u64, GuildData> = HashMap::new();
    assert_eq!(said(activity_join(&mut guilds, Some(9), Some("0"), 5)), "Invalid activity ID.");
    assert_eq!(guilds.get(&9).map(|store| store.guild_id()), Some(9));
    assert_eq!(guilds.get(&9).map(|store| store.activity_id()), Some(0));
}

#[test]
fn alt_shows_the_roster_and_is_refused_in_words() {
    let mut guilds = guilds_with(1);
    let (_, members, alternates) = shown(activity_alt(&mut guilds, Some(7), Some("0"), 5));
    assert_eq!((members.as_str(), alternates.as_str()), ("None", "<@5>"));
    assert_eq!(
        said(activity_alt(&mut guilds, Some(7), Some("0"), 5)),
        "You are already in that alternate member list."
    );
    let (_, _, alternates) = shown(activity_alt(&mut guilds, Some(7), Some("0"), 6));
    assert_eq!(alternates, "<@5>, <@6>");
    assert_eq!(
        said(activity_alt(&mut guilds, Some(7), Some("0"), 8)),
        "The alternate member list for that activity is already full."
    );
}

#[test]
fn leave_takes_from_either_list() {
    let mut guilds = guilds_with(1);
    shown(activity_join(&mut guilds, Some(7), Some("0"), 5));
    shown(activity_alt(&mut guilds, Some(7), Some("0"), 6));
    let (_, members, alternates) = shown(activity_leave(&mut guilds, Some(7), Some("0"), 5));
    assert_eq!((members.as_str(), alternates.as_str()), ("None", "<@6>"));
    let (_, members, alternates) = shown(activity_leave(&mut guilds, Some(7), Some("0"), 6));
    assert_eq!((members.as_str(), alternates.as_str()), ("None", "None"));
    assert_eq!(
        said(activity_leave(&mut guilds, Some(7), Some("0"), 6)),
        "You are not in that activity's member list."
    );
}

#[test]
fn admin_commands_act_for_the_named_user() {
    let mut guilds = guilds_with(1);
    let (_, members, _) = shown(admin_activity_add(&mut guilds, Some(7), Some("5"), Some("0")));
    assert_eq!(members, "<@5>");
    let (_, _, alternates) = shown(admin_activity_alt(&mut guilds, Some(7), Some("6"), Some("0")));
    assert_eq!(alternates, "<@6>");
    let (_, members, alternates) =
        shown(admin_activity_remove(&mut guilds, Some(7), Some("5"), Some("0")));
    assert_eq!((members.as_str(), alternates.as_str()), ("None", "<@6>"));
}

#[test]
fn admin_commands_are_refused_in_words() {
    let mut guilds = guilds_with(1);
    assert_eq!(
        said(admin_activity_add(&mut guilds, Some(7), Some("x"), Some("0"))),
        "Invalid user ID."
    );
    assert_eq!(
        said(admin_activity_add(&mut guilds, Some(7), None, None)),
        "Invalid user ID."
    );
    assert_eq!(
        said(admin_activity_add(&mut guilds, Some(7), Some("5"), Some("x"))),
        "Invalid activity ID."
    );
    assert_eq!(
        said(admin_activity_add(&mut guilds, None, Some("5"), Some("0"))),
        "This command is not supported in DMs."
    );
    shown(admin_activity_add(&mut guilds, Some(7), Some("5"), Some("0")));
    assert_eq!(
        said(admin_activity_add(&mut guilds, Some(7), Some("5"), Some("0"))),
        "That user is already in that fireteam."
    );
    shown(admin_activity_add(&mut guilds, Some(7), Some("6"), Some("0")));
    assert_eq!(
        said(admin_activity_add(&mut guilds, Some(7), Some("8"), Some("0"))),
        "The fireteam for that activity is already full."
    );
    shown(admin_activity_alt(&mut guilds, Some(7), Some("8"), Some("0")));
    assert_eq!(
        said(admin_activity_alt(&mut guilds, Some(7), Some("8"), Some("0"))),
        "That user are already in that alternate fireteam."
    );
    shown(admin_activity_alt(&mut guilds, Some(7), Some("9"), Some("0")));
    assert_eq!(
        said(admin_activity_alt(&mut guilds, Some(7), Some("10"), Some("0"))),
        "The alternate fireteam for that activity is already full."
    );
    assert_eq!(
        said(admin_activity_remove(&mut guilds, Some(7), Some("11"), Some("0"))),
        "That user is not in that activity's fireteam."
    );
}

#[test]
fn delete_is_for_the_creator() {
    let mut guilds = guilds_with(2);
    match activity_delete(&mut guilds, Some(7), Some("1"), 2) {
        DeleteOutcome::Reply(text) => assert_eq!(text, "You cannot delete that activity."),
        _ => panic!("a stranger deleted the activity"),
    }
    assert!(guilds[&7].activity(1).is_some());
    match activity_delete(&mut guilds, Some(7), Some("1"), 1) {
        DeleteOutcome::Deleted { message, reply, woke } => {
            assert_eq!(message, MessageRef { channel_id: 101, message_id: 201 });
            assert_eq!(reply, "Deleted activity 1: act1.");
            assert!(!woke);
        }
        _ => panic!("the creator could not delete"),
    }
    assert!(guilds[&7].activity(1).is_none());
    assert_eq!(guilds[&7].activity_id(), 1);
}

#[test]
fn delete_is_refused_in_words() {
    let mut guilds = guilds_with(1);
    for (guild, arg, expected) in [
        (Some(7), None, "Invalid activity ID."),
        (Some(7), Some("x"), "Invalid activity ID."),
        (Some(7), Some("4"), "Invalid activity ID."),
        (None, Some("0"), "This command is not supported in DMs."),
    ] {
        match activity_delete(&mut guilds, guild, arg, 1) {
            DeleteOutcome::Reply(text) => assert_eq!(text, expected),
            _ => panic!("deleted"),
        }
    }
    assert!(guilds[&7].activity(0).is_some());
}

#[test]
fn admin_delete_needs_no_creator() {
    let mut guilds = guilds_with(1);
    assert!(matches!(
        admin_activity_delete(&mut guilds, Some(7), Some("3")),
        DeleteOutcome::Nothing
    ));
    match admin_activity_delete(&mut guilds, Some(7), Some("0")) {
        DeleteOutcome::Deleted { reply, .. } => assert_eq!(reply, "Deleted activity 0: act0."),
        _ => panic!("not deleted"),
    }
    assert!(guilds[&7].activity(0).is_none());
    match admin_activity_delete(&mut guilds, None, Some("0")) {
        DeleteOutcome::Reply(text) => assert_eq!(text, "This command is not supported in DMs."),
        _ => panic!("deleted outside a guild"),
    }
    match admin_activity_delete(&mut guilds, Some(7), None) {
        DeleteOutcome::Reply(text) => assert_eq!(text, "Invalid activity ID."),
        _ => panic!("deleted without an id"),
    }
}

#[test]
fn edit_is_for_the_creator() {
    let mut guilds = guilds_with(1);
    match activity_edit(&mut guilds, Some(7), Some("0"), 1) {
        EditRequest::Ask { guild, activity_id } => assert_eq!((guild, activity_id), (7, 0)),
        EditRequest::Reply(text) => panic!("refused: {}", text),
    }
    match activity_edit(&mut guilds, Some(7), Some("0"), 2) {
        EditRequest::Reply(text) => assert_eq!(text, "You cannot edit that activity."),
        _ => panic!("a stranger may edit"),
    }
    match admin_activity_edit(&mut guilds, Some(7), Some("0"), 2) {
        EditRequest::Ask { guild, activity_id } => assert_eq!((guild, activity_id), (7, 0)),
        EditRequest::Reply(text) => panic!("refused: {}", text),
    }
    for (guild, arg, expected) in [
        (Some(7), None, "Invalid activity ID."),
        (Some(7), Some("9"), "Invalid activity ID."),
        (None, Some("0"), "This command is not supported in DMs."),
    ] {
        match activity_edit(&mut guilds, guild, arg, 1) {
            EditRequest::Reply(text) => assert_eq!(text, expected),
            _ => panic!("may edit"),
        }
    }
}

#[test]
fn admin_start_cancels_and_starts() {
    let mut guilds = guilds_with(1);
    shown(activity_join(&mut guilds, Some(7), Some("0"), 5));
    match admin_activity_start(&mut guilds, Some(7), Some("0")) {
        StartOutcome::Started { notice, woke } => {
            assert!(!woke);
            assert_eq!(
                notice.map(|n| (n.channel_id, n.content)),
                Some((
                    100,
                    String::from("Hey <@5>! act0 is starting now. Good luck and have fun!")
                ))
            );
        }
        StartOutcome::Reply(text) => panic!("refused: {}", text),
    }
    assert!(guilds[&7].activity(0).is_none());
    match admin_activity_start(&mut guilds, Some(7), Some("0")) {
        StartOutcome::Reply(text) => assert_eq!(text, "Invalid activity ID."),
        _ => panic!("started twice"),
    }
    match admin_activity_start(&mut guilds, None, Some("0")) {
        StartOutcome::Reply(text) => assert_eq!(text, "This command is not supported in DMs."),
        _ => panic!("started outside a guild"),
    }
}

#[test]
fn admin_ping_addresses_the_fireteam() {
    let mut guilds = guilds_with(1);
    assert!(matches!(
        admin_activity_ping(&mut guilds, Some(7), Some("0")),
        PingOutcome::Nothing
    ));
    shown(activity_join(&mut guilds, Some(7), Some("0"), 5));
    match admin_activity_ping(&mut guilds, Some(7), Some("0")) {
        PingOutcome::Ping { channel_id, content } => {
            assert_eq!((channel_id, content.as_str()), (100, "<@5>"));
        }
        _ => panic!("no ping"),
    }
    match admin_activity_ping(&mut guilds, Some(7), Some("8")) {
        PingOutcome::Reply(text) => assert_eq!(text, "Invalid activity ID."),
        _ => panic!("pinged what is not there"),
    }
    assert!(guilds[&7].activity(0).is_some());
}

fn page(outcome: ListOutcome) -> (Vec<String>, String) {
    match outcome {
        ListOutcome::Page(embed) => {
            assert_eq!(embed.title, "Activity List");
            assert_eq!(embed.color, None);
            assert_eq!(embed.fields.len() % 6, 0);
            let names = embed.fields.iter().step_by(6).map(|f| f.value.clone()).collect();
            (names, embed.footer)
        }
        ListOutcome::Reply(text) => panic!("refused: {}", text),
    }
}

fn list_reply(outcome: ListOutcome) -> String {
    match outcome {
        ListOutcome::Reply(text) => text,
        ListOutcome::Page(_) => panic!("a page was listed"),
    }
}

#[test]
fn list_pages_hold_three_activities_in_order_of_id() {
    let guilds = guilds_with(7);
    let (names, footer) = page(activity_list(&guilds, Some(7), Some("1")));
    assert_eq!(names, vec!["act0", "act1", "act2"]);
    assert_eq!(footer, "Page 1/3");
    let (names, footer) = page(activity_list(&guilds, Some(7), Some("0")));
    assert_eq!(names, vec!["act0", "act1", "act2"]);
    assert_eq!(footer, "Page 1/3");
    let (names, footer) = page(activity_list(&guilds, Some(7), Some("2")));
    assert_eq!(names, vec!["act3", "act4", "act5"]);
    assert_eq!(footer, "Page 2/3");
    let (names, footer) = page(activity_list(&guilds, Some(7), Some("3")));
    assert_eq!(names, vec!["act6"]);
    assert_eq!(footer, "Page 3/3");
}

#[test]
fn list_entry_has_six_fields() {
    let mut guilds = guilds_with(1);
    shown(activity_join(&mut guilds, Some(7), Some("0"), 5));
    shown(activity_alt(&mut guilds, Some(7), Some("0"), 6));
    match activity_list(&guilds, Some(7), Some("1")) {
        ListOutcome::Page(embed) => {
            let fields: Vec<(&str, &str, bool)> = embed
                .fields
                .iter()
                .map(|f| (f.name.as_str(), f.value.as_str(), f.inline))
                .collect();
            assert_eq!(
                fields,
                vec![
                    ("Activity:", "act0", true),
                    ("Time:", "1/2/2031 3:04 am", true),
                    ("Activity ID:", "0", true),
                    ("Description:", "about act0", false),
                    ("Member List:", "<@5>", false),
                    ("Alternate Members:", "<@6>", false),
                ]
            );
            assert_eq!(embed.footer, "Page 1/1");
        }
        ListOutcome::Reply(text) => panic!("refused: {}", text),
    }
}

#[test]
fn list_is_refused_in_words() {
    let guilds = guilds_with(4);
    assert_eq!(
        list_reply(activity_list(&guilds, None, Some("1"))),
        "This command is not supported in DMs."
    );
    assert_eq!(list_reply(activity_list(&guilds, Some(7), None)), "Invalid page number.");
    assert_eq!(list_reply(activity_list(&guilds, Some(7), Some("x"))), "Invalid page number.");
    assert_eq!(
        list_reply(activity_list(&guilds, Some(8), Some("1"))),
        "No activities have been created in this server. Be the first to make one!"
    );
    assert_eq!(
        list_reply(activity_list(&guilds, Some(7), Some("3"))),
        "That page number is out of range. The maximum page number is 2"
    );
    assert_eq!(
        list_reply(activity_list(&guilds, Some(7), Some("18446744073709551615"))),
        "That page number is out of range. The maximum page number is 2"
    );
    let empty = guilds_with(0);
    assert_eq!(
        list_reply(activity_list(&empty, Some(7), Some("1"))),
        "No activities are currently scheduled in this server."
    );
}

#[test]
fn description_of_1024_bytes_fits() {
    assert!(description_fits(""));
    assert!(description_fits(&"a".repeat(1024)));
    assert!(!description_fits(&"a".repeat(1025)));
    assert!(description_fits(&"\u{e9}".repeat(512)));
    assert!(!description_fits(&"\u{e9}".repeat(513)));
}

#[test]
fn echo_repeats_the_words() {
    let words = vec![String::from("hello"), String::from("there"), String::from("all")];
    assert_eq!(echo(true, &words), Some(String::from("hello there all")));
    assert_eq!(echo(true, &vec![String::from("one")]), Some(String::from("one")));
    assert_eq!(echo(true, &Vec::new()), Some(String::new()));
    assert_eq!(echo(false, &words), None);
}

#[test]
fn pin_reads_the_message_id() {
    assert_eq!(pin(true, Some("123")), Some(Ok(123)));
    assert_eq!(pin(true, Some("abc")), Some(Err(String::from("Please enter a valid message ID"))));
    assert_eq!(pin(true, None), Some(Err(String::from("Please enter a valid message ID"))));
    assert_eq!(pin(false, Some("123")), None);
}

#[test]
fn nick_is_made_of_the_words() {
    let words = vec![String::from("Sir"), String::from("Bingus")];
    match nick(true, &words, Some(7)) {
        Some(NickOutcome::Rename(name)) => assert_eq!(name, "Sir Bingus "),
        _ => panic!("no new nickname"),
    }
    assert!(matches!(nick(true, &Vec::new(), Some(7)), Some(NickOutcome::Reset)));
    assert!(nick(false, &words, Some(7)).is_none());
    match nick(true, &words, None) {
        Some(NickOutcome::Reply(text)) => assert_eq!(text, "This command is not supported in DMs."),
        _ => panic!("renamed outside a guild"),
    }
}

#[test]
fn nick_of_32_bytes_fits() {
    let fits = vec!["a".repeat(31)];
    match nick(true, &fits, Some(7)) {
        Some(NickOutcome::Rename(name)) => assert_eq!(name.len(), 32),
        _ => panic!("a nickname of 32 bytes was refused"),
    }
    let long = vec!["a".repeat(32)];
    match nick(true, &long, None) {
        Some(NickOutcome::Reply(text)) => assert_eq!(
            text,
            "Please ensure that the bot's new nickname is between 1 and 32 characters long."
        ),
        _ => panic!("a nickname of 33 bytes was taken"),
    }
}

#[test]
fn wording_of_the_member_commands() {
    let join = join_wording();
    assert_eq!(join.text(ActivityError::FireteamFull), "The member list for that activity is already full.");
    assert_eq!(join.text(ActivityError::MemberAlreadyInFireteam), "You are already in that member list.");
    assert_eq!(
        join.text(ActivityError::MemberNotInAlternate),
        "Attempted to move you to the member list, but you were not an alternate. Please try again."
    );
    for other in [
        ActivityError::MemberNotInFireteam,
        ActivityError::AlternateFull,
        ActivityError::MemberAlreadyInAlternate,
    ] {
        assert_eq!(join.text(other), "Some other error occurred adding you to the member list.");
    }
    let alt = alt_wording();
    assert_eq!(
        alt.text(ActivityError::AlternateFull),
        "The alternate member list for that activity is already full."
    );
    assert_eq!(
        alt.text(ActivityError::MemberAlreadyInAlternate),
        "You are already in that alternate member list."
    );
    assert_eq!(
        alt.text(ActivityError::FireteamFull),
        "Some other error occurred adding you to the member list."
    );
    let leave = leave_wording();
    assert_eq!(
        leave.text(ActivityError::MemberNotInAlternate),
        "You are not in that activity's member list."
    );
    assert_eq!(
        leave.text(ActivityError::MemberNotInFireteam),
        "Some other error occurred removing you from the member list."
    );
}

#[test]
fn wording_of_the_admin_commands() {
    let add = bingus::command::admin::add_wording();
    assert_eq!(add.text(ActivityError::FireteamFull), "The fireteam for that activity is already full.");
    assert_eq!(add.text(ActivityError::MemberAlreadyInFireteam), "That user is already in that fireteam.");
    assert_eq!(
        add.text(ActivityError::MemberNotInAlternate),
        "Attempted to move that user to the fireteam, but they were not an alternate. Please try again."
    );
    assert_eq!(
        add.text(ActivityError::AlternateFull),
        "Some other error occurred adding that user to the fireteam."
    );
    let alt = bingus::command::admin::alt_wording();
    assert_eq!(
        alt.text(ActivityError::AlternateFull),
        "The alternate fireteam for that activity is already full."
    );
    assert_eq!(
        alt.text(ActivityError::MemberAlreadyInAlternate),
        "That user are already in that alternate fireteam."
    );
    let remove = bingus::command::admin::remove_wording();
    assert_eq!(
        remove.text(ActivityError::MemberNotInAlternate),
        "That user is not in that activity's fireteam."
    );
    assert_eq!(
        remove.text(ActivityError::FireteamFull),
        "Some other error occurred removing that user from the fireteam."
    );
}

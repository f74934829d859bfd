use std::collections::HashMap;
use std::task::{Wake, Waker};
use std::sync::Arc;

use bingus::command::data::{Activity, GuildData, MessageRef};
use bingus::command::general::{
    activity_create, activity_delete, can_create, CreateOutcome, DeleteOutcome, NewActivity,
};
use bingus::command::imp::{
    delay_until, max_day_value, parse_date_time, render_start_notice, reschedule, start_activity,
    start_notice, Delay, EditOutcome, Instant, ScheduleAction, ScheduleEvent, ScheduleState,
    StartTime, ZONE_WEST,
};
use bingus::util::CancelActivity;

struct Quiet;

impl Wake for Quiet {
    fn wake(self: Arc<Self>) {}
}

fn quiet_waker() -> Waker {
    Waker::from(Arc::new(Quiet))
}

fn start(year: i32, month: u32, day: u32, hour: u32, minute: u32) -> StartTime {
    StartTime { year, month, day, hour, minute }
}

fn request(name: &str, at: StartTime, size: u8, author: u64) -> NewActivity {
    NewActivity {
        name: String::from(name),
        description: String::from("Bring snacks"),
        start: at,
        date: String::from("12/24/2031 7:30 pm"),
        size,
        author,
        message: MessageRef { channel_id: 50, message_id: 60 },
    }
}

fn parsed(text: &str) -> Option<StartTime> {
    parse_date_time(text).map(|(at, _)| at)
}

#[test]
fn max_day_value_of_each_month() {
    let days: Vec<u32> = (1..=12).map(max_day_value).collect();
    assert_eq!(days, vec![31, 28, 31, 30, 31, 30, 31, 31, 30, 31, 30, 31]);
}

#[test]
fn zone_is_five_hours_west() {
    assert_eq!(ZONE_WEST, 5 * 3600);
}

#[test]
fn parse_date_time_reads_an_evening() {
    let (at, shown) = match parse_date_time("12/24/2031 7:30 PM") {
        Some(read) => read,
        None => panic!("the start time was refused"),
    };
    assert_eq!(at, start(2031, 12, 24, 19, 30));
    assert_eq!(shown, "12/24/2031 7:30 pm");
}

#[test]
fn parse_date_time_reads_a_morning() {
    assert_eq!(parsed("1/2/2001 1:00 am"), Some(start(2001, 1, 2, 1, 0)));
    assert_eq!(parsed("01/02/2099 11:59 Am"), Some(start(2099, 1, 2, 11, 59)));
}

#[test]
fn parse_date_time_keeps_twelve() {
    assert_eq!(parsed("6/15/2031 12:05 pm"), Some(start(2031, 6, 15, 12, 5)));
    assert_eq!(parsed("6/15/2031 12:05 am"), Some(start(2031, 6, 15, 12, 5)));
}

#[test]
fn parse_date_time_takes_a_plus_sign() {
    assert_eq!(parsed("+3/+4/+2031 +5:+06 pM"), Some(start(2031, 3, 4, 17, 6)));
}

#[test]
fn parse_date_time_holds_the_day_to_the_month() {
    assert_eq!(parsed("2/28/2031 1:00 am"), Some(start(2031, 2, 28, 1, 0)));
    assert_eq!(parsed("2/29/2032 1:00 am"), None);
    assert_eq!(parsed("4/30/2031 1:00 am"), Some(start(2031, 4, 30, 1, 0)));
    assert_eq!(parsed("4/31/2031 1:00 am"), None);
    assert_eq!(parsed("12/31/2031 1:00 am"), Some(start(2031, 12, 31, 1, 0)));
    assert_eq!(parsed("12/32/2031 1:00 am"), None);
}

#[test]
fn parse_date_time_refuses_what_is_out_of_range() {
    assert_eq!(parsed("0/10/2031 1:00 am"), None);
    assert_eq!(parsed("13/10/2031 1:00 am"), None);
    assert_eq!(parsed("5/0/2031 1:00 am"), None);
    assert_eq!(parsed("5/10/2000 1:00 am"), None);
    assert_eq!(parsed("5/10/2100 1:00 am"), None);
    assert_eq!(parsed("5/10/-2031 1:00 am"), None);
    assert_eq!(parsed("5/10/2031 0:00 am"), None);
    assert_eq!(parsed("5/10/2031 13:00 am"), None);
    assert_eq!(parsed("5/10/2031 1:60 am"), None);
    assert_eq!(parsed("99999999999999999999999/10/2031 1:00 am"), None);
}

#[test]
fn parse_date_time_refuses_another_shape() {
    assert_eq!(parsed(""), None);
    assert_eq!(parsed("5/10/2031"), None);
    assert_eq!(parsed("5/10/2031 1:00"), None);
    assert_eq!(parsed("5/10/2031 1:00 xm"), None);
    assert_eq!(parsed("5/10/2031 1:00 am "), None);
    assert_eq!(parsed(" 5/10/2031 1:00 am"), None);
    assert_eq!(parsed("5/10/2031  1:00 am"), None);
    assert_eq!(parsed("5/10/2031 1:00 am now"), None);
    assert_eq!(parsed("5/10 1:00 am"), None);
    assert_eq!(parsed("5/10/2031/1 1:00 am"), None);
    assert_eq!(parsed("5/10/2031 1:00:00 am"), None);
    assert_eq!(parsed("5/10/2031 1 am"), None);
    assert_eq!(parsed("5-10-2031 1:00 am"), None);
    assert_eq!(parsed("5/x/2031 1:00 am"), None);
    assert_eq!(parsed("5//2031 1:00 am"), None);
    assert_eq!(parsed("5/10/2031 1:00 amm"), None);
}

#[test]
fn timestamp_is_taken_five_hours_west() {
    assert_eq!(start(2031, 12, 24, 19, 30).timestamp(), Some(1955925000));
    assert_eq!(start(2021, 1, 1, 1, 0).timestamp(), Some(1609480800));
    assert_eq!(start(2024, 2, 28, 12, 5).timestamp(), Some(1709139900));
}

#[test]
fn timestamp_of_a_day_that_does_not_exist() {
    assert_eq!(start(2031, 2, 30, 1, 0).timestamp(), None);
    assert_eq!(start(2031, 13, 1, 1, 0).timestamp(), None);
    assert_eq!(start(2031, 1, 1, 24, 0).timestamp(), None);
}

#[test]
fn delay_until_a_later_second() {
    let now = Instant { seconds: 100, nanos: 250_000_000 };
    assert_eq!(delay_until(103, now), Some(Delay { seconds: 2, nanos: 750_000_000 }));
    assert_eq!(delay_until(101, now), Some(Delay { seconds: 0, nanos: 750_000_000 }));
}

#[test]
fn delay_until_now_is_zero() {
    let now = Instant { seconds: 100, nanos: 0 };
    assert_eq!(delay_until(100, now), Some(Delay { seconds: 0, nanos: 0 }));
}

#[test]
fn delay_until_the_past_is_refused() {
    assert_eq!(delay_until(100, Instant { seconds: 100, nanos: 1 }), None);
    assert_eq!(delay_until(99, Instant { seconds: 100, nanos: 0 }), None);
    assert_eq!(delay_until(i64::MIN, Instant { seconds: i64::MAX, nanos: u32::MAX }), None);
}

#[test]
fn delay_until_across_the_whole_range() {
    let now = Instant { seconds: i64::MIN, nanos: 0 };
    assert_eq!(delay_until(i64::MAX, now), Some(Delay { seconds: u64::MAX, nanos: 0 }));
    let before_epoch = Instant { seconds: -2, nanos: 500_000_000 };
    assert_eq!(delay_until(0, before_epoch), Some(Delay { seconds: 1, nanos: 500_000_000 }));
}

#[test]
fn first_event_decides_the_schedule() {
    assert_eq!(
        ScheduleState::Scheduled.step(ScheduleEvent::Elapsed),
        (ScheduleState::Fired, ScheduleAction::Start)
    );
    assert_eq!(
        ScheduleState::Scheduled.step(ScheduleEvent::Cancel),
        (ScheduleState::Cancelled, ScheduleAction::Nothing)
    );
}

#[test]
fn later_events_change_nothing() {
    for state in [ScheduleState::Fired, ScheduleState::Cancelled] {
        for event in [ScheduleEvent::Elapsed, ScheduleEvent::Cancel] {
            assert_eq!(state.step(event), (state, ScheduleAction::Nothing));
        }
    }
}

#[test]
fn no_run_of_events_starts_twice() {
    let runs = [
        vec![ScheduleEvent::Elapsed, ScheduleEvent::Cancel, ScheduleEvent::Elapsed],
        vec![ScheduleEvent::Cancel, ScheduleEvent::Elapsed, ScheduleEvent::Elapsed],
        vec![ScheduleEvent::Elapsed, ScheduleEvent::Elapsed],
        vec![ScheduleEvent::Cancel, ScheduleEvent::Cancel],
    ];
    for run in runs {
        let mut state = ScheduleState::Scheduled;
        let mut starts = 0;
        for event in run.iter() {
            let (next, action) = state.step(*event);
            if action == ScheduleAction::Start {
                starts += 1;
            }
            state = next;
        }
        if run[0] == ScheduleEvent::Elapsed {
            assert_eq!((state, starts), (ScheduleState::Fired, 1));
        } else {
            assert_eq!((state, starts), (ScheduleState::Cancelled, 0));
        }
    }
}

fn stored(members: &[u64], alternates: &[u64]) -> Activity {
    let (_waiter, token) = CancelActivity::new_pair();
    let mut activity = Activity::new(
        String::from("Vault of Glass"),
        String::from("d"),
        String::from("t"),
        0,
        6,
        1,
        MessageRef { channel_id: 50, message_id: 60 },
        token,
    );
    for member in members {
        assert_eq!(activity.add_member(*member), Ok(()));
    }
    for alternate in alternates {
        assert_eq!(activity.add_member_alt(*alternate), Ok(()));
    }
    activity
}

#[test]
fn start_notice_calls_the_fireteam_in_order() {
    let activity = stored(&[1, 2, 3], &[9]);
    let notice = render_start_notice(&activity, &vec![3, 1, 2]);
    assert_eq!(notice.channel_id, 50);
    assert_eq!(
        notice.content,
        "Hey <@3>, <@1>, and <@2>! Vault of Glass is starting now. Good luck and have fun!"
    );
}

#[test]
fn start_notice_for_one_and_for_two() {
    let activity = stored(&[1, 2], &[]);
    assert_eq!(
        render_start_notice(&activity, &vec![1]).content,
        "Hey <@1>! Vault of Glass is starting now. Good luck and have fun!"
    );
    assert_eq!(
        render_start_notice(&activity, &vec![2, 1]).content,
        "Hey <@2>, and <@1>! Vault of Glass is starting now. Good luck and have fun!"
    );
}

#[test]
fn start_notice_leaves_alternates_out() {
    let activity = stored(&[4], &[9, 8]);
    let notice = match start_notice(&activity) {
        Some(notice) => notice,
        None => panic!("no notice for a fireteam of one"),
    };
    assert_eq!(
        notice.content,
        "Hey <@4>! Vault of Glass is starting now. Good luck and have fun!"
    );
    assert!(start_notice(&stored(&[], &[9])).is_none());
}

#[test]
fn start_activity_removes_and_notifies() {
    let mut guilds: HashMap<u64, GuildData> = HashMap::new();
    let mut store = GuildData::new(7);
    assert!(store.add_activity(stored(&[1], &[2])).is_ok());
    guilds.insert(7, store);
    let notice = start_activity(&mut guilds, 7, 0);
    assert_eq!(
        notice.map(|n| (n.channel_id, n.content)),
        Some((
            50,
            String::from("Hey <@1>! Vault of Glass is starting now. Good luck and have fun!")
        ))
    );
    assert!(guilds[&7].activity(0).is_none());
    assert_eq!(guilds[&7].activity_id(), 0);
}

#[test]
fn start_activity_without_members_says_nothing() {
    let mut guilds: HashMap<u64, GuildData> = HashMap::new();
    let mut store = GuildData::new(7);
    assert!(store.add_activity(stored(&[], &[2])).is_ok());
    guilds.insert(7, store);
    assert!(start_activity(&mut guilds, 7, 0).is_none());
    assert!(guilds[&7].activity(0).is_none());
}

#[test]
fn start_activity_of_what_is_gone_does_nothing() {
    let mut guilds: HashMap<u64, GuildData> = HashMap::new();
    assert!(start_activity(&mut guilds, 7, 0).is_none());
    assert!(guilds.is_empty());
    guilds.insert(7, GuildData::new(7));
    assert!(start_activity(&mut guilds, 7, 3).is_none());
    assert_eq!(guilds[&7].activity_id(), 0);
}

#[test]
fn activity_scheduled_for_now_fires_and_leaves_the_store() {
    let mut guilds: HashMap<u64, GuildData> = HashMap::new();
    let at = start(2031, 12, 24, 19, 30);
    let now = Instant { seconds: 1955925000, nanos: 0 };
    assert!(can_create(&guilds, Some(7)));
    let outcome = activity_create(&mut guilds, Some(7), request("Raid", at, 3, 1), now);
    let (id, delay, waiter) = match outcome {
        CreateOutcome::Scheduled { activity_id, delay, waiter, .. } => (activity_id, delay, waiter),
        _ => panic!("the activity was not scheduled"),
    };
    assert_eq!(id, 0);
    assert_eq!(delay, Delay { seconds: 0, nanos: 0 });
    for member in [10, 11] {
        match guilds.get_mut(&7).and_then(|store| store.activity_mut(id)) {
            Some(activity) => assert_eq!(activity.add_member(member), Ok(())),
            None => panic!("the activity is missing"),
        }
    }
    assert!(!waiter.poll(&quiet_waker()));
    let (state, action) = ScheduleState::Scheduled.step(ScheduleEvent::Elapsed);
    assert_eq!((state, action), (ScheduleState::Fired, ScheduleAction::Start));
    let notice = match start_activity(&mut guilds, 7, id) {
        Some(notice) => notice,
        None => panic!("no notice"),
    };
    assert_eq!(notice.channel_id, 50);
    assert!(
        notice.content == "Hey <@10>, and <@11>! Raid is starting now. Good luck and have fun!"
            || notice.content
                == "Hey <@11>, and <@10>! Raid is starting now. Good luck and have fun!"
    );
    assert!(guilds[&7].activity(id).is_none());
}

#[test]
fn deleted_activity_is_cancelled_and_never_starts() {
    let mut guilds: HashMap<u64, GuildData> = HashMap::new();
    let at = start(2031, 12, 24, 19, 30);
    let now = Instant { seconds: 1955925000 - 3600, nanos: 0 };
    let outcome = activity_create(&mut guilds, Some(7), request("Raid", at, 3, 1), now);
    let (id, delay, waiter) = match outcome {
        CreateOutcome::Scheduled { activity_id, delay, waiter, .. } => (activity_id, delay, waiter),
        _ => panic!("the activity was not scheduled"),
    };
    assert_eq!(delay, Delay { seconds: 3600, nanos: 0 });
    assert!(!waiter.poll(&quiet_waker()));
    match activity_delete(&mut guilds, Some(7), Some("0"), 1) {
        DeleteOutcome::Deleted { message, reply, woke } => {
            assert_eq!(message, MessageRef { channel_id: 50, message_id: 60 });
            assert_eq!(reply, "Deleted activity 0: Raid.");
            assert!(woke);
        }
        _ => panic!("the activity was not deleted"),
    }
    assert!(waiter.poll(&quiet_waker()));
    let (state, action) = ScheduleState::Scheduled.step(ScheduleEvent::Cancel);
    assert_eq!((state, action), (ScheduleState::Cancelled, ScheduleAction::Nothing));
    assert_eq!(state.step(ScheduleEvent::Elapsed), (ScheduleState::Cancelled, ScheduleAction::Nothing));
    assert!(guilds[&7].activity(id).is_none());
}

#[test]
fn create_refuses_a_start_in_the_past() {
    let mut guilds: HashMap<u64, GuildData> = HashMap::new();
    let at = start(2031, 12, 24, 19, 30);
    let now = Instant { seconds: 1955925000, nanos: 1 };
    match activity_create(&mut guilds, Some(7), request("Raid", at, 3, 1), now) {
        CreateOutcome::Reply(text) => assert_eq!(
            text,
            "Invalid date and time. Please enter a valid date and time that is in the future."
        ),
        _ => panic!("a start in the past was taken"),
    }
    assert!(guilds.is_empty());
}

#[test]
fn create_refuses_a_day_that_does_not_exist() {
    let mut guilds: HashMap<u64, GuildData> = HashMap::new();
    let at = start(2031, 2, 30, 19, 30);
    let now = Instant { seconds: 0, nanos: 0 };
    match activity_create(&mut guilds, Some(7), request("Raid", at, 3, 1), now) {
        CreateOutcome::Reply(text) => assert_eq!(
            text,
            "Invalid date and time. Please enter a valid date and time that is in the future."
        ),
        _ => panic!("a day that does not exist was taken"),
    }
    assert!(guilds.is_empty());
}

#[test]
fn create_outside_a_guild_does_nothing() {
    let mut guilds: HashMap<u64, GuildData> = HashMap::new();
    let at = start(2031, 12, 24, 19, 30);
    let now = Instant { seconds: 0, nanos: 0 };
    assert!(can_create(&guilds, None));
    assert!(matches!(
        activity_create(&mut guilds, None, request("Raid", at, 3, 1), now),
        CreateOutcome::Ignored
    ));
    assert!(guilds.is_empty());
}

#[test]
fn create_shows_the_new_roster() {
    let mut guilds: HashMap<u64, GuildData> = HashMap::new();
    let at = start(2031, 12, 24, 19, 30);
    let now = Instant { seconds: 0, nanos: 0 };
    let first = activity_create(&mut guilds, Some(7), request("Raid", at, 3, 1), now);
    let second = activity_create(&mut guilds, Some(7), request("Dungeon", at, 2, 5), now);
    match (first, second) {
        (
            CreateOutcome::Scheduled { activity_id: one, .. },
            CreateOutcome::Scheduled { activity_id: two, embed, .. },
        ) => {
            assert_eq!((one, two), (0, 1));
            assert_eq!(embed.color, Some(0x212121));
            assert_eq!(embed.fields[0].value, "Dungeon");
            assert_eq!(embed.fields[2].value, "1");
            assert_eq!(embed.fields[4].value, "None");
        }
        _ => panic!("the activities were not scheduled"),
    }
    let stored = guilds[&7].activity(1);
    assert_eq!(stored.map(|a| (a.name.as_str(), a.size, a.creator)), Some(("Dungeon", 2, 5)));
}

#[test]
fn reschedule_cancels_the_old_timer_and_keeps_the_roster() {
    let mut guilds: HashMap<u64, GuildData> = HashMap::new();
    let at = start(2031, 12, 24, 19, 30);
    let now = Instant { seconds: 1955925000 - 10, nanos: 0 };
    let old_waiter = match activity_create(&mut guilds, Some(7), request("Raid", at, 3, 1), now) {
        CreateOutcome::Scheduled { waiter, .. } => waiter,
        _ => panic!("the activity was not scheduled"),
    };
    match guilds.get_mut(&7).and_then(|store| store.activity_mut(0)) {
        Some(activity) => assert_eq!(activity.add_member(10), Ok(())),
        None => panic!("the activity is missing"),
    }
    assert!(!old_waiter.poll(&quiet_waker()));
    let later = start(2031, 12, 24, 20, 30);
    let outcome = reschedule(
        &mut guilds,
        7,
        0,
        later,
        String::from("12/24/2031 8:30 pm"),
        String::from("Bring more snacks"),
        now,
    );
    let new_waiter = match outcome {
        EditOutcome::Rescheduled { message, embed, reply, delay, waiter, woke } => {
            assert_eq!(message, MessageRef { channel_id: 50, message_id: 60 });
            assert_eq!(reply, "Activity 0 (Raid) updated successfully.");
            assert_eq!(delay, Delay { seconds: 3610, nanos: 0 });
            assert_eq!(embed.fields[1].value, "12/24/2031 8:30 pm");
            assert_eq!(embed.fields[3].value, "Bring more snacks");
            assert_eq!(embed.fields[4].value, "<@10>");
            assert!(woke);
            waiter
        }
        EditOutcome::Reply(text) => panic!("refused: {}", text),
    };
    assert!(old_waiter.poll(&quiet_waker()));
    assert!(!new_waiter.poll(&quiet_waker()));
    let token = guilds[&7].activity(0).map(|a| a.cancel_token.clone());
    assert_eq!(token.map(|t| t.cancel()), Some(true));
    assert!(new_waiter.poll(&quiet_waker()));
    let kept = guilds[&7].activity(0);
    assert_eq!(kept.map(|a| a.members.contains(&10)), Some(true));
    assert_eq!(kept.map(|a| a.description.as_str()), Some("Bring more snacks"));
}

#[test]
fn reschedule_refuses_the_past_and_changes_nothing() {
    let mut guilds: HashMap<u64, GuildData> = HashMap::new();
    let at = start(2031, 12, 24, 19, 30);
    let now = Instant { seconds: 1955925000 - 10, nanos: 0 };
    let waiter = match activity_create(&mut guilds, Some(7), request("Raid", at, 3, 1), now) {
        CreateOutcome::Scheduled { waiter, .. } => waiter,
        _ => panic!("the activity was not scheduled"),
    };
    let earlier = start(2031, 12, 24, 18, 30);
    let outcome = reschedule(
        &mut guilds,
        7,
        0,
        earlier,
        String::from("12/24/2031 6:30 pm"),
        String::from("x"),
        now,
    );
    match outcome {
        EditOutcome::Reply(text) => assert_eq!(
            text,
            "Invalid date and time. Please enter a valid date and time that is in the future."
        ),
        _ => panic!("a start in the past was taken"),
    }
    assert!(!waiter.poll(&quiet_waker()));
    assert_eq!(guilds[&7].activity(0).map(|a| a.description.as_str()), Some("Bring snacks"));
}

#[test]
fn reschedule_of_what_is_gone_is_answered() {
    let mut guilds: HashMap<u64, GuildData> = HashMap::new();
    let at = start(2031, 12, 24, 19, 30);
    let now = Instant { seconds: 0, nanos: 0 };
    let missing =
        "Could not get the old activity from GuildData. Please contact Factorial about this.";
    match reschedule(&mut guilds, 7, 0, at, String::from("t"), String::from("d"), now) {
        EditOutcome::Reply(text) => assert_eq!(text, missing),
        _ => panic!("an activity that is not there was rescheduled"),
    }
    assert!(guilds.is_empty());
    guilds.insert(7, GuildData::new(7));
    match reschedule(&mut guilds, 7, 0, at, String::from("t"), String::from("d"), now) {
        EditOutcome::Reply(text) => assert_eq!(text, missing),
        _ => panic!("an activity that is not there was rescheduled"),
    }
}

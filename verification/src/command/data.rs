//! Activities, their rosters, and the per-guild store that owns them.

use std::collections::hash_map::Entry;
use std::collections::HashMap;
use std::collections::HashSet;

use itertools::Itertools;

use vstd::prelude::*;
use vstd::std_specs::iter::IteratorSpec;
use vstd::string::StringExecFns;

use crate::text::decimal;
use crate::text::decimal_string;
use crate::text::mention_field;
use crate::text::render_mention_field;
use crate::text::same_text;
use crate::util::ActivityToken;

verus! {

broadcast use vstd::std_specs::hash::group_hash_axioms;

/// Why a roster operation was refused.
#[non_exhaustive]
#[derive(Copy, Clone, Eq, PartialEq, Ord, PartialOrd, Hash, Debug, Structural)]
pub enum ActivityError {
    FireteamFull,
    MemberAlreadyInFireteam,
    MemberNotInFireteam,
    AlternateFull,
    MemberAlreadyInAlternate,
    MemberNotInAlternate,
}

/// A roster as mathematical values: the capacity, the fireteam (a set) and
/// the alternates (in the order in which they joined).
pub struct Roster {
    pub size: nat,
    pub members: Set<u64>,
    pub alternate: Seq<u64>,
}

/// One step on a roster.
pub enum RosterOp {
    AddMember(u64),
    AddMemberAlt(u64),
    RemoveMember(u64),
    RemoveMemberAlt(u64),
}

impl Roster {
    /// Neither list is over capacity, no alternate is listed twice, and
    /// nobody is on both lists.
    pub open spec fn wf(self) -> bool {
        &&& self.members.finite()
        &&& self.members.len() <= self.size
        &&& self.alternate.len() <= self.size
        &&& self.alternate.no_duplicates()
        &&& forall|user: u64| !(self.members.contains(user) && self.alternate.contains(user))
    }

    /// Whether `user` may join the fireteam. A member cannot join twice, and
    /// a full fireteam takes nobody.
    pub open spec fn add_member_result(self, user: u64) -> Result<(), ActivityError> {
        if self.members.contains(user) {
            Err(ActivityError::MemberAlreadyInFireteam)
        } else if self.members.len() >= self.size {
            Err(ActivityError::FireteamFull)
        } else {
            Ok(())
        }
    }

    /// The roster after `user` asked to join the fireteam. An alternate who
    /// joins is promoted: they leave the alternates.
    pub open spec fn add_member(self, user: u64) -> Roster {
        if self.add_member_result(user) is Ok {
            Roster {
                members: self.members.insert(user),
                alternate: without_first(self.alternate, user),
                ..self
            }
        } else {
            self
        }
    }

    /// Whether `user` may join the alternates.
    pub open spec fn add_member_alt_result(self, user: u64) -> Result<(), ActivityError> {
        if self.alternate.contains(user) {
            Err(ActivityError::MemberAlreadyInAlternate)
        } else if self.alternate.len() >= self.size {
            Err(ActivityError::AlternateFull)
        } else {
            Ok(())
        }
    }

    /// The roster after `user` asked to join the alternates. A fireteam
    /// member who does so is demoted: they leave the fireteam.
    pub open spec fn add_member_alt(self, user: u64) -> Roster {
        if self.add_member_alt_result(user) is Ok {
            Roster {
                members: self.members.remove(user),
                alternate: self.alternate.push(user),
                ..self
            }
        } else {
            self
        }
    }

    /// Whether `user` can leave the fireteam: they are on it.
    pub open spec fn remove_member_result(self, user: u64) -> Result<(), ActivityError> {
        if self.members.contains(user) {
            Ok(())
        } else {
            Err(ActivityError::MemberNotInFireteam)
        }
    }

    /// The roster after `user` was asked to leave the fireteam.
    pub open spec fn remove_member(self, user: u64) -> Roster {
        Roster { members: self.members.remove(user), ..self }
    }

    /// Whether `user` can leave the alternates: they are among them.
    pub open spec fn remove_member_alt_result(self, user: u64) -> Result<(), ActivityError> {
        if self.alternate.contains(user) {
            Ok(())
        } else {
            Err(ActivityError::MemberNotInAlternate)
        }
    }

    /// The roster after `user` was asked to leave the alternates.
    pub open spec fn remove_member_alt(self, user: u64) -> Roster {
        Roster { alternate: without_first(self.alternate, user), ..self }
    }

    /// Whether `user` can leave: they are on one of the lists.
    pub open spec fn leave_result(self, user: u64) -> Result<(), ActivityError> {
        if self.members.contains(user) {
            Ok(())
        } else {
            self.remove_member_alt_result(user)
        }
    }

    /// The roster after `user` left: the fireteam where they were on it,
    /// and the alternates otherwise.
    pub open spec fn leave(self, user: u64) -> Roster {
        if self.members.contains(user) {
            self.remove_member(user)
        } else {
            self.remove_member_alt(user)
        }
    }

    /// The roster after one step, refused or not.
    pub open spec fn apply(self, op: RosterOp) -> Roster {
        match op {
            RosterOp::AddMember(user) => self.add_member(user),
            RosterOp::AddMemberAlt(user) => self.add_member_alt(user),
            RosterOp::RemoveMember(user) => self.remove_member(user),
            RosterOp::RemoveMemberAlt(user) => self.remove_member_alt(user),
        }
    }

    /// The roster after the steps of `ops`, first to last.
    pub open spec fn apply_all(self, ops: Seq<RosterOp>) -> Roster
        decreases ops.len(),
    {
        if ops.len() == 0 {
            self
        } else {
            self.apply_all(ops.drop_last()).apply(ops.last())
        }
    }
}

/// The message that shows an activity's roster: what the commands read of it.
#[derive(Copy, Clone, Eq, PartialEq, Hash, Debug, Structural)]
pub struct MessageRef {
    pub channel_id: u64,
    pub message_id: u64,
}

/// One titled entry of an embed.
pub struct EmbedField {
    pub name: String,
    pub value: String,
    pub inline: bool,
}

impl EmbedField {
    /// Whether the field has this title, this text and this placement.
    pub open spec fn is(&self, name: Seq<char>, value: Seq<char>, inline: bool) -> bool {
        self.name@ == name && self.value@ == value && self.inline == inline
    }

    /// A field with the title `name`.
    pub fn new(name: &str, value: String, inline: bool) -> (field: Self)
        ensures
            field.is(name@, value@, inline),
    {
        EmbedField { name: String::from_str(name), value, inline }
    }
}

/// An embed as the bot fills it: what the platform's builder is given.
pub struct RosterEmbed {
    pub color: Option<u32>,
    pub title: String,
    pub fields: Vec<EmbedField>,
    pub footer: String,
}

/// One scheduled group event.
pub struct Activity {
    pub name: String,
    pub description: String,
    pub date: String,
    pub id: u64,
    pub size: u8,
    pub creator: u64,
    pub embed_msg: MessageRef,
    pub members: HashSet<u64>,
    pub alternate: Vec<u64>,
    pub cancel_token: ActivityToken,
}

impl Clone for Activity {
    fn clone(&self) -> (copy: Self)
        ensures
            copy.same_details(self),
            copy.roster() == self.roster(),
    {
        Activity {
            name: self.name.clone(),
            description: self.description.clone(),
            date: self.date.clone(),
            id: self.id,
            size: self.size,
            creator: self.creator,
            embed_msg: self.embed_msg,
            members: copy_set(&self.members),
            alternate: self.alternate.clone(),
            cancel_token: self.cancel_token.clone(),
        }
    }
}

/// A set with the same users.
fn copy_set(set: &HashSet<u64>) -> (copy: HashSet<u64>)
    ensures
        copy@ == set@,
{
    let mut copy: HashSet<u64> = HashSet::new();
    for user in it: set.iter()
        invariant
            copy@ == it.seq().take(it.index()).unref().to_set(),
    {
        proof {
            let seen = it.seq().take(it.index()).unref();
            let more = it.seq().take(it.index() + 1).unref();
            assert(more =~= seen.push(*user));
            assert(more.to_set() =~= seen.to_set().insert(*user)) by {
                assert forall|other: u64| more.to_set().contains(other) <==> seen.to_set().insert(
                    *user,
                ).contains(other) by {
                    if more.contains(other) {
                        let j = choose|j: int| 0 <= j < more.len() && more[j] == other;
                        if j < seen.len() {
                            assert(seen[j] == other);
                        }
                    }
                    if seen.contains(other) {
                        let j = choose|j: int| 0 <= j < seen.len() && seen[j] == other;
                        assert(more[j] == other);
                    }
                    if other == *user {
                        assert(more[seen.len() as int] == other);
                    }
                }
            }
        }
        copy.insert(*user);
    }
    proof {
        let all = set.iter().remaining();
        assert(all.take(all.len() as int) =~= all);
    }
    copy
}

/// The index of the first `user` in `list`.
fn position(list: &Vec<u64>, user: u64) -> (found: Option<usize>)
    ensures
        list@.contains(user) <==> found is Some,
        found matches Some(i) ==> i < list@.len() && without_first(list@, user) == list@.remove(
            i as int,
        ),
        found is None ==> without_first(list@, user) == list@,
{
    let mut i: usize = 0;
    while i < list.len()
        invariant
            i <= list.len(),
            forall|j: int| 0 <= j < i ==> list@[j] != user,
        decreases list.len() - i,
    {
        if list[i] == user {
            proof {
                lemma_without_first_at(list@, user, i as int);
            }
            return Some(i);
        }
        i = i + 1;
    }
    proof {
        lemma_without_first_absent(list@, user);
    }
    None
}

impl Activity {
    /// The roster of this activity.
    pub open spec fn roster(&self) -> Roster {
        Roster { size: self.size as nat, members: self.members@, alternate: self.alternate@ }
    }

    /// Whether everything but the two lists is as in `other`.
    pub open spec fn same_details(&self, other: &Activity) -> bool {
        &&& self.name == other.name
        &&& self.description == other.description
        &&& self.date == other.date
        &&& self.id == other.id
        &&& self.size == other.size
        &&& self.creator == other.creator
        &&& self.embed_msg == other.embed_msg
        &&& self.cancel_token == other.cancel_token
    }

    /// An activity with both lists empty.
    pub fn new(
        name: String,
        description: String,
        date: String,
        id: u64,
        size: u8,
        creator: u64,
        embed_msg: MessageRef,
        cancel_token: ActivityToken,
    ) -> (activity: Self)
        ensures
            activity.name == name,
            activity.description == description,
            activity.date == date,
            activity.id == id,
            activity.size == size,
            activity.creator == creator,
            activity.embed_msg == embed_msg,
            activity.cancel_token == cancel_token,
            activity.members@ == Set::<u64>::empty(),
            activity.alternate@ == Seq::<u64>::empty(),
            activity.roster().wf(),
    {
        Self {
            name,
            description,
            date,
            id,
            size,
            creator,
            embed_msg,
            members: HashSet::with_capacity(size as usize),
            alternate: Vec::with_capacity(size as usize),
            cancel_token,
        }
    }

    /// `member` joins the fireteam. A member is told so, and a full fireteam
    /// takes nobody. An alternate who joins is promoted: they leave the
    /// alternates.
    pub fn add_member(&mut self, member: u64) -> (result: Result<(), ActivityError>)
        ensures
            result == old(self).roster().add_member_result(member),
            final(self).roster() == old(self).roster().add_member(member),
            final(self).same_details(old(self)),
            old(self).roster().wf() ==> final(self).roster().wf(),
    {
        proof {
            if self.roster().wf() {
                lemma_step_keeps_roster(self.roster(), RosterOp::AddMember(member));
            }
        }
        if self.members.contains(&member) {
            Err(ActivityError::MemberAlreadyInFireteam)
        } else if self.members.len() >= self.size as usize {
            Err(ActivityError::FireteamFull)
        } else {
            match position(&self.alternate, member) {
                Some(idx) => {
                    self.alternate.remove(idx);
                },
                None => {},
            }
            self.members.insert(member);
            Ok(())
        }
    }

    /// `member` joins the alternates. An alternate is told so, and a full
    /// list takes nobody. A fireteam member who does so is demoted: they
    /// leave the fireteam.
    pub fn add_member_alt(&mut self, member: u64) -> (result: Result<(), ActivityError>)
        ensures
            result == old(self).roster().add_member_alt_result(member),
            final(self).roster() == old(self).roster().add_member_alt(member),
            final(self).same_details(old(self)),
            old(self).roster().wf() ==> final(self).roster().wf(),
    {
        proof {
            if self.roster().wf() {
                lemma_step_keeps_roster(self.roster(), RosterOp::AddMemberAlt(member));
            }
        }
        if position(&self.alternate, member).is_some() {
            Err(ActivityError::MemberAlreadyInAlternate)
        } else if self.alternate.len() >= self.size as usize {
            Err(ActivityError::AlternateFull)
        } else {
            self.members.remove(&member);
            self.alternate.push(member);
            Ok(())
        }
    }

    /// `member` leaves the fireteam.
    pub fn remove_member(&mut self, member: u64) -> (result: Result<(), ActivityError>)
        ensures
            result == old(self).roster().remove_member_result(member),
            final(self).roster() == old(self).roster().remove_member(member),
            final(self).same_details(old(self)),
            old(self).roster().wf() ==> final(self).roster().wf(),
    {
        proof {
            if self.roster().wf() {
                lemma_step_keeps_roster(self.roster(), RosterOp::RemoveMember(member));
            }
        }
        if self.members.remove(&member) {
            Ok(())
        } else {
            Err(ActivityError::MemberNotInFireteam)
        }
    }

    /// `member` leaves the alternates.
    pub fn remove_member_alt(&mut self, member: u64) -> (result: Result<(), ActivityError>)
        ensures
            result == old(self).roster().remove_member_alt_result(member),
            final(self).roster() == old(self).roster().remove_member_alt(member),
            final(self).same_details(old(self)),
            old(self).roster().wf() ==> final(self).roster().wf(),
    {
        proof {
            if self.roster().wf() {
                lemma_step_keeps_roster(self.roster(), RosterOp::RemoveMemberAlt(member));
            }
        }
        match position(&self.alternate, member) {
            Some(idx) => {
                self.alternate.remove(idx);
                Ok(())
            },
            None => Err(ActivityError::MemberNotInAlternate),
        }
    }

    /// How to join and leave the activity `id`.
    pub open spec fn joining_text(id: u64) -> Seq<char> {
        "Use ~activity join "@ + decimal(id as nat) + ", ~activity alt "@ + decimal(id as nat)
            + ", or ~activity leave "@ + decimal(id as nat)
            + " to join, join as an alternate, or leave an activity."@
    }

    /// Whether `embed` is the roster of this activity in the colour
    /// `color`, with the fireteam listed in the order `order`.
    pub open spec fn is_create_embed(&self, embed: &RosterEmbed, order: Seq<u64>, color: u32) -> bool {
        &&& embed.color == Some(color)
        &&& embed.title@ == "Destiny 2 Activity Roster"@
        &&& embed.fields@.len() == 8
        &&& embed.fields@[0].is("Activity:"@, self.name@, true)
        &&& embed.fields@[1].is("Time:"@, self.date@, true)
        &&& embed.fields@[2].is("Activity ID:"@, decimal(self.id as nat), true)
        &&& embed.fields@[3].is("Description:"@, self.description@, false)
        &&& embed.fields@[4].is("Fireteam Members:"@, mention_field(order), false)
        &&& embed.fields@[5].is("Alternate Members:"@, mention_field(self.alternate@), false)
        &&& embed.fields@[6].is("Joining And Leaving:"@, Self::joining_text(self.id), false)
        &&& embed.fields@[7].is(
            "Important Information:"@,
            "Bingus will ping you in this channel when your activity is ready. Please keep this channel unmuted."@,
            false,
        )
        &&& embed.footer@ == "For command documentation, please see Bingus's GitHub page."@
    }

    /// The roster embed with the fireteam listed in the order `order`.
    pub fn render_create_embed(&self, order: &Vec<u64>, color: u32) -> (embed: RosterEmbed)
        ensures
            self.is_create_embed(&embed, order@, color),
    {
        let id = decimal_string(self.id);
        let mut joining = String::from_str("Use ~activity join ");
        joining.append(id.as_str());
        joining.append(", ~activity alt ");
        joining.append(id.as_str());
        joining.append(", or ~activity leave ");
        joining.append(id.as_str());
        joining.append(" to join, join as an alternate, or leave an activity.");
        let mut fields: Vec<EmbedField> = Vec::new();
        fields.push(EmbedField::new("Activity:", self.name.clone(), true));
        fields.push(EmbedField::new("Time:", self.date.clone(), true));
        fields.push(EmbedField::new("Activity ID:", id, true));
        fields.push(EmbedField::new("Description:", self.description.clone(), false));
        fields.push(EmbedField::new("Fireteam Members:", render_mention_field(order), false));
        fields.push(
            EmbedField::new("Alternate Members:", render_mention_field(&self.alternate), false),
        );
        fields.push(EmbedField::new("Joining And Leaving:", joining, false));
        fields.push(
            EmbedField::new(
                "Important Information:",
                String::from_str(
                    "Bingus will ping you in this channel when your activity is ready. Please keep this channel unmuted.",
                ),
                false,
            ),
        );
        RosterEmbed {
            color: Some(color),
            title: String::from_str("Destiny 2 Activity Roster"),
            fields,
            footer: String::from_str("For command documentation, please see Bingus's GitHub page."),
        }
    }

    /// Whether `embed` is the roster of this activity in the colour
    /// `color`, with the fireteam listed in some order.
    pub open spec fn shows(&self, embed: &RosterEmbed, color: u32) -> bool {
        exists|order: Seq<u64>|
            order.no_duplicates() && order.to_set() == self.members@
                && #[trigger] self.is_create_embed(embed, order, color)
    }

    /// The roster embed of this activity. The fireteam is listed in the
    /// order in which the set hands it out.
    pub fn as_create_embed(&self, color: u32) -> (embed: RosterEmbed)
        ensures
            self.shows(&embed, color),
    {
        let order = self.member_order();
        self.render_create_embed(&order, color)
    }

    /// `member` leaves the activity: the fireteam where they are on it, and
    /// the alternates otherwise. Who is on neither list is told that they
    /// are no alternate.
    pub fn leave(&mut self, member: u64) -> (result: Result<(), ActivityError>)
        ensures
            result == old(self).roster().leave_result(member),
            final(self).roster() == old(self).roster().leave(member),
            final(self).same_details(old(self)),
            old(self).roster().wf() ==> final(self).roster().wf(),
    {
        match self.remove_member(member) {
            Ok(()) => Ok(()),
            Err(_) => {
                assert(self.roster() == old(self).roster()) by {
                    assert(self.members@ =~= old(self).members@);
                }
                self.remove_member_alt(member)
            },
        }
    }

    /// The fireteam in the order in which the set hands it out. The order
    /// is not fixed: two walks of one set may differ.
    pub fn member_order(&self) -> (order: Vec<u64>)
        ensures
            order@.no_duplicates(),
            order@.to_set() == self.members@,
    {
        let mut order: Vec<u64> = Vec::new();
        for user in it: self.members.iter()
            invariant
                order@.len() == it.index(),
                forall|i: int| 0 <= i < order@.len() ==> order@[i] == *it.seq()[i],
        {
            order.push(*user);
        }
        proof {
            assert(order@ =~= self.members.iter().remaining().unref());
        }
        order
    }
}

/// `list` without the first `user` in it.
pub open spec fn without_first(list: Seq<u64>, user: u64) -> Seq<u64>
    decreases list.len(),
{
    if list.len() == 0 {
        list
    } else if list[0] == user {
        list.drop_first()
    } else {
        seq![list[0]] + without_first(list.drop_first(), user)
    }
}

/// Where `i` is the first place of `user` in `list`, `without_first` takes
/// that place out.
pub proof fn lemma_without_first_at(list: Seq<u64>, user: u64, i: int)
    requires
        0 <= i < list.len(),
        list[i] == user,
        forall|j: int| 0 <= j < i ==> list[j] != user,
    ensures
        without_first(list, user) == list.remove(i),
    decreases list.len(),
{
    if i > 0 {
        lemma_without_first_at(list.drop_first(), user, i - 1);
    }
}

/// A list that does not hold `user` is left as it is.
pub proof fn lemma_without_first_absent(list: Seq<u64>, user: u64)
    requires
        !list.contains(user),
    ensures
        without_first(list, user) == list,
    decreases list.len(),
{
    if list.len() > 0 {
        lemma_without_first_absent(list.drop_first(), user);
    }
}

/// Taking the first `user` out of a list without repeats leaves a list
/// without repeats that holds everyone else and not `user`.
pub proof fn lemma_without_first(list: Seq<u64>, user: u64)
    requires
        list.no_duplicates(),
    ensures
        without_first(list, user).no_duplicates(),
        !without_first(list, user).contains(user),
        without_first(list, user).len() <= list.len(),
        forall|other: u64|
            other != user ==> (without_first(list, user).contains(other) <==> list.contains(
                other,
            )),
{
    list.index_of_first_ensures(user);
    match list.index_of_first(user) {
        Some(i) => {
            lemma_without_first_at(list, user, i);
            let rest = list.remove(i);
            assert forall|other: u64| other != user implies (rest.contains(other)
                <==> list.contains(other)) by {
                if list.contains(other) {
                    let j = choose|j: int| 0 <= j < list.len() && list[j] == other;
                    if j < i {
                        assert(rest[j] == other);
                    } else {
                        assert(rest[j - 1] == other);
                    }
                }
            }
            if rest.contains(user) {
                let j = choose|j: int| 0 <= j < rest.len() && rest[j] == user;
                if j < i {
                    assert(list[j] == user);
                } else {
                    assert(list[j + 1] == user);
                }
            }
        },
        None => {
            lemma_without_first_absent(list, user);
        },
    }
}

/// Every step keeps a roster well formed: nobody comes to stand on both
/// lists, and neither list grows over the capacity.
pub proof fn lemma_step_keeps_roster(roster: Roster, op: RosterOp)
    requires
        roster.wf(),
    ensures
        roster.apply(op).wf(),
{
    let next = roster.apply(op);
    match op {
        RosterOp::AddMember(user) => {
            lemma_without_first(roster.alternate, user);
        },
        RosterOp::AddMemberAlt(user) => {
            if roster.add_member_alt_result(user) is Ok {
                assert forall|i: int, j: int|
                    0 <= i < next.alternate.len() && 0 <= j < next.alternate.len() && i
                        != j implies next.alternate[i] != next.alternate[j] by {
                }
                assert forall|other: u64|
                    !(next.members.contains(other) && next.alternate.contains(other)) by {
                }
            }
        },
        RosterOp::RemoveMember(user) => {},
        RosterOp::RemoveMemberAlt(user) => {
            lemma_without_first(roster.alternate, user);
        },
    }
}

/// Whatever the steps, in whatever order, and whichever of them are
/// refused: a roster that was well formed stays so. In particular no user
/// is ever on both lists, and neither list ever holds more than `size`.
pub proof fn lemma_roster_invariant(roster: Roster, ops: Seq<RosterOp>)
    requires
        roster.wf(),
    ensures
        roster.apply_all(ops).wf(),
        roster.apply_all(ops).size == roster.size,
        forall|user: u64|
            !(roster.apply_all(ops).members.contains(user) && roster.apply_all(
                ops,
            ).alternate.contains(user)),
        roster.apply_all(ops).members.len() <= roster.size,
        roster.apply_all(ops).alternate.len() <= roster.size,
    decreases ops.len(),
{
    if ops.len() > 0 {
        lemma_roster_invariant(roster, ops.drop_last());
        lemma_step_keeps_roster(roster.apply_all(ops.drop_last()), ops.last());
    }
}

/// A guild's store as mathematical values: the activities by id, the ids
/// that were given back, and the first id that was never handed out.
pub struct Store {
    pub live: Map<u64, Activity>,
    pub free: Seq<u64>,
    pub next: nat,
}

/// The smallest value of a list that is not empty.
pub open spec fn least(ids: Seq<u64>) -> u64
    decreases ids.len(),
{
    if ids.len() <= 1 {
        ids[0]
    } else if ids.last() < least(ids.drop_last()) {
        ids.last()
    } else {
        least(ids.drop_last())
    }
}

/// `least` is one of the values and none is smaller.
pub proof fn lemma_least(ids: Seq<u64>)
    requires
        ids.len() > 0,
    ensures
        ids.contains(least(ids)),
        forall|i: int| 0 <= i < ids.len() ==> least(ids) <= ids[i],
    decreases ids.len(),
{
    if ids.len() > 1 {
        let front = ids.drop_last();
        lemma_least(front);
        assert forall|i: int| 0 <= i < ids.len() implies least(ids) <= ids[i] by {
            if i < front.len() {
                assert(front[i] == ids[i]);
            }
        }
    }
}

impl Store {
    /// No free id is listed twice, no free id is in use, and every activity
    /// is kept under its own id.
    pub open spec fn wf(self) -> bool {
        &&& self.free.no_duplicates()
        &&& forall|id: u64|
            #![trigger self.live.contains_key(id)]
            #![trigger self.free.contains(id)]
            !(self.live.contains_key(id) && self.free.contains(id))
        &&& forall|id: u64| #[trigger] self.live.contains_key(id) ==> self.live[id].id == id
    }

    /// Every id below `next`, and no other, is in use or free. This holds
    /// of a store whose ids all came from `activity_id`.
    pub open spec fn dense(self) -> bool {
        forall|id: u64|
            #![trigger self.live.contains_key(id)]
            #![trigger self.free.contains(id)]
            (self.live.contains_key(id) || self.free.contains(id)) <==> id < self.next
    }

    /// The id for the next activity: the smallest free id, or `next` where
    /// none is free.
    pub open spec fn activity_id(self) -> nat {
        if self.free.len() == 0 {
            self.next
        } else {
            least(self.free) as nat
        }
    }

    /// The store after `add_activity`, accepted or not.
    pub open spec fn add_activity(self, activity: Activity) -> Store {
        if self.live.contains_key(activity.id) {
            self
        } else if self.free.contains(activity.id) {
            Store {
                live: self.live.insert(activity.id, activity),
                free: without_first(self.free, activity.id),
                next: self.next,
            }
        } else {
            Store {
                live: self.live.insert(activity.id, activity),
                free: self.free,
                next: self.next + 1,
            }
        }
    }

    /// The store after `remove_activity`.
    pub open spec fn remove_activity(self, id: u64) -> Store {
        if self.live.contains_key(id) {
            Store { live: self.live.remove(id), free: self.free.push(id), next: self.next }
        } else {
            self
        }
    }
}

/// Adding an activity keeps the store well formed.
pub proof fn lemma_add_keeps_store(store: Store, activity: Activity)
    requires
        store.wf(),
    ensures
        store.add_activity(activity).wf(),
{
    let after = store.add_activity(activity);
    lemma_without_first(store.free, activity.id);
    assert forall|id: u64| #[trigger] after.live.contains_key(id) implies after.live[id].id
        == id by {
    }
}

/// Removing an activity keeps the store well formed.
pub proof fn lemma_remove_keeps_store(store: Store, id: u64)
    requires
        store.wf(),
    ensures
        store.remove_activity(id).wf(),
{
    let after = store.remove_activity(id);
    if store.live.contains_key(id) {
        assert forall|i: int, j: int|
            0 <= i < after.free.len() && 0 <= j < after.free.len() && i != j implies after.free[i]
            != after.free[j] by {
        }
        assert forall|other: u64|
            !(after.live.contains_key(other) && after.free.contains(other)) by {
        }
        assert forall|other: u64| #[trigger] after.live.contains_key(other) implies after.live[other].id
            == other by {
        }
    }
}

/// An id that is given back is the next one handed out, as long as no
/// smaller id is free: after `add_activity` and `remove_activity` of the
/// same id, `activity_id` is that id.
pub proof fn lemma_freed_id_is_reused(store: Store, activity: Activity)
    requires
        store.wf(),
        forall|i: int| 0 <= i < store.free.len() ==> activity.id <= store.free[i],
    ensures
        store.add_activity(activity).remove_activity(activity.id).activity_id() == activity.id,
{
    let id = activity.id;
    let added = store.add_activity(activity);
    let after = added.remove_activity(id);
    lemma_without_first(store.free, id);
    lemma_least(after.free);
    assert forall|i: int| 0 <= i < after.free.len() implies id <= after.free[i] by {
        if i < added.free.len() {
            assert(store.free.contains(added.free[i]));
        }
    }
}

/// The id that `activity_id` hands out is reused once it is given back:
/// `add_activity` under that id, then `remove_activity` of it, and
/// `activity_id` hands out the same id again.
pub proof fn lemma_allocated_id_is_reused(store: Store, activity: Activity)
    requires
        store.wf(),
        activity.id == store.activity_id(),
    ensures
        store.add_activity(activity).remove_activity(activity.id).activity_id() == activity.id,
{
    if store.free.len() > 0 {
        lemma_least(store.free);
    }
    lemma_freed_id_is_reused(store, activity);
}

/// With no id free, two activities added in a row under the ids that
/// `activity_id` hands out get increasing ids: the second is the first
/// plus one.
pub proof fn lemma_fresh_ids_increase(store: Store, first: Activity, second: Activity)
    requires
        store.wf(),
        store.free.len() == 0,
        first.id == store.activity_id(),
        !store.live.contains_key(first.id),
        second.id == store.add_activity(first).activity_id(),
    ensures
        first.id < second.id,
        second.id == first.id + 1,
        store.add_activity(first).free.len() == 0,
{
}

/// A dense store never hands out an id that is in use, and stays dense
/// when an activity is added under the id that it handed out.
pub proof fn lemma_dense_allocation(store: Store, activity: Activity)
    requires
        store.wf(),
        store.dense(),
        activity.id == store.activity_id(),
    ensures
        !store.live.contains_key(activity.id),
        store.add_activity(activity).dense(),
        store.add_activity(activity).live.contains_key(activity.id),
{
    let id = activity.id;
    let after = store.add_activity(activity);
    if store.free.len() > 0 {
        lemma_least(store.free);
    }
    lemma_without_first(store.free, id);
    assert forall|other: u64|
        (after.live.contains_key(other) || after.free.contains(other)) <==> other
            < after.next by {
        if other != id {
            assert((store.live.contains_key(other) || store.free.contains(other)) <==> other
                < store.next);
        } else {
            if store.free.len() > 0 {
                assert((store.live.contains_key(id) || store.free.contains(id)) <==> id
                    < store.next);
            }
        }
    }
}

/// A dense store stays dense when an activity is removed.
pub proof fn lemma_dense_removal(store: Store, id: u64)
    requires
        store.wf(),
        store.dense(),
    ensures
        store.remove_activity(id).dense(),
{
    let after = store.remove_activity(id);
    if store.live.contains_key(id) {
        assert(after.free[after.free.len() - 1] == id);
        assert forall|other: u64|
            (after.live.contains_key(other) || after.free.contains(other)) <==> other
                < after.next by {
            if after.free.contains(other) && other != id {
                let j = choose|j: int| 0 <= j < after.free.len() && after.free[j] == other;
                assert(store.free[j] == other);
            }
            if store.free.contains(other) {
                let j = choose|j: int| 0 <= j < store.free.len() && store.free[j] == other;
                assert(after.free[j] == other);
            }
            assert((store.live.contains_key(other) || store.free.contains(other)) <==> other
                < store.next);
        }
    }
}

/// Whether `ids` lists the ids of `dom`, each once, smallest first.
pub open spec fn is_listing(ids: Seq<u64>, dom: Set<u64>) -> bool {
    &&& forall|i: int, j: int| 0 <= i < j < ids.len() ==> ids[i] < ids[j]
    &&& forall|id: u64| ids.contains(id) <==> dom.contains(id)
}

/// itertools' `Itertools::sorted` on the ids of a list: the same ids, each
/// as often as before, in ascending order.
#[verifier::external_body]
fn sorted(ids: Vec<u64>) -> (sorted: Vec<u64>)
    ensures
        sorted@.to_multiset() == ids@.to_multiset(),
        forall|i: int, j: int| 0 <= i <= j < sorted@.len() ==> sorted@[i] <= sorted@[j],
{
    ids.into_iter().sorted().collect()
}

/// The activities of one guild, and the ids that it hands out.
pub struct GuildData {
    guild_id: u64,
    activities: HashMap<u64, Activity>,
    next_activity_id: u64,
    free_activity_ids: Vec<u64>,
}

impl View for GuildData {
    type V = Store;

    closed spec fn view(&self) -> Store {
        Store {
            live: self.activities@,
            free: self.free_activity_ids@,
            next: self.next_activity_id as nat,
        }
    }
}

impl Default for GuildData {
    fn default() -> (data: Self)
        ensures
            data.spec_guild_id() == 0,
            data@.live == Map::<u64, Activity>::empty(),
            data@.free == Seq::<u64>::empty(),
            data@.next == 0,
            data@.wf(),
            data@.dense(),
    {
        GuildData::new(0)
    }
}

impl GuildData {
    /// The guild that this store belongs to.
    pub closed spec fn spec_guild_id(&self) -> u64 {
        self.guild_id
    }

    /// The counter fits in a `u64`.
    pub proof fn lemma_next_fits(&self)
        ensures
            self@.next <= u64::MAX,
    {
    }

    /// An empty store for the guild `guild_id`.
    pub fn new(guild_id: u64) -> (data: Self)
        ensures
            data.spec_guild_id() == guild_id,
            data@.live == Map::<u64, Activity>::empty(),
            data@.free == Seq::<u64>::empty(),
            data@.next == 0,
            data@.wf(),
            data@.dense(),
    {
        Self {
            guild_id,
            activities: HashMap::new(),
            next_activity_id: 0,
            free_activity_ids: Vec::new(),
        }
    }

    /// The guild that this store belongs to.
    #[verifier::when_used_as_spec(spec_guild_id)]
    pub fn guild_id(&self) -> (id: u64)
        ensures
            id == self.spec_guild_id(),
    {
        self.guild_id
    }

    /// Whether `add_activity` can take an activity under `id`: the id is in
    /// use (and the activity is handed back), or free, or the counter of
    /// fresh ids has not reached its last value.
    pub fn can_add(&self, id: u64) -> (ok: bool)
        ensures
            ok == (self@.live.contains_key(id) || self@.free.contains(id) || self@.next
                < u64::MAX),
    {
        self.activities.contains_key(&id) || position(&self.free_activity_ids, id).is_some()
            || self.next_activity_id < u64::MAX
    }

    /// Whether the counter of fresh ids has reached its last value.
    pub fn is_exhausted(&self) -> (exhausted: bool)
        ensures
            exhausted == (self@.next >= u64::MAX),
    {
        self.next_activity_id == u64::MAX
    }

    /// Puts `activity` into the store under its id. Where the id is in use
    /// the store stays as it is and the activity comes back. Otherwise a
    /// free id leaves the free ids, and any other id advances the counter.
    pub fn add_activity(&mut self, activity: Activity) -> (result: Result<(), Activity>)
        requires
            old(self)@.live.contains_key(activity.id) || old(self)@.free.contains(activity.id)
                || old(self)@.next < u64::MAX,
        ensures
            final(self)@ == old(self)@.add_activity(activity),
            final(self).spec_guild_id() == old(self).spec_guild_id(),
            old(self)@.wf() ==> final(self)@.wf(),
            old(self)@.wf() && old(self)@.dense() && activity.id == old(self)@.activity_id()
                ==> result is Ok && final(self)@.dense(),
            result == if old(self)@.live.contains_key(activity.id) {
                Err::<(), Activity>(activity)
            } else {
                Ok(())
            },
    {
        proof {
            if self@.wf() {
                lemma_add_keeps_store(self@, activity);
                if self@.dense() && activity.id == self@.activity_id() {
                    lemma_dense_allocation(self@, activity);
                }
            }
        }
        if !self.activities.contains_key(&activity.id) {
            match position(&self.free_activity_ids, activity.id) {
                Some(idx) => {
                    self.free_activity_ids.remove(idx);
                },
                None => {
                    self.next_activity_id = self.next_activity_id + 1;
                },
            }
            self.activities.insert(activity.id, activity);
            Ok(())
        } else {
            Err(activity)
        }
    }

    /// Takes the activity `id` out of the store and frees its id.
    pub fn remove_activity(&mut self, id: u64) -> (removed: Option<Activity>)
        ensures
            final(self)@ == old(self)@.remove_activity(id),
            final(self).spec_guild_id() == old(self).spec_guild_id(),
            old(self)@.wf() ==> final(self)@.wf(),
            old(self)@.wf() && old(self)@.dense() ==> final(self)@.dense(),
            removed == if old(self)@.live.contains_key(id) {
                Some(old(self)@.live[id])
            } else {
                None
            },
    {
        proof {
            if self@.wf() {
                lemma_remove_keeps_store(self@, id);
                if self@.dense() {
                    lemma_dense_removal(self@, id);
                }
            }
        }
        if self.activities.contains_key(&id) {
            self.free_activity_ids.push(id);
            self.activities.remove(&id)
        } else {
            None
        }
    }

    /// The activity `id`.
    pub fn activity(&self, id: u64) -> (found: Option<&Activity>)
        ensures
            found == if self@.live.contains_key(id) {
                Some(&self@.live[id])
            } else {
                None
            },
    {
        self.activities.get(&id)
    }

    /// The activity `id`, to be changed in place. The store holds whatever
    /// the caller leaves there. It stays well formed as long as the
    /// activity keeps its id.
    pub fn activity_mut(&mut self, id: u64) -> (found: Option<&mut Activity>)
        ensures
            final(self).spec_guild_id() == old(self).spec_guild_id(),
            match found {
                Some(activity) => {
                    &&& old(self)@.live.contains_key(id)
                    &&& *activity == old(self)@.live[id]
                    &&& final(self)@ == Store {
                        live: old(self)@.live.insert(id, *final(activity)),
                        ..old(self)@
                    }
                },
                None => !old(self)@.live.contains_key(id) && final(self)@ == old(self)@,
            },
    {
        match self.activities.entry(id) {
            Entry::Occupied(entry) => Some(entry.into_mut()),
            Entry::Vacant(_) => {
                assert(old(self)@.live.remove(id) =~= old(self)@.live);
                None
            },
        }
    }

    /// The ids in use, in the order in which the map hands them out. The
    /// order is not fixed: two walks of one map may differ.
    pub fn activity_ids(&self) -> (ids: Vec<u64>)
        ensures
            ids@.no_duplicates(),
            ids@.to_set() == self@.live.dom(),
    {
        let mut ids: Vec<u64> = Vec::new();
        for id in it: self.activities.keys()
            invariant
                ids@.len() == it.index(),
                forall|i: int| 0 <= i < ids@.len() ==> ids@[i] == *it.seq()[i],
        {
            ids.push(*id);
        }
        proof {
            assert(ids@ =~= self.activities.keys().remaining().unref());
        }
        ids
    }

    /// The ids in use, smallest first.
    pub fn sorted_activity_ids(&self) -> (ids: Vec<u64>)
        ensures
            is_listing(ids@, self@.live.dom()),
            ids@.len() == self@.live.dom().len(),
    {
        let walked = self.activity_ids();
        let ids = sorted(walked);
        proof {
            broadcast use vstd::seq_lib::to_multiset_contains;

            walked@.lemma_multiset_has_no_duplicates();
            ids@.lemma_multiset_has_no_duplicates_conv();
            ids@.unique_seq_to_set();
            assert forall|id: u64| ids@.contains(id) <==> self@.live.dom().contains(id) by {
                assert(ids@.contains(id) <==> ids@.to_multiset().count(id) > 0);
            }
            assert(ids@.to_set() =~= self@.live.dom());
        }
        ids
    }

    /// The id for the next activity: the smallest free id, or the first id
    /// that was never handed out.
    pub fn activity_id(&self) -> (id: u64)
        ensures
            id == self@.activity_id(),
    {
        if self.free_activity_ids.len() == 0 {
            self.next_activity_id
        } else {
            let mut id = self.free_activity_ids[0];
            let mut i: usize = 1;
            while i < self.free_activity_ids.len()
                invariant
                    1 <= i <= self.free_activity_ids.len(),
                    id == least(self.free_activity_ids@.take(i as int)),
                decreases self.free_activity_ids.len() - i,
            {
                proof {
                    let ids = self.free_activity_ids@;
                    assert(ids.take(i + 1).drop_last() =~= ids.take(i as int));
                }
                if self.free_activity_ids[i] < id {
                    id = self.free_activity_ids[i];
                }
                i = i + 1;
            }
            proof {
                let ids = self.free_activity_ids@;
                assert(ids.take(ids.len() as int) =~= ids);
            }
            id
        }
    }
}

/// Whether every guild's store is well formed.
pub open spec fn guilds_wf(guilds: Map<u64, GuildData>) -> bool {
    forall|guild: u64| #[trigger] guilds.contains_key(guild) ==> guilds[guild]@.wf()
}

/// The store of `guild`, empty where the guild has none yet.
pub open spec fn store_of(guilds: Map<u64, GuildData>, guild: u64) -> Store {
    if guilds.contains_key(guild) {
        guilds[guild]@
    } else {
        Store { live: Map::empty(), free: Seq::empty(), next: 0 }
    }
}

/// Whether `after` is `before` with a store for `guild`: the one that was
/// there, or a new one. What is in that store is not said here.
pub open spec fn opened(before: Map<u64, GuildData>, after: Map<u64, GuildData>, guild: u64) -> bool {
    &&& after.dom() =~= before.dom().insert(guild)
    &&& forall|other: u64|
        other != guild && #[trigger] before.contains_key(other) ==> after[other] == before[other]
    &&& after[guild].spec_guild_id() == if before.contains_key(guild) {
        before[guild].spec_guild_id()
    } else {
        guild
    }
}

/// Whether `after` is `before` with a store for `guild` that holds what
/// it held before.
pub open spec fn untouched(before: Map<u64, GuildData>, after: Map<u64, GuildData>, guild: u64) -> bool {
    opened(before, after, guild) && after[guild]@ == store_of(before, guild)
}

/// Why a chain of embeds came to no roster.
#[non_exhaustive]
#[derive(Copy, Clone, Eq, PartialEq, Hash, Debug, Structural)]
pub enum EmbedError {
    InvalidReaction,
    RemovedReaction,
    TimedOut,
    Other,
}

impl EmbedError {
    /// The error in words.
    pub open spec fn spec_message(&self) -> Seq<char> {
        match self {
            EmbedError::InvalidReaction => "Invalid reaction"@,
            EmbedError::RemovedReaction => "Removed reaction"@,
            EmbedError::TimedOut => "Timed out"@,
            EmbedError::Other => "Other"@,
        }
    }

    /// The error in words.
    pub fn message(&self) -> (text: String)
        ensures
            text@ == self.spec_message(),
    {
        match self {
            EmbedError::InvalidReaction => String::from_str("Invalid reaction"),
            EmbedError::RemovedReaction => String::from_str("Removed reaction"),
            EmbedError::TimedOut => String::from_str("Timed out"),
            EmbedError::Other => String::from_str("Other"),
        }
    }
}

/// What a choice in a chain of embeds leads to.
pub enum RosterKind {
    /// The embed of this name is shown next.
    SelectNext(String),
    /// The chain ends with this activity.
    Finished { activity_name: String, size: u8 },
}

impl Clone for RosterKind {
    fn clone(&self) -> (copy: Self)
        ensures
            copy == *self,
    {
        match self {
            RosterKind::SelectNext(name) => RosterKind::SelectNext(name.clone()),
            RosterKind::Finished { activity_name, size } => RosterKind::Finished {
                activity_name: activity_name.clone(),
                size: *size,
            },
        }
    }
}

/// One choice under an embed: the reaction that stands for it, and what
/// it leads to.
pub struct SelectionInfo {
    pub name: String,
    pub kind: RosterKind,
}

impl Clone for SelectionInfo {
    fn clone(&self) -> (copy: Self)
        ensures
            copy == *self,
    {
        SelectionInfo { name: self.name.clone(), kind: self.kind.clone() }
    }
}

/// What a chain of embeds ends with: the activity that was chosen.
pub struct RosterData {
    pub activity_name: String,
    pub size: u8,
    pub message: MessageRef,
    /// The time that each answer is given, in seconds.
    pub timeout: Option<u64>,
}

/// What came of waiting for a reaction.
pub enum ReactionEvent {
    /// A reaction was added: the emoji as the platform writes it.
    Added(String),
    /// A reaction was taken away.
    Removed,
    /// The wait ended without a reaction.
    Ended,
}

/// The first choice of `selections` that the reaction `emoji` stands for.
pub open spec fn first_choice(selections: Seq<SelectionInfo>, emoji: Seq<char>) -> Option<int> {
    if exists|i: int| 0 <= i < selections.len() && selections[i].name@ == emoji {
        Some(
            choose|i: int|
                0 <= i < selections.len() && selections[i].name@ == emoji && forall|j: int|
                    0 <= j < i ==> selections[j].name@ != emoji,
        )
    } else {
        None
    }
}

/// Where `first_choice` gives an index, it is the smallest one with that
/// reaction.
pub proof fn lemma_first_choice(selections: Seq<SelectionInfo>, emoji: Seq<char>, i: int)
    requires
        0 <= i < selections.len(),
        selections[i].name@ == emoji,
        forall|j: int| 0 <= j < i ==> selections[j].name@ != emoji,
    ensures
        first_choice(selections, emoji) == Some(i),
{
}

/// What is said when a reaction was taken away.
pub open spec fn removed_text() -> Seq<char> {
    "You removed a reaction before the bot was ready. Please try again."@
}

/// What is said when the time for a reaction ran out.
pub open spec fn timed_out_text(seconds: u64) -> Seq<char> {
    "You did not add a reaction in time. Please react within "@ + decimal(seconds as nat)
        + " seconds."@
}

/// What is said when the wait for a reaction ended for no known reason.
pub open spec fn failed_text() -> Seq<char> {
    "Some error occurred with getting a reaction. Please contact Factorial about this."@
}

/// Whether `said` is what the user is told after `event`: nothing after a
/// reaction, and the reason after anything else.
pub open spec fn is_reaction_reply(said: Option<String>, event: ReactionEvent, timeout: Option<u64>) -> bool {
    match event {
        ReactionEvent::Added(_) => said is None,
        ReactionEvent::Removed => said matches Some(text) && text@ == removed_text(),
        ReactionEvent::Ended => match timeout {
            Some(seconds) => said matches Some(text) && text@ == timed_out_text(seconds),
            None => said matches Some(text) && text@ == failed_text(),
        },
    }
}

/// The choice that `event` makes among `selections`, or why it makes
/// none.
pub open spec fn reaction_result(
    event: ReactionEvent,
    timeout: Option<u64>,
    selections: Seq<SelectionInfo>,
) -> Result<SelectionInfo, EmbedError> {
    match event {
        ReactionEvent::Added(emoji) => match first_choice(selections, emoji@) {
            Some(i) => Ok(selections[i]),
            None => Err(EmbedError::InvalidReaction),
        },
        ReactionEvent::Removed => Err(EmbedError::RemovedReaction),
        ReactionEvent::Ended => match timeout {
            Some(_) => Err(EmbedError::TimedOut),
            None => Err(EmbedError::Other),
        },
    }
}

/// Decides what a wait for a reaction came to: the first choice that the
/// reaction stands for, or the reason why there is none. With it comes
/// what to tell the user, where there is something to tell.
#[verifier::loop_isolation(false)]
pub fn await_reaction(event: ReactionEvent, timeout: Option<u64>, selections: Vec<SelectionInfo>) -> (chosen:
    (Result<SelectionInfo, EmbedError>, Option<String>))
    ensures
        chosen.0 == reaction_result(event, timeout, selections@),
        is_reaction_reply(chosen.1, event, timeout),
{
    match event {
        ReactionEvent::Added(emoji) => {
            let mut i: usize = 0;
            while i < selections.len()
                invariant
                    i <= selections.len(),
                    forall|j: int| 0 <= j < i ==> selections@[j].name@ != emoji@,
                decreases selections.len() - i,
            {
                if same_text(selections[i].name.as_str(), emoji.as_str()) {
                    proof {
                        lemma_first_choice(selections@, emoji@, i as int);
                    }
                    return (Ok(selections[i].clone()), None);
                }
                i = i + 1;
            }
            (Err(EmbedError::InvalidReaction), None)
        },
        ReactionEvent::Removed => (
            Err(EmbedError::RemovedReaction),
            Some(
                String::from_str(
                    "You removed a reaction before the bot was ready. Please try again.",
                ),
            ),
        ),
        ReactionEvent::Ended => match timeout {
            Some(seconds) => {
                let mut text = String::from_str(
                    "You did not add a reaction in time. Please react within ",
                );
                text.append(decimal_string(seconds).as_str());
                text.append(" seconds.");
                (Err(EmbedError::TimedOut), Some(text))
            },
            None => (
                Err(EmbedError::Other),
                Some(
                    String::from_str(
                        "Some error occurred with getting a reaction. Please contact Factorial about this.",
                    ),
                ),
            ),
        },
    }
}

/// What a chain of embeds does after a choice.
pub enum ChainStep {
    /// Show the embed of this name, and wait for the next choice.
    Show(String),
    /// The chain is done.
    Finished(RosterData),
}

/// Whether one of `names` is `name`.
pub open spec fn is_known(names: Seq<String>, name: Seq<char>) -> bool {
    exists|i: int| 0 <= i < names.len() && names[i]@ == name
}

/// Takes one choice in a chain of embeds. A choice that leads on must
/// name an embed that there is, one of `known`. A choice that ends the
/// chain gives the activity, with the message that showed the chain and
/// the time that answers are given.
#[verifier::loop_isolation(false)]
pub fn chain_step(
    kind: RosterKind,
    known: &Vec<String>,
    message: MessageRef,
    timeout: Option<u64>,
) -> (step: Result<ChainStep, EmbedError>)
    ensures
        match kind {
            RosterKind::SelectNext(name) => if is_known(known@, name@) {
                step == Ok::<ChainStep, EmbedError>(ChainStep::Show(name))
            } else {
                step == Err::<ChainStep, EmbedError>(EmbedError::InvalidReaction)
            },
            RosterKind::Finished { activity_name, size } => step == Ok::<ChainStep, EmbedError>(
                ChainStep::Finished(RosterData { activity_name, size, message, timeout }),
            ),
        },
{
    match kind {
        RosterKind::SelectNext(name) => {
            let mut i: usize = 0;
            while i < known.len()
                invariant
                    i <= known.len(),
                    forall|j: int| 0 <= j < i ==> known@[j]@ != name@,
                decreases known.len() - i,
            {
                if same_text(known[i].as_str(), name.as_str()) {
                    return Ok(ChainStep::Show(name));
                }
                i = i + 1;
            }
            Err(EmbedError::InvalidReaction)
        },
        RosterKind::Finished { activity_name, size } => Ok(
            ChainStep::Finished(RosterData { activity_name, size, message, timeout }),
        ),
    }
}

} // verus!

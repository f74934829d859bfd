//! The commands that only owners may give: who is an admin.

use std::collections::HashSet;

use vstd::prelude::*;
use vstd::string::StringExecFns;

use crate::client::texts;
use crate::text::chars_of;
use crate::text::decimal;
use crate::text::decimal_string;
use crate::text::number_u64;
use crate::text::parse_u64;

verus! {

broadcast use vstd::std_specs::hash::group_hash_axioms;

/// The users that the words of `args` name.
pub open spec fn named_users(args: Seq<String>) -> Set<u64> {
    Set::new(
        |user: u64| exists|i: int| 0 <= i < args.len() && number_u64(#[trigger] args[i]@) == Some(user),
    )
}

/// What is said to a word that names no user.
pub open spec fn invalid_user_text(position: nat) -> Seq<char> {
    "Invalid user ID at position "@ + decimal(position)
}

/// What is said to the words of `args` that name no user, in their order.
pub open spec fn complaints(args: Seq<String>) -> Seq<Seq<char>>
    decreases args.len(),
{
    if args.len() == 0 {
        Seq::empty()
    } else {
        let front = complaints(args.drop_last());
        if number_u64(args.last()@) is None {
            front.push(invalid_user_text((args.len() - 1) as nat))
        } else {
            front
        }
    }
}

/// Reads the words of `args`. Those that name a user come back as ids, in
/// their order, and each of the others is complained of.
fn read_users(args: &Vec<String>) -> (read: (Vec<u64>, Vec<String>))
    ensures
        forall|user: u64| read.0@.contains(user) <==> named_users(args@).contains(user),
        texts(read.1@) == complaints(args@),
{
    let mut users: Vec<u64> = Vec::new();
    let mut replies: Vec<String> = Vec::new();
    let mut i: usize = 0;
    while i < args.len()
        invariant
            i <= args.len(),
            forall|user: u64|
                users@.contains(user) <==> named_users(args@.take(i as int)).contains(user),
            texts(replies@) == complaints(args@.take(i as int)),
        decreases args.len() - i,
    {
        let ghost seen = args@.take(i as int);
        let ghost more = args@.take(i + 1);
        let ghost before = users@;
        proof {
            assert(more.drop_last() =~= seen);
            assert(more.last() == args@[i as int]);
        }
        let chars = chars_of(args[i].as_str());
        match parse_u64(&chars) {
            Some(user) => {
                users.push(user);
            },
            None => {
                let ghost said = texts(replies@);
                let mut line = String::from_str("Invalid user ID at position ");
                line.append(decimal_string(i as u64).as_str());
                let ghost text = line@;
                replies.push(line);
                proof {
                    assert(texts(replies@) =~= said.push(text));
                }
            },
        }
        proof {
            assert forall|user: u64| users@.contains(user) <==> named_users(more).contains(
                user,
            ) by {
                if named_users(more).contains(user) {
                    let j = choose|j: int|
                        0 <= j < more.len() && number_u64(#[trigger] more[j]@) == Some(user);
                    if j < i {
                        assert(before.contains(user));
                        let k = choose|k: int| 0 <= k < before.len() && before[k] == user;
                        assert(users@[k] == user);
                    } else {
                        assert(users@[users@.len() - 1] == user);
                    }
                }
                if users@.contains(user) {
                    let k = choose|k: int| 0 <= k < users@.len() && users@[k] == user;
                    if k < before.len() {
                        assert(before.contains(user));
                    }
                }
            }
        }
        i = i + 1;
    }
    proof {
        assert(args@.take(args.len() as int) =~= args@);
    }
    (users, replies)
}

/// Makes admins of the users that the words of `args` name. What is said
/// to the words that name no user comes back, in their order.
pub fn add_admins(admins: &mut HashSet<u64>, args: &Vec<String>) -> (replies: Vec<String>)
    ensures
        final(admins)@ == old(admins)@.union(named_users(args@)),
        texts(replies@) == complaints(args@),
{
    let (users, replies) = read_users(args);
    let mut i: usize = 0;
    while i < users.len()
        invariant
            i <= users.len(),
            forall|user: u64|
                admins@.contains(user) <==> old(admins)@.contains(user) || users@.take(
                    i as int,
                ).contains(user),
        decreases users.len() - i,
    {
        let ghost more = users@.take(i + 1);
        admins.insert(users[i]);
        proof {
            assert forall|user: u64|
                admins@.contains(user) <==> old(admins)@.contains(user) || more.contains(
                    user,
                ) by {
                if user == users@[i as int] {
                    assert(more[i as int] == user);
                }
            }
        }
        i = i + 1;
    }
    proof {
        assert(users@.take(users.len() as int) =~= users@);
    }
    replies
}

/// Takes the users that the words of `args` name out of the admins. What
/// is said to the words that name no user comes back, in their order.
pub fn remove_admins(admins: &mut HashSet<u64>, args: &Vec<String>) -> (replies: Vec<String>)
    ensures
        final(admins)@ == old(admins)@.difference(named_users(args@)),
        texts(replies@) == complaints(args@),
{
    let (users, replies) = read_users(args);
    let mut i: usize = 0;
    while i < users.len()
        invariant
            i <= users.len(),
            forall|user: u64|
                admins@.contains(user) <==> old(admins)@.contains(user) && !users@.take(
                    i as int,
                ).contains(user),
        decreases users.len() - i,
    {
        let ghost more = users@.take(i + 1);
        admins.remove(&users[i]);
        proof {
            assert forall|user: u64|
                admins@.contains(user) <==> old(admins)@.contains(user) && !more.contains(
                    user,
                ) by {
                if user == users@[i as int] {
                    assert(more[i as int] == user);
                }
            }
        }
        i = i + 1;
    }
    proof {
        assert(users@.take(users.len() as int) =~= users@);
    }
    replies
}

/// Whether `user` is an admin.
pub fn is_admin(admins: &HashSet<u64>, user: u64) -> (admin: bool)
    ensures
        admin == admins@.contains(user),
{
    admins.contains(&user)
}

} // verus!

//! The text that the bot writes: numbers, user mentions and lists of them.

use serenity::model::id::UserId;
use serenity::model::misc::Mention;
use vstd::prelude::*;
use vstd::std_specs::iter::IteratorSpec;
use vstd::string::StringExecFns;

verus! {

/// The digit `d` as text, for `d` below ten.
pub open spec fn digit(d: nat) -> Seq<char> {
    if d == 0 {
        "0"@
    } else if d == 1 {
        "1"@
    } else if d == 2 {
        "2"@
    } else if d == 3 {
        "3"@
    } else if d == 4 {
        "4"@
    } else if d == 5 {
        "5"@
    } else if d == 6 {
        "6"@
    } else if d == 7 {
        "7"@
    } else if d == 8 {
        "8"@
    } else {
        "9"@
    }
}

/// A number in decimal, without sign or leading zeros.
pub open spec fn decimal(n: nat) -> Seq<char>
    decreases n,
{
    if n < 10 {
        digit(n)
    } else {
        decimal(n / 10) + digit(n % 10)
    }
}

/// The text by which the platform addresses the user `id`.
pub open spec fn mention(id: u64) -> Seq<char> {
    "<@"@ + decimal(id as nat) + ">"@
}

/// The mentions of `ids`, in order, with `", "` between them.
pub open spec fn mention_list(ids: Seq<u64>) -> Seq<char>
    decreases ids.len(),
{
    if ids.len() == 0 {
        Seq::empty()
    } else if ids.len() == 1 {
        mention(ids[0])
    } else {
        mention_list(ids.drop_last()) + ", "@ + mention(ids.last())
    }
}

/// A roster field: the mentions of `ids`, or `"None"` where there are none.
pub open spec fn mention_field(ids: Seq<u64>) -> Seq<char> {
    if ids.len() == 0 {
        "None"@
    } else {
        mention_list(ids)
    }
}

/// The mentions of `ids` as an address: `"a"`, `"a, and b"`, `"a, b, and c"`.
pub open spec fn mention_address(ids: Seq<u64>) -> Seq<char> {
    if ids.len() == 0 {
        Seq::empty()
    } else if ids.len() == 1 {
        mention(ids[0])
    } else {
        mention_list(ids.drop_last()) + ", and "@ + mention(ids.last())
    }
}

/// The digit `d` as text.
fn digit_str(d: u64) -> (text: &'static str)
    requires
        d < 10,
    ensures
        text@ == digit(d as nat),
{
    if d == 0 {
        "0"
    } else if d == 1 {
        "1"
    } else if d == 2 {
        "2"
    } else if d == 3 {
        "3"
    } else if d == 4 {
        "4"
    } else if d == 5 {
        "5"
    } else if d == 6 {
        "6"
    } else if d == 7 {
        "7"
    } else if d == 8 {
        "8"
    } else {
        "9"
    }
}

/// Writes `n` in decimal.
pub fn decimal_string(n: u64) -> (text: String)
    ensures
        text@ == decimal(n as nat),
    decreases n,
{
    if n < 10 {
        String::from_str(digit_str(n))
    } else {
        let mut text = decimal_string(n / 10);
        text.append(digit_str(n % 10));
        text
    }
}

/// serenity's `Mention`, made from a `UserId` and written with `to_string`:
/// `<@`, the id in decimal, `>`.
#[verifier::external_body]
fn user_mention(id: u64) -> (text: String)
    ensures
        text@ == mention(id),
{
    Mention::from(UserId(id)).to_string()
}

/// Writes the mentions of `ids`, in order, with `", "` between them.
pub fn render_mention_list(ids: &Vec<u64>) -> (text: String)
    ensures
        text@ == mention_list(ids@),
{
    let mut text = String::new();
    let mut i: usize = 0;
    while i < ids.len()
        invariant
            i <= ids.len(),
            text@ == mention_list(ids@.take(i as int)),
        decreases ids.len() - i,
    {
        proof {
            assert(ids@.take(i + 1).drop_last() =~= ids@.take(i as int));
        }
        if i > 0 {
            text.append(", ");
        }
        let one = user_mention(ids[i]);
        text.append(one.as_str());
        i = i + 1;
    }
    proof {
        assert(ids@.take(ids.len() as int) =~= ids@);
    }
    text
}

/// Writes a roster field: the mentions of `ids`, or `"None"`.
pub fn render_mention_field(ids: &Vec<u64>) -> (text: String)
    ensures
        text@ == mention_field(ids@),
{
    if ids.len() == 0 {
        String::from_str("None")
    } else {
        render_mention_list(ids)
    }
}

/// Writes the mentions of `ids` as an address, with `", and "` before the
/// last of several.
pub fn render_mention_address(ids: &Vec<u64>) -> (text: String)
    ensures
        text@ == mention_address(ids@),
{
    let mut text = String::new();
    let mut i: usize = 0;
    while i < ids.len()
        invariant
            i <= ids.len(),
            i < ids.len() ==> text@ == mention_list(ids@.take(i as int)),
            i == ids.len() ==> text@ == mention_address(ids@),
        decreases ids.len() - i,
    {
        proof {
            assert(ids@.take(i + 1).drop_last() =~= ids@.take(i as int));
        }
        if i > 0 {
            if i == ids.len() - 1 {
                text.append(", and ");
            } else {
                text.append(", ");
            }
        }
        let one = user_mention(ids[i]);
        text.append(one.as_str());
        i = i + 1;
    }
    text
}

/// The characters of `text`.
pub fn chars_of(text: &str) -> (chars: Vec<char>)
    ensures
        chars@ == text@,
{
    let mut chars: Vec<char> = Vec::new();
    for c in it: text.chars()
        invariant
            chars@ == it.seq().take(it.index()),
    {
        chars.push(c);
    }
    proof {
        let all = vstd::string::spec_iter(text).remaining();
        assert(all.take(all.len() as int) =~= all);
    }
    chars
}

/// `c` with the letters `A` to `Z` turned into `a` to `z`.
pub open spec fn ascii_lower(c: char) -> char {
    if 'A' <= c && c <= 'Z' {
        ((c as u8) + 32) as char
    } else {
        c
    }
}

/// `text` with the letters `A` to `Z` turned into `a` to `z`.
pub open spec fn lowered(text: Seq<char>) -> Seq<char> {
    Seq::new(text.len(), |i: int| ascii_lower(text[i]))
}

/// `c` with the letters `A` to `Z` turned into `a` to `z`.
pub fn lower_char(c: char) -> (lower: char)
    ensures
        lower == ascii_lower(c),
{
    if 'A' <= c && c <= 'Z' {
        ((c as u8) + 32) as char
    } else {
        c
    }
}

/// std's `str::to_ascii_lowercase`: a copy in which the letters `A` to `Z`
/// are `a` to `z` and every other character is as it was.
#[verifier::external_body]
fn ascii_lowercase(text: &str) -> (lower: String)
    ensures
        lower@ == lowered(text@),
{
    text.to_ascii_lowercase()
}

/// `text` with the letters `A` to `Z` turned into `a` to `z`.
pub fn to_lowercase(text: &str) -> (lower: String)
    ensures
        lower@ == lowered(text@),
        lower@.len() == text@.len(),
{
    ascii_lowercase(text)
}

/// What a decimal digit counts.
pub open spec fn digit_value(c: char) -> Option<nat> {
    if '0' <= c && c <= '9' {
        Some((c as int - 48) as nat)
    } else {
        None
    }
}

/// The number that a run of decimal digits writes. An empty run, or one
/// with anything but digits in it, writes none.
pub open spec fn digits_value(digits: Seq<char>) -> Option<nat>
    decreases digits.len(),
{
    if digits.len() == 0 {
        None
    } else if digits.len() == 1 {
        digit_value(digits[0])
    } else {
        match (digits_value(digits.drop_last()), digit_value(digits.last())) {
            (Some(front), Some(d)) => Some(front * 10 + d),
            _ => None,
        }
    }
}

/// The number that `text` writes: decimal digits, with `+` allowed in
/// front of them.
pub open spec fn number(text: Seq<char>) -> Option<nat> {
    if text.len() > 0 && text[0] == '+' {
        digits_value(text.drop_first())
    } else {
        digits_value(text)
    }
}

/// The number that `text` writes, where it fits in a `u64`.
pub open spec fn number_u64(text: Seq<char>) -> Option<u64> {
    match number(text) {
        Some(value) => if value <= u64::MAX {
            Some(value as u64)
        } else {
            None
        },
        None => None,
    }
}

/// Where a run of digits writes a number, each run that it starts with
/// writes one that is no larger.
pub proof fn lemma_digits_prefix(digits: Seq<char>, k: int)
    requires
        1 <= k <= digits.len(),
        digits_value(digits) is Some,
    ensures
        digits_value(digits.take(k)) is Some,
        digits_value(digits.take(k))->0 <= digits_value(digits)->0,
    decreases digits.len(),
{
    if k == digits.len() {
        assert(digits.take(k) =~= digits);
    } else {
        assert(digits.drop_last().take(k) =~= digits.take(k));
        lemma_digits_prefix(digits.drop_last(), k);
    }
}

/// Where a run of digits writes no number, no run that starts with it
/// does.
pub proof fn lemma_digits_bad_prefix(digits: Seq<char>, k: int)
    requires
        1 <= k <= digits.len(),
        digits_value(digits.take(k)) is None,
    ensures
        digits_value(digits) is None,
{
    if digits_value(digits) is Some {
        lemma_digits_prefix(digits, k);
    }
}

/// Reads the run of digits that `chars` holds from `start` on.
fn digits_u64(chars: &Vec<char>, start: usize) -> (value: Option<u64>)
    requires
        start <= chars.len(),
    ensures
        value == match digits_value(chars@.skip(start as int)) {
            Some(v) => if v <= u64::MAX {
                Some(v as u64)
            } else {
                None
            },
            None => None,
        },
{
    let ghost digits = chars@.skip(start as int);
    if start == chars.len() {
        return None;
    }
    let mut value: u64 = 0;
    let mut i: usize = start;
    while i < chars.len()
        invariant
            start <= i <= chars.len(),
            start < chars.len(),
            digits == chars@.skip(start as int),
            i > start ==> digits_value(digits.take(i - start)) == Some(value as nat),
            i == start ==> value == 0,
        decreases chars.len() - i,
    {
        let c = chars[i];
        proof {
            assert(digits.take(i + 1 - start).drop_last() =~= digits.take(i - start));
        }
        if !('0' <= c && c <= '9') {
            proof {
                let run = digits.take(i + 1 - start);
                assert(run.last() == c);
                lemma_digits_bad_prefix(digits, i + 1 - start);
            }
            return None;
        }
        let d: u64 = (c as u8 - 48) as u64;
        if value > (u64::MAX - d) / 10 {
            proof {
                if digits_value(digits) is Some {
                    lemma_digits_prefix(digits, i + 1 - start);
                }
            }
            return None;
        }
        value = value * 10 + d;
        i = i + 1;
    }
    proof {
        assert(digits.take(digits.len() as int) =~= digits);
    }
    Some(value)
}

/// Reads a number: decimal digits, with `+` allowed in front of them.
/// Anything else, and a number over `u64::MAX`, gives `None`.
pub fn parse_u64(chars: &Vec<char>) -> (value: Option<u64>)
    ensures
        value == number_u64(chars@),
{
    if chars.len() > 0 && chars[0] == '+' {
        digits_u64(chars, 1)
    } else {
        proof {
            assert(chars@.skip(0) =~= chars@);
        }
        digits_u64(chars, 0)
    }
}

/// The pieces of `text` between the separators: one more than there are
/// separators in it, each without a separator, some perhaps empty.
pub open spec fn split(text: Seq<char>, separator: char) -> Seq<Seq<char>>
    decreases text.len(),
{
    if text.len() == 0 {
        seq![Seq::<char>::empty()]
    } else {
        let front = split(text.drop_last(), separator);
        if text.last() == separator {
            front.push(Seq::<char>::empty())
        } else {
            front.drop_last().push(front.last().push(text.last()))
        }
    }
}

/// The characters of each piece.
pub open spec fn pieces(parts: Seq<Vec<char>>) -> Seq<Seq<char>> {
    Seq::new(parts.len(), |i: int| parts[i]@)
}

/// Cuts `chars` at every `separator`.
pub fn split_chars(chars: &Vec<char>, separator: char) -> (parts: Vec<Vec<char>>)
    ensures
        pieces(parts@) == split(chars@, separator),
{
    let mut parts: Vec<Vec<char>> = Vec::new();
    let mut current: Vec<char> = Vec::new();
    let mut i: usize = 0;
    while i < chars.len()
        invariant
            i <= chars.len(),
            pieces(parts@).push(current@) == split(chars@.take(i as int), separator),
        decreases chars.len() - i,
    {
        let c = chars[i];
        proof {
            assert(chars@.take(i + 1).drop_last() =~= chars@.take(i as int));
        }
        if c == separator {
            parts.push(current);
            current = Vec::new();
        } else {
            current.push(c);
        }
        i = i + 1;
    }
    proof {
        assert(chars@.take(chars.len() as int) =~= chars@);
    }
    parts.push(current);
    parts
}

/// Whether two texts are the same, character by character.
pub fn same_text(left: &str, right: &str) -> (same: bool)
    ensures
        same == (left@ == right@),
{
    let ours = chars_of(left);
    let theirs = chars_of(right);
    if ours.len() != theirs.len() {
        return false;
    }
    let mut i: usize = 0;
    while i < ours.len()
        invariant
            i <= ours.len(),
            ours.len() == theirs.len(),
            ours@ == left@,
            theirs@ == right@,
            forall|j: int| 0 <= j < i ==> ours@[j] == theirs@[j],
        decreases ours.len() - i,
    {
        if ours[i] != theirs[i] {
            return false;
        }
        i = i + 1;
    }
    assert(ours@ =~= theirs@);
    true
}

/// The bytes that `text` takes in UTF-8.
pub open spec fn byte_len(text: Seq<char>) -> nat {
    vstd::utf8::encode_utf8(text).len()
}

/// Counts the bytes that `text` takes in UTF-8.
pub fn count_bytes(text: &str) -> (count: usize)
    ensures
        count == byte_len(text@),
{
    text.as_bytes().len()
}

/// Whether `word` stands in `text` from the position `at` on.
pub open spec fn occurs_at(text: Seq<char>, word: Seq<char>, at: int) -> bool {
    0 <= at && at + word.len() <= text.len() && text.subrange(at, at + word.len()) == word
}

/// Whether `word` stands somewhere in `text`.
pub open spec fn has_word(text: Seq<char>, word: Seq<char>) -> bool {
    exists|at: int| occurs_at(text, word, at)
}

/// Whether `word` stands in `text` from the position `at` on.
fn matches_at(text: &Vec<char>, word: &Vec<char>, at: usize) -> (same: bool)
    requires
        at + word.len() <= text.len(),
    ensures
        same == occurs_at(text@, word@, at as int),
{
    let mut i: usize = 0;
    while i < word.len()
        invariant
            i <= word.len(),
            at + word.len() <= text.len(),
            forall|j: int| 0 <= j < i ==> text@[at + j] == word@[j],
        decreases word.len() - i,
    {
        if text[at + i] != word[i] {
            return false;
        }
        i = i + 1;
    }
    assert(text@.subrange(at as int, at + word.len()) =~= word@);
    true
}

/// Whether `word` stands somewhere in `text`.
pub fn contains_word(text: &Vec<char>, word: &str) -> (found: bool)
    ensures
        found == has_word(text@, word@),
{
    let sought = chars_of(word);
    if sought.len() > text.len() {
        return false;
    }
    if sought.len() == 0 {
        assert(text@.subrange(0, 0) =~= sought@);
        assert(occurs_at(text@, word@, 0));
        return true;
    }
    let last: usize = text.len() - sought.len();
    let mut at: usize = 0;
    while at <= last
        invariant
            at <= last + 1,
            last == text.len() - sought.len(),
            0 < sought.len() <= text.len(),
            sought@ == word@,
            forall|k: int| 0 <= k < at ==> !occurs_at(text@, word@, k),
        decreases last + 1 - at,
    {
        if matches_at(text, &sought, at) {
            return true;
        }
        at = at + 1;
    }
    false
}

} // verus!

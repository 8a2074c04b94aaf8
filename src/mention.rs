//! The mention syntax of the messaging service: `<#id>` for a channel, and
//! `<@id>`, `<@!id>` or `<@&id>` for a user or a role. Digits are ASCII.

use vstd::prelude::*;
use crate::text::is_digit;

verus! {

/// The number of digits in a row from position `i` of `s`.
pub open spec fn digit_run(s: Seq<char>, i: int) -> nat
    decreases s.len() - i,
{
    if 0 <= i < s.len() && is_digit(s[i]) {
        1 + digit_run(s, i + 1)
    } else {
        0
    }
}

/// The position of the first digit of a mention that begins at `i`: after
/// `<#` for a channel; after `<@`, and a `!` or `&` if one follows, for a user
/// or a role.
pub open spec fn id_start(s: Seq<char>, i: int, channel: bool) -> int {
    if channel {
        i + 2
    } else if i + 2 < s.len() && (s[i + 2] == '!' || s[i + 2] == '&') {
        i + 3
    } else {
        i + 2
    }
}

/// The digits of the mention that begins at position `i` of `s`, if one does.
pub open spec fn mention_id_at(s: Seq<char>, i: int, channel: bool) -> Option<Seq<char>> {
    let start = id_start(s, i, channel);
    let n = digit_run(s, start);
    if 0 <= i && i + 1 < s.len() && s[i] == '<' && s[i + 1] == (if channel {
        '#'
    } else {
        '@'
    }) && n > 0 && start + n < s.len() && s[start + n] == '>' {
        Some(s.subrange(start, start + n))
    } else {
        None
    }
}

/// The digits of the leftmost mention in `s` from position `i` on.
pub open spec fn first_mention_id(s: Seq<char>, i: int, channel: bool) -> Option<Seq<char>>
    decreases s.len() - i,
{
    if i < 0 || i >= s.len() {
        None
    } else {
        match mention_id_at(s, i, channel) {
            Some(d) => Some(d),
            None => first_mention_id(s, i + 1, channel),
        }
    }
}

fn digit_at(s: &str, j: usize) -> (r: bool)
    requires
        j < s@.len(),
    ensures
        r == is_digit(s@[j as int]),
{
    let c = s.get_char(j);
    '0' <= c && c <= '9'
}

fn count_digits(s: &str, n: usize, i: usize) -> (r: usize)
    requires
        n == s@.len(),
        i <= n,
    ensures
        r == digit_run(s@, i as int),
        i + r <= n,
{
    let mut j: usize = i;
    while j < n && digit_at(s, j)
        invariant
            n == s@.len(),
            i <= j <= n,
            digit_run(s@, i as int) == (j - i) + digit_run(s@, j as int),
        decreases n - j,
    {
        j = j + 1;
    }
    j - i
}

fn id_at(s: &str, n: usize, i: usize, channel: bool) -> (r: Option<String>)
    requires
        n == s@.len(),
        i < n,
    ensures
        match mention_id_at(s@, i as int, channel) {
            Some(d) => r matches Some(t) && t@ == d,
            None => r is None,
        },
{
    if i + 1 >= n || s.get_char(i) != '<' {
        return None;
    }
    let second = s.get_char(i + 1);
    if (channel && second != '#') || (!channel && second != '@') {
        return None;
    }
    let mut start = i + 2;
    if !channel && i + 2 < n {
        let c = s.get_char(i + 2);
        if c == '!' || c == '&' {
            start = i + 3;
        }
    }
    assert(start == id_start(s@, i as int, channel));
    let run = count_digits(s, n, start);
    if run == 0 || start + run >= n || s.get_char(start + run) != '>' {
        return None;
    }
    Some(String::from_str(s.substring_char(start, start + run)))
}

fn first_id(s: &str, channel: bool) -> (r: Option<String>)
    ensures
        match first_mention_id(s@, 0, channel) {
            Some(d) => r matches Some(t) && t@ == d,
            None => r is None,
        },
{
    let n = s.unicode_len();
    let mut i: usize = 0;
    while i < n
        invariant
            n == s@.len(),
            i <= n,
            first_mention_id(s@, 0, channel) == first_mention_id(s@, i as int, channel),
        decreases n - i,
    {
        let found = id_at(s, n, i, channel);
        if found.is_some() {
            return found;
        }
        i = i + 1;
    }
    None
}

/// The id of the leftmost channel mention in `value`.
pub fn parse_channel(value: &str) -> (r: Option<String>)
    ensures
        match first_mention_id(value@, 0, true) {
            Some(d) => r matches Some(t) && t@ == d,
            None => r is None,
        },
{
    first_id(value, true)
}

/// The id of the leftmost user or role mention in `value`.
pub fn parse_mention(value: &str) -> (r: Option<String>)
    ensures
        match first_mention_id(value@, 0, false) {
            Some(d) => r matches Some(t) && t@ == d,
            None => r is None,
        },
{
    first_id(value, false)
}

} // verus!

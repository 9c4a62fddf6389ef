//! Length and shape rules for text fields.

use vstd::prelude::*;
use vstd::string::*;
use crate::marshaling::id_marshaling::{all_digits, is_digit};
use crate::status::{Code, Field, Reason, Status};

verus! {

/// The failure that validation reports for a reason.
pub open spec fn invalid(reason: Reason) -> Status {
    Status { code: Code::InvalidArgument, reason }
}

pub fn invalid_argument(reason: Reason) -> (r: Status)
    ensures
        r == invalid(reason),
{
    Status::new(Code::InvalidArgument, reason)
}

/// The verdict on a text of `len` characters that must have between `min`
/// and `max` of them.
pub open spec fn length_verdict(len: nat, field: Field, min: nat, max: nat) -> Result<(), Status> {
    if len < min {
        Err(invalid(Reason::TooShort(field)))
    } else if len > max {
        Err(invalid(Reason::TooLong(field)))
    } else {
        Ok(())
    }
}

/// Checks that `value` has between `min` and `max` characters.
pub fn validate_length(value: &str, field: Field, min: usize, max: usize) -> (r: Result<(), Status>)
    ensures
        r == length_verdict(value@.len(), field, min as nat, max as nat),
{
    let len: usize = value.unicode_len();
    if len < min {
        Err(invalid_argument(Reason::TooShort(field)))
    } else if len > max {
        Err(invalid_argument(Reason::TooLong(field)))
    } else {
        Ok(())
    }
}

/// The verdict on an optional text that may have at most `max` characters.
pub open spec fn max_length_verdict(value: Option<String>, field: Field, max: nat) -> Result<
    (),
    Status,
> {
    match value {
        None => Ok(()),
        Some(v) => length_verdict(v@.len(), field, 0, max),
    }
}

/// Checks that `value`, where present, has at most `max` characters.
pub fn validate_max_length(value: Option<String>, field: Field, max: usize) -> (r: Result<
    (),
    Status,
>)
    ensures
        r == max_length_verdict(value, field, max as nat),
{
    match value {
        None => Ok(()),
        Some(v) => validate_length(v.as_str(), field, 0, max),
    }
}

/// A character that a username may hold: an ASCII letter, a digit or `_`.
pub open spec fn is_username_char(c: char) -> bool {
    ('a' <= c && c <= 'z') || ('A' <= c && c <= 'Z') || is_digit(c) || c == '_'
}

pub open spec fn all_username_chars(s: Seq<char>) -> bool {
    forall|i: int| 0 <= i < s.len() ==> is_username_char(#[trigger] s[i])
}

/// The verdict on a username: 1 to 47 characters, each a username character.
pub open spec fn username_verdict(s: Seq<char>) -> Result<(), Status> {
    if s.len() < 1 {
        Err(invalid(Reason::TooShort(Field::Username)))
    } else if s.len() > 47 {
        Err(invalid(Reason::TooLong(Field::Username)))
    } else if !all_username_chars(s) {
        Err(invalid(Reason::InvalidUsername))
    } else {
        Ok(())
    }
}

fn username_char(c: char) -> (r: bool)
    ensures
        r == is_username_char(c),
{
    ('a' <= c && c <= 'z') || ('A' <= c && c <= 'Z') || ('0' <= c && c <= '9') || c == '_'
}

pub fn validate_username(value: &str) -> (r: Result<(), Status>)
    ensures
        r == username_verdict(value@),
{
    validate_length(value, Field::Username, 1, 47)?;
    let n: usize = value.unicode_len();
    let mut i: usize = 0;
    while i < n
        invariant
            n == value@.len(),
            1 <= n <= 47,
            0 <= i <= n,
            forall|j: int| 0 <= j < i ==> is_username_char(#[trigger] value@[j]),
        decreases n - i,
    {
        if !username_char(value.get_char(i)) {
            assert(!is_username_char(value@[i as int]));
            return Err(invalid_argument(Reason::InvalidUsername));
        }
        i = i + 1;
    }
    Ok(())
}

/// How often `c` occurs in `s`.
pub open spec fn occurrences(s: Seq<char>, c: char) -> nat
    decreases s.len(),
{
    if s.len() == 0 {
        0
    } else {
        occurrences(s.drop_last(), c) + if s.last() == c {
            1nat
        } else {
            0nat
        }
    }
}

/// A text shaped like an address: at most 255 characters, no blank, and
/// exactly one `@`, which is neither the first nor the last character.
pub open spec fn email_shaped(s: Seq<char>) -> bool {
    &&& 3 <= s.len() <= 255
    &&& occurrences(s, '@') == 1
    &&& occurrences(s, ' ') == 0
    &&& s.first() != '@'
    &&& s.last() != '@'
}

pub open spec fn email_verdict(s: Seq<char>) -> Result<(), Status> {
    if email_shaped(s) {
        Ok(())
    } else {
        Err(invalid(Reason::InvalidEmail))
    }
}

pub fn validate_email(value: &str) -> (r: Result<(), Status>)
    ensures
        r == email_verdict(value@),
{
    let n: usize = value.unicode_len();
    if n < 3 || n > 255 {
        return Err(invalid_argument(Reason::InvalidEmail));
    }
    let mut ats: usize = 0;
    let mut blanks: usize = 0;
    let mut i: usize = 0;
    while i < n
        invariant
            n == value@.len(),
            n <= 255,
            0 <= i <= n,
            ats == occurrences(value@.take(i as int), '@'),
            blanks == occurrences(value@.take(i as int), ' '),
            ats <= i,
            blanks <= i,
        decreases n - i,
    {
        let c = value.get_char(i);
        proof {
            assert(value@.take(i + 1).drop_last() =~= value@.take(i as int));
            assert(value@.take(i + 1).last() == c);
        }
        if c == '@' {
            ats = ats + 1;
        }
        if c == ' ' {
            blanks = blanks + 1;
        }
        i = i + 1;
    }
    proof {
        assert(value@.take(n as int) =~= value@);
    }
    if ats == 1 && blanks == 0 && value.get_char(0) != '@' && value.get_char(n - 1) != '@' {
        Ok(())
    } else {
        Err(invalid_argument(Reason::InvalidEmail))
    }
}

/// The part of a phone number after its optional leading `+`.
pub open spec fn phone_digits(s: Seq<char>) -> Seq<char> {
    if s.len() > 0 && s[0] == '+' {
        s.skip(1)
    } else {
        s
    }
}

/// A text shaped like a phone number: an optional leading `+`, then 7 to 15
/// decimal digits.
pub open spec fn phone_shaped(s: Seq<char>) -> bool {
    7 <= phone_digits(s).len() <= 15 && all_digits(phone_digits(s))
}

pub open spec fn phone_verdict(s: Seq<char>) -> Result<(), Status> {
    if phone_shaped(s) {
        Ok(())
    } else {
        Err(invalid(Reason::InvalidPhone))
    }
}

pub fn validate_phone(value: &str) -> (r: Result<(), Status>)
    ensures
        r == phone_verdict(value@),
{
    let n: usize = value.unicode_len();
    let start: usize = if n > 0 && value.get_char(0) == '+' {
        1
    } else {
        0
    };
    let ghost digits = phone_digits(value@);
    if n - start < 7 || n - start > 15 {
        return Err(invalid_argument(Reason::InvalidPhone));
    }
    let mut i: usize = start;
    while i < n
        invariant
            n == value@.len(),
            start <= i <= n,
            start <= 1,
            7 <= n - start <= 15,
            start == 1 <==> (n > 0 && value@[0] == '+'),
            digits == phone_digits(value@),
            forall|j: int| 0 <= j < i - start ==> is_digit(#[trigger] digits[j]),
        decreases n - i,
    {
        let c = value.get_char(i);
        assert(digits[i - start] == c);
        if !('0' <= c && c <= '9') {
            assert(!is_digit(digits[i - start]));
            return Err(invalid_argument(Reason::InvalidPhone));
        }
        i = i + 1;
    }
    Ok(())
}

} // verus!

//! Identifiers on the wire are decimal strings; stored identifiers are
//! positive `i64` values.

use vstd::prelude::*;
use vstd::string::*;
use crate::status::{Code, Field, Reason, Status};

verus! {

pub open spec fn is_digit(c: char) -> bool {
    '0' <= c && c <= '9'
}

pub open spec fn digit_value(c: char) -> int {
    c as int - '0' as int
}

pub open spec fn all_digits(s: Seq<char>) -> bool {
    forall|i: int| 0 <= i < s.len() ==> is_digit(#[trigger] s[i])
}

/// The number that a string of decimal digits denotes, most significant
/// digit first.
pub open spec fn decimal_value(s: Seq<char>) -> int
    decreases s.len(),
{
    if s.len() == 0 {
        0
    } else {
        10 * decimal_value(s.drop_last()) + digit_value(s.last())
    }
}

/// The stored identifier that a wire identifier denotes: the text is a
/// non-empty run of decimal digits whose value is positive and fits `i64`.
pub open spec fn db_id(s: Seq<char>) -> Option<i64> {
    if s.len() > 0 && all_digits(s) && 0 < decimal_value(s) <= i64::MAX {
        Some(decimal_value(s) as i64)
    } else {
        None
    }
}

/// The value of a digit string never shrinks when digits are appended.
pub proof fn lemma_decimal_value_monotone(s: Seq<char>, k: int)
    requires
        all_digits(s),
        0 <= k <= s.len(),
    ensures
        0 <= decimal_value(s.take(k)) <= decimal_value(s),
    decreases s.len() - k,
{
    if k == s.len() {
        assert(s.take(k) =~= s);
        lemma_decimal_value_nonnegative(s);
    } else {
        lemma_decimal_value_monotone(s, k + 1);
        let t = s.take(k + 1);
        assert(t.drop_last() =~= s.take(k));
        assert(is_digit(s[k]));
        assert(t.last() == s[k]);
        assert(all_digits(s.take(k))) by {
            assert forall|i: int| 0 <= i < s.take(k).len() implies is_digit(
                #[trigger] s.take(k)[i],
            ) by {
                assert(s.take(k)[i] == s[i]);
            }
        }
        lemma_decimal_value_nonnegative(s.take(k));
    }
}

pub proof fn lemma_decimal_value_nonnegative(s: Seq<char>)
    requires
        all_digits(s),
    ensures
        0 <= decimal_value(s),
    decreases s.len(),
{
    if s.len() > 0 {
        assert(is_digit(s[s.len() - 1]));
        assert forall|i: int| 0 <= i < s.drop_last().len() implies is_digit(
            #[trigger] s.drop_last()[i],
        ) by {
            assert(s.drop_last()[i] == s[i]);
        }
        lemma_decimal_value_nonnegative(s.drop_last());
    }
}

fn digit_of(c: char) -> (r: Option<u8>)
    ensures
        r is Some <==> is_digit(c),
        r is Some ==> r->0 as int == digit_value(c),
{
    match c {
        '0' => Some(0),
        '1' => Some(1),
        '2' => Some(2),
        '3' => Some(3),
        '4' => Some(4),
        '5' => Some(5),
        '6' => Some(6),
        '7' => Some(7),
        '8' => Some(8),
        '9' => Some(9),
        _ => None,
    }
}

/// Parses a wire identifier. `None` exactly where the text is not a positive
/// decimal number that fits `i64`.
pub fn to_db_id(text: &str) -> (r: Option<i64>)
    ensures
        r == db_id(text@),
{
    let n: usize = text.unicode_len();
    if n == 0 {
        return None;
    }
    let mut acc: i64 = 0;
    let mut i: usize = 0;
    while i < n
        invariant
            n == text@.len(),
            0 <= i <= n,
            all_digits(text@.take(i as int)),
            acc == decimal_value(text@.take(i as int)),
            0 <= acc,
        decreases n - i,
    {
        let c = text.get_char(i);
        let ghost prefix = text@.take(i as int);
        let ghost next = text@.take(i + 1);
        proof {
            assert(next.drop_last() =~= prefix);
            assert(next.last() == c);
        }
        match digit_of(c) {
            None => {
                proof {
                    assert(!is_digit(text@[i as int]));
                }
                return None;
            },
            Some(d) => {
                proof {
                    assert forall|j: int| 0 <= j < next.len() implies is_digit(
                        #[trigger] next[j],
                    ) by {
                        if j < i {
                            assert(prefix[j] == next[j]);
                        }
                    }
                }
                if acc > (i64::MAX - d as i64) / 10 {
                    proof {
                        assert(decimal_value(next) > i64::MAX);
                        if all_digits(text@) {
                            lemma_decimal_value_monotone(text@, i + 1);
                        }
                    }
                    return None;
                }
                acc = acc * 10 + d as i64;
            },
        }
        i = i + 1;
    }
    proof {
        assert(text@.take(n as int) =~= text@);
    }
    if acc > 0 {
        Some(acc)
    } else {
        None
    }
}

/// Parses a required identifier, naming the field on failure.
pub fn to_db_id_or_err(text: &str, field: Field) -> (r: Result<i64, Status>)
    ensures
        r == match db_id(text@) {
            Some(id) => Ok::<i64, Status>(id),
            None => Err(Status { code: Code::InvalidArgument, reason: Reason::InvalidId(field) }),
        },
{
    match to_db_id(text) {
        Some(id) => Ok(id),
        None => Err(Status::new(Code::InvalidArgument, Reason::InvalidId(field))),
    }
}

/// What an optional identifier denotes: absent stays absent.
pub open spec fn db_opt_id(text: Option<Seq<char>>, field: Field) -> Result<Option<i64>, Status> {
    match text {
        None => Ok(None),
        Some(t) => match db_id(t) {
            Some(id) => Ok(Some(id)),
            None => Err(Status { code: Code::InvalidArgument, reason: Reason::InvalidId(field) }),
        },
    }
}

pub open spec fn opt_text(text: Option<String>) -> Option<Seq<char>> {
    match text {
        None => None,
        Some(t) => Some(t@),
    }
}

/// Parses an optional identifier: absent is fine, present must parse.
pub fn to_db_opt_id_or_err(text: &Option<String>, field: Field) -> (r: Result<Option<i64>, Status>)
    ensures
        r == db_opt_id(opt_text(*text), field),
{
    match text {
        None => Ok(None),
        Some(t) => match to_db_id(t.as_str()) {
            Some(id) => Ok(Some(id)),
            None => Err(Status::new(Code::InvalidArgument, Reason::InvalidId(field))),
        },
    }
}

pub open spec fn digit_char(d: nat) -> char {
    if d == 0 {
        '0'
    } else if d == 1 {
        '1'
    } else if d == 2 {
        '2'
    } else if d == 3 {
        '3'
    } else if d == 4 {
        '4'
    } else if d == 5 {
        '5'
    } else if d == 6 {
        '6'
    } else if d == 7 {
        '7'
    } else if d == 8 {
        '8'
    } else {
        '9'
    }
}

/// The decimal text of a natural number, without leading zeros.
pub open spec fn decimal_text(n: nat) -> Seq<char>
    decreases n,
{
    if n < 10 {
        seq![digit_char(n)]
    } else {
        decimal_text(n / 10).push(digit_char(n % 10))
    }
}

/// The wire text of a stored identifier; a minus sign leads a negative one.
pub open spec fn proto_id(id: i64) -> Seq<char> {
    if id >= 0 {
        decimal_text(id as nat)
    } else {
        seq!['-'] + decimal_text((-id) as nat)
    }
}

fn digit_str(d: u64) -> (r: &'static str)
    requires
        d < 10,
    ensures
        r@ == seq![digit_char(d as nat)],
{
    proof {
        reveal_strlit("0");
        reveal_strlit("1");
        reveal_strlit("2");
        reveal_strlit("3");
        reveal_strlit("4");
        reveal_strlit("5");
        reveal_strlit("6");
        reveal_strlit("7");
        reveal_strlit("8");
        reveal_strlit("9");
    }
    let r = if d == 0 {
        "0"
    } else if d == 1 {
        "1"
    } else if d == 2 {
        "2"
    } else if d == 3 {
        "3"
    } else if d == 4 {
        "4"
    } else if d == 5 {
        "5"
    } else if d == 6 {
        "6"
    } else if d == 7 {
        "7"
    } else if d == 8 {
        "8"
    } else {
        "9"
    };
    assert(r@ =~= seq![digit_char(d as nat)]);
    r
}

fn decimal_string(n: u64) -> (r: String)
    ensures
        r@ == decimal_text(n as nat),
    decreases n,
{
    if n < 10 {
        String::from_str(digit_str(n))
    } else {
        let head = decimal_string(n / 10);
        let r = head.concat(digit_str(n % 10));
        assert(r@ =~= decimal_text(n as nat));
        r
    }
}

/// Renders a stored identifier for the wire.
pub fn to_proto_id(id: i64) -> (r: String)
    ensures
        r@ == proto_id(id),
{
    if id >= 0 {
        decimal_string(id as u64)
    } else {
        let magnitude: u64 = (-(id + 1)) as u64 + 1;
        proof {
            reveal_strlit("-");
        }
        let r = String::from_str("-").concat(decimal_string(magnitude).as_str());
        assert(r@ =~= proto_id(id));
        r
    }
}

/// The text of a number is a digit string that denotes the number.
pub proof fn lemma_decimal_text_value(n: nat)
    ensures
        decimal_text(n).len() > 0,
        all_digits(decimal_text(n)),
        decimal_value(decimal_text(n)) == n,
    decreases n,
{
    if n < 10 {
        let t = decimal_text(n);
        assert(t.len() == 1);
        assert(t.drop_last() =~= Seq::<char>::empty());
        assert(decimal_value(t.drop_last()) == 0);
        assert(t.last() == digit_char(n));
    } else {
        lemma_decimal_text_value(n / 10);
        let h = decimal_text(n / 10);
        let t = decimal_text(n);
        assert(t.drop_last() =~= h);
        assert(t.last() == digit_char(n % 10));
        assert forall|i: int| 0 <= i < t.len() implies is_digit(#[trigger] t[i]) by {
            if i < h.len() {
                assert(t[i] == h[i]);
            }
        }
    }
}

/// Rendering a positive identifier and parsing the text gives it back.
pub proof fn lemma_id_round_trip(id: i64)
    requires
        id > 0,
    ensures
        db_id(proto_id(id)) == Some(id),
{
    lemma_decimal_text_value(id as nat);
}

} // verus!

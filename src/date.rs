//! Creation timestamps of indices.
//!
//! The index catalog reports an index's creation date as a string holding a
//! signed number of milliseconds since the Unix epoch. A [`Timestamp`] keeps
//! that number exactly, so parsing and reading back loses nothing.
use vstd::prelude::*;
use vstd::string::*;

verus! {

/// A point in time, in milliseconds since the Unix epoch (UTC).
#[derive(Clone, Copy, Debug, PartialEq, Eq, Structural)]
pub struct Timestamp {
    pub millis: i64,
}

/// The creation date of an index could not be read as a millisecond count.
#[derive(Debug)]
pub struct DateError {
    /// The text that was rejected.
    pub text: String,
}

pub open spec fn is_digit(c: char) -> bool {
    '0' <= c && c <= '9'
}

pub open spec fn digit_value(c: char) -> int {
    (c as int) - ('0' as int)
}

pub open spec fn all_digits(s: Seq<char>) -> bool {
    forall|i: int| 0 <= i < s.len() ==> is_digit(#[trigger] s[i])
}

/// The number written by the decimal digits `s`, most significant first.
pub open spec fn digits_value(s: Seq<char>) -> int
    decreases s.len(),
{
    if s.len() == 0 {
        0
    } else {
        digits_value(s.drop_last()) * 10 + digit_value(s.last())
    }
}

/// The integer that `s` writes: an optional `+` or `-` followed by one or
/// more decimal digits; `None` for any other text.
pub open spec fn decimal_value(s: Seq<char>) -> Option<int> {
    if s.len() > 0 && (s[0] == '-' || s[0] == '+') {
        let d = s.drop_first();
        if d.len() > 0 && all_digits(d) {
            Some(if s[0] == '-' { -digits_value(d) } else { digits_value(d) })
        } else {
            None
        }
    } else if s.len() > 0 && all_digits(s) {
        Some(digits_value(s))
    } else {
        None
    }
}

/// The millisecond count that `s` writes, when it is an integer that fits
/// in an `i64`.
pub open spec fn millis_of_text(s: Seq<char>) -> Option<i64> {
    match decimal_value(s) {
        Some(v) => if i64::MIN <= v <= i64::MAX {
            Some(v as i64)
        } else {
            None
        },
        None => None,
    }
}

pub open spec fn digit_char(n: nat) -> char {
    seq!['0', '1', '2', '3', '4', '5', '6', '7', '8', '9'][n as int]
}

/// The shortest decimal text of `n`.
pub open spec fn digits_text(n: nat) -> Seq<char>
    decreases n,
{
    if n < 10 {
        seq![digit_char(n)]
    } else {
        digits_text(n / 10).push(digit_char(n % 10))
    }
}

/// The decimal text of `m`, with a leading `-` when it is negative.
pub open spec fn decimal_text(m: int) -> Seq<char> {
    if m < 0 {
        seq!['-'] + digits_text((-m) as nat)
    } else {
        digits_text(m as nat)
    }
}

proof fn lemma_digit_char(n: nat)
    requires
        n < 10,
    ensures
        is_digit(digit_char(n)),
        digit_value(digit_char(n)) == n,
{
    let t = seq!['0', '1', '2', '3', '4', '5', '6', '7', '8', '9'];
    assert(t[0] == '0' && t[1] == '1' && t[2] == '2' && t[3] == '3' && t[4] == '4');
    assert(t[5] == '5' && t[6] == '6' && t[7] == '7' && t[8] == '8' && t[9] == '9');
}

proof fn lemma_digits_text(n: nat)
    ensures
        digits_text(n).len() > 0,
        all_digits(digits_text(n)),
        digits_value(digits_text(n)) == n,
    decreases n,
{
    let s = digits_text(n);
    if n < 10 {
        lemma_digit_char(n);
        assert(s.drop_last() =~= Seq::<char>::empty());
        assert(s.last() == digit_char(n));
        assert(digits_value(s.drop_last()) == 0);
    } else {
        lemma_digit_char(n % 10);
        lemma_digits_text(n / 10);
        assert(s.drop_last() =~= digits_text(n / 10));
        assert(s.last() == digit_char(n % 10));
        assert(digits_value(s) == (n / 10) as int * 10 + (n % 10) as int);
        assert forall|j: int| 0 <= j < s.len() implies is_digit(#[trigger] s[j]) by {
            if j < s.len() - 1 {
                assert(s[j] == digits_text(n / 10)[j]);
            }
        }
    }
}

/// A millisecond count written out in decimal and parsed back is the same
/// count: creation dates travel as text without losing precision.
pub proof fn lemma_creation_time_round_trip(m: i64)
    ensures
        millis_of_text(decimal_text(m as int)) == Some(m),
{
    let s = decimal_text(m as int);
    if m < 0 {
        lemma_digits_text((-(m as int)) as nat);
        assert(s.drop_first() =~= digits_text((-(m as int)) as nat));
    } else {
        lemma_digits_text(m as nat);
    }
}

/// Reads the millisecond count that `s` writes.
pub fn parse_millis(s: &str) -> (r: Option<i64>)
    ensures
        r == millis_of_text(s@),
{
    let n = s.unicode_len();
    if n == 0 {
        return None;
    }
    let first = s.get_char(0);
    let negative = first == '-';
    let start: usize = if first == '-' || first == '+' { 1 } else { 0 };
    if start == n {
        return None;
    }
    let ghost d = s@.subrange(start as int, n as int);
    let mut acc: u128 = 0;
    let mut big = false;
    let mut i: usize = start;
    while i < n
        invariant
            n == s@.len(),
            start <= i <= n,
            start < n,
            start == 0 || start == 1,
            start == 1 <==> (s@[0] == '-' || s@[0] == '+'),
            negative == (s@[0] == '-'),
            d == s@.subrange(start as int, n as int),
            all_digits(s@.subrange(start as int, i as int)),
            !big ==> acc == digits_value(s@.subrange(start as int, i as int)),
            !big ==> acc <= 9223372036854775808,
            big ==> digits_value(s@.subrange(start as int, i as int)) > 9223372036854775808,
        decreases n - i,
    {
        let c = s.get_char(i);
        if !('0' <= c && c <= '9') {
            proof {
                assert(d[i - start] == c);
                assert(!all_digits(d));
                if start == 0 {
                    assert(d =~= s@);
                } else {
                    assert(d =~= s@.drop_first());
                }
            }
            return None;
        }
        let ghost pre = s@.subrange(start as int, i as int);
        let ghost next = s@.subrange(start as int, i + 1);
        assert(next.drop_last() =~= pre);
        assert(all_digits(next)) by {
            assert forall|j: int| 0 <= j < next.len() implies is_digit(#[trigger] next[j]) by {
                if j < pre.len() {
                    assert(next[j] == pre[j]);
                }
            }
        }
        let dv = (c as u32 - '0' as u32) as u128;
        assert(digit_value(c) == dv);
        if !big {
            let v = acc * 10 + dv;
            if v > 9223372036854775808 {
                big = true;
            } else {
                acc = v;
            }
        } else {
            assert(digits_value(next) > 9223372036854775808) by (nonlinear_arith)
                requires
                    digits_value(next) == digits_value(pre) * 10 + digit_value(c),
                    digits_value(pre) > 9223372036854775808,
                    0 <= digit_value(c),
            ;
        }
        i = i + 1;
    }
    proof {
        if start == 0 {
            assert(d =~= s@);
        } else {
            assert(d =~= s@.drop_first());
        }
        assert(s@.subrange(start as int, i as int) =~= d);
    }
    if big {
        None
    } else if negative {
        if acc == 9223372036854775808 {
            Some(i64::MIN)
        } else {
            Some(-(acc as i64))
        }
    } else if acc <= 9223372036854775807 {
        Some(acc as i64)
    } else {
        None
    }
}

/// Reads an index's creation date from the catalog's text form: a signed
/// number of milliseconds since the epoch.
pub fn deserialize(s: &str) -> (r: Result<Timestamp, DateError>)
    ensures
        match millis_of_text(s@) {
            Some(m) => r == Ok::<Timestamp, DateError>(Timestamp { millis: m }),
            None => r is Err && r->Err_0.text@ == s@,
        },
{
    match parse_millis(s) {
        Some(m) => Ok(Timestamp { millis: m }),
        None => Err(DateError { text: s.to_owned() }),
    }
}

/// Relies on chrono's `Utc::now`, read out with `DateTime::timestamp_millis`:
/// the system clock's current time. `Utc::now` panics on a clock set before
/// the epoch, so a time it returns is never negative.
#[verifier::external_body]
pub(crate) fn now() -> (r: Timestamp)
    ensures
        r.millis >= 0,
{
    Timestamp { millis: chrono::Utc::now().timestamp_millis() }
}

impl Timestamp {
    pub fn from_millis(millis: i64) -> (r: Timestamp)
        ensures
            r.millis == millis,
    {
        Timestamp { millis }
    }

    pub fn to_millis(&self) -> (r: i64)
        ensures
            r == self.millis,
    {
        self.millis
    }
}

} // verus!

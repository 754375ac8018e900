//! The duration resolver: a compact relative-duration token such as `5h` is
//! resolved against an injected reference instant into an absolute timestamp,
//! counted in whole seconds since the Unix epoch.

use vstd::prelude::*;
use vstd::string::StrSliceExecFns;
use crate::digits::{
    digit_val, digits_value, is_digit_char, lemma_digits_value_grows, lemma_digits_value_step,
};
use crate::errors::TaskError;

verus! {

/// A duration unit letter: minutes, hours, days, or weeks.
pub open spec fn is_unit_char(c: char) -> bool {
    c == 'm' || c == 'h' || c == 'd' || c == 'w'
}

/// The fixed scale of a unit letter, in seconds.
pub open spec fn unit_seconds(c: char) -> int {
    if c == 'm' {
        60
    } else if c == 'h' {
        3600
    } else if c == 'd' {
        86400
    } else {
        604800
    }
}

/// The duration grammar: one or more digits, the first of them nonzero,
/// followed by exactly one unit letter and nothing else.
pub open spec fn is_duration_token(s: Seq<char>) -> bool {
    &&& s.len() >= 2
    &&& 49 <= s[0] as u32 && s[0] as u32 <= 57
    &&& forall|i: int| 0 <= i < s.len() - 1 ==> is_digit_char(#[trigger] s[i])
    &&& is_unit_char(s[s.len() - 1])
}

/// The magnitude of a duration token: the value of its digit run.
pub open spec fn duration_magnitude(s: Seq<char>) -> int {
    digits_value(s.take(s.len() - 1))
}

/// The seconds a duration token stands for: magnitude times unit scale.
pub open spec fn duration_seconds(s: Seq<char>) -> int {
    duration_magnitude(s) * unit_seconds(s[s.len() - 1])
}

/// The outcome of resolving a token against the instant `now`: the shifted
/// instant if the token matches the grammar and the sum fits 64 bits, and
/// the dedicated failure otherwise.
pub open spec fn resolve_outcome(s: Seq<char>, now: int) -> Result<int, TaskError> {
    if !is_duration_token(s) {
        Result::Err(TaskError::InvalidDurationFormat)
    } else if now + duration_seconds(s) > i64::MAX {
        Result::Err(TaskError::DurationOutOfRange)
    } else {
        Result::Ok(now + duration_seconds(s))
    }
}

/// Every token of the grammar resolves to `now` plus its duration whenever
/// that sum fits a 64-bit timestamp, and every token outside the grammar is
/// rejected as malformed.
pub proof fn lemma_duration_grammar_decides(s: Seq<char>, now: int)
    ensures
        is_duration_token(s) && now + duration_seconds(s) <= i64::MAX ==> resolve_outcome(s, now)
            == Result::<int, TaskError>::Ok(now + duration_seconds(s)),
        !is_duration_token(s) ==> resolve_outcome(s, now) == Result::<int, TaskError>::Err(
            TaskError::InvalidDurationFormat,
        ),
{
}

/// Decides the duration grammar on a token.
pub fn is_valid_duration_token(token: &str) -> (r: bool)
    ensures
        r == is_duration_token(token@),
{
    let n = token.unicode_len();
    if n < 2 {
        return false;
    }
    let c0 = token.get_char(0) as u32;
    if !(49 <= c0 && c0 <= 57) {
        return false;
    }
    let mut i: usize = 1;
    while i < n - 1
        invariant
            1 <= i <= n - 1,
            n == token@.len(),
            n >= 2,
            forall|k: int| 0 <= k < i ==> is_digit_char(#[trigger] token@[k]),
            49 <= token@[0] as u32 <= 57,
        decreases n - 1 - i,
    {
        let cu = token.get_char(i) as u32;
        if !(48 <= cu && cu <= 57) {
            return false;
        }
        i += 1;
    }
    let u = token.get_char(n - 1);
    u == 'm' || u == 'h' || u == 'd' || u == 'w'
}

/// Parses the digit run of a grammatical token; `None` exactly when the
/// magnitude is over `u64::MAX`.
fn parse_magnitude(token: &str) -> (r: Option<u64>)
    requires
        is_duration_token(token@),
    ensures
        match r {
            Some(m) => m as int == duration_magnitude(token@),
            None => duration_magnitude(token@) > u64::MAX,
        },
{
    let n = token.unicode_len();
    let mut acc: u64 = 0;
    let mut i: usize = 0;
    while i < n - 1
        invariant
            is_duration_token(token@),
            n == token@.len(),
            n >= 2,
            0 <= i <= n - 1,
            acc as int == digits_value(token@.take(i as int)),
        decreases n - 1 - i,
    {
        let c = token.get_char(i);
        let cu = c as u32;
        let d: u64 = (cu - 48) as u64;
        proof {
            assert(is_digit_char(token@[i as int]));
            lemma_digits_value_step(token@, i as int + 1);
        }
        if acc > u64::MAX / 10 {
            proof {
                lemma_digits_value_grows(token@, i as int + 1, n as int - 1);
            }
            return None;
        }
        let t = acc * 10;
        if d > 0 && t > u64::MAX - d {
            proof {
                lemma_digits_value_grows(token@, i as int + 1, n as int - 1);
            }
            return None;
        }
        acc = t + d;
        i += 1;
    }
    Some(acc)
}

/// Resolves a relative-duration token against the injected instant `now`:
/// `now + magnitude * scale` on a grammatical token whose result fits,
/// and the dedicated failure otherwise.
pub fn estimate_due_datetime(duration: &str, now: i64) -> (r: Result<i64, TaskError>)
    ensures
        match r {
            Ok(t) => resolve_outcome(duration@, now as int) == Result::<int, TaskError>::Ok(
                t as int,
            ),
            Err(e) => resolve_outcome(duration@, now as int) == Result::<int, TaskError>::Err(e),
        },
{
    if !is_valid_duration_token(duration) {
        return Err(TaskError::InvalidDurationFormat);
    }
    let n = duration.unicode_len();
    let unit = duration.get_char(n - 1);
    let scale: u64 = if unit == 'm' {
        60
    } else if unit == 'h' {
        3600
    } else if unit == 'd' {
        86400
    } else {
        604800
    };
    proof {
        assert(scale as int == unit_seconds(duration@[duration@.len() - 1]));
    }
    match parse_magnitude(duration) {
        None => {
            proof {
                let m = duration_magnitude(duration@);
                let sc = unit_seconds(duration@[duration@.len() - 1]);
                assert(m * sc >= m * 60 > u64::MAX as int) by (nonlinear_arith)
                    requires
                        m > u64::MAX,
                        sc >= 60,
                ;
            }
            Err(TaskError::DurationOutOfRange)
        },
        Some(m) => {
            proof {
                assert(m as int * scale as int <= u64::MAX * 604800int) by (nonlinear_arith)
                    requires
                        0 <= m as int <= u64::MAX,
                        0 <= scale as int <= 604800,
                ;
            }
            let dur: u128 = (m as u128) * (scale as u128);
            let total: i128 = (now as i128) + (dur as i128);
            if total > (i64::MAX as i128) {
                Err(TaskError::DurationOutOfRange)
            } else {
                Ok(total as i64)
            }
        },
    }
}

/// Relies on chrono's `Utc::now`, reduced to whole seconds since the Unix
/// epoch by `DateTime::timestamp`. The result depends on the wall clock, so
/// nothing is promised of it; callers inject it where an instant is needed.
#[verifier::external_body]
pub(crate) fn current_timestamp() -> i64 {
    chrono::Utc::now().timestamp()
}

} // verus!

use vstd::prelude::*;

use vstd::string::StrSliceExecFns;

verus! {

/// A duration in whole seconds, used for the preview-window filter
/// (`start_time ..= start_time + duration`).
///
/// The bound on the seconds value keeps every `time + duration` sum
/// representable in an `i64`, together with [`dt_in_range`].
#[derive(Clone, Copy, Debug, PartialEq, Eq, Structural)]
pub struct Duration(pub i64);

/// Seconds values this far from zero stay safely addable: a well-formed
/// timestamp plus a well-formed duration never overflows an `i64`.
pub open spec fn dt_in_range(secs: int) -> bool {
    -0x2000_0000_0000_0000 <= secs <= 0x2000_0000_0000_0000
}

/// The character is a decimal digit.
pub open spec fn is_digit(c: char) -> bool {
    48 <= c as int <= 57
}

/// The reference reading of an ISO-8601 duration body, one character per
/// step, after the leading `P`: a digit run followed by its unit letter, days
/// before the `T`, then hours, minutes and seconds in that order after it.
/// `in_time` records whether the `T` has been passed, `rank` the last time
/// unit consumed, `any` whether any component was read, `acc`/`digits` the
/// digit run in progress, and `total` the seconds so far.  Values beyond the
/// safe range of [`Duration::wf`] are rejected, not wrapped.
pub open spec fn parse_rest(
    s: Seq<char>,
    i: int,
    in_time: bool,
    rank: int,
    any: bool,
    acc: int,
    digits: bool,
    total: int,
) -> Option<int>
    decreases s.len() - i when 0 <= i <= s.len()
{
    if i >= s.len() {
        if digits || !any {
            None
        } else {
            Some(total)
        }
    } else {
        let c = s[i];
        if is_digit(c) {
            let acc2 = acc * 10 + (c as int - 48);
            if acc2 > 0x2000_0000_0000_0000 {
                None
            } else {
                parse_rest(s, i + 1, in_time, rank, any, acc2, true, total)
            }
        } else if c == 'T' && !in_time && !digits {
            parse_rest(s, i + 1, true, 0, any, 0, false, total)
        } else if digits {
            let mult: int = if !in_time {
                if c == 'D' && rank < 1 {
                    86400
                } else {
                    -1
                }
            } else if c == 'H' && rank < 1 {
                3600
            } else if c == 'M' && rank < 2 {
                60
            } else if c == 'S' && rank < 3 {
                1
            } else {
                -1
            };
            let rank2: int = if c == 'H' {
                1
            } else if c == 'M' {
                2
            } else {
                3
            };
            if mult < 0 || total + acc * mult > 0x2000_0000_0000_0000 {
                None
            } else {
                parse_rest(s, i + 1, in_time, rank2, true, 0, false, total + acc * mult)
            }
        } else {
            None
        }
    }
}

/// What an ISO-8601 duration string denotes, in whole seconds:
/// `P[nD][T[nH][nM][nS]]` with at least one component, e.g. `PT10H`.
/// `None` when the string is not of that shape or the value is out of the
/// safe range.
pub open spec fn spec_parse_duration(s: Seq<char>) -> Option<int> {
    if s.len() == 0 || s[0] != 'P' {
        None
    } else {
        parse_rest(s, 1, false, 0, false, 0, false, 0)
    }
}

impl Duration {
    /// A duration is well formed when it is non-negative and small enough
    /// that adding it to a well-formed timestamp cannot overflow.
    pub open spec fn wf(self) -> bool {
        0 <= self.0 <= 0x2000_0000_0000_0000
    }

    /// Parses an ISO-8601 duration such as `PT10H`; see
    /// [`spec_parse_duration`] for the accepted shape.
    pub fn parse(s: &str) -> (r: Option<Duration>)
        ensures
            match spec_parse_duration(s@) {
                Some(v) => r matches Some(d) && d.0 == v && d.wf(),
                None => r is None,
            },
    {
        let n = s.unicode_len();
        if n == 0 || s.get_char(0) != 'P' {
            return None;
        }
        let mut i: usize = 1;
        let mut in_time: bool = false;
        let mut rank: u8 = 0;
        let mut any: bool = false;
        let mut acc: i64 = 0;
        let mut digits: bool = false;
        let mut total: i64 = 0;
        while i < n
            invariant
                1 <= i <= n,
                n == s@.len(),
                0 <= rank <= 3,
                0 <= acc <= 0x2000_0000_0000_0000,
                0 <= total <= 0x2000_0000_0000_0000,
                spec_parse_duration(s@) == parse_rest(
                    s@,
                    i as int,
                    in_time,
                    rank as int,
                    any,
                    acc as int,
                    digits,
                    total as int,
                ),
            decreases n - i,
        {
            let c = s.get_char(i);
            let code = c as u32;
            if 48 <= code && code <= 57 {
                if acc > (0x2000_0000_0000_0000i64 - (code as i64 - 48)) / 10 {
                    return None;
                }
                acc = acc * 10 + (code as i64 - 48);
                digits = true;
            } else if c == 'T' && !in_time && !digits {
                in_time = true;
                rank = 0;
                acc = 0;
            } else if digits {
                let mult: i64 = if !in_time {
                    if c == 'D' && rank < 1 {
                        86400
                    } else {
                        return None;
                    }
                } else if c == 'H' && rank < 1 {
                    3600
                } else if c == 'M' && rank < 2 {
                    60
                } else if c == 'S' && rank < 3 {
                    1
                } else {
                    return None;
                };
                rank = if c == 'H' {
                    1
                } else if c == 'M' {
                    2
                } else {
                    3
                };
                if acc > 0x2000_0000_0000_0000i64 / mult {
                    return None;
                }
                if total > 0x2000_0000_0000_0000i64 - acc * mult {
                    return None;
                }
                total = total + acc * mult;
                any = true;
                acc = 0;
                digits = false;
            } else {
                return None;
            }
            i += 1;
        }
        if digits || !any {
            return None;
        }
        Some(Duration(total))
    }

    pub fn new(seconds: i64) -> (r: Option<Duration>)
        ensures
            r matches Some(d) ==> d.wf() && d.0 == seconds,
            r is None <==> !(0 <= seconds <= 0x2000_0000_0000_0000),
    {
        if 0 <= seconds && seconds <= 0x2000_0000_0000_0000 {
            Some(Duration(seconds))
        } else {
            None
        }
    }
}

} // verus!

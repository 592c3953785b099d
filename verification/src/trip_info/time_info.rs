//! Timetable queries on a [`TimeInfo`]: epoch-millisecond timestamps split
//! into timespecs, and delay strings parsed into signed minute durations.

use vstd::prelude::*;

use crate::Timespec;
use crate::spec_timespec_from_epoch_ms;
use super::DelayParseError;
use super::Duration;
use super::TimeInfo;
use super::all_digits;
use super::digit_val;
use super::digits_value;
use super::is_digit_char;
use super::is_valid_delay_string;
use super::spec_parse_delay;

verus! {

impl TimeInfo {
    /// The scheduled time of arrival; absent for stops without one, such as
    /// the very first stop of a route.
    pub fn scheduled_arrival(&self) -> (r: Option<Timespec>)
        ensures
            match self.scheduled_arrival_ms {
                Some(ms) => r == Some(spec_timespec_from_epoch_ms(ms)),
                None => r is None,
            },
    {
        match self.scheduled_arrival_ms {
            Some(ms) => Some(Timespec::from_epoch_ms(ms)),
            None => None,
        }
    }

    /// The scheduled time of departure; absent for stops without one, such
    /// as the very last stop of a route.
    pub fn scheduled_departure(&self) -> (r: Option<Timespec>)
        ensures
            match self.scheduled_departure_ms {
                Some(ms) => r == Some(spec_timespec_from_epoch_ms(ms)),
                None => r is None,
            },
    {
        match self.scheduled_departure_ms {
            Some(ms) => Some(Timespec::from_epoch_ms(ms)),
            None => None,
        }
    }

    /// The actual time of arrival; absent for stops without one.
    pub fn actual_arrival(&self) -> (r: Option<Timespec>)
        ensures
            match self.actual_arrival_ms {
                Some(ms) => r == Some(spec_timespec_from_epoch_ms(ms)),
                None => r is None,
            },
    {
        match self.actual_arrival_ms {
            Some(ms) => Some(Timespec::from_epoch_ms(ms)),
            None => None,
        }
    }

    /// The actual time of departure; absent for stops without one.
    pub fn actual_departure(&self) -> (r: Option<Timespec>)
        ensures
            match self.actual_departure_ms {
                Some(ms) => r == Some(spec_timespec_from_epoch_ms(ms)),
                None => r is None,
            },
    {
        match self.actual_departure_ms {
            Some(ms) => Some(Timespec::from_epoch_ms(ms)),
            None => None,
        }
    }

    /// Convert a delay string to a signed duration in minutes.
    ///
    /// The empty string denotes a zero delay; otherwise the string must be a
    /// `+` or `-` sign followed by decimal digits, and the result carries the
    /// sign. Any other non-empty string is a defect in the upstream data and
    /// yields an error rather than a silent zero.
    pub fn delay_string_to_duration(delay_string: &str) -> (r: Result<Duration, DelayParseError>)
        ensures
            r == spec_parse_delay(delay_string@),
    {
        let ghost s = delay_string@;
        let n = delay_string.unicode_len();
        if n == 0 {
            return Ok(Duration { minutes: 0 });
        }
        let sign = delay_string.get_char(0);
        if !(sign == '+' || sign == '-') {
            assert(!is_valid_delay_string(s));
            return Err(DelayParseError::Format);
        }
        if n == 1 {
            assert(!is_valid_delay_string(s));
            return Err(DelayParseError::Format);
        }
        let mut i: usize = 1;
        let mut mag: u64 = 0;
        let mut overflow: bool = false;
        while i < n
            invariant
                s == delay_string@,
                1 <= i <= n,
                2 <= n == s.len(),
                sign == s[0] && (sign == '+' || sign == '-'),
                all_digits(s.subrange(1, i as int)),
                !overflow ==> mag <= i64::MAX as u64 && mag == digits_value(
                    s.subrange(1, i as int),
                ),
                overflow ==> digits_value(s.subrange(1, i as int)) > i64::MAX as int,
            decreases n - i,
        {
            let c = delay_string.get_char(i);
            let v = c as u32;
            if v < 48 || v > 57 {
                proof {
                    let digits = s.subrange(1, n as int);
                    assert(digits[i - 1] == s[i as int]);
                    assert(!is_digit_char(s[i as int]));
                    assert(!all_digits(digits));
                    assert(!is_valid_delay_string(s));
                }
                return Err(DelayParseError::Format);
            }
            let d = (v - 48) as u64;
            proof {
                let prev = s.subrange(1, i as int);
                let next = s.subrange(1, i as int + 1);
                assert(next.drop_last() =~= prev);
                assert(next.last() == s[i as int]);
                assert(digit_val(s[i as int]) == d as int);
                assert(digits_value(next) == digits_value(prev) * 10 + d as int);
                if overflow {
                    assert(digits_value(prev) * 10 > i64::MAX as int) by (nonlinear_arith)
                        requires
                            digits_value(prev) > i64::MAX as int,
                    ;
                }
            }
            if !overflow {
                let grown = match mag.checked_mul(10) {
                    Some(m10) => m10.checked_add(d),
                    None => None,
                };
                match grown {
                    Some(m) => {
                        if m <= i64::MAX as u64 {
                            mag = m;
                        } else {
                            overflow = true;
                        }
                    },
                    None => {
                        overflow = true;
                    },
                }
            }
            i += 1;
        }
        proof {
            assert(s.subrange(1, i as int) =~= s.subrange(1, n as int));
            assert(is_valid_delay_string(s));
        }
        if overflow {
            return Err(DelayParseError::Overflow);
        }
        let minutes: i64 = if sign == '+' {
            mag as i64
        } else {
            -(mag as i64)
        };
        Ok(Duration { minutes })
    }

    /// The arrival delay at a stop, parsed from its compact encoding.
    pub fn arrival_delay(&self) -> (r: Result<Duration, DelayParseError>)
        ensures
            r == spec_parse_delay(self.arrival_delay@),
    {
        TimeInfo::delay_string_to_duration(self.arrival_delay.as_str())
    }

    /// The departure delay at a stop, parsed from its compact encoding.
    pub fn departure_delay(&self) -> (r: Result<Duration, DelayParseError>)
        ensures
            r == spec_parse_delay(self.departure_delay@),
    {
        TimeInfo::delay_string_to_duration(self.departure_delay.as_str())
    }
}

} // verus!

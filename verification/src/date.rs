//! The timestamp codec. The service emits timestamps in two wire encodings:
//! a bracketed literal such as `/Date(1707863960317-0600)/`, and the same
//! core — epoch milliseconds followed by a signed four-digit UTC offset —
//! without the brackets. Both are decoded here into one canonical timestamp
//! type; anything else is a reported `DateFormatError`, never a default.
use vstd::prelude::*;

use crate::text::{all_digits, digit_char, digit_str, digit_val, digits_val, dec_of, is_digit,
    parse_u64, u64_to_string, lemma_dec_of_val};
use crate::{SpiraError, SpiraErrorV};
use vstd::arithmetic::div_mod::{lemma_fundamental_div_mod, lemma_mod_bound};

verus! {

/// A timezone-aware instant: the moment itself as milliseconds since the Unix
/// epoch, plus the UTC offset the service attached to it. Two timestamps
/// denote the same instant exactly when their `epoch_millis` agree.
#[derive(Clone, Copy, Debug, PartialEq, Eq, Structural)]
pub struct Timestamp {
    pub epoch_millis: u64,
    pub offset_minutes: i32,
}

impl Timestamp {
    /// An offset that a sign, a two-digit hour up to 23 and a two-digit
    /// minute up to 59 can express.
    pub open spec fn wf(self) -> bool {
        -1439 <= self.offset_minutes <= 1439
    }
}

/// Offset field grammar: a sign, then exactly `hhmm` with `hh <= 23` and
/// `mm <= 59`, read as signed minutes.
pub open spec fn spec_parse_offset(s: Seq<char>) -> Option<int> {
    if s.len() == 5 && (s[0] == '+' || s[0] == '-') && is_digit(s[1]) && is_digit(s[2])
        && is_digit(s[3]) && is_digit(s[4]) {
        let hour = digit_val(s[1]) * 10 + digit_val(s[2]);
        let minute = digit_val(s[3]) * 10 + digit_val(s[4]);
        if hour <= 23 && minute <= 59 {
            if s[0] == '-' {
                Some(-(hour * 60 + minute) as int)
            } else {
                Some((hour * 60 + minute) as int)
            }
        } else {
            None
        }
    } else {
        None
    }
}

/// Core grammar shared by both encodings: one or more digits (the epoch
/// milliseconds, which must fit in a `u64`) followed by the five offset
/// characters.
pub open spec fn spec_parse_core(s: Seq<char>) -> Option<Timestamp> {
    if s.len() >= 6 {
        let digits = s.subrange(0, s.len() - 5);
        let offset = s.subrange(s.len() - 5, s.len() as int);
        if all_digits(digits) && digits_val(digits) <= u64::MAX && spec_parse_offset(offset)
            is Some {
            Some(Timestamp {
                epoch_millis: digits_val(digits) as u64,
                offset_minutes: spec_parse_offset(offset)->Some_0 as i32,
            })
        } else {
            None
        }
    } else {
        None
    }
}

/// The structural sniff: a body that begins with the bracket prefix is
/// committed to the bracketed form (and must then close with `)/`); any other
/// body is read as a bare core. No guessing, no fallback from one form to the
/// other.
pub open spec fn spec_parse_date(s: Seq<char>) -> Option<Timestamp> {
    if s.len() >= 6 && s.subrange(0, 6) == "/Date("@ {
        if s.len() >= 8 && s.subrange(s.len() - 2, s.len() as int) == ")/"@ {
            spec_parse_core(s.subrange(6, s.len() - 2))
        } else {
            None
        }
    } else {
        spec_parse_core(s)
    }
}

/// Canonical rendering of a timestamp, always in the bracketed form.
pub open spec fn spec_encode_date(t: Timestamp) -> Seq<char> {
    "/Date("@ + dec_of(t.epoch_millis as nat) + spec_encode_offset(t.offset_minutes as int)
        + ")/"@
}

/// The five offset characters for a well-formed offset.
pub open spec fn spec_encode_offset(off: int) -> Seq<char> {
    let sign: char = if off < 0 {
        '-'
    } else {
        '+'
    };
    let abs = if off < 0 {
        -off
    } else {
        off
    };
    seq![sign, digit_char((abs / 60 / 10) as nat), digit_char((abs / 60 % 10) as nat),
        digit_char((abs % 60 / 10) as nat), digit_char((abs % 60 % 10) as nat)]
}

/// Does `s` begin with the bracket prefix?
fn has_date_prefix(s: &str) -> (r: bool)
    ensures
        r == (s@.len() >= 6 && s@.subrange(0, 6) == "/Date("@),
{
    proof {
        reveal_strlit("/Date(");
    }
    let n = s.unicode_len();
    if n < 6 {
        return false;
    }
    if s.get_char(0) == '/' && s.get_char(1) == 'D' && s.get_char(2) == 'a' && s.get_char(3)
        == 't' && s.get_char(4) == 'e' && s.get_char(5) == '(' {
        proof {
            assert(s@.subrange(0, 6) =~= "/Date("@);
        }
        true
    } else {
        proof {
            assert(s@.subrange(0, 6)[0] == s@[0]);
            assert(s@.subrange(0, 6)[1] == s@[1]);
            assert(s@.subrange(0, 6)[2] == s@[2]);
            assert(s@.subrange(0, 6)[3] == s@[3]);
            assert(s@.subrange(0, 6)[4] == s@[4]);
            assert(s@.subrange(0, 6)[5] == s@[5]);
        }
        false
    }
}

/// Decode the shared core: digits then a five-character signed offset.
fn parse_core(s: &str) -> (r: Option<Timestamp>)
    ensures
        r == spec_parse_core(s@),
{
    let n = s.unicode_len();
    if n < 6 {
        return None;
    }
    let digits = s.substring_char(0, n - 5);
    let sign = s.get_char(n - 5);
    if !(sign == '+' || sign == '-') {
        return None;
    }
    let c1 = s.get_char(n - 4);
    let c2 = s.get_char(n - 3);
    let c3 = s.get_char(n - 2);
    let c4 = s.get_char(n - 1);
    proof {
        assert(s@.subrange(n - 5, n as int)[0] == s@[n - 5]);
        assert(s@.subrange(n - 5, n as int)[1] == s@[n - 4]);
        assert(s@.subrange(n - 5, n as int)[2] == s@[n - 3]);
        assert(s@.subrange(n - 5, n as int)[3] == s@[n - 2]);
        assert(s@.subrange(n - 5, n as int)[4] == s@[n - 1]);
        assert(s@.subrange(n - 5, n as int).len() == 5);
    }
    if !(48 <= c1 as u32 && c1 as u32 <= 57 && 48 <= c2 as u32 && c2 as u32 <= 57
        && 48 <= c3 as u32 && c3 as u32 <= 57 && 48 <= c4 as u32 && c4 as u32 <= 57) {
        return None;
    }
    let hour: u32 = (c1 as u32 - 48) * 10 + (c2 as u32 - 48);
    let minute: u32 = (c3 as u32 - 48) * 10 + (c4 as u32 - 48);
    if !(hour <= 23 && minute <= 59) {
        return None;
    }
    let millis = match parse_u64(digits) {
        Some(v) => v,
        None => {
            return None;
        },
    };
    let magnitude: i32 = (hour * 60 + minute) as i32;
    let offset: i32 = if sign == '-' {
        -magnitude
    } else {
        magnitude
    };
    Some(Timestamp { epoch_millis: millis, offset_minutes: offset })
}

/// Decode a timestamp from either wire encoding, or report exactly the raw
/// input that failed. A malformed timestamp is always an error, never some
/// clamped or default instant.
pub fn parse_date(s: &str) -> (r: Result<Timestamp, SpiraError>)
    ensures
        match r {
            Ok(t) => spec_parse_date(s@) == Some(t),
            Err(e) => spec_parse_date(s@) is None && e@ == (SpiraErrorV::DateFormatError {
                raw_input: s@,
            }),
        },
{
    let n = s.unicode_len();
    let parsed: Option<Timestamp> = if has_date_prefix(s) {
        proof {
            reveal_strlit(")/");
        }
        if n >= 8 && s.get_char(n - 2) == ')' && s.get_char(n - 1) == '/' {
            proof {
                assert(s@.subrange(n - 2, n as int) =~= ")/"@);
            }
            parse_core(s.substring_char(6, n - 2))
        } else {
            proof {
                if n >= 8 {
                    assert(s@.subrange(n - 2, n as int)[0] == s@[n - 2]);
                    assert(s@.subrange(n - 2, n as int)[1] == s@[n - 1]);
                }
            }
            None
        }
    } else {
        parse_core(s)
    };
    match parsed {
        Some(t) => Ok(t),
        None => Err(
            SpiraError::DateFormatError { raw_input: String::from_str(s) },
        ),
    }
}

/// Encode a timestamp in the bracketed wire form.
pub fn encode_date(t: &Timestamp) -> (r: String)
    requires
        t.wf(),
    ensures
        r@ == spec_encode_date(*t),
{
    proof {
        reveal_strlit("/Date(");
        reveal_strlit(")/");
        reveal_strlit("-");
        reveal_strlit("+");
    }
    let mut s = String::from_str("/Date(");
    let millis = u64_to_string(t.epoch_millis);
    s.append(millis.as_str());
    let (sign, abs): (&'static str, u32) = if t.offset_minutes < 0 {
        ("-", (-t.offset_minutes) as u32)
    } else {
        ("+", t.offset_minutes as u32)
    };
    s.append(sign);
    let hour: u32 = abs / 60;
    let minute: u32 = abs % 60;
    s.append(digit_str((hour / 10) as u64));
    s.append(digit_str((hour % 10) as u64));
    s.append(digit_str((minute / 10) as u64));
    s.append(digit_str((minute % 10) as u64));
    s.append(")/");
    proof {
        assert(s@ =~= spec_encode_date(*t));
    }
    s
}

/// Law: the two wire encodings agree. A core that decodes at all decodes to
/// the very same instant whether it arrives bare or wrapped in the bracketed
/// literal form.
pub proof fn lemma_date_forms_agree(core: Seq<char>)
    requires
        spec_parse_core(core) is Some,
    ensures
        spec_parse_date("/Date("@ + core + ")/"@) == spec_parse_core(core),
        spec_parse_date(core) == spec_parse_core(core),
{
    reveal_strlit("/Date(");
    reveal_strlit(")/");
    let w = "/Date("@ + core + ")/"@;
    assert(w.len() == core.len() + 8);
    assert(w.subrange(0, 6) =~= "/Date("@);
    assert(w.subrange(w.len() - 2, w.len() as int) =~= ")/"@);
    assert(w.subrange(6, w.len() - 2) =~= core);
    let digits = core.subrange(0, core.len() - 5);
    assert(is_digit(core[0])) by {
        assert(digits[0] == core[0]);
    }
    assert(core.len() >= 6 && core.subrange(0, 6) == "/Date("@ ==> core[0] == '/') by {
        if core.len() >= 6 && core.subrange(0, 6) == "/Date("@ {
            assert(core.subrange(0, 6)[0] == core[0]);
        }
    }
}

/// Whatever decodes at all decodes to a well-formed timestamp: the offset
/// grammar admits nothing beyond a two-digit hour up to 23 and a two-digit
/// minute up to 59.
pub proof fn lemma_parse_date_wf(s: Seq<char>)
    ensures
        spec_parse_date(s) matches Some(t) ==> t.wf(),
{
}

/// Law: decoding an encoded timestamp gives back exactly the timestamp that
/// was encoded.
pub proof fn lemma_date_round_trip(t: Timestamp)
    requires
        t.wf(),
    ensures
        spec_parse_date(spec_encode_date(t)) == Some(t),
{
    reveal_strlit("/Date(");
    reveal_strlit(")/");
    lemma_dec_of_val(t.epoch_millis as nat);
    let dec = dec_of(t.epoch_millis as nat);
    let off = spec_encode_offset(t.offset_minutes as int);
    let core = dec + off;
    let w = spec_encode_date(t);
    assert(w =~= "/Date("@ + core + ")/"@);
    assert(w.len() == core.len() + 8);
    assert(w.subrange(0, 6) =~= "/Date("@);
    assert(w.subrange(w.len() - 2, w.len() as int) =~= ")/"@);
    assert(w.subrange(6, w.len() - 2) =~= core);
    let digits = core.subrange(0, core.len() - 5);
    let off_part = core.subrange(core.len() - 5, core.len() as int);
    assert(digits =~= dec);
    assert(off_part =~= off);
    let abs = if t.offset_minutes < 0 {
        -(t.offset_minutes as int)
    } else {
        t.offset_minutes as int
    };
    lemma_fundamental_div_mod(abs / 60, 10);
    lemma_fundamental_div_mod(abs % 60, 10);
    lemma_fundamental_div_mod(abs, 60);
    lemma_mod_bound(abs, 60);
    assert(0 <= abs <= 1439);
    assert(abs / 60 <= 23) by (nonlinear_arith)
        requires
            0 <= abs <= 1439,
    ;
    assert(0 <= abs / 60) by (nonlinear_arith)
        requires
            0 <= abs,
    ;
    let hour = abs / 60;
    let minute = abs % 60;
    assert(digit_val(digit_char((hour / 10) as nat)) * 10 + digit_val(
        digit_char((hour % 10) as nat),
    ) == hour);
    assert(digit_val(digit_char((minute / 10) as nat)) * 10 + digit_val(
        digit_char((minute % 10) as nat),
    ) == minute);
    assert(spec_parse_offset(off) == Some(t.offset_minutes as int));
    assert(spec_parse_core(core) == Some(t));
}

} // verus!

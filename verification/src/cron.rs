//! Five-field numeric UTC cron expressions: validation, matching against a
//! UTC instant, and the bounded search for the next and previous fire.

use crate::bytes::{
    split_ascii_whitespace, words, find_from, index_of, lemma_index_of, lemma_split_step, parse_u32, parse_u32_spec, split, split_once,
};
use crate::error::ControlPlaneError;
use vstd::prelude::*;
use vstd::string::StringSliceAdditionalSpecFns;

verus! {

pub const COMMA: u8 = 44u8;

pub const SLASH: u8 = 47u8;

pub const DASH: u8 = 45u8;

pub const STAR: u8 = 42u8;

pub const MSG_CRON_TOO_LONG: &'static str = "UTC cron is too long";

pub const MSG_CRON_SHAPE: &'static str = "schedule cron must be a five-field UTC numeric expression";

pub const MSG_NO_NEXT_FIRE: &'static str = "UTC cron has no fire within the bounded search horizon";

pub const MSG_NO_PREVIOUS_FIRE: &'static str =
    "UTC cron has no prior fire within the bounded search horizon";

/// The bounded search horizon of the fire searches, in minutes (366 days).
pub const MAX_CRON_SEARCH_MINUTES: u64 = 527040;

pub open spec fn is_star(s: Seq<u8>) -> bool {
    s.len() == 1 && s[0] == STAR
}

/// One comma-separated element of a cron field: `*`, `a`, or `a-b`, each
/// optionally followed by `/step`.
pub open spec fn cron_part_valid(part: Seq<u8>, minimum: u32, maximum: u32) -> bool {
    let pieces = split(part, SLASH);
    let base = pieces[0];
    &&& pieces.len() <= 2
    &&& (pieces.len() == 2 ==> match parse_u32_spec(pieces[1]) {
        Some(step) => step != 0 && step <= maximum,
        None => false,
    })
    &&& if is_star(base) {
        true
    } else {
        match split_once(base, DASH) {
            Some((a, b)) => match (parse_u32_spec(a), parse_u32_spec(b)) {
                (Some(x), Some(y)) => x >= minimum && y <= maximum && x <= y,
                _ => false,
            },
            None => match parse_u32_spec(base) {
                Some(v) => minimum <= v <= maximum,
                None => false,
            },
        }
    }
}

pub open spec fn all_parts_valid(parts: Seq<Seq<u8>>, minimum: u32, maximum: u32) -> bool {
    forall|k: int| 0 <= k < parts.len() ==> cron_part_valid(#[trigger] parts[k], minimum, maximum)
}

/// A cron field is valid when it is non-empty and each comma-separated part is.
pub open spec fn cron_field_valid(field: Seq<u8>, minimum: u32, maximum: u32) -> bool {
    field.len() > 0 && all_parts_valid(split(field, COMMA), minimum, maximum)
}

pub open spec fn saturating_succ(x: u32) -> u32 {
    if x == u32::MAX {
        x
    } else {
        (x + 1) as u32
    }
}

pub open spec fn saturating_pred(x: u32) -> u32 {
    if x == 0 {
        x
    } else {
        (x - 1) as u32
    }
}

pub open spec fn parse_or(s: Seq<u8>, default: u32) -> u32 {
    match parse_u32_spec(s) {
        Some(v) => v,
        None => default,
    }
}

/// `u32::is_multiple_of`: a multiple of zero is only zero itself.
pub open spec fn is_multiple_of(a: u32, b: u32) -> bool {
    if b == 0 {
        a == 0
    } else {
        a % b == 0
    }
}

/// The inclusive range that the base of a cron part denotes; a part that does
/// not parse denotes a range outside `minimum..=maximum`.
pub open spec fn cron_part_range(base: Seq<u8>, minimum: u32, maximum: u32) -> (u32, u32) {
    if is_star(base) {
        (minimum, maximum)
    } else {
        match split_once(base, DASH) {
            Some((a, b)) => (
                parse_or(a, saturating_succ(maximum)),
                parse_or(b, saturating_pred(minimum)),
            ),
            None => {
                let exact = parse_or(base, saturating_succ(maximum));
                (exact, exact)
            },
        }
    }
}

pub open spec fn cron_part_matches(part: Seq<u8>, value: u32, minimum: u32, maximum: u32) -> bool {
    let (base, step) = match split_once(part, SLASH) {
        Some((b, s)) => (b, parse_or(s, saturating_succ(maximum))),
        None => (part, 1u32),
    };
    let (start, end) = cron_part_range(base, minimum, maximum);
    value >= start && value <= end && is_multiple_of((value - start) as u32, step)
}

/// A cron field matches a value when one of its comma-separated parts does.
pub open spec fn cron_field_match(field: Seq<u8>, value: u32, minimum: u32, maximum: u32) -> bool {
    exists|k: int|
        0 <= k < split(field, COMMA).len() && cron_part_matches(
            #[trigger] split(field, COMMA)[k],
            value,
            minimum,
            maximum,
        )
}

/// A part that holds a dash is no star.
proof fn lemma_dash_not_star(base: Seq<u8>)
    requires
        split_once(base, DASH) is Some,
    ensures
        !is_star(base),
{
    if is_star(base) {
        reveal_with_fuel(index_of, 2);
        assert(base.drop_first().len() == 0);
        assert(index_of(base.drop_first(), DASH) == -1);
    }
}

/// A range part `a-b` matches exactly the values from `a` through `b`, both
/// ends included, whatever the field's bounds.
pub proof fn law_cron_range_is_inclusive(
    part: Seq<u8>,
    a: Seq<u8>,
    b: Seq<u8>,
    x: u32,
    y: u32,
    value: u32,
    minimum: u32,
    maximum: u32,
)
    requires
        split_once(part, SLASH) is None,
        split_once(part, DASH) == Some((a, b)),
        parse_u32_spec(a) == Some(x),
        parse_u32_spec(b) == Some(y),
    ensures
        cron_part_matches(part, value, minimum, maximum) <==> (x <= value && value <= y),
{
    lemma_dash_not_star(part);
}

/// A stepped range part `a-b/s` matches exactly the values from `a` through
/// `b`, both included, that lie a multiple of `s` past `a`.
pub proof fn law_cron_stepped_range(
    part: Seq<u8>,
    base: Seq<u8>,
    step_text: Seq<u8>,
    a: Seq<u8>,
    b: Seq<u8>,
    x: u32,
    y: u32,
    step: u32,
    value: u32,
    minimum: u32,
    maximum: u32,
)
    requires
        split_once(part, SLASH) == Some((base, step_text)),
        parse_u32_spec(step_text) == Some(step),
        step > 0,
        split_once(base, DASH) == Some((a, b)),
        parse_u32_spec(a) == Some(x),
        parse_u32_spec(b) == Some(y),
    ensures
        cron_part_matches(part, value, minimum, maximum) <==> (x <= value && value <= y && (value - x) % (
        step as int) == 0),
{
    lemma_dash_not_star(base);
}

/// A single-number part matches exactly that number.
pub proof fn law_cron_single_value(part: Seq<u8>, n: u32, value: u32, minimum: u32, maximum: u32)
    requires
        split_once(part, SLASH) is None,
        split_once(part, DASH) is None,
        parse_u32_spec(part) == Some(n),
    ensures
        cron_part_matches(part, value, minimum, maximum) <==> value == n,
{
    if is_star(part) {
        assert(!crate::bytes::is_digit(part[0]));
        assert(crate::bytes::unsigned_digits(part) == part);
        assert(!crate::bytes::all_digits(part));
    }
}

/// A star matches every value within the field's bounds and nothing else.
pub proof fn law_cron_star(part: Seq<u8>, value: u32, minimum: u32, maximum: u32)
    requires
        is_star(part),
    ensures
        cron_part_matches(part, value, minimum, maximum) <==> (minimum <= value && value <= maximum),
{
    reveal_with_fuel(index_of, 2);
    assert(part.drop_first().len() == 0);
}

/// A field without commas matches exactly the values its one part matches.
pub proof fn law_cron_field_single_part(field: Seq<u8>, value: u32, minimum: u32, maximum: u32)
    requires
        index_of(field, COMMA) < 0,
    ensures
        cron_field_match(field, value, minimum, maximum) == cron_part_matches(field, value, minimum, maximum),
{
    assert(split(field, COMMA) == seq![field]);
    if cron_part_matches(field, value, minimum, maximum) {
        assert(split(field, COMMA)[0] == field);
    }
}

fn is_star_exec(s: &[u8]) -> (res: bool)
    ensures
        res == is_star(s@),
{
    s.len() == 1 && s[0] == STAR
}

/// Splits `s` at the first `sep`.
fn split_once_exec(s: &[u8], sep: u8) -> (res: Option<(&[u8], &[u8])>)
    ensures
        match (res, split_once(s@, sep)) {
            (None, None) => true,
            (Some((a, b)), Some((x, y))) => a@ == x && b@ == y,
            _ => false,
        },
{
    let found = find_from(s, 0, sep);
    proof {
        assert(s@.skip(0) =~= s@);
    }
    match found {
        None => None,
        Some(i) => {
            let n = s.len();
            assert(i < n);
            let a = &s[0..i];
            let b = &s[i + 1..s.len()];
            proof {
                assert(a@ =~= s@.take(i as int));
                assert(b@ =~= s@.skip(i + 1));
            }
            Some((a, b))
        },
    }
}

fn valid_cron_part(part: &[u8], minimum: u32, maximum: u32) -> (res: bool)
    ensures
        res == cron_part_valid(part@, minimum, maximum),
{
    proof {
        lemma_split_step(part@, SLASH);
    }
    let base: &[u8];
    match split_once_exec(part, SLASH) {
        None => {
            base = part;
        },
        Some((head, rest)) => {
            proof {
                lemma_split_step(rest@, SLASH);
                lemma_index_of(part@, SLASH);
            }
            if find_from(rest, 0, SLASH).is_some() {
                proof {
                    assert(rest@.skip(0) =~= rest@);
                    assert(split(rest@, SLASH).len() >= 2);
                }
                return false;
            }
            proof {
                assert(rest@.skip(0) =~= rest@);
            }
            match parse_u32(rest) {
                None => {
                    return false;
                },
                Some(step) => {
                    if step == 0 || step > maximum {
                        return false;
                    }
                },
            }
            base = head;
        },
    }
    if is_star_exec(base) {
        return true;
    }
    match split_once_exec(base, DASH) {
        Some((a, b)) => {
            match (parse_u32(a), parse_u32(b)) {
                (Some(x), Some(y)) => x >= minimum && y <= maximum && x <= y,
                _ => false,
            }
        },
        None => match parse_u32(base) {
            Some(v) => minimum <= v && v <= maximum,
            None => false,
        },
    }
}

fn cron_part_matches_exec(part: &[u8], value: u32, minimum: u32, maximum: u32) -> (res: bool)
    ensures
        res == cron_part_matches(part@, value, minimum, maximum),
{
    let succ = if maximum == u32::MAX {
        maximum
    } else {
        maximum + 1
    };
    let pred = if minimum == 0 {
        minimum
    } else {
        minimum - 1
    };
    let (base, step) = match split_once_exec(part, SLASH) {
        Some((b, s)) => (
            b,
            match parse_u32(s) {
                Some(v) => v,
                None => succ,
            },
        ),
        None => (part, 1u32),
    };
    let (start, end) = if is_star_exec(base) {
        (minimum, maximum)
    } else {
        match split_once_exec(base, DASH) {
            Some((a, b)) => (
                match parse_u32(a) {
                    Some(v) => v,
                    None => succ,
                },
                match parse_u32(b) {
                    Some(v) => v,
                    None => pred,
                },
            ),
            None => {
                let exact = match parse_u32(base) {
                    Some(v) => v,
                    None => succ,
                };
                (exact, exact)
            },
        }
    };
    if value < start || value > end {
        return false;
    }
    let offset = value - start;
    if step == 0 {
        offset == 0
    } else {
        offset % step == 0
    }
}

/// Whether `field` is a valid cron field with values in `minimum..=maximum`.
pub fn valid_cron_field_pg(field: &str, minimum: u32, maximum: u32) -> (res: bool)
    ensures
        res == cron_field_valid(field.spec_bytes(), minimum, maximum),
{
    valid_cron_field_bytes(field.as_bytes(), minimum, maximum)
}

fn valid_cron_field_bytes(f: &[u8], minimum: u32, maximum: u32) -> (res: bool)
    ensures
        res == cron_field_valid(f@, minimum, maximum),
{
    if f.len() == 0 {
        return false;
    }
    let n = f.len();
    let mut start: usize = 0;
    let ghost mut done: Seq<Seq<u8>> = Seq::empty();
    proof {
        assert(f@.skip(0) =~= f@);
        assert(split(f@, COMMA) =~= done + split(f@.skip(0), COMMA));
    }
    loop
        invariant
            start <= f@.len(),
            n == f@.len(),
            f@.len() > 0,
            split(f@, COMMA) == done + split(f@.skip(start as int), COMMA),
            all_parts_valid(done, minimum, maximum),
        decreases f@.len() - start,
    {
        let next = find_from(f, start, COMMA);
        proof {
            lemma_split_step(f@.skip(start as int), COMMA);
        }
        match next {
            None => {
                let part = &f[start..f.len()];
                let ok = valid_cron_part(part, minimum, maximum);
                proof {
                    assert(part@ =~= f@.skip(start as int));
                    let all = split(f@, COMMA);
                    assert(all =~= done.push(part@));
                    if ok {
                        assert forall|k: int| 0 <= k < all.len() implies cron_part_valid(
                            #[trigger] all[k],
                            minimum,
                            maximum,
                        ) by {
                            if k < done.len() {
                                assert(all[k] == done[k]);
                            }
                        }
                    } else {
                        assert(all[done.len() as int] == part@);
                    }
                }
                return ok;
            },
            Some(i) => {
                let part = &f[start..i];
                let ok = valid_cron_part(part, minimum, maximum);
                proof {
                    let t = f@.skip(start as int);
                    assert(part@ =~= t.take(i - start));
                    assert(t.skip(i - start + 1) =~= f@.skip(i + 1));
                }
                if !ok {
                    proof {
                        let all = split(f@, COMMA);
                        assert(all[done.len() as int] == part@);
                    }
                    return false;
                }
                proof {
                    let old_done = done;
                    done = done.push(part@);
                    assert(split(f@, COMMA) =~= done + split(f@.skip(i + 1), COMMA));
                    assert forall|k: int| 0 <= k < done.len() implies cron_part_valid(
                        #[trigger] done[k],
                        minimum,
                        maximum,
                    ) by {
                        if k < old_done.len() {
                            assert(done[k] == old_done[k]);
                        }
                    }
                }
                start = i + 1;
            },
        }
    }
}

/// Whether `field` matches `value`; meaningful for fields that
/// `valid_cron_field_pg` accepts.
pub fn cron_field_matches_pg(field: &str, value: u32, minimum: u32, maximum: u32) -> (res: bool)
    ensures
        res == cron_field_match(field.spec_bytes(), value, minimum, maximum),
{
    cron_field_matches_bytes(field.as_bytes(), value, minimum, maximum)
}

fn cron_field_matches_bytes(f: &[u8], value: u32, minimum: u32, maximum: u32) -> (res: bool)
    ensures
        res == cron_field_match(f@, value, minimum, maximum),
{
    let n = f.len();
    let mut start: usize = 0;
    let ghost mut done: Seq<Seq<u8>> = Seq::empty();
    proof {
        assert(f@.skip(0) =~= f@);
        assert(split(f@, COMMA) =~= done + split(f@.skip(0), COMMA));
    }
    loop
        invariant
            start <= f@.len(),
            n == f@.len(),
            split(f@, COMMA) == done + split(f@.skip(start as int), COMMA),
            forall|k: int|
                0 <= k < done.len() ==> !cron_part_matches(
                    #[trigger] done[k],
                    value,
                    minimum,
                    maximum,
                ),
        decreases f@.len() - start,
    {
        let next = find_from(f, start, COMMA);
        proof {
            lemma_split_step(f@.skip(start as int), COMMA);
        }
        match next {
            None => {
                let part = &f[start..f.len()];
                let ok = cron_part_matches_exec(part, value, minimum, maximum);
                proof {
                    assert(part@ =~= f@.skip(start as int));
                    let all = split(f@, COMMA);
                    assert(all =~= done.push(part@));
                    if ok {
                        assert(all[done.len() as int] == part@);
                    } else {
                        assert forall|k: int| 0 <= k < all.len() implies !cron_part_matches(
                            #[trigger] all[k],
                            value,
                            minimum,
                            maximum,
                        ) by {
                            if k < done.len() {
                                assert(all[k] == done[k]);
                            }
                        }
                    }
                }
                return ok;
            },
            Some(i) => {
                let part = &f[start..i];
                let ok = cron_part_matches_exec(part, value, minimum, maximum);
                proof {
                    let t = f@.skip(start as int);
                    assert(part@ =~= t.take(i - start));
                    assert(t.skip(i - start + 1) =~= f@.skip(i + 1));
                }
                if ok {
                    proof {
                        let all = split(f@, COMMA);
                        assert(all[done.len() as int] == part@);
                    }
                    return true;
                }
                proof {
                    let old_done = done;
                    done = done.push(part@);
                    assert(split(f@, COMMA) =~= done + split(f@.skip(i + 1), COMMA));
                    assert forall|k: int| 0 <= k < done.len() implies !cron_part_matches(
                        #[trigger] done[k],
                        value,
                        minimum,
                        maximum,
                    ) by {
                        if k < old_done.len() {
                            assert(done[k] == old_done[k]);
                        }
                    }
                }
                start = i + 1;
            },
        }
    }
}


/// The (month, day) of the proleptic Gregorian UTC date that lies `days`
/// days after 1970-01-01, by the era-based days-to-civil algorithm.
pub open spec fn civil_month_day(days: int) -> (int, int) {
    let shifted = days + 719468;
    let era = shifted / 146097;
    let doe = shifted - era * 146097;
    let yoe = (doe - doe / 1460 + doe / 36524 - doe / 146096) / 365;
    let doy = doe - (365 * yoe + yoe / 4 - yoe / 100);
    let mp = (5 * doy + 2) / 153;
    let day = doy - (153 * mp + 2) / 5 + 1;
    let month = mp + if mp < 10 {
        3int
    } else {
        -9int
    };
    (month, day)
}

pub const FIELD_UTC_SCHEDULE_DAY: &'static str = "UTC schedule day";

pub const FIELD_UTC_CIVIL_DATE: &'static str = "UTC civil date";

/// The largest day count whose civil date the computation accepts.
pub open spec fn civil_days_in_range(days: u64) -> bool {
    days + 719468 <= i64::MAX
}

proof fn lemma_civil_bounds(doe: int)
    requires
        0 <= doe < 146097,
    ensures
        ({
            let yoe = (doe - doe / 1460 + doe / 36524 - doe / 146096) / 365;
            let doy = doe - (365 * yoe + yoe / 4 - yoe / 100);
            let mp = (5 * doy + 2) / 153;
            let day = doy - (153 * mp + 2) / 5 + 1;
            &&& 0 <= yoe <= 399
            &&& 0 <= doy <= 365
            &&& 0 <= mp <= 11
            &&& 1 <= day <= 31
        }),
{
    let a = doe / 1460;
    let b = doe / 36524;
    let c = doe / 146096;
    let t = doe - a + b - c;
    let yoe = t / 365;
    let q4 = yoe / 4;
    let q100 = yoe / 100;
    let doy = doe - (365 * yoe + q4 - q100);
    assert(0 <= yoe <= 399);
    assert(0 <= doy <= 365);
    let mp = (5 * doy + 2) / 153;
    assert(0 <= mp <= 11);
    let day = doy - (153 * mp + 2) / 5 + 1;
    assert(1 <= day <= 31);
}

/// The UTC (month, day) of a day count since the Unix epoch.
pub fn civil_date_from_unix_days_pg(days: u64) -> (res: Result<(u32, u32), ControlPlaneError>)
    ensures
        days > i64::MAX ==> res == Err::<(u32, u32), ControlPlaneError>(
            ControlPlaneError::IntegerRange { field: FIELD_UTC_SCHEDULE_DAY },
        ),
        days <= i64::MAX && !civil_days_in_range(days) ==> res == Err::<(u32, u32), ControlPlaneError>(
            ControlPlaneError::IntegerRange { field: FIELD_UTC_CIVIL_DATE },
        ),
        civil_days_in_range(days) ==> match res {
            Ok((m, d)) => m == civil_month_day(days as int).0 && d == civil_month_day(
                days as int,
            ).1 && 1 <= m <= 12 && 1 <= d <= 31,
            Err(_) => false,
        },
{
    if days > 0x7fff_ffff_ffff_ffffu64 {
        return Err(ControlPlaneError::IntegerRange { field: FIELD_UTC_SCHEDULE_DAY });
    }
    if days > 0x7fff_ffff_ffff_ffffu64 - 719468 {
        return Err(ControlPlaneError::IntegerRange { field: FIELD_UTC_CIVIL_DATE });
    }
    let shifted = days + 719468;
    let doe = shifted % 146097;
    proof {
        lemma_civil_bounds(doe as int);
    }
    let yoe = (doe - doe / 1460 + doe / 36524 - doe / 146096) / 365;
    let doy = doe - (365 * yoe + yoe / 4 - yoe / 100);
    let mp = (5 * doy + 2) / 153;
    let day = doy - (153 * mp + 2) / 5 + 1;
    let month = if mp < 10 {
        mp + 3
    } else {
        mp - 9
    };
    proof {
        let sh = days as int + 719468;
        assert(sh - (sh / 146097) * 146097 == doe as int);
    }
    Ok((month as u32, day as u32))
}


/// The five fields of a cron expression, with their value ranges.
pub open spec fn cron_fields_valid(fields: Seq<Seq<u8>>) -> bool {
    &&& fields.len() == 5
    &&& cron_field_valid(fields[0], 0, 59)
    &&& cron_field_valid(fields[1], 0, 23)
    &&& cron_field_valid(fields[2], 1, 31)
    &&& cron_field_valid(fields[3], 1, 12)
    &&& cron_field_valid(fields[4], 0, 6)
}

/// What `validate_cron_pg` decides for the bytes of an expression.
pub open spec fn cron_validation(expr: Seq<u8>) -> Result<(), ControlPlaneError> {
    if expr.len() > 128 {
        Err(ControlPlaneError::InvalidInput(MSG_CRON_TOO_LONG))
    } else if !cron_fields_valid(words(expr)) {
        Err(ControlPlaneError::InvalidInput(MSG_CRON_SHAPE))
    } else {
        Ok(())
    }
}

/// Whether the five fields match the UTC minute that contains `unix_ms`. A day
/// matches the day-of-month field or the day-of-week field; a field that is
/// exactly `*` takes no part in that choice.
pub open spec fn cron_fields_match(fields: Seq<Seq<u8>>, unix_ms: u64) -> bool {
    let seconds = unix_ms / 1000;
    let minute = ((seconds / 60) % 60) as u32;
    let hour = ((seconds / 3600) % 24) as u32;
    let days = seconds / 86400;
    let month = civil_month_day(days as int).0 as u32;
    let day = civil_month_day(days as int).1 as u32;
    let weekday = ((days + 4) % 7) as u32;
    let day_of_month = cron_field_match(fields[2], day, 1, 31);
    let day_of_week = cron_field_match(fields[4], weekday, 0, 6);
    let day_matches = if is_star(fields[2]) && is_star(fields[4]) {
        true
    } else if is_star(fields[2]) {
        day_of_week
    } else if is_star(fields[4]) {
        day_of_month
    } else {
        day_of_month || day_of_week
    };
    &&& cron_field_match(fields[0], minute, 0, 59)
    &&& cron_field_match(fields[1], hour, 0, 23)
    &&& day_matches
    &&& cron_field_match(fields[3], month, 1, 12)
}

/// What `cron_matches_unix_ms_pg` returns for the bytes of an expression.
pub open spec fn cron_matches(expr: Seq<u8>, unix_ms: u64) -> Result<bool, ControlPlaneError> {
    match cron_validation(expr) {
        Err(e) => Err(e),
        Ok(()) => Ok(cron_fields_match(words(expr), unix_ms)),
    }
}

/// Checks that `value` is a five-field numeric UTC cron expression of at most
/// 128 bytes.
pub fn validate_cron_pg(value: &str) -> (res: Result<(), ControlPlaneError>)
    ensures
        res == cron_validation(value.spec_bytes()),
{
    let b = value.as_bytes();
    if b.len() > 128 {
        return Err(ControlPlaneError::InvalidInput(MSG_CRON_TOO_LONG));
    }
    let fields = split_ascii_whitespace(b);
    if fields.len() != 5 || !valid_cron_field_bytes(fields[0].as_slice(), 0, 59)
        || !valid_cron_field_bytes(fields[1].as_slice(), 0, 23) || !valid_cron_field_bytes(
        fields[2].as_slice(),
        1,
        31,
    ) || !valid_cron_field_bytes(fields[3].as_slice(), 1, 12) || !valid_cron_field_bytes(
        fields[4].as_slice(),
        0,
        6,
    ) {
        return Err(ControlPlaneError::InvalidInput(MSG_CRON_SHAPE));
    }
    Ok(())
}

/// Whether the UTC cron expression `value` fires in the minute that contains
/// `unix_ms`; an invalid expression is an error.
pub fn cron_matches_unix_ms_pg(value: &str, unix_ms: u64) -> (res: Result<bool, ControlPlaneError>)
    ensures
        res == cron_matches(value.spec_bytes(), unix_ms),
{
    match validate_cron_pg(value) {
        Err(e) => {
            return Err(e);
        },
        Ok(()) => {},
    }
    let fields = split_ascii_whitespace(value.as_bytes());
    let seconds = unix_ms / 1000;
    let minute = ((seconds / 60) % 60) as u32;
    let hour = ((seconds / 3600) % 24) as u32;
    let days = seconds / 86400;
    let (month, day) = match civil_date_from_unix_days_pg(days) {
        Ok(md) => md,
        Err(e) => {
            return Err(e);
        },
    };
    let weekday = ((days + 4) % 7) as u32;
    let day_of_month = cron_field_matches_bytes(fields[2].as_slice(), day, 1, 31);
    let day_of_week = cron_field_matches_bytes(fields[4].as_slice(), weekday, 0, 6);
    let dom_star = is_star_exec(fields[2].as_slice());
    let dow_star = is_star_exec(fields[4].as_slice());
    let day_matches = if dom_star && dow_star {
        true
    } else if dom_star {
        day_of_week
    } else if dow_star {
        day_of_month
    } else {
        day_of_month || day_of_week
    };
    Ok(cron_field_matches_bytes(fields[0].as_slice(), minute, 0, 59)
        && cron_field_matches_bytes(fields[1].as_slice(), hour, 0, 23) && day_matches
        && cron_field_matches_bytes(fields[3].as_slice(), month, 1, 12))
}


pub const FIELD_NEXT_FIRE: &'static str = "next UTC schedule fire";

/// The forward search of `next_fire_pg` from the minute `first + offset` on.
pub open spec fn next_fire_search(expr: Seq<u8>, first: nat, offset: nat) -> Result<u64, ControlPlaneError>
    decreases MAX_CRON_SEARCH_MINUTES - offset,
{
    if offset >= MAX_CRON_SEARCH_MINUTES {
        Err(ControlPlaneError::InvalidInput(MSG_NO_NEXT_FIRE))
    } else {
        let candidate = (first + offset) * 60000;
        if candidate > u64::MAX {
            Err(ControlPlaneError::IntegerRange { field: FIELD_NEXT_FIRE })
        } else {
            match cron_matches(expr, candidate as u64) {
                Err(e) => Err(e),
                Ok(true) => Ok(candidate as u64),
                Ok(false) => next_fire_search(expr, first, offset + 1),
            }
        }
    }
}

/// What `next_fire_pg` returns: the first fire in the minutes after `after`,
/// searched for at most 366 days.
pub open spec fn next_fire(expr: Seq<u8>, after: u64) -> Result<u64, ControlPlaneError> {
    next_fire_search(expr, (after / 60000 + 1) as nat, 0)
}

/// The backward search of `previous_fire_pg` from the minute `minute - offset`.
pub open spec fn previous_fire_search(expr: Seq<u8>, minute: nat, offset: nat) -> Result<u64, ControlPlaneError>
    decreases MAX_CRON_SEARCH_MINUTES - offset,
{
    if offset >= MAX_CRON_SEARCH_MINUTES || offset > minute {
        Err(ControlPlaneError::InvalidInput(MSG_NO_PREVIOUS_FIRE))
    } else {
        let candidate = (minute - offset) * 60000;
        match cron_matches(expr, candidate as u64) {
            Err(e) => Err(e),
            Ok(true) => Ok(candidate as u64),
            Ok(false) => previous_fire_search(expr, minute, offset + 1),
        }
    }
}

/// What `previous_fire_pg` returns: the latest fire at or before the minute of
/// `at`, searched for at most 366 days back.
pub open spec fn previous_fire(expr: Seq<u8>, at: u64) -> Result<u64, ControlPlaneError> {
    previous_fire_search(expr, (at / 60000) as nat, 0)
}

/// A fire instant of an expression: the start of a UTC minute that the
/// (valid) expression matches.
pub open spec fn is_fire(expr: Seq<u8>, t: u64) -> bool {
    t % 60000 == 0 && cron_matches(expr, t) == Ok::<bool, ControlPlaneError>(true)
}

proof fn lemma_minute_bounds(u: int, k: int)
    requires
        u >= 0,
        k >= 0,
    ensures
        u < k * 60000 ==> u / 60000 < k,
        u >= k * 60000 ==> u / 60000 >= k,
        u % 60000 == 0 ==> u == (u / 60000) * 60000,
        u / 60000 == k && u % 60000 == 0 ==> u == k * 60000,
        u < (u / 60000 + 1) * 60000,
{
    assert(u < k * 60000 ==> u / 60000 < k) by (nonlinear_arith)
        requires
            u >= 0,
            k >= 0,
    ;
    assert(u >= k * 60000 ==> u / 60000 >= k) by (nonlinear_arith)
        requires
            u >= 0,
            k >= 0,
    ;
    assert(u < (u / 60000 + 1) * 60000) by (nonlinear_arith)
        requires
            u >= 0,
    ;
}

/// The first minute after `after` at which `cron` fires, searched for at most
/// 366 days.
pub fn next_fire_pg(cron: &str, after: u64) -> (res: Result<u64, ControlPlaneError>)
    ensures
        res == next_fire(cron.spec_bytes(), after),
        res matches Ok(t) ==> {
            &&& after < t
            &&& is_fire(cron.spec_bytes(), t)
            &&& forall|u: u64| after < u < t && u % 60000 == 0 ==> !is_fire(cron.spec_bytes(), u)
        },
{
    let ghost expr = cron.spec_bytes();
    let first_minute = after / 60000 + 1;
    let mut offset: u64 = 0;
    while offset < MAX_CRON_SEARCH_MINUTES
        invariant
            expr == cron.spec_bytes(),
            first_minute == after / 60000 + 1,
            offset <= MAX_CRON_SEARCH_MINUTES,
            next_fire(expr, after) == next_fire_search(expr, first_minute as nat, offset as nat),
            forall|u: u64|
                after < u && u % 60000 == 0 && u / 60000 < first_minute + offset ==> !is_fire(
                    expr,
                    u,
                ),
        decreases MAX_CRON_SEARCH_MINUTES - offset,
    {
        let minute = first_minute + offset;
        match minute.checked_mul(60000) {
            None => {
                return Err(ControlPlaneError::IntegerRange { field: FIELD_NEXT_FIRE });
            },
            Some(c) => {
                let matched = cron_matches_unix_ms_pg(cron, c);
                match matched {
                    Err(e) => {
                        return Err(e);
                    },
                    Ok(true) => {
                        proof {
                            assert(c % 60000 == 0);
                            lemma_minute_bounds(after as int, first_minute as int);
                            assert forall|u: u64| after < u < c && u % 60000 == 0 implies !is_fire(
                                expr,
                                u,
                            ) by {
                                lemma_minute_bounds(u as int, minute as int);
                            }
                        }
                        return Ok(c);
                    },
                    Ok(false) => {
                        proof {
                            assert forall|u: u64|
                                after < u && u % 60000 == 0 && u / 60000 < first_minute + offset
                                    + 1 implies !is_fire(expr, u) by {
                                lemma_minute_bounds(u as int, minute as int);
                                if u / 60000 == minute {
                                    assert(u == c);
                                }
                            }
                        }
                        offset += 1;
                    },
                }
            },
        }
    }
    Err(ControlPlaneError::InvalidInput(MSG_NO_NEXT_FIRE))
}

/// The latest minute at or before `at` at which `cron` fires, searched for at
/// most 366 days back.
pub fn previous_fire_pg(cron: &str, at: u64) -> (res: Result<u64, ControlPlaneError>)
    ensures
        res == previous_fire(cron.spec_bytes(), at),
        res matches Ok(t) ==> {
            &&& t <= at
            &&& is_fire(cron.spec_bytes(), t)
            &&& forall|u: u64| t < u <= at && u % 60000 == 0 ==> !is_fire(cron.spec_bytes(), u)
        },
{
    let ghost expr = cron.spec_bytes();
    let minute = at / 60000;
    let mut offset: u64 = 0;
    while offset < MAX_CRON_SEARCH_MINUTES && offset <= minute
        invariant
            expr == cron.spec_bytes(),
            minute == at / 60000,
            offset <= MAX_CRON_SEARCH_MINUTES,
            previous_fire(expr, at) == previous_fire_search(expr, minute as nat, offset as nat),
            forall|u: u64|
                u <= at && u % 60000 == 0 && u / 60000 + offset > minute ==> !is_fire(expr, u),
        decreases MAX_CRON_SEARCH_MINUTES - offset,
    {
        let candidate_minute = minute - offset;
        proof {
            lemma_minute_bounds(at as int, minute as int);
            assert(candidate_minute * 60000 <= minute * 60000) by (nonlinear_arith)
                requires
                    candidate_minute <= minute,
            ;
            assert(minute * 60000 <= at) by (nonlinear_arith)
                requires
                    minute == at / 60000,
            ;
        }
        let candidate = candidate_minute * 60000;
        let matched = cron_matches_unix_ms_pg(cron, candidate);
        match matched {
            Err(e) => {
                return Err(e);
            },
            Ok(true) => {
                proof {
                    assert(candidate % 60000 == 0);
                    assert forall|u: u64| candidate < u <= at && u % 60000 == 0 implies !is_fire(
                        expr,
                        u,
                    ) by {
                        lemma_minute_bounds(u as int, candidate_minute as int + 1);
                    }
                }
                return Ok(candidate);
            },
            Ok(false) => {
                proof {
                    assert forall|u: u64|
                        u <= at && u % 60000 == 0 && u / 60000 + offset + 1 > minute implies !is_fire(
                        expr,
                        u,
                    ) by {
                        lemma_minute_bounds(u as int, candidate_minute as int);
                        if u / 60000 == candidate_minute {
                            assert(u == candidate);
                        }
                    }
                }
                offset += 1;
            },
        }
    }
    Err(ControlPlaneError::InvalidInput(MSG_NO_PREVIOUS_FIRE))
}

} // verus!

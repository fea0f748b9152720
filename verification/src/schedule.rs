//! Durable schedule cursors: their bounds, and the fires that reconciling a
//! due cursor emits under its catch-up policy.

use crate::bytes::str_is;
use crate::cron::{
    cron_matches, cron_matches_unix_ms_pg, cron_validation, is_fire, next_fire, next_fire_pg,
    previous_fire, previous_fire_pg, validate_cron_pg,
};
use crate::error::ControlPlaneError;
use crate::runs::{str_bytes, text_check, validate_text};
use vstd::prelude::*;
use vstd::string::StringSliceAdditionalSpecFns;

verus! {

pub const MSG_CURSOR_BOUNDS: &'static str = "invalid durable schedule cursor bounds";

pub const MSG_CURSOR_OFF_CRON: &'static str = "durable schedule cursor is not on its UTC cron";

pub const MSG_CATCH_UP_POLICY: &'static str = "durable schedule catch-up policy is invalid";

/// The durable position of one workflow schedule.
#[derive(Debug, Clone, PartialEq, Eq)]
pub struct ScheduleTriggerCursor {
    pub tenant_id: String,
    pub repository_id: String,
    pub workflow_identity: String,
    pub schedule_key: String,
    pub cron_utc: String,
    pub catch_up_policy: String,
    pub maximum_catch_up: u64,
    pub next_fire_unix_ms: u64,
    pub last_fire_unix_ms: Option<u64>,
    pub version: u64,
    pub updated_unix_ms: u64,
}

/// The catch-up policy of a cursor, by name.
#[derive(Debug, Clone, Copy, PartialEq, Eq, Structural)]
pub enum CatchUpPolicy {
    /// Fire nothing for missed minutes.
    Skip,
    /// Fire once, for the latest missed minute.
    Latest,
    /// Fire every missed minute, up to the cursor's maximum.
    AllBounded,
}

pub open spec fn catch_up_policy_named(b: Seq<u8>) -> Option<CatchUpPolicy> {
    if b == "skip".spec_bytes() {
        Some(CatchUpPolicy::Skip)
    } else if b == "latest".spec_bytes() {
        Some(CatchUpPolicy::Latest)
    } else if b == "all-bounded".spec_bytes() {
        Some(CatchUpPolicy::AllBounded)
    } else {
        None
    }
}

pub fn parse_catch_up_policy(value: &str) -> (res: Option<CatchUpPolicy>)
    ensures
        res == catch_up_policy_named(value.spec_bytes()),
{
    if str_is(value, "skip") {
        Some(CatchUpPolicy::Skip)
    } else if str_is(value, "latest") {
        Some(CatchUpPolicy::Latest)
    } else if str_is(value, "all-bounded") {
        Some(CatchUpPolicy::AllBounded)
    } else {
        None
    }
}

/// The bounds a cursor must keep before it is stored: a known policy, at most
/// one hundred catch-up fires (at least one for `all-bounded`), a non-zero
/// version, and a next fire after the last one.
pub open spec fn cursor_bounds_hold(c: ScheduleTriggerCursor) -> bool {
    &&& catch_up_policy_named(str_bytes(c.catch_up_policy)) is Some
    &&& c.maximum_catch_up <= 100
    &&& !(catch_up_policy_named(str_bytes(c.catch_up_policy)) == Some(CatchUpPolicy::AllBounded)
        && c.maximum_catch_up == 0)
    &&& c.version != 0
    &&& match c.last_fire_unix_ms {
        Some(last) => c.next_fire_unix_ms > last,
        None => true,
    }
}

/// What `validate_schedule_cursor` decides, in the order of its checks.
pub open spec fn schedule_cursor_check(c: ScheduleTriggerCursor) -> Result<(), ControlPlaneError> {
    match text_check(str_bytes(c.tenant_id)) {
        Err(e) => Err(e),
        Ok(()) => match text_check(str_bytes(c.repository_id)) {
            Err(e) => Err(e),
            Ok(()) => match text_check(str_bytes(c.workflow_identity)) {
                Err(e) => Err(e),
                Ok(()) => match text_check(str_bytes(c.schedule_key)) {
                    Err(e) => Err(e),
                    Ok(()) => match cron_validation(str_bytes(c.cron_utc)) {
                        Err(e) => Err(e),
                        Ok(()) => if cursor_bounds_hold(c) {
                            Ok(())
                        } else {
                            Err(ControlPlaneError::InvalidInput(MSG_CURSOR_BOUNDS))
                        },
                    },
                },
            },
        },
    }
}

/// Checks a schedule cursor before it is stored.
pub fn validate_schedule_cursor(c: &ScheduleTriggerCursor) -> (res: Result<(), ControlPlaneError>)
    ensures
        res == schedule_cursor_check(*c),
{
    validate_text(c.tenant_id.as_str())?;
    validate_text(c.repository_id.as_str())?;
    validate_text(c.workflow_identity.as_str())?;
    validate_text(c.schedule_key.as_str())?;
    validate_cron_pg(c.cron_utc.as_str())?;
    let policy = parse_catch_up_policy(c.catch_up_policy.as_str());
    let all_bounded = match policy {
        Some(CatchUpPolicy::AllBounded) => true,
        _ => false,
    };
    let last_ok = match c.last_fire_unix_ms {
        Some(last) => c.next_fire_unix_ms > last,
        None => true,
    };
    if policy.is_none() || c.maximum_catch_up > 100 || (all_bounded && c.maximum_catch_up == 0)
        || c.version == 0 || !last_ok {
        return Err(ControlPlaneError::InvalidInput(MSG_CURSOR_BOUNDS));
    }
    Ok(())
}

/// The fires of an `all-bounded` catch-up from `fire` on: every fire up to
/// `now`, at most `remaining` of them; the next fire after each emitted one is
/// computed before the bound is checked again.
pub open spec fn all_bounded_fires(cron: Seq<u8>, fire: u64, now: u64, remaining: nat) -> Result<
    Seq<u64>,
    ControlPlaneError,
>
    decreases remaining,
{
    if fire > now || remaining == 0 {
        Ok(Seq::empty())
    } else {
        match next_fire(cron, fire) {
            Err(e) => Err(e),
            Ok(n) => match all_bounded_fires(cron, n, now, (remaining - 1) as nat) {
                Err(e) => Err(e),
                Ok(rest) => Ok(seq![fire] + rest),
            },
        }
    }
}

pub open spec fn min_u64(a: u64, b: u64) -> u64 {
    if a < b {
        a
    } else {
        b
    }
}

/// The fires that reconciling a due cursor emits under its catch-up policy.
pub open spec fn catch_up_fires(c: ScheduleTriggerCursor, now: u64) -> Result<Seq<u64>, ControlPlaneError> {
    let cron = str_bytes(c.cron_utc);
    match catch_up_policy_named(str_bytes(c.catch_up_policy)) {
        Some(CatchUpPolicy::Skip) => Ok(Seq::empty()),
        Some(CatchUpPolicy::Latest) => match previous_fire(cron, now) {
            Err(e) => Err(e),
            Ok(p) => Ok(seq![p]),
        },
        Some(CatchUpPolicy::AllBounded) => if c.maximum_catch_up != 0 {
            all_bounded_fires(cron, c.next_fire_unix_ms, now, min_u64(c.maximum_catch_up, 100) as nat)
        } else {
            Err(ControlPlaneError::CorruptState(MSG_CATCH_UP_POLICY))
        },
        None => Err(ControlPlaneError::CorruptState(MSG_CATCH_UP_POLICY)),
    }
}

/// What reconciling a due cursor produces: the fires to emit, and the
/// cursor's new next and last fire.
#[derive(Debug, Clone, PartialEq, Eq)]
pub struct SchedulePlan {
    pub fires: Vec<u64>,
    pub next_fire_unix_ms: u64,
    pub last_fire_unix_ms: Option<u64>,
}

/// What `reconcile_schedule_cursor` decides for a cursor at `now`: the cursor
/// must sit on a fire of its cron; the new next fire follows the last emitted
/// fire under `all-bounded` (or stays when nothing was emitted), and follows
/// `now` otherwise.
pub open spec fn schedule_plan(c: ScheduleTriggerCursor, now: u64) -> Result<
    (Seq<u64>, u64, Option<u64>),
    ControlPlaneError,
> {
    let cron = str_bytes(c.cron_utc);
    match cron_validation(cron) {
        Err(e) => Err(e),
        Ok(()) => if c.next_fire_unix_ms % 60000 != 0 || cron_matches(cron, c.next_fire_unix_ms)
            != Ok::<bool, ControlPlaneError>(true) {
            Err(ControlPlaneError::CorruptState(MSG_CURSOR_OFF_CRON))
        } else {
            match catch_up_fires(c, now) {
                Err(e) => Err(e),
                Ok(fires) => {
                    let next = if catch_up_policy_named(str_bytes(c.catch_up_policy)) == Some(
                        CatchUpPolicy::AllBounded,
                    ) {
                        if fires.len() == 0 {
                            Ok(c.next_fire_unix_ms)
                        } else {
                            next_fire(cron, fires.last())
                        }
                    } else {
                        next_fire(cron, now)
                    };
                    match next {
                        Err(e) => Err(e),
                        Ok(n) => Ok(
                            (
                                fires,
                                n,
                                if fires.len() == 0 {
                                    c.last_fire_unix_ms
                                } else {
                                    Some(fires.last())
                                },
                            ),
                        ),
                    }
                },
            }
        }
    }
}

pub open spec fn strictly_increasing(s: Seq<u64>) -> bool {
    forall|i: int, j: int| 0 <= i < j < s.len() ==> s[i] < s[j]
}

fn all_bounded_catch_up(cron: &str, start: u64, now: u64, limit: u64) -> (res: Result<
    Vec<u64>,
    ControlPlaneError,
>)
    requires
        is_fire(cron.spec_bytes(), start),
    ensures
        match (res, all_bounded_fires(cron.spec_bytes(), start, now, limit as nat)) {
            (Ok(v), Ok(f)) => v@ == f,
            (Err(e), Err(f)) => e == f,
            _ => false,
        },
        res matches Ok(v) ==> {
            &&& strictly_increasing(v@)
            &&& v@.len() <= limit
            &&& forall|i: int| 0 <= i < v@.len() ==> (#[trigger] v@[i]) <= now && is_fire(
                cron.spec_bytes(),
                v@[i],
            )
        },
{
    let ghost expr = cron.spec_bytes();
    let mut out: Vec<u64> = Vec::new();
    let mut fire = start;
    while fire <= now && (out.len() as u64) < limit
        invariant
            expr == cron.spec_bytes(),
            out@.len() <= limit,
            is_fire(expr, fire),
            strictly_increasing(out@),
            forall|i: int| 0 <= i < out@.len() ==> (#[trigger] out@[i]) <= now && is_fire(expr, out@[i]) && out@[i] < fire,
            match (all_bounded_fires(expr, start, now, limit as nat), all_bounded_fires(
                expr,
                fire,
                now,
                (limit - out@.len()) as nat,
            )) {
                (Ok(whole), Ok(rest)) => whole == out@ + rest,
                (Err(a), Err(b)) => a == b,
                _ => false,
            },
        decreases limit - out@.len(),
    {
        let ghost before = out@;
        let ghost remaining = (limit - out@.len()) as nat;
        out.push(fire);
        let n = next_fire_pg(cron, fire)?;
        proof {
            assert(all_bounded_fires(expr, fire, now, remaining) == match all_bounded_fires(
                expr,
                n,
                now,
                (remaining - 1) as nat,
            ) {
                Err(e) => Err(e),
                Ok(rest) => Ok(seq![fire] + rest),
            });
            assert((limit - out@.len()) as nat == (remaining - 1) as nat);
            match all_bounded_fires(expr, n, now, (remaining - 1) as nat) {
                Ok(rest) => {
                    assert(before + (seq![fire] + rest) =~= out@ + rest);
                },
                Err(_) => {},
            }
        }
        fire = n;
    }
    proof {
        assert(all_bounded_fires(expr, fire, now, (limit - out@.len()) as nat) == Ok::<
            Seq<u64>,
            ControlPlaneError,
        >(Seq::empty()));
        assert(out@ + Seq::<u64>::empty() =~= out@);
    }
    Ok(out)
}

/// Decides what reconciling a due cursor at `now` emits: the catch-up fires
/// (none for `skip`, the latest missed minute for `latest`, every missed
/// minute up to the bound for `all-bounded`) and the cursor's new position.
pub fn reconcile_schedule_cursor(c: &ScheduleTriggerCursor, now: u64) -> (res: Result<
    SchedulePlan,
    ControlPlaneError,
>)
    ensures
        match (res, schedule_plan(*c, now)) {
            (Ok(p), Ok((fires, next, last))) => p.fires@ == fires && p.next_fire_unix_ms == next
                && p.last_fire_unix_ms == last,
            (Err(e), Err(f)) => e == f,
            _ => false,
        },
        res matches Ok(p) ==> {
            &&& strictly_increasing(p.fires@)
            &&& forall|i: int|
                0 <= i < p.fires@.len() ==> (#[trigger] p.fires@[i]) <= now && is_fire(
                    str_bytes(c.cron_utc),
                    p.fires@[i],
                ) && p.fires@[i] < p.next_fire_unix_ms
            &&& is_fire(str_bytes(c.cron_utc), p.next_fire_unix_ms)
            &&& p.fires@.len() <= 100
        },
{
    let cron = c.cron_utc.as_str();
    let ghost expr = str_bytes(c.cron_utc);
    validate_cron_pg(cron)?;
    if c.next_fire_unix_ms % 60000 != 0 {
        return Err(ControlPlaneError::CorruptState(MSG_CURSOR_OFF_CRON));
    }
    if !cron_matches_unix_ms_pg(cron, c.next_fire_unix_ms)? {
        return Err(ControlPlaneError::CorruptState(MSG_CURSOR_OFF_CRON));
    }
    let policy = parse_catch_up_policy(c.catch_up_policy.as_str());
    let fires: Vec<u64> = match policy {
        Some(CatchUpPolicy::Skip) => Vec::new(),
        Some(CatchUpPolicy::Latest) => {
            let p = previous_fire_pg(cron, now)?;
            let mut v = Vec::new();
            v.push(p);
            v
        },
        Some(CatchUpPolicy::AllBounded) => {
            if c.maximum_catch_up == 0 {
                return Err(ControlPlaneError::CorruptState(MSG_CATCH_UP_POLICY));
            }
            let limit = if c.maximum_catch_up < 100 {
                c.maximum_catch_up
            } else {
                100
            };
            all_bounded_catch_up(cron, c.next_fire_unix_ms, now, limit)?
        },
        None => {
            return Err(ControlPlaneError::CorruptState(MSG_CATCH_UP_POLICY));
        },
    };
    proof {
        if policy == Some(CatchUpPolicy::Latest) {
            assert(fires@ =~= seq![fires@[0]]);
        }
    }
    let next = match policy {
        Some(CatchUpPolicy::AllBounded) => {
            if fires.len() == 0 {
                c.next_fire_unix_ms
            } else {
                next_fire_pg(cron, fires[fires.len() - 1])?
            }
        },
        _ => next_fire_pg(cron, now)?,
    };
    let last = if fires.len() == 0 {
        c.last_fire_unix_ms
    } else {
        Some(fires[fires.len() - 1])
    };
    proof {
        if fires@.len() > 0 {
            assert(fires@.last() == fires@[fires@.len() - 1]);
        }
        assert forall|i: int| 0 <= i < fires@.len() implies (#[trigger] fires@[i]) < next by {
            if policy == Some(CatchUpPolicy::AllBounded) {
                if i < fires@.len() - 1 {
                    assert(fires@[i] < fires@[fires@.len() - 1]);
                }
            }
        }
    }
    Ok(SchedulePlan { fires, next_fire_unix_ms: next, last_fire_unix_ms: last })
}

/// How a cursor is written.
#[derive(Debug, Clone, Copy, PartialEq, Eq, Structural)]
pub enum CursorWrite {
    /// The first version of a cursor is inserted; an existing row conflicts.
    Insert,
    /// The cursor replaces the stored version `expected`; another stored
    /// version conflicts.
    Update { expected: u64 },
}

/// A timestamp or counter that fits a database `BIGINT`.
pub open spec fn fits_db(v: u64) -> bool {
    v <= i64::MAX
}

/// The first of the cursor's numbers that does not fit the database, in
/// the order they are written.
pub open spec fn cursor_number_check(c: ScheduleTriggerCursor) -> Result<(), ControlPlaneError> {
    if !fits_db(c.maximum_catch_up) {
        Err(ControlPlaneError::IntegerRange { field: "maximum catch up" })
    } else if !fits_db(c.next_fire_unix_ms) {
        Err(ControlPlaneError::IntegerRange { field: "next fire" })
    } else if c.last_fire_unix_ms matches Some(l) && !fits_db(l) {
        Err(ControlPlaneError::IntegerRange { field: "last fire" })
    } else if !fits_db(c.version) {
        Err(ControlPlaneError::IntegerRange { field: "schedule version" })
    } else if !fits_db(c.updated_unix_ms) {
        Err(ControlPlaneError::IntegerRange { field: "schedule update" })
    } else {
        Ok(())
    }
}

/// How writing the cursor `c` over the stored version `expected` decides:
/// a new cursor starts at version 1, and an update advances the stored
/// version by exactly one.
pub open spec fn cursor_write_decision(c: ScheduleTriggerCursor, expected: Option<u64>) -> Result<
    CursorWrite,
    ControlPlaneError,
> {
    match expected {
        None => if c.version != 1 {
            Err(ControlPlaneError::IdempotencyConflict)
        } else {
            match cursor_number_check(c) {
                Err(e) => Err(e),
                Ok(()) => Ok(CursorWrite::Insert),
            }
        },
        Some(v) => match cursor_number_check(c) {
            Err(e) => Err(e),
            Ok(()) => if !fits_db(v) {
                Err(ControlPlaneError::IntegerRange { field: "expected schedule version" })
            } else if c.version != v + 1 {
                Err(ControlPlaneError::IdempotencyConflict)
            } else {
                Ok(CursorWrite::Update { expected: v })
            },
        },
    }
}

fn fits_db_exec(v: u64) -> (res: bool)
    ensures
        res == fits_db(v),
{
    v <= 0x7fff_ffff_ffff_ffffu64
}

fn check_cursor_numbers(c: &ScheduleTriggerCursor) -> (res: Result<(), ControlPlaneError>)
    ensures
        res == cursor_number_check(*c),
{
    if !fits_db_exec(c.maximum_catch_up) {
        return Err(ControlPlaneError::IntegerRange { field: "maximum catch up" });
    }
    if !fits_db_exec(c.next_fire_unix_ms) {
        return Err(ControlPlaneError::IntegerRange { field: "next fire" });
    }
    if let Some(l) = c.last_fire_unix_ms {
        if !fits_db_exec(l) {
            return Err(ControlPlaneError::IntegerRange { field: "last fire" });
        }
    }
    if !fits_db_exec(c.version) {
        return Err(ControlPlaneError::IntegerRange { field: "schedule version" });
    }
    if !fits_db_exec(c.updated_unix_ms) {
        return Err(ControlPlaneError::IntegerRange { field: "schedule update" });
    }
    Ok(())
}

/// Decides how a validated cursor is written over the stored version
/// `expected`. The store refuses the write with a conflict when the row it
/// names is not there (or, for an insert, is there already).
pub fn plan_cursor_write(c: &ScheduleTriggerCursor, expected: Option<u64>) -> (res: Result<
    CursorWrite,
    ControlPlaneError,
>)
    ensures
        res == cursor_write_decision(*c, expected),
{
    match expected {
        None => {
            if c.version != 1 {
                return Err(ControlPlaneError::IdempotencyConflict);
            }
            check_cursor_numbers(c)?;
            Ok(CursorWrite::Insert)
        },
        Some(v) => {
            check_cursor_numbers(c)?;
            if !fits_db_exec(v) {
                return Err(ControlPlaneError::IntegerRange { field: "expected schedule version" });
            }
            if c.version != v + 1 {
                return Err(ControlPlaneError::IdempotencyConflict);
            }
            Ok(CursorWrite::Update { expected: v })
        },
    }
}

/// Cursor versions advance one at a time: every accepted write stores the
/// version after the one it replaces, starting at 1.
pub proof fn law_cursor_versions_advance_by_one(c: ScheduleTriggerCursor, expected: Option<u64>)
    ensures
        cursor_write_decision(c, expected) == Ok::<CursorWrite, ControlPlaneError>(CursorWrite::Insert)
            ==> expected is None && c.version == 1,
        cursor_write_decision(c, expected) matches Ok(CursorWrite::Update { expected: v }) ==> expected
            == Some(v) && c.version == v + 1,
{
}

} // verus!

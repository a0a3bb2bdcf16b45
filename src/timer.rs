//! Elapsed-time rendering.

use vstd::prelude::*;

use crate::text::{decimal2, push_decimal2};

verus! {

/// `secs` rendered as hours, minutes and seconds: `HH:MM:SS`, each part at
/// least two digits; the hours are not reduced modulo a day.
pub open spec fn hhmmss(secs: nat) -> Seq<char> {
    decimal2(secs / 3600) + seq![':'] + decimal2((secs / 60) % 60) + seq![':'] + decimal2(secs % 60)
}

/// Renders a number of seconds as `HH:MM:SS`.
pub fn format_hhmmss(secs: u64) -> (r: String)
    ensures
        r@ == hhmmss(secs as nat),
{
    let mut s = String::new();
    push_decimal2(&mut s, secs / 3600);
    s.append(":");
    push_decimal2(&mut s, (secs / 60) % 60);
    s.append(":");
    push_decimal2(&mut s, secs % 60);
    proof {
        reveal_strlit(":");
        assert(s@ =~= hhmmss(secs as nat));
    }
    s
}

} // verus!

verus! {

/// Relies on `Duration::as_secs`: the whole seconds of a duration.
pub assume_specification[ core::time::Duration::as_secs ](d: &core::time::Duration) -> u64;

/// Rendering of a duration for reports.
pub trait DurationFormatter {
    /// The duration's whole seconds as `HH:MM:SS`.
    fn to_hhmmss(&self) -> (r: String)
        ensures
            exists|secs: u64| r@ == hhmmss(secs as nat),
    ;
}

impl DurationFormatter for core::time::Duration {
    fn to_hhmmss(&self) -> (r: String) {
        format_hhmmss(self.as_secs())
    }
}

/// Relies on chrono's `Utc::now` and `DateTime::timestamp`: the current Unix
/// time in whole seconds. Nothing is promised of its value.
#[verifier::external_body]
fn unix_now() -> (r: i64) {
    chrono::Utc::now().timestamp()
}

/// Seconds from `start` to `end`; a clock that went backwards counts as none.
pub open spec fn elapsed_between(start: int, end: int) -> nat {
    if end > start {
        (end - start) as nat
    } else {
        0
    }
}

/// Seconds elapsed between two Unix timestamps, never negative.
pub fn elapsed_seconds(start: i64, end: i64) -> (r: u64)
    ensures
        r == elapsed_between(start as int, end as int),
{
    if end > start {
        (end as i128 - start as i128) as u64
    } else {
        0
    }
}

/// Runs `fun` on `arg` and measures the wall-clock seconds it took. The
/// result of `fun` is handed back unchanged, beside the elapsed seconds.
pub fn calc_time<A, R, E, F: Fn(&A) -> Result<R, E>>(fun: F, arg: &A) -> (r: Result<(R, u64), (E, u64)>)
    requires
        fun.requires((arg,)),
    ensures
        match r {
            Ok((v, _)) => fun.ensures((arg,), Ok(v)),
            Err((e, _)) => fun.ensures((arg,), Err(e)),
        },
{
    let start = unix_now();
    let res = fun(arg);
    let end = unix_now();
    let secs = elapsed_seconds(start, end);
    match res {
        Ok(v) => Ok((v, secs)),
        Err(e) => Err((e, secs)),
    }
}

} // verus!

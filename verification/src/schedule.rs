use vstd::prelude::*;

use crate::error::{ErrorKind, RequestError};
use crate::text::{trim, trimmed};
use crate::time::{
    format_rfc3339, parse_rfc3339, parse_ymd, rfc3339_parsed, rfc3339_text, ymd_midnight, Instant,
    CHRONO_MAX_SECS, CHRONO_MIN_SECS, SECS_PER_DAY,
};
use crate::validation::{err_view, required_outcome, trimmed_required};

verus! {

/// The last day (days since 1970-01-01) that `chrono::NaiveDate` represents
/// (`NaiveDate::MAX`); no day follows it.
pub const LAST_DAY: i64 = 95026236;

/// Opening hours and slot length used to offer appointment slots.
#[derive(Debug, Clone, Copy, PartialEq, Eq, Structural)]
pub struct BusinessHours {
    pub start_hour: u32,
    pub end_hour: u32,
    pub slot_minutes: i64,
}

impl BusinessHours {
    /// Both hours name an hour of the day.
    pub open spec fn hours_valid(self) -> bool {
        self.start_hour < 24 && self.end_hour < 24
    }

    /// The distance between two slots, in seconds.
    pub open spec fn step(self) -> int {
        self.slot_minutes * 60
    }

    /// The first slot of day `d`.
    pub open spec fn opening(self, d: int) -> int {
        d * SECS_PER_DAY + self.start_hour * 3600
    }

    /// The instant of day `d` at which no slot may start any more.
    pub open spec fn closing(self, d: int) -> int {
        d * SECS_PER_DAY + self.end_hour * 3600
    }
}

/// One offered slot: when it starts and whether nobody has booked it.
#[derive(Debug, Clone, Copy, PartialEq, Eq, Structural)]
pub struct Slot {
    pub at: Instant,
    pub is_available: bool,
}

/// The slot starting at second `t`, free unless an appointment starts then.
pub open spec fn slot_at(t: int, booked: Seq<Instant>) -> Slot {
    Slot { at: Instant::at(t), is_available: !booked.contains(Instant::at(t)) }
}

/// Second `t` lies within the requested period, both ends included.
pub open spec fn in_period(t: int, from: Instant, to: Instant) -> bool {
    from.not_after(Instant::at(t)) && Instant::at(t).not_after(to)
}

/// The slots of one day from second `t` on, every `step` seconds before `close`,
/// kept where they lie within the period.
pub open spec fn run_slots(
    t: int,
    close: int,
    step: int,
    from: Instant,
    to: Instant,
    booked: Seq<Instant>,
) -> Seq<Slot>
    decreases (if t < close { close - t } else { 0 }),
{
    if step > 0 && t < close {
        (if in_period(t, from, to) {
            seq![slot_at(t, booked)]
        } else {
            seq![]
        }) + run_slots(t + step, close, step, from, to, booked)
    } else {
        seq![]
    }
}

/// The slots of days `d` to `last`, day after day.
pub open spec fn days_slots(
    d: int,
    last: int,
    hours: BusinessHours,
    from: Instant,
    to: Instant,
    booked: Seq<Instant>,
) -> Seq<Slot>
    decreases last + 1 - d,
{
    if d <= last {
        run_slots(hours.opening(d), hours.closing(d), hours.step(), from, to, booked)
            + days_slots(d + 1, last, hours, from, to, booked)
    } else {
        seq![]
    }
}

/// What planning the slots of a period gives: the slots, or the error kind
/// and message that stop it.
pub open spec fn slots_outcome(
    from: Instant,
    to: Instant,
    booked: Seq<Instant>,
    hours: BusinessHours,
) -> Result<Seq<Slot>, (ErrorKind, Seq<char>)> {
    if from.day() > to.day() {
        Ok(seq![])
    } else if hours.start_hour >= 24 {
        Err((ErrorKind::InternalServerError, "invalid business start hour"@))
    } else if hours.end_hour >= 24 {
        Err((ErrorKind::InternalServerError, "invalid business end hour"@))
    } else if to.day() == LAST_DAY {
        Err((ErrorKind::InternalServerError, "failed to increment date"@))
    } else {
        Ok(days_slots(from.day(), to.day(), hours, from, to, booked))
    }
}

/// The inputs for which planning terminates without overflowing chrono's range:
/// where slots are produced at all, they are a positive number of minutes apart
/// and one step past the closing hour of the last day stays representable.
pub open spec fn planning_allowed(from: Instant, to: Instant, hours: BusinessHours) -> bool {
    (hours.hours_valid() && from.day() <= to.day() && hours.start_hour < hours.end_hour) ==> (
    hours.slot_minutes > 0 && hours.closing(to.day()) + hours.step() <= CHRONO_MAX_SECS)
}

/// Whether the slots between `from` and `to` can be planned within the
/// range of instants that chrono holds (`planning_allowed`).
pub fn can_plan(from: &Instant, to: &Instant, hours: &BusinessHours) -> (r: bool)
    ensures
        r == planning_allowed(*from, *to, *hours),
{
    let hours_valid = hours.start_hour < 24 && hours.end_hour < 24;
    let days_ordered = from.day_number() <= to.day_number();
    if !(hours_valid && days_ordered && hours.start_hour < hours.end_hour) {
        return true;
    }
    if hours.slot_minutes <= 0 {
        return false;
    }
    let closing = (to.day_number() as i128) * (SECS_PER_DAY as i128) + (hours.end_hour as i128) * 3600;
    closing + (hours.slot_minutes as i128) * 60 <= CHRONO_MAX_SECS as i128
}

/// Whether an appointment starts at `at`.
pub fn is_booked(booked: &Vec<Instant>, at: &Instant) -> (r: bool)
    ensures
        r == booked@.contains(*at),
{
    let n = booked.len();
    for i in 0..n
        invariant
            n == booked@.len(),
            forall|j: int| 0 <= j < i ==> booked@[j] != *at,
    {
        if booked[i].same_as(at) {
            proof {
                assert(booked@[i as int] == *at);
            }
            return true;
        }
    }
    false
}

/// The slots of one day, from `open` on every `step` seconds before `close`.
fn day_slots(
    open: i64,
    close: i64,
    step: i64,
    from: &Instant,
    to: &Instant,
    booked: &Vec<Instant>,
    out: &mut Vec<Slot>,
)
    requires
        step > 0,
        close + step <= CHRONO_MAX_SECS,
        open >= i64::MIN / 2,
    ensures
        final(out)@ == old(out)@ + run_slots(open as int, close as int, step as int, *from, *to, booked@),
{
    let ghost start = old(out)@;
    let mut t = open;
    while t < close
        invariant
            step > 0,
            close + step <= CHRONO_MAX_SECS,
            t >= open,
            t < close ==> t + step <= CHRONO_MAX_SECS,
            start + run_slots(open as int, close as int, step as int, *from, *to, booked@)
                == out@ + run_slots(t as int, close as int, step as int, *from, *to, booked@),
        decreases close + step - t,
    {
        let ghost before = out@;
        let at = Instant { secs: t, nanos: 0 };
        let within = !at.is_before(from) && !to.is_before(&at);
        proof {
            assert(within == in_period(t as int, *from, *to));
        }
        if within {
            let free = !is_booked(booked, &at);
            out.push(Slot { at, is_available: free });
        }
        proof {
            let rest = run_slots(t + step, close as int, step as int, *from, *to, booked@);
            let head = if in_period(t as int, *from, *to) {
                seq![slot_at(t as int, booked@)]
            } else {
                seq![]
            };
            assert(run_slots(t as int, close as int, step as int, *from, *to, booked@) == head + rest);
            assert(out@ == before + head);
            assert(before + (head + rest) =~= (before + head) + rest);
        }
        t = t + step;
    }
    proof {
        assert(out@ + run_slots(t as int, close as int, step as int, *from, *to, booked@) =~= out@);
    }
}

/// Plans the appointment slots between `from` and `to`: on every day from the
/// day of `from` to the day of `to`, a slot every `slot_minutes` from the
/// opening hour until before the closing hour, kept where it lies within the
/// period and marked free unless an appointment starts at that instant.
pub fn available_slots(
    from: Instant,
    to: Instant,
    booked: &Vec<Instant>,
    hours: &BusinessHours,
) -> (r: Result<Vec<Slot>, RequestError>)
    requires
        from.valid(),
        to.valid(),
        planning_allowed(from, to, *hours),
    ensures
        match slots_outcome(from, to, booked@, *hours) {
            Ok(s) => r matches Ok(v) && v@ == s,
            Err((kind, message)) => r matches Err(e) && e.is(kind, message),
        },
        hours.slot_minutes > 0 ==> (r matches Ok(v) ==> v@.len() <= day_count(from, to)
            * slots_per_day(*hours)),
{
    proof {
        if slots_outcome(from, to, booked@, *hours) is Ok {
            if hours.slot_minutes > 0 {
                law_slot_count_bounded(from, to, booked@, *hours);
            }
        }
    }
    let first = from.day_number();
    let last = to.day_number();
    let mut out: Vec<Slot> = Vec::new();
    if first > last {
        return Ok(out);
    }
    if hours.start_hour >= 24 {
        return Err(RequestError::internal_server_error("invalid business start hour"));
    }
    if hours.end_hour >= 24 {
        return Err(RequestError::internal_server_error("invalid business end hour"));
    }
    let ghost total = days_slots(first as int, last as int, *hours, from, to, booked@);
    let mut day = first;
    while day <= last
        invariant
            first <= day <= last + 1,
            first == from.day(),
            last == to.day(),
            from.valid(),
            to.valid(),
            hours.hours_valid(),
            planning_allowed(from, to, *hours),
            first <= last,
            total == days_slots(first as int, last as int, *hours, from, to, booked@),
            total == out@ + days_slots(day as int, last as int, *hours, from, to, booked@),
            day == last + 1 ==> last != LAST_DAY,
        decreases last + 1 - day,
    {
        let ghost before = out@;
        let open = day * SECS_PER_DAY + (hours.start_hour as i64) * 3600;
        let close = day * SECS_PER_DAY + (hours.end_hour as i64) * 3600;
        if open < close {
            day_slots(open, close, hours.slot_minutes * 60, &from, &to, booked, &mut out);
        } else {
            proof {
                assert(run_slots(open as int, close as int, hours.step(), from, to, booked@) =~= seq![]);
                assert(out@ =~= before + seq![]);
            }
        }
        proof {
            let here = run_slots(hours.opening(day as int), hours.closing(day as int), hours.step(), from, to, booked@);
            let rest = days_slots(day + 1, last as int, *hours, from, to, booked@);
            assert(out@ == before + here);
            assert(before + (here + rest) =~= (before + here) + rest);
        }
        if day == LAST_DAY {
            return Err(RequestError::internal_server_error("failed to increment date"));
        }
        day = day + 1;
    }
    proof {
        assert(out@ + days_slots(day as int, last as int, *hours, from, to, booked@) =~= out@);
    }
    Ok(out)
}


/// Second `x` is one of `t`, `t + step`, `t + 2 * step`, ... that lie before `close`.
pub open spec fn steps_reach(t: int, x: int, close: int, step: int) -> bool
    decreases (if t < close { close - t } else { 0 }),
{
    step > 0 && t < close && (x == t || steps_reach(t + step, x, close, step))
}

/// Being reached by steps means lying between the start and `close` at a
/// whole number of steps from the start.
pub proof fn lemma_steps_reach_arith(t: int, x: int, close: int, step: int)
    requires
        step > 0,
    ensures
        steps_reach(t, x, close, step) <==> (t <= x < close && (x - t) % step == 0),
    decreases (if t < close { close - t } else { 0 }),
{
    if t < close {
        lemma_steps_reach_arith(t + step, x, close, step);
        vstd::arithmetic::div_mod::lemma_mod_sub_multiples_vanish(x - t, step);
        assert((-step + (x - t)) == x - (t + step));
        if t < x < t + step {
            vstd::arithmetic::div_mod::lemma_small_mod((x - t) as nat, step as nat);
        }
        if x == t {
            assert(0int % step == 0) by {
                vstd::arithmetic::div_mod::lemma_small_mod(0, step as nat);
            }
        }
    }
}

/// A second reached by steps lies between the start and `close`.
pub proof fn lemma_steps_reach_bounds(t: int, x: int, close: int, step: int)
    requires
        steps_reach(t, x, close, step),
    ensures
        t <= x < close,
    decreases (if t < close { close - t } else { 0 }),
{
    if x != t {
        lemma_steps_reach_bounds(t + step, x, close, step);
    }
}

/// The slots of one day are the reached seconds within the period, in order.
pub proof fn lemma_run_slots_shape(
    t: int,
    close: int,
    step: int,
    from: Instant,
    to: Instant,
    booked: Seq<Instant>,
)
    requires
        step > 0,
        i64::MIN <= t,
        close <= i64::MAX,
    ensures
        forall|i: int|
            0 <= i < run_slots(t, close, step, from, to, booked).len() ==> {
                let s = #[trigger] run_slots(t, close, step, from, to, booked)[i];
                &&& steps_reach(t, s.at.secs as int, close, step)
                &&& in_period(s.at.secs as int, from, to)
                &&& s == slot_at(s.at.secs as int, booked)
                &&& t <= s.at.secs < close
            },
        forall|i: int, j: int|
            0 <= i < j < run_slots(t, close, step, from, to, booked).len() ==> (#[trigger] run_slots(
                t,
                close,
                step,
                from,
                to,
                booked,
            )[i]).at.secs < (#[trigger] run_slots(t, close, step, from, to, booked)[j]).at.secs,
        forall|x: int|
            #[trigger] steps_reach(t, x, close, step) && in_period(x, from, to) ==> run_slots(
                t,
                close,
                step,
                from,
                to,
                booked,
            ).contains(slot_at(x, booked)),
    decreases (if t < close { close - t } else { 0 }),
{
    let run = run_slots(t, close, step, from, to, booked);
    if t < close {
        lemma_run_slots_shape(t + step, close, step, from, to, booked);
        let rest = run_slots(t + step, close, step, from, to, booked);
        let head = if in_period(t, from, to) {
            seq![slot_at(t, booked)]
        } else {
            seq![]
        };
        assert(run == head + rest);
        assert forall|i: int| 0 <= i < run.len() implies {
            let s = #[trigger] run[i];
            &&& steps_reach(t, s.at.secs as int, close, step)
            &&& in_period(s.at.secs as int, from, to)
            &&& s == slot_at(s.at.secs as int, booked)
            &&& t <= s.at.secs < close
        } by {
            if i >= head.len() {
                assert(run[i] == rest[i - head.len()]);
            } else {
                assert(run[i] == slot_at(t, booked));
            }
        }
        assert forall|i: int, j: int| 0 <= i < j < run.len() implies (#[trigger] run[i]).at.secs < (
        #[trigger] run[j]).at.secs by {
            assert(run[j] == rest[j - head.len()]);
            if i >= head.len() {
                assert(run[i] == rest[i - head.len()]);
            } else {
                assert(run[i] == slot_at(t, booked));
            }
        }
        assert forall|x: int| #[trigger] steps_reach(t, x, close, step) && in_period(x, from, to) implies run.contains(
        slot_at(x, booked)) by {
            if x == t {
                assert(run[0] == slot_at(t, booked));
            } else {
                assert(steps_reach(t + step, x, close, step));
                let k = choose|k: int| 0 <= k < rest.len() && rest[k] == slot_at(x, booked);
                assert(run[k + head.len()] == rest[k]);
            }
        }
    } else {
        assert forall|x: int| #[trigger] steps_reach(t, x, close, step) && in_period(x, from, to) implies run.contains(
        slot_at(x, booked)) by {
        }
    }
}

/// Day `dd` has a slot at second `x` under the given hours.
pub open spec fn slot_of_day(hours: BusinessHours, dd: int, x: int) -> bool {
    steps_reach(hours.opening(dd), x, hours.closing(dd), hours.step())
}

/// Some day from `first` to `last` has a slot at second `x`.
pub open spec fn slot_of_some_day(hours: BusinessHours, first: int, last: int, x: int) -> bool {
    exists|dd: int| first <= dd <= last && slot_of_day(hours, dd, x)
}

/// The slots of days `d` to `last` are the slot seconds of those days within
/// the period, in order.
pub proof fn lemma_days_slots_shape(
    d: int,
    last: int,
    hours: BusinessHours,
    from: Instant,
    to: Instant,
    booked: Seq<Instant>,
)
    requires
        hours.hours_valid(),
        hours.slot_minutes > 0,
        d * SECS_PER_DAY >= i64::MIN,
        (last + 1) * SECS_PER_DAY <= i64::MAX,
    ensures
        forall|i: int|
            0 <= i < days_slots(d, last, hours, from, to, booked).len() ==> {
                let s = #[trigger] days_slots(d, last, hours, from, to, booked)[i];
                &&& exists|dd: int| d <= dd <= last && slot_of_day(hours, dd, s.at.secs as int)
                &&& in_period(s.at.secs as int, from, to)
                &&& s == slot_at(s.at.secs as int, booked)
                &&& d * SECS_PER_DAY <= s.at.secs
            },
        forall|i: int, j: int|
            0 <= i < j < days_slots(d, last, hours, from, to, booked).len() ==> (#[trigger] days_slots(
                d,
                last,
                hours,
                from,
                to,
                booked,
            )[i]).at.secs < (#[trigger] days_slots(d, last, hours, from, to, booked)[j]).at.secs,
        forall|dd: int, x: int|
            d <= dd <= last && #[trigger] slot_of_day(hours, dd, x) && in_period(x, from, to)
                ==> days_slots(d, last, hours, from, to, booked).contains(slot_at(x, booked)),
    decreases last + 1 - d,
{
    let all = days_slots(d, last, hours, from, to, booked);
    if d <= last {
        lemma_days_slots_shape(d + 1, last, hours, from, to, booked);
        let here = run_slots(hours.opening(d), hours.closing(d), hours.step(), from, to, booked);
        let rest = days_slots(d + 1, last, hours, from, to, booked);
        lemma_run_slots_shape(hours.opening(d), hours.closing(d), hours.step(), from, to, booked);
        assert(all == here + rest);
        assert(hours.closing(d) <= (d + 1) * SECS_PER_DAY);
        assert forall|i: int| 0 <= i < all.len() implies {
            let s = #[trigger] all[i];
            &&& exists|dd: int| d <= dd <= last && slot_of_day(hours, dd, s.at.secs as int)
            &&& in_period(s.at.secs as int, from, to)
            &&& s == slot_at(s.at.secs as int, booked)
            &&& d * SECS_PER_DAY <= s.at.secs
        } by {
            if i >= here.len() {
                assert(all[i] == rest[i - here.len()]);
            } else {
                assert(all[i] == here[i]);
                assert(slot_of_day(hours, d, all[i].at.secs as int));
            }
        }
        assert forall|i: int, j: int| 0 <= i < j < all.len() implies (#[trigger] all[i]).at.secs < (
        #[trigger] all[j]).at.secs by {
            if j >= here.len() {
                assert(all[j] == rest[j - here.len()]);
                if i >= here.len() {
                    assert(all[i] == rest[i - here.len()]);
                } else {
                    assert(all[i] == here[i]);
                }
            } else {
                assert(all[i] == here[i]);
                assert(all[j] == here[j]);
            }
        }
        assert forall|dd: int, x: int|
            d <= dd <= last && #[trigger] slot_of_day(hours, dd, x) && in_period(x, from, to)
            implies all.contains(slot_at(x, booked)) by {
            if dd == d {
                let k = choose|k: int| 0 <= k < here.len() && here[k] == slot_at(x, booked);
                assert(all[k] == here[k]);
            } else {
                let k = choose|k: int| 0 <= k < rest.len() && rest[k] == slot_at(x, booked);
                assert(all[k + here.len()] == rest[k]);
            }
        }
    }
}

/// Every planned slot starts within the requested period, on a whole second.
pub proof fn law_slots_lie_in_period(
    from: Instant,
    to: Instant,
    booked: Seq<Instant>,
    hours: BusinessHours,
)
    requires
        from.valid(),
        to.valid(),
        planning_allowed(from, to, hours),
        slots_outcome(from, to, booked, hours) is Ok,
    ensures
        forall|i: int|
            0 <= i < slots_outcome(from, to, booked, hours)->Ok_0.len() ==> {
                let s = #[trigger] slots_outcome(from, to, booked, hours)->Ok_0[i];
                &&& from.not_after(s.at)
                &&& s.at.not_after(to)
                &&& s.at.nanos == 0
            },
{
    slot_plan_facts(from, to, booked, hours);
}

/// A planned slot is offered as free exactly when no appointment starts at it.
pub proof fn law_slot_free_iff_unbooked(
    from: Instant,
    to: Instant,
    booked: Seq<Instant>,
    hours: BusinessHours,
)
    requires
        from.valid(),
        to.valid(),
        planning_allowed(from, to, hours),
        slots_outcome(from, to, booked, hours) is Ok,
    ensures
        forall|i: int|
            0 <= i < slots_outcome(from, to, booked, hours)->Ok_0.len() ==> {
                let s = #[trigger] slots_outcome(from, to, booked, hours)->Ok_0[i];
                s.is_available <==> !booked.contains(s.at)
            },
{
    slot_plan_facts(from, to, booked, hours);
}

/// Second `x` lies on day `dd`'s business grid: from the opening hour, a
/// whole number of slot lengths later, before the closing hour.
pub open spec fn on_business_grid(hours: BusinessHours, dd: int, x: int) -> bool {
    &&& hours.opening(dd) <= x < hours.closing(dd)
    &&& (x - hours.opening(dd)) % hours.step() == 0
}

/// Some day from `first` to `last` has second `x` on its business grid.
pub open spec fn on_grid_of_some_day(hours: BusinessHours, first: int, last: int, x: int) -> bool {
    exists|dd: int| first <= dd <= last && #[trigger] on_business_grid(hours, dd, x)
}

/// Every planned slot lies on the business grid of a day of the period.
pub proof fn law_slots_on_business_grid(
    from: Instant,
    to: Instant,
    booked: Seq<Instant>,
    hours: BusinessHours,
)
    requires
        from.valid(),
        to.valid(),
        planning_allowed(from, to, hours),
        slots_outcome(from, to, booked, hours) is Ok,
    ensures
        forall|i: int|
            0 <= i < slots_outcome(from, to, booked, hours)->Ok_0.len() ==> on_grid_of_some_day(
                hours,
                from.day(),
                to.day(),
                (#[trigger] slots_outcome(from, to, booked, hours)->Ok_0[i]).at.secs as int,
            ),
{
    slot_plan_facts(from, to, booked, hours);
    let v = slots_outcome(from, to, booked, hours)->Ok_0;
    assert forall|i: int| 0 <= i < v.len() implies on_grid_of_some_day(
        hours,
        from.day(),
        to.day(),
        (#[trigger] v[i]).at.secs as int,
    ) by {
        let x = v[i].at.secs as int;
        assert(slot_of_some_day(hours, from.day(), to.day(), x));
        let dd = choose|dd: int| from.day() <= dd <= to.day() && slot_of_day(hours, dd, x);
        lemma_steps_reach_arith(hours.opening(dd), x, hours.closing(dd), hours.step());
        assert(on_business_grid(hours, dd, x));
    }
}

/// Planned slots come in strictly increasing time order, so none repeats.
pub proof fn law_slots_in_time_order(
    from: Instant,
    to: Instant,
    booked: Seq<Instant>,
    hours: BusinessHours,
)
    requires
        from.valid(),
        to.valid(),
        planning_allowed(from, to, hours),
        slots_outcome(from, to, booked, hours) is Ok,
    ensures
        forall|i: int, j: int|
            0 <= i < j < slots_outcome(from, to, booked, hours)->Ok_0.len() ==> (#[trigger] slots_outcome(
                from,
                to,
                booked,
                hours,
            )->Ok_0[i]).at.before(#[trigger] slots_outcome(from, to, booked, hours)->Ok_0[j].at),
{
    slot_plan_facts(from, to, booked, hours);
}

/// Every business-grid second of a day of the period that lies within the
/// period is offered as a slot.
pub proof fn law_slots_cover_period(
    from: Instant,
    to: Instant,
    booked: Seq<Instant>,
    hours: BusinessHours,
)
    requires
        from.valid(),
        to.valid(),
        planning_allowed(from, to, hours),
        slots_outcome(from, to, booked, hours) is Ok,
    ensures
        forall|dd: int, x: int|
            from.day() <= dd <= to.day() && #[trigger] on_business_grid(hours, dd, x) && in_period(x, from, to)
                ==> slots_outcome(from, to, booked, hours)->Ok_0.contains(slot_at(x, booked)),
{
    slot_plan_facts(from, to, booked, hours);
    let v = slots_outcome(from, to, booked, hours)->Ok_0;
    assert forall|dd: int, x: int|
        from.day() <= dd <= to.day() && #[trigger] on_business_grid(hours, dd, x) && in_period(x, from, to)
        implies v.contains(slot_at(x, booked)) by {
        assert(hours.start_hour < hours.end_hour);
        lemma_steps_reach_arith(hours.opening(dd), x, hours.closing(dd), hours.step());
        assert(slot_of_day(hours, dd, x));
    }
}

/// The seconds of a business day in which slots may start.
pub open spec fn open_span(hours: BusinessHours) -> int {
    if hours.start_hour < hours.end_hour {
        (hours.end_hour - hours.start_hour) * 3600
    } else {
        0
    }
}

/// The number of days from the day of `from` to the day of `to`.
pub open spec fn day_count(from: Instant, to: Instant) -> int {
    if from.day() <= to.day() {
        to.day() - from.day() + 1
    } else {
        0
    }
}

proof fn lemma_run_slots_count(t: int, close: int, step: int, from: Instant, to: Instant, booked: Seq<Instant>)
    requires
        step > 0,
    ensures
        run_slots(t, close, step, from, to, booked).len() * step <= (if t < close { close - t } else { 0 }) + step - 1,
    decreases (if t < close { close - t } else { 0 }),
{
    if t < close {
        lemma_run_slots_count(t + step, close, step, from, to, booked);
        let rest = run_slots(t + step, close, step, from, to, booked).len();
        let n = run_slots(t, close, step, from, to, booked).len();
        assert(n <= rest + 1);
        if t + step < close {
            assert(n * step <= close - t + step - 1) by (nonlinear_arith)
                requires n <= rest + 1, rest * step <= close - t - step + step - 1, step > 0;
        } else {
            assert(rest * step <= step - 1);
            assert(rest == 0) by (nonlinear_arith)
                requires rest * step <= step - 1, step > 0, rest >= 0;
            assert(n * step <= close - t + step - 1) by (nonlinear_arith)
                requires n <= 1, close - t >= 1, step > 0, n >= 0;
        }
    }
}

/// The most slots one business day offers: the open span divided by the
/// slot length, rounded up.
pub open spec fn slots_per_day(hours: BusinessHours) -> int {
    (open_span(hours) + hours.step() - 1) / hours.step()
}

proof fn lemma_days_slots_count(
    d: int,
    last: int,
    hours: BusinessHours,
    from: Instant,
    to: Instant,
    booked: Seq<Instant>,
)
    requires
        hours.slot_minutes > 0,
    ensures
        days_slots(d, last, hours, from, to, booked).len() <= (if d <= last {
            last - d + 1
        } else {
            0
        }) * slots_per_day(hours),
    decreases last + 1 - d,
{
    if d <= last {
        lemma_days_slots_count(d + 1, last, hours, from, to, booked);
        let step = hours.step();
        lemma_run_slots_count(hours.opening(d), hours.closing(d), step, from, to, booked);
        let here = run_slots(hours.opening(d), hours.closing(d), step, from, to, booked).len() as int;
        let rest = days_slots(d + 1, last, hours, from, to, booked).len() as int;
        let per = open_span(hours) + step - 1;
        let q = slots_per_day(hours);
        let k = if d + 1 <= last { last - d } else { 0 };
        assert(here * step <= per);
        assert(here <= q) by (nonlinear_arith)
            requires here * step <= per, q == per / step, step > 0, here >= 0;
        assert(days_slots(d, last, hours, from, to, booked).len() == here + rest);
        assert(here + rest <= (k + 1) * q) by (nonlinear_arith)
            requires here <= q, rest <= k * q;
        assert(k + 1 == last - d + 1);
    }
}

/// The plan of a period offers at most `slots_per_day` slots on each of its
/// days: as many as fit into the business hours at the slot length.
pub proof fn law_slot_count_bounded(from: Instant, to: Instant, booked: Seq<Instant>, hours: BusinessHours)
    requires
        hours.slot_minutes > 0,
        slots_outcome(from, to, booked, hours) is Ok,
    ensures
        slots_outcome(from, to, booked, hours)->Ok_0.len() <= day_count(from, to) * slots_per_day(hours),
{
    if from.day() <= to.day() {
        lemma_days_slots_count(from.day(), to.day(), hours, from, to, booked);
    }
}

/// Planning succeeds for any opening and closing hours below 24, whatever
/// their order, whenever the period does not reach chrono's last day: the
/// business-hours errors come exactly from an hour of 24 or more.
pub proof fn law_valid_hours_plan_succeeds(from: Instant, to: Instant, booked: Seq<Instant>, hours: BusinessHours)
    requires
        hours.start_hour < 24,
        hours.end_hour < 24,
        to.day() != LAST_DAY,
    ensures
        slots_outcome(from, to, booked, hours) is Ok,
{
}

/// Over a period of at least one day, an opening hour of 24 or more is
/// refused, and otherwise so is a closing hour of 24 or more.
pub proof fn law_invalid_hours_refused(from: Instant, to: Instant, booked: Seq<Instant>, hours: BusinessHours)
    requires
        from.day() <= to.day(),
    ensures
        hours.start_hour >= 24 ==> slots_outcome(from, to, booked, hours) == Err::<Seq<Slot>, (ErrorKind, Seq<char>)>(
            (ErrorKind::InternalServerError, "invalid business start hour"@),
        ),
        hours.start_hour < 24 && hours.end_hour >= 24 ==> slots_outcome(from, to, booked, hours) == Err::<
            Seq<Slot>,
            (ErrorKind, Seq<char>),
        >((ErrorKind::InternalServerError, "invalid business end hour"@)),
{
}

/// A business day lying wholly within the period offers every slot from the
/// opening hour on, one slot length apart, up to the closing hour: for the
/// hours 9 to 18 and slots of an hour that is 09:00, 10:00, ..., 17:00.
pub proof fn law_whole_day_offers_every_slot(
    from: Instant,
    to: Instant,
    booked: Seq<Instant>,
    hours: BusinessHours,
    d: int,
    k: int,
)
    requires
        from.valid(),
        to.valid(),
        planning_allowed(from, to, hours),
        hours.start_hour < hours.end_hour < 24,
        hours.slot_minutes > 0,
        to.day() != LAST_DAY,
        from.day() <= d <= to.day(),
        from.not_after(Instant::at(hours.opening(d))),
        Instant::at(hours.closing(d)).not_after(to),
        0 <= k,
        hours.opening(d) + k * hours.step() < hours.closing(d),
    ensures
        slots_outcome(from, to, booked, hours)->Ok_0.contains(slot_at(hours.opening(d) + k * hours.step(), booked)),
{
    law_valid_hours_plan_succeeds(from, to, booked, hours);
    let x = hours.opening(d) + k * hours.step();
    assert(x >= hours.opening(d)) by (nonlinear_arith)
        requires k >= 0, hours.step() > 0, x == hours.opening(d) + k * hours.step();
    assert(on_business_grid(hours, d, x)) by {
        assert((x - hours.opening(d)) == k * hours.step());
        vstd::arithmetic::div_mod::lemma_mod_multiples_basic(k, hours.step());
    }
    assert(in_period(x, from, to));
    law_slots_cover_period(from, to, booked, hours);
}

/// The terms the slot laws are stated in, spelled out: a business day `d`
/// opens at `start_hour` o'clock UTC and closes at `end_hour` o'clock, slots
/// are `slot_minutes` minutes apart, an instant falls on the day its seconds
/// divided by 86400 (rounded down) give, and a whole second belongs to the
/// period exactly when it lies between its ends, both included.
pub proof fn law_slot_terms_spelled_out(hours: BusinessHours, d: int, t: int, from: Instant, to: Instant, booked: Seq<Instant>)
    requires
        i64::MIN <= t <= i64::MAX,
    ensures
        hours.opening(d) == d * 86400 + hours.start_hour * 3600,
        hours.closing(d) == d * 86400 + hours.end_hour * 3600,
        hours.step() == hours.slot_minutes * 60,
        from.day() * 86400 <= from.secs < from.day() * 86400 + 86400,
        in_period(t, from, to) <==> ((from.secs < t || (from.secs == t && from.nanos == 0)) && t
            <= to.secs),
        slot_at(t, booked).at == (Instant { secs: t as i64, nanos: 0 }),
        slot_at(t, booked).is_available <==> !booked.contains(Instant { secs: t as i64, nanos: 0 }),
{
}

/// The shape facts of a successful plan, gathered for the laws above.
proof fn slot_plan_facts(from: Instant, to: Instant, booked: Seq<Instant>, hours: BusinessHours)
    requires
        from.valid(),
        to.valid(),
        planning_allowed(from, to, hours),
        slots_outcome(from, to, booked, hours) is Ok,
    ensures
        ({
            let v = slots_outcome(from, to, booked, hours)->Ok_0;
            &&& forall|i: int|
                0 <= i < v.len() ==> {
                    let s = #[trigger] v[i];
                    &&& slot_of_some_day(hours, from.day(), to.day(), s.at.secs as int)
                    &&& in_period(s.at.secs as int, from, to)
                    &&& s == slot_at(s.at.secs as int, booked)
                }
            &&& forall|i: int, j: int| 0 <= i < j < v.len() ==> (#[trigger] v[i]).at.secs < (#[trigger] v[j]).at.secs
            &&& forall|dd: int, x: int|
                from.day() <= dd <= to.day() && #[trigger] slot_of_day(hours, dd, x) && in_period(x, from, to)
                    ==> v.contains(slot_at(x, booked))
        }),
{
    if from.day() <= to.day() {
        if hours.start_hour < hours.end_hour {
            lemma_days_slots_shape(from.day(), to.day(), hours, from, to, booked);
        } else {
            lemma_no_slots_when_closed(from.day(), to.day(), hours, from, to, booked);
        }
    }
}

/// With the opening hour not before the closing hour, no day has a slot.
proof fn lemma_no_slots_when_closed(
    d: int,
    last: int,
    hours: BusinessHours,
    from: Instant,
    to: Instant,
    booked: Seq<Instant>,
)
    requires
        hours.start_hour >= hours.end_hour,
    ensures
        days_slots(d, last, hours, from, to, booked) == Seq::<Slot>::empty(),
        forall|dd: int, x: int| !(#[trigger] slot_of_day(hours, dd, x)),
    decreases last + 1 - d,
{
    if d <= last {
        lemma_no_slots_when_closed(d + 1, last, hours, from, to, booked);
        assert(run_slots(hours.opening(d), hours.closing(d), hours.step(), from, to, booked) =~= seq![]);
        assert(days_slots(d, last, hours, from, to, booked) =~= Seq::<Slot>::empty());
    }
}


/// The instant that chrono parsed from a text, if it did.
pub open spec fn parsed_instant(s: Seq<char>) -> Option<Instant> {
    match rfc3339_parsed(s) {
        Some((secs, nanos)) => Some(Instant { secs, nanos }),
        None => None,
    }
}

/// What checking a period gives from its parsed ends: both ends present, the
/// end not before the start.
pub open spec fn period_outcome(from: Option<Instant>, to: Option<Instant>) -> Result<
    (Instant, Instant),
    (ErrorKind, Seq<char>),
> {
    match from {
        None => Err((ErrorKind::UnprocessableEntity, "date_from must be RFC3339"@)),
        Some(f) => match to {
            None => Err((ErrorKind::UnprocessableEntity, "date_to must be RFC3339"@)),
            Some(t) => if t.before(f) {
                Err(
                    (
                        ErrorKind::UnprocessableEntity,
                        "date_to must be greater than or equal to date_from"@,
                    ),
                )
            } else {
                Ok((f, t))
            },
        },
    }
}

/// `r` is the period result described by `o`.
pub open spec fn period_result_is(
    r: Result<(Instant, Instant), RequestError>,
    o: Result<(Instant, Instant), (ErrorKind, Seq<char>)>,
) -> bool {
    match o {
        Ok(p) => r matches Ok(q) && q == p,
        Err(ev) => r matches Err(e) && err_view(e) == ev,
    }
}

/// Checks a period from the instants parsed from its two ends.
pub fn period_from_parsed(from: Option<Instant>, to: Option<Instant>) -> (r: Result<
    (Instant, Instant),
    RequestError,
>)
    ensures
        period_result_is(r, period_outcome(from, to)),
{
    let f = match from {
        None => return Err(RequestError::unprocessable_entity("date_from must be RFC3339")),
        Some(f) => f,
    };
    let t = match to {
        None => return Err(RequestError::unprocessable_entity("date_to must be RFC3339")),
        Some(t) => t,
    };
    if t.is_before(&f) {
        return Err(
            RequestError::unprocessable_entity("date_to must be greater than or equal to date_from"),
        );
    }
    Ok((f, t))
}

/// Parses a period given as two RFC 3339 texts, each trimmed first.
pub fn parse_period(date_from: &str, date_to: &str) -> (r: Result<(Instant, Instant), RequestError>)
    ensures
        period_result_is(
            r,
            period_outcome(parsed_instant(trimmed(date_from@)), parsed_instant(trimmed(date_to@))),
        ),
        r matches Ok((f, t)) ==> f.valid() && t.valid(),
{
    let f = parse_rfc3339(trim(date_from));
    let t = parse_rfc3339(trim(date_to));
    period_from_parsed(f, t)
}

/// The query asking for slots between two instants.
#[derive(Debug)]
pub struct AvailableSlotsQuery {
    pub date_from: String,
    pub date_to: String,
}

impl AvailableSlotsQuery {
    pub fn parse_range(&self) -> (r: Result<(Instant, Instant), RequestError>)
        ensures
            period_result_is(
                r,
                period_outcome(
                    parsed_instant(trimmed(self.date_from@)),
                    parsed_instant(trimmed(self.date_to@)),
                ),
            ),
            r matches Ok((f, t)) ==> f.valid() && t.valid(),
    {
        parse_period(self.date_from.as_str(), self.date_to.as_str())
    }
}

/// One offered slot as the client sees it.
#[derive(Debug)]
pub struct AvailableSlotResponse {
    pub scheduled_at: String,
    pub is_available: bool,
}

/// Plans the slots of a period and writes each start as RFC 3339 text.
pub fn available_slot_responses(
    from: Instant,
    to: Instant,
    booked: &Vec<Instant>,
    hours: &BusinessHours,
) -> (r: Result<Vec<AvailableSlotResponse>, RequestError>)
    requires
        from.valid(),
        to.valid(),
        planning_allowed(from, to, *hours),
    ensures
        match slots_outcome(from, to, booked@, *hours) {
            Ok(s) => r matches Ok(v) && v@.len() == s.len() && forall|i: int|
                0 <= i < s.len() ==> {
                    &&& (#[trigger] v@[i]).scheduled_at@ == rfc3339_text(s[i].at.secs, s[i].at.nanos)
                    &&& v@[i].is_available == s[i].is_available
                },
            Err((kind, message)) => r matches Err(e) && e.is(kind, message),
        },
{
    let slots = available_slots(from, to, booked, hours)?;
    proof {
        slot_plan_facts(from, to, booked@, *hours);
    }
    let mut out: Vec<AvailableSlotResponse> = Vec::new();
    let n = slots.len();
    for i in 0..n
        invariant
            n == slots@.len(),
            slots@ == slots_outcome(from, to, booked@, *hours)->Ok_0,
            from.valid(),
            to.valid(),
            forall|k: int| 0 <= k < n ==> in_period((#[trigger] slots@[k]).at.secs as int, from, to) && slots@[k] == slot_at(slots@[k].at.secs as int, booked@),
            out@.len() == i,
            forall|k: int|
                0 <= k < i ==> {
                    &&& (#[trigger] out@[k]).scheduled_at@ == rfc3339_text(slots@[k].at.secs, slots@[k].at.nanos)
                    &&& out@[k].is_available == slots@[k].is_available
                },
    {
        let s = slots[i];
        proof {
            assert(in_period(s.at.secs as int, from, to));
            assert(s.at.nanos == 0);
        }
        let text = format_rfc3339(s.at);
        out.push(AvailableSlotResponse { scheduled_at: text, is_available: s.is_available });
    }
    Ok(out)
}

/// The request to book an appointment for an order.
#[derive(Debug)]
pub struct CreateAppointmentRequest {
    pub scheduled_at: String,
    pub location: String,
}

#[derive(Debug)]
pub struct CreateAppointmentRequestValid {
    pub scheduled_at: Instant,
    pub location: String,
}

/// The start and location of a valid booking, or the first error, checking
/// the start before the location.
pub open spec fn appointment_outcome(scheduled_at: Seq<char>, location: Seq<char>) -> Result<
    (Instant, Seq<char>),
    (ErrorKind, Seq<char>),
> {
    match parsed_instant(trimmed(scheduled_at)) {
        None => Err((ErrorKind::UnprocessableEntity, "scheduled_at must be RFC3339"@)),
        Some(at) => match required_outcome(location, "location"@, 3, 255) {
            Err(ev) => Err(ev),
            Ok(l) => Ok((at, l)),
        },
    }
}

impl CreateAppointmentRequestValid {
    pub fn try_from(value: CreateAppointmentRequest) -> (r: Result<CreateAppointmentRequestValid, RequestError>)
        ensures
            match appointment_outcome(value.scheduled_at@, value.location@) {
                Ok((at, l)) => r matches Ok(v) && v.scheduled_at == at && v.location@ == l,
                Err(ev) => r matches Err(e) && err_view(e) == ev,
            },
            r matches Ok(v) ==> v.scheduled_at.valid(),
    {
        let scheduled_at = match parse_rfc3339(trim(value.scheduled_at.as_str())) {
            Some(at) => at,
            None => return Err(RequestError::unprocessable_entity("scheduled_at must be RFC3339")),
        };
        let location = trimmed_required(value.location.as_str(), "location", 3, 255)?;
        Ok(CreateAppointmentRequestValid { scheduled_at, location })
    }
}

/// The request to put an employee on an appointment.
#[derive(Debug)]
pub struct AssignEmployeeRequest {
    pub employee_user_id: u128,
}

/// The query for an employee's plan of one day.
#[derive(Debug)]
pub struct EmployeeDayPlanQuery {
    pub day: String,
}

impl EmployeeDayPlanQuery {
    /// The UTC midnight that starts the requested day (`YYYY-MM-DD`, trimmed).
    pub fn parse_day(&self) -> (r: Result<i64, RequestError>)
        ensures
            match ymd_midnight(trimmed(self.day@)) {
                Some(t) => r == Ok::<i64, RequestError>(t),
                None => r matches Err(e) && e.is(ErrorKind::UnprocessableEntity, "day must be YYYY-MM-DD"@),
            },
            r matches Ok(t) ==> t % SECS_PER_DAY == 0 && CHRONO_MIN_SECS <= t <= CHRONO_MAX_SECS,
    {
        match parse_ymd(trim(self.day.as_str())) {
            Some(t) => Ok(t),
            None => Err(RequestError::unprocessable_entity("day must be YYYY-MM-DD")),
        }
    }
}

/// The period of a day that begins at `midnight`: from that midnight to the
/// next one.
pub fn day_plan_window(midnight: i64) -> (r: (Instant, Instant))
    requires
        midnight + SECS_PER_DAY <= CHRONO_MAX_SECS,
        CHRONO_MIN_SECS <= midnight,
    ensures
        r.0 == Instant::at(midnight as int),
        r.1 == Instant::at(midnight + SECS_PER_DAY),
        r.0.valid(),
        r.1.valid(),
{
    (Instant { secs: midnight, nanos: 0 }, Instant { secs: midnight + SECS_PER_DAY, nanos: 0 })
}

/// An appointment as stored.
#[derive(Debug)]
pub struct AppointmentRow {
    pub id: u128,
    pub order_id: u128,
    pub employee_user_id: Option<u128>,
    pub scheduled_at: Instant,
    pub location: String,
    pub appointment_status: String,
}

/// An appointment as the client sees it.
#[derive(Debug)]
pub struct AppointmentResponse {
    pub id: u128,
    pub order_id: u128,
    pub employee_user_id: Option<u128>,
    pub scheduled_at: String,
    pub location: String,
    pub appointment_status: String,
}

impl AppointmentResponse {
    /// Writes a stored appointment for the client, its start as RFC 3339 text.
    pub fn from_row(value: AppointmentRow) -> (r: AppointmentResponse)
        requires
            value.scheduled_at.valid(),
        ensures
            r.id == value.id,
            r.order_id == value.order_id,
            r.employee_user_id == value.employee_user_id,
            r.scheduled_at@ == rfc3339_text(value.scheduled_at.secs, value.scheduled_at.nanos),
            r.location@ == value.location@,
            r.appointment_status@ == value.appointment_status@,
    {
        AppointmentResponse {
            id: value.id,
            order_id: value.order_id,
            employee_user_id: value.employee_user_id,
            scheduled_at: format_rfc3339(value.scheduled_at),
            location: value.location,
            appointment_status: value.appointment_status,
        }
    }
}

} // verus!

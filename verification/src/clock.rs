//! Points in time and spans of time, in nanoseconds of one monotonic clock.

use vstd::prelude::*;

verus! {

/// A point in time, or the span between two, in nanoseconds.
pub type Nanos = u128;

/// A thousandth of a second.
pub const MILLISECOND: Nanos = 1_000_000;

/// A second.
pub const SECOND: Nanos = 1_000_000_000;

/// What is left of the time until `deadline`: nothing, once it has passed.
pub open spec fn time_left(deadline: Nanos, now: Nanos) -> Nanos {
    if now < deadline {
        (deadline - now) as Nanos
    } else {
        0
    }
}

/// How long to wait before the next look: `max_delay`, but not beyond the deadline.
pub open spec fn delay(deadline: Nanos, now: Nanos, max_delay: Nanos) -> Nanos {
    if time_left(deadline, now) < max_delay {
        time_left(deadline, now)
    } else {
        max_delay
    }
}

/// How long to wait for an endpoint that was found by searching: what the caller allows,
/// but at least one second and at most eight.
pub open spec fn patience(timeout: Nanos) -> Nanos {
    if timeout < SECOND {
        SECOND
    } else if timeout < 8_000_000_000 {
        timeout
    } else {
        8_000_000_000
    }
}

/// Whether a Bonjour search is due: there was none yet, or the last one began at least ten
/// seconds ago.
pub open spec fn search_is_due(last_check: Option<Nanos>, now: Nanos) -> bool {
    match last_check {
        Some(last) => now - last >= 10 * SECOND,
        None => true,
    }
}

/// What is left of the time until `deadline`.
pub fn remaining_until(deadline: Nanos, now: Nanos) -> (left: Nanos)
    ensures
        left == time_left(deadline, now),
{
    if now < deadline {
        deadline - now
    } else {
        0
    }
}

/// How long to wait before the next look.
pub fn poll_delay(deadline: Nanos, now: Nanos, max_delay: Nanos) -> (wait: Nanos)
    ensures
        wait == delay(deadline, now, max_delay),
{
    let left: Nanos = remaining_until(deadline, now);
    if left < max_delay {
        left
    } else {
        max_delay
    }
}

/// How long to wait for an endpoint that was found by searching.
pub fn verify_timeout(timeout: Nanos) -> (wait: Nanos)
    ensures
        wait == patience(timeout),
{
    if timeout < SECOND {
        SECOND
    } else if timeout < 8 * SECOND {
        timeout
    } else {
        8 * SECOND
    }
}

/// Whether a Bonjour search is due.
pub fn should_check_bonjour(last_check: Option<Nanos>, now: Nanos) -> (due: bool)
    ensures
        due == search_is_due(last_check, now),
{
    match last_check {
        Some(last) => now >= last && now - last >= 10 * SECOND,
        None => true,
    }
}

/// Waiting never goes past the deadline, nor beyond the longest wait, and before the
/// deadline it always makes progress.
pub proof fn law_delay_stays_within_the_deadline(deadline: Nanos, now: Nanos, max_delay: Nanos)
    requires
        now <= deadline,
        max_delay > 0,
    ensures
        now + delay(deadline, now, max_delay) <= deadline,
        delay(deadline, now, max_delay) <= max_delay,
        now < deadline ==> delay(deadline, now, max_delay) > 0,
{
}

/// Nothing is left of the time exactly from the deadline on.
pub proof fn law_no_time_is_left_from_the_deadline_on(deadline: Nanos, now: Nanos)
    ensures
        time_left(deadline, now) == 0 <==> now >= deadline,
{
}

/// An endpoint found by searching gets between one second and eight, and a caller who
/// allows more time never makes it get less.
pub proof fn law_patience_is_bounded_and_monotone(shorter: Nanos, longer: Nanos)
    requires
        shorter <= longer,
    ensures
        SECOND <= patience(shorter) <= 8 * SECOND,
        patience(shorter) <= patience(longer),
{
}

/// Until the deadline, what is left and what has passed make up the whole.
pub proof fn law_time_left_leads_to_the_deadline(deadline: Nanos, now: Nanos)
    ensures
        now <= deadline ==> now + time_left(deadline, now) == deadline,
{
}

/// A delay is as long as it may be: the longest wait, or what leads to the deadline.
pub proof fn law_delay_is_as_long_as_it_may_be(deadline: Nanos, now: Nanos, max_delay: Nanos)
    requires
        now <= deadline,
    ensures
        delay(deadline, now, max_delay) == max_delay || now + delay(deadline, now, max_delay)
            == deadline,
        now + max_delay <= deadline ==> delay(deadline, now, max_delay) == max_delay,
{
}

/// Between one second and eight, patience is what the caller allows; beyond, it is the nearer of
/// the two.
pub proof fn law_patience_keeps_what_is_in_range(timeout: Nanos)
    ensures
        SECOND <= timeout <= 8 * SECOND ==> patience(timeout) == timeout,
        timeout < SECOND ==> patience(timeout) == SECOND,
        timeout > 8 * SECOND ==> patience(timeout) == 8 * SECOND,
{
}

/// A search that was due at some time stays due, and after a search the next is due exactly ten
/// seconds later.
pub proof fn law_searches_are_due_every_ten_seconds(last: Nanos, now: Nanos, later: Nanos)
    requires
        now <= later,
    ensures
        search_is_due(None, now),
        search_is_due(Some(last), now) ==> search_is_due(Some(last), later),
        search_is_due(Some(last), now) <==> now >= last + 10 * SECOND,
{
}

} // verus!

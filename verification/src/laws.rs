//! What each operation is for, in terms of what goes in and what comes out.

use std::time::Instant;
use std::time::SystemTime;

use vstd::multiset::Multiset;
use vstd::prelude::*;
use vstd::std_specs::convert::FromSpec;

use crate::checks::polled;
use crate::checks::resets_to;
use crate::checks::BoundaryError;
use crate::checks::ChecksState;
use crate::checks::Readings;
use crate::clock::is_positive_instant;
use crate::entitlement::Claims;
use crate::entitlement::Entitlement;
use crate::entitlement::EntitlementState;
use crate::entitlement::Event;
use crate::expander::action_for;
use crate::expander::is_turn;
use crate::expander::Action;
use crate::expander::ExpanderState;
use crate::expander::Turn;
use crate::timer::instant_nanos;
use crate::timer::instant_plus;
use crate::timer::millis_until;
use crate::timer::unix_nanos;
use crate::timer::Poll;
use crate::uplink::is_entitlement_response;
use crate::uplink::is_response;
use crate::uplink::EncodedEntitlement;
use crate::uplink::FetchError;
use crate::uplink::FetchErrorCode;
use crate::uplink::ResponseData;
use crate::uplink::RouterEntitlements;
use crate::uplink::RouterEntitlementsResult;
use crate::uplink::Unchanged;
use crate::uplink::UplinkRequest;
use crate::uplink::UplinkResponse;
use crate::uplink::Variables;

verus! {

/// A time is placed whenever it can be. One that has not passed lies as far after
/// `now` as after `wall`, and is lost only if no `Instant` lies there; one that has
/// passed is placed at `now`.
pub proof fn law_time_is_placed_whenever_it_can_be(
    instant: Option<Instant>,
    time: SystemTime,
    wall: SystemTime,
    now: Instant,
)
    requires
        is_positive_instant(instant, time, wall, now),
    ensures
        unix_nanos(time) >= unix_nanos(wall) ==> instant == instant_plus(
            now,
            (unix_nanos(time) - unix_nanos(wall)) as nat,
        ),
        unix_nanos(time) < unix_nanos(wall) ==> instant == Some(now),
        unix_nanos(time) == unix_nanos(wall) ==> instant is Some,
        instant matches Some(at) ==> {
            &&& unix_nanos(time) >= unix_nanos(wall) ==> instant_nanos(at) - instant_nanos(now)
                == unix_nanos(time) - unix_nanos(wall)
            &&& unix_nanos(time) <= unix_nanos(wall) ==> instant_nanos(at) == instant_nanos(now)
        },
{
}

/// A deadline is the number of whole milliseconds, rounded up, by which a boundary
/// comes after the start, and none if it does not.
pub proof fn law_deadline_is_rounded_up(start: int, boundary: int, millis: nat)
    ensures
        boundary <= start ==> millis_until(start, boundary) == 0,
        boundary > start ==> (millis == millis_until(start, boundary) <==> millis * 1_000_000
            - 1_000_000 < boundary - start <= millis * 1_000_000),
{
}

/// New claims fail only for a reason, and otherwise are answered with the state in
/// which they are.
///
/// With the boundaries as far ahead of the readings of the monotonic clock as the
/// claims' times are ahead of those of the wall clock, and at them if they have
/// passed: the claims are unrepresentable exactly if no `Instant` lies at a
/// boundary, and too far exactly if a boundary that lies ahead and matters is more
/// than 68719476735 milliseconds after the start. Where neither holds they are
/// answered with the halt exactly if the halt boundary does not lie ahead, with the
/// warning exactly if only that one does, and as entitled exactly if both do.
///
/// What is pending afterwards is a check for each boundary that lies ahead and is
/// not too far, with its distance from the start in milliseconds, rounded up; the
/// one to warn only beside the one to halt; and nothing else.
pub proof fn law_claims_fail_only_for_a_reason(
    before: ChecksState,
    after: ChecksState,
    claims: Claims,
    readings: Readings,
    result: Result<Poll<Option<Event>>, BoundaryError>,
    halt: int,
    warn: int,
    millis: nat,
    event: Event,
)
    requires
        resets_to(before, after, claims, readings, result),
        unix_nanos(claims.halt_at) >= unix_nanos(readings.halt.time()) ==> halt == instant_nanos(
            readings.halt.instant(),
        ) + (unix_nanos(claims.halt_at) - unix_nanos(readings.halt.time())),
        unix_nanos(claims.halt_at) < unix_nanos(readings.halt.time()) ==> halt == instant_nanos(
            readings.halt.instant(),
        ),
        unix_nanos(claims.warn_at) >= unix_nanos(readings.warn.time()) ==> warn == instant_nanos(
            readings.warn.instant(),
        ) + (unix_nanos(claims.warn_at) - unix_nanos(readings.warn.time())),
        unix_nanos(claims.warn_at) < unix_nanos(readings.warn.time()) ==> warn == instant_nanos(
            readings.warn.instant(),
        ),
    ensures
        ({
            let now = instant_nanos(readings.now.instant());
            let start = before.start;
            let has_halt = unix_nanos(claims.halt_at) >= unix_nanos(readings.halt.time()) ==> (
            instant_plus(
                readings.halt.instant(),
                (unix_nanos(claims.halt_at) - unix_nanos(readings.halt.time())) as nat,
            ) is Some);
            let has_warn = unix_nanos(claims.warn_at) >= unix_nanos(readings.warn.time()) ==> (
            instant_plus(
                readings.warn.instant(),
                (unix_nanos(claims.warn_at) - unix_nanos(readings.warn.time())) as nat,
            ) is Some);
            let placed = has_halt && has_warn;
            let halt_waits = placed && halt > now && halt - start <= 68_719_476_735int * 1_000_000;
            let warn_waits = halt_waits && warn > now && warn - start <= 68_719_476_735int
                * 1_000_000;
            &&& result == Err::<Poll<Option<Event>>, BoundaryError>(BoundaryError::Unrepresentable)
                <==> !placed
            &&& result == Err::<Poll<Option<Event>>, BoundaryError>(BoundaryError::TooFar) <==> {
                ||| placed && halt > now && !halt_waits
                ||| halt_waits && warn > now && !warn_waits
            }
            &&& result == Ok::<_, BoundaryError>(
                Poll::Ready(Some(Event::UpdateEntitlement(EntitlementState::EntitledHalt))),
            ) <==> placed && halt <= now
            &&& result == Ok::<_, BoundaryError>(
                Poll::Ready(Some(Event::UpdateEntitlement(EntitlementState::EntitledWarn))),
            ) <==> halt_waits && warn <= now
            &&& result == Ok::<_, BoundaryError>(
                Poll::Ready(Some(Event::UpdateEntitlement(EntitlementState::Entitled))),
            ) <==> halt_waits && warn_waits
            &&& after.pending.count((millis, event)) == if halt_waits && event
                == Event::UpdateEntitlement(EntitlementState::EntitledHalt) && millis * 1_000_000
                - 1_000_000 < halt - start <= millis * 1_000_000 {
                1nat
            } else if warn_waits && event == Event::UpdateEntitlement(
                EntitlementState::EntitledWarn,
            ) && millis * 1_000_000 - 1_000_000 < warn - start <= millis * 1_000_000 {
                1nat
            } else {
                0nat
            }
        }),
        after.latest == Some((claims, readings)),
        after.start == before.start,
        after.reached == before.reached,
        after.polls == before.polls,
{
    law_deadline_is_rounded_up(before.start, halt, millis);
    law_deadline_is_rounded_up(before.start, warn, millis);
}

/// Polling hands out an item that was pending, the earliest, and no earlier than
/// its deadline is reached; it leaves and all others stay. Without an item nothing
/// changes, and it is the end exactly if nothing was pending.
pub proof fn law_polling_takes_what_is_due(
    before: ChecksState,
    after: ChecksState,
    expired: Poll<Option<Event>>,
)
    requires
        polled(before, after, expired),
    ensures
        expired matches Poll::Ready(Some(event)) ==> exists|millis: nat|
            {
                &&& #[trigger] before.pending.count((millis, event)) > 0
                &&& millis <= after.reached
                &&& forall|other: nat, another: Event| #[trigger]
                    before.pending.count((other, another)) > 0 ==> millis <= other
                &&& forall|other: nat, another: Event| #[trigger]
                    after.pending.count((other, another)) == if other == millis && another
                        == event {
                        before.pending.count((other, another)) - 1
                    } else {
                        before.pending.count((other, another)) as int
                    }
            },
        !(expired matches Poll::Ready(Some(_))) ==> after.pending == before.pending,
        expired matches Poll::Ready(None) <==> before.pending.len() == 0,
        after.start == before.start,
        after.latest == before.latest,
        after.reads == before.reads,
        after.polls.len() == before.polls.len() + 1,
        after.polls.last() == expired,
{
    if let Poll::Ready(Some(event)) = expired {
        let millis = choose|millis: nat|
            {
                &&& #[trigger] before.pending.contains((millis, event))
                &&& forall|other: (nat, Event)| #[trigger]
                    before.pending.contains(other) ==> millis <= other.0
                &&& millis <= after.reached
                &&& after.pending == before.pending.remove((millis, event))
            };
        assert(before.pending.count((millis, event)) > 0);
        assert forall|other: nat, another: Event| #[trigger]
            before.pending.count((other, another)) > 0 implies millis <= other by {
            assert(before.pending.contains((other, another)));
        }
    }
    if before.pending.len() == 0 {
        assert(before.pending =~= Multiset::<(nat, Event)>::empty());
    }
}

/// The readings that new claims are placed by are of the present: the clock is read
/// for both boundaries and for the present during the turn that takes the claims,
/// in this order, and at no other point of it. So they are no earlier than any
/// reading that earlier claims were placed by, and are none of those.
pub proof fn law_claims_are_placed_by_the_present(
    before: ExpanderState,
    turn: Turn,
    entitlement: Entitlement,
)
    requires
        is_turn(before, turn),
        turn.next == Some(Poll::Ready(Some(entitlement))),
        entitlement.claims is Some,
    ensures
        ({
            let n = before.checks.reads.len() as int;
            let reads = turn.after.checks.reads;
            turn.after.checks.latest matches Some((claims, readings)) && {
                &&& Some(claims) == entitlement.claims
                &&& reads.len() == n + 3
                &&& reads.take(n) == before.checks.reads
                &&& reads[n] == readings.halt.reading()
                &&& reads[n + 1] == readings.warn.reading()
                &&& reads[n + 2] == readings.now
                &&& forall|i: int|
                    0 <= i < n ==> (#[trigger] before.checks.reads[i]).nanos()
                        <= readings.halt.nanos()
                &&& readings.halt.nanos() <= readings.warn.nanos() <= readings.now.nanos()
                &&& before.checks.start <= readings.now.nanos()
            }
        }),
{
    let n = before.checks.reads.len() as int;
    assert(turn.after.checks.reads.take(n) =~= before.checks.reads);
}

/// No other turn reads the clock, or places anything anew.
pub proof fn law_only_claims_are_placed(before: ExpanderState, turn: Turn)
    requires
        is_turn(before, turn),
        !(turn.next matches Some(Poll::Ready(Some(entitlement))) && entitlement.claims is Some),
    ensures
        turn.after.checks.reads == before.checks.reads,
        turn.after.checks.latest == before.checks.latest,
        turn.after.checks.start == before.checks.start,
{
}

/// What is decided: a check that is due is reported whatever the upstream has; else
/// an entitlement with claims, that very one, resets the checks, and one without is
/// reported as such; else it is the end exactly if both have ended, and otherwise
/// time to wait.
pub proof fn law_decision(
    checks: Poll<Option<Event>>,
    next: Option<Poll<Option<Entitlement>>>,
    event: Event,
    entitlement: Entitlement,
)
    ensures
        action_for(Poll::Ready(Some(event)), next) == Action::Report(event),
        !(checks matches Poll::Ready(Some(_))) ==> {
            &&& entitlement.claims is Some ==> action_for(
                checks,
                Some(Poll::Ready(Some(entitlement))),
            ) == Action::Reset(entitlement)
            &&& entitlement.claims is None ==> action_for(
                checks,
                Some(Poll::Ready(Some(entitlement))),
            ) == Action::Report(Event::UpdateEntitlement(EntitlementState::Unentitled))
            &&& !(next matches Some(Poll::Ready(Some(_)))) ==> {
                &&& action_for(checks, next) == Action::End <==> checks == Poll::<
                    Option<Event>,
                >::Ready(None) && next == Some(Poll::<Option<Entitlement>>::Ready(None))
                &&& action_for(checks, next) == Action::End || action_for(checks, next)
                    == Action::Wait
            }
        },
{
}

/// What a turn comes to. It polls the checks once. One that is due is the answer,
/// and the upstream is not asked. Else the upstream is: an entitlement without
/// claims is reported and one with claims replaces the checks; without one it is
/// the end exactly if both have ended, and otherwise time to wait. Only claims touch
/// the checks once they have been polled.
pub proof fn law_turn(before: ExpanderState, turn: Turn)
    requires
        is_turn(before, turn),
    ensures
        ({
            let answer = turn.polled.checks.polls.last();
            &&& polled(before.checks, turn.polled.checks, answer)
            &&& turn.after.asked is None
            &&& turn.next is None == (answer matches Poll::Ready(Some(_)))
            &&& match (answer, turn.next) {
                (Poll::Ready(Some(event)), _) => {
                    &&& turn.after.checks == turn.polled.checks
                    &&& turn.result == Ok::<_, BoundaryError>(Poll::Ready(Some(event)))
                },
                (_, Some(Poll::Ready(Some(entitlement)))) => match entitlement.claims {
                    Some(claims) => {
                        &&& turn.after.checks.latest matches Some((latest, readings))
                        &&& latest == claims
                        &&& resets_to(
                            turn.polled.checks,
                            turn.after.checks,
                            claims,
                            readings,
                            turn.result,
                        )
                    },
                    None => {
                        &&& turn.after.checks == turn.polled.checks
                        &&& turn.result == Ok::<_, BoundaryError>(
                            Poll::Ready(
                                Some(Event::UpdateEntitlement(EntitlementState::Unentitled)),
                            ),
                        )
                    },
                },
                (Poll::Ready(None), Some(Poll::Ready(None))) => {
                    &&& turn.after.checks == turn.polled.checks
                    &&& turn.result == Ok::<Poll<Option<Event>>, BoundaryError>(Poll::Ready(None))
                },
                _ => {
                    &&& turn.after.checks == turn.polled.checks
                    &&& turn.result == Ok::<Poll<Option<Event>>, BoundaryError>(Poll::Pending)
                },
            }
        }),
{
}

/// The variables of a request are what the request holds, field by field, whether
/// or not something was received before.
pub proof fn law_variables_are_those_of_the_request(req: UplinkRequest)
    ensures
        <Variables as FromSpec<UplinkRequest>>::obeys_from_spec(),
        ({
            let variables = <Variables as FromSpec<UplinkRequest>>::from_spec(req);
            &&& variables.api_key == req.api_key
            &&& variables.graph_ref == req.graph_ref
            &&& variables.if_after_id == req.id
        }),
{
}

/// Two requests have the same variables only if they are the same request.
pub proof fn law_variables_tell_requests_apart(one: UplinkRequest, other: UplinkRequest)
    requires
        <Variables as FromSpec<UplinkRequest>>::from_spec(one) == <Variables as FromSpec<
            UplinkRequest,
        >>::from_spec(other),
    ensures
        one == other,
{
}

/// An entitlement that was decoded is answered as new: that very entitlement, with
/// the id and the delay that came with it. One that was not is an error to be tried
/// again later, with the message that decoding gave.
pub proof fn law_decoded_entitlement_is_passed_on(
    id: String,
    delay: u64,
    decoded: Result<Entitlement, String>,
    response: UplinkResponse<Entitlement>,
)
    requires
        is_entitlement_response(id, delay, decoded, response),
    ensures
        decoded matches Ok(entitlement) ==> (response matches UplinkResponse::New {
            response: passed_on,
            id: same_id,
            delay: same_delay,
        } && passed_on == entitlement && same_id == id && same_delay == delay),
        decoded matches Err(error) ==> (response matches UplinkResponse::Error {
            retry_later,
            code,
            message,
        } && retry_later && code@ == "INVALID_ENTITLEMENT"@ && message == error),
{
}

/// An answer with a result is new: with the entitlement that was decoded, or an
/// error if decoding failed, or with one that has no claims if none came with it. An
/// entitlement is decoded exactly if one came with the answer, from its text.
pub proof fn law_result_is_new(
    data: ResponseData,
    result: RouterEntitlementsResult,
    encoded: EncodedEntitlement,
    decoded: Option<Result<Entitlement, String>>,
    response: UplinkResponse<Entitlement>,
)
    requires
        data.router_entitlements == RouterEntitlements::RouterEntitlementsResult(result),
        is_response(data, decoded, response),
    ensures
        data.jwt() is Some <==> result.entitlement is Some,
        result.entitlement == Some(encoded) ==> data.jwt() == Some(encoded.jwt@),
        decoded matches Some(Ok(entitlement)) ==> (response matches UplinkResponse::New {
            response: passed_on,
            id,
            delay,
        } && passed_on == entitlement && id == result.id && delay == result.min_delay_seconds),
        decoded matches Some(Err(error)) ==> (response matches UplinkResponse::Error {
            retry_later,
            code,
            message,
        } && retry_later && code@ == "INVALID_ENTITLEMENT"@ && message == error),
        decoded is None ==> (response matches UplinkResponse::New {
            response: passed_on,
            id,
            delay,
        } && passed_on.claims is None && id == result.id && delay == result.min_delay_seconds),
{
}

/// An answer that nothing is new is answered as unchanged, with the id and the delay
/// that came with it, and nothing is decoded.
pub proof fn law_unchanged_stays_unchanged(
    data: ResponseData,
    unchanged: Unchanged,
    decoded: Option<Result<Entitlement, String>>,
    response: UplinkResponse<Entitlement>,
)
    requires
        data.router_entitlements == RouterEntitlements::Unchanged(unchanged),
        is_response(data, decoded, response),
    ensures
        data.jwt() is None,
        response matches UplinkResponse::Unchanged { id, delay } && id == Some(unchanged.id)
            && delay == Some(unchanged.min_delay_seconds),
{
}

/// A refusal is answered as an error with its code and its message, to be tried
/// again later exactly if that is what its code says, and nothing is decoded.
pub proof fn law_refusal_is_an_error(
    data: ResponseData,
    error: FetchError,
    decoded: Option<Result<Entitlement, String>>,
    response: UplinkResponse<Entitlement>,
)
    requires
        data.router_entitlements == RouterEntitlements::FetchError(error),
        is_response(data, decoded, response),
    ensures
        data.jwt() is None,
        response matches UplinkResponse::Error { retry_later, code, message } && {
            &&& retry_later <==> error.code is RETRY_LATER
            &&& message == error.message
            &&& error.code is AUTHENTICATION_FAILED ==> code@ == "AUTHENTICATION_FAILED"@
            &&& error.code is ACCESS_DENIED ==> code@ == "ACCESS_DENIED"@
            &&& error.code is UNKNOWN_REF ==> code@ == "UNKNOWN_REF"@
            &&& error.code is RETRY_LATER ==> code@ == "RETRY_LATER"@
            &&& error.code matches FetchErrorCode::Other(other) ==> code@ == other@
        },
{
}

/// A code is written as its name, and one that has none as its text.
pub proof fn law_codes_are_written_as_named(other: String)
    ensures
        FetchErrorCode::AUTHENTICATION_FAILED.text() == "AUTHENTICATION_FAILED"@,
        FetchErrorCode::ACCESS_DENIED.text() == "ACCESS_DENIED"@,
        FetchErrorCode::UNKNOWN_REF.text() == "UNKNOWN_REF"@,
        FetchErrorCode::RETRY_LATER.text() == "RETRY_LATER"@,
        FetchErrorCode::Other(other).text() == other@,
{
}

} // verus!

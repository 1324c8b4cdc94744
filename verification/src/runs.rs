//! What holds of the stream from its beginning on.

use vstd::multiset::Multiset;
use vstd::prelude::*;

use crate::checks::checks_at;
use crate::checks::law_no_check_is_early;
use crate::checks::law_what_is_not_reported_is_pending;
use crate::checks::update;
use crate::entitlement::Claims;
use crate::entitlement::Entitlement;
use crate::entitlement::EntitlementState;
use crate::entitlement::Event;
use crate::expander::is_turn;
use crate::expander::lemma_turn_is_valid;
use crate::expander::ExpanderState;
use crate::expander::Turn;
use crate::timer::instant_nanos;
use crate::timer::unix_nanos;
use crate::timer::Poll;

verus! {

/// The expander after these turns.
pub open spec fn state_after(before: ExpanderState, turns: Seq<Turn>) -> ExpanderState {
    if turns.len() == 0 {
        before
    } else {
        turns.last().after
    }
}

/// Whether these are turns of an expander in `before`, one after the other.
pub open spec fn is_run(before: ExpanderState, turns: Seq<Turn>) -> bool
    decreases turns.len(),
{
    turns.len() > 0 ==> {
        &&& is_run(before, turns.drop_last())
        &&& is_turn(state_after(before, turns.drop_last()), turns.last())
    }
}

/// The entitlement that a turn takes from the upstream, if it takes one.
pub open spec fn taken(turn: Turn) -> Option<Entitlement> {
    match turn.next {
        Some(Poll::Ready(entitlement)) => entitlement,
        _ => None,
    }
}

/// The event that a turn reports, if it reports one.
pub open spec fn reported(turn: Turn) -> Option<Event> {
    match turn.result {
        Ok(Poll::Ready(event)) => event,
        _ => None,
    }
}

/// Whether a turn reports the end.
pub open spec fn is_end(turn: Turn) -> bool {
    turn.result matches Ok(Poll::Ready(None))
}

/// Whether a turn takes an entitlement with claims.
pub open spec fn takes_claims(turn: Turn) -> bool {
    taken(turn) matches Some(entitlement) && entitlement.claims is Some
}

/// The entitlements that these turns take from the upstream.
pub open spec fn entitlements(turns: Seq<Turn>) -> Seq<Entitlement>
    decreases turns.len(),
{
    if turns.len() == 0 {
        Seq::empty()
    } else {
        match taken(turns.last()) {
            Some(entitlement) => entitlements(turns.drop_last()).push(entitlement),
            None => entitlements(turns.drop_last()),
        }
    }
}

/// The events that these turns report.
pub open spec fn events(turns: Seq<Turn>) -> Seq<Event>
    decreases turns.len(),
{
    if turns.len() == 0 {
        Seq::empty()
    } else {
        match reported(turns.last()) {
            Some(event) => events(turns.drop_last()).push(event),
            None => events(turns.drop_last()),
        }
    }
}

/// The events that these turns report for claims: all but the reports of
/// entitlements without any.
pub open spec fn claimed_events(turns: Seq<Turn>) -> Seq<Event>
    decreases turns.len(),
{
    if turns.len() == 0 {
        Seq::empty()
    } else {
        match reported(turns.last()) {
            Some(event) => if event == update(EntitlementState::Unentitled) {
                claimed_events(turns.drop_last())
            } else {
                claimed_events(turns.drop_last()).push(event)
            },
            None => claimed_events(turns.drop_last()),
        }
    }
}

/// The claims of the last of these entitlements that has any.
pub open spec fn last_claims(taken: Seq<Entitlement>) -> Option<Claims>
    decreases taken.len(),
{
    if taken.len() == 0 {
        None
    } else if taken.last().claims is Some {
        taken.last().claims
    } else {
        last_claims(taken.drop_last())
    }
}

/// Whether no turn fails.
pub open spec fn all_ok(turns: Seq<Turn>) -> bool {
    forall|i: int| 0 <= i < turns.len() ==> (#[trigger] turns[i]).result is Ok
}

/// A run leaves a valid expander, whose latest claims are the last ones taken.
proof fn lemma_run_is_valid(before: ExpanderState, turns: Seq<Turn>)
    requires
        before.valid(),
        before.is_new(),
        is_run(before, turns),
    ensures
        state_after(before, turns).valid(),
        state_after(before, turns).checks.start == before.checks.start,
        match state_after(before, turns).checks.latest {
            Some((claims, _)) => last_claims(entitlements(turns)) == Some(claims),
            None => last_claims(entitlements(turns)) is None,
        },
    decreases turns.len(),
{
    if turns.len() > 0 {
        let earlier = turns.drop_last();
        lemma_run_is_valid(before, earlier);
        lemma_turn_is_valid(state_after(before, earlier), turns.last());
        if let Some(entitlement) = taken(turns.last()) {
            assert(entitlements(turns).drop_last() =~= entitlements(earlier));
        }
    }
}

/// No warning and no halt is reported early, nor for claims that have been
/// replaced, nor before there were any.
///
/// When some turn of a run reports the event to halt, or the one to warn, then
/// claims have been taken by then. The halt or warn boundary of the last of them,
/// as it was placed on the monotonic clock when they were taken, is no later than
/// the present that they were held against, if it is these claims that the turn
/// takes, and otherwise no later than the point up to which the checks have been
/// polled. By then the wall clock has come to the claims' own time as well, if it
/// ran on alike with the monotonic clock from when the boundary was placed.
pub proof fn law_nothing_is_reported_early(
    before: ExpanderState,
    turns: Seq<Turn>,
    state: EntitlementState,
)
    requires
        before.valid(),
        before.is_new(),
        is_run(before, turns),
        turns.len() > 0,
        reported(turns.last()) == Some(update(state)),
        state == EntitlementState::EntitledHalt || state == EntitlementState::EntitledWarn,
    ensures
        turns.last().after.checks.latest matches Some((claims, readings)) && {
            let present = if takes_claims(turns.last()) {
                readings.now.nanos()
            } else {
                turns.last().after.checks.polled_up_to()
            };
            &&& last_claims(entitlements(turns)) == Some(claims)
            &&& readings.in_order(before.checks.start)
            &&& readings.places(claims)
            &&& state == EntitlementState::EntitledHalt ==> readings.halt_at(claims) is Some
                && instant_nanos(readings.halt_at(claims)->0) <= present
            &&& state == EntitlementState::EntitledWarn ==> readings.warn_at(claims) is Some
                && instant_nanos(readings.warn_at(claims)->0) <= present
            &&& state == EntitlementState::EntitledHalt ==> unix_nanos(claims.halt_at)
                <= readings.halt.unix_nanos() + (present - readings.halt.nanos())
            &&& state == EntitlementState::EntitledWarn ==> unix_nanos(claims.warn_at)
                <= readings.warn.unix_nanos() + (present - readings.warn.nanos())
        },
{
    let turn = turns.last();
    let earlier = state_after(before, turns.drop_last());
    lemma_run_is_valid(before, turns.drop_last());
    lemma_run_is_valid(before, turns);
    if turn.next is None {
        law_no_check_is_early(earlier.checks, turn.after.checks, update(state));
    }
}

/// Entitlements without claims are reported one by one as such and as nothing else,
/// and the stream ends as soon as the upstream does.
pub proof fn law_run_without_claims(before: ExpanderState, turns: Seq<Turn>)
    requires
        before.valid(),
        before.is_new(),
        is_run(before, turns),
        forall|i: int|
            0 <= i < entitlements(turns).len() ==> (#[trigger] entitlements(turns)[i]).claims
                is None,
    ensures
        all_ok(turns),
        events(turns) == Seq::new(
            entitlements(turns).len(),
            |i: int| update(EntitlementState::Unentitled),
        ),
        forall|i: int|
            0 <= i < turns.len() ==> (is_end(#[trigger] turns[i]) <==> turns[i].next == Some(
                Poll::<Option<Entitlement>>::Ready(None),
            )),
        state_after(before, turns).checks.pending == Multiset::<(nat, Event)>::empty(),
    decreases turns.len(),
{
    if turns.len() > 0 {
        let earlier = turns.drop_last();
        assert forall|i: int| 0 <= i < entitlements(earlier).len() implies (
        #[trigger] entitlements(earlier)[i]).claims is None by {
            assert(entitlements(earlier)[i] == entitlements(turns)[i]);
        }
        law_run_without_claims(before, earlier);
        let turn = turns.last();
        if let Some(entitlement) = taken(turn) {
            assert(entitlement == entitlements(turns)[entitlements(earlier).len() as int]);
        }
        assert forall|i: int| 0 <= i < turns.len() implies (#[trigger] turns[i]).result is Ok && (
        is_end(turns[i]) <==> turns[i].next == Some(
            Poll::<Option<Entitlement>>::Ready(None),
        )) by {
            if i < turns.len() - 1 {
                assert(turns[i] == earlier[i]);
            }
        }
        assert(events(turns) =~= Seq::new(
            entitlements(turns).len(),
            |i: int| update(EntitlementState::Unentitled),
        ));
    }
}

/// All that claims are reported as, in order: that all is well, the warning, and
/// the halt.
pub open spec fn course() -> Seq<Event> {
    seq![
        update(EntitlementState::Entitled),
        update(EntitlementState::EntitledWarn),
        update(EntitlementState::EntitledHalt),
    ]
}

/// The same, but with the halt before the warning.
pub open spec fn swapped_course() -> Seq<Event> {
    seq![
        update(EntitlementState::Entitled),
        update(EntitlementState::EntitledHalt),
        update(EntitlementState::EntitledWarn),
    ]
}

/// Whether claims whose checks have these deadlines have been reported along their
/// course from `entry` up to `exit`, and the checks for the rest of it are pending.
/// The halt can come before the warning only if it is due no later.
pub open spec fn is_on_course(
    reported: Seq<Event>,
    pending: Multiset<(nat, Event)>,
    halt: nat,
    warn: nat,
    entry: int,
    exit: int,
) -> bool {
    &&& 0 <= entry < exit <= 3
    &&& {
        ||| {
            &&& reported == course().subrange(entry, exit)
            &&& exit == 1 ==> pending == checks_at(Some(halt), Some(warn))
            &&& exit == 2 ==> pending == checks_at(Some(halt), None)
            &&& exit == 3 ==> pending == Multiset::<(nat, Event)>::empty()
            &&& entry == 0 && exit > 1 ==> warn <= halt
        }
        ||| {
            &&& entry == 0 && exit > 1
            &&& halt <= warn
            &&& reported == swapped_course().subrange(0, exit)
            &&& exit == 2 ==> pending == checks_at(None, Some(warn))
            &&& exit == 3 ==> pending == Multiset::<(nat, Event)>::empty()
        }
    }
}

/// A check that is due is the next event of the course.
proof fn lemma_next_on_course(
    reported_before: Seq<Event>,
    from: ExpanderState,
    turn: Turn,
    halt: nat,
    warn: nat,
    entry: int,
    exit: int,
)
    requires
        is_on_course(reported_before, from.checks.pending, halt, warn, entry, exit),
        is_turn(from, turn),
        turn.next is None,
    ensures
        reported(turn) matches Some(event) && event != update(EntitlementState::Unentitled)
            && is_on_course(
            reported_before.push(event),
            turn.after.checks.pending,
            halt,
            warn,
            entry,
            exit + 1,
        ),
{
    let event = reported(turn)->0;
    let pending = from.checks.pending;
    let after = turn.after.checks.pending;
    if exit == 1 {
        assert(pending.contains((warn, update(EntitlementState::EntitledWarn))));
        assert(pending.contains((halt, update(EntitlementState::EntitledHalt))));
        if event == update(EntitlementState::EntitledWarn) {
            assert(after =~= checks_at(Some(halt), None));
            assert(reported_before.push(event) =~= course().subrange(entry, 2));
        } else {
            assert(event == update(EntitlementState::EntitledHalt));
            assert(after =~= checks_at(None, Some(warn)));
            assert(reported_before.push(event) =~= swapped_course().subrange(0, 2));
        }
    } else {
        assert(exit == 2);
        assert(after =~= Multiset::<(nat, Event)>::empty());
        if reported_before == course().subrange(entry, 2) && pending == checks_at(Some(halt), None) {
            assert(event == update(EntitlementState::EntitledHalt));
            assert(reported_before.push(event) =~= course().subrange(entry, 3));
        } else {
            assert(event == update(EntitlementState::EntitledWarn));
            assert(reported_before.push(event) =~= swapped_course().subrange(0, 3));
        }
    }
}

/// Turns of which the first takes claims, and no later one does, follow the course
/// of these claims.
proof fn lemma_course(before: ExpanderState, turns: Seq<Turn>)
    requires
        before.valid(),
        is_run(before, turns),
        turns.len() > 0,
        all_ok(turns),
        takes_claims(turns[0]),
        forall|i: int| 0 < i < turns.len() ==> !takes_claims(#[trigger] turns[i]),
    ensures
        state_after(before, turns).valid(),
        state_after(before, turns).checks.start == before.checks.start,
        state_after(before, turns).checks.latest matches Some((claims, readings)) && Some(claims)
            == taken(turns[0])->0.claims && exists|entry: int, exit: int| #[trigger]
            is_on_course(
                claimed_events(turns),
                state_after(before, turns).checks.pending,
                readings.halt_deadline(claims, before.checks.start),
                readings.warn_deadline(claims, before.checks.start),
                entry,
                exit,
            ),
    decreases turns.len(),
{
    let earlier = turns.drop_last();
    let turn = turns.last();
    let from = state_after(before, earlier);
    let checks = turn.after.checks;
    assert(turn == turns[turns.len() - 1]);
    if turns.len() == 1 {
        lemma_turn_is_valid(before, turn);
        let (claims, readings) = checks.latest->0;
        let halt = readings.halt_deadline(claims, before.checks.start);
        let warn = readings.warn_deadline(claims, before.checks.start);
        law_what_is_not_reported_is_pending(
            turn.polled.checks,
            checks,
            claims,
            readings,
            turn.result,
        );
        assert(claimed_events(earlier) =~= Seq::<Event>::empty());
        if reported(turn) == Some(update(EntitlementState::Entitled)) {
            assert(claimed_events(turns) =~= course().subrange(0, 1));
            assert(is_on_course(claimed_events(turns), checks.pending, halt, warn, 0, 1));
        } else if reported(turn) == Some(update(EntitlementState::EntitledWarn)) {
            assert(claimed_events(turns) =~= course().subrange(1, 2));
            assert(is_on_course(claimed_events(turns), checks.pending, halt, warn, 1, 2));
        } else {
            assert(claimed_events(turns) =~= course().subrange(2, 3));
            assert(is_on_course(claimed_events(turns), checks.pending, halt, warn, 2, 3));
        }
    } else {
        assert forall|i: int| 0 <= i < earlier.len() implies (#[trigger] earlier[i]).result is Ok
            && (i > 0 ==> !takes_claims(earlier[i])) by {
            assert(earlier[i] == turns[i]);
        }
        assert(earlier[0] == turns[0]);
        lemma_course(before, earlier);
        lemma_turn_is_valid(from, turn);
        let (claims, readings) = from.checks.latest->0;
        assert(checks.latest == from.checks.latest);
        let halt = readings.halt_deadline(claims, before.checks.start);
        let warn = readings.warn_deadline(claims, before.checks.start);
        let (entry, exit) = choose|entry: int, exit: int| #[trigger]
            is_on_course(
                claimed_events(earlier),
                from.checks.pending,
                halt,
                warn,
                entry,
                exit,
            );
        if turn.next is None {
            lemma_next_on_course(claimed_events(earlier), from, turn, halt, warn, entry, exit);
            assert(is_on_course(
                claimed_events(turns),
                checks.pending,
                halt,
                warn,
                entry,
                exit + 1,
            ));
        } else {
            assert(is_on_course(
                claimed_events(turns),
                checks.pending,
                halt,
                warn,
                entry,
                exit,
            ));
        }
    }
}

/// A run goes on as a run from where it stands.
proof fn lemma_run_from(before: ExpanderState, turns: Seq<Turn>, k: int)
    requires
        is_run(before, turns),
        0 <= k <= turns.len(),
    ensures
        is_run(before, turns.take(k)),
        is_run(state_after(before, turns.take(k)), turns.skip(k)),
    decreases turns.len() - k,
{
    if k == turns.len() {
        assert(turns.take(k) =~= turns);
    } else {
        let earlier = turns.drop_last();
        lemma_run_from(before, earlier, k);
        assert(earlier.take(k) =~= turns.take(k));
        assert(turns.skip(k).drop_last() =~= earlier.skip(k));
        assert(turns.skip(k).last() == turns.last());
        let from = state_after(before, turns.take(k));
        assert(state_after(from, turns.skip(k).drop_last()) == state_after(before, earlier));
    }
}

/// A run leaves a valid expander.
proof fn lemma_run_keeps_valid(before: ExpanderState, turns: Seq<Turn>)
    requires
        before.valid(),
        is_run(before, turns),
    ensures
        state_after(before, turns).valid(),
        state_after(before, turns).checks.start == before.checks.start,
    decreases turns.len(),
{
    if turns.len() > 0 {
        lemma_run_keeps_valid(before, turns.drop_last());
        lemma_turn_is_valid(state_after(before, turns.drop_last()), turns.last());
    }
}

/// From the turn on that takes the last claims of a run, the reports of
/// entitlements without claims aside, what is reported is the course of these
/// claims: from where they stand when they are taken, with nothing left out and
/// nothing reported twice, up to some point; and up to its end, the halt included,
/// once the stream ends.
///
/// The halt comes after the warning, unless the two checks were placed with one
/// deadline or with the halt due first. Nothing is said of the run up to the claims,
/// which may hold any number of other entitlements.
pub proof fn law_run_after_last_claims(before: ExpanderState, turns: Seq<Turn>, k: int)
    requires
        before.valid(),
        is_run(before, turns),
        0 <= k < turns.len(),
        takes_claims(turns[k]),
        forall|i: int| k < i < turns.len() ==> !takes_claims(#[trigger] turns[i]),
        all_ok(turns.skip(k)),
    ensures
        turns.last().after.checks.latest matches Some((claims, readings)) && {
            let halt = readings.halt_deadline(claims, before.checks.start);
            let warn = readings.warn_deadline(claims, before.checks.start);
            let reports = claimed_events(turns.skip(k));
            &&& Some(claims) == taken(turns[k])->0.claims
            &&& exists|entry: int, exit: int|
                {
                    &&& #[trigger] is_on_course(
                        reports,
                        turns.last().after.checks.pending,
                        halt,
                        warn,
                        entry,
                        exit,
                    )
                    &&& is_end(turns.last()) ==> exit == 3
                }
            &&& is_end(turns.last()) ==> {
                ||| exists|entry: int|
                    0 <= entry <= 2 && reports == #[trigger] course().subrange(entry, 3)
                ||| halt <= warn && reports == swapped_course()
            }
        },
{
    let rest = turns.skip(k);
    let from = state_after(before, turns.take(k));
    lemma_run_from(before, turns, k);
    lemma_run_keeps_valid(before, turns.take(k));
    assert forall|i: int| 0 < i < rest.len() implies !takes_claims(#[trigger] rest[i]) by {
        assert(rest[i] == turns[k + i]);
    }
    assert(rest[0] == turns[k]);
    assert(rest.last() == turns.last());
    lemma_course(from, rest);
    let (claims, readings) = turns.last().after.checks.latest->0;
    let halt = readings.halt_deadline(claims, before.checks.start);
    let warn = readings.warn_deadline(claims, before.checks.start);
    let pending = turns.last().after.checks.pending;
    let (entry, exit) = choose|entry: int, exit: int| #[trigger]
        is_on_course(claimed_events(rest), pending, halt, warn, entry, exit);
    if is_end(turns.last()) {
        assert(checks_at(Some(halt), Some(warn)).len() == 2);
        assert(checks_at(Some(halt), None).len() == 1);
        assert(checks_at(None, Some(warn)).len() == 1);
        assert(exit == 3);
        assert(swapped_course().subrange(0, 3) =~= swapped_course());
    }
}

/// Of a run from the beginning that takes one entitlement, with claims, everything
/// is reported after it was taken, and for its claims.
proof fn lemma_one_entitlement(before: ExpanderState, turns: Seq<Turn>) -> (k: int)
    requires
        before.valid(),
        before.is_new(),
        is_run(before, turns),
        entitlements(turns).len() == 1,
        entitlements(turns)[0].claims is Some,
    ensures
        0 <= k < turns.len(),
        taken(turns[k]) == Some(entitlements(turns)[0]),
        forall|i: int| k < i < turns.len() ==> taken(#[trigger] turns[i]) is None,
        events(turns) == claimed_events(turns.skip(k)),
    decreases turns.len(),
{
    let earlier = turns.drop_last();
    let turn = turns.last();
    assert(turn == turns[turns.len() - 1]);
    lemma_run_is_valid(before, earlier);
    if taken(turn) is Some {
        let k = turns.len() - 1;
        assert(entitlements(earlier).len() == 0);
        law_run_without_claims(before, earlier);
        assert(turns.skip(k).drop_last() =~= Seq::<Turn>::empty());
        assert(turns.skip(k).last() == turn);
        assert(claimed_events(turns.skip(k).drop_last()) =~= events(earlier));
        lemma_claims_are_not_reported_missing(state_after(before, earlier), turn);
        k
    } else {
        let k = lemma_one_entitlement(before, earlier);
        assert forall|i: int| k < i < turns.len() implies taken(#[trigger] turns[i]) is None by {
            if i < earlier.len() {
                assert(earlier[i] == turns[i]);
            }
        }
        assert(turns.skip(k).drop_last() =~= earlier.skip(k));
        assert(turns.skip(k).last() == turn);
        lemma_claims_are_not_reported_missing(state_after(before, earlier), turn);
        k
    }
}

/// Only an entitlement without claims is reported as such.
proof fn lemma_claims_are_not_reported_missing(before: ExpanderState, turn: Turn)
    requires
        before.valid(),
        is_turn(before, turn),
        taken(turn) matches Some(entitlement) ==> entitlement.claims is Some,
    ensures
        reported(turn) != Some(update(EntitlementState::Unentitled)),
{
    if turn.next is None {
        law_no_check_is_early(before.checks, turn.after.checks, reported(turn)->0);
    }
}

/// One entitlement with claims, and then the end, is reported as the rest of its
/// course from where it stands when it is taken: that all is well, the warning, and
/// the halt, or the last two, or the last. The halt comes once and last, and the
/// stream does not end before it although the upstream has.
///
/// Where both checks are left pending, the one to warn has the earlier deadline.
/// With one deadline, or the halt due first, the halt can come before the warning;
/// `law_warn_is_due_before_halt` says when the deadlines are in order.
pub proof fn law_run_over_one_entitlement(before: ExpanderState, turns: Seq<Turn>)
    requires
        before.valid(),
        before.is_new(),
        is_run(before, turns),
        all_ok(turns),
        entitlements(turns).len() == 1,
        entitlements(turns)[0].claims is Some,
        events(turns)[0] == update(EntitlementState::Entitled) ==> {
            let (claims, readings) = turns.last().after.checks.latest->0;
            readings.warn_deadline(claims, before.checks.start) < readings.halt_deadline(
                claims,
                before.checks.start,
            )
        },
        is_end(turns.last()),
    ensures
        exists|entry: int|
            0 <= entry <= 2 && events(turns) == #[trigger] course().subrange(entry, 3),
        events(turns).last() == update(EntitlementState::EntitledHalt),
        forall|i: int|
            0 <= i < events(turns).len() - 1 ==> #[trigger] events(turns)[i] != update(
                EntitlementState::EntitledHalt,
            ),
{
    let k = lemma_one_entitlement(before, turns);
    assert forall|i: int| 0 <= i < turns.skip(k).len() implies (#[trigger] turns.skip(
        k,
    )[i]).result is Ok by {
        assert(turns.skip(k)[i] == turns[k + i]);
    }
    law_run_after_last_claims(before, turns, k);
}

} // verus!

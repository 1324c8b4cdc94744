//! Entitlements, expanded into the events that follow from them.
//!
//! One turn of the stream takes two steps. The first polls the checks and either
//! reports one that is due or calls for the upstream. Only in that case is the
//! upstream polled, and the second step takes what it answered.

use std::task::Context;

use vstd::multiset::Multiset;
use vstd::prelude::*;

use crate::checks::lemma_polling_is_valid;
use crate::checks::lemma_reset_is_valid;
use crate::checks::polled;
use crate::checks::reads_now;
use crate::checks::resets_to;
use crate::checks::update;
use crate::checks::BoundaryError;
use crate::checks::Checks;
use crate::checks::ChecksState;
use crate::entitlement::Entitlement;
use crate::entitlement::EntitlementState;
use crate::entitlement::Event;
use crate::timer::Poll;
use crate::timer::Reading;

verus! {

/// What to do about what the checks and the upstream answered.
pub enum Action {
    /// Report an event.
    Report(Event),
    /// Replace the checks by those of a new entitlement with claims.
    Reset(Entitlement),
    /// Wait.
    Wait,
    /// Report the end.
    End,
}

/// Whether the checks answered with one that is due.
pub open spec fn is_due(checks: Poll<Option<Event>>) -> bool {
    checks matches Poll::Ready(Some(_))
}

/// What to do about what the checks answered, and the upstream if it was asked.
///
/// A check that is due comes first. After it comes a new entitlement: one with
/// claims replaces the checks, one without claims does not touch them. It is the
/// end when both have ended, and otherwise time to wait.
pub open spec fn action_for(
    checks: Poll<Option<Event>>,
    next: Option<Poll<Option<Entitlement>>>,
) -> Action {
    match (checks, next) {
        (Poll::Ready(Some(event)), _) => Action::Report(event),
        (_, Some(Poll::Ready(Some(entitlement)))) => if entitlement.claims is Some {
            Action::Reset(entitlement)
        } else {
            Action::Report(update(EntitlementState::Unentitled))
        },
        (Poll::Ready(None), Some(Poll::Ready(None))) => Action::End,
        _ => Action::Wait,
    }
}

/// Decides what to do about what the checks answered, and the upstream if it was
/// asked. It need not be when a check is due, and must be when there are no
/// checks.
pub fn decide(checks: Poll<Option<Event>>, next: Option<Poll<Option<Entitlement>>>) -> (action:
    Action)
    requires
        checks == Poll::<Option<Event>>::Ready(None) ==> next is Some,
    ensures
        action == action_for(checks, next),
{
    match (checks, next) {
        // A check is due. This is the only arm where the upstream has not been
        // polled, which is fine since the answer is not to wait.
        (Poll::Ready(Some(event)), _) => Action::Report(event),
        // The upstream has a new entitlement.
        (_, Some(Poll::Ready(Some(entitlement)))) => {
            if entitlement.claims.is_some() {
                Action::Reset(entitlement)
            } else {
                // An entitlement without claims does not clear the checks.
                Action::Report(Event::UpdateEntitlement(EntitlementState::Unentitled))
            }
        },
        // Whichever is pending wakes the task.
        (Poll::Pending, _) => Action::Wait,
        (_, Some(Poll::Pending)) => Action::Wait,
        (Poll::Ready(None), _) => Action::End,
    }
}

/// What the first step of a turn comes to.
#[derive(Clone, Copy, Debug, PartialEq, Eq, Structural)]
pub enum Step {
    /// A check is due: the turn ends with this event.
    Report(Event),
    /// No check is due: the upstream is to be polled, and what it answers to be
    /// handed to the second step.
    AskUpstream,
}

/// What there is to know of an expander.
#[verifier::ext_equal]
pub struct ExpanderState {
    /// The checks.
    pub checks: ChecksState,
    /// What the checks answered, while the upstream is to be asked.
    pub asked: Option<Poll<Option<Event>>>,
}

impl ExpanderState {
    /// Whether the checks are valid, and what they answered is their last answer
    /// and still holds: none is due, and they have ended exactly if none is pending.
    pub open spec fn valid(self) -> bool {
        &&& self.checks.valid()
        &&& self.asked matches Some(answer) ==> {
            &&& !is_due(answer)
            &&& self.checks.polls.len() > 0
            &&& self.checks.polls.last() == answer
            &&& self.checks.pending == Multiset::<(nat, Event)>::empty() <==> answer == Poll::<
                Option<Event>,
            >::Ready(None)
        }
    }

    /// Whether nothing has happened yet.
    pub open spec fn is_new(self) -> bool {
        &&& self.checks.pending == Multiset::<(nat, Event)>::empty()
        &&& self.checks.latest is None
        &&& self.checks.polls.len() == 0
        &&& self.asked is None
    }
}

/// Whether the first step of a turn takes an expander from `before` to `after` and
/// comes to `step`: the checks are polled, once, and their answer decides.
pub open spec fn steps_to(before: ExpanderState, after: ExpanderState, step: Step) -> bool {
    let answer = after.checks.polls.last();
    &&& polled(before.checks, after.checks, answer)
    &&& match answer {
        Poll::Ready(Some(event)) => step == Step::Report(event) && after.asked is None,
        _ => step == Step::AskUpstream && after.asked == Some(answer),
    }
}

/// Whether the second step of a turn takes an expander from `before` to `after` and
/// answers `result`, when the upstream answered `next`.
pub open spec fn answers(
    before: ExpanderState,
    after: ExpanderState,
    next: Poll<Option<Entitlement>>,
    result: Result<Poll<Option<Event>>, BoundaryError>,
) -> bool {
    &&& before.asked is Some
    &&& after.asked is None
    &&& match action_for(before.asked->0, Some(next)) {
        Action::Report(event) => after.checks == before.checks && result == Ok::<_, BoundaryError>(
            Poll::Ready(Some(event)),
        ),
        Action::Reset(entitlement) => after.checks.latest matches Some((claims, readings)) && claims
            == entitlement.claims->0 && before.checks.is_before(readings) && reads_now(
            before.checks,
            after.checks,
            readings,
        ) && resets_to(before.checks, after.checks, claims, readings, result),
        Action::Wait => after.checks == before.checks && result == Ok::<
            Poll<Option<Event>>,
            BoundaryError,
        >(Poll::Pending),
        Action::End => after.checks == before.checks && result == Ok::<
            Poll<Option<Event>>,
            BoundaryError,
        >(Poll::Ready(None)),
    }
}

/// Expands a stream of entitlements into the stream of their events: one for each
/// entitlement as it arrives, and one when a boundary of the latest claims is
/// reached.
#[must_use]
pub struct EntitlementExpander {
    checks: Checks,
    asked: Option<Poll<Option<Event>>>,
}

impl View for EntitlementExpander {
    type V = ExpanderState;

    closed spec fn view(&self) -> ExpanderState {
        ExpanderState { checks: self.checks@, asked: self.asked }
    }
}

impl EntitlementExpander {
    /// Whether the expander's state is valid, and the queue of its checks in shape.
    pub closed spec fn wf(self) -> bool {
        &&& self.checks.wf()
        &&& self@.valid()
    }

    /// Makes an expander without pending checks.
    pub fn new() -> (expander: Self)
        ensures
            expander.wf(),
            expander@.valid(),
            expander@.is_new(),
            expander@.checks.reached == 0,
            expander@.checks.reads == Seq::<Reading>::empty(),
    {
        let expander = EntitlementExpander { checks: Checks::new(), asked: None };
        assert(expander@.checks.valid());
        expander
    }

    /// Reads the monotonic clock.
    pub fn read_clock(&self) -> (reading: Reading)
        ensures
            self@.checks.is_past_at(reading.nanos()),
    {
        self.checks.read_clock()
    }

    /// Takes the first step of a turn: polls the checks.
    ///
    /// The upstream has no part in it, and is to be polled only if the step calls
    /// for it. It must keep answering the end once it has ended.
    pub fn poll_next(&mut self, cx: &mut Context<'_>) -> (step: Step)
        requires
            old(self).wf(),
        ensures
            final(self).wf(),
            final(self)@.valid(),
            steps_to(old(self)@, final(self)@, step),
    {
        let answer = self.checks.poll_expired(cx);
        let ghost given = answer;
        let step = match answer {
            Poll::Ready(Some(event)) => {
                self.asked = None;
                Step::Report(event)
            },
            answer => {
                self.asked = Some(answer);
                Step::AskUpstream
            },
        };
        proof {
            lemma_polling_is_valid(old(self)@.checks, self@.checks, given);
        }
        step
    }

    /// Takes the second step of a turn, with what the upstream answered: returns
    /// the next event, the end, or that there is none yet.
    ///
    /// An error means that a boundary of a new entitlement is too far ahead to wait
    /// for.
    pub fn resume(&mut self, next: Poll<Option<Entitlement>>) -> (result: Result<
        Poll<Option<Event>>,
        BoundaryError,
    >)
        requires
            old(self).wf(),
            old(self)@.asked is Some,
        ensures
            final(self).wf(),
            final(self)@.valid(),
            answers(old(self)@, final(self)@, next, result),
    {
        let asked = self.asked.take();
        match decide(asked.unwrap(), Some(next)) {
            Action::Report(event) => Ok(Poll::Ready(Some(event))),
            Action::Reset(entitlement) => {
                let ghost claims = entitlement.claims->0;
                let result = self.checks.reset_checks_for_entitlement(entitlement);
                proof {
                    lemma_reset_is_valid(
                        old(self)@.checks,
                        self@.checks,
                        claims,
                        (self@.checks.latest->0).1,
                        result,
                    );
                }
                result
            },
            Action::Wait => Ok(Poll::Pending),
            Action::End => Ok(Poll::Ready(None)),
        }
    }
}

/// A turn of the stream that answers `result`, and what goes into it.
pub struct Turn {
    /// The expander after the first step.
    pub polled: ExpanderState,
    /// What the upstream answered, if it was asked.
    pub next: Option<Poll<Option<Entitlement>>>,
    /// What the turn answers.
    pub result: Result<Poll<Option<Event>>, BoundaryError>,
    /// The expander after the turn.
    pub after: ExpanderState,
}

/// Whether `turn` is a turn of an expander in `before`: the first step, and the
/// second one if the first calls for the upstream.
pub open spec fn is_turn(before: ExpanderState, turn: Turn) -> bool {
    match turn.next {
        Some(next) => {
            &&& steps_to(before, turn.polled, Step::AskUpstream)
            &&& answers(turn.polled, turn.after, next, turn.result)
        },
        None => {
            &&& turn.after == turn.polled
            &&& exists|event: Event|
                {
                    &&& #[trigger] steps_to(before, turn.polled, Step::Report(event))
                    &&& turn.result == Ok::<_, BoundaryError>(Poll::Ready(Some(event)))
                }
        },
    }
}

/// A turn leaves a valid expander.
pub(crate) proof fn lemma_turn_is_valid(before: ExpanderState, turn: Turn)
    requires
        before.valid(),
        is_turn(before, turn),
    ensures
        turn.polled.valid(),
        turn.after.valid(),
{
    lemma_polling_is_valid(
        before.checks,
        turn.polled.checks,
        turn.polled.checks.polls.last(),
    );
    if let Some(next) = turn.next {
        if let Action::Reset(entitlement) = action_for(turn.polled.asked->0, Some(next)) {
            lemma_reset_is_valid(
                turn.polled.checks,
                turn.after.checks,
                (turn.after.checks.latest->0).0,
                (turn.after.checks.latest->0).1,
                turn.result,
            );
        }
    }
}

/// Every turn polls the checks, and exactly once.
pub proof fn law_every_turn_polls_the_checks(before: ExpanderState, turn: Turn)
    requires
        is_turn(before, turn),
    ensures
        turn.after.checks.polls.len() == before.checks.polls.len() + 1,
        turn.after.checks.polls.drop_last() == before.checks.polls,
{
    assert(turn.after.checks.polls.drop_last() =~= before.checks.polls);
}

/// A check that is due is reported before anything else: the turn ends with it, the
/// upstream is not polled, and the check leaves while all others stay.
pub proof fn law_due_check_comes_first(before: ExpanderState, turn: Turn)
    requires
        is_turn(before, turn),
        is_due(turn.after.checks.polls.last()),
    ensures
        turn.next is None,
        turn.after.checks.polls.last() matches Poll::Ready(Some(event)) && turn.result == Ok::<
            _,
            BoundaryError,
        >(Poll::Ready(Some(event))) && polled(
            before.checks,
            turn.after.checks,
            Poll::Ready(Some(event)),
        ),
{
}

/// A turn waits exactly when no check is due, the upstream has no entitlement, and
/// at least one of the two is pending. Both have been polled by then.
pub proof fn law_wait_when_either_is_pending(before: ExpanderState, turn: Turn)
    requires
        is_turn(before, turn),
    ensures
        turn.result == Ok::<Poll<Option<Event>>, BoundaryError>(Poll::Pending) <==> {
            let checks = turn.after.checks.polls.last();
            &&& !is_due(checks)
            &&& turn.next matches Some(next)
            &&& !(next matches Poll::Ready(Some(_)))
            &&& checks == Poll::<Option<Event>>::Pending || next == Poll::<
                Option<Entitlement>,
            >::Pending
        },
{
}

/// The stream ends exactly when no checks are pending and the upstream has ended.
pub proof fn law_end_when_both_have_ended(before: ExpanderState, turn: Turn)
    requires
        is_turn(before, turn),
    ensures
        turn.result == Ok::<Poll<Option<Event>>, BoundaryError>(Poll::Ready(None)) <==> {
            &&& before.checks.pending == Multiset::<(nat, Event)>::empty()
            &&& turn.next == Some(Poll::<Option<Entitlement>>::Ready(None))
        },
{
}

/// An entitlement without claims is reported as such and leaves the pending
/// checks, and the claims that they belong to, as they are.
pub proof fn law_no_claims_keep_checks(
    before: ExpanderState,
    turn: Turn,
    entitlement: Entitlement,
)
    requires
        is_turn(before, turn),
        turn.next == Some(Poll::Ready(Some(entitlement))),
        entitlement.claims is None,
    ensures
        turn.after.checks.pending == before.checks.pending,
        turn.after.checks.latest == before.checks.latest,
        turn.result == Ok::<_, BoundaryError>(
            Poll::Ready(Some(update(EntitlementState::Unentitled))),
        ),
{
}

/// New claims make the earlier checks void: all that is pending after them is what
/// they leave themselves, whatever was pending before.
pub proof fn law_new_claims_void_checks(
    before: ExpanderState,
    turn: Turn,
    entitlement: Entitlement,
)
    requires
        is_turn(before, turn),
        turn.next == Some(Poll::Ready(Some(entitlement))),
        entitlement.claims is Some,
    ensures
        turn.after.checks.latest matches Some((claims, readings)) && claims
            == entitlement.claims->0 && forall|others: Multiset<(nat, Event)>|
            resets_to(
                #[trigger] with_pending(turn.polled.checks, others),
                turn.after.checks,
                claims,
                readings,
                turn.result,
            ),
{
}

/// The same checks, but with others pending.
pub open spec fn with_pending(checks: ChecksState, others: Multiset<(nat, Event)>) -> ChecksState {
    ChecksState { pending: others, ..checks }
}

/// New claims are answered with an event of their own before any of their checks
/// is reported, even when a boundary has passed: never with the end, nor by
/// waiting, nor as if there were no claims.
pub proof fn law_claims_are_reported_first(
    before: ExpanderState,
    turn: Turn,
    entitlement: Entitlement,
)
    requires
        is_turn(before, turn),
        turn.next == Some(Poll::Ready(Some(entitlement))),
        entitlement.claims is Some,
    ensures
        turn.result matches Ok(answer) ==> (answer matches Poll::Ready(
            Some(Event::UpdateEntitlement(state)),
        ) && state != EntitlementState::Unentitled),
{
}

} // verus!

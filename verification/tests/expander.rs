use std::pin::Pin;
use std::task::Context;
use std::task::Poll;
use std::time::Duration;
use std::time::SystemTime;

use entitlement_stream::checks::BoundaryError;
use entitlement_stream::entitlement::Audience;
use entitlement_stream::entitlement::Claims;
use entitlement_stream::entitlement::Entitlement;
use entitlement_stream::entitlement::EntitlementState;
use entitlement_stream::entitlement::Event;
use entitlement_stream::entitlement::OneOrMany;
use entitlement_stream::expander::decide;
use entitlement_stream::expander::Action;
use entitlement_stream::expander::EntitlementExpander;
use entitlement_stream::expander::Step;
use entitlement_stream::timer;
use futures::stream::Fuse;
use futures::SinkExt;
use futures::Stream;
use futures::StreamExt;
use futures_test::stream::StreamTestExt;

struct Expanded<Upstream> {
    expander: EntitlementExpander,
    upstream: Pin<Box<Fuse<Upstream>>>,
}

impl<Upstream: Stream<Item = Entitlement>> Stream for Expanded<Upstream> {
    type Item = Event;

    fn poll_next(mut self: Pin<&mut Self>, cx: &mut Context<'_>) -> Poll<Option<Event>> {
        let this = &mut *self;
        let answer = match this.expander.poll_next(cx) {
            Step::Report(event) => return Poll::Ready(Some(event)),
            Step::AskUpstream => match this.upstream.as_mut().poll_next(cx) {
                Poll::Ready(entitlement) => timer::Poll::Ready(entitlement),
                Poll::Pending => timer::Poll::Pending,
            },
        };
        match this.expander.resume(answer).unwrap() {
            timer::Poll::Ready(event) => Poll::Ready(event),
            timer::Poll::Pending => Poll::Pending,
        }
    }
}

trait EntitlementStreamExt: Stream<Item = Entitlement> + Sized {
    fn expand_entitlements(self) -> Expanded<Self> {
        Expanded {
            expander: EntitlementExpander::new(),
            upstream: Box::pin(self.fuse()),
        }
    }
}

impl<T: Stream<Item = Entitlement>> EntitlementStreamExt for T {}

#[derive(Eq, PartialEq, Debug)]
enum SimpleEvent {
    UpdateEntitlement,
    HaltEntitlement,
    WarnEntitlement,
}

impl From<Event> for SimpleEvent {
    fn from(value: Event) -> Self {
        match value {
            Event::UpdateEntitlement(EntitlementState::EntitledHalt) => SimpleEvent::HaltEntitlement,
            Event::UpdateEntitlement(EntitlementState::EntitledWarn) => SimpleEvent::WarnEntitlement,
            Event::UpdateEntitlement(_) => SimpleEvent::UpdateEntitlement,
        }
    }
}

fn entitlement_with_claim(warn_delta: u64, halt_delta: u64) -> Entitlement {
    let now = SystemTime::now();
    Entitlement {
        claims: Some(Claims {
            iss: "".to_string(),
            sub: "".to_string(),
            aud: OneOrMany::One(Audience::SelfHosted),
            warn_at: now + Duration::from_millis(warn_delta),
            halt_at: now + Duration::from_millis(halt_delta),
        }),
    }
}

fn entitlement_with_no_claim() -> Entitlement {
    Entitlement { claims: None }
}

fn runtime() -> tokio::runtime::Runtime {
    tokio::runtime::Builder::new_current_thread()
        .enable_time()
        .build()
        .unwrap()
}

#[test]
fn entitlement_expander() {
    runtime().block_on(async {
        let events_stream = futures::stream::iter(vec![entitlement_with_claim(15, 30)])
            .expand_entitlements()
            .map(SimpleEvent::from);

        let events = events_stream.collect::<Vec<_>>().await;
        assert_eq!(
            events,
            &[
                SimpleEvent::UpdateEntitlement,
                SimpleEvent::WarnEntitlement,
                SimpleEvent::HaltEntitlement
            ]
        );
    });
}

#[test]
fn entitlement_expander_warn_now() {
    runtime().block_on(async {
        let events_stream = futures::stream::iter(vec![entitlement_with_claim(0, 15)])
            .interleave_pending()
            .expand_entitlements()
            .map(SimpleEvent::from);

        let events = events_stream.collect::<Vec<_>>().await;
        assert_eq!(
            events,
            &[SimpleEvent::WarnEntitlement, SimpleEvent::HaltEntitlement]
        );
    });
}

#[test]
fn entitlement_expander_halt_now() {
    runtime().block_on(async {
        let events_stream = futures::stream::iter(vec![entitlement_with_claim(0, 0)])
            .interleave_pending()
            .expand_entitlements()
            .map(SimpleEvent::from);

        let events = events_stream.collect::<Vec<_>>().await;
        assert_eq!(events, &[SimpleEvent::HaltEntitlement]);
    });
}

#[test]
fn entitlement_expander_no_claim() {
    runtime().block_on(async {
        let events_stream = futures::stream::iter(vec![entitlement_with_no_claim()])
            .interleave_pending()
            .expand_entitlements()
            .map(SimpleEvent::from);

        let events = events_stream.collect::<Vec<_>>().await;
        assert_eq!(events, &[SimpleEvent::UpdateEntitlement]);
    });
}

#[test]
fn entitlement_expander_claim_no_claim() {
    runtime().block_on(async {
        // Entitlements with no claim do not clear checks as they are ignored if we move from entitled to unentitled, this is handled at the state machine level.
        let events_stream = futures::stream::iter(vec![
            entitlement_with_claim(10, 10),
            entitlement_with_no_claim(),
        ])
        .interleave_pending()
        .expand_entitlements()
        .map(SimpleEvent::from);

        let events = events_stream.collect::<Vec<_>>().await;
        assert_eq!(
            events,
            &[
                SimpleEvent::UpdateEntitlement,
                SimpleEvent::UpdateEntitlement,
                SimpleEvent::WarnEntitlement,
                SimpleEvent::HaltEntitlement
            ]
        );
    });
}

#[test]
fn entitlement_expander_no_claim_claim() {
    runtime().block_on(async {
        let events_stream = futures::stream::iter(vec![
            entitlement_with_no_claim(),
            entitlement_with_claim(15, 30),
        ])
        .interleave_pending()
        .expand_entitlements()
        .map(SimpleEvent::from);

        let events = events_stream.collect::<Vec<_>>().await;
        assert_eq!(
            events,
            &[
                SimpleEvent::UpdateEntitlement,
                SimpleEvent::UpdateEntitlement,
                SimpleEvent::WarnEntitlement,
                SimpleEvent::HaltEntitlement
            ]
        );
    });
}

#[test]
fn entitlement_expander_claim_pause_claim() {
    let runtime = tokio::runtime::Builder::new_multi_thread()
        .enable_time()
        .build()
        .unwrap();
    runtime.block_on(async {
        let (mut tx, rx) = futures::channel::mpsc::channel(10);
        let events_stream = rx.expand_entitlements().map(SimpleEvent::from);

        tokio::task::spawn(async move {
            // This simulates a new claim coming in before in between the warning and halt
            let _ = tx.send(entitlement_with_claim(15, 45)).await;
            tokio::time::sleep(Duration::from_millis(20)).await;
            let _ = tx.send(entitlement_with_claim(15, 30)).await;
        });
        let events = events_stream.collect::<Vec<_>>().await;
        assert_eq!(
            events,
            &[
                SimpleEvent::UpdateEntitlement,
                SimpleEvent::WarnEntitlement,
                SimpleEvent::UpdateEntitlement,
                SimpleEvent::WarnEntitlement,
                SimpleEvent::HaltEntitlement
            ]
        );
    });
}

fn answer(
    expander: &mut EntitlementExpander,
    next: timer::Poll<Option<Entitlement>>,
) -> Result<timer::Poll<Option<Event>>, BoundaryError> {
    let mut cx = Context::from_waker(futures::task::noop_waker_ref());
    assert_eq!(expander.poll_next(&mut cx), Step::AskUpstream);
    expander.resume(next)
}

fn report(state: EntitlementState) -> Result<timer::Poll<Option<Event>>, BoundaryError> {
    Ok(timer::Poll::Ready(Some(Event::UpdateEntitlement(state))))
}

#[test]
fn a_due_check_keeps_the_upstream_waiting() {
    runtime().block_on(async {
        let mut expander = EntitlementExpander::new();
        let mut cx = Context::from_waker(futures::task::noop_waker_ref());
        let claims = timer::Poll::Ready(Some(entitlement_with_claim(100, 101)));
        assert_eq!(
            answer(&mut expander, claims),
            report(EntitlementState::Entitled)
        );
        tokio::time::sleep(Duration::from_millis(150)).await;
        let warn = Event::UpdateEntitlement(EntitlementState::EntitledWarn);
        assert_eq!(expander.poll_next(&mut cx), Step::Report(warn));
    });
}

#[test]
fn pending_until_the_upstream_has_news() {
    runtime().block_on(async {
        let mut expander = EntitlementExpander::new();
        assert_eq!(
            answer(&mut expander, timer::Poll::Pending),
            Ok(timer::Poll::Pending)
        );
        assert_eq!(
            answer(&mut expander, timer::Poll::Ready(None)),
            Ok(timer::Poll::Ready(None))
        );
        let claims = timer::Poll::Ready(Some(entitlement_with_claim(60_000, 60_000)));
        assert_eq!(
            answer(&mut expander, claims),
            report(EntitlementState::Entitled)
        );
        // The checks are pending although the upstream has ended.
        assert_eq!(
            answer(&mut expander, timer::Poll::Ready(None)),
            Ok(timer::Poll::Pending)
        );
        // An entitlement without claims leaves them as they are.
        let no_claims = timer::Poll::Ready(Some(entitlement_with_no_claim()));
        assert_eq!(
            answer(&mut expander, no_claims),
            report(EntitlementState::Unentitled)
        );
        assert_eq!(
            answer(&mut expander, timer::Poll::Ready(None)),
            Ok(timer::Poll::Pending)
        );
        // Claims that have passed make them void.
        let passed = timer::Poll::Ready(Some(entitlement_with_claim(0, 0)));
        assert_eq!(
            answer(&mut expander, passed),
            report(EntitlementState::EntitledHalt)
        );
        assert_eq!(
            answer(&mut expander, timer::Poll::Ready(None)),
            Ok(timer::Poll::Ready(None))
        );
    });
}

#[test]
fn a_boundary_too_far_is_an_error() {
    runtime().block_on(async {
        let mut expander = EntitlementExpander::new();
        let claims = timer::Poll::Ready(Some(entitlement_with_claim(15, 100_000_000_000)));
        assert_eq!(answer(&mut expander, claims), Err(BoundaryError::TooFar));
    });
}

#[test]
fn entitlements_without_claims_and_then_the_end() {
    runtime().block_on(async {
        for n in 0..4 {
            let upstream = (0..n).map(|_| entitlement_with_no_claim()).collect::<Vec<_>>();
            let events = futures::stream::iter(upstream)
                .expand_entitlements()
                .collect::<Vec<_>>()
                .await;
            let unentitled = Event::UpdateEntitlement(EntitlementState::Unentitled);
            assert_eq!(events, vec![unentitled; n]);
        }
    });
}

#[test]
fn nothing_is_reported_before_its_boundary() {
    runtime().block_on(async {
        let start = std::time::Instant::now();
        let mut events = futures::stream::iter(vec![entitlement_with_claim(20, 40)])
            .expand_entitlements()
            .map(SimpleEvent::from);
        assert_eq!(events.next().await, Some(SimpleEvent::UpdateEntitlement));
        assert_eq!(events.next().await, Some(SimpleEvent::WarnEntitlement));
        assert!(start.elapsed() >= Duration::from_millis(20));
        assert_eq!(events.next().await, Some(SimpleEvent::HaltEntitlement));
        assert!(start.elapsed() >= Duration::from_millis(40));
        assert_eq!(events.next().await, None);
    });
}

#[test]
fn the_clock_goes_on() {
    let expander = EntitlementExpander::new();
    let one = expander.read_clock();
    let other = expander.read_clock();
    assert!(one.get() <= other.get());
}

#[test]
fn decisions() {
    let warn = Event::UpdateEntitlement(EntitlementState::EntitledWarn);
    let due = || timer::Poll::Ready(Some(warn));
    let ended = timer::Poll::Ready(None);
    assert!(matches!(decide(due(), None), Action::Report(event) if event == warn));
    assert!(matches!(
        decide(due(), Some(timer::Poll::Ready(Some(entitlement_with_no_claim())))),
        Action::Report(event) if event == warn
    ));
    assert!(matches!(
        decide(
            timer::Poll::Pending,
            Some(timer::Poll::Ready(Some(entitlement_with_claim(1, 1))))
        ),
        Action::Reset(_)
    ));
    assert!(matches!(
        decide(ended, Some(timer::Poll::Ready(Some(entitlement_with_no_claim())))),
        Action::Report(Event::UpdateEntitlement(EntitlementState::Unentitled))
    ));
    assert!(matches!(decide(timer::Poll::Pending, None), Action::Wait));
    assert!(matches!(
        decide(timer::Poll::Pending, Some(timer::Poll::Ready(None))),
        Action::Wait
    ));
    assert!(matches!(
        decide(timer::Poll::Ready(None), Some(timer::Poll::Pending)),
        Action::Wait
    ));
    assert!(matches!(
        decide(timer::Poll::Ready(None), Some(timer::Poll::Ready(None))),
        Action::End
    ));
}

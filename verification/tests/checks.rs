use std::task::Context;
use std::time::Duration;
use std::time::SystemTime;

use entitlement_stream::checks::BoundaryError;
use entitlement_stream::checks::Checks;
use entitlement_stream::checks::Readings;
use entitlement_stream::entitlement::Audience;
use entitlement_stream::entitlement::Claims;
use entitlement_stream::entitlement::Entitlement;
use entitlement_stream::entitlement::EntitlementState;
use entitlement_stream::entitlement::Event;
use entitlement_stream::entitlement::OneOrMany;
use entitlement_stream::timer::Poll;

const WARN: Event = Event::UpdateEntitlement(EntitlementState::EntitledWarn);
const HALT: Event = Event::UpdateEntitlement(EntitlementState::EntitledHalt);
const ENTITLED: Event = Event::UpdateEntitlement(EntitlementState::Entitled);

fn runtime() -> tokio::runtime::Runtime {
    tokio::runtime::Builder::new_current_thread()
        .enable_time()
        .build()
        .unwrap()
}

fn poll_once(checks: &mut Checks) -> Poll<Option<Event>> {
    let mut cx = Context::from_waker(futures::task::noop_waker_ref());
    checks.poll_expired(&mut cx)
}

async fn next(checks: &mut Checks) -> Option<Event> {
    futures::future::poll_fn(|cx| match checks.poll_expired(cx) {
        Poll::Ready(event) => std::task::Poll::Ready(event),
        Poll::Pending => std::task::Poll::Pending,
    })
    .await
}

fn entitlement(warn_at: SystemTime, halt_at: SystemTime) -> Entitlement {
    Entitlement {
        claims: Some(Claims {
            iss: "".to_string(),
            sub: "".to_string(),
            aud: OneOrMany::One(Audience::SelfHosted),
            warn_at,
            halt_at,
        }),
    }
}

#[test]
fn no_checks_at_first() {
    runtime().block_on(async {
        let mut checks = Checks::new();
        assert_eq!(poll_once(&mut checks), Poll::Ready(None));
        assert_eq!(poll_once(&mut checks), Poll::Ready(None));
    });
}

/// The wall-clock time whose halt boundary is placed this far after the present.
fn halt_after_now(readings: Readings, ahead: Duration) -> SystemTime {
    let lag = readings.now.get() - readings.halt.get_reading().get();
    readings.halt.get_time() + lag + ahead
}

/// The wall-clock time whose warn boundary is placed this far after the present.
fn warn_after_now(readings: Readings, ahead: Duration) -> SystemTime {
    let lag = readings.now.get() - readings.warn.get_reading().get();
    readings.warn.get_time() + lag + ahead
}

fn reset(
    checks: &mut Checks,
    readings: Readings,
    warn_ahead: Duration,
    halt_ahead: Duration,
) -> Result<Poll<Option<Event>>, BoundaryError> {
    let warn_at = warn_after_now(readings, warn_ahead);
    let halt_at = halt_after_now(readings, halt_ahead);
    checks.reset_by(entitlement(warn_at, halt_at).claims.unwrap(), readings)
}

const NANO: Duration = Duration::from_nanos(1);
const ZERO: Duration = Duration::ZERO;

#[test]
fn readings_are_in_order() {
    let checks = Checks::new();
    let before = checks.read_clock();
    let readings = checks.take_readings();
    assert!(before.get() <= readings.now.get());
    assert!(readings.halt.get_reading().get() <= readings.warn.get_reading().get());
    assert!(readings.warn.get_reading().get() <= readings.now.get());
    assert!(readings.halt.get_time() > SystemTime::UNIX_EPOCH);
}

#[test]
fn both_boundaries_ahead() {
    runtime().block_on(async {
        let mut checks = Checks::new();
        let readings = checks.take_readings();
        let warn_ahead = Duration::from_millis(100);
        let halt_ahead = Duration::from_millis(120);
        assert_eq!(
            reset(&mut checks, readings, warn_ahead, halt_ahead),
            Ok(Poll::Ready(Some(ENTITLED)))
        );
        assert_eq!(poll_once(&mut checks), Poll::Pending);
        assert_eq!(next(&mut checks).await, Some(WARN));
        assert!(checks.read_clock().get() >= readings.now.get() + warn_ahead);
        assert_eq!(next(&mut checks).await, Some(HALT));
        assert!(checks.read_clock().get() >= readings.now.get() + halt_ahead);
        assert_eq!(next(&mut checks).await, None);
    });
}

#[test]
fn boundaries_in_reverse_order() {
    runtime().block_on(async {
        let mut checks = Checks::new();
        let readings = checks.take_readings();
        assert_eq!(
            reset(
                &mut checks,
                readings,
                Duration::from_millis(30),
                Duration::from_millis(10)
            ),
            Ok(Poll::Ready(Some(ENTITLED)))
        );
        assert_eq!(next(&mut checks).await, Some(HALT));
        assert_eq!(next(&mut checks).await, Some(WARN));
        assert_eq!(next(&mut checks).await, None);
    });
}

#[test]
fn a_boundary_at_now_has_passed() {
    runtime().block_on(async {
        let mut checks = Checks::new();
        let readings = checks.take_readings();
        assert_eq!(
            reset(&mut checks, readings, NANO, ZERO),
            Ok(Poll::Ready(Some(HALT)))
        );
        assert_eq!(next(&mut checks).await, None);
        assert_eq!(
            reset(&mut checks, readings, ZERO, NANO),
            Ok(Poll::Ready(Some(WARN)))
        );
        assert_eq!(next(&mut checks).await, Some(HALT));
        assert_eq!(next(&mut checks).await, None);
        assert_eq!(
            reset(&mut checks, readings, NANO, NANO),
            Ok(Poll::Ready(Some(ENTITLED)))
        );
    });
}

#[test]
fn new_checks_replace_the_old_ones() {
    runtime().block_on(async {
        let mut checks = Checks::new();
        let readings = checks.take_readings();
        let soon = Duration::from_millis(5);
        assert_eq!(
            reset(&mut checks, readings, soon, soon),
            Ok(Poll::Ready(Some(ENTITLED)))
        );
        let later = Duration::from_millis(60);
        assert_eq!(
            reset(&mut checks, readings, ZERO, later),
            Ok(Poll::Ready(Some(WARN)))
        );
        assert_eq!(next(&mut checks).await, Some(HALT));
        assert!(checks.read_clock().get() >= readings.now.get() + later);
        assert_eq!(next(&mut checks).await, None);
    });
}

#[test]
fn a_boundary_too_far_ahead() {
    runtime().block_on(async {
        let before = std::time::Instant::now();
        let mut checks = Checks::new();
        let after = std::time::Instant::now();
        let readings = checks.take_readings();
        let limit = Duration::from_millis(68_719_476_735);
        // Up to the limit from the start of the queue, which lies between the two.
        let within = limit - (readings.now.get() - before);
        let beyond = limit - (readings.now.get() - after) + NANO;
        let soon = Duration::from_millis(5);
        assert_eq!(
            reset(&mut checks, readings, within, within),
            Ok(Poll::Ready(Some(ENTITLED)))
        );
        assert_eq!(poll_once(&mut checks), Poll::Pending);
        // Without the halt boundary nothing is left to wait for.
        assert_eq!(
            reset(&mut checks, readings, soon, beyond),
            Err(BoundaryError::TooFar)
        );
        assert_eq!(poll_once(&mut checks), Poll::Ready(None));
        // The halt boundary is kept when only the warn boundary is too far.
        assert_eq!(
            reset(&mut checks, readings, beyond, soon),
            Err(BoundaryError::TooFar)
        );
        assert_eq!(next(&mut checks).await, Some(HALT));
        assert_eq!(next(&mut checks).await, None);
        // A boundary that has passed settles the matter before the other counts.
        assert_eq!(
            reset(&mut checks, readings, beyond, ZERO),
            Ok(Poll::Ready(Some(HALT)))
        );
    });
}

#[test]
fn claims_far_ahead_are_refused() {
    runtime().block_on(async {
        let mut checks = Checks::new();
        let years = Duration::from_secs(3 * 366 * 24 * 60 * 60);
        let far = SystemTime::now() + years;
        assert_eq!(
            checks.reset_checks_for_entitlement(entitlement(far, far)),
            Err(BoundaryError::TooFar)
        );
        assert_eq!(poll_once(&mut checks), Poll::Ready(None));
    });
}

#[test]
fn claims_that_have_passed_are_reported_at_once() {
    runtime().block_on(async {
        let mut checks = Checks::new();
        let passed = SystemTime::UNIX_EPOCH;
        let ahead = SystemTime::now() + Duration::from_secs(600);
        assert_eq!(
            checks.reset_checks_for_entitlement(entitlement(ahead, passed)),
            Ok(Poll::Ready(Some(HALT)))
        );
        assert_eq!(poll_once(&mut checks), Poll::Ready(None));
        assert_eq!(
            checks.reset_checks_for_entitlement(entitlement(passed, ahead)),
            Ok(Poll::Ready(Some(WARN)))
        );
        assert_eq!(poll_once(&mut checks), Poll::Pending);
        assert_eq!(
            checks.reset_checks_for_entitlement(entitlement(ahead, ahead)),
            Ok(Poll::Ready(Some(ENTITLED)))
        );
        assert_eq!(poll_once(&mut checks), Poll::Pending);
    });
}

use bubble_backend::reply::Reply;
use bubble_backend::routes::{GuardedRoute, RouteAction, RouteEvent};

#[test]
fn authorized_request_answers_with_the_store_result() {
    let r = GuardedRoute::new();
    let (r, a) = r.step(RouteEvent::<u32>::Begin);
    assert!(matches!(a, RouteAction::CheckToken));
    let (r, a) = r.step(RouteEvent::<u32>::TokenChecked(true));
    assert!(matches!(a, RouteAction::RunStore));
    let (_, a) = r.step(RouteEvent::StoreDone(Some(42u32)));
    assert!(matches!(a, RouteAction::Respond(Reply::Success(42))));
}

#[test]
fn failed_store_is_a_bad_request() {
    let r = GuardedRoute::new();
    let (r, _) = r.step(RouteEvent::<()>::Begin);
    let (r, _) = r.step(RouteEvent::<()>::TokenChecked(true));
    let (_, a) = r.step(RouteEvent::<()>::StoreDone(None));
    assert!(matches!(a, RouteAction::Respond(Reply::BadRequest)));
}

#[test]
fn unauthenticated_request_never_reaches_the_store() {
    let r = GuardedRoute::new();
    let (r, _) = r.step(RouteEvent::<()>::Begin);
    let (_, a) = r.step(RouteEvent::<()>::TokenChecked(false));
    assert!(matches!(a, RouteAction::Respond(Reply::Unauthorized)));
}

use mnist_actor::actor::Actor;
use mnist_actor::actor::Step;
use mnist_actor::errors::ClassifyError;
use mnist_actor::errors::LoadError;

fn valid_body() -> Vec<u32> {
    vec![0; 784]
}

#[test]
fn fresh_actor_plans_load() {
    let actor = Actor::new();
    assert!(!actor.is_loaded());
    match actor.on_request(Some(valid_body())) {
        Step::NeedLoad { input } => assert_eq!(input.len(), 784),
        _ => panic!("a fresh actor must plan a load for a valid body"),
    }
}

#[test]
fn undecodable_body_rejected_without_load() {
    let actor = Actor::new();
    match actor.on_request(None) {
        Step::Reject { error } => {
            assert_eq!(error, ClassifyError::MalformedInput);
            assert_eq!(error.status_code(), 400);
        }
        _ => panic!("an undecodable body must be rejected"),
    }
}

#[test]
fn wrong_length_rejected_without_load() {
    // Scenario: a 783-element array is malformed; it is rejected before any
    // load is planned, even on a fresh (Unloaded) actor.
    let actor = Actor::new();
    match actor.on_request(Some(vec![0; 783])) {
        Step::Reject { error } => {
            assert_eq!(error, ClassifyError::MalformedInput);
            assert_eq!(error.status_code(), 400);
        }
        _ => panic!("a wrong-length body must be rejected without a load"),
    }
}

#[test]
fn load_once_across_requests() {
    // After one successful load, every later request runs on the same
    // cached parameters and never plans another load.
    let mut actor = Actor::new();
    match actor.on_request(Some(valid_body())) {
        Step::NeedLoad { .. } => {}
        _ => panic!("first request must plan the load"),
    }
    let token = actor.complete_load(Ok(42)).expect("successful load");
    assert_eq!(token, 42);
    assert!(actor.is_loaded());
    for round in 0..5u32 {
        match actor.on_request(Some(vec![round; 784])) {
            Step::Classify { model, input } => {
                assert_eq!(model, 42);
                assert_eq!(input.len(), 784);
            }
            _ => panic!("a loaded actor must classify on the cached model"),
        }
    }
}

#[test]
fn failed_load_leaves_unloaded_and_retries() {
    // Storage reports NotFound: the request fails server-side, the actor
    // stays Unloaded, and the next request triggers a fresh attempt.
    let mut actor = Actor::new();
    let err = actor.complete_load(Err(LoadError::NotFound)).unwrap_err();
    assert_eq!(err, ClassifyError::ModelUnavailable(LoadError::NotFound));
    assert_eq!(err.status_code(), 500);
    assert!(!actor.is_loaded());
    match actor.on_request(Some(valid_body())) {
        Step::NeedLoad { .. } => {}
        _ => panic!("a failed load must leave the actor ready to retry"),
    }
    let token = actor.complete_load(Ok(7)).expect("retry must be able to succeed");
    assert_eq!(token, 7);
    match actor.on_request(Some(valid_body())) {
        Step::Classify { model, .. } => assert_eq!(model, 7),
        _ => panic!("the retried load must be cached"),
    }
}

#[test]
fn decode_failure_surfaces_distinctly() {
    let mut actor = Actor::new();
    let err = actor.complete_load(Err(LoadError::DecodeError)).unwrap_err();
    assert_eq!(err, ClassifyError::ModelUnavailable(LoadError::DecodeError));
    assert_ne!(err, ClassifyError::ModelUnavailable(LoadError::NotFound));
    assert_ne!(err, ClassifyError::MalformedInput);
}

#[test]
fn distinct_actors_load_independently() {
    // Two identities, two instances: loading one does not touch the other.
    let mut eu = Actor::new();
    let na = Actor::new();
    eu.complete_load(Ok(1)).unwrap();
    match eu.on_request(Some(valid_body())) {
        Step::Classify { model, .. } => assert_eq!(model, 1),
        _ => panic!("EU actor must be loaded"),
    }
    match na.on_request(Some(valid_body())) {
        Step::NeedLoad { .. } => {}
        _ => panic!("NA actor must still be unloaded"),
    }
}

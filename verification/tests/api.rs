use distlock::api::handlers::{
    acquire_handler, health_check, release_handler, renew_handler, status_handler,
};
use distlock::api::models::{
    AcquireRequest, AcquireResponse, ApiError, ReleaseRequest, ReleaseResponse, RenewRequest,
    RenewResponse, StatusResponse,
};
use distlock::api::utils::{change_to_client_id, change_to_lease_id, change_to_lock_id};
use distlock::lock::manager::InMemoryLockManager;
use distlock::lock::types::{
    AcquireResult, ClientId, LeaseId, LockHolder, LockId, LockState, ReleaseResult, RenewResult,
};
use distlock::time::Timestamp;

fn at(millis: i64) -> Timestamp {
    Timestamp::from_millis(millis).unwrap()
}

#[test]
fn health_check_says_ok() {
    assert_eq!(health_check(), "Ok");
}

#[test]
fn texts_become_names() {
    assert_eq!(change_to_lock_id(&"l".to_string()), LockId("l".to_string()));
    assert_eq!(change_to_client_id(&"c".to_string()), ClientId("c".to_string()));
    assert_eq!(change_to_lease_id(&"x".to_string()), LeaseId("x".to_string()));
}

#[test]
fn api_errors() {
    let e = ApiError::not_found("no such lock");
    assert_eq!((e.error.as_str(), e.message.as_str(), e.details), ("NotFound", "no such lock", None));
    let e = ApiError::conflict("held");
    assert_eq!((e.error.as_str(), e.message.as_str(), e.details), ("Conflict", "held", None));
}

#[test]
fn acquire_results_become_bodies() {
    let granted = AcquireResponse::from_result(AcquireResult::Granted {
        lease_id: LeaseId("L".to_string()),
        expires_at: at(947_638_923_004),
    });
    match granted {
        AcquireResponse::Granted { lease_id, expires_at } => {
            assert_eq!(lease_id, "L");
            assert_eq!(expires_at, "2000-01-12T01:02:03.004+00:00");
        }
        other => panic!("unexpected {:?}", other),
    }
    let queued =
        AcquireResponse::from_result(AcquireResult::Queued { position: 2, estimated_wait: 17 });
    assert!(matches!(queued, AcquireResponse::Queued { position: 2, estimated_wait: 17 }));
    match AcquireResponse::from_result(AcquireResult::Error("boom".to_string())) {
        AcquireResponse::Error { error_type, message } => {
            assert_eq!((error_type.as_str(), message.as_str()), ("AcquireFailure", "boom"))
        }
        other => panic!("unexpected {:?}", other),
    }
}

fn release_error(result: ReleaseResult) -> (String, String) {
    match ReleaseResponse::from_result(result) {
        ReleaseResponse::Error { error_type, message } => (error_type, message),
        other => panic!("unexpected {:?}", other),
    }
}

fn renew_error(result: RenewResult) -> (String, String) {
    match RenewResponse::from_result(result) {
        RenewResponse::Error { error_type, message } => (error_type, message),
        other => panic!("unexpected {:?}", other),
    }
}

fn pair(a: &str, b: &str) -> (String, String) {
    (a.to_string(), b.to_string())
}

#[test]
fn release_results_become_bodies() {
    assert!(matches!(
        ReleaseResponse::from_result(ReleaseResult::Success),
        ReleaseResponse::Success
    ));
    assert_eq!(release_error(ReleaseResult::NotFound), pair("NotFound", "This lock does not exist"));
    assert_eq!(release_error(ReleaseResult::NotHolder), pair("NotHolder", "This lock does not exist"));
    assert_eq!(release_error(ReleaseResult::Error("x".to_string())), pair("ServerError", "x"));
}

#[test]
fn renew_results_become_bodies() {
    match RenewResponse::from_result(RenewResult::Success { new_expiry: at(60_000) }) {
        RenewResponse::Success { new_expiry } => assert_eq!(new_expiry, "1970-01-01T00:01:00+00:00"),
        other => panic!("unexpected {:?}", other),
    }
    assert_eq!(renew_error(RenewResult::Expired), pair("Expired", "Lease expired"));
    assert_eq!(renew_error(RenewResult::NotFound), pair("NotFound", "Lock not found"));
    assert_eq!(renew_error(RenewResult::NotHolder), pair("NotHolder", "Lock not Holder"));
    assert_eq!(renew_error(RenewResult::Error("x".to_string())), pair("ServerError", "x"));
}

#[test]
fn states_become_bodies() {
    assert!(matches!(StatusResponse::from_state(None), StatusResponse::NotFound));
    let free = LockState { holder: None, wait_queue: Vec::new(), created_at: at(0) };
    assert!(matches!(StatusResponse::from_state(Some(free)), StatusResponse::Free));
    let held = LockState {
        holder: Some(LockHolder {
            client_id: ClientId("c".to_string()),
            lease_id: LeaseId("L".to_string()),
            acquired_at: at(1_000),
            expires_at: at(31_000),
            renewal_count: 0,
        }),
        wait_queue: Vec::new(),
        created_at: at(500),
    };
    match StatusResponse::from_state(Some(held)) {
        StatusResponse::InUse { client_id, expires_at, lease_id, queue_length, created_at } => {
            assert_eq!(client_id, "c");
            assert_eq!(lease_id, "L");
            assert_eq!(expires_at, "1970-01-01T00:00:31+00:00");
            assert_eq!(created_at, "1970-01-01T00:00:00.500+00:00");
            assert_eq!(queue_length, 0);
        }
        other => panic!("unexpected {:?}", other),
    }
}

#[test]
fn handlers_answer_from_the_table() {
    let mut manager = InMemoryLockManager::new();
    assert!(matches!(status_handler(&manager, "lockX".to_string()), StatusResponse::NotFound));

    let request = AcquireRequest {
        lock_id: "lockX".to_string(),
        client_id: "A".to_string(),
        time_to_live: 30,
    };
    let lease = match acquire_handler(&mut manager, &request) {
        AcquireResponse::Granted { lease_id, expires_at } => {
            assert!(expires_at.ends_with("+00:00"));
            lease_id
        }
        other => panic!("unexpected {:?}", other),
    };
    let second = AcquireRequest {
        lock_id: "lockX".to_string(),
        client_id: "B".to_string(),
        time_to_live: 30,
    };
    match acquire_handler(&mut manager, &second) {
        AcquireResponse::Queued { position, estimated_wait } => {
            assert_eq!(position, 0);
            assert!(estimated_wait <= 30);
        }
        other => panic!("unexpected {:?}", other),
    }
    match status_handler(&manager, "lockX".to_string()) {
        StatusResponse::InUse { client_id, lease_id, queue_length, .. } => {
            assert_eq!(client_id, "A");
            assert_eq!(lease_id, lease);
            assert_eq!(queue_length, 1);
        }
        other => panic!("unexpected {:?}", other),
    }
    let wrong = RenewRequest {
        lock_id: "lockX".to_string(),
        client_id: "A".to_string(),
        lease_id: "wrong".to_string(),
        time_to_live: 30,
    };
    match renew_handler(&mut manager, &wrong) {
        RenewResponse::Error { error_type, .. } => assert_eq!(error_type, "NotHolder"),
        other => panic!("unexpected {:?}", other),
    }
    let right = RenewRequest {
        lock_id: "lockX".to_string(),
        client_id: "A".to_string(),
        lease_id: lease.clone(),
        time_to_live: 60,
    };
    assert!(matches!(renew_handler(&mut manager, &right), RenewResponse::Success { .. }));
    let unknown = ReleaseRequest {
        lock_id: "other".to_string(),
        lease_id: lease.clone(),
        client_id: "A".to_string(),
    };
    match release_handler(&mut manager, &unknown) {
        ReleaseResponse::Error { error_type, .. } => assert_eq!(error_type, "NotFound"),
        other => panic!("unexpected {:?}", other),
    }
    let release = ReleaseRequest {
        lock_id: "lockX".to_string(),
        lease_id: lease.clone(),
        client_id: "A".to_string(),
    };
    assert!(matches!(release_handler(&mut manager, &release), ReleaseResponse::Success));
    match status_handler(&manager, "lockX".to_string()) {
        StatusResponse::InUse { client_id, lease_id, queue_length, .. } => {
            assert_eq!(client_id, "B");
            assert_ne!(lease_id, lease);
            assert_eq!(queue_length, 0);
        }
        other => panic!("unexpected {:?}", other),
    }
}

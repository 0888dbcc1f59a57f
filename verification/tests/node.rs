use distlock::lock::types::{ClientId, LeaseId, LockId, LockManager};
use distlock::raft::correlator::{Delivery, RequestCorrelator};
use distlock::raft::node::{
    NodeConfig, RaftNode, Submission, ELECTION_TICK, HEARTBEAT_TICK, MAX_INFLIGHT_MSGS,
    MAX_SIZE_PER_MSG, TICK_INTERVAL_MILLIS,
};
use distlock::raft::raft_client::RaftClient;
use distlock::raft::raft_commands::{CommandResponse, LockCommand, Proposal};
use distlock::time::Timestamp;

fn at(millis: i64) -> Timestamp {
    Timestamp::from_millis(millis).unwrap()
}

fn acquire(request_id: u64, lock: &str, client: &str, ttl: u64, now: i64, token: &str) -> Proposal {
    Proposal {
        command: LockCommand::Acquire {
            lock_id: lock.to_string(),
            client_id: client.to_string(),
            ttl_seconds: ttl,
            request_id,
        },
        proposed_at: at(now),
        lease_token: LeaseId(token.to_string()),
    }
}

fn release(request_id: u64, lock: &str, client: &str, lease: &str, now: i64, token: &str) -> Proposal {
    Proposal {
        command: LockCommand::Release {
            request_id,
            lock_id: lock.to_string(),
            client_id: client.to_string(),
            lease_id: lease.to_string(),
        },
        proposed_at: at(now),
        lease_token: LeaseId(token.to_string()),
    }
}

fn renew(request_id: u64, lock: &str, client: &str, lease: &str, ttl: u64, now: i64) -> Proposal {
    Proposal {
        command: LockCommand::Renew {
            request_id,
            lock_id: lock.to_string(),
            client_id: client.to_string(),
            ttl_seconds: ttl,
            lease_id: lease.to_string(),
        },
        proposed_at: at(now),
        lease_token: LeaseId("unused".to_string()),
    }
}

fn error_of(response: &CommandResponse) -> (String, String) {
    match response {
        CommandResponse::Error { error_type, message } => (error_type.clone(), message.clone()),
        other => panic!("expected an error, got {:?}", other),
    }
}

#[test]
fn new_node_is_empty() {
    let node: RaftNode<&str> = RaftNode::new(3, vec![1, 2]);
    assert_eq!(node.id(), 3);
    assert_eq!(node.peers(), &vec![1, 2]);
    assert!(node.state_machine().status(&LockId("l".to_string())).is_none());
    assert_eq!(node.state_machine().default_ttl(), 30);
    assert!(!node.is_pending(1));
}

#[test]
fn config_holds_the_engine_settings() {
    let node: RaftNode<()> = RaftNode::new(7, vec![]);
    assert_eq!(
        node.config(),
        NodeConfig {
            id: 7,
            election_tick: 10,
            heartbeat_tick: 3,
            max_size_per_msg: 1024 * 1024,
            max_inflight_msgs: 256,
        }
    );
    assert_eq!(ELECTION_TICK, 10);
    assert_eq!(HEARTBEAT_TICK, 3);
    assert_eq!(MAX_SIZE_PER_MSG, 1_048_576);
    assert_eq!(MAX_INFLIGHT_MSGS, 256);
    assert_eq!(TICK_INTERVAL_MILLIS, 100);
}

#[test]
fn follower_rejects_every_proposal_with_not_leader() {
    let mut node: RaftNode<&str> = RaftNode::new(2, vec![1, 3]);
    for leader in [0u64, 1, 3, u64::MAX] {
        let decision = node.handle_command(leader, acquire(9, "l", "a", 30, 0, "T"), "caller");
        match decision {
            Submission::Rejected { delivery, leader_id } => {
                assert_eq!(leader_id, leader);
                assert_eq!(delivery.waiter, "caller");
                assert_eq!(
                    error_of(&delivery.response),
                    ("NotLeader".to_string(), "Not the leader".to_string())
                );
            }
            Submission::Accepted { .. } => panic!("a follower accepted a proposal"),
        }
        assert!(!node.is_pending(9));
        assert!(node.state_machine().status(&LockId("l".to_string())).is_none());
    }
}

#[test]
fn leader_accepts_and_registers_the_caller() {
    let mut node: RaftNode<&str> = RaftNode::new(1, vec![2, 3]);
    let decision = node.handle_command(1, acquire(5, "l", "a", 30, 1_000, "T1"), "first");
    match decision {
        Submission::Accepted { proposal, displaced } => {
            assert_eq!(proposal.command.request_id(), 5);
            assert_eq!(proposal.proposed_at.millis(), 1_000);
            assert_eq!(proposal.lease_token, LeaseId("T1".to_string()));
            assert!(displaced.is_none());
        }
        Submission::Rejected { .. } => panic!("the leader rejected a proposal"),
    }
    assert!(node.is_pending(5));
    assert!(node.state_machine().status(&LockId("l".to_string())).is_none());
    let again = node.handle_command(1, acquire(5, "l", "b", 30, 1_000, "T2"), "second");
    match again {
        Submission::Accepted { displaced, .. } => assert_eq!(displaced, Some("first")),
        Submission::Rejected { .. } => panic!("the leader rejected a proposal"),
    }
}

#[test]
fn applied_entry_answers_its_caller_once() {
    let mut node: RaftNode<&str> = RaftNode::new(1, vec![]);
    let entry = acquire(1, "l", "a", 30, 0, "T1");
    node.handle_command(1, entry.clone(), "caller");
    let delivery = node.apply_entry(&entry).expect("the caller was waiting");
    assert_eq!(delivery.waiter, "caller");
    match delivery.response {
        CommandResponse::AcquireGranted { lease_id, expires_at } => {
            assert_eq!(lease_id, "T1");
            assert_eq!(expires_at, "1970-01-01T00:00:30+00:00");
        }
        other => panic!("expected a grant, got {:?}", other),
    }
    assert!(!node.is_pending(1));
    assert!(node.apply_entry(&entry).is_none());
}

#[test]
fn entry_without_a_caller_is_applied_all_the_same() {
    let mut node: RaftNode<&str> = RaftNode::new(2, vec![1]);
    assert!(node.apply_entry(&acquire(1, "l", "a", 30, 0, "T1")).is_none());
    assert_eq!(
        node.state_machine().current_holder(&LockId("l".to_string())),
        Some(ClientId("a".to_string()))
    );
}

#[test]
fn apply_command_to_state_maps_every_outcome() {
    let mut node: RaftNode<()> = RaftNode::new(1, vec![]);
    let r = node.apply_command_to_state(&acquire(1, "l", "a", 30, 1_444, "T1"));
    match r {
        CommandResponse::AcquireGranted { lease_id, expires_at } => {
            assert_eq!(lease_id, "T1");
            assert_eq!(expires_at, "1970-01-01T00:00:31.444+00:00");
        }
        other => panic!("expected a grant, got {:?}", other),
    }
    let r = node.apply_command_to_state(&acquire(2, "l", "b", 30, 2_000, "T2"));
    assert!(matches!(r, CommandResponse::AcquireQueued { position: 0 }));
    let r = node.apply_command_to_state(&acquire(3, "m", "a", u64::MAX, 0, "T3"));
    assert_eq!(error_of(&r), ("AcquireError".to_string(), "TTL too large".to_string()));

    let r = node.apply_command_to_state(&renew(4, "l", "a", "T1", 60, 3_000));
    match r {
        CommandResponse::RenewSuccess { new_expiry } => {
            assert_eq!(new_expiry, "1970-01-01T00:01:03+00:00")
        }
        other => panic!("expected a renewal, got {:?}", other),
    }
    let r = node.apply_command_to_state(&renew(5, "l", "a", "wrong", 60, 3_000));
    assert_eq!(error_of(&r), ("NotHolder".to_string(), "Not the lock holder".to_string()));
    let r = node.apply_command_to_state(&renew(6, "nope", "a", "T1", 60, 3_000));
    assert_eq!(error_of(&r), ("NotFound".to_string(), "Lock not found".to_string()));
    let r = node.apply_command_to_state(&renew(7, "l", "a", "T1", 60, 64_000));
    assert_eq!(error_of(&r), ("Expired".to_string(), "Lock already expired".to_string()));
    let r = node.apply_command_to_state(&renew(8, "l", "a", "T1", u64::MAX, 3_000));
    assert_eq!(error_of(&r), ("RenewError".to_string(), "TTL too large".to_string()));

    let r = node.apply_command_to_state(&release(9, "nope", "a", "T1", 4_000, "T4"));
    assert_eq!(error_of(&r), ("NotFound".to_string(), "Lock not found".to_string()));
    let r = node.apply_command_to_state(&release(10, "l", "b", "T1", 4_000, "T4"));
    assert_eq!(error_of(&r), ("NotHolder".to_string(), "Not the lock holder".to_string()));
    let r = node.apply_command_to_state(&release(11, "l", "a", "T1", 253_402_300_799_999, "T4"));
    assert_eq!(error_of(&r), ("ReleaseError".to_string(), "TTL too large".to_string()));
    let r = node.apply_command_to_state(&release(12, "l", "a", "T1", 4_000, "T4"));
    assert!(matches!(r, CommandResponse::ReleaseSuccess));
    let holder =
        node.state_machine().status(&LockId("l".to_string())).unwrap().holder.unwrap();
    assert_eq!(holder.client_id, ClientId("b".to_string()));
    assert_eq!(holder.lease_id, LeaseId("T4".to_string()));
    assert_eq!(holder.expires_at.millis(), 34_000);
}

fn sample_log() -> Vec<Proposal> {
    vec![
        acquire(1, "x", "A", 30, 0, "T1"),
        acquire(2, "x", "B", 30, 100, "T2"),
        acquire(3, "y", "C", 1, 200, "T3"),
        renew(4, "x", "A", "T1", 60, 300),
        release(5, "x", "A", "T1", 400, "T5"),
        acquire(6, "y", "D", 5, 2_000, "T6"),
        renew(7, "x", "A", "T1", 60, 2_100),
        release(8, "y", "C", "T3", 2_200, "T8"),
    ]
}

fn snapshot(node: &RaftNode<u64>, lock: &str) -> String {
    format!("{:?}", node.state_machine().status(&LockId(lock.to_string())))
}

#[test]
fn replicas_that_apply_the_same_log_agree() {
    let log = sample_log();
    let mut one: RaftNode<u64> = RaftNode::new(1, vec![2]);
    let mut two: RaftNode<u64> = RaftNode::new(2, vec![1]);
    let answers_one: Vec<String> =
        log.iter().map(|e| format!("{:?}", one.apply_command_to_state(e))).collect();
    two.apply_committed(&log);
    let mut three: RaftNode<u64> = RaftNode::new(3, vec![]);
    let answers_three: Vec<String> =
        log.iter().map(|e| format!("{:?}", three.apply_command_to_state(e))).collect();
    assert_eq!(answers_one, answers_three);
    for lock in ["x", "y", "z"] {
        assert_eq!(snapshot(&one, lock), snapshot(&two, lock));
        assert_eq!(snapshot(&one, lock), snapshot(&three, lock));
    }
    let x = one.state_machine().status(&LockId("x".to_string())).unwrap();
    assert_eq!(x.holder.as_ref().unwrap().client_id, ClientId("B".to_string()));
    assert_eq!(x.holder.as_ref().unwrap().lease_id, LeaseId("T5".to_string()));
    assert_eq!(x.holder.as_ref().unwrap().expires_at.millis(), 30_400);
    let y = one.state_machine().status(&LockId("y".to_string())).unwrap();
    assert_eq!(y.holder.as_ref().unwrap().client_id, ClientId("D".to_string()));
}

#[test]
fn a_log_applied_in_parts_gives_the_same_table() {
    let log = sample_log();
    let mut whole: RaftNode<u64> = RaftNode::new(1, vec![]);
    whole.apply_committed(&log);
    let mut parts: RaftNode<u64> = RaftNode::new(1, vec![]);
    parts.apply_committed(&log[..3].to_vec());
    parts.apply_committed(&Vec::new());
    parts.apply_committed(&log[3..].to_vec());
    for lock in ["x", "y"] {
        assert_eq!(snapshot(&whole, lock), snapshot(&parts, lock));
    }
}

#[test]
fn apply_committed_answers_the_waiting_callers_in_log_order() {
    let log = sample_log();
    let mut node: RaftNode<u64> = RaftNode::new(1, vec![]);
    node.handle_command(1, log[4].clone(), 50);
    node.handle_command(1, log[1].clone(), 20);
    node.handle_command(1, log[6].clone(), 70);
    node.handle_command(1, acquire(99, "z", "Z", 1, 0, "T99"), 990);
    let deliveries: Vec<Delivery<u64>> = node.apply_committed(&log);
    let who: Vec<u64> = deliveries.iter().map(|d| d.waiter).collect();
    assert_eq!(who, vec![20, 50, 70]);
    assert!(matches!(deliveries[0].response, CommandResponse::AcquireQueued { position: 0 }));
    assert!(matches!(deliveries[1].response, CommandResponse::ReleaseSuccess));
    assert_eq!(
        error_of(&deliveries[2].response),
        ("NotHolder".to_string(), "Not the lock holder".to_string())
    );
    assert!(node.is_pending(99));
    assert!(!node.is_pending(2));
    assert!(node.apply_committed(&log[..2].to_vec()).is_empty());
}

#[test]
fn aborted_proposal_releases_its_caller_with_an_error() {
    let mut node: RaftNode<&str> = RaftNode::new(1, vec![]);
    node.handle_command(1, acquire(4, "l", "a", 30, 0, "T"), "caller");
    let delivery = node.abort_proposal(4, "log write failed".to_string()).unwrap();
    assert_eq!(delivery.waiter, "caller");
    assert_eq!(
        error_of(&delivery.response),
        ("ProposalAborted".to_string(), "log write failed".to_string())
    );
    assert!(!node.is_pending(4));
    assert!(node.abort_proposal(4, "again".to_string()).is_none());
    assert!(node.state_machine().status(&LockId("l".to_string())).is_none());
}

#[test]
fn correlator_resolves_each_request_at_most_once() {
    let mut correlator: RequestCorrelator<&str> = RequestCorrelator::new();
    assert_eq!(correlator.pending_count(), 0);
    assert!(correlator.register(1, "one").is_none());
    assert!(correlator.register(2, "two").is_none());
    assert_eq!(correlator.register(2, "two again"), Some("two"));
    assert_eq!(correlator.pending_count(), 2);
    assert!(correlator.is_pending(1));
    let delivery = correlator.resolve(1, CommandResponse::ReleaseSuccess).unwrap();
    assert_eq!(delivery.waiter, "one");
    assert!(matches!(delivery.response, CommandResponse::ReleaseSuccess));
    assert!(!correlator.is_pending(1));
    assert!(correlator.resolve(1, CommandResponse::ReleaseSuccess).is_none());
    assert!(correlator.resolve(7, CommandResponse::ReleaseSuccess).is_none());
    let aborted = correlator.abort(2, "leadership lost".to_string()).unwrap();
    assert_eq!(aborted.waiter, "two again");
    assert_eq!(
        error_of(&aborted.response),
        ("ProposalAborted".to_string(), "leadership lost".to_string())
    );
    assert!(correlator.abort(2, "leadership lost".to_string()).is_none());
    assert_eq!(correlator.pending_count(), 0);
}

#[test]
fn client_numbers_requests_from_one() {
    let mut client = RaftClient::new();
    assert_eq!(client.generate_new_index(), 1);
    assert_eq!(client.generate_new_index(), 2);
    let p = client.propose_acquire("l".to_string(), "a".to_string(), 30).unwrap();
    match &p.command {
        LockCommand::Acquire { lock_id, client_id, ttl_seconds, request_id } => {
            assert_eq!(lock_id, "l");
            assert_eq!(client_id, "a");
            assert_eq!(*ttl_seconds, 30);
            assert_eq!(*request_id, 3);
        }
        other => panic!("expected an acquire, got {:?}", other),
    }
    assert_eq!(p.lease_token.0.len(), 36);
    assert!(p.proposed_at.millis() > 1_600_000_000_000);
    let p = client.propose_renew("L".to_string(), "l".to_string(), "a".to_string(), 5).unwrap();
    match &p.command {
        LockCommand::Renew { request_id, lock_id, client_id, ttl_seconds, lease_id } => {
            assert_eq!((*request_id, *ttl_seconds), (4, 5));
            assert_eq!((lock_id.as_str(), client_id.as_str(), lease_id.as_str()), ("l", "a", "L"));
        }
        other => panic!("expected a renew, got {:?}", other),
    }
    let p = client.propose_release("L".to_string(), "l".to_string(), "a".to_string()).unwrap();
    match &p.command {
        LockCommand::Release { request_id, lock_id, client_id, lease_id } => {
            assert_eq!(*request_id, 5);
            assert_eq!((lock_id.as_str(), client_id.as_str(), lease_id.as_str()), ("l", "a", "L"));
        }
        other => panic!("expected a release, got {:?}", other),
    }
    assert_eq!(p.command.request_id(), 5);
}

#[test]
fn stamping_needs_an_instant() {
    let command = LockCommand::Release {
        request_id: 1,
        lock_id: "l".to_string(),
        client_id: "a".to_string(),
        lease_id: "L".to_string(),
    };
    let ok = Proposal::stamped(command.clone(), Some(at(5)), LeaseId("T".to_string())).unwrap();
    assert_eq!(ok.proposed_at.millis(), 5);
    assert_eq!(ok.lease_token, LeaseId("T".to_string()));
    assert_eq!(ok.command.request_id(), 1);
    let err = Proposal::stamped(command, None, LeaseId("T".to_string())).unwrap_err();
    assert_eq!(err, "clock out of range");
}

#[test]
fn end_to_end_through_client_and_leader() {
    let mut client = RaftClient::new();
    let mut leader: RaftNode<&str> = RaftNode::new(1, vec![2]);
    let mut follower: RaftNode<&str> = RaftNode::new(2, vec![1]);
    let mut log: Vec<Proposal> = Vec::new();

    let a = client.propose_acquire("lockX".to_string(), "A".to_string(), 30).unwrap();
    let token_a = a.lease_token.0.clone();
    match leader.handle_command(1, a, "A waits") {
        Submission::Accepted { proposal, .. } => log.push(proposal),
        Submission::Rejected { .. } => panic!("the leader rejected"),
    }
    let b = client.propose_acquire("lockX".to_string(), "B".to_string(), 30).unwrap();
    match leader.handle_command(1, b, "B waits") {
        Submission::Accepted { proposal, .. } => log.push(proposal),
        Submission::Rejected { .. } => panic!("the leader rejected"),
    }
    let r = client.propose_release(token_a.clone(), "lockX".to_string(), "A".to_string()).unwrap();
    let token_next = r.lease_token.0.clone();
    match leader.handle_command(1, r, "A waits again") {
        Submission::Accepted { proposal, .. } => log.push(proposal),
        Submission::Rejected { .. } => panic!("the leader rejected"),
    }

    let deliveries = leader.apply_committed(&log);
    assert_eq!(deliveries.len(), 3);
    assert!(matches!(deliveries[0].response, CommandResponse::AcquireGranted { .. }));
    assert!(matches!(deliveries[1].response, CommandResponse::AcquireQueued { position: 0 }));
    assert!(matches!(deliveries[2].response, CommandResponse::ReleaseSuccess));
    assert!(follower.apply_committed(&log).is_empty());

    for node in [&leader, &follower] {
        let holder =
            node.state_machine().status(&LockId("lockX".to_string())).unwrap().holder.unwrap();
        assert_eq!(holder.client_id, ClientId("B".to_string()));
        assert_eq!(holder.lease_id.0, token_next);
        assert_ne!(holder.lease_id.0, token_a);
    }
}

#[test]
fn pending_ids_lists_each_waiting_request_once() {
    let mut correlator: RequestCorrelator<&str> = RequestCorrelator::new();
    assert!(correlator.pending_ids().is_empty());
    correlator.register(7, "seven");
    correlator.register(3, "three");
    correlator.register(7, "seven again");
    correlator.register(11, "eleven");
    let mut ids = correlator.pending_ids();
    ids.sort();
    assert_eq!(ids, vec![3, 7, 11]);
}

#[test]
fn abort_all_releases_every_caller_once() {
    let mut correlator: RequestCorrelator<u64> = RequestCorrelator::new();
    for id in [5u64, 1, 9, 2] {
        correlator.register(id, id * 10);
    }
    let deliveries = correlator.abort_all(&"shutting down".to_string());
    let mut who: Vec<u64> = deliveries.iter().map(|d| d.waiter).collect();
    who.sort();
    assert_eq!(who, vec![10, 20, 50, 90]);
    for delivery in &deliveries {
        assert_eq!(
            error_of(&delivery.response),
            ("ProposalAborted".to_string(), "shutting down".to_string())
        );
    }
    assert_eq!(correlator.pending_count(), 0);
    assert!(correlator.abort_all(&"again".to_string()).is_empty());
}

#[test]
fn losing_leadership_aborts_what_is_in_flight() {
    let mut node: RaftNode<u64> = RaftNode::new(1, vec![2, 3]);
    node.handle_command(1, acquire(1, "l", "a", 30, 0, "T1"), 10);
    node.handle_command(1, acquire(2, "l", "b", 30, 0, "T2"), 20);
    assert!(node.leadership_changed(1).is_empty());
    assert!(node.is_pending(1) && node.is_pending(2));
    let deliveries = node.leadership_changed(2);
    let mut who: Vec<u64> = deliveries.iter().map(|d| d.waiter).collect();
    who.sort();
    assert_eq!(who, vec![10, 20]);
    for delivery in &deliveries {
        assert_eq!(
            error_of(&delivery.response),
            ("ProposalAborted".to_string(), "leadership lost".to_string())
        );
    }
    assert!(!node.is_pending(1) && !node.is_pending(2));
    assert!(node.leadership_changed(0).is_empty());
    assert!(node.state_machine().status(&LockId("l".to_string())).is_none());
}

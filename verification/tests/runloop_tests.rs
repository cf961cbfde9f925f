use std::collections::VecDeque;

use sha2::{Digest, Sha256};
use stacks_signer::auth::signable_bytes;
use stacks_signer::client::{ClientError, StacksClient};
use stacks_signer::codec::encode_packet;
use stacks_signer::config::{engine_config, Config};
use stacks_signer::engine::{CoordinatorEngine, EngineError, ParticipantEngine};
use stacks_signer::messages::{Message, OperationResult, Packet};
use stacks_signer::registry::{PublicKey, PublicKeys};
use stacks_signer::runloop::{
    RunLoop, RunLoopCommand, StackerDBChunksEvent, State, COMMAND_START_ATTEMPTS,
};

fn test_key(secret: u32) -> PublicKey {
    let scalar = p256k1::scalar::Scalar::from(secret);
    let key = p256k1::ecdsa::PublicKey::new(&scalar).expect("a nonzero secret makes a key");
    PublicKey { bytes: key.to_bytes().to_vec() }
}

/// Sign the packet's signable form (kind, claimed sender, digest) with the
/// given secret, as an honest sender would, and encode it as one board slot.
fn signed_slot(msg: Message, digest_byte: u8, secret: u32) -> Vec<u8> {
    let digest = vec![digest_byte; 32];
    let hash = Sha256::digest(&signable_bytes(&msg, &digest)).to_vec();
    let scalar = p256k1::scalar::Scalar::from(secret);
    let sig = p256k1::ecdsa::Signature::new(&hash, &scalar)
        .expect("signing a digest works")
        .to_bytes()
        .to_vec();
    encode_packet(&Packet { msg, payload_digest: digest, sig })
}

fn registry3() -> PublicKeys {
    PublicKeys {
        signers: vec![(0, test_key(7)), (1, test_key(11)), (2, test_key(13))],
    }
}

/// A coordinator engine scripted from outside: it can be told to fail the
/// next few starts, records what it is fed, and hands out queued results
/// when fed a non-empty batch.
struct ScriptedCoordinator {
    fail_starts_remaining: usize,
    start_calls: usize,
    reset_calls: usize,
    pending_results: Vec<OperationResult>,
    seen: Vec<Packet>,
    key: Option<PublicKey>,
}

impl ScriptedCoordinator {
    fn new() -> Self {
        ScriptedCoordinator {
            fail_starts_remaining: 0,
            start_calls: 0,
            reset_calls: 0,
            pending_results: Vec::new(),
            seen: Vec::new(),
            key: None,
        }
    }
}

impl CoordinatorEngine for ScriptedCoordinator {
    fn start_distributed_key_generation(&mut self) -> Result<Packet, EngineError> {
        self.start_calls += 1;
        if self.fail_starts_remaining > 0 {
            self.fail_starts_remaining -= 1;
            return Err(EngineError);
        }
        Ok(Packet { msg: Message::DkgBegin, payload_digest: vec![0u8; 32], sig: Vec::new() })
    }

    fn start_signing_message(
        &mut self,
        _message: &Vec<u8>,
        _is_taproot: bool,
        _merkle_root: &Option<Vec<u8>>,
    ) -> Result<Packet, EngineError> {
        self.start_calls += 1;
        if self.fail_starts_remaining > 0 {
            self.fail_starts_remaining -= 1;
            return Err(EngineError);
        }
        Ok(Packet { msg: Message::NonceRequest, payload_digest: vec![1u8; 32], sig: Vec::new() })
    }

    fn reset(&mut self) {
        self.reset_calls += 1;
    }

    fn get_aggregate_public_key(&self) -> Option<&PublicKey> {
        self.key.as_ref()
    }

    fn set_aggregate_public_key(&mut self, key: Option<PublicKey>) {
        self.key = key;
    }

    fn process_inbound_messages(
        &mut self,
        messages: &Vec<Packet>,
    ) -> Result<(Vec<Packet>, Vec<OperationResult>), EngineError> {
        if messages.is_empty() {
            return Ok((Vec::new(), Vec::new()));
        }
        for m in messages {
            self.seen.push(m.clone());
        }
        let results = std::mem::take(&mut self.pending_results);
        Ok((Vec::new(), results))
    }
}

/// A participant engine that records what it is fed and answers a non-empty
/// batch with one echo message per packet.
struct RecordingParticipant {
    seen: Vec<Packet>,
}

impl RecordingParticipant {
    fn new() -> Self {
        RecordingParticipant { seen: Vec::new() }
    }
}

impl ParticipantEngine for RecordingParticipant {
    fn process_inbound_messages(&mut self, messages: &Vec<Packet>) -> Result<
        Vec<Packet>,
        EngineError,
    > {
        let mut outbound = Vec::new();
        for m in messages {
            self.seen.push(m.clone());
            outbound.push(Packet {
                msg: Message::DkgEnd { signer_id: 0 },
                payload_digest: m.payload_digest.clone(),
                sig: Vec::new(),
            });
        }
        Ok(outbound)
    }
}

/// A ledger-and-transport stand-in with scripted answers that counts the
/// vote casts and keeps what was sent.
struct CountingClient {
    chain_key: Result<Option<PublicKey>, ClientError>,
    recorded_vote: Result<Option<PublicKey>, ClientError>,
    cast_calls: usize,
    sent: Vec<Packet>,
}

impl CountingClient {
    fn new() -> Self {
        CountingClient {
            chain_key: Ok(None),
            recorded_vote: Ok(None),
            cast_calls: 0,
            sent: Vec::new(),
        }
    }
}

impl StacksClient for CountingClient {
    fn get_aggregate_public_key(&mut self) -> Result<Option<PublicKey>, ClientError> {
        self.chain_key.clone()
    }

    fn get_aggregate_public_key_vote(&mut self) -> Result<Option<PublicKey>, ClientError> {
        self.recorded_vote.clone()
    }

    fn cast_aggregate_public_key_vote(&mut self, _key: PublicKey) -> Result<(), ClientError> {
        self.cast_calls += 1;
        Ok(())
    }

    fn send_message(&mut self, _id: u32, message: Packet) -> Result<(), ClientError> {
        self.sent.push(message);
        Ok(())
    }
}

fn test_runloop() -> RunLoop<ScriptedCoordinator, RecordingParticipant, CountingClient> {
    RunLoop {
        event_timeout: 5000,
        coordinator: ScriptedCoordinator::new(),
        signing_round: RecordingParticipant::new(),
        stacks_client: CountingClient::new(),
        commands: VecDeque::new(),
        state: State::Idle,
        signer_id: 0,
        public_keys: registry3(),
    }
}

fn sign_command() -> RunLoopCommand {
    RunLoopCommand::Sign { message: vec![1, 2, 3], is_taproot: false, merkle_root: None }
}

/// A participant engine whose processing always fails.
struct FailingParticipant;

impl ParticipantEngine for FailingParticipant {
    fn process_inbound_messages(&mut self, _messages: &Vec<Packet>) -> Result<
        Vec<Packet>,
        EngineError,
    > {
        Err(EngineError)
    }
}

#[test]
fn empty_batch_produces_nothing() {
    let mut rl = test_runloop();
    let event = StackerDBChunksEvent { modified_slots: Vec::new() };
    let (outbound, results) = rl.process_event(&event);
    assert!(outbound.is_empty());
    assert!(results.is_empty());
    assert_eq!(rl.state, State::Idle);
}

#[test]
fn participant_engine_failure_is_absorbed() {
    let mut rl = RunLoop {
        event_timeout: 5000,
        coordinator: ScriptedCoordinator::new(),
        signing_round: FailingParticipant,
        stacks_client: CountingClient::new(),
        commands: VecDeque::new(),
        state: State::Idle,
        signer_id: 0,
        public_keys: registry3(),
    };
    let event = StackerDBChunksEvent {
        modified_slots: vec![signed_slot(Message::DkgBegin, 42, 7)],
    };
    // The engine failure yields an empty outbound list, not a hard error;
    // the tick carries on and the coordinator engine still sees the batch.
    let (outbound, results) = rl.process_event(&event);
    assert!(outbound.is_empty());
    assert!(results.is_empty());
    assert_eq!(rl.coordinator.seen.len(), 1);
}

#[test]
fn invalid_batch_produces_nothing_and_keeps_state() {
    let mut rl = test_runloop();
    rl.state = State::Dkg;
    let event = StackerDBChunksEvent {
        modified_slots: vec![
            // Undecodable garbage.
            vec![1, 2, 3],
            // Well-formed, but signed with the wrong key.
            signed_slot(Message::DkgBegin, 42, 11),
            // Well-formed, but the claimed sender did not sign it.
            signed_slot(Message::NonceResponse { signer_id: 1 }, 43, 13),
        ],
    };
    let (outbound, results) = rl.process_event(&event);
    assert!(outbound.is_empty());
    assert!(results.is_empty());
    assert_eq!(rl.state, State::Dkg);
    assert!(rl.signing_round.seen.is_empty());
    assert!(rl.coordinator.seen.is_empty());
}

#[test]
fn mixed_batch_feeds_engines_only_the_authenticated_message() {
    let mut rl = test_runloop();
    let good = signed_slot(Message::DkgBegin, 42, 7);
    let bad = signed_slot(Message::NonceResponse { signer_id: 1 }, 43, 13);
    let event = StackerDBChunksEvent { modified_slots: vec![good, bad] };
    let (outbound, results) = rl.process_event(&event);
    // The one authenticated DkgBegin reached both engines (this node, id 0,
    // is the elected coordinator); the forged NonceResponse reached neither.
    assert_eq!(rl.signing_round.seen.len(), 1);
    assert!(matches!(rl.signing_round.seen[0].msg, Message::DkgBegin));
    assert_eq!(rl.coordinator.seen.len(), 1);
    assert!(matches!(rl.coordinator.seen[0].msg, Message::DkgBegin));
    assert_eq!(outbound.len(), 1);
    assert!(results.is_empty());
}

#[test]
fn non_coordinator_never_consults_coordinator_engine() {
    let mut rl = test_runloop();
    rl.signer_id = 1;
    let event = StackerDBChunksEvent {
        modified_slots: vec![signed_slot(Message::DkgBegin, 42, 7)],
    };
    let (outbound, results) = rl.process_event(&event);
    assert_eq!(rl.signing_round.seen.len(), 1);
    assert!(rl.coordinator.seen.is_empty());
    assert_eq!(outbound.len(), 1);
    assert!(results.is_empty());
}

#[test]
fn command_issued_while_running_is_queued_not_started() {
    let mut rl = test_runloop();
    rl.state = State::Dkg;
    // The engines already hold a key, so the DKG check cannot trigger either.
    rl.coordinator.key = Some(test_key(5));
    let r = rl.run_one_pass(None, Some(sign_command()));
    assert!(r.is_none());
    assert_eq!(rl.state, State::Dkg);
    assert_eq!(rl.commands.len(), 1);
    assert_eq!(rl.commands[0], sign_command());
    assert_eq!(rl.coordinator.start_calls, 0);
}

#[test]
fn executor_retries_failed_start_without_losing_the_command() {
    let mut rl = test_runloop();
    rl.coordinator.fail_starts_remaining = 2;
    rl.commands.push_back(RunLoopCommand::Dkg);
    rl.process_next_command();
    // Two failures, then success: exactly three calls, the command is gone,
    // the round is running, and each failure reset the engine.
    assert_eq!(rl.coordinator.start_calls, 3);
    assert_eq!(rl.coordinator.reset_calls, 2);
    assert!(rl.commands.is_empty());
    assert_eq!(rl.state, State::Dkg);
    assert_eq!(rl.stacks_client.sent.len(), 1);
}

#[test]
fn executor_yields_slot_after_bounded_attempts_and_keeps_command_in_place() {
    let mut rl = test_runloop();
    rl.coordinator.fail_starts_remaining = usize::MAX;
    rl.commands.push_back(RunLoopCommand::Dkg);
    rl.commands.push_back(sign_command());
    rl.process_next_command();
    assert_eq!(rl.coordinator.start_calls, COMMAND_START_ATTEMPTS);
    assert_eq!(rl.state, State::Idle);
    // The failed command is back at the front, not dropped, not re-ordered.
    assert_eq!(rl.commands.len(), 2);
    assert_eq!(rl.commands[0], RunLoopCommand::Dkg);
    assert_eq!(rl.commands[1], sign_command());
}

#[test]
fn recorded_vote_means_no_further_cast() {
    let mut rl = test_runloop();
    rl.coordinator.key = Some(test_key(5));
    rl.stacks_client.chain_key = Ok(None);
    rl.stacks_client.recorded_vote = Ok(Some(test_key(5)));
    let triggered = rl.should_run_dkg();
    assert!(!triggered);
    assert_eq!(rl.stacks_client.cast_calls, 0);
}

#[test]
fn unrecorded_vote_is_cast_once_per_tick() {
    let mut rl = test_runloop();
    rl.coordinator.key = Some(test_key(5));
    rl.stacks_client.chain_key = Ok(None);
    rl.stacks_client.recorded_vote = Ok(None);
    let triggered = rl.should_run_dkg();
    assert!(!triggered);
    assert_eq!(rl.stacks_client.cast_calls, 1);
}

#[test]
fn liaison_runs_only_on_the_elected_coordinator() {
    let mut rl = test_runloop();
    rl.signer_id = 2;
    rl.coordinator.key = Some(test_key(5));
    rl.stacks_client.chain_key = Ok(None);
    rl.stacks_client.recorded_vote = Ok(None);
    // A non-elected node leaves voting to the coordinator.
    assert!(!rl.should_run_dkg());
    assert_eq!(rl.stacks_client.cast_calls, 0);
}

#[test]
fn chain_key_already_recorded_means_no_vote_traffic() {
    let mut rl = test_runloop();
    rl.coordinator.key = Some(test_key(5));
    rl.stacks_client.chain_key = Ok(Some(test_key(5)));
    rl.stacks_client.recorded_vote = Ok(None);
    let triggered = rl.should_run_dkg();
    assert!(!triggered);
    assert_eq!(rl.stacks_client.cast_calls, 0);
}

#[test]
fn completed_round_returns_results_and_lets_next_command_start() {
    let mut rl = test_runloop();
    rl.state = State::Dkg;
    rl.coordinator.key = Some(test_key(5));
    rl.stacks_client.chain_key = Ok(Some(test_key(5)));
    rl.commands.push_back(sign_command());
    rl.coordinator.pending_results = vec![OperationResult::Dkg(test_key(5))];
    let event = StackerDBChunksEvent {
        modified_slots: vec![signed_slot(Message::DkgEnd { signer_id: 1 }, 44, 11)],
    };
    let r = rl.run_one_pass(Some(event), None);
    let results = r.expect("the completed round's results are returned");
    assert_eq!(results, vec![OperationResult::Dkg(test_key(5))]);
    // The round completion returned the state to idle, so the queued Sign
    // command started within the same tick.
    assert_eq!(rl.state, State::Sign);
    assert!(rl.commands.is_empty());
}

#[test]
fn completed_round_with_empty_queue_leaves_node_idle() {
    let mut rl = test_runloop();
    rl.state = State::Sign;
    rl.coordinator.key = Some(test_key(5));
    rl.stacks_client.chain_key = Ok(Some(test_key(5)));
    rl.coordinator.pending_results = vec![OperationResult::Sign(vec![9, 9])];
    let event = StackerDBChunksEvent {
        modified_slots: vec![signed_slot(Message::DkgEnd { signer_id: 2 }, 45, 13)],
    };
    let r = rl.run_one_pass(Some(event), None);
    assert!(r.is_some());
    assert_eq!(rl.state, State::Idle);
}

#[test]
fn dkg_check_does_not_enqueue_twice() {
    let mut rl = test_runloop();
    rl.commands.push_back(RunLoopCommand::Dkg);
    // No group key anywhere, this node is the elected coordinator, yet a Dkg
    // command already heads the queue: the check must not trigger.
    assert!(!rl.should_run_dkg());
    assert_eq!(rl.commands.len(), 1);
}

#[test]
fn dkg_check_triggers_for_idle_coordinator_without_key() {
    let mut rl = test_runloop();
    assert!(rl.should_run_dkg());
    // A non-coordinator node never triggers.
    let mut other = test_runloop();
    other.signer_id = 2;
    assert!(!other.should_run_dkg());
}

#[test]
fn dkg_check_enqueues_at_the_tail() {
    let mut rl = test_runloop();
    // Starts must fail, or the tick would consume the queue.
    rl.coordinator.fail_starts_remaining = usize::MAX;
    let r = rl.run_one_pass(None, Some(sign_command()));
    assert!(r.is_none());
    // The operator's command stays ahead of the self-queued Dkg.
    assert_eq!(rl.commands.len(), 2);
    assert_eq!(rl.commands[0], sign_command());
    assert_eq!(rl.commands[1], RunLoopCommand::Dkg);
}

#[test]
fn outbound_messages_are_broadcast() {
    let mut rl = test_runloop();
    let event = StackerDBChunksEvent {
        modified_slots: vec![signed_slot(Message::DkgBegin, 42, 7)],
    };
    let r = rl.run_one_pass(Some(event), None);
    assert!(r.is_none());
    // The participant engine's echo went out through the client.
    assert!(rl.stacks_client.sent.iter().any(|p| matches!(p.msg, Message::DkgEnd { .. })));
}

#[test]
fn event_timeout_is_settable_and_gettable() {
    let mut rl = test_runloop();
    assert_eq!(rl.get_event_timeout(), 5000);
    rl.set_event_timeout(120);
    assert_eq!(rl.get_event_timeout(), 120);
}

#[test]
fn new_runloop_loads_ledger_key_and_starts_idle() {
    let mut client = CountingClient::new();
    client.chain_key = Ok(Some(test_key(5)));
    let rl = RunLoop::new(
        ScriptedCoordinator::new(),
        RecordingParticipant::new(),
        client,
        0,
        registry3(),
        5000,
    )
    .expect("a reachable ledger lets the node start");
    assert_eq!(rl.state, State::Idle);
    assert!(rl.commands.is_empty());
    assert_eq!(rl.coordinator.key, Some(test_key(5)));
}

#[test]
fn new_runloop_fails_fast_when_ledger_is_unreachable() {
    let mut client = CountingClient::new();
    client.chain_key = Err(ClientError);
    let r = RunLoop::new(
        ScriptedCoordinator::new(),
        RecordingParticipant::new(),
        client,
        0,
        registry3(),
        5000,
    );
    assert!(r.is_err());
}

#[test]
fn engine_config_derives_threshold_totals_and_shifted_key_ids() {
    let config = Config {
        signer_id: 1,
        public_keys: registry3(),
        key_ids: (1..=10).collect(),
        signer_key_ids: vec![(0, vec![1, 2, 3]), (1, vec![4, 5])],
        event_timeout: 5000,
    };
    let params = engine_config(&config);
    assert_eq!(params.threshold, 7);
    assert_eq!(params.total_signers, 3);
    assert_eq!(params.total_keys, 10);
    assert_eq!(params.key_ids, vec![3, 4]);
}

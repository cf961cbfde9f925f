use std::collections::VecDeque;

use vstd::prelude::*;

use crate::auth::{spec_verify_msg, verify_msg};
use crate::client::{ClientError, StacksClient};
use crate::codec::{decode_packet, spec_decode};
use crate::engine::{CoordinatorEngine, EngineError, ParticipantEngine};
use crate::messages::{OperationResult, Packet, PacketView};
use crate::registry::{calculate_coordinator, spec_calculate_coordinator, PublicKey, PublicKeys};

verus! {

/// Which operation to perform
#[derive(Clone, Debug, PartialEq, Eq)]
pub enum RunLoopCommand {
    /// Generate a DKG aggregate public key
    Dkg,
    /// Sign a message
    Sign {
        /// The bytes to sign
        message: Vec<u8>,
        /// Whether to make a taproot signature
        is_taproot: bool,
        /// Taproot merkle root
        merkle_root: Option<Vec<u8>>,
    },
}

/// The RunLoop state: at most one round is in flight at a time, and commands
/// are started only while idle.
#[derive(PartialEq, Eq, Structural, Clone, Copy, Debug)]
pub enum State {
    /// The runloop is idle
    Idle,
    /// The runloop is executing a DKG round
    Dkg,
    /// The runloop is executing a signing round
    Sign,
}

/// One inbound batch from the message board: the raw bytes of each modified
/// slot, each independently decoded as one protocol message.
pub struct StackerDBChunksEvent {
    /// The raw slot contents
    pub modified_slots: Vec<Vec<u8>>,
}

/// How many times one tick retries a failed round start before yielding its
/// scheduler slot. The command then stays at the front of the queue and the
/// next tick retries it, so a failed start is never dropped, while a
/// persistently failing start cannot spin the node forever.
pub const COMMAND_START_ATTEMPTS: usize = 8;

/// Whether a Dkg command is at the front of the queue.
pub open spec fn spec_front_is_dkg(commands: Seq<RunLoopCommand>) -> bool {
    commands.len() > 0 && commands[0] is Dkg
}

/// The key every honest participant verifies coordinator-issued messages
/// against: the elected coordinator's registered key.
pub open spec fn spec_coordinator_key(keys: PublicKeys) -> Seq<u8> {
    match keys.spec_key_of(0) {
        Some(k) => k,
        None => Seq::empty(),
    }
}

/// What one raw slot contributes to the authenticated inbound batch: its
/// decoded packet if it decodes and authenticates, nothing otherwise.
pub open spec fn spec_slot_accepted(
    slot: Seq<u8>,
    keys: PublicKeys,
    coordinator_key: Seq<u8>,
) -> Option<PacketView> {
    match spec_decode(slot) {
        Some(p) => if spec_verify_msg(p, keys, coordinator_key) {
            Some(p)
        } else {
            None
        },
        None => None,
    }
}

/// The authenticated packets of a batch, in board order: exactly the slots
/// that decode and authenticate, decoded.
pub open spec fn spec_filter_slots(
    slots: Seq<Vec<u8>>,
    keys: PublicKeys,
    coordinator_key: Seq<u8>,
) -> Seq<PacketView>
    decreases slots.len(),
{
    if slots.len() == 0 {
        Seq::empty()
    } else {
        (match spec_slot_accepted(slots[0]@, keys, coordinator_key) {
            Some(p) => seq![p],
            None => Seq::empty(),
        }) + spec_filter_slots(slots.skip(1), keys, coordinator_key)
    }
}

/// Steps 1 and 2 of the event pipeline: decode every raw entry of the batch
/// and keep exactly those messages that authenticate. Entries that fail to
/// decode are silently dropped; messages that fail authentication are
/// dropped before any engine can see them.
pub fn filter_valid_messages(
    slots: &Vec<Vec<u8>>,
    public_keys: &PublicKeys,
    coordinator_public_key: &PublicKey,
) -> (r: Vec<Packet>)
    ensures
        r@.map_values(|p: Packet| p@) == spec_filter_slots(
            slots@,
            *public_keys,
            coordinator_public_key@,
        ),
{
    let mut r: Vec<Packet> = Vec::new();
    let mut i: usize = 0;
    proof {
        assert(slots@.skip(0) =~= slots@);
        assert(r@.map_values(|p: Packet| p@) =~= Seq::<PacketView>::empty());
    }
    while i < slots.len()
        invariant
            0 <= i <= slots@.len(),
            spec_filter_slots(slots@, *public_keys, coordinator_public_key@) == r@.map_values(
                |p: Packet| p@,
            ) + spec_filter_slots(slots@.skip(i as int), *public_keys, coordinator_public_key@),
        decreases slots@.len() - i,
    {
        proof {
            assert(slots@.skip(i as int)[0] == slots@[i as int]);
            assert(slots@.skip(i as int).skip(1) =~= slots@.skip(i + 1));
        }
        let ghost prev = r@.map_values(|p: Packet| p@);
        match decode_packet(&slots[i]) {
            Some(packet) => {
                if verify_msg(&packet, public_keys, coordinator_public_key) {
                    r.push(packet);
                    proof {
                        assert(r@.map_values(|p: Packet| p@) =~= prev.push(packet@));
                        assert(prev.push(packet@) + spec_filter_slots(
                            slots@.skip(i + 1),
                            *public_keys,
                            coordinator_public_key@,
                        ) =~= prev + (seq![packet@] + spec_filter_slots(
                            slots@.skip(i + 1),
                            *public_keys,
                            coordinator_public_key@,
                        )));
                    }
                }
            },
            None => {},
        }
        i = i + 1;
    }
    proof {
        assert(slots@.skip(slots@.len() as int) =~= Seq::<Vec<u8>>::empty());
    }
    r
}

/// A batch whose every slot fails to decode or to authenticate contributes
/// nothing: the authenticated inbound batch is empty. In particular a batch
/// carrying only invalid signatures yields no outbound messages and no
/// results through the event pipeline.
pub proof fn lemma_all_rejected_filter_empty(
    slots: Seq<Vec<u8>>,
    keys: PublicKeys,
    coordinator_key: Seq<u8>,
)
    requires
        forall|i: int|
            0 <= i < slots.len() ==> spec_slot_accepted(
                #[trigger] slots[i]@,
                keys,
                coordinator_key,
            ) is None,
    ensures
        spec_filter_slots(slots, keys, coordinator_key).len() == 0,
    decreases slots.len(),
{
    if slots.len() > 0 {
        assert(spec_slot_accepted(slots[0]@, keys, coordinator_key) is None);
        assert forall|i: int| 0 <= i < slots.skip(1).len() implies spec_slot_accepted(
            #[trigger] slots.skip(1)[i]@,
            keys,
            coordinator_key,
        ) is None by {
            assert(slots.skip(1)[i] == slots[i + 1]);
        }
        lemma_all_rejected_filter_empty(slots.skip(1), keys, coordinator_key);
    }
}

/// The vote liaison's decision: this node casts a vote only when none of its
/// own is recorded yet, so a recorded vote is never cast again.
pub fn should_cast_vote(recorded_vote: &Option<PublicKey>) -> (r: bool)
    ensures
        r == (recorded_vote is None),
{
    recorded_vote.is_none()
}

/// The vote liaison's ledger gate: liaison goes on (and this node's vote is
/// then consulted) unless the chain already shows a group key. A failed
/// read goes on too — the next tick retries. Together with
/// `should_cast_vote` this makes the whole decision: a vote is cast when and
/// only when the chain shows no key and no vote of this node is recorded.
pub fn liaison_chain_gate(chain_key: &Result<Option<PublicKey>, ClientError>) -> (r: bool)
    ensures
        r == (match *chain_key {
            Ok(Some(_)) => false,
            _ => true,
        }),
{
    !matches!(chain_key, Ok(Some(_)))
}

/// The executor's judgement of the engine's round-start answer: an opened
/// round yields the start message to broadcast and success; an engine
/// failure yields no message and failure. The broadcast acknowledgement
/// plays no part in it.
pub fn start_outcome(answer: Result<Packet, EngineError>) -> (out: (bool, Option<Packet>))
    ensures
        match answer {
            Ok(m) => out.0 == true && out.1 == Some(m),
            Err(_) => out.0 == false && out.1 is None,
        },
{
    match answer {
        Ok(m) => (true, Some(m)),
        Err(_) => (false, None),
    }
}

/// The DKG-requirement decision, over exactly what the check reads: a new
/// DKG is required when and only when the node is idle, the engines hold no
/// group key yet, this node is the elected coordinator, and a Dkg command is
/// not already queued at the front.
pub fn dkg_trigger(idle: bool, engine_has_key: bool, is_coordinator: bool, front_is_dkg: bool) -> (r:
    bool)
    ensures
        r == (idle && !engine_has_key && is_coordinator && !front_is_dkg),
{
    idle && !engine_has_key && is_coordinator && !front_is_dkg
}

/// The participant engine's contribution to the outbound batch: its answer
/// when it had one, and no messages on an engine failure, which is absorbed
/// rather than raised.
pub fn participant_contribution(answer: Result<Vec<Packet>, EngineError>) -> (out: Vec<Packet>)
    ensures
        match answer {
            Ok(v) => out == v,
            Err(_) => out@.len() == 0,
        },
{
    match answer {
        Ok(v) => v,
        Err(_) => Vec::new(),
    }
}

/// The coordinator engine's contribution to the pass: its messages and
/// results when it had them, and nothing on an engine failure, which is
/// absorbed rather than raised.
pub fn coordinator_contribution(
    answer: Result<(Vec<Packet>, Vec<OperationResult>), EngineError>,
) -> (out: (Vec<Packet>, Vec<OperationResult>))
    ensures
        match answer {
            Ok(v) => out == v,
            Err(_) => out.0@.len() == 0 && out.1@.len() == 0,
        },
{
    match answer {
        Ok(v) => v,
        Err(_) => (Vec::new(), Vec::new()),
    }
}

/// The queues one tick's executor can start from: the commands it began
/// with, the arrived command (if any) appended at the tail, and at most one
/// self-queued Dkg appended after it. Nothing else ever grows the queue in
/// a pass.
pub open spec fn spec_tick_queue(
    base: Seq<RunLoopCommand>,
    cmd: Option<RunLoopCommand>,
    q: Seq<RunLoopCommand>,
) -> bool {
    let with_cmd = base + (match cmd {
        Some(c) => seq![c],
        None => Seq::<RunLoopCommand>::empty(),
    });
    q == with_cmd || q == with_cmd + seq![RunLoopCommand::Dkg]
}

/// The executor removed the front command of `q` by starting it: the queue
/// lost exactly its front, in order, and the state matches the started
/// command.
pub open spec fn spec_front_started(
    q: Seq<RunLoopCommand>,
    commands: Seq<RunLoopCommand>,
    state: State,
) -> bool {
    q.len() > 0 && commands == q.drop_first() && ((q[0] is Dkg && state is Dkg) || (q[0] is Sign
        && state is Sign))
}

/// What one executor slot can do to the queue `q` it starts from: leave it
/// whole, or remove exactly its front by a successful start.
pub open spec fn spec_slot_outcome(
    q: Seq<RunLoopCommand>,
    commands: Seq<RunLoopCommand>,
    state: State,
) -> bool {
    commands == q || spec_front_started(q, commands, state)
}

/// The runloop for the stacks signer: the per-node orchestration state
/// machine that turns inbound message batches and operator commands into
/// engine dispatch, round sequencing and result propagation.
pub struct RunLoop<C, P, S> {
    /// The timeout for events, in milliseconds; the caller owns the wait
    pub event_timeout: u64,
    /// The coordinator engine for inbound messages
    pub coordinator: C,
    /// The participant engine that runs this node's share of every round
    pub signing_round: P,
    /// The stacks client: transport and ledger
    pub stacks_client: S,
    /// Received commands that need to be processed
    pub commands: VecDeque<RunLoopCommand>,
    /// The current state
    pub state: State,
    /// This node's participant id
    pub signer_id: u32,
    /// The participant registry, fixed for the node's lifetime
    pub public_keys: PublicKeys,
}

impl<C: CoordinatorEngine, P: ParticipantEngine, S: StacksClient> RunLoop<C, P, S> {
    /// The registry is a well-formed mapping (each participant id once) and
    /// knows participant 0, so a coordinator can be elected.
    pub open spec fn wf(self) -> bool {
        self.public_keys.wf() && self.public_keys.spec_key_of(0) is Some
    }

    /// Assemble a run loop around its engines and client, and load the
    /// initial group-key view from the ledger into the coordinator engine.
    /// Failure of that first fetch is a startup error: the node cannot judge
    /// round-readiness without it.
    pub fn new(
        coordinator: C,
        signing_round: P,
        stacks_client: S,
        signer_id: u32,
        public_keys: PublicKeys,
        event_timeout: u64,
    ) -> (r: Result<Self, ClientError>)
        requires
            public_keys.wf(),
            public_keys.spec_key_of(0) is Some,
        ensures
            match r {
                Ok(rl) => rl.wf() && rl.state is Idle && rl.commands@.len() == 0 && rl.signer_id
                    == signer_id && rl.public_keys == public_keys && rl.event_timeout
                    == event_timeout && rl.signing_round == signing_round,
                Err(_) => true,
            },
    {
        let mut coordinator = coordinator;
        let mut stacks_client = stacks_client;
        match stacks_client.get_aggregate_public_key() {
            Ok(key) => coordinator.set_aggregate_public_key(key),
            Err(e) => {
                return Err(e);
            },
        }
        Ok(
            RunLoop {
                event_timeout,
                coordinator,
                signing_round,
                stacks_client,
                commands: VecDeque::new(),
                state: State::Idle,
                signer_id,
                public_keys,
            },
        )
    }

    /// Set the timeout the driver's caller should use waiting for events.
    pub fn set_event_timeout(&mut self, timeout: u64)
        ensures
            final(self).event_timeout == timeout,
            final(self).coordinator == old(self).coordinator,
            final(self).signing_round == old(self).signing_round,
            final(self).stacks_client == old(self).stacks_client,
            final(self).commands == old(self).commands,
            final(self).state == old(self).state,
            final(self).signer_id == old(self).signer_id,
            final(self).public_keys == old(self).public_keys,
    {
        self.event_timeout = timeout;
    }

    /// The timeout the driver's caller should use waiting for events.
    pub fn get_event_timeout(&self) -> (r: u64)
        ensures
            r == self.event_timeout,
    {
        self.event_timeout
    }

    /// One evaluation of the DKG-requirement check. Nothing triggers unless
    /// the node is idle. When the engines already hold a group key, the
    /// check instead performs vote liaison on the elected coordinator
    /// (reading the ledger once and casting this node's vote only when none
    /// is recorded) and never triggers. When no group key exists, it
    /// triggers only on the elected coordinator, and never while a Dkg
    /// command already heads the queue, so the check cannot enqueue
    /// duplicates across ticks. The decision itself is `dkg_trigger`, whose
    /// contract is exact over the engine's group-key answer; here only the
    /// one direction free of that answer can be stated.
    pub fn should_run_dkg(&mut self) -> (r: bool)
        requires
            old(self).wf(),
        ensures
            final(self).wf(),
            final(self).state == old(self).state,
            final(self).commands == old(self).commands,
            final(self).coordinator == old(self).coordinator,
            final(self).signing_round == old(self).signing_round,
            final(self).signer_id == old(self).signer_id,
            final(self).public_keys == old(self).public_keys,
            final(self).event_timeout == old(self).event_timeout,
            !(old(self).state is Idle) ==> r == false,
            spec_front_is_dkg(old(self).commands@) ==> r == false,
            r ==> old(self).state is Idle && spec_calculate_coordinator(old(self).public_keys).0
                == old(self).signer_id && !spec_front_is_dkg(old(self).commands@),
    {
        let idle = matches!(self.state, State::Idle);
        // Determine if we are the coordinator.
        let (coordinator_id, _coordinator_public_key) = calculate_coordinator(&self.public_keys);
        let is_coordinator = coordinator_id == self.signer_id;
        let aggregate_key = match self.coordinator.get_aggregate_public_key() {
            Some(key) => Some(key.duplicate()),
            None => None,
        };
        let front_is_dkg = if self.commands.len() > 0 {
            matches!(&self.commands[0], RunLoopCommand::Dkg)
        } else {
            false
        };
        if idle && is_coordinator {
            if let Some(key) = &aggregate_key {
                // A group key was agreed. Vote liaison, on the elected
                // coordinator only: if the ledger does not yet show a key,
                // and our vote is not yet recorded, cast it; a failed cast
                // is retried on the next tick.
                let chain_key = self.stacks_client.get_aggregate_public_key();
                if liaison_chain_gate(&chain_key) {
                    match self.stacks_client.get_aggregate_public_key_vote() {
                        Ok(recorded_vote) => {
                            if should_cast_vote(&recorded_vote) {
                                // No vote recorded yet: cast ours. A
                                // failure is absorbed; the polling cadence
                                // retries.
                                let _cast = self.stacks_client.cast_aggregate_public_key_vote(
                                    key.duplicate(),
                                );
                            }
                        },
                        Err(_) => {},
                    }
                }
            }
        }
        dkg_trigger(idle, aggregate_key.is_some(), is_coordinator, front_is_dkg)
    }

    /// Try to start `command`: ask the coordinator engine to open the round,
    /// broadcast the opening message (best-effort: a failed send is absorbed)
    /// and move to the matching running state. On failure the engine is
    /// reset, so a half-started round cannot poison the next attempt, and
    /// the state is unchanged.
    pub fn execute_command(&mut self, command: &RunLoopCommand) -> (r: bool)
        requires
            old(self).wf(),
        ensures
            final(self).wf(),
            final(self).commands == old(self).commands,
            final(self).signing_round == old(self).signing_round,
            final(self).signer_id == old(self).signer_id,
            final(self).public_keys == old(self).public_keys,
            final(self).event_timeout == old(self).event_timeout,
            r ==> (command is Dkg ==> final(self).state is Dkg) && (command is Sign
                ==> final(self).state is Sign),
            !r ==> final(self).state == old(self).state,
    {
        let (started, start_message) = match command {
            RunLoopCommand::Dkg => start_outcome(
                self.coordinator.start_distributed_key_generation(),
            ),
            RunLoopCommand::Sign { message, is_taproot, merkle_root } => start_outcome(
                self.coordinator.start_signing_message(message, *is_taproot, merkle_root),
            ),
        };
        match start_message {
            Some(msg) => {
                // The round is open: broadcast its start message. The
                // acknowledgement is only looked at, never acted on.
                let _ack = self.stacks_client.send_message(self.signer_id, msg);
            },
            None => {
                // The engine refused the start: reset its state, so a
                // half-started round cannot poison the next attempt.
                self.coordinator.reset();
            },
        }
        if started {
            self.state = match command {
                RunLoopCommand::Dkg => State::Dkg,
                RunLoopCommand::Sign { .. } => State::Sign,
            };
        }
        started
    }

    /// Give the executor its scheduler slot: while idle, pop the front
    /// command and try to start it, retrying the same command on failure.
    /// After `COMMAND_START_ATTEMPTS` failed tries the command is put back
    /// at the front, unchanged, for the next tick: a command is removed from
    /// the queue only by a successful start, and is never duplicated,
    /// skipped or lost. While a round is in flight nothing is dequeued.
    pub fn process_next_command(&mut self)
        requires
            old(self).wf(),
        ensures
            final(self).wf(),
            final(self).signer_id == old(self).signer_id,
            final(self).public_keys == old(self).public_keys,
            final(self).event_timeout == old(self).event_timeout,
            final(self).state == old(self).state || old(self).state is Idle,
            !(old(self).state is Idle) || old(self).commands@.len() == 0 ==> final(self).state
                == old(self).state && final(self).commands@ == old(self).commands@
                && final(self).coordinator == old(self).coordinator
                && final(self).signing_round == old(self).signing_round
                && final(self).stacks_client == old(self).stacks_client,
            old(self).state is Idle && old(self).commands@.len() > 0 ==> (final(self).commands@
                == old(self).commands@.drop_first() && ((old(self).commands@[0] is Dkg
                && final(self).state is Dkg) || (old(self).commands@[0] is Sign
                && final(self).state is Sign))) || (final(self).commands@ == old(self).commands@
                && final(self).state is Idle),
    {
        match self.state {
            State::Idle => {
                if let Some(command) = self.commands.pop_front() {
                    let mut attempts: usize = 1;
                    let mut started = self.execute_command(&command);
                    while !started && attempts < COMMAND_START_ATTEMPTS
                        invariant
                            self.wf(),
                            self.commands@ == old(self).commands@.drop_first(),
                            self.signer_id == old(self).signer_id,
                            self.public_keys == old(self).public_keys,
                            self.event_timeout == old(self).event_timeout,
                            command == old(self).commands@[0],
                            started ==> (command is Dkg && self.state is Dkg) || (command is Sign
                                && self.state is Sign),
                            !started ==> self.state is Idle,
                        decreases COMMAND_START_ATTEMPTS - attempts,
                    {
                        // Failed to execute command; retrying.
                        started = self.execute_command(&command);
                        attempts = attempts + 1;
                    }
                    if !started {
                        // Yield the slot; the command stays at the front and
                        // the next tick retries it.
                        self.commands.push_front(command);
                        proof {
                            assert(self.commands@ =~= old(self).commands@);
                        }
                    }
                } else {
                    // Nothing to process; wait for a command.
                }
            },
            State::Dkg | State::Sign => {
                // We cannot execute the next command until the current round
                // is finished.
            },
        }
    }

    /// Steps 3 to 5 of the event pipeline: authenticate the batch, feed it
    /// to the participant engine, and, only when this node is the elected
    /// coordinator, also to the coordinator engine, whose finalized results
    /// are returned. Outbound messages are concatenated participant-engine
    /// output first; that order is not part of the contract, since both
    /// contributions are opaque engine output and the concatenation could
    /// not be told apart from any other interleaving of them. An engine
    /// failure yields an empty contribution (see the `*_contribution`
    /// functions), never a hard error. A batch with no authenticated
    /// message yields no outbound messages and no results, the round state
    /// never changes here, and on a non-elected node the coordinator engine
    /// is left untouched.
    pub fn process_event(&mut self, event: &StackerDBChunksEvent) -> (r: (
        Vec<Packet>,
        Vec<OperationResult>,
    ))
        requires
            old(self).wf(),
        ensures
            final(self).wf(),
            final(self).state == old(self).state,
            final(self).commands == old(self).commands,
            final(self).stacks_client == old(self).stacks_client,
            final(self).signer_id == old(self).signer_id,
            final(self).public_keys == old(self).public_keys,
            final(self).event_timeout == old(self).event_timeout,
            spec_filter_slots(
                event.modified_slots@,
                old(self).public_keys,
                spec_coordinator_key(old(self).public_keys),
            ).len() == 0 ==> r.0@.len() == 0 && r.1@.len() == 0,
            old(self).signer_id != spec_calculate_coordinator(old(self).public_keys).0 ==> r.1@.len()
                == 0 && final(self).coordinator == old(self).coordinator,
    {
        // Determine the current coordinator id and key for verification.
        let (coordinator_id, coordinator_public_key) = calculate_coordinator(&self.public_keys);
        // Filter out invalid messages.
        let inbound_messages = filter_valid_messages(
            &event.modified_slots,
            &self.public_keys,
            &coordinator_public_key,
        );
        // First process all messages as a signer.
        let mut outbound_messages = participant_contribution(
            self.signing_round.process_inbound_messages(&inbound_messages),
        );
        // If the signer is the coordinator, then also process the messages
        // as the coordinator.
        let (mut messages, results) = if self.signer_id == coordinator_id {
            coordinator_contribution(self.coordinator.process_inbound_messages(&inbound_messages))
        } else {
            (Vec::new(), Vec::new())
        };
        outbound_messages.append(&mut messages);
        (outbound_messages, results)
    }

    /// One driver tick: enqueue an arrived command; process an arrived
    /// event, broadcasting its outbound messages best-effort and, if it
    /// yielded results, completing the in-flight round (state returns to
    /// idle) and returning the results; evaluate the DKG-requirement check,
    /// appending a Dkg command at the tail when it triggers; then give the
    /// executor its slot. While a round stays in flight, an issued command
    /// is queued but nothing is started. The queue only ever evolves as
    /// `spec_tick_queue` and `spec_slot_outcome` allow: the arrived command
    /// at the tail, at most one self-queued Dkg at the tail, at most the
    /// front removed by a successful start, order kept. Results come only
    /// out of an arrived event, and when they do, the round completed: the
    /// node ends the pass idle unless the executor already started the next
    /// queued command.
    pub fn run_one_pass(
        &mut self,
        event: Option<StackerDBChunksEvent>,
        cmd: Option<RunLoopCommand>,
    ) -> (r: Option<Vec<OperationResult>>)
        requires
            old(self).wf(),
        ensures
            final(self).wf(),
            final(self).signer_id == old(self).signer_id,
            final(self).public_keys == old(self).public_keys,
            final(self).event_timeout == old(self).event_timeout,
            match r {
                Some(results) => results@.len() > 0,
                None => true,
            },
            event is None ==> r is None,
            exists|q: Seq<RunLoopCommand>|
                #[trigger] spec_tick_queue(old(self).commands@, cmd, q) && spec_slot_outcome(
                    q,
                    final(self).commands@,
                    final(self).state,
                ),
            r is Some ==> final(self).state is Idle || (exists|q: Seq<RunLoopCommand>|
                #[trigger] spec_tick_queue(old(self).commands@, cmd, q) && spec_front_started(
                    q,
                    final(self).commands@,
                    final(self).state,
                )),
            r is None && old(self).state is Idle ==> final(self).state is Idle || (exists|
                q: Seq<RunLoopCommand>| #[trigger] spec_tick_queue(old(self).commands@, cmd, q)
                && spec_front_started(q, final(self).commands@, final(self).state)),
            !(old(self).state is Idle) && r is None ==> final(self).state == old(self).state
                && final(self).commands@ == old(self).commands@ + (match cmd {
                Some(c) => seq![c],
                None => Seq::<RunLoopCommand>::empty(),
            }),
    {
        let ghost gcmd = cmd;
        let ghost queued = match gcmd {
            Some(c) => seq![c],
            None => Seq::<RunLoopCommand>::empty(),
        };
        if let Some(command) = cmd {
            self.commands.push_back(command);
        }
        proof {
            assert(self.commands@ =~= old(self).commands@ + queued);
        }
        let mut completed: Option<Vec<OperationResult>> = None;
        match event {
            Some(ev) => {
                // First process any arrived events.
                let (outbound_messages, operation_results) = self.process_event(&ev);
                let mut outbound_messages = outbound_messages;
                // Forward every outbound message to the transport; a failed
                // send is logged by the client and never fatal to the tick.
                while outbound_messages.len() > 0
                    invariant
                        self.wf(),
                        self.state == old(self).state,
                        self.commands@ == old(self).commands@ + queued,
                        self.signer_id == old(self).signer_id,
                        self.public_keys == old(self).public_keys,
                        self.event_timeout == old(self).event_timeout,
                    decreases outbound_messages@.len(),
                {
                    let msg = outbound_messages.remove(0);
                    let _ack = self.stacks_client.send_message(self.signer_id, msg);
                }
                if operation_results.len() > 0 {
                    // We finished our round; the next command may start.
                    self.state = State::Idle;
                    completed = Some(operation_results);
                }
            },
            None => {},
        }
        // Determine if we need to queue a DKG round; the check appends to
        // the tail, so operator-issued commands already queued run first.
        if self.should_run_dkg() {
            self.commands.push_back(RunLoopCommand::Dkg);
            proof {
                assert(self.commands@ =~= old(self).commands@ + queued + seq![
                    RunLoopCommand::Dkg,
                ]);
            }
        }
        let ghost q_exec = self.commands@;
        proof {
            assert(spec_tick_queue(old(self).commands@, gcmd, q_exec));
        }
        // Process the next command. This must come after the event step, as
        // the event may have returned the state to idle.
        self.process_next_command();
        proof {
            assert(spec_slot_outcome(q_exec, self.commands@, self.state));
            if completed is Some || old(self).state is Idle {
                assert(self.state is Idle || spec_front_started(
                    q_exec,
                    self.commands@,
                    self.state,
                ));
            }
        }
        completed
    }
}

} // verus!

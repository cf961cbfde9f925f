use vstd::prelude::*;

verus! {

/// The DKG-begin payload of the legacy point-to-point protocol.
#[derive(Clone, Debug, PartialEq, Eq)]
pub struct DkgBegin {
    /// The round id
    pub id: Vec<u8>,
}

/// The message kinds of the legacy protocol that the demo coordinator
/// speaks: it opens a round and waits for the round's end.
#[derive(Clone, Debug, PartialEq, Eq)]
pub enum MessageTypes {
    /// Open a DKG round
    DkgBegin(DkgBegin),
    /// A DKG round is complete
    DkgEnd,
}

/// A message on the legacy point-to-point channel: unauthenticated apart
/// from its sender tag bytes.
#[derive(Clone, Debug, PartialEq, Eq)]
pub struct Message {
    /// The tagged payload
    pub msg: MessageTypes,
    /// The sender tag bytes
    pub sig: Vec<u8>,
}

/// An error from the legacy network channel.
#[derive(Clone, Copy, Debug, PartialEq, Eq, Structural)]
pub struct NetError;

/// The legacy point-to-point channel, implemented by the host process: a
/// poll-based receive side and a send side. Every call may block or fail
/// and promises nothing about its outcome.
pub trait Net {
    /// Poll the channel for messages addressed to `id`.
    fn poll(&mut self, id: usize);

    /// The next delivered message, if one has arrived.
    fn next_message(&mut self) -> Option<Message>;

    /// Send a message over the channel.
    fn send_message(&mut self, msg: Message) -> Result<(), NetError>;
}

/// The demo coordinator's errors.
#[derive(Clone, Copy, Debug, PartialEq, Eq, Structural)]
pub enum Error {
    /// Http network error
    NetworkError(NetError),
    /// Operation timed out
    Timeout,
    /// Maximum attempts waiting for message reached
    MaxAttemptsReached,
    /// The demo does not provide this operation
    Unsupported,
}

/// The command the demo coordinator runs.
#[derive(Clone, Debug, PartialEq, Eq)]
pub enum Command {
    /// Run a DKG round
    Dkg,
    /// Sign a message
    Sign {
        /// The text to sign
        msg: String,
    },
    /// Report the aggregate public key
    GetAggregatePublicKey,
}

/// How many polls one message wait allows before reporting a timeout; the
/// channel implementation owns the pacing between polls.
pub const MAX_POLL_ATTEMPTS: usize = 64;

/// The sender tag of a relay id on the legacy channel: its eight bytes in
/// little-endian order.
pub open spec fn spec_id_sig_bytes(id: u64) -> Seq<u8> {
    seq![
        (id % 0x100) as u8,
        ((id / 0x100) % 0x100) as u8,
        ((id / 0x10000) % 0x100) as u8,
        ((id / 0x1000000) % 0x100) as u8,
        ((id / 0x100000000) % 0x100) as u8,
        ((id / 0x10000000000) % 0x100) as u8,
        ((id / 0x1000000000000) % 0x100) as u8,
        ((id / 0x100000000000000) % 0x100) as u8,
    ]
}

/// Turn a relay id into the sender tag bytes of the legacy channel.
pub fn id_to_sig_bytes(id: usize) -> (r: Vec<u8>)
    ensures
        r@ == spec_id_sig_bytes(id as u64),
        r@.len() == 8,
{
    let n = id as u64;
    let mut r: Vec<u8> = Vec::new();
    r.push((n % 0x100) as u8);
    r.push(((n / 0x100) % 0x100) as u8);
    r.push(((n / 0x10000) % 0x100) as u8);
    r.push(((n / 0x1000000) % 0x100) as u8);
    r.push(((n / 0x100000000) % 0x100) as u8);
    r.push(((n / 0x10000000000) % 0x100) as u8);
    r.push(((n / 0x1000000000000) % 0x100) as u8);
    r.push(((n / 0x100000000000000) % 0x100) as u8);
    proof {
        assert(r@ =~= spec_id_sig_bytes(id as u64));
    }
    r
}

/// A demo coordinator for the legacy channel: it drives a DKG round over a
/// point-to-point network in a much simpler, unauthenticated form, kept
/// beside the real run loop for the devnet harness.
pub struct Coordinator<Network> {
    /// Used for relay coordination
    pub id: usize,
    /// The round id the coordinator opens rounds under
    pub dkg_id: Vec<u8>,
    /// The channel
    pub network: Network,
}

impl<Network: Net> Coordinator<Network> {
    /// A coordinator with the given relay id and round id over `network`.
    pub fn new(id: usize, public_key: Vec<u8>, network: Network) -> (r: Self)
        ensures
            r.id == id,
            r.dkg_id@ == public_key@,
            r.network == network,
    {
        Self { id, dkg_id: public_key, network }
    }

    /// Run one command: a DKG round is driven to its end; the signing and
    /// key-report operations are not provided by this demo and report
    /// `Unsupported` — a DKG run never does.
    pub fn run(&mut self, command: &Command) -> (r: Result<(), Error>)
        ensures
            final(self).id == old(self).id,
            final(self).dkg_id@ == old(self).dkg_id@,
            !(command is Dkg) ==> r == Result::<(), Error>::Err(Error::Unsupported),
            command is Dkg ==> (r matches Err(e) ==> !(e is Unsupported)),
    {
        match command {
            Command::Dkg => self.run_distributed_key_generation(),
            Command::Sign { msg } => self.sign_message(msg),
            Command::GetAggregatePublicKey => self.get_aggregate_public_key(),
        }
    }

    /// The round-opening message: a DkgBegin carrying this coordinator's
    /// round id, tagged with the little-endian bytes of its relay id.
    pub fn dkg_begin_message(&self) -> (r: Message)
        ensures
            r.msg matches MessageTypes::DkgBegin(b) && b.id@ == self.dkg_id@,
            r.sig@ == spec_id_sig_bytes(self.id as u64),
    {
        Message {
            msg: MessageTypes::DkgBegin(
                DkgBegin { id: crate::registry::copy_bytes(&self.dkg_id) },
            ),
            sig: id_to_sig_bytes(self.id),
        }
    }

    /// Open a DKG round — send the `dkg_begin_message` over the channel —
    /// and wait for a round-end message, allowing ten message waits. A
    /// failure is a rejected send, a message-wait timeout or an exhausted
    /// wait budget; never an unsupported operation.
    pub fn run_distributed_key_generation(&mut self) -> (r: Result<(), Error>)
        ensures
            final(self).id == old(self).id,
            final(self).dkg_id@ == old(self).dkg_id@,
            r matches Err(e) ==> e is NetworkError || e is Timeout || e is MaxAttemptsReached,
    {
        let dkg_begin_message = self.dkg_begin_message();
        match self.network.send_message(dkg_begin_message) {
            Ok(_) => {},
            Err(e) => {
                return Err(Error::NetworkError(e));
            },
        }
        self.wait_for_dkg_end(10)
    }

    /// Signing is not provided by this demo.
    pub fn sign_message(&mut self, msg: &String) -> (r: Result<(), Error>)
        ensures
            *final(self) == *old(self),
            r == Result::<(), Error>::Err(Error::Unsupported),
    {
        Err(Error::Unsupported)
    }

    /// Reporting the aggregate public key is not provided by this demo.
    pub fn get_aggregate_public_key(&mut self) -> (r: Result<(), Error>)
        ensures
            *final(self) == *old(self),
            r == Result::<(), Error>::Err(Error::Unsupported),
    {
        Err(Error::Unsupported)
    }

    /// Wait for a round-end message, allowing `attempts` further waits after
    /// the first: each wait yields a message or fails the whole run, a
    /// round-end message ends it, and an exhausted budget reports that the
    /// maximum attempts were reached — the only failures this wait can end
    /// in are that report and a propagated message-wait timeout.
    pub fn wait_for_dkg_end(&mut self, attempts: usize) -> (r: Result<(), Error>)
        ensures
            final(self).id == old(self).id,
            final(self).dkg_id@ == old(self).dkg_id@,
            r matches Err(e) ==> e is MaxAttemptsReached || e is Timeout,
    {
        let mut attempts = attempts;
        loop
            invariant
                self.id == old(self).id,
                self.dkg_id@ == old(self).dkg_id@,
            decreases attempts,
        {
            let message = match self.wait_for_next_message() {
                Ok(m) => m,
                Err(e) => {
                    return Err(e);
                },
            };
            if attempts == 0 {
                return Err(Error::MaxAttemptsReached);
            }
            if matches!(message.msg, MessageTypes::DkgEnd) {
                return Ok(());
            }
            attempts = attempts - 1;
        }
    }

    /// Wait for the next message: poll the channel, bounded by
    /// `MAX_POLL_ATTEMPTS` polls, and report a timeout when no message
    /// arrives; the channel implementation paces the polls. The timeout is
    /// the only failure this wait can make.
    pub fn wait_for_next_message(&mut self) -> (r: Result<Message, Error>)
        ensures
            final(self).id == old(self).id,
            final(self).dkg_id@ == old(self).dkg_id@,
            r matches Err(e) ==> e == Error::Timeout,
    {
        let mut tries: usize = 0;
        while tries < MAX_POLL_ATTEMPTS
            invariant
                self.id == old(self).id,
                self.dkg_id@ == old(self).dkg_id@,
            decreases MAX_POLL_ATTEMPTS - tries,
        {
            self.network.poll(self.id);
            match self.network.next_message() {
                Some(message) => {
                    return Ok(message);
                },
                None => {},
            }
            tries = tries + 1;
        }
        Err(Error::Timeout)
    }
}

} // verus!

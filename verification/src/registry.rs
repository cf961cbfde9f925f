use vstd::prelude::*;

verus! {

/// A participant's verification public key: 33-byte compressed ECDSA key
/// bytes, held as a plain value.
#[derive(Clone, Debug, PartialEq, Eq)]
pub struct PublicKey {
    /// The compressed key bytes
    pub bytes: Vec<u8>,
}

impl View for PublicKey {
    type V = Seq<u8>;

    open spec fn view(&self) -> Seq<u8> {
        self.bytes@
    }
}

/// The participant registry: participant id to verification public key,
/// fixed for the node's lifetime. Lookup takes the first entry with the
/// given id.
#[derive(Clone, Debug, PartialEq, Eq)]
pub struct PublicKeys {
    /// The registered (id, key) pairs
    pub signers: Vec<(u32, PublicKey)>,
}

/// The key registered for `signer_id` in `entries`, by first match.
pub open spec fn spec_key_in(entries: Seq<(u32, PublicKey)>, signer_id: u32) -> Option<Seq<u8>>
    decreases entries.len(),
{
    if entries.len() == 0 {
        None
    } else if entries[0].0 == signer_id {
        Some(entries[0].1@)
    } else {
        spec_key_in(entries.skip(1), signer_id)
    }
}

/// Copy a byte vector, element by element, so the copy's value is known.
pub fn copy_bytes(v: &Vec<u8>) -> (r: Vec<u8>)
    ensures
        r@ == v@,
{
    let mut r: Vec<u8> = Vec::new();
    let mut i: usize = 0;
    while i < v.len()
        invariant
            0 <= i <= v@.len(),
            r@ == v@.take(i as int),
        decreases v@.len() - i,
    {
        r.push(v[i]);
        proof {
            assert(v@.take(i as int).push(v@[i as int]) =~= v@.take(i + 1));
        }
        i = i + 1;
    }
    proof {
        assert(v@.take(v@.len() as int) =~= v@);
    }
    r
}

impl PublicKey {
    /// A copy of this key whose bytes are known to be the same.
    pub fn duplicate(&self) -> (r: PublicKey)
        ensures
            r@ == self@,
    {
        PublicKey { bytes: copy_bytes(&self.bytes) }
    }
}

impl PublicKeys {
    /// A well-formed registry names each participant id once, as the
    /// mapping it stands for does; lookup is then the map's lookup.
    pub open spec fn wf(self) -> bool {
        forall|i: int, j: int|
            0 <= i < j < self.signers@.len() ==> self.signers@[i].0 != self.signers@[j].0
    }

    /// The key registered for `signer_id`, or `None` for an unknown id.
    pub open spec fn spec_key_of(self, signer_id: u32) -> Option<Seq<u8>> {
        spec_key_in(self.signers@, signer_id)
    }

    /// Look up the registered key of a claimed sender id.
    pub fn key_of(&self, signer_id: u32) -> (r: Option<&PublicKey>)
        ensures
            match r {
                Some(k) => self.spec_key_of(signer_id) == Some(k@),
                None => self.spec_key_of(signer_id) is None,
            },
    {
        let mut i: usize = 0;
        proof {
            assert(self.signers@.skip(0) =~= self.signers@);
        }
        while i < self.signers.len()
            invariant
                0 <= i <= self.signers@.len(),
                spec_key_in(self.signers@, signer_id) == spec_key_in(
                    self.signers@.skip(i as int),
                    signer_id,
                ),
            decreases self.signers@.len() - i,
        {
            proof {
                assert(self.signers@.skip(i as int)[0] == self.signers@[i as int]);
                assert(self.signers@.skip(i as int).skip(1) =~= self.signers@.skip(i + 1));
            }
            if self.signers[i].0 == signer_id {
                return Some(&self.signers[i].1);
            }
            i = i + 1;
        }
        proof {
            assert(self.signers@.skip(i as int) =~= Seq::<(u32, PublicKey)>::empty());
        }
        None
    }
}

/// Elect the round coordinator from the registry.
///
/// The policy is deterministic: every honest participant computes the same
/// answer from the same registry. The current policy always elects
/// participant id 0 with its registered key; rotation is a known limitation,
/// left as a placeholder on purpose.
pub open spec fn spec_calculate_coordinator(keys: PublicKeys) -> (u32, Option<Seq<u8>>) {
    (0u32, keys.spec_key_of(0))
}

/// Coordinator election is a pure function of the registry: any two results
/// that `calculate_coordinator` can return for the same registry carry the
/// same participant id and the same key bytes, so repeated calls agree.
pub proof fn lemma_election_deterministic(
    keys: PublicKeys,
    first: (u32, PublicKey),
    second: (u32, PublicKey),
)
    requires
        first.0 == 0 && Some(first.1@) == keys.spec_key_of(0),
        second.0 == 0 && Some(second.1@) == keys.spec_key_of(0),
    ensures
        first.0 == second.0,
        first.1@ == second.1@,
{
}

/// Deterministic coordinator election: participant id 0 and its registered
/// key. A pure function of the registry alone, so repeated calls on the same
/// registry return the same pair.
pub fn calculate_coordinator(public_keys: &PublicKeys) -> (r: (u32, PublicKey))
    requires
        public_keys.spec_key_of(0) is Some,
    ensures
        r.0 == 0,
        Some(r.1@) == public_keys.spec_key_of(0),
        (r.0, Some(r.1@)) == spec_calculate_coordinator(*public_keys),
{
    let key = public_keys.key_of(0);
    match key {
        Some(k) => (0, k.duplicate()),
        None => {
            proof {
                assert(false);
            }
            (0, PublicKey { bytes: Vec::new() })
        }
    }
}

} // verus!

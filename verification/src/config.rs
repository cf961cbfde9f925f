use vstd::prelude::*;

use crate::registry::PublicKeys;

verus! {

/// The signer's configuration, loaded by the host process and handed over
/// as plain values: this node's id, the participant registry, the group's
/// key ids (one-based), each signer's key ids (one-based), and the event
/// timeout in milliseconds.
pub struct Config {
    /// This node's participant id
    pub signer_id: u32,
    /// The participant registry: participant id to verification key
    pub public_keys: PublicKeys,
    /// Every key id of the group, one-based
    pub key_ids: Vec<u32>,
    /// Each signer's one-based key ids
    pub signer_key_ids: Vec<(u32, Vec<u32>)>,
    /// The timeout for events, in milliseconds
    pub event_timeout: u64,
}

/// The key ids registered for `signer_id`, by first match.
pub open spec fn spec_signer_key_ids_of(entries: Seq<(u32, Vec<u32>)>, signer_id: u32) -> Option<
    Seq<u32>,
>
    decreases entries.len(),
{
    if entries.len() == 0 {
        None
    } else if entries[0].0 == signer_id {
        Some(entries[0].1@)
    } else {
        spec_signer_key_ids_of(entries.skip(1), signer_id)
    }
}

/// What the protocol engines are configured with, derived from the
/// configuration: the 7/10 threshold, the group totals, and this signer's
/// key ids shifted to zero-based form.
pub struct EngineConfig {
    /// How many key shares must cooperate to sign
    pub threshold: u32,
    /// How many signers the group has
    pub total_signers: u32,
    /// How many key ids the group has
    pub total_keys: u32,
    /// This signer's key ids, zero-based
    pub key_ids: Vec<u32>,
}

impl Config {
    /// This signer's one-based key ids from the configuration.
    pub fn signer_key_ids_of(&self, signer_id: u32) -> (r: Option<&Vec<u32>>)
        ensures
            match r {
                Some(ids) => spec_signer_key_ids_of(self.signer_key_ids@, signer_id) == Some(ids@),
                None => spec_signer_key_ids_of(self.signer_key_ids@, signer_id) is None,
            },
    {
        let mut i: usize = 0;
        proof {
            assert(self.signer_key_ids@.skip(0) =~= self.signer_key_ids@);
        }
        while i < self.signer_key_ids.len()
            invariant
                0 <= i <= self.signer_key_ids@.len(),
                spec_signer_key_ids_of(self.signer_key_ids@, signer_id) == spec_signer_key_ids_of(
                    self.signer_key_ids@.skip(i as int),
                    signer_id,
                ),
            decreases self.signer_key_ids@.len() - i,
        {
            proof {
                assert(self.signer_key_ids@.skip(i as int)[0] == self.signer_key_ids@[i as int]);
                assert(self.signer_key_ids@.skip(i as int).skip(1) =~= self.signer_key_ids@.skip(
                    i + 1,
                ));
            }
            if self.signer_key_ids[i].0 == signer_id {
                return Some(&self.signer_key_ids[i].1);
            }
            i = i + 1;
        }
        proof {
            assert(self.signer_key_ids@.skip(i as int) =~= Seq::<(u32, Vec<u32>)>::empty());
        }
        None
    }
}

/// Derive the engine parameters from the configuration: the threshold is
/// seven tenths of the group's key count, the totals are the registry and
/// key counts, and this signer's key ids are shifted from the one-based form
/// the configuration carries to the zero-based form the engines take. The
/// index shift belongs here, at the engine-configuration boundary, and
/// nowhere else.
pub fn engine_config(config: &Config) -> (r: EngineConfig)
    requires
        config.key_ids@.len() * 7 <= usize::MAX,
        config.key_ids@.len() <= u32::MAX,
        config.public_keys.signers@.len() <= u32::MAX,
        spec_signer_key_ids_of(config.signer_key_ids@, config.signer_id) matches Some(ids) && forall|
            j: int,
        | 0 <= j < ids.len() ==> ids[j] >= 1,
    ensures
        r.threshold == config.key_ids@.len() * 7 / 10,
        r.total_signers == config.public_keys.signers@.len(),
        r.total_keys == config.key_ids@.len(),
        spec_signer_key_ids_of(config.signer_key_ids@, config.signer_id) matches Some(ids)
            && r.key_ids@.len() == ids.len() && forall|j: int|
            0 <= j < ids.len() ==> r.key_ids@[j] == ids[j] - 1,
{
    let threshold = (config.key_ids.len() * 7 / 10) as u32;
    let total_signers = config.public_keys.signers.len() as u32;
    let total_keys = config.key_ids.len() as u32;
    let one_based = match config.signer_key_ids_of(config.signer_id) {
        Some(ids) => ids,
        None => {
            proof {
                assert(false);
            }
            &config.key_ids
        },
    };
    let ghost gids = (match spec_signer_key_ids_of(config.signer_key_ids@, config.signer_id) {
        Some(ids) => ids,
        None => Seq::empty(),
    });
    let mut key_ids: Vec<u32> = Vec::new();
    let mut i: usize = 0;
    while i < one_based.len()
        invariant
            0 <= i <= one_based@.len(),
            one_based@ == gids,
            forall|j: int| 0 <= j < gids.len() ==> gids[j] >= 1,
            key_ids@.len() == i,
            forall|j: int| 0 <= j < i ==> key_ids@[j] == gids[j] - 1,
        decreases one_based@.len() - i,
    {
        key_ids.push(one_based[i] - 1);
        i = i + 1;
    }
    EngineConfig { threshold, total_signers, total_keys, key_ids }
}

} // verus!

use vstd::prelude::*;

use crate::types::ActorId;

verus! {

/// The contract's admin set and configuration.
pub struct VFTManagerState {
    /// Identities allowed to perform privileged actions, in the order in
    /// which they were added; duplicates are kept.
    pub admins: Vec<ActorId>,
    /// The token ledger contract; `None` until configured.
    pub vft_contract_id: Option<ActorId>,
    /// Smallest amount an admin may mint to the contract at once.
    pub min_tokens_to_add: u128,
    /// Ceiling for burns; kept as configuration, no workflow enforces it.
    pub max_tokens_to_burn: u128,
    /// Tokens exchanged for one whole unit of currency.
    pub tokens_per_vara: u128,
}

impl VFTManagerState {
    pub open spec fn spec_is_admin(&self, who: ActorId) -> bool {
        self.admins@.contains(who)
    }

    /// The four configuration fields of `self` and `o` agree.
    pub open spec fn same_config(&self, o: &VFTManagerState) -> bool {
        &&& self.vft_contract_id == o.vft_contract_id
        &&& self.min_tokens_to_add == o.min_tokens_to_add
        &&& self.max_tokens_to_burn == o.max_tokens_to_burn
        &&& self.tokens_per_vara == o.tokens_per_vara
    }

    /// A fresh state whose only admin is `admin`; no ledger, zero thresholds.
    pub fn new(admin: ActorId) -> (r: VFTManagerState)
        ensures
            r.admins@ == seq![admin],
            r.vft_contract_id.is_none(),
            r.min_tokens_to_add == 0,
            r.max_tokens_to_burn == 0,
            r.tokens_per_vara == 0,
    {
        let mut admins: Vec<ActorId> = Vec::new();
        admins.push(admin);
        proof {
            assert(admins@ =~= seq![admin]);
        }
        VFTManagerState {
            admins,
            vft_contract_id: None,
            min_tokens_to_add: 0,
            max_tokens_to_burn: 0,
            tokens_per_vara: 0,
        }
    }

    /// Whether `address` is in the admin set.
    pub fn is_admin(&self, address: &ActorId) -> (r: bool)
        ensures
            r == self.spec_is_admin(*address),
    {
        let mut i: usize = 0;
        while i < self.admins.len()
            invariant
                i <= self.admins@.len(),
                forall|j: int| 0 <= j < i ==> self.admins@[j] != *address,
            decreases self.admins@.len() - i,
        {
            if self.admins[i] == *address {
                return true;
            }
            i += 1;
        }
        false
    }
}

} // verus!

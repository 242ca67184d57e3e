use vstd::prelude::*;

use crate::account::AccountId;
use crate::keyed_map::KeyedMap;

verus! {

/// What each wallet is endowed with when it is instantiated.
pub const CONTRACT_INIT_BALANCE: u128 = 1000 * 1_000_000_000_000;

/// The multisig wallets created, by index.
pub struct MultisigFactory {
    multisign: KeyedMap<u64, AccountId>,
    index: u64,
}

impl MultisigFactory {
    pub closed spec fn wf(&self) -> bool {
        self.multisign.wf()
    }

    pub closed spec fn wallets(&self) -> Map<u64, AccountId> {
        self.multisign.as_map()
    }

    pub closed spec fn spec_index(&self) -> u64 {
        self.index
    }

    pub fn new() -> (r: Self)
        ensures
            r.wf(),
            r.wallets() == Map::<u64, AccountId>::empty(),
            r.spec_index() == 0,
    {
        MultisigFactory { multisign: KeyedMap::new(), index: 0 }
    }

    /// Record the wallet just instantiated at `contract_addr` under the next index.
    pub fn new_multisig(&mut self, contract_addr: AccountId) -> (r: AccountId)
        requires
            old(self).wf(),
            old(self).spec_index() < u64::MAX,
        ensures
            r == contract_addr,
            final(self).wf(),
            final(self).wallets() == old(self).wallets().insert(old(self).spec_index(), contract_addr),
            final(self).spec_index() == old(self).spec_index() + 1,
    {
        self.multisign.insert(self.index, contract_addr);
        self.index = self.index + 1;
        contract_addr
    }
}

} // verus!

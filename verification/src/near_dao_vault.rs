use vstd::prelude::*;

use crate::keyed_map::KeyedMap;

verus! {

/// Direction of a transfer out of the vault.
pub const DIRECTION_OUT: u64 = 1;

/// Direction of a transfer into the vault.
pub const DIRECTION_IN: u64 = 2;

/// store a transfer record
pub struct Transfer {
    pub transfer_id: u64,
    pub transfer_direction: u64,
    pub from_address: String,
    pub to_address: String,
    pub value: u128,
    pub transfer_time: u64,
}

/// Token info for query purpose.
pub struct TokenInfo {
    pub erc20: String,
    pub symbol: String,
    pub name: String,
    pub balance: u64,
}

/// A call the vault makes on a token contract.
#[derive(Clone, Debug)]
pub enum TokenCall {
    /// `balance_of` of the vault.
    BalanceOf { token: String, owner: String },
    /// `transfer_from` into the vault.
    TransferIn { token: String, from: String, to: String, value: u128 },
    /// `transfer_from` out of the vault, naming only the receiver.
    TransferOut { token: String, to: String, value: u128 },
}

/// Fund management of Dao
pub struct VaultManager {
    tokens: KeyedMap<String, String>,
    visible_tokens: KeyedMap<String, String>,
    transfer_history: KeyedMap<u64, Transfer>,
    vault_contract_address: String,
    transfer_count: u64,
}

impl VaultManager {
    pub closed spec fn wf(&self) -> bool {
        &&& self.tokens.wf()
        &&& self.visible_tokens.wf()
        &&& self.transfer_history.wf()
        &&& forall|k: u64| #[trigger] self.transfer_history.as_map().contains_key(k) ==> k < self.transfer_count
    }

    /// The number of transfers recorded so far, which is the id the next one gets.
    pub closed spec fn spec_transfer_count(&self) -> u64 {
        self.transfer_count
    }

    /// Tokens ever added, each mapped to the vault's address.
    pub closed spec fn token_map(&self) -> Map<Seq<char>, Seq<char>> {
        self.tokens.as_map().map_values(|v: String| v@)
    }

    /// Tokens currently shown.
    pub closed spec fn visible_map(&self) -> Map<Seq<char>, Seq<char>> {
        self.visible_tokens.as_map().map_values(|v: String| v@)
    }

    pub closed spec fn history(&self) -> Map<u64, Transfer> {
        self.transfer_history.as_map()
    }

    pub closed spec fn spec_address(&self) -> Seq<char> {
        self.vault_contract_address@
    }

    /// The vault of the contract at `current_account_id`.
    pub fn new(current_account_id: String) -> (r: Self)
        ensures
            r.wf(),
            r.spec_address() == current_account_id@,
            r.token_map() == Map::<Seq<char>, Seq<char>>::empty(),
            r.visible_map() == Map::<Seq<char>, Seq<char>>::empty(),
            r.history() == Map::<u64, Transfer>::empty(),
            r.spec_transfer_count() == 0,
    {
        let r = VaultManager {
            tokens: KeyedMap::new(),
            visible_tokens: KeyedMap::new(),
            transfer_history: KeyedMap::new(),
            vault_contract_address: current_account_id,
            transfer_count: 0,
        };
        assert(r.token_map() =~= Map::<Seq<char>, Seq<char>>::empty());
        assert(r.visible_map() =~= Map::<Seq<char>, Seq<char>>::empty());
        r
    }

    /// the value recorded for an added token
    pub fn get_erc20_by_address(&self, address: String) -> (r: String)
        requires
            self.wf(),
            self.token_map().contains_key(address@),
        ensures
            r@ == self.token_map()[address@],
    {
        match self.tokens.get(&address) {
            Some(v) => v.clone(),
            None => {
                assert(false);
                String::new()
            },
        }
    }

    /// add a vault token; `false` when it was added before (it is then recorded again
    /// but not shown again)
    pub fn add_vault_token(&mut self, erc_20_address: String) -> (r: bool)
        requires
            old(self).wf(),
        ensures
            final(self).wf(),
            r == !old(self).token_map().contains_key(erc_20_address@),
            final(self).token_map() == old(self).token_map().insert(erc_20_address@, old(self).spec_address()),
            final(self).visible_map() == if r {
                old(self).visible_map().insert(erc_20_address@, old(self).spec_address())
            } else {
                old(self).visible_map()
            },
            final(self).history() == old(self).history(),
            final(self).spec_address() == old(self).spec_address(),
            final(self).spec_transfer_count() == old(self).spec_transfer_count(),
    {
        let is_permission = true;
        if is_permission == false {
            return false;
        }
        let existed = self.tokens.contains_key(&erc_20_address);
        let key = erc_20_address.clone();
        let vault = self.vault_contract_address.clone();
        self.tokens.insert(key, vault);
        proof {
            assert(self.token_map() =~= old(self).token_map().insert(erc_20_address@, old(self).spec_address()));
        }
        if existed {
            false
        } else {
            let vault2 = self.vault_contract_address.clone();
            self.visible_tokens.insert(erc_20_address, vault2);
            proof {
                assert(self.visible_map() =~= old(self).visible_map().insert(erc_20_address@, old(self).spec_address()));
            }
            true
        }
    }

    /// stop showing a token
    pub fn remove_vault_token(&mut self, erc_20_address: String) -> (r: bool)
        requires
            old(self).wf(),
        ensures
            r,
            final(self).wf(),
            final(self).visible_map() == old(self).visible_map().remove(erc_20_address@),
            final(self).token_map() == old(self).token_map(),
            final(self).history() == old(self).history(),
            final(self).spec_address() == old(self).spec_address(),
            final(self).spec_transfer_count() == old(self).spec_transfer_count(),
    {
        let is_permission = true;
        if is_permission == false {
            return false;
        }
        self.visible_tokens.remove(&erc_20_address);
        proof {
            assert(self.visible_map() =~= old(self).visible_map().remove(erc_20_address@));
        }
        true
    }

    /// show all shown tokens
    pub fn get_token_list(self) -> (r: KeyedMap<String, String>)
        ensures
            r.as_map().map_values(|v: String| v@) == self.visible_map(),
    {
        self.visible_tokens
    }

    /// The query the vault makes of an added token for its balance there (`None` for a
    /// token never added).
    pub fn balance_query(&self, erc_20_address: String) -> (r: Option<TokenCall>)
        requires
            self.wf(),
        ensures
            r is Some <==> self.token_map().contains_key(erc_20_address@),
            r matches Some(TokenCall::BalanceOf { token, owner }) ==> token@ == erc_20_address@
                && owner@ == self.spec_address(),
            r matches Some(c) ==> c is BalanceOf,
    {
        if self.tokens.contains_key(&erc_20_address) {
            Some(TokenCall::BalanceOf { token: erc_20_address, owner: self.vault_contract_address.clone() })
        } else {
            None
        }
    }

    /// The vault's balance of a token: for an added token, `token_answer`, what the token
    /// answered to `balance_query`; 0 for a token never added.
    pub fn get_balance_of(&self, erc_20_address: String, token_answer: u128) -> (r: u128)
        requires
            self.wf(),
        ensures
            r == if self.token_map().contains_key(erc_20_address@) {
                token_answer
            } else {
                0
            },
    {
        if self.tokens.contains_key(&erc_20_address) {
            token_answer
        } else {
            0
        }
    }

    /// The number of transfers recorded so far.
    pub fn transfer_count(&self) -> (r: u64)
        ensures
            r == self.spec_transfer_count(),
    {
        self.transfer_count
    }

    /// deposit `value` of an added token from `from_address` into the vault at time
    /// `timestamp`: the transfer to make is returned and recorded under the next id, the number of transfers so far. Tokens
    /// never added are refused (`None`, nothing changes).
    pub fn deposit(&mut self, erc_20_address: String, from_address: String, value: u128, timestamp: u64) -> (r: Option<TokenCall>)
        requires
            old(self).wf(),
            old(self).token_map().contains_key(erc_20_address@) ==> old(self).spec_transfer_count() < u64::MAX,
        ensures
            final(self).wf(),
            r is Some <==> old(self).token_map().contains_key(erc_20_address@),
            r is None ==> *final(self) == *old(self),
            r matches Some(c) ==> {
                &&& c matches TokenCall::TransferIn { token, from, to, value: v }
                    && token@ == erc_20_address@ && from@ == from_address@ && to@ == old(self).spec_address()
                    && v == value
                &&& final(self).history().dom() == old(self).history().dom().insert(old(self).spec_transfer_count())
                &&& final(self).history().remove(old(self).spec_transfer_count()) == old(self).history()
                &&& final(self).history()[old(self).spec_transfer_count()].transfer_id == old(self).spec_transfer_count()
                &&& final(self).spec_transfer_count() == old(self).spec_transfer_count() + 1
                &&& !old(self).history().contains_key(old(self).spec_transfer_count())
                &&& final(self).history()[old(self).spec_transfer_count()].transfer_direction == DIRECTION_IN
                &&& final(self).history()[old(self).spec_transfer_count()].from_address@ == from_address@
                &&& final(self).history()[old(self).spec_transfer_count()].to_address@ == old(self).spec_address()
                &&& final(self).history()[old(self).spec_transfer_count()].value == value
                &&& final(self).history()[old(self).spec_transfer_count()].transfer_time == timestamp
                &&& final(self).token_map() == old(self).token_map()
                &&& final(self).visible_map() == old(self).visible_map()
                &&& final(self).spec_address() == old(self).spec_address()
            },
    {
        let to_address = self.vault_contract_address.clone();
        if self.tokens.contains_key(&erc_20_address) {
            let transfer_result = true;
            let call = TokenCall::TransferIn {
                token: erc_20_address,
                from: from_address.clone(),
                to: to_address.clone(),
                value,
            };
            if transfer_result == false {
                return None;
            }
            let transfer_id: u64 = self.transfer_count;
            proof {
                if self.transfer_history.as_map().contains_key(transfer_id) {
                    assert(transfer_id < self.transfer_count);
                }
            }
            let transfer_time: u64 = timestamp;
            self.transfer_history.insert(
                transfer_id,
                Transfer {
                    transfer_direction: DIRECTION_IN,
                    transfer_id,
                    from_address,
                    to_address,
                    value,
                    transfer_time,
                },
            );
            self.transfer_count = transfer_id + 1;
            proof {
                assert(self.history().dom() =~= old(self).history().dom().insert(transfer_id));
                assert(self.history().remove(transfer_id) =~= old(self).history());
            }
            Some(call)
        } else {
            None
        }
    }

    /// withdraw `value` of a shown token to `to_address` at time `timestamp`: the
    /// transfer to make is returned and recorded under the next id, the number of transfers so far. Tokens not shown are
    /// refused (`None`, nothing changes).
    pub fn withdraw(&mut self, erc_20_address: String, to_address: String, value: u128, timestamp: u64) -> (r: Option<TokenCall>)
        requires
            old(self).wf(),
            old(self).visible_map().contains_key(erc_20_address@) ==> old(self).spec_transfer_count() < u64::MAX,
        ensures
            final(self).wf(),
            r is Some <==> old(self).visible_map().contains_key(erc_20_address@),
            r is None ==> *final(self) == *old(self),
            r matches Some(c) ==> {
                &&& c matches TokenCall::TransferOut { token, to, value: v }
                    && token@ == erc_20_address@ && to@ == to_address@ && v == value
                &&& final(self).history().dom() == old(self).history().dom().insert(old(self).spec_transfer_count())
                &&& final(self).history().remove(old(self).spec_transfer_count()) == old(self).history()
                &&& final(self).history()[old(self).spec_transfer_count()].transfer_id == old(self).spec_transfer_count()
                &&& final(self).spec_transfer_count() == old(self).spec_transfer_count() + 1
                &&& !old(self).history().contains_key(old(self).spec_transfer_count())
                &&& final(self).history()[old(self).spec_transfer_count()].transfer_direction == DIRECTION_OUT
                &&& final(self).history()[old(self).spec_transfer_count()].from_address@ == old(self).spec_address()
                &&& final(self).history()[old(self).spec_transfer_count()].to_address@ == to_address@
                &&& final(self).history()[old(self).spec_transfer_count()].value == value
                &&& final(self).history()[old(self).spec_transfer_count()].transfer_time == timestamp
                &&& final(self).token_map() == old(self).token_map()
                &&& final(self).visible_map() == old(self).visible_map()
                &&& final(self).spec_address() == old(self).spec_address()
            },
    {
        let from_address = self.vault_contract_address.clone();
        if self.visible_tokens.contains_key(&erc_20_address) {
            let is_permission = true;
            if is_permission == false {
                return None;
            }
            let transfer_result = true;
            let call = TokenCall::TransferOut { token: erc_20_address, to: to_address.clone(), value };
            if transfer_result == false {
                return None;
            }
            let transfer_id: u64 = self.transfer_count;
            proof {
                if self.transfer_history.as_map().contains_key(transfer_id) {
                    assert(transfer_id < self.transfer_count);
                }
            }
            let transfer_time: u64 = timestamp;
            self.transfer_history.insert(
                transfer_id,
                Transfer {
                    transfer_direction: DIRECTION_OUT,
                    transfer_id,
                    from_address,
                    to_address,
                    value,
                    transfer_time,
                },
            );
            self.transfer_count = transfer_id + 1;
            proof {
                assert(self.history().dom() =~= old(self).history().dom().insert(transfer_id));
                assert(self.history().remove(transfer_id) =~= old(self).history());
            }
            Some(call)
        } else {
            None
        }
    }

    /// get the history of transfer
    pub fn get_transfer_history(self) -> (r: KeyedMap<u64, Transfer>)
        ensures
            r.as_map() == self.history(),
    {
        self.transfer_history
    }
}

} // verus!

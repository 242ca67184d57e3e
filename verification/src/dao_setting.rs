use vstd::prelude::*;

use crate::account::AccountId;

verus! {

/// Fee limit for joining Dao
/// time_limit:How long is the total limit
/// fee_limit:the number of fee
/// token:the token of limit
#[derive(Clone, Copy, Debug, PartialEq, Eq, Structural)]
pub struct FeeConditions {
    pub time_limit: u128,
    pub fee_limit: u128,
    pub token: AccountId,
}

/// Other limit for joining Dao
/// use_token:Whether to enable token restriction
/// use_nft:Whether to enable nft restriction
/// token:the token of limit
/// token_balance_limit:the balance of limit
/// nft:the nft address
/// nft_balance_limit:the balance of limit
/// nft_time_limit:Remaining time limit of NFT
#[derive(Clone, Copy, Debug, PartialEq, Eq, Structural)]
pub struct OtherConditions {
    pub use_token: bool,
    pub use_nft: bool,
    pub token: AccountId,
    pub token_balance_limit: u128,
    pub nft: AccountId,
    pub nft_balance_limit: u128,
    pub nft_time_limit: u128,
}

/// Joining requires paying a fee.
pub const CONDITION_FEE: u64 = 2;

/// Joining requires holding tokens.
pub const CONDITION_OTHER: u64 = 4;

/// Both of the above.
pub const CONDITION_BOTH: u64 = 6;

/// The joining restrictions of a dao.
/// creator:the creator's address
/// owner:the manager's address
/// fee_limit:the fee limit info
/// other_limit:the other limit info
/// conditions:Specific restriction type
pub struct DaoSetting {
    creator: AccountId,
    owner: AccountId,
    fee_limit: FeeConditions,
    other_limit: OtherConditions,
    conditions: u64,
}

impl DaoSetting {
    pub closed spec fn spec_creator(&self) -> AccountId {
        self.creator
    }

    pub closed spec fn spec_owner(&self) -> AccountId {
        self.owner
    }

    pub closed spec fn spec_fee_limit(&self) -> FeeConditions {
        self.fee_limit
    }

    pub closed spec fn spec_other_limit(&self) -> OtherConditions {
        self.other_limit
    }

    pub closed spec fn spec_conditions(&self) -> u64 {
        self.conditions
    }

    /// `caller` creates the settings of a dao created by `creator`; nothing is restricted.
    pub fn new(caller: AccountId, creator: AccountId) -> (r: Self)
        ensures
            r.spec_creator() == creator,
            r.spec_owner() == caller,
            r.spec_conditions() == 0,
            r.spec_fee_limit() == (FeeConditions { time_limit: 0, fee_limit: 0, token: AccountId::spec_zero() }),
            r.spec_other_limit() == (OtherConditions {
                use_token: false,
                use_nft: false,
                token: AccountId::spec_zero(),
                token_balance_limit: 0,
                nft: AccountId::spec_zero(),
                nft_balance_limit: 0,
                nft_time_limit: 0,
            }),
    {
        DaoSetting {
            creator,
            owner: caller,
            fee_limit: FeeConditions { time_limit: 0, fee_limit: 0, token: AccountId::zero() },
            other_limit: OtherConditions {
                use_token: false,
                use_nft: false,
                token: AccountId::zero(),
                token_balance_limit: 0,
                nft: AccountId::zero(),
                nft_balance_limit: 0,
                nft_time_limit: 0,
            },
            conditions: 0,
        }
    }

    /// The creator, the only one who may set the joining restriction.
    pub fn creator(&self) -> (r: AccountId)
        ensures
            r == self.spec_creator(),
    {
        self.creator
    }

    pub fn get_conditions(&self) -> (r: u64)
        ensures
            r == self.spec_conditions(),
    {
        self.conditions
    }

    pub fn get_fee_setting(&self) -> (r: FeeConditions)
        ensures
            r == self.spec_fee_limit(),
    {
        self.fee_limit
    }

    pub fn get_other_setting(&self) -> (r: OtherConditions)
        ensures
            r == self.spec_other_limit(),
    {
        self.other_limit
    }

    /// Set the joining restriction; only the creator may. Condition 2 takes the fee
    /// conditions, 4 the other conditions, 6 both; any other condition keeps both.
    pub fn set_join_limit(
        &mut self,
        caller: AccountId,
        conditions: u64,
        other_conditions: OtherConditions,
        fee_conditions: FeeConditions,
    ) -> (r: bool)
        requires
            caller == old(self).spec_creator(),
        ensures
            r,
            final(self).spec_conditions() == conditions,
            final(self).spec_fee_limit() == if conditions == CONDITION_FEE || conditions == CONDITION_BOTH {
                fee_conditions
            } else {
                old(self).spec_fee_limit()
            },
            final(self).spec_other_limit() == if conditions == CONDITION_OTHER || conditions == CONDITION_BOTH {
                other_conditions
            } else {
                old(self).spec_other_limit()
            },
            final(self).spec_creator() == old(self).spec_creator(),
            final(self).spec_owner() == old(self).spec_owner(),
    {
        if conditions == CONDITION_FEE {
            self.fee_limit = fee_conditions;
        } else if conditions == CONDITION_OTHER {
            self.other_limit = other_conditions;
        } else if conditions == CONDITION_BOTH {
            self.fee_limit = fee_conditions;
            self.other_limit = other_conditions;
        }
        self.conditions = conditions;
        true
    }
}

} // verus!

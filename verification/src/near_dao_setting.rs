use vstd::prelude::*;

use crate::dao_setting::{CONDITION_BOTH, CONDITION_FEE, CONDITION_OTHER};

verus! {

/// Fee limit for joining Dao
/// time_limit:How long is the total limit
/// fee_limit:the number of fee
/// token:the token of limit
#[derive(Clone, Debug)]
pub struct FeeConditions {
    pub time_limit: u128,
    pub fee_limit: u128,
    pub token: String,
}

impl FeeConditions {
    pub open spec fn same_as(&self, other: &FeeConditions) -> bool {
        self.time_limit == other.time_limit && self.fee_limit == other.fee_limit && self.token@ == other.token@
    }

    pub fn duplicate(&self) -> (r: FeeConditions)
        ensures
            r.same_as(self),
    {
        FeeConditions { time_limit: self.time_limit, fee_limit: self.fee_limit, token: self.token.clone() }
    }
}

/// Other limit for joining Dao
/// use_token:Whether to enable token restriction
/// use_nft:Whether to enable nft restriction
/// token:the token of limit
/// token_balance_limit:the balance of limit
/// nft:the nft address
/// nft_balance_limit:the balance of limit
/// nft_time_limit:Remaining time limit of NFT
#[derive(Clone, Debug)]
pub struct OtherConditions {
    pub use_token: bool,
    pub use_nft: bool,
    pub token: String,
    pub token_balance_limit: u128,
    pub nft: String,
    pub nft_balance_limit: u128,
    pub nft_time_limit: u128,
}

impl OtherConditions {
    pub open spec fn same_as(&self, other: &OtherConditions) -> bool {
        &&& self.use_token == other.use_token
        &&& self.use_nft == other.use_nft
        &&& self.token@ == other.token@
        &&& self.token_balance_limit == other.token_balance_limit
        &&& self.nft@ == other.nft@
        &&& self.nft_balance_limit == other.nft_balance_limit
        &&& self.nft_time_limit == other.nft_time_limit
    }

    pub fn duplicate(&self) -> (r: OtherConditions)
        ensures
            r.same_as(self),
    {
        OtherConditions {
            use_token: self.use_token,
            use_nft: self.use_nft,
            token: self.token.clone(),
            token_balance_limit: self.token_balance_limit,
            nft: self.nft.clone(),
            nft_balance_limit: self.nft_balance_limit,
            nft_time_limit: self.nft_time_limit,
        }
    }
}

///creator:the creator's address
///owner:the manager's address
/// fee_limit:the fee limit info
/// other_limit:the other limit info
/// conditions:Specific restriction type
pub struct DaoSetting {
    creator: String,
    owner: String,
    fee_limit: FeeConditions,
    other_limit: OtherConditions,
    conditions: u64,
}

impl DaoSetting {
    pub closed spec fn spec_creator(&self) -> Seq<char> {
        self.creator@
    }

    pub closed spec fn spec_owner(&self) -> Seq<char> {
        self.owner@
    }

    pub closed spec fn spec_fee_limit(&self) -> FeeConditions {
        self.fee_limit
    }

    pub closed spec fn spec_other_limit(&self) -> OtherConditions {
        self.other_limit
    }

    pub closed spec fn spec_conditions(&self) -> u64 {
        self.conditions
    }

    /// `signer` creates the settings of a dao created by `creator`; nothing is
    /// restricted and the tokens default to the signer.
    pub fn new(signer: String, creator: String) -> (r: Self)
        ensures
            r.spec_creator() == creator@,
            r.spec_owner() == signer@,
            r.spec_conditions() == 0,
            r.spec_fee_limit().time_limit == 0 && r.spec_fee_limit().fee_limit == 0
                && r.spec_fee_limit().token@ == signer@,
            !r.spec_other_limit().use_token && !r.spec_other_limit().use_nft,
            r.spec_other_limit().token@ == signer@ && r.spec_other_limit().nft@ == signer@,
            r.spec_other_limit().token_balance_limit == 0 && r.spec_other_limit().nft_balance_limit == 0
                && r.spec_other_limit().nft_time_limit == 0,
    {
        DaoSetting {
            creator,
            owner: signer.clone(),
            fee_limit: FeeConditions { time_limit: 0, fee_limit: 0, token: signer.clone() },
            other_limit: OtherConditions {
                use_token: false,
                use_nft: false,
                token: signer.clone(),
                token_balance_limit: 0,
                nft: signer,
                nft_balance_limit: 0,
                nft_time_limit: 0,
            },
            conditions: 0,
        }
    }

    /// The creator, the only one who may set the joining restriction.
    pub fn creator(&self) -> (r: String)
        ensures
            r@ == self.spec_creator(),
    {
        self.creator.clone()
    }

    ///Get what restrictions to use
    pub fn get_conditions(&self) -> (r: u64)
        ensures
            r == self.spec_conditions(),
    {
        self.conditions
    }

    ///Get fee limit
    pub fn get_fee_setting(self) -> (r: FeeConditions)
        ensures
            r == self.spec_fee_limit(),
    {
        self.fee_limit
    }

    ///Get other limit
    pub fn get_other_setting(self) -> (r: OtherConditions)
        ensures
            r == self.spec_other_limit(),
    {
        self.other_limit
    }

    ///set join limit; only the creator may. Condition 2 takes the fee conditions, 4
    ///the other conditions, 6 both; any other condition keeps both.
    pub fn set_join_limit(
        &mut self,
        signer: String,
        conditions: u64,
        other_conditions: OtherConditions,
        fee_conditions: FeeConditions,
    ) -> (r: bool)
        requires
            signer@ == old(self).spec_creator(),
        ensures
            r,
            final(self).spec_conditions() == conditions,
            final(self).spec_fee_limit() == if conditions == CONDITION_FEE || conditions == CONDITION_BOTH {
                fee_conditions
            } else {
                old(self).spec_fee_limit()
            },
            final(self).spec_other_limit() == if conditions == CONDITION_OTHER || conditions == CONDITION_BOTH {
                other_conditions
            } else {
                old(self).spec_other_limit()
            },
            final(self).spec_creator() == old(self).spec_creator(),
            final(self).spec_owner() == old(self).spec_owner(),
    {
        if conditions == CONDITION_FEE {
            self.fee_limit = fee_conditions;
        } else if conditions == CONDITION_OTHER {
            self.other_limit = other_conditions;
        } else if conditions == CONDITION_BOTH {
            self.fee_limit = fee_conditions;
            self.other_limit = other_conditions;
        }
        self.conditions = conditions;
        true
    }
}

} // verus!

use vstd::prelude::*;

use crate::account::{AccountId, CodeHash};
use crate::instantiate::{ConstructorArgs, InstantiateRequest, Salt, is_erc20_args};
use crate::income_category::IncomeInfo;

verus! {

/// What each token is endowed with when it is instantiated.
pub const CONTRACT_INIT_BALANCE: u128 = 1000 * 1_000_000_000_000;

/// The `transfer_from` a token's creator pays the creation fee with.
#[derive(Clone, Copy, Debug, PartialEq, Eq, Structural)]
pub struct FeeTransfer {
    pub token: AccountId,
    pub from: AccountId,
    pub to: AccountId,
    pub value: u128,
}

/// Creates tokens, charging the creation fee the income categories set for "erc20".
pub struct Erc20Factory {
    route_addr: AccountId,
}

impl Erc20Factory {
    pub closed spec fn spec_route_addr(&self) -> AccountId {
        self.route_addr
    }

    /// The factory finds the protocol's contracts through the routes at `route_addr`.
    pub fn new(route_addr: AccountId) -> (r: Self)
        ensures
            r.spec_route_addr() == route_addr,
    {
        Erc20Factory { route_addr }
    }

    /// The query that finds the address of the contract `target_name`: the routes at
    /// `route_addr` are asked for the route of that name.
    pub fn get_contract_addr(&self, target_name: String) -> (r: (AccountId, String))
        ensures
            r.0 == self.spec_route_addr(),
            r.1@ == target_name@,
    {
        (self.route_addr, target_name)
    }

    /// The request that instantiates a token from `erc20_code_hash`, endowed and salted
    /// with the one byte `version`, whose whole `initial_supply` goes to `owner`.
    pub fn erc20_request(
        &self,
        erc20_code_hash: CodeHash,
        version: u8,
        initial_supply: u128,
        name: String,
        symbol: String,
        decimals: u8,
        owner: AccountId,
    ) -> (r: InstantiateRequest)
        ensures
            r.code_hash == erc20_code_hash,
            r.endowment == CONTRACT_INIT_BALANCE,
            r.salt == Salt::Version8(version),
            is_erc20_args(r.args, initial_supply, name@, symbol@, decimals, owner),
    {
        InstantiateRequest {
            code_hash: erc20_code_hash,
            endowment: CONTRACT_INIT_BALANCE,
            salt: Salt::Version8(version),
            args: ConstructorArgs::Erc20 { initial_supply, name, symbol, decimals, owner },
        }
    }

    /// After a token was instantiated at `contract_addr`, a fee is due only when the
    /// income categories are routed (`income_category_addr` is not the zero account).
    pub fn new_erc20(&mut self, contract_addr: AccountId, income_category_addr: AccountId) -> (r: (AccountId, bool))
        ensures
            r.0 == contract_addr,
            r.1 == (income_category_addr != AccountId::spec_zero()),
            *final(self) == *old(self),
    {
        (contract_addr, !income_category_addr.is_zero())
    }

    /// With `category`, the income categories' "erc20" entry: the creator pays the fee
    /// to the income categories when that kind of income is charged.
    pub fn send_income_fee(&mut self, caller: AccountId, income_category_addr: AccountId, category: IncomeInfo) -> (r: Option<FeeTransfer>)
        ensures
            r == if category.is_used {
                Some(FeeTransfer { token: category.token, from: caller, to: income_category_addr, value: category.fee })
            } else {
                None
            },
            *final(self) == *old(self),
    {
        if category.is_used {
            Some(self.get_fee_from_user(caller, category.token, category.fee, income_category_addr))
        } else {
            None
        }
    }

    fn get_fee_from_user(&mut self, caller: AccountId, token_account: AccountId, fee: u128, to_account: AccountId) -> (r: FeeTransfer)
        ensures
            r == (FeeTransfer { token: token_account, from: caller, to: to_account, value: fee }),
            *final(self) == *old(self),
    {
        FeeTransfer { token: token_account, from: caller, to: to_account, value: fee }
    }
}

} // verus!

use vstd::prelude::*;

use crate::account::{AccountId, CodeHash};

verus! {

/// What a new contract's account is salted with: the little-endian bytes of a
/// version number, of 16 bytes or of 1.
#[derive(Clone, Copy, Debug, PartialEq, Eq, Structural)]
pub enum Salt {
    Version128(u128),
    Version8(u8),
}

/// The arguments of the constructor a contract is instantiated with.
#[derive(Clone, Debug)]
pub enum ConstructorArgs {
    /// The dao setting, which its creator manages.
    Setting { creator: AccountId },
    /// The dao base, created empty.
    Base,
    /// A token with its whole supply at `owner`.
    Erc20 { initial_supply: u128, name: String, symbol: String, decimals: u8, owner: AccountId },
    /// The dao users, which read the dao setting at `setting`.
    Users { setting: AccountId },
    /// The vault, created empty.
    Vault,
    /// The proposals of `creator`, voted with the token at `erc20`.
    Proposal { creator: AccountId, erc20: AccountId },
}

/// A contract to instantiate: its code, its endowment, its salt and its constructor.
#[derive(Clone, Debug)]
pub struct InstantiateRequest {
    pub code_hash: CodeHash,
    pub endowment: u128,
    pub salt: Salt,
    pub args: ConstructorArgs,
}

/// The constructor of a token with these parameters.
pub open spec fn is_erc20_args(
    args: ConstructorArgs,
    initial_supply: u128,
    name: Seq<char>,
    symbol: Seq<char>,
    decimals: u8,
    owner: AccountId,
) -> bool {
    match args {
        ConstructorArgs::Erc20 { initial_supply: s, name: n, symbol: y, decimals: d, owner: o } => {
            &&& s == initial_supply
            &&& n@ == name
            &&& y@ == symbol
            &&& d == decimals
            &&& o == owner
        },
        _ => false,
    }
}

} // verus!

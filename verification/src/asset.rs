//! The three tracked assets.

use vstd::prelude::*;

verus! {

/// Decimals of each tracked token in this deployment.
pub const TOKEN_DECIMALS: u8 = 18;

/// A tracked asset. The order of the variants is the order in which the
/// balances are fetched, normalised and committed.
#[derive(Clone, Copy, Debug, PartialEq, Eq, Structural)]
pub enum Asset {
    Wbtc,
    Eth,
    Doge,
}

impl Asset {
    /// The asset's ticker symbol.
    pub open spec fn symbol_spec(self) -> Seq<char> {
        match self {
            Asset::Wbtc => "WBTC"@,
            Asset::Eth => "ETH"@,
            Asset::Doge => "DOGE"@,
        }
    }

    /// The address of the asset's token contract, in checksummed form.
    pub open spec fn contract_spec(self) -> Seq<char> {
        match self {
            Asset::Wbtc => "0xf25e4e1efb5d58888eD81B4F57EfA7F2C8627a5C"@,
            Asset::Eth => "0x6B03130617E98A98B40abD02f46c4a9C8443D416"@,
            Asset::Doge => "0x393F64252e0a8f9461152Dc9501393dD860f5429"@,
        }
    }

    /// The asset's ticker symbol.
    pub fn symbol(self) -> (text: &'static str)
        ensures
            text@ == self.symbol_spec(),
    {
        match self {
            Asset::Wbtc => "WBTC",
            Asset::Eth => "ETH",
            Asset::Doge => "DOGE",
        }
    }

    /// The address of the asset's token contract, in checksummed form.
    pub fn contract(self) -> (text: &'static str)
        ensures
            text@ == self.contract_spec(),
    {
        match self {
            Asset::Wbtc => "0xf25e4e1efb5d58888eD81B4F57EfA7F2C8627a5C",
            Asset::Eth => "0x6B03130617E98A98B40abD02f46c4a9C8443D416",
            Asset::Doge => "0x393F64252e0a8f9461152Dc9501393dD860f5429",
        }
    }
}

} // verus!

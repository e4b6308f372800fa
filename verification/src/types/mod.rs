//! Types shared by every protocol operation.

pub mod blockchain;

use vstd::prelude::*;
use vstd::string::StringExecFns;

verus! {

/// The blockchain families that the exchange settles on.
///
/// Bitcoin and Ethereum sign on the curve secp256k1, NEO on secp256r1.
#[derive(Clone, Copy, Debug, PartialEq, Eq, Structural, Hash)]
pub enum Blockchain {
    NEO,
    Ethereum,
    Bitcoin,
}

/// The two curve families that the blockchains sign on.
#[derive(Clone, Copy, Debug, PartialEq, Eq, Structural, Hash)]
pub enum Curve {
    Secp256k1,
    Secp256r1,
}

impl Blockchain {
    /// The curve family of this blockchain.
    pub open spec fn spec_curve(self) -> Curve {
        match self {
            Blockchain::Bitcoin => Curve::Secp256k1,
            Blockchain::Ethereum => Curve::Secp256k1,
            Blockchain::NEO => Curve::Secp256r1,
        }
    }

    /// The curve family of this blockchain.
    #[verifier::when_used_as_spec(spec_curve)]
    pub fn curve(self) -> (curve: Curve)
        ensures
            curve == self.spec_curve(),
    {
        match self {
            Blockchain::Bitcoin => Curve::Secp256k1,
            Blockchain::Ethereum => Curve::Secp256k1,
            Blockchain::NEO => Curve::Secp256r1,
        }
    }
}

/// The assets that can be traded.
#[derive(Clone, Copy, Debug, PartialEq, Eq, Structural, Hash)]
pub enum Asset {
    ETH,
    BAT,
    USDC,
    BTC,
    NEO,
    GAS,
}

impl Asset {
    /// The blockchain that this asset lives on.
    pub open spec fn spec_blockchain(self) -> Blockchain {
        match self {
            Asset::ETH => Blockchain::Ethereum,
            Asset::BAT => Blockchain::Ethereum,
            Asset::USDC => Blockchain::Ethereum,
            Asset::BTC => Blockchain::Bitcoin,
            Asset::NEO => Blockchain::NEO,
            Asset::GAS => Blockchain::NEO,
        }
    }

    /// The name of this asset on the wire.
    pub open spec fn spec_name(self) -> Seq<char> {
        match self {
            Asset::ETH => "eth"@,
            Asset::BAT => "bat"@,
            Asset::USDC => "usdc"@,
            Asset::BTC => "btc"@,
            Asset::NEO => "neo"@,
            Asset::GAS => "gas"@,
        }
    }

    /// The name of this asset on the wire.
    pub fn name(self) -> (name: &'static str)
        ensures
            name@ == self.spec_name(),
    {
        match self {
            Asset::ETH => "eth",
            Asset::BAT => "bat",
            Asset::USDC => "usdc",
            Asset::BTC => "btc",
            Asset::NEO => "neo",
            Asset::GAS => "gas",
        }
    }

    /// The blockchain that this asset lives on.
    #[verifier::when_used_as_spec(spec_blockchain)]
    pub fn blockchain(self) -> (chain: Blockchain)
        ensures
            chain == self.spec_blockchain(),
    {
        match self {
            Asset::ETH => Blockchain::Ethereum,
            Asset::BAT => Blockchain::Ethereum,
            Asset::USDC => Blockchain::Ethereum,
            Asset::BTC => Blockchain::Bitcoin,
            Asset::NEO => Blockchain::NEO,
            Asset::GAS => Blockchain::NEO,
        }
    }
}

/// A market: one asset traded against another.
#[derive(Clone, Copy, Debug, PartialEq, Eq, Structural, Hash)]
pub struct Market {
    pub asset_a: Asset,
    pub asset_b: Asset,
}

impl Market {
    /// The name of the market on the wire: the names of its two assets,
    /// joined by an underscore.
    pub open spec fn spec_market_name(self) -> Seq<char> {
        self.asset_a.spec_name() + "_"@ + self.asset_b.spec_name()
    }

    /// The name of the market on the wire.
    pub fn market_name(&self) -> (name: String)
        ensures
            name@ == self.spec_market_name(),
    {
        self.asset_a.name().to_owned().concat("_").concat(self.asset_b.name())
    }
}

} // verus!

//! The networks the indexer can serve and the fixed defaults of each.
use vstd::prelude::*;
use std::str::FromStr;

verus! {

/// Lets `std::io::Error` appear in signatures and fields; its contents stay opaque.
#[verifier::external_type_specification]
#[verifier::external_body]
pub struct ExIoError(std::io::Error);

/// Lets `bitcoin::Network` appear in signatures; its contents stay opaque.
#[verifier::external_type_specification]
#[verifier::external_body]
pub struct ExBitcoinNetwork(bitcoin::network::constants::Network);

/// The network served: the main chain, the public test chain or a local
/// regression-test chain.
#[derive(Clone, Copy, Debug, PartialEq, Eq, Structural)]
pub enum NetworkType {
    MainNet,
    TestNet,
    RegTest,
}

/// Default IPv4 address of both RPC endpoints: the loopback address.
pub const DEFAULT_SERVER_ADDRESS: [u8; 4] = [127, 0, 0, 1];

/// The fixed defaults of one network.
#[derive(Clone, Copy, Debug, PartialEq, Eq)]
pub struct NetworkProfile {
    /// Directory under the storage root that holds this network's index.
    pub db_subdir: &'static str,
    /// Directory under the node's data directory that holds this network's
    /// data, if any.
    pub daemon_subdir: Option<&'static str>,
    /// Default port of the node's RPC endpoint.
    pub default_daemon_port: u16,
    /// Default port of the indexer's own RPC endpoint.
    pub default_indexer_port: u16,
}

/// Name of the index directory of a network ("mainnet" is kept for the main
/// chain so that existing indexes stay where they are).
pub open spec fn db_subdir_of(n: NetworkType) -> Seq<char> {
    match n {
        NetworkType::MainNet => "mainnet"@,
        NetworkType::TestNet => "testnet"@,
        NetworkType::RegTest => "regtest"@,
    }
}

/// Subdirectory of the node's data directory used on a network.
pub open spec fn daemon_subdir_of(n: NetworkType) -> Option<Seq<char>> {
    match n {
        NetworkType::MainNet => None,
        NetworkType::TestNet => Some("testnet3"@),
        NetworkType::RegTest => Some("regtest"@),
    }
}

pub open spec fn default_daemon_port_of(n: NetworkType) -> u16 {
    match n {
        NetworkType::MainNet => 8332,
        NetworkType::TestNet => 18332,
        NetworkType::RegTest => 18443,
    }
}

pub open spec fn default_indexer_port_of(n: NetworkType) -> u16 {
    match n {
        NetworkType::MainNet => 8432,
        NetworkType::TestNet => 18432,
        NetworkType::RegTest => 18543,
    }
}

/// The name by which a network is selected in configuration.
pub open spec fn selector_of(n: NetworkType) -> Seq<char> {
    match n {
        NetworkType::MainNet => "bitcoin"@,
        NetworkType::TestNet => "testnet"@,
        NetworkType::RegTest => "regtest"@,
    }
}

/// Whether `s` names one of the networks.
pub open spec fn is_selector(s: Seq<char>) -> bool {
    exists|n: NetworkType| selector_of(n) == s
}

impl NetworkProfile {
    /// Whether this profile holds exactly the defaults of network `n`.
    pub open spec fn is_profile_of(&self, n: NetworkType) -> bool {
        &&& self.db_subdir@ == db_subdir_of(n)
        &&& match (self.daemon_subdir, daemon_subdir_of(n)) {
            (None, None) => true,
            (Some(d), Some(e)) => d@ == e,
            _ => false,
        }
        &&& self.default_daemon_port == default_daemon_port_of(n)
        &&& self.default_indexer_port == default_indexer_port_of(n)
    }
}

impl NetworkType {
    /// The fixed defaults of this network.
    pub fn profile(&self) -> (r: NetworkProfile)
        ensures
            r.is_profile_of(*self),
    {
        proof {
            reveal_strlit("mainnet");
            reveal_strlit("testnet");
            reveal_strlit("testnet3");
            reveal_strlit("regtest");
        }
        match self {
            NetworkType::MainNet => NetworkProfile {
                db_subdir: "mainnet",
                daemon_subdir: None,
                default_daemon_port: 8332,
                default_indexer_port: 8432,
            },
            NetworkType::TestNet => NetworkProfile {
                db_subdir: "testnet",
                daemon_subdir: Some("testnet3"),
                default_daemon_port: 18332,
                default_indexer_port: 18432,
            },
            NetworkType::RegTest => NetworkProfile {
                db_subdir: "regtest",
                daemon_subdir: Some("regtest"),
                default_daemon_port: 18443,
                default_indexer_port: 18543,
            },
        }
    }
}

/// The networks' defaults tell them apart: no two networks share a port or
/// an index directory, no network's node port is any network's indexer port,
/// and the index directories are named "mainnet", "testnet" and "regtest".
pub proof fn lemma_network_defaults_distinct(a: NetworkType, b: NetworkType)
    ensures
        a != b ==> default_daemon_port_of(a) != default_daemon_port_of(b),
        a != b ==> default_indexer_port_of(a) != default_indexer_port_of(b),
        a != b ==> db_subdir_of(a) != db_subdir_of(b),
        default_daemon_port_of(a) != default_indexer_port_of(b),
        db_subdir_of(NetworkType::MainNet) == "mainnet"@,
        db_subdir_of(NetworkType::TestNet) == "testnet"@,
        db_subdir_of(NetworkType::RegTest) == "regtest"@,
{
    reveal_strlit("mainnet");
    reveal_strlit("testnet");
    reveal_strlit("regtest");
    assert("mainnet"@[0] != "testnet"@[0]);
    assert("mainnet"@[0] != "regtest"@[0]);
    assert("testnet"@[0] != "regtest"@[0]);
}

/// Relies on bitcoin's `FromStr` for `Network`, which accepts exactly
/// "bitcoin", "testnet" and "regtest" and fails with an `io::Error` otherwise.
#[verifier::external_body]
fn parse_bitcoin_network(s: &str) -> (r: Result<NetworkType, std::io::Error>)
    ensures
        match r {
            Ok(n) => selector_of(n) == s@,
            Err(_) => !is_selector(s@),
        },
{
    match bitcoin::network::constants::Network::from_str(s) {
        Ok(bitcoin::network::constants::Network::Bitcoin) => Ok(NetworkType::MainNet),
        Ok(bitcoin::network::constants::Network::Testnet) => Ok(NetworkType::TestNet),
        Ok(bitcoin::network::constants::Network::Regtest) => Ok(NetworkType::RegTest),
        Err(e) => Err(e),
    }
}

/// Relies on bitcoin's `Network` having one variant for each network; the
/// value made is opaque here.
#[verifier::external_body]
fn to_bitcoin_network(n: NetworkType) -> bitcoin::network::constants::Network {
    match n {
        NetworkType::MainNet => bitcoin::network::constants::Network::Bitcoin,
        NetworkType::TestNet => bitcoin::network::constants::Network::Testnet,
        NetworkType::RegTest => bitcoin::network::constants::Network::Regtest,
    }
}

/// The network setting as read from configuration.
#[derive(Clone, Copy, Debug, PartialEq, Eq, Structural)]
pub struct BitcoinNetwork(pub NetworkType);

impl Default for BitcoinNetwork {
    fn default() -> (r: Self)
        ensures
            r.0 == NetworkType::MainNet,
    {
        BitcoinNetwork(NetworkType::MainNet)
    }
}

impl FromStr for BitcoinNetwork {
    type Err = std::io::Error;

    fn from_str(s: &str) -> Result<Self, Self::Err> {
        BitcoinNetwork::parse(s)
    }
}

impl BitcoinNetwork {
    /// Reads a network selector: "bitcoin", "testnet" or "regtest".
    pub fn parse(s: &str) -> (r: Result<BitcoinNetwork, std::io::Error>)
        ensures
            r is Ok <==> is_selector(s@),
            r matches Ok(b) ==> selector_of(b.0) == s@,
    {
        match parse_bitcoin_network(s) {
            Ok(n) => Ok(BitcoinNetwork(n)),
            Err(e) => Err(e),
        }
    }

    /// What the setting accepts, in words.
    pub fn describe_type() -> (r: &'static str)
        ensures
            r@ == "either 'bitcoin', 'testnet' or 'regtest'"@,
    {
        "either 'bitcoin', 'testnet' or 'regtest'"
    }

    /// The selected network as bitcoin's own value.
    pub fn into(self) -> bitcoin::network::constants::Network {
        to_bitcoin_network(self.0)
    }

    /// The selected network.
    pub fn network_type(&self) -> (r: NetworkType)
        ensures
            r == self.0,
    {
        self.0
    }
}

} // verus!

//! The closed set of networks this library knows, with their names, magic
//! numbers, genesis hashes and the conversion to and from the consensus
//! library's own network type.

use vstd::prelude::*;
use vstd::string::StrSliceExecFns;

pub use bitcoin::network::constants::Network as BNetwork;

verus! {

broadcast use vstd::string::group_string_axioms;

/// The consensus library's network enum, with its variants visible.
#[verifier::external_type_specification]
pub struct ExBNetwork(BNetwork);

/// The message-start bytes of each chain, as the consensus library defines them.
pub open spec fn consensus_magic(network: BNetwork) -> u32 {
    match network {
        BNetwork::Bitcoin => 0xD9B4BEF9,
        BNetwork::Testnet => 0x0709110B,
        BNetwork::Signet => 0x40CF030A,
        BNetwork::Regtest => 0xDAB5BFFA,
    }
}

/// Relies on bitcoin's `Network::magic`: a fixed constant per network.
pub assume_specification[ BNetwork::magic ](network: BNetwork) -> (r: u32)
    ensures
        r == consensus_magic(network),
;

/// The hash of the genesis block of a network, in its internal byte order
/// (the reverse of the usual hexadecimal display).
pub open spec fn genesis_hash_of(network: BNetwork) -> Seq<u8> {
    match network {
        BNetwork::Bitcoin => seq![
            0x6f, 0xe2, 0x8c, 0x0a, 0xb6, 0xf1, 0xb3, 0x72,
            0xc1, 0xa6, 0xa2, 0x46, 0xae, 0x63, 0xf7, 0x4f,
            0x93, 0x1e, 0x83, 0x65, 0xe1, 0x5a, 0x08, 0x9c,
            0x68, 0xd6, 0x19, 0x00, 0x00, 0x00, 0x00, 0x00,
        ],
        BNetwork::Testnet => seq![
            0x43, 0x49, 0x7f, 0xd7, 0xf8, 0x26, 0x95, 0x71,
            0x08, 0xf4, 0xa3, 0x0f, 0xd9, 0xce, 0xc3, 0xae,
            0xba, 0x79, 0x97, 0x20, 0x84, 0xe9, 0x0e, 0xad,
            0x01, 0xea, 0x33, 0x09, 0x00, 0x00, 0x00, 0x00,
        ],
        BNetwork::Regtest => seq![
            0x06, 0x22, 0x6e, 0x46, 0x11, 0x1a, 0x0b, 0x59,
            0xca, 0xaf, 0x12, 0x60, 0x43, 0xeb, 0x5b, 0xbf,
            0x28, 0xc3, 0x4f, 0x3a, 0x5e, 0x33, 0x2a, 0x1f,
            0xc7, 0xb2, 0xb7, 0x3c, 0xf1, 0x88, 0x91, 0x0f,
        ],
        BNetwork::Signet => seq![
            0xf6, 0x1e, 0xee, 0x3b, 0x63, 0xa3, 0x80, 0xa4,
            0x77, 0xa0, 0x63, 0xaf, 0x32, 0xb2, 0xbb, 0xc9,
            0x7c, 0x9f, 0xf9, 0xf0, 0x1f, 0x2c, 0x42, 0x25,
            0xe9, 0x73, 0x98, 0x81, 0x08, 0x00, 0x00, 0x00,
        ],
    }
}

/// Relies on bitcoin's `blockdata::constants::genesis_block` and
/// `Block::block_hash`: the hash of the fixed genesis block of the network,
/// whose known values bitcoin's own tests check.
#[verifier::external_body]
fn genesis_block_hash(network: BNetwork) -> (r: [u8; 32])
    ensures
        r@ == genesis_hash_of(network),
{
    let hash = bitcoin::blockdata::constants::genesis_block(network).block_hash();
    bitcoin::hashes::Hash::into_inner(hash)
}

/// A chain this library can index.
#[derive(Debug, Copy, Clone, PartialEq, Eq, Hash, PartialOrd, Ord, Structural)]
pub enum Network {
    Bitcoin,
    Testnet,
    Regtest,
    Signet,
}

/// The four networks in their canonical order.
pub open spec fn all_networks() -> Seq<Network> {
    seq![Network::Bitcoin, Network::Testnet, Network::Regtest, Network::Signet]
}

/// The network whose canonical name is `name`, if any.
pub open spec fn network_named(name: Seq<char>) -> Option<Network> {
    if name == "mainnet"@ {
        Some(Network::Bitcoin)
    } else if name == "testnet"@ {
        Some(Network::Testnet)
    } else if name == "regtest"@ {
        Some(Network::Regtest)
    } else if name == "signet"@ {
        Some(Network::Signet)
    } else {
        None
    }
}

/// The library's network for a consensus network.
pub open spec fn from_consensus(network: BNetwork) -> Network {
    match network {
        BNetwork::Bitcoin => Network::Bitcoin,
        BNetwork::Testnet => Network::Testnet,
        BNetwork::Regtest => Network::Regtest,
        BNetwork::Signet => Network::Signet,
    }
}

impl Network {
    /// The canonical lowercase name.
    pub open spec fn spec_name(self) -> Seq<char> {
        match self {
            Network::Bitcoin => "mainnet"@,
            Network::Testnet => "testnet"@,
            Network::Regtest => "regtest"@,
            Network::Signet => "signet"@,
        }
    }

    /// The consensus library's value for this network.
    pub open spec fn to_consensus(self) -> BNetwork {
        match self {
            Network::Bitcoin => BNetwork::Bitcoin,
            Network::Testnet => BNetwork::Testnet,
            Network::Regtest => BNetwork::Regtest,
            Network::Signet => BNetwork::Signet,
        }
    }

    /// The message-start bytes of the chain.
    pub fn magic(self) -> (r: u32)
        ensures
            r == consensus_magic(self.to_consensus()),
    {
        BNetwork::from(self).magic()
    }

    /// Whether this is the local regression-test chain.
    pub fn is_regtest(self) -> (r: bool)
        ensures
            r == (self == Network::Regtest),
    {
        match self {
            Network::Regtest => true,
            _ => false,
        }
    }

    /// The canonical lowercase name.
    pub fn to_name(self) -> (r: String)
        ensures
            r@ == self.spec_name(),
    {
        match self {
            Network::Bitcoin => "mainnet".to_string(),
            Network::Testnet => "testnet".to_string(),
            Network::Regtest => "regtest".to_string(),
            Network::Signet => "signet".to_string(),
        }
    }

    /// The canonical names of all networks, in the order mainnet, testnet,
    /// regtest, signet.
    pub fn names() -> (r: Vec<String>)
        ensures
            r@.len() == all_networks().len(),
            forall|i: int| 0 <= i < r@.len() ==> (#[trigger] r@[i])@ == all_networks()[i].spec_name(),
    {
        vec![
            Network::Bitcoin.to_name(),
            Network::Testnet.to_name(),
            Network::Regtest.to_name(),
            Network::Signet.to_name(),
        ]
    }
}

/// The network named `name`, or an error that carries the name when no
/// network has it. An unknown name is a configuration error.
pub fn from_name(name: &str) -> (r: Result<Network, UnsupportedNetwork>)
    ensures
        match r {
            Ok(network) => network_named(name@) == Some(network),
            Err(e) => network_named(name@).is_none() && e.name@ == name@,
        },
{
    if str_equals(name, "mainnet") {
        Ok(Network::Bitcoin)
    } else if str_equals(name, "testnet") {
        Ok(Network::Testnet)
    } else if str_equals(name, "regtest") {
        Ok(Network::Regtest)
    } else if str_equals(name, "signet") {
        Ok(Network::Signet)
    } else {
        Err(UnsupportedNetwork { name: name.to_string() })
    }
}

/// A network name that no network has.
#[derive(Debug, Clone, PartialEq, Eq)]
pub struct UnsupportedNetwork {
    pub name: String,
}

/// Character-wise equality of two strings.
fn str_equals(a: &str, b: &str) -> (r: bool)
    ensures
        r == (a@ == b@),
{
    let n = a.unicode_len();
    if n != b.unicode_len() {
        return false;
    }
    let mut i: usize = 0;
    while i < n
        invariant
            n == a@.len(),
            n == b@.len(),
            i <= n,
            a@.subrange(0, i as int) == b@.subrange(0, i as int),
        decreases n - i,
    {
        if a.get_char(i) != b.get_char(i) {
            return false;
        }
        assert(a@.subrange(0, i + 1) == a@.subrange(0, i as int).push(a@[i as int]));
        assert(b@.subrange(0, i + 1) == b@.subrange(0, i as int).push(b@[i as int]));
        i = i + 1;
    }
    assert(a@ == a@.subrange(0, n as int));
    assert(b@ == b@.subrange(0, n as int));
    true
}

impl From<Network> for BNetwork {
    fn from(network: Network) -> BNetwork {
        match network {
            Network::Bitcoin => BNetwork::Bitcoin,
            Network::Testnet => BNetwork::Testnet,
            Network::Regtest => BNetwork::Regtest,
            Network::Signet => BNetwork::Signet,
        }
    }
}

impl vstd::std_specs::convert::FromSpecImpl<Network> for BNetwork {
    open spec fn obeys_from_spec() -> bool {
        true
    }

    open spec fn from_spec(v: Network) -> BNetwork {
        v.to_consensus()
    }
}

impl From<BNetwork> for Network {
    fn from(network: BNetwork) -> Network {
        match network {
            BNetwork::Bitcoin => Network::Bitcoin,
            BNetwork::Testnet => Network::Testnet,
            BNetwork::Regtest => Network::Regtest,
            BNetwork::Signet => Network::Signet,
        }
    }
}

impl vstd::std_specs::convert::FromSpecImpl<BNetwork> for Network {
    open spec fn obeys_from_spec() -> bool {
        true
    }

    open spec fn from_spec(v: BNetwork) -> Network {
        from_consensus(v)
    }
}

/// The hash of the genesis block of a consensus network.
pub fn bitcoin_genesis_hash(network: BNetwork) -> (r: [u8; 32])
    ensures
        r@ == genesis_hash_of(network),
{
    genesis_block_hash(network)
}

/// The hash of the genesis block of a network.
pub fn genesis_hash(network: Network) -> (r: [u8; 32])
    ensures
        r@ == genesis_hash_of(network.to_consensus()),
{
    bitcoin_genesis_hash(BNetwork::from(network))
}

/// Genesis hashes computed on first use and kept for later calls.
pub struct GenesisCache {
    bitcoin: Option<[u8; 32]>,
    testnet: Option<[u8; 32]>,
    regtest: Option<[u8; 32]>,
    signet: Option<[u8; 32]>,
}

impl GenesisCache {
    /// The slot that holds the hash of `network`.
    pub closed spec fn slot(&self, network: Network) -> Option<[u8; 32]> {
        match network {
            Network::Bitcoin => self.bitcoin,
            Network::Testnet => self.testnet,
            Network::Regtest => self.regtest,
            Network::Signet => self.signet,
        }
    }

    /// Every filled slot holds the genesis hash of its network.
    pub closed spec fn wf(&self) -> bool {
        forall|network: Network|
            #[trigger] self.slot(network) is Some ==> self.slot(network)->0@ == genesis_hash_of(
                network.to_consensus(),
            )
    }

    /// A cache with nothing computed yet.
    pub fn new() -> (r: GenesisCache)
        ensures
            r.wf(),
            forall|network: Network| #[trigger] r.slot(network) is None,
    {
        GenesisCache { bitcoin: None, testnet: None, regtest: None, signet: None }
    }

    /// The genesis hash of `network`, computed on the first call for it.
    pub fn get(&mut self, network: Network) -> (r: [u8; 32])
        requires
            old(self).wf(),
        ensures
            final(self).wf(),
            r@ == genesis_hash_of(network.to_consensus()),
            final(self).slot(network) == Some(r),
            old(self).slot(network) is Some ==> final(self).slot(network) == old(self).slot(network),
            forall|other: Network|
                other != network ==> #[trigger] final(self).slot(other) == old(self).slot(other),
    {
        let cached = match network {
            Network::Bitcoin => self.bitcoin,
            Network::Testnet => self.testnet,
            Network::Regtest => self.regtest,
            Network::Signet => self.signet,
        };
        assert(cached == self.slot(network));
        match cached {
            Some(h) => h,
            None => {
                let h = genesis_hash(network);
                match network {
                    Network::Bitcoin => self.bitcoin = Some(h),
                    Network::Testnet => self.testnet = Some(h),
                    Network::Regtest => self.regtest = Some(h),
                    Network::Signet => self.signet = Some(h),
                }
                assert forall|m: Network| m != network implies #[trigger] self.slot(m) == old(
                    self,
                ).slot(m) by {}
                assert forall|m: Network| #[trigger] self.slot(m) is Some implies self.slot(m)->0@
                    == genesis_hash_of(m.to_consensus()) by {
                    if m != network {
                        assert(self.slot(m) == old(self).slot(m));
                    }
                }
                h
            },
        }
    }
}

/// No two networks share a genesis hash.
pub proof fn lemma_genesis_hashes_distinct(a: Network, b: Network)
    requires
        a != b,
    ensures
        genesis_hash_of(a.to_consensus()) != genesis_hash_of(b.to_consensus()),
{
    assert(genesis_hash_of(a.to_consensus())[0] != genesis_hash_of(b.to_consensus())[0]);
}

/// Every network is found again from its canonical name.
pub proof fn lemma_name_round_trip(network: Network)
    ensures
        network_named(network.spec_name()) == Some(network),
{
    reveal_strlit("mainnet");
    reveal_strlit("testnet");
    reveal_strlit("regtest");
    reveal_strlit("signet");
    assert("mainnet"@[0] != "testnet"@[0]);
    assert("mainnet"@[0] != "regtest"@[0]);
    assert("testnet"@[0] != "regtest"@[0]);
    assert("mainnet"@.len() != "signet"@.len());
    assert("testnet"@.len() != "signet"@.len());
    assert("regtest"@.len() != "signet"@.len());
}

/// Converting a network to the consensus library's type and back gives it
/// again, and so does the conversion the other way round.
pub proof fn lemma_consensus_round_trip(network: Network, consensus: BNetwork)
    ensures
        from_consensus(network.to_consensus()) == network,
        from_consensus(consensus).to_consensus() == consensus,
{
}

} // verus!

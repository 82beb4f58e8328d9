//! Network presets and the RPC endpoint each one stands for.

use vstd::prelude::*;
use vstd::string::*;
use vstd::std_specs::cmp::PartialEqSpecImpl;

verus! {

/// Network presets for client connections.
#[derive(Debug, Clone, Eq)]
pub enum Network {
    /// Local development network.
    Localnet,
    /// Public development network.
    Devnet,
    /// Public test network.
    Testnet,
    /// Production network.
    Mainnet,
    /// Any other endpoint, given by its URL.
    Custom(String),
}

impl Network {
    /// The RPC URL of this network, as a sequence of characters.
    pub open spec fn url_spec(&self) -> Seq<char> {
        match self {
            Network::Localnet => "http://127.0.0.1:9000"@,
            Network::Devnet => "https://fullnode.devnet.sui.io:443"@,
            Network::Testnet => "https://fullnode.testnet.sui.io:443"@,
            Network::Mainnet => "https://fullnode.mainnet.sui.io:443"@,
            Network::Custom(url) => url@,
        }
    }

    /// Get the default RPC URL for this network.
    pub fn url(&self) -> (res: &str)
        ensures
            res@ == self.url_spec(),
    {
        match self {
            Network::Localnet => "http://127.0.0.1:9000",
            Network::Devnet => "https://fullnode.devnet.sui.io:443",
            Network::Testnet => "https://fullnode.testnet.sui.io:443",
            Network::Mainnet => "https://fullnode.mainnet.sui.io:443",
            Network::Custom(url) => url.as_str(),
        }
    }
}

/// Whether two texts are the same.
fn same_text(a: &str, b: &str) -> (res: bool)
    ensures
        res == (a@ == b@),
{
    String::from_str(a).eq(&String::from_str(b))
}

impl Network {
    /// The network that a configured name stands for: one of the four
    /// presets by its lower-case name, and any other text as the URL of a
    /// custom endpoint.
    pub open spec fn from_name_spec(name: Seq<char>) -> Seq<char> {
        if name == "localnet"@ {
            Network::Localnet.url_spec()
        } else if name == "devnet"@ {
            Network::Devnet.url_spec()
        } else if name == "testnet"@ {
            Network::Testnet.url_spec()
        } else if name == "mainnet"@ {
            Network::Mainnet.url_spec()
        } else {
            name
        }
    }

    /// Reads a network from its configured name.  The name is taken as it
    /// stands: the caller lowers its case first.
    pub fn from_name(name: &str) -> (res: Network)
        ensures
            name@ == "localnet"@ ==> res == Network::Localnet,
            name@ == "devnet"@ ==> res == Network::Devnet,
            name@ == "testnet"@ ==> res == Network::Testnet,
            name@ == "mainnet"@ ==> res == Network::Mainnet,
            name@ != "localnet"@ && name@ != "devnet"@ && name@ != "testnet"@ && name@
                != "mainnet"@ ==> (res matches Network::Custom(url) && url@ == name@),
            res.url_spec() == Self::from_name_spec(name@),
    {
        proof {
            reveal_strlit("localnet");
            reveal_strlit("devnet");
            reveal_strlit("testnet");
            reveal_strlit("mainnet");
            assert("localnet"@.len() == 8);
            assert("devnet"@.len() == 6);
            assert("testnet"@.len() == 7 && "testnet"@[0] == 't');
            assert("mainnet"@.len() == 7 && "mainnet"@[0] == 'm');
        }
        if same_text(name, "localnet") {
            Network::Localnet
        } else if same_text(name, "devnet") {
            Network::Devnet
        } else if same_text(name, "testnet") {
            Network::Testnet
        } else if same_text(name, "mainnet") {
            Network::Mainnet
        } else {
            Network::Custom(String::from_str(name))
        }
    }
}

impl PartialEq for Network {
    fn eq(&self, other: &Network) -> (res: bool) {
        match self {
            Network::Localnet => matches!(other, Network::Localnet),
            Network::Devnet => matches!(other, Network::Devnet),
            Network::Testnet => matches!(other, Network::Testnet),
            Network::Mainnet => matches!(other, Network::Mainnet),
            Network::Custom(a) => match other {
                Network::Custom(b) => a.eq(b),
                _ => false,
            },
        }
    }
}

impl PartialEqSpecImpl for Network {
    open spec fn obeys_eq_spec() -> bool {
        true
    }

    open spec fn eq_spec(&self, other: &Network) -> bool {
        match (self, other) {
            (Network::Localnet, Network::Localnet) => true,
            (Network::Devnet, Network::Devnet) => true,
            (Network::Testnet, Network::Testnet) => true,
            (Network::Mainnet, Network::Mainnet) => true,
            (Network::Custom(a), Network::Custom(b)) => a@ == b@,
            _ => false,
        }
    }
}

} // verus!

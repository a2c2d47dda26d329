//! The two networks that keys and addresses are encoded for.

use vstd::prelude::*;

verus! {

/// The network that addresses and keys are encoded for.
#[derive(Clone, Copy, Debug, PartialEq, Eq, Structural)]
pub enum Network {
    MainNetwork,
    TestNetwork,
}

pub open spec fn network_label(n: Network) -> Seq<char> {
    match n {
        Network::MainNetwork => seq!['m', 'a', 'i', 'n', 'n', 'e', 't'],
        Network::TestNetwork => seq!['t', 'e', 's', 't', 'n', 'e', 't'],
    }
}

/// The name of a network: "mainnet" or "testnet".
pub fn network_name(network: Network) -> (r: &'static str)
    ensures
        r@ == network_label(network),
{
    match network {
        Network::MainNetwork => {
            proof {
                reveal_strlit("mainnet");
            }
            "mainnet"
        },
        Network::TestNetwork => {
            proof {
                reveal_strlit("testnet");
            }
            "testnet"
        },
    }
}

} // verus!

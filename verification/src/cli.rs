//! Host settings: which transaction to replay and which node to ask.
use crate::rpc_client::{DEFAULT_RPC_URL_MAINNET, DEFAULT_RPC_URL_TESTNET};
use crate::text::str_to_string;
use vstd::prelude::*;
use vstd::string::StringExecFns;

verus! {

/// Lower-case form of a string, by Unicode rules.
pub uninterp spec fn spec_to_lowercase(s: Seq<char>) -> Seq<char>;

/// Calls `str::to_lowercase`, whose result depends on its argument alone.
#[verifier::external_body]
fn to_lowercase(s: &str) -> (r: String)
    ensures
        r@ == spec_to_lowercase(s@),
{
    s.to_lowercase()
}

/// The settings the host runs with.
pub struct HostConfig {
    /// Network name, as given.
    pub network: String,
    /// RPC endpoint of a node of that network.
    pub rpc_url: String,
}

/// Arguments of the host program.
pub struct HostArgs {
    /// Hash of the transaction to replay.
    pub tx_hash: Option<String>,
    /// Network name; `mainnet` unless given.
    pub network: String,
    /// RPC endpoint; the network's public endpoint unless given.
    pub rpc_url: Option<String>,
}

/// The public endpoint of a network: the test network's for a name that is
/// `testnet` in any letter case, the main network's for any other name.
pub open spec fn spec_default_rpc_url(network: Seq<char>) -> Seq<char> {
    if spec_to_lowercase(network) == "testnet"@ {
        DEFAULT_RPC_URL_TESTNET@
    } else {
        DEFAULT_RPC_URL_MAINNET@
    }
}

/// The endpoint the arguments select: the one given, else the network's public one.
pub open spec fn spec_effective_rpc_url(args: HostArgs) -> Seq<char> {
    match args.rpc_url {
        Some(url) => url@,
        None => spec_default_rpc_url(args.network@),
    }
}

impl HostArgs {
    /// The settings the arguments select.
    pub fn as_config(&self) -> (c: HostConfig)
        ensures
            c.network@ == self.network@,
            c.rpc_url@ == spec_effective_rpc_url(*self),
    {
        HostConfig { network: self.network.clone(), rpc_url: self.effective_rpc_url() }
    }

    /// The RPC endpoint: the one given, else the network's public one.
    pub fn effective_rpc_url(&self) -> (url: String)
        ensures
            url@ == spec_effective_rpc_url(*self),
    {
        match &self.rpc_url {
            Some(url) => url.clone(),
            None => Self::default_rpc_url_for_network(self.network.as_str()),
        }
    }

    /// The public endpoint of a network: `mainnet` and `testnet` name their
    /// own endpoints (in any letter case); any other name falls back to the
    /// main network.
    pub fn default_rpc_url_for_network(network: &str) -> (url: String)
        ensures
            url@ == spec_default_rpc_url(network@),
    {
        let lower = to_lowercase(network);
        let mainnet = str_to_string("mainnet");
        let testnet = str_to_string("testnet");
        if lower == mainnet {
            proof {
                reveal_strlit("mainnet");
                reveal_strlit("testnet");
                assert("mainnet"@[0] != "testnet"@[0]);
            }
            str_to_string(DEFAULT_RPC_URL_MAINNET)
        } else if lower == testnet {
            str_to_string(DEFAULT_RPC_URL_TESTNET)
        } else {
            str_to_string(DEFAULT_RPC_URL_MAINNET)
        }
    }
}

/// Whatever the network name, the default endpoint is one of the two public ones.
pub proof fn lemma_default_url_is_public(network: Seq<char>)
    ensures
        spec_default_rpc_url(network) == DEFAULT_RPC_URL_MAINNET@
            || spec_default_rpc_url(network) == DEFAULT_RPC_URL_TESTNET@,
{
}

/// An endpoint given on the command line always wins over the network's default.
pub proof fn lemma_given_url_wins(args: HostArgs)
    requires
        args.rpc_url is Some,
    ensures
        spec_effective_rpc_url(args) == args.rpc_url->0@,
{
}

} // verus!

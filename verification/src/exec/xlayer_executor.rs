//! X Layer mainnet: the chain, its RPC endpoint and the addresses of the
//! tokens traded there.  Swapping through the DEX aggregator, signing and
//! broadcasting are left to the caller.
use vstd::prelude::*;

pub mod xlayer_tokens;

verus! {

/// Chain id of X Layer mainnet.
pub const XLAYER_CHAIN_ID: u64 = 196;

/// RPC endpoint of X Layer mainnet.
pub const XLAYER_RPC_URL: &'static str = "https://rpc.xlayer.tech";

} // verus!

//! Transaction signing on X Layer: the signer's configuration and the call
//! data of the ERC-20 transfers and approvals it sends.  Holding the key,
//! talking to the chain and signing are left to the caller.
use crate::decimal::{dlit, Dec};
use vstd::prelude::*;

verus! {

/// Chain id of X Layer mainnet.
pub const XLAYER_MAINNET_CHAIN_ID: u64 = 196;

/// Chain id of X Layer testnet.
pub const XLAYER_TESTNET_CHAIN_ID: u64 = 195;

/// Signer configuration.
#[derive(Debug, Clone)]
pub struct SignerConfig {
    /// Chain id (196 for mainnet, 195 for testnet).
    pub chain_id: u64,
    pub rpc_url: String,
    /// Largest gas price in gwei (a safety limit).
    pub max_gas_gwei: u64,
    /// Multiplier of the estimated gas price (1.1 = 10% above it).
    pub gas_multiplier: Dec,
}

impl Default for SignerConfig {
    fn default() -> (r: SignerConfig)
        ensures
            r.chain_id == XLAYER_MAINNET_CHAIN_ID,
            r.rpc_url@ == "https://rpc.xlayer.tech"@,
            r.max_gas_gwei == 100,
            r.gas_multiplier@ == dlit(11, 1),
    {
        SignerConfig {
            chain_id: XLAYER_MAINNET_CHAIN_ID,
            rpc_url: "https://rpc.xlayer.tech".to_owned(),
            max_gas_gwei: 100,
            gas_multiplier: Dec::new(11, 1),
        }
    }
}

impl SignerConfig {
    /// The testnet configuration.
    pub fn testnet() -> (r: SignerConfig)
        ensures
            r.chain_id == XLAYER_TESTNET_CHAIN_ID,
            r.rpc_url@ == "https://testrpc.xlayer.tech"@,
            r.max_gas_gwei == 100,
            r.gas_multiplier@ == dlit(11, 1),
    {
        SignerConfig {
            chain_id: XLAYER_TESTNET_CHAIN_ID,
            rpc_url: "https://testrpc.xlayer.tech".to_owned(),
            max_gas_gwei: 100,
            gas_multiplier: Dec::new(11, 1),
        }
    }
}

/// Call data of an ERC-20 call: the 4-byte selector, the address padded on
/// the left with 12 zero bytes to 32, then the amount as 32 big-endian bytes.
pub open spec fn erc20_call_of(selector: Seq<u8>, address: Seq<u8>, amount: Seq<u8>) -> Seq<u8> {
    selector + Seq::new(12, |i: int| 0u8) + address + amount
}

/// The selector of `transfer(address,uint256)`.
pub open spec fn transfer_selector() -> Seq<u8> {
    seq![0xa9u8, 0x05u8, 0x9cu8, 0xbbu8]
}

/// The selector of `approve(address,uint256)`.
pub open spec fn approve_selector() -> Seq<u8> {
    seq![0x09u8, 0x5eu8, 0xa7u8, 0xb3u8]
}

/// Appends the bytes of a slice.
fn push_bytes(data: &mut Vec<u8>, bytes: &[u8])
    ensures
        final(data)@ == old(data)@ + bytes@,
{
    let mut i: usize = 0;
    while i < bytes.len()
        invariant
            i <= bytes@.len(),
            data@ == old(data)@ + bytes@.take(i as int),
        decreases bytes.len() - i,
    {
        proof {
            assert(bytes@.take(i + 1) =~= bytes@.take(i as int).push(bytes@[i as int]));
        }
        data.push(bytes[i]);
        i = i + 1;
    }
    proof {
        assert(bytes@.take(i as int) =~= bytes@);
    }
}

/// The call data of an ERC-20 call (see `erc20_call_of`).
fn erc20_call_data(selector: &[u8], address: &[u8], amount: &[u8]) -> (r: Vec<u8>)
    ensures
        r@ == erc20_call_of(selector@, address@, amount@),
{
    let mut data: Vec<u8> = Vec::new();
    push_bytes(&mut data, selector);
    let zeros: Vec<u8> = vec![0u8; 12];
    proof {
        assert(zeros@ =~= Seq::new(12, |i: int| 0u8));
    }
    push_bytes(&mut data, zeros.as_slice());
    push_bytes(&mut data, address);
    push_bytes(&mut data, amount);
    proof {
        assert(data@ =~= erc20_call_of(selector@, address@, amount@));
    }
    data
}

/// Call data of an ERC-20 transfer of `amount` (32 big-endian bytes) to
/// `to` (a 20-byte address).
pub fn erc20_transfer_data(to: &[u8; 20], amount: &[u8; 32]) -> (r: Vec<u8>)
    ensures
        r@ == erc20_call_of(transfer_selector(), to@, amount@),
        r@.len() == 68,
{
    let selector: [u8; 4] = [0xa9u8, 0x05u8, 0x9cu8, 0xbbu8];
    proof {
        assert(selector@ =~= transfer_selector());
    }
    erc20_call_data(selector.as_slice(), to.as_slice(), amount.as_slice())
}

/// Call data of an ERC-20 approval of `amount` (32 big-endian bytes) for
/// `spender` (a 20-byte address).
pub fn erc20_approve_data(spender: &[u8; 20], amount: &[u8; 32]) -> (r: Vec<u8>)
    ensures
        r@ == erc20_call_of(approve_selector(), spender@, amount@),
        r@.len() == 68,
{
    let selector: [u8; 4] = [0x09u8, 0x5eu8, 0xa7u8, 0xb3u8];
    proof {
        assert(selector@ =~= approve_selector());
    }
    erc20_call_data(selector.as_slice(), spender.as_slice(), amount.as_slice())
}

} // verus!

use simmons::exec::signer::{erc20_approve_data, erc20_transfer_data, SignerConfig};
use simmons::exec::xlayer_executor::xlayer_tokens;
use simmons::exec::xlayer_executor::{XLAYER_CHAIN_ID, XLAYER_RPC_URL};

#[test]
fn signer_test_config_defaults() {
    let config = SignerConfig::default();
    assert_eq!(config.chain_id, 196);
    assert!(config.rpc_url.contains("xlayer"));
}

#[test]
fn test_config_testnet() {
    let config = SignerConfig::testnet();
    assert_eq!(config.chain_id, 195);
    assert!(config.rpc_url.contains("test"));
}

#[test]
fn test_xlayer_tokens() {
    assert_eq!(xlayer_tokens::OKB, "0xeeeeeeeeeeeeeeeeeeeeeeeeeeeeeeeeeeeeeeee");
}

#[test]
fn test_xlayer_chain() {
    assert_eq!(XLAYER_CHAIN_ID, 196);
    assert_eq!(XLAYER_RPC_URL, "https://rpc.xlayer.tech");
    assert_eq!(xlayer_tokens::USDT, "0x1E4a5963aBFD975d8c9021ce480b42188849D41d");
}

#[test]
fn test_erc20_transfer_data_layout() {
    let mut to = [0u8; 20];
    for (i, b) in to.iter_mut().enumerate() {
        *b = 0x10 + i as u8;
    }
    let mut amount = [0u8; 32];
    // 1,000,000 = 0x0f4240, big-endian at the end
    amount[29] = 0x0f;
    amount[30] = 0x42;
    amount[31] = 0x40;
    let data = erc20_transfer_data(&to, &amount);
    assert_eq!(data.len(), 68);
    assert_eq!(&data[..4], &[0xa9, 0x05, 0x9c, 0xbb]);
    assert!(data[4..16].iter().all(|b| *b == 0));
    assert_eq!(&data[16..36], &to[..]);
    assert_eq!(&data[36..], &amount[..]);
}

#[test]
fn test_erc20_approve_data_selector() {
    let spender = [0xffu8; 20];
    let amount = [0x01u8; 32];
    let data = erc20_approve_data(&spender, &amount);
    assert_eq!(&data[..4], &[0x09, 0x5e, 0xa7, 0xb3]);
    assert_eq!(&data[16..36], &spender[..]);
    assert_eq!(data.len(), 68);
}

//! Token addresses on X Layer.
use vstd::prelude::*;

verus! {

/// The native token.
pub const OKB: &'static str = "0xeeeeeeeeeeeeeeeeeeeeeeeeeeeeeeeeeeeeeeee";

pub const USDT: &'static str = "0x1E4a5963aBFD975d8c9021ce480b42188849D41d";

pub const USDC: &'static str = "0x74b7F16337b8972027F6196A17a631aC6dE26d22";

pub const WETH: &'static str = "0x5A77f1443D16ee5761d310e38b62f77f726bC71c";

} // verus!

//! Chain IDs of common networks.

use vstd::prelude::*;

verus! {

pub const ETHEREUM: u64 = 1;

pub const GOERLI: u64 = 5;

pub const SEPOLIA: u64 = 11155111;

pub const ARBITRUM_ONE: u64 = 42161;

pub const ARBITRUM_SEPOLIA: u64 = 421614;

pub const BASE: u64 = 8453;

pub const BASE_SEPOLIA: u64 = 84532;

pub const OPTIMISM: u64 = 10;

pub const POLYGON: u64 = 137;

pub const BSC: u64 = 56;

pub const AVALANCHE: u64 = 43114;

pub const FANTOM: u64 = 250;

pub const ZKSYNC_ERA: u64 = 324;

pub const LINEA: u64 = 59144;

pub const HYPERLIQUID_EVM: u64 = 999;

pub const SCROLL: u64 = 534352;

pub const POLYGON_ZKEVM: u64 = 1101;

pub const BLAST: u64 = 81457;

pub const MANTLE: u64 = 5000;

pub const MODE: u64 = 34443;

pub const MANTA_PACIFIC: u64 = 169;

pub const GNOSIS: u64 = 100;

pub const CELO: u64 = 42220;

pub const MOONBEAM: u64 = 1284;

pub const CRONOS: u64 = 25;

pub const AURORA: u64 = 1313161554;

pub const METIS: u64 = 1088;

pub const KAVA: u64 = 2222;

pub const KLAYTN: u64 = 8217;

pub const HARMONY: u64 = 1666600000;

pub const ROOTSTOCK: u64 = 30;

pub const FUSE: u64 = 122;

pub const SONIC: u64 = 146;

pub const BERACHAIN: u64 = 80094;

pub const TAIKO: u64 = 167000;

pub const FRAXTAL: u64 = 252;

pub const SEI: u64 = 1329;

pub const WORLD_CHAIN: u64 = 480;

pub const IMMUTABLE_ZKEVM: u64 = 13371;

pub const OPBNB: u64 = 204;

pub const ZETACHAIN: u64 = 7000;

pub const LISK: u64 = 1135;

} // verus!

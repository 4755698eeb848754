//! Preset endpoint configurations for popular chains.
//!
//! The lists hold public endpoints, each tagged with its chain and listed in
//! ascending priority.

pub mod chain_id;
pub mod mainnets;
pub mod rollups;
pub mod small_chains;

pub use mainnets::ethereum_endpoints;
pub use mainnets::ethereum_table;
pub use mainnets::bsc_endpoints;
pub use mainnets::bsc_table;
pub use mainnets::avalanche_endpoints;
pub use mainnets::avalanche_table;
pub use mainnets::polygon_endpoints;
pub use mainnets::polygon_table;
pub use mainnets::fantom_endpoints;
pub use mainnets::fantom_table;
pub use rollups::arbitrum_endpoints;
pub use rollups::arbitrum_table;
pub use rollups::base_endpoints;
pub use rollups::base_table;
pub use rollups::optimism_endpoints;
pub use rollups::optimism_table;
pub use rollups::zksync_era_endpoints;
pub use rollups::zksync_era_table;
pub use rollups::linea_endpoints;
pub use rollups::linea_table;
pub use rollups::scroll_endpoints;
pub use rollups::scroll_table;
pub use rollups::polygon_zkevm_endpoints;
pub use rollups::polygon_zkevm_table;
pub use rollups::blast_endpoints;
pub use rollups::blast_table;
pub use rollups::mantle_endpoints;
pub use rollups::mantle_table;
pub use rollups::mode_endpoints;
pub use rollups::mode_table;
pub use rollups::manta_pacific_endpoints;
pub use rollups::manta_pacific_table;
pub use rollups::hyperliquid_evm_endpoints;
pub use rollups::hyperliquid_evm_table;
pub use small_chains::gnosis_endpoints;
pub use small_chains::gnosis_table;
pub use small_chains::celo_endpoints;
pub use small_chains::celo_table;
pub use small_chains::moonbeam_endpoints;
pub use small_chains::moonbeam_table;
pub use small_chains::cronos_endpoints;
pub use small_chains::cronos_table;
pub use small_chains::aurora_endpoints;
pub use small_chains::aurora_table;
pub use small_chains::metis_endpoints;
pub use small_chains::metis_table;
pub use small_chains::kava_endpoints;
pub use small_chains::kava_table;
pub use small_chains::klaytn_endpoints;
pub use small_chains::klaytn_table;
pub use small_chains::harmony_endpoints;
pub use small_chains::harmony_table;
pub use small_chains::rootstock_endpoints;
pub use small_chains::rootstock_table;
pub use small_chains::fuse_endpoints;
pub use small_chains::fuse_table;
pub use small_chains::sonic_endpoints;
pub use small_chains::sonic_table;
pub use small_chains::berachain_endpoints;
pub use small_chains::berachain_table;
pub use small_chains::taiko_endpoints;
pub use small_chains::taiko_table;
pub use small_chains::fraxtal_endpoints;
pub use small_chains::fraxtal_table;
pub use small_chains::sei_endpoints;
pub use small_chains::sei_table;
pub use small_chains::world_chain_endpoints;
pub use small_chains::world_chain_table;
pub use small_chains::immutable_zkevm_endpoints;
pub use small_chains::immutable_zkevm_table;
pub use small_chains::opbnb_endpoints;
pub use small_chains::opbnb_table;
pub use small_chains::zetachain_endpoints;
pub use small_chains::zetachain_table;
pub use small_chains::lisk_endpoints;
pub use small_chains::lisk_table;

use crate::arrange::sorted_by_priority;
use crate::endpoint::EndpointCapabilities;
use crate::endpoint::RpcEndpoint;
use vstd::prelude::*;
use vstd::string::*;

verus! {

/// What holds of every preset list: it is not empty, every endpoint is tagged
/// with the chain of the list, and the priorities never decrease.
pub open spec fn preset_list(list: Seq<RpcEndpoint>, chain: u64) -> bool {
    &&& list.len() > 0
    &&& forall|i: int| 0 <= i < list.len() ==> (#[trigger] list[i]).chain_id == chain
    &&& sorted_by_priority(list)
}

/// What a preset says of an endpoint: its texts by their characters, and
/// its numbers and capabilities as they are.
pub struct PresetEntry {
    /// The URL.
    pub url: Seq<char>,
    /// The display name.
    pub name: Seq<char>,
    /// The WebSocket URL.
    pub ws_url: Option<Seq<char>>,
    /// The priority.
    pub priority: u32,
    /// The chain.
    pub chain_id: u64,
    /// The capability block.
    pub capabilities: EndpointCapabilities,
}

/// What an endpoint says, as a preset entry.
pub open spec fn entry_of(e: RpcEndpoint) -> PresetEntry {
    PresetEntry {
        url: e.url@,
        name: e.name@,
        ws_url: match e.ws_url {
            Some(w) => Some(w@),
            None => None,
        },
        priority: e.priority,
        chain_id: e.chain_id,
        capabilities: e.capabilities,
    }
}

/// What the endpoints of a list say, entry by entry.
pub open spec fn entries_of(list: Seq<RpcEndpoint>) -> Seq<PresetEntry> {
    Seq::new(list.len(), |i: int| entry_of(list[i]))
}

/// A capability block marked as offering a WebSocket transport.
pub open spec fn with_websocket(caps: EndpointCapabilities) -> EndpointCapabilities {
    EndpointCapabilities { supports_websocket: true, ..caps }
}

/// The capability block of an endpoint that was measured.
pub open spec fn spec_measured(logs: bool, batch: u32, range: u64) -> EndpointCapabilities {
    EndpointCapabilities {
        supports_eth_get_logs: Some(logs),
        max_batch_size: Some(batch),
        max_block_range: Some(range),
        ..EndpointCapabilities::spec_unknown()
    }
}

/// The capabilities of an endpoint that was measured: whether it answers log
/// queries, its batch limit and its block range limit (0 = unlimited).
pub fn measured(logs: bool, batch: u32, range: u64) -> (caps: EndpointCapabilities)
    ensures
        caps == spec_measured(logs, batch, range),
{
    EndpointCapabilities {
        supports_eth_get_logs: Some(logs),
        max_batch_size: Some(batch),
        max_block_range: Some(range),
        supports_debug_trace: None,
        supports_websocket: false,
        rate_limit_rps: None,
    }
}

/// The chains that have a preset list, in the order of `all_chain_ids`.
pub open spec fn supported_chains() -> Seq<u64> {
    seq![
        chain_id::ETHEREUM,
        chain_id::ARBITRUM_ONE,
        chain_id::AURORA,
        chain_id::AVALANCHE,
        chain_id::BASE,
        chain_id::BERACHAIN,
        chain_id::BLAST,
        chain_id::BSC,
        chain_id::CELO,
        chain_id::CRONOS,
        chain_id::FANTOM,
        chain_id::FRAXTAL,
        chain_id::FUSE,
        chain_id::GNOSIS,
        chain_id::HARMONY,
        chain_id::HYPERLIQUID_EVM,
        chain_id::IMMUTABLE_ZKEVM,
        chain_id::KAVA,
        chain_id::KLAYTN,
        chain_id::LINEA,
        chain_id::LISK,
        chain_id::MANTA_PACIFIC,
        chain_id::MANTLE,
        chain_id::METIS,
        chain_id::MODE,
        chain_id::MOONBEAM,
        chain_id::OPBNB,
        chain_id::OPTIMISM,
        chain_id::POLYGON,
        chain_id::POLYGON_ZKEVM,
        chain_id::ROOTSTOCK,
        chain_id::SCROLL,
        chain_id::SEI,
        chain_id::SONIC,
        chain_id::TAIKO,
        chain_id::WORLD_CHAIN,
        chain_id::ZETACHAIN,
        chain_id::ZKSYNC_ERA,
    ]
}

/// Whether a chain has a preset list.
pub open spec fn is_supported_chain(id: u64) -> bool {
    id == chain_id::ETHEREUM
        || id == chain_id::ARBITRUM_ONE
        || id == chain_id::AURORA
        || id == chain_id::AVALANCHE
        || id == chain_id::BASE
        || id == chain_id::BERACHAIN
        || id == chain_id::BLAST
        || id == chain_id::BSC
        || id == chain_id::CELO
        || id == chain_id::CRONOS
        || id == chain_id::FANTOM
        || id == chain_id::FRAXTAL
        || id == chain_id::FUSE
        || id == chain_id::GNOSIS
        || id == chain_id::HARMONY
        || id == chain_id::HYPERLIQUID_EVM
        || id == chain_id::IMMUTABLE_ZKEVM
        || id == chain_id::KAVA
        || id == chain_id::KLAYTN
        || id == chain_id::LINEA
        || id == chain_id::LISK
        || id == chain_id::MANTA_PACIFIC
        || id == chain_id::MANTLE
        || id == chain_id::METIS
        || id == chain_id::MODE
        || id == chain_id::MOONBEAM
        || id == chain_id::OPBNB
        || id == chain_id::OPTIMISM
        || id == chain_id::POLYGON
        || id == chain_id::POLYGON_ZKEVM
        || id == chain_id::ROOTSTOCK
        || id == chain_id::SCROLL
        || id == chain_id::SEI
        || id == chain_id::SONIC
        || id == chain_id::TAIKO
        || id == chain_id::WORLD_CHAIN
        || id == chain_id::ZETACHAIN
        || id == chain_id::ZKSYNC_ERA
}

/// The name of a chain; "Unknown" for a chain that has none here.
pub open spec fn spec_chain_name(id: u64) -> Seq<char> {
    if id == chain_id::ETHEREUM {
        "Ethereum"@
    }     else if id == chain_id::GOERLI {
        "Goerli"@
    }     else if id == chain_id::SEPOLIA {
        "Sepolia"@
    }     else if id == chain_id::ARBITRUM_ONE {
        "Arbitrum One"@
    }     else if id == chain_id::ARBITRUM_SEPOLIA {
        "Arbitrum Sepolia"@
    }     else if id == chain_id::AURORA {
        "Aurora"@
    }     else if id == chain_id::AVALANCHE {
        "Avalanche C-Chain"@
    }     else if id == chain_id::BASE {
        "Base"@
    }     else if id == chain_id::BASE_SEPOLIA {
        "Base Sepolia"@
    }     else if id == chain_id::BERACHAIN {
        "Berachain"@
    }     else if id == chain_id::BLAST {
        "Blast"@
    }     else if id == chain_id::BSC {
        "BNB Smart Chain"@
    }     else if id == chain_id::CELO {
        "Celo"@
    }     else if id == chain_id::CRONOS {
        "Cronos"@
    }     else if id == chain_id::FANTOM {
        "Fantom Opera"@
    }     else if id == chain_id::FRAXTAL {
        "Fraxtal"@
    }     else if id == chain_id::FUSE {
        "Fuse"@
    }     else if id == chain_id::GNOSIS {
        "Gnosis"@
    }     else if id == chain_id::HARMONY {
        "Harmony"@
    }     else if id == chain_id::HYPERLIQUID_EVM {
        "Hyperliquid EVM"@
    }     else if id == chain_id::IMMUTABLE_ZKEVM {
        "Immutable zkEVM"@
    }     else if id == chain_id::KAVA {
        "Kava"@
    }     else if id == chain_id::KLAYTN {
        "Klaytn"@
    }     else if id == chain_id::LINEA {
        "Linea"@
    }     else if id == chain_id::LISK {
        "Lisk"@
    }     else if id == chain_id::MANTA_PACIFIC {
        "Manta Pacific"@
    }     else if id == chain_id::MANTLE {
        "Mantle"@
    }     else if id == chain_id::METIS {
        "Metis"@
    }     else if id == chain_id::MODE {
        "Mode"@
    }     else if id == chain_id::MOONBEAM {
        "Moonbeam"@
    }     else if id == chain_id::OPBNB {
        "opBNB"@
    }     else if id == chain_id::OPTIMISM {
        "Optimism"@
    }     else if id == chain_id::POLYGON {
        "Polygon"@
    }     else if id == chain_id::POLYGON_ZKEVM {
        "Polygon zkEVM"@
    }     else if id == chain_id::ROOTSTOCK {
        "Rootstock"@
    }     else if id == chain_id::SCROLL {
        "Scroll"@
    }     else if id == chain_id::SEI {
        "Sei"@
    }     else if id == chain_id::SONIC {
        "Sonic"@
    }     else if id == chain_id::TAIKO {
        "Taiko"@
    }     else if id == chain_id::WORLD_CHAIN {
        "World Chain"@
    }     else if id == chain_id::ZETACHAIN {
        "ZetaChain"@
    }     else if id == chain_id::ZKSYNC_ERA {
        "zkSync Era"@
    } else {
        "Unknown"@
    }
}

/// The preset endpoints of a chain, entry by entry; none for a chain
/// without presets.
pub open spec fn preset_of(id: u64) -> Seq<PresetEntry> {
    if id == chain_id::ARBITRUM_ONE {
        arbitrum_table()
    }     else if id == chain_id::AURORA {
        aurora_table()
    }     else if id == chain_id::AVALANCHE {
        avalanche_table()
    }     else if id == chain_id::BASE {
        base_table()
    }     else if id == chain_id::BERACHAIN {
        berachain_table()
    }     else if id == chain_id::BLAST {
        blast_table()
    }     else if id == chain_id::BSC {
        bsc_table()
    }     else if id == chain_id::CELO {
        celo_table()
    }     else if id == chain_id::CRONOS {
        cronos_table()
    }     else if id == chain_id::ETHEREUM {
        ethereum_table()
    }     else if id == chain_id::FANTOM {
        fantom_table()
    }     else if id == chain_id::FRAXTAL {
        fraxtal_table()
    }     else if id == chain_id::FUSE {
        fuse_table()
    }     else if id == chain_id::GNOSIS {
        gnosis_table()
    }     else if id == chain_id::HARMONY {
        harmony_table()
    }     else if id == chain_id::HYPERLIQUID_EVM {
        hyperliquid_evm_table()
    }     else if id == chain_id::IMMUTABLE_ZKEVM {
        immutable_zkevm_table()
    }     else if id == chain_id::KAVA {
        kava_table()
    }     else if id == chain_id::KLAYTN {
        klaytn_table()
    }     else if id == chain_id::LINEA {
        linea_table()
    }     else if id == chain_id::LISK {
        lisk_table()
    }     else if id == chain_id::MANTA_PACIFIC {
        manta_pacific_table()
    }     else if id == chain_id::MANTLE {
        mantle_table()
    }     else if id == chain_id::METIS {
        metis_table()
    }     else if id == chain_id::MODE {
        mode_table()
    }     else if id == chain_id::MOONBEAM {
        moonbeam_table()
    }     else if id == chain_id::OPBNB {
        opbnb_table()
    }     else if id == chain_id::OPTIMISM {
        optimism_table()
    }     else if id == chain_id::POLYGON {
        polygon_table()
    }     else if id == chain_id::POLYGON_ZKEVM {
        polygon_zkevm_table()
    }     else if id == chain_id::ROOTSTOCK {
        rootstock_table()
    }     else if id == chain_id::SCROLL {
        scroll_table()
    }     else if id == chain_id::SEI {
        sei_table()
    }     else if id == chain_id::SONIC {
        sonic_table()
    }     else if id == chain_id::TAIKO {
        taiko_table()
    }     else if id == chain_id::WORLD_CHAIN {
        world_chain_table()
    }     else if id == chain_id::ZETACHAIN {
        zetachain_table()
    }     else if id == chain_id::ZKSYNC_ERA {
        zksync_era_table()
    } else {
        Seq::empty()
    }
}

/// Whether a list is the default list of a chain: it says, entry by entry,
/// what the presets of the chain say.
pub open spec fn is_default_list(list: Seq<RpcEndpoint>, id: u64) -> bool {
    entries_of(list) == preset_of(id)
}

/// Get the default endpoints of a chain by chain ID; the empty list for a
/// chain without presets.
pub fn default_endpoints(id: u64) -> (list: Vec<RpcEndpoint>)
    ensures
        is_default_list(list@, id),
        is_supported_chain(id) ==> preset_list(list@, id),
        !is_supported_chain(id) ==> list@.len() == 0,
{
    let list = if id == chain_id::ARBITRUM_ONE {
        arbitrum_endpoints()
    }     else if id == chain_id::AURORA {
        aurora_endpoints()
    }     else if id == chain_id::AVALANCHE {
        avalanche_endpoints()
    }     else if id == chain_id::BASE {
        base_endpoints()
    }     else if id == chain_id::BERACHAIN {
        berachain_endpoints()
    }     else if id == chain_id::BLAST {
        blast_endpoints()
    }     else if id == chain_id::BSC {
        bsc_endpoints()
    }     else if id == chain_id::CELO {
        celo_endpoints()
    }     else if id == chain_id::CRONOS {
        cronos_endpoints()
    }     else if id == chain_id::ETHEREUM {
        ethereum_endpoints()
    }     else if id == chain_id::FANTOM {
        fantom_endpoints()
    }     else if id == chain_id::FRAXTAL {
        fraxtal_endpoints()
    }     else if id == chain_id::FUSE {
        fuse_endpoints()
    }     else if id == chain_id::GNOSIS {
        gnosis_endpoints()
    }     else if id == chain_id::HARMONY {
        harmony_endpoints()
    }     else if id == chain_id::HYPERLIQUID_EVM {
        hyperliquid_evm_endpoints()
    }     else if id == chain_id::IMMUTABLE_ZKEVM {
        immutable_zkevm_endpoints()
    }     else if id == chain_id::KAVA {
        kava_endpoints()
    }     else if id == chain_id::KLAYTN {
        klaytn_endpoints()
    }     else if id == chain_id::LINEA {
        linea_endpoints()
    }     else if id == chain_id::LISK {
        lisk_endpoints()
    }     else if id == chain_id::MANTA_PACIFIC {
        manta_pacific_endpoints()
    }     else if id == chain_id::MANTLE {
        mantle_endpoints()
    }     else if id == chain_id::METIS {
        metis_endpoints()
    }     else if id == chain_id::MODE {
        mode_endpoints()
    }     else if id == chain_id::MOONBEAM {
        moonbeam_endpoints()
    }     else if id == chain_id::OPBNB {
        opbnb_endpoints()
    }     else if id == chain_id::OPTIMISM {
        optimism_endpoints()
    }     else if id == chain_id::POLYGON {
        polygon_endpoints()
    }     else if id == chain_id::POLYGON_ZKEVM {
        polygon_zkevm_endpoints()
    }     else if id == chain_id::ROOTSTOCK {
        rootstock_endpoints()
    }     else if id == chain_id::SCROLL {
        scroll_endpoints()
    }     else if id == chain_id::SEI {
        sei_endpoints()
    }     else if id == chain_id::SONIC {
        sonic_endpoints()
    }     else if id == chain_id::TAIKO {
        taiko_endpoints()
    }     else if id == chain_id::WORLD_CHAIN {
        world_chain_endpoints()
    }     else if id == chain_id::ZETACHAIN {
        zetachain_endpoints()
    }     else if id == chain_id::ZKSYNC_ERA {
        zksync_era_endpoints()
    } else {
        Vec::new()
    };
    assert(entries_of(list@) =~= preset_of(id));
    list
}

/// Return the IDs of all chains that have a preset list.
pub fn all_chain_ids() -> (ids: Vec<u64>)
    ensures
        ids@ == supported_chains(),
        forall|i: int| 0 <= i < ids@.len() ==> is_supported_chain(#[trigger] ids@[i]),
{
    let ids = vec![
        chain_id::ETHEREUM,
        chain_id::ARBITRUM_ONE,
        chain_id::AURORA,
        chain_id::AVALANCHE,
        chain_id::BASE,
        chain_id::BERACHAIN,
        chain_id::BLAST,
        chain_id::BSC,
        chain_id::CELO,
        chain_id::CRONOS,
        chain_id::FANTOM,
        chain_id::FRAXTAL,
        chain_id::FUSE,
        chain_id::GNOSIS,
        chain_id::HARMONY,
        chain_id::HYPERLIQUID_EVM,
        chain_id::IMMUTABLE_ZKEVM,
        chain_id::KAVA,
        chain_id::KLAYTN,
        chain_id::LINEA,
        chain_id::LISK,
        chain_id::MANTA_PACIFIC,
        chain_id::MANTLE,
        chain_id::METIS,
        chain_id::MODE,
        chain_id::MOONBEAM,
        chain_id::OPBNB,
        chain_id::OPTIMISM,
        chain_id::POLYGON,
        chain_id::POLYGON_ZKEVM,
        chain_id::ROOTSTOCK,
        chain_id::SCROLL,
        chain_id::SEI,
        chain_id::SONIC,
        chain_id::TAIKO,
        chain_id::WORLD_CHAIN,
        chain_id::ZETACHAIN,
        chain_id::ZKSYNC_ERA,
    ];
    assert(ids@ =~= supported_chains());
    ids
}

/// Return a human-readable name for a chain ID; "Unknown" for a chain that
/// has none here.
pub fn chain_name(id: u64) -> (name: &'static str)
    ensures
        name@ == spec_chain_name(id),
{
    if id == chain_id::ETHEREUM {
        "Ethereum"
    }     else if id == chain_id::GOERLI {
        "Goerli"
    }     else if id == chain_id::SEPOLIA {
        "Sepolia"
    }     else if id == chain_id::ARBITRUM_ONE {
        "Arbitrum One"
    }     else if id == chain_id::ARBITRUM_SEPOLIA {
        "Arbitrum Sepolia"
    }     else if id == chain_id::AURORA {
        "Aurora"
    }     else if id == chain_id::AVALANCHE {
        "Avalanche C-Chain"
    }     else if id == chain_id::BASE {
        "Base"
    }     else if id == chain_id::BASE_SEPOLIA {
        "Base Sepolia"
    }     else if id == chain_id::BERACHAIN {
        "Berachain"
    }     else if id == chain_id::BLAST {
        "Blast"
    }     else if id == chain_id::BSC {
        "BNB Smart Chain"
    }     else if id == chain_id::CELO {
        "Celo"
    }     else if id == chain_id::CRONOS {
        "Cronos"
    }     else if id == chain_id::FANTOM {
        "Fantom Opera"
    }     else if id == chain_id::FRAXTAL {
        "Fraxtal"
    }     else if id == chain_id::FUSE {
        "Fuse"
    }     else if id == chain_id::GNOSIS {
        "Gnosis"
    }     else if id == chain_id::HARMONY {
        "Harmony"
    }     else if id == chain_id::HYPERLIQUID_EVM {
        "Hyperliquid EVM"
    }     else if id == chain_id::IMMUTABLE_ZKEVM {
        "Immutable zkEVM"
    }     else if id == chain_id::KAVA {
        "Kava"
    }     else if id == chain_id::KLAYTN {
        "Klaytn"
    }     else if id == chain_id::LINEA {
        "Linea"
    }     else if id == chain_id::LISK {
        "Lisk"
    }     else if id == chain_id::MANTA_PACIFIC {
        "Manta Pacific"
    }     else if id == chain_id::MANTLE {
        "Mantle"
    }     else if id == chain_id::METIS {
        "Metis"
    }     else if id == chain_id::MODE {
        "Mode"
    }     else if id == chain_id::MOONBEAM {
        "Moonbeam"
    }     else if id == chain_id::OPBNB {
        "opBNB"
    }     else if id == chain_id::OPTIMISM {
        "Optimism"
    }     else if id == chain_id::POLYGON {
        "Polygon"
    }     else if id == chain_id::POLYGON_ZKEVM {
        "Polygon zkEVM"
    }     else if id == chain_id::ROOTSTOCK {
        "Rootstock"
    }     else if id == chain_id::SCROLL {
        "Scroll"
    }     else if id == chain_id::SEI {
        "Sei"
    }     else if id == chain_id::SONIC {
        "Sonic"
    }     else if id == chain_id::TAIKO {
        "Taiko"
    }     else if id == chain_id::WORLD_CHAIN {
        "World Chain"
    }     else if id == chain_id::ZETACHAIN {
        "ZetaChain"
    }     else if id == chain_id::ZKSYNC_ERA {
        "zkSync Era"
    } else {
        "Unknown"
    }
}

} // verus!

//! The preset endpoint lists.

use web3_rpc_pool::endpoint::RpcEndpoint;
use web3_rpc_pool::presets::chain_id;
use web3_rpc_pool::presets::{
    all_chain_ids, arbitrum_endpoints, avalanche_endpoints, base_endpoints, blast_endpoints,
    bsc_endpoints, chain_name, default_endpoints, ethereum_endpoints, fantom_endpoints,
    hyperliquid_evm_endpoints, linea_endpoints, manta_pacific_endpoints, mantle_endpoints,
    measured, mode_endpoints, optimism_endpoints, polygon_endpoints, polygon_zkevm_endpoints,
    scroll_endpoints, zksync_era_endpoints,
};

fn assert_valid_endpoints(endpoints: &[RpcEndpoint], expected_chain_id: u64) {
    assert!(!endpoints.is_empty(), "Endpoints should not be empty");
    assert!(
        endpoints.iter().all(|e| e.chain_id == expected_chain_id),
        "All endpoints should have correct chain ID"
    );
    // Should be sorted by priority
    for i in 1..endpoints.len() {
        assert!(
            endpoints[i - 1].priority <= endpoints[i].priority,
            "Endpoints should be sorted by priority"
        );
    }
}

#[test]
fn test_ethereum_endpoints() {
    let endpoints = ethereum_endpoints();
    assert_valid_endpoints(&endpoints, chain_id::ETHEREUM);
    assert!(endpoints.len() >= 34, "Should have at least 34 endpoints, got {}", endpoints.len());
}

#[test]
fn test_arbitrum_endpoints() {
    let endpoints = arbitrum_endpoints();
    assert_valid_endpoints(&endpoints, chain_id::ARBITRUM_ONE);
    assert!(endpoints.len() >= 20, "Should have at least 20 endpoints, got {}", endpoints.len());
}

#[test]
fn test_optimism_endpoints() {
    let endpoints = optimism_endpoints();
    assert_valid_endpoints(&endpoints, chain_id::OPTIMISM);
    assert!(endpoints.len() >= 16, "Should have at least 16 endpoints, got {}", endpoints.len());
}

#[test]
fn test_base_endpoints() {
    let endpoints = base_endpoints();
    assert_valid_endpoints(&endpoints, chain_id::BASE);
    assert!(endpoints.len() >= 21, "Should have at least 21 endpoints, got {}", endpoints.len());
}

#[test]
fn test_polygon_endpoints() {
    let endpoints = polygon_endpoints();
    assert_valid_endpoints(&endpoints, chain_id::POLYGON);
    assert!(endpoints.len() >= 14, "Should have at least 14 endpoints, got {}", endpoints.len());
}

#[test]
fn test_bsc_endpoints() {
    let endpoints = bsc_endpoints();
    assert_valid_endpoints(&endpoints, chain_id::BSC);
    assert!(endpoints.len() >= 25, "Should have at least 25 endpoints, got {}", endpoints.len());
}

#[test]
fn test_avalanche_endpoints() {
    let endpoints = avalanche_endpoints();
    assert_valid_endpoints(&endpoints, chain_id::AVALANCHE);
    assert!(endpoints.len() >= 7, "Should have at least 7 endpoints, got {}", endpoints.len());
}

#[test]
fn test_fantom_endpoints() {
    let endpoints = fantom_endpoints();
    assert_valid_endpoints(&endpoints, chain_id::FANTOM);
    assert!(endpoints.len() >= 7, "Should have at least 7 endpoints, got {}", endpoints.len());
}

#[test]
fn test_zksync_era_endpoints() {
    let endpoints = zksync_era_endpoints();
    assert_valid_endpoints(&endpoints, chain_id::ZKSYNC_ERA);
    assert!(endpoints.len() >= 7, "Should have at least 7 endpoints, got {}", endpoints.len());
}

#[test]
fn test_linea_endpoints() {
    let endpoints = linea_endpoints();
    assert_valid_endpoints(&endpoints, chain_id::LINEA);
    assert!(endpoints.len() >= 6, "Should have at least 6 endpoints, got {}", endpoints.len());
}

#[test]
fn test_hyperliquid_evm_endpoints() {
    let endpoints = hyperliquid_evm_endpoints();
    assert_valid_endpoints(&endpoints, chain_id::HYPERLIQUID_EVM);
    assert!(endpoints.len() >= 3, "Should have at least 3 endpoints, got {}", endpoints.len());
}

#[test]
fn test_scroll_endpoints() {
    let endpoints = scroll_endpoints();
    assert_valid_endpoints(&endpoints, chain_id::SCROLL);
    assert!(endpoints.len() >= 11, "Should have at least 11 endpoints, got {}", endpoints.len());
}

#[test]
fn test_polygon_zkevm_endpoints() {
    let endpoints = polygon_zkevm_endpoints();
    assert_valid_endpoints(&endpoints, chain_id::POLYGON_ZKEVM);
    assert!(endpoints.len() >= 6, "Should have at least 6 endpoints, got {}", endpoints.len());
}

#[test]
fn test_blast_endpoints() {
    let endpoints = blast_endpoints();
    assert_valid_endpoints(&endpoints, chain_id::BLAST);
    assert!(endpoints.len() >= 9, "Should have at least 9 endpoints, got {}", endpoints.len());
}

#[test]
fn test_mantle_endpoints() {
    let endpoints = mantle_endpoints();
    assert_valid_endpoints(&endpoints, chain_id::MANTLE);
    assert!(endpoints.len() >= 11, "Should have at least 11 endpoints, got {}", endpoints.len());
}

#[test]
fn test_mode_endpoints() {
    let endpoints = mode_endpoints();
    assert_valid_endpoints(&endpoints, chain_id::MODE);
    assert!(endpoints.len() >= 5, "Should have at least 5 endpoints, got {}", endpoints.len());
}

#[test]
fn test_manta_pacific_endpoints() {
    let endpoints = manta_pacific_endpoints();
    assert_valid_endpoints(&endpoints, chain_id::MANTA_PACIFIC);
    assert!(endpoints.len() >= 5, "Should have at least 5 endpoints, got {}", endpoints.len());
}

#[test]
fn test_default_endpoints() {
    // Larger chains
    assert!(!default_endpoints(chain_id::ARBITRUM_ONE).is_empty());
    assert!(!default_endpoints(chain_id::AVALANCHE).is_empty());
    assert!(!default_endpoints(chain_id::BASE).is_empty());
    assert!(!default_endpoints(chain_id::BLAST).is_empty());
    assert!(!default_endpoints(chain_id::BSC).is_empty());
    assert!(!default_endpoints(chain_id::ETHEREUM).is_empty());
    assert!(!default_endpoints(chain_id::FANTOM).is_empty());
    assert!(!default_endpoints(chain_id::HYPERLIQUID_EVM).is_empty());
    assert!(!default_endpoints(chain_id::LINEA).is_empty());
    assert!(!default_endpoints(chain_id::MANTA_PACIFIC).is_empty());
    assert!(!default_endpoints(chain_id::MANTLE).is_empty());
    assert!(!default_endpoints(chain_id::MODE).is_empty());
    assert!(!default_endpoints(chain_id::OPTIMISM).is_empty());
    assert!(!default_endpoints(chain_id::POLYGON).is_empty());
    assert!(!default_endpoints(chain_id::POLYGON_ZKEVM).is_empty());
    assert!(!default_endpoints(chain_id::SCROLL).is_empty());
    assert!(!default_endpoints(chain_id::ZKSYNC_ERA).is_empty());
    // Smaller chains
    assert!(!default_endpoints(chain_id::AURORA).is_empty());
    assert!(!default_endpoints(chain_id::BERACHAIN).is_empty());
    assert!(!default_endpoints(chain_id::CELO).is_empty());
    assert!(!default_endpoints(chain_id::CRONOS).is_empty());
    assert!(!default_endpoints(chain_id::FRAXTAL).is_empty());
    assert!(!default_endpoints(chain_id::FUSE).is_empty());
    assert!(!default_endpoints(chain_id::GNOSIS).is_empty());
    assert!(!default_endpoints(chain_id::HARMONY).is_empty());
    assert!(!default_endpoints(chain_id::IMMUTABLE_ZKEVM).is_empty());
    assert!(!default_endpoints(chain_id::KAVA).is_empty());
    assert!(!default_endpoints(chain_id::KLAYTN).is_empty());
    assert!(!default_endpoints(chain_id::LISK).is_empty());
    assert!(!default_endpoints(chain_id::METIS).is_empty());
    assert!(!default_endpoints(chain_id::MOONBEAM).is_empty());
    assert!(!default_endpoints(chain_id::OPBNB).is_empty());
    assert!(!default_endpoints(chain_id::ROOTSTOCK).is_empty());
    assert!(!default_endpoints(chain_id::SEI).is_empty());
    assert!(!default_endpoints(chain_id::SONIC).is_empty());
    assert!(!default_endpoints(chain_id::TAIKO).is_empty());
    assert!(!default_endpoints(chain_id::WORLD_CHAIN).is_empty());
    assert!(!default_endpoints(chain_id::ZETACHAIN).is_empty());
    assert!(default_endpoints(99999).is_empty()); // Unknown chain
}

#[test]
fn test_total_endpoint_count() {
    let total: usize = all_chain_ids()
        .iter()
        .map(|&id| default_endpoints(id).len())
        .sum();

    assert!(total >= 276, "Should have at least 276 total endpoints, got {}", total);
}

#[test]
fn test_all_chain_ids() {
    let ids = all_chain_ids();
    assert!(ids.len() >= 38, "Should have at least 38 chains");
    // Larger chains
    assert!(ids.contains(&chain_id::ETHEREUM));
    assert!(ids.contains(&chain_id::FANTOM));
    assert!(ids.contains(&chain_id::ZKSYNC_ERA));
    assert!(ids.contains(&chain_id::LINEA));
    assert!(ids.contains(&chain_id::HYPERLIQUID_EVM));
    assert!(ids.contains(&chain_id::SCROLL));
    assert!(ids.contains(&chain_id::POLYGON_ZKEVM));
    assert!(ids.contains(&chain_id::BLAST));
    assert!(ids.contains(&chain_id::MANTLE));
    assert!(ids.contains(&chain_id::MODE));
    assert!(ids.contains(&chain_id::MANTA_PACIFIC));
    // Smaller chains
    assert!(ids.contains(&chain_id::GNOSIS));
    assert!(ids.contains(&chain_id::CELO));
    assert!(ids.contains(&chain_id::MOONBEAM));
    assert!(ids.contains(&chain_id::SONIC));
    assert!(ids.contains(&chain_id::BERACHAIN));
    assert!(ids.contains(&chain_id::TAIKO));
    assert!(ids.contains(&chain_id::OPBNB));
}

#[test]
fn test_chain_name() {
    // Larger chains
    assert_eq!(chain_name(chain_id::ETHEREUM), "Ethereum");
    assert_eq!(chain_name(chain_id::FANTOM), "Fantom Opera");
    assert_eq!(chain_name(chain_id::ZKSYNC_ERA), "zkSync Era");
    assert_eq!(chain_name(chain_id::LINEA), "Linea");
    assert_eq!(chain_name(chain_id::HYPERLIQUID_EVM), "Hyperliquid EVM");
    assert_eq!(chain_name(chain_id::SCROLL), "Scroll");
    assert_eq!(chain_name(chain_id::POLYGON_ZKEVM), "Polygon zkEVM");
    assert_eq!(chain_name(chain_id::BLAST), "Blast");
    assert_eq!(chain_name(chain_id::MANTLE), "Mantle");
    assert_eq!(chain_name(chain_id::MODE), "Mode");
    assert_eq!(chain_name(chain_id::MANTA_PACIFIC), "Manta Pacific");
    // Smaller chains
    assert_eq!(chain_name(chain_id::GNOSIS), "Gnosis");
    assert_eq!(chain_name(chain_id::CELO), "Celo");
    assert_eq!(chain_name(chain_id::MOONBEAM), "Moonbeam");
    assert_eq!(chain_name(chain_id::SONIC), "Sonic");
    assert_eq!(chain_name(chain_id::BERACHAIN), "Berachain");
    assert_eq!(chain_name(chain_id::TAIKO), "Taiko");
    assert_eq!(chain_name(chain_id::OPBNB), "opBNB");
    assert_eq!(chain_name(99999), "Unknown");
}

#[test]
fn test_all_chains_have_endpoints() {
    for &id in &all_chain_ids() {
        let endpoints = default_endpoints(id);
        assert!(
            !endpoints.is_empty(),
            "Chain {} ({}) should have endpoints",
            chain_name(id),
            id
        );
    }
}

#[test]
fn test_all_chains_have_ws_url() {
    for &id in &all_chain_ids() {
        let endpoints = default_endpoints(id);
        let has_ws = endpoints.iter().any(|e| e.ws_url.is_some());
        assert!(
            has_ws,
            "Chain {} ({}) should have at least one endpoint with ws_url",
            chain_name(id),
            id
        );
    }
}

#[test]
fn test_ws_urls_are_valid() {
    for &id in &all_chain_ids() {
        let endpoints = default_endpoints(id);
        for ep in &endpoints {
            if let Some(ws_url) = &ep.ws_url {
                assert!(
                    ws_url.starts_with("wss://"),
                    "WS URL for {} ({}) should start with wss://, got: {}",
                    ep.name,
                    chain_name(id),
                    ws_url
                );
            }
        }
    }
}

#[test]
fn default_endpoints_dispatches_by_chain() {
    assert_eq!(default_endpoints(chain_id::ETHEREUM).len(), ethereum_endpoints().len());
    assert_eq!(default_endpoints(chain_id::ETHEREUM)[0].url, "https://ethereum-rpc.publicnode.com");
    assert_eq!(default_endpoints(chain_id::ARBITRUM_ONE)[0].url, arbitrum_endpoints()[0].url);
    assert_eq!(default_endpoints(chain_id::BSC).len(), bsc_endpoints().len());
    // Test networks have a name but no presets.
    assert!(default_endpoints(chain_id::GOERLI).is_empty());
    assert!(default_endpoints(chain_id::SEPOLIA).is_empty());
    assert!(default_endpoints(0).is_empty());
    assert_eq!(chain_name(chain_id::GOERLI), "Goerli");
    assert_eq!(chain_name(chain_id::SEPOLIA), "Sepolia");
    assert_eq!(chain_name(0), "Unknown");
}

#[test]
fn preset_list_lengths() {
    assert_eq!(ethereum_endpoints().len(), 34);
    assert_eq!(hyperliquid_evm_endpoints().len(), 3);
    assert_eq!(all_chain_ids().len(), 38);
    assert_eq!(all_chain_ids()[0], chain_id::ETHEREUM);
    let total: usize = all_chain_ids().iter().map(|&id| default_endpoints(id).len()).sum();
    assert_eq!(total, 276);
}

#[test]
fn first_ethereum_preset() {
    let first = &ethereum_endpoints()[0];
    assert_eq!(first.name, "PublicNode");
    assert_eq!(first.ws_url.as_deref(), Some("wss://ethereum-rpc.publicnode.com"));
    assert_eq!(first.priority, 50);
    assert_eq!(first.chain_id, 1);
    assert_eq!(first.capabilities.supports_eth_get_logs, Some(false));
    assert_eq!(first.capabilities.max_batch_size, Some(100));
    assert_eq!(first.capabilities.max_block_range, Some(0));
}

#[test]
fn measured_capabilities() {
    let caps = measured(true, 25, 5_000);
    assert_eq!(caps.supports_eth_get_logs, Some(true));
    assert_eq!(caps.max_batch_size, Some(25));
    assert_eq!(caps.max_block_range, Some(5_000));
    assert_eq!(caps.supports_debug_trace, None);
    assert!(!caps.supports_websocket);
    assert_eq!(caps.rate_limit_rps, None);
}


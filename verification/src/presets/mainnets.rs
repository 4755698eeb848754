//! Preset endpoints of the large layer-one chains.

use crate::endpoint::EndpointCapabilities;
use crate::endpoint::RpcEndpoint;
use crate::presets::chain_id;
use crate::presets::entries_of;
use crate::presets::measured;
use crate::presets::preset_list;
use crate::presets::spec_measured;
use crate::presets::with_websocket;
use crate::presets::PresetEntry;
use vstd::prelude::*;

verus! {

/// The preset endpoints of Ethereum Mainnet, entry by entry.
pub open spec fn ethereum_table() -> Seq<PresetEntry> {
    seq![
        PresetEntry {
            url: "https://ethereum-rpc.publicnode.com"@,
            name: "PublicNode"@,
            ws_url: Some("wss://ethereum-rpc.publicnode.com"@),
            priority: 50,
            chain_id: chain_id::ETHEREUM,
            capabilities: spec_measured(false, 100, 0),
        },
        PresetEntry {
            url: "https://1rpc.io/eth"@,
            name: "1RPC"@,
            ws_url: None,
            priority: 51,
            chain_id: chain_id::ETHEREUM,
            capabilities: EndpointCapabilities::spec_unknown(),
        },
        PresetEntry {
            url: "https://eth.drpc.org"@,
            name: "dRPC"@,
            ws_url: None,
            priority: 52,
            chain_id: chain_id::ETHEREUM,
            capabilities: spec_measured(true, 1, 0),
        },
        PresetEntry {
            url: "https://eth-mainnet.public.blastapi.io"@,
            name: "BlastAPI"@,
            ws_url: None,
            priority: 53,
            chain_id: chain_id::ETHEREUM,
            capabilities: spec_measured(true, 0, 100),
        },
        PresetEntry {
            url: "https://eth.merkle.io"@,
            name: "Merkle"@,
            ws_url: None,
            priority: 54,
            chain_id: chain_id::ETHEREUM,
            capabilities: spec_measured(true, 10, 0),
        },
        PresetEntry {
            url: "https://rpc.flashbots.net"@,
            name: "Flashbots"@,
            ws_url: None,
            priority: 55,
            chain_id: chain_id::ETHEREUM,
            capabilities: spec_measured(true, 1, 0),
        },
        PresetEntry {
            url: "https://eth.api.onfinality.io/public"@,
            name: "OnFinality"@,
            ws_url: None,
            priority: 56,
            chain_id: chain_id::ETHEREUM,
            capabilities: spec_measured(true, 10, 0),
        },
        PresetEntry {
            url: "https://eth.meowrpc.com"@,
            name: "MeowRPC"@,
            ws_url: None,
            priority: 57,
            chain_id: chain_id::ETHEREUM,
            capabilities: spec_measured(false, 1, 0),
        },
        PresetEntry {
            url: "https://eth-pokt.nodies.app"@,
            name: "Nodies"@,
            ws_url: None,
            priority: 58,
            chain_id: chain_id::ETHEREUM,
            capabilities: spec_measured(true, 50, 0),
        },
        PresetEntry {
            url: "https://rpc.mevblocker.io"@,
            name: "MEV Blocker"@,
            ws_url: None,
            priority: 59,
            chain_id: chain_id::ETHEREUM,
            capabilities: spec_measured(true, 0, 0),
        },
        PresetEntry {
            url: "https://ethereum.rpc.subquery.network/public"@,
            name: "SubQuery"@,
            ws_url: None,
            priority: 60,
            chain_id: chain_id::ETHEREUM,
            capabilities: spec_measured(true, 1, 0),
        },
        PresetEntry {
            url: "https://0xrpc.io/eth"@,
            name: "0xRPC"@,
            ws_url: None,
            priority: 61,
            chain_id: chain_id::ETHEREUM,
            capabilities: EndpointCapabilities::spec_unknown(),
        },
        PresetEntry {
            url: "https://eth.blockrazor.xyz"@,
            name: "BlockRazor"@,
            ws_url: None,
            priority: 62,
            chain_id: chain_id::ETHEREUM,
            capabilities: spec_measured(false, 0, 0),
        },
        PresetEntry {
            url: "https://eth.rpc.blxrbdn.com"@,
            name: "BloXroute"@,
            ws_url: None,
            priority: 64,
            chain_id: chain_id::ETHEREUM,
            capabilities: spec_measured(false, 0, 0),
        },
        PresetEntry {
            url: "https://rpc.eth.gateway.fm"@,
            name: "Gateway.fm"@,
            ws_url: None,
            priority: 65,
            chain_id: chain_id::ETHEREUM,
            capabilities: spec_measured(true, 10, 0),
        },
        PresetEntry {
            url: "https://core.gashawk.io/rpc"@,
            name: "GasHawk"@,
            ws_url: None,
            priority: 66,
            chain_id: chain_id::ETHEREUM,
            capabilities: spec_measured(true, 0, 0),
        },
        PresetEntry {
            url: "https://rpc.tornadoeth.cash/eth"@,
            name: "TornadoETH"@,
            ws_url: None,
            priority: 67,
            chain_id: chain_id::ETHEREUM,
            capabilities: spec_measured(true, 0, 0),
        },
        PresetEntry {
            url: "https://mainnet.gateway.tenderly.co"@,
            name: "Tenderly"@,
            ws_url: None,
            priority: 68,
            chain_id: chain_id::ETHEREUM,
            capabilities: spec_measured(true, 10, 100),
        },
        PresetEntry {
            url: "https://rpc.mevblocker.io/fast"@,
            name: "MEV Blocker Fast"@,
            ws_url: None,
            priority: 69,
            chain_id: chain_id::ETHEREUM,
            capabilities: spec_measured(true, 0, 0),
        },
        PresetEntry {
            url: "https://rpc.mevblocker.io/noreverts"@,
            name: "MEV Blocker NoReverts"@,
            ws_url: None,
            priority: 70,
            chain_id: chain_id::ETHEREUM,
            capabilities: spec_measured(true, 0, 0),
        },
        PresetEntry {
            url: "https://rpc.mevblocker.io/fullprivacy"@,
            name: "MEV Blocker FullPrivacy"@,
            ws_url: None,
            priority: 71,
            chain_id: chain_id::ETHEREUM,
            capabilities: spec_measured(true, 0, 0),
        },
        PresetEntry {
            url: "https://eth.llamarpc.com"@,
            name: "LlamaNodes"@,
            ws_url: None,
            priority: 73,
            chain_id: chain_id::ETHEREUM,
            capabilities: spec_measured(true, 10, 0),
        },
        PresetEntry {
            url: "https://public-eth.nownodes.io"@,
            name: "NOWNodes"@,
            ws_url: None,
            priority: 74,
            chain_id: chain_id::ETHEREUM,
            capabilities: EndpointCapabilities::spec_unknown(),
        },
        PresetEntry {
            url: "https://ethereum-json-rpc.stakely.io"@,
            name: "Stakely"@,
            ws_url: None,
            priority: 75,
            chain_id: chain_id::ETHEREUM,
            capabilities: EndpointCapabilities::spec_unknown(),
        },
        PresetEntry {
            url: "https://eth-mainnet.reddio.com"@,
            name: "Reddio"@,
            ws_url: None,
            priority: 76,
            chain_id: chain_id::ETHEREUM,
            capabilities: EndpointCapabilities::spec_unknown(),
        },
        PresetEntry {
            url: "https://api.noderpc.xyz/rpc-mainnet/public"@,
            name: "NodeRPC"@,
            ws_url: None,
            priority: 77,
            chain_id: chain_id::ETHEREUM,
            capabilities: EndpointCapabilities::spec_unknown(),
        },
        PresetEntry {
            url: "https://virginia.rpc.blxrbdn.com"@,
            name: "BloXroute Virginia"@,
            ws_url: None,
            priority: 78,
            chain_id: chain_id::ETHEREUM,
            capabilities: EndpointCapabilities::spec_unknown(),
        },
        PresetEntry {
            url: "https://uk.rpc.blxrbdn.com"@,
            name: "BloXroute UK"@,
            ws_url: None,
            priority: 79,
            chain_id: chain_id::ETHEREUM,
            capabilities: EndpointCapabilities::spec_unknown(),
        },
        PresetEntry {
            url: "https://singapore.rpc.blxrbdn.com"@,
            name: "BloXroute Singapore"@,
            ws_url: None,
            priority: 80,
            chain_id: chain_id::ETHEREUM,
            capabilities: EndpointCapabilities::spec_unknown(),
        },
        PresetEntry {
            url: "https://ethereum.blinklabs.xyz"@,
            name: "BlinkLabs"@,
            ws_url: None,
            priority: 81,
            chain_id: chain_id::ETHEREUM,
            capabilities: EndpointCapabilities::spec_unknown(),
        },
        PresetEntry {
            url: "https://eth-protect.rpc.blxrbdn.com"@,
            name: "BloXroute Protect"@,
            ws_url: None,
            priority: 82,
            chain_id: chain_id::ETHEREUM,
            capabilities: EndpointCapabilities::spec_unknown(),
        },
        PresetEntry {
            url: "https://eth.leorpc.com/?api_key=FREE"@,
            name: "LeoRPC"@,
            ws_url: None,
            priority: 83,
            chain_id: chain_id::ETHEREUM,
            capabilities: EndpointCapabilities::spec_unknown(),
        },
        PresetEntry {
            url: "https://eth.api.pocket.network"@,
            name: "Pocket Network"@,
            ws_url: None,
            priority: 84,
            chain_id: chain_id::ETHEREUM,
            capabilities: EndpointCapabilities::spec_unknown(),
        },
        PresetEntry {
            url: "https://ethereum-public.nodies.app"@,
            name: "Nodies Public"@,
            ws_url: None,
            priority: 85,
            chain_id: chain_id::ETHEREUM,
            capabilities: EndpointCapabilities::spec_unknown(),
        },
    ]
}

/// Default endpoints for Ethereum Mainnet.
pub fn ethereum_endpoints() -> (list: Vec<RpcEndpoint>)
    ensures
        entries_of(list@) == ethereum_table(),
        list@.len() == 34,
        preset_list(list@, chain_id::ETHEREUM),
{
    let list = vec![
        RpcEndpoint::new("https://ethereum-rpc.publicnode.com")
            .with_name("PublicNode")
            .with_ws_url("wss://ethereum-rpc.publicnode.com")
            .with_priority(50)
            .with_chain_id(chain_id::ETHEREUM)
            .with_capabilities(measured(false, 100, 0)),
        RpcEndpoint::new("https://1rpc.io/eth")
            .with_name("1RPC")
            .with_priority(51)
            .with_chain_id(chain_id::ETHEREUM),
        RpcEndpoint::new("https://eth.drpc.org")
            .with_name("dRPC")
            .with_priority(52)
            .with_chain_id(chain_id::ETHEREUM)
            .with_capabilities(measured(true, 1, 0)),
        RpcEndpoint::new("https://eth-mainnet.public.blastapi.io")
            .with_name("BlastAPI")
            .with_priority(53)
            .with_chain_id(chain_id::ETHEREUM)
            .with_capabilities(measured(true, 0, 100)),
        RpcEndpoint::new("https://eth.merkle.io")
            .with_name("Merkle")
            .with_priority(54)
            .with_chain_id(chain_id::ETHEREUM)
            .with_capabilities(measured(true, 10, 0)),
        RpcEndpoint::new("https://rpc.flashbots.net")
            .with_name("Flashbots")
            .with_priority(55)
            .with_chain_id(chain_id::ETHEREUM)
            .with_capabilities(measured(true, 1, 0)),
        RpcEndpoint::new("https://eth.api.onfinality.io/public")
            .with_name("OnFinality")
            .with_priority(56)
            .with_chain_id(chain_id::ETHEREUM)
            .with_capabilities(measured(true, 10, 0)),
        RpcEndpoint::new("https://eth.meowrpc.com")
            .with_name("MeowRPC")
            .with_priority(57)
            .with_chain_id(chain_id::ETHEREUM)
            .with_capabilities(measured(false, 1, 0)),
        RpcEndpoint::new("https://eth-pokt.nodies.app")
            .with_name("Nodies")
            .with_priority(58)
            .with_chain_id(chain_id::ETHEREUM)
            .with_capabilities(measured(true, 50, 0)),
        RpcEndpoint::new("https://rpc.mevblocker.io")
            .with_name("MEV Blocker")
            .with_priority(59)
            .with_chain_id(chain_id::ETHEREUM)
            .with_capabilities(measured(true, 0, 0)),
        RpcEndpoint::new("https://ethereum.rpc.subquery.network/public")
            .with_name("SubQuery")
            .with_priority(60)
            .with_chain_id(chain_id::ETHEREUM)
            .with_capabilities(measured(true, 1, 0)),
        RpcEndpoint::new("https://0xrpc.io/eth")
            .with_name("0xRPC")
            .with_priority(61)
            .with_chain_id(chain_id::ETHEREUM),
        RpcEndpoint::new("https://eth.blockrazor.xyz")
            .with_name("BlockRazor")
            .with_priority(62)
            .with_chain_id(chain_id::ETHEREUM)
            .with_capabilities(measured(false, 0, 0)),
        RpcEndpoint::new("https://eth.rpc.blxrbdn.com")
            .with_name("BloXroute")
            .with_priority(64)
            .with_chain_id(chain_id::ETHEREUM)
            .with_capabilities(measured(false, 0, 0)),
        RpcEndpoint::new("https://rpc.eth.gateway.fm")
            .with_name("Gateway.fm")
            .with_priority(65)
            .with_chain_id(chain_id::ETHEREUM)
            .with_capabilities(measured(true, 10, 0)),
        RpcEndpoint::new("https://core.gashawk.io/rpc")
            .with_name("GasHawk")
            .with_priority(66)
            .with_chain_id(chain_id::ETHEREUM)
            .with_capabilities(measured(true, 0, 0)),
        RpcEndpoint::new("https://rpc.tornadoeth.cash/eth")
            .with_name("TornadoETH")
            .with_priority(67)
            .with_chain_id(chain_id::ETHEREUM)
            .with_capabilities(measured(true, 0, 0)),
        RpcEndpoint::new("https://mainnet.gateway.tenderly.co")
            .with_name("Tenderly")
            .with_priority(68)
            .with_chain_id(chain_id::ETHEREUM)
            .with_capabilities(measured(true, 10, 100)),
        RpcEndpoint::new("https://rpc.mevblocker.io/fast")
            .with_name("MEV Blocker Fast")
            .with_priority(69)
            .with_chain_id(chain_id::ETHEREUM)
            .with_capabilities(measured(true, 0, 0)),
        RpcEndpoint::new("https://rpc.mevblocker.io/noreverts")
            .with_name("MEV Blocker NoReverts")
            .with_priority(70)
            .with_chain_id(chain_id::ETHEREUM)
            .with_capabilities(measured(true, 0, 0)),
        RpcEndpoint::new("https://rpc.mevblocker.io/fullprivacy")
            .with_name("MEV Blocker FullPrivacy")
            .with_priority(71)
            .with_chain_id(chain_id::ETHEREUM)
            .with_capabilities(measured(true, 0, 0)),
        RpcEndpoint::new("https://eth.llamarpc.com")
            .with_name("LlamaNodes")
            .with_priority(73)
            .with_chain_id(chain_id::ETHEREUM)
            .with_capabilities(measured(true, 10, 0)),
        RpcEndpoint::new("https://public-eth.nownodes.io")
            .with_name("NOWNodes")
            .with_priority(74)
            .with_chain_id(chain_id::ETHEREUM),
        RpcEndpoint::new("https://ethereum-json-rpc.stakely.io")
            .with_name("Stakely")
            .with_priority(75)
            .with_chain_id(chain_id::ETHEREUM),
        RpcEndpoint::new("https://eth-mainnet.reddio.com")
            .with_name("Reddio")
            .with_priority(76)
            .with_chain_id(chain_id::ETHEREUM),
        RpcEndpoint::new("https://api.noderpc.xyz/rpc-mainnet/public")
            .with_name("NodeRPC")
            .with_priority(77)
            .with_chain_id(chain_id::ETHEREUM),
        RpcEndpoint::new("https://virginia.rpc.blxrbdn.com")
            .with_name("BloXroute Virginia")
            .with_priority(78)
            .with_chain_id(chain_id::ETHEREUM),
        RpcEndpoint::new("https://uk.rpc.blxrbdn.com")
            .with_name("BloXroute UK")
            .with_priority(79)
            .with_chain_id(chain_id::ETHEREUM),
        RpcEndpoint::new("https://singapore.rpc.blxrbdn.com")
            .with_name("BloXroute Singapore")
            .with_priority(80)
            .with_chain_id(chain_id::ETHEREUM),
        RpcEndpoint::new("https://ethereum.blinklabs.xyz")
            .with_name("BlinkLabs")
            .with_priority(81)
            .with_chain_id(chain_id::ETHEREUM),
        RpcEndpoint::new("https://eth-protect.rpc.blxrbdn.com")
            .with_name("BloXroute Protect")
            .with_priority(82)
            .with_chain_id(chain_id::ETHEREUM),
        RpcEndpoint::new("https://eth.leorpc.com/?api_key=FREE")
            .with_name("LeoRPC")
            .with_priority(83)
            .with_chain_id(chain_id::ETHEREUM),
        RpcEndpoint::new("https://eth.api.pocket.network")
            .with_name("Pocket Network")
            .with_priority(84)
            .with_chain_id(chain_id::ETHEREUM),
        RpcEndpoint::new("https://ethereum-public.nodies.app")
            .with_name("Nodies Public")
            .with_priority(85)
            .with_chain_id(chain_id::ETHEREUM),
    ];
    assert(entries_of(list@) =~= ethereum_table());
    list
}

/// The preset endpoints of BSC, entry by entry.
pub open spec fn bsc_table() -> Seq<PresetEntry> {
    seq![
        PresetEntry {
            url: "https://bsc-dataseed.bnbchain.org"@,
            name: "BNB Chain Official"@,
            ws_url: None,
            priority: 50,
            chain_id: chain_id::BSC,
            capabilities: spec_measured(false, 100, 0),
        },
        PresetEntry {
            url: "https://bsc-dataseed1.bnbchain.org"@,
            name: "BNB Chain 1"@,
            ws_url: None,
            priority: 51,
            chain_id: chain_id::BSC,
            capabilities: spec_measured(false, 100, 0),
        },
        PresetEntry {
            url: "https://bsc-dataseed2.bnbchain.org"@,
            name: "BNB Chain 2"@,
            ws_url: None,
            priority: 52,
            chain_id: chain_id::BSC,
            capabilities: spec_measured(false, 100, 0),
        },
        PresetEntry {
            url: "https://bsc-dataseed3.bnbchain.org"@,
            name: "BNB Chain 3"@,
            ws_url: None,
            priority: 53,
            chain_id: chain_id::BSC,
            capabilities: spec_measured(false, 100, 0),
        },
        PresetEntry {
            url: "https://bsc-dataseed4.bnbchain.org"@,
            name: "BNB Chain 4"@,
            ws_url: None,
            priority: 54,
            chain_id: chain_id::BSC,
            capabilities: spec_measured(false, 100, 0),
        },
        PresetEntry {
            url: "https://bsc-dataseed1.defibit.io"@,
            name: "Defibit 1"@,
            ws_url: None,
            priority: 55,
            chain_id: chain_id::BSC,
            capabilities: spec_measured(false, 100, 0),
        },
        PresetEntry {
            url: "https://bsc-dataseed2.defibit.io"@,
            name: "Defibit 2"@,
            ws_url: None,
            priority: 56,
            chain_id: chain_id::BSC,
            capabilities: spec_measured(false, 100, 0),
        },
        PresetEntry {
            url: "https://bsc-dataseed3.defibit.io"@,
            name: "Defibit 3"@,
            ws_url: None,
            priority: 57,
            chain_id: chain_id::BSC,
            capabilities: spec_measured(false, 100, 0),
        },
        PresetEntry {
            url: "https://bsc-dataseed4.defibit.io"@,
            name: "Defibit 4"@,
            ws_url: None,
            priority: 58,
            chain_id: chain_id::BSC,
            capabilities: spec_measured(false, 100, 0),
        },
        PresetEntry {
            url: "https://bsc-dataseed1.ninicoin.io"@,
            name: "Ninicoin 1"@,
            ws_url: None,
            priority: 59,
            chain_id: chain_id::BSC,
            capabilities: spec_measured(false, 100, 0),
        },
        PresetEntry {
            url: "https://bsc-dataseed2.ninicoin.io"@,
            name: "Ninicoin 2"@,
            ws_url: None,
            priority: 60,
            chain_id: chain_id::BSC,
            capabilities: spec_measured(false, 100, 0),
        },
        PresetEntry {
            url: "https://bsc-dataseed3.ninicoin.io"@,
            name: "Ninicoin 3"@,
            ws_url: None,
            priority: 61,
            chain_id: chain_id::BSC,
            capabilities: spec_measured(false, 100, 0),
        },
        PresetEntry {
            url: "https://bsc-dataseed4.ninicoin.io"@,
            name: "Ninicoin 4"@,
            ws_url: None,
            priority: 62,
            chain_id: chain_id::BSC,
            capabilities: spec_measured(false, 100, 0),
        },
        PresetEntry {
            url: "https://bsc-rpc.publicnode.com"@,
            name: "PublicNode"@,
            ws_url: Some("wss://bsc-rpc.publicnode.com"@),
            priority: 63,
            chain_id: chain_id::BSC,
            capabilities: spec_measured(false, 0, 0),
        },
        PresetEntry {
            url: "https://bsc.publicnode.com"@,
            name: "PublicNode Alt"@,
            ws_url: None,
            priority: 64,
            chain_id: chain_id::BSC,
            capabilities: spec_measured(false, 0, 0),
        },
        PresetEntry {
            url: "https://1rpc.io/bnb"@,
            name: "1RPC"@,
            ws_url: None,
            priority: 65,
            chain_id: chain_id::BSC,
            capabilities: spec_measured(true, 0, 100),
        },
        PresetEntry {
            url: "https://bsc.drpc.org"@,
            name: "dRPC"@,
            ws_url: None,
            priority: 66,
            chain_id: chain_id::BSC,
            capabilities: spec_measured(true, 1, 0),
        },
        PresetEntry {
            url: "https://bsc-mainnet.public.blastapi.io"@,
            name: "BlastAPI"@,
            ws_url: None,
            priority: 67,
            chain_id: chain_id::BSC,
            capabilities: spec_measured(true, 0, 100),
        },
        PresetEntry {
            url: "https://bsc.meowrpc.com"@,
            name: "MeowRPC"@,
            ws_url: None,
            priority: 68,
            chain_id: chain_id::BSC,
            capabilities: spec_measured(false, 1, 0),
        },
        PresetEntry {
            url: "https://bsc-pokt.nodies.app"@,
            name: "Nodies"@,
            ws_url: None,
            priority: 69,
            chain_id: chain_id::BSC,
            capabilities: spec_measured(true, 50, 100),
        },
        PresetEntry {
            url: "https://bnb.rpc.subquery.network/public"@,
            name: "SubQuery"@,
            ws_url: None,
            priority: 71,
            chain_id: chain_id::BSC,
            capabilities: spec_measured(true, 10, 100),
        },
        PresetEntry {
            url: "https://bsc-mainnet.nodereal.io/v1/64a9df0874fb4a93b9d0a3849de012d3"@,
            name: "NodeReal"@,
            ws_url: None,
            priority: 73,
            chain_id: chain_id::BSC,
            capabilities: spec_measured(true, 100, 0),
        },
        PresetEntry {
            url: "https://binance.llamarpc.com"@,
            name: "LlamaNodes"@,
            ws_url: None,
            priority: 74,
            chain_id: chain_id::BSC,
            capabilities: spec_measured(true, 10, 0),
        },
        PresetEntry {
            url: "https://bsc.blockrazor.xyz"@,
            name: "BlockRazor"@,
            ws_url: None,
            priority: 75,
            chain_id: chain_id::BSC,
            capabilities: EndpointCapabilities::spec_unknown(),
        },
        PresetEntry {
            url: "https://bsc.api.pocket.network"@,
            name: "Pocket Network"@,
            ws_url: None,
            priority: 76,
            chain_id: chain_id::BSC,
            capabilities: EndpointCapabilities::spec_unknown(),
        },
    ]
}

/// Default endpoints for BSC.
pub fn bsc_endpoints() -> (list: Vec<RpcEndpoint>)
    ensures
        entries_of(list@) == bsc_table(),
        list@.len() == 25,
        preset_list(list@, chain_id::BSC),
{
    let list = vec![
        RpcEndpoint::new("https://bsc-dataseed.bnbchain.org")
            .with_name("BNB Chain Official")
            .with_priority(50)
            .with_chain_id(chain_id::BSC)
            .with_capabilities(measured(false, 100, 0)),
        RpcEndpoint::new("https://bsc-dataseed1.bnbchain.org")
            .with_name("BNB Chain 1")
            .with_priority(51)
            .with_chain_id(chain_id::BSC)
            .with_capabilities(measured(false, 100, 0)),
        RpcEndpoint::new("https://bsc-dataseed2.bnbchain.org")
            .with_name("BNB Chain 2")
            .with_priority(52)
            .with_chain_id(chain_id::BSC)
            .with_capabilities(measured(false, 100, 0)),
        RpcEndpoint::new("https://bsc-dataseed3.bnbchain.org")
            .with_name("BNB Chain 3")
            .with_priority(53)
            .with_chain_id(chain_id::BSC)
            .with_capabilities(measured(false, 100, 0)),
        RpcEndpoint::new("https://bsc-dataseed4.bnbchain.org")
            .with_name("BNB Chain 4")
            .with_priority(54)
            .with_chain_id(chain_id::BSC)
            .with_capabilities(measured(false, 100, 0)),
        RpcEndpoint::new("https://bsc-dataseed1.defibit.io")
            .with_name("Defibit 1")
            .with_priority(55)
            .with_chain_id(chain_id::BSC)
            .with_capabilities(measured(false, 100, 0)),
        RpcEndpoint::new("https://bsc-dataseed2.defibit.io")
            .with_name("Defibit 2")
            .with_priority(56)
            .with_chain_id(chain_id::BSC)
            .with_capabilities(measured(false, 100, 0)),
        RpcEndpoint::new("https://bsc-dataseed3.defibit.io")
            .with_name("Defibit 3")
            .with_priority(57)
            .with_chain_id(chain_id::BSC)
            .with_capabilities(measured(false, 100, 0)),
        RpcEndpoint::new("https://bsc-dataseed4.defibit.io")
            .with_name("Defibit 4")
            .with_priority(58)
            .with_chain_id(chain_id::BSC)
            .with_capabilities(measured(false, 100, 0)),
        RpcEndpoint::new("https://bsc-dataseed1.ninicoin.io")
            .with_name("Ninicoin 1")
            .with_priority(59)
            .with_chain_id(chain_id::BSC)
            .with_capabilities(measured(false, 100, 0)),
        RpcEndpoint::new("https://bsc-dataseed2.ninicoin.io")
            .with_name("Ninicoin 2")
            .with_priority(60)
            .with_chain_id(chain_id::BSC)
            .with_capabilities(measured(false, 100, 0)),
        RpcEndpoint::new("https://bsc-dataseed3.ninicoin.io")
            .with_name("Ninicoin 3")
            .with_priority(61)
            .with_chain_id(chain_id::BSC)
            .with_capabilities(measured(false, 100, 0)),
        RpcEndpoint::new("https://bsc-dataseed4.ninicoin.io")
            .with_name("Ninicoin 4")
            .with_priority(62)
            .with_chain_id(chain_id::BSC)
            .with_capabilities(measured(false, 100, 0)),
        RpcEndpoint::new("https://bsc-rpc.publicnode.com")
            .with_name("PublicNode")
            .with_ws_url("wss://bsc-rpc.publicnode.com")
            .with_priority(63)
            .with_chain_id(chain_id::BSC)
            .with_capabilities(measured(false, 0, 0)),
        RpcEndpoint::new("https://bsc.publicnode.com")
            .with_name("PublicNode Alt")
            .with_priority(64)
            .with_chain_id(chain_id::BSC)
            .with_capabilities(measured(false, 0, 0)),
        RpcEndpoint::new("https://1rpc.io/bnb")
            .with_name("1RPC")
            .with_priority(65)
            .with_chain_id(chain_id::BSC)
            .with_capabilities(measured(true, 0, 100)),
        RpcEndpoint::new("https://bsc.drpc.org")
            .with_name("dRPC")
            .with_priority(66)
            .with_chain_id(chain_id::BSC)
            .with_capabilities(measured(true, 1, 0)),
        RpcEndpoint::new("https://bsc-mainnet.public.blastapi.io")
            .with_name("BlastAPI")
            .with_priority(67)
            .with_chain_id(chain_id::BSC)
            .with_capabilities(measured(true, 0, 100)),
        RpcEndpoint::new("https://bsc.meowrpc.com")
            .with_name("MeowRPC")
            .with_priority(68)
            .with_chain_id(chain_id::BSC)
            .with_capabilities(measured(false, 1, 0)),
        RpcEndpoint::new("https://bsc-pokt.nodies.app")
            .with_name("Nodies")
            .with_priority(69)
            .with_chain_id(chain_id::BSC)
            .with_capabilities(measured(true, 50, 100)),
        RpcEndpoint::new("https://bnb.rpc.subquery.network/public")
            .with_name("SubQuery")
            .with_priority(71)
            .with_chain_id(chain_id::BSC)
            .with_capabilities(measured(true, 10, 100)),
        RpcEndpoint::new("https://bsc-mainnet.nodereal.io/v1/64a9df0874fb4a93b9d0a3849de012d3")
            .with_name("NodeReal")
            .with_priority(73)
            .with_chain_id(chain_id::BSC)
            .with_capabilities(measured(true, 100, 0)),
        RpcEndpoint::new("https://binance.llamarpc.com")
            .with_name("LlamaNodes")
            .with_priority(74)
            .with_chain_id(chain_id::BSC)
            .with_capabilities(measured(true, 10, 0)),
        RpcEndpoint::new("https://bsc.blockrazor.xyz")
            .with_name("BlockRazor")
            .with_priority(75)
            .with_chain_id(chain_id::BSC),
        RpcEndpoint::new("https://bsc.api.pocket.network")
            .with_name("Pocket Network")
            .with_priority(76)
            .with_chain_id(chain_id::BSC),
    ];
    assert(entries_of(list@) =~= bsc_table());
    list
}

/// The preset endpoints of Avalanche C-Chain, entry by entry.
pub open spec fn avalanche_table() -> Seq<PresetEntry> {
    seq![
        PresetEntry {
            url: "https://api.avax.network/ext/bc/C/rpc"@,
            name: "Avalanche Official"@,
            ws_url: None,
            priority: 50,
            chain_id: chain_id::AVALANCHE,
            capabilities: spec_measured(true, 10, 1000),
        },
        PresetEntry {
            url: "https://avalanche-c-chain-rpc.publicnode.com"@,
            name: "PublicNode"@,
            ws_url: Some("wss://avalanche-c-chain-rpc.publicnode.com"@),
            priority: 51,
            chain_id: chain_id::AVALANCHE,
            capabilities: spec_measured(false, 0, 0),
        },
        PresetEntry {
            url: "https://1rpc.io/avax/c"@,
            name: "1RPC"@,
            ws_url: None,
            priority: 52,
            chain_id: chain_id::AVALANCHE,
            capabilities: spec_measured(true, 0, 1000),
        },
        PresetEntry {
            url: "https://avalanche.drpc.org"@,
            name: "dRPC"@,
            ws_url: None,
            priority: 53,
            chain_id: chain_id::AVALANCHE,
            capabilities: spec_measured(true, 1, 100),
        },
        PresetEntry {
            url: "https://avalanche.api.onfinality.io/public/ext/bc/C/rpc"@,
            name: "OnFinality"@,
            ws_url: None,
            priority: 54,
            chain_id: chain_id::AVALANCHE,
            capabilities: spec_measured(false, 0, 0),
        },
        PresetEntry {
            url: "https://avax-pokt.nodies.app/ext/bc/C/rpc"@,
            name: "Nodies"@,
            ws_url: None,
            priority: 55,
            chain_id: chain_id::AVALANCHE,
            capabilities: spec_measured(true, 50, 100),
        },
        PresetEntry {
            url: "https://avalanche.gateway.tenderly.co"@,
            name: "Tenderly"@,
            ws_url: None,
            priority: 56,
            chain_id: chain_id::AVALANCHE,
            capabilities: spec_measured(true, 10, 1000),
        },
    ]
}

/// Default endpoints for Avalanche C-Chain.
pub fn avalanche_endpoints() -> (list: Vec<RpcEndpoint>)
    ensures
        entries_of(list@) == avalanche_table(),
        list@.len() == 7,
        preset_list(list@, chain_id::AVALANCHE),
{
    let list = vec![
        RpcEndpoint::new("https://api.avax.network/ext/bc/C/rpc")
            .with_name("Avalanche Official")
            .with_priority(50)
            .with_chain_id(chain_id::AVALANCHE)
            .with_capabilities(measured(true, 10, 1000)),
        RpcEndpoint::new("https://avalanche-c-chain-rpc.publicnode.com")
            .with_name("PublicNode")
            .with_ws_url("wss://avalanche-c-chain-rpc.publicnode.com")
            .with_priority(51)
            .with_chain_id(chain_id::AVALANCHE)
            .with_capabilities(measured(false, 0, 0)),
        RpcEndpoint::new("https://1rpc.io/avax/c")
            .with_name("1RPC")
            .with_priority(52)
            .with_chain_id(chain_id::AVALANCHE)
            .with_capabilities(measured(true, 0, 1000)),
        RpcEndpoint::new("https://avalanche.drpc.org")
            .with_name("dRPC")
            .with_priority(53)
            .with_chain_id(chain_id::AVALANCHE)
            .with_capabilities(measured(true, 1, 100)),
        RpcEndpoint::new("https://avalanche.api.onfinality.io/public/ext/bc/C/rpc")
            .with_name("OnFinality")
            .with_priority(54)
            .with_chain_id(chain_id::AVALANCHE)
            .with_capabilities(measured(false, 0, 0)),
        RpcEndpoint::new("https://avax-pokt.nodies.app/ext/bc/C/rpc")
            .with_name("Nodies")
            .with_priority(55)
            .with_chain_id(chain_id::AVALANCHE)
            .with_capabilities(measured(true, 50, 100)),
        RpcEndpoint::new("https://avalanche.gateway.tenderly.co")
            .with_name("Tenderly")
            .with_priority(56)
            .with_chain_id(chain_id::AVALANCHE)
            .with_capabilities(measured(true, 10, 1000)),
    ];
    assert(entries_of(list@) =~= avalanche_table());
    list
}

/// The preset endpoints of Polygon, entry by entry.
pub open spec fn polygon_table() -> Seq<PresetEntry> {
    seq![
        PresetEntry {
            url: "https://polygon-rpc.com"@,
            name: "Polygon Official"@,
            ws_url: None,
            priority: 50,
            chain_id: chain_id::POLYGON,
            capabilities: spec_measured(false, 1, 0),
        },
        PresetEntry {
            url: "https://polygon-bor-rpc.publicnode.com"@,
            name: "PublicNode"@,
            ws_url: Some("wss://polygon-bor-rpc.publicnode.com"@),
            priority: 51,
            chain_id: chain_id::POLYGON,
            capabilities: spec_measured(false, 100, 0),
        },
        PresetEntry {
            url: "https://1rpc.io/matic"@,
            name: "1RPC"@,
            ws_url: None,
            priority: 52,
            chain_id: chain_id::POLYGON,
            capabilities: spec_measured(true, 0, 1000),
        },
        PresetEntry {
            url: "https://polygon.drpc.org"@,
            name: "dRPC"@,
            ws_url: None,
            priority: 53,
            chain_id: chain_id::POLYGON,
            capabilities: spec_measured(true, 100, 100),
        },
        PresetEntry {
            url: "https://polygon.api.onfinality.io/public"@,
            name: "OnFinality"@,
            ws_url: None,
            priority: 54,
            chain_id: chain_id::POLYGON,
            capabilities: spec_measured(false, 1, 0),
        },
        PresetEntry {
            url: "https://polygon.gateway.tenderly.co"@,
            name: "Tenderly"@,
            ws_url: None,
            priority: 55,
            chain_id: chain_id::POLYGON,
            capabilities: spec_measured(true, 10, 0),
        },
        PresetEntry {
            url: "https://polygon.rpc.subquery.network/public"@,
            name: "SubQuery"@,
            ws_url: None,
            priority: 56,
            chain_id: chain_id::POLYGON,
            capabilities: spec_measured(false, 50, 0),
        },
        PresetEntry {
            url: "https://polygon-pokt.nodies.app"@,
            name: "Nodies"@,
            ws_url: None,
            priority: 58,
            chain_id: chain_id::POLYGON,
            capabilities: spec_measured(true, 50, 100),
        },
        PresetEntry {
            url: "https://rpc-mainnet.matic.quiknode.pro"@,
            name: "QuickNode"@,
            ws_url: None,
            priority: 59,
            chain_id: chain_id::POLYGON,
            capabilities: spec_measured(true, 10, 0),
        },
        PresetEntry {
            url: "https://polygon.lava.build"@,
            name: "Lava"@,
            ws_url: None,
            priority: 66,
            chain_id: chain_id::POLYGON,
            capabilities: EndpointCapabilities::spec_unknown(),
        },
        PresetEntry {
            url: "https://api.zan.top/polygon-mainnet"@,
            name: "ZAN"@,
            ws_url: None,
            priority: 67,
            chain_id: chain_id::POLYGON,
            capabilities: EndpointCapabilities::spec_unknown(),
        },
        PresetEntry {
            url: "https://polygon-mainnet.gateway.tatum.io"@,
            name: "Tatum"@,
            ws_url: None,
            priority: 68,
            chain_id: chain_id::POLYGON,
            capabilities: EndpointCapabilities::spec_unknown(),
        },
        PresetEntry {
            url: "https://gateway.tenderly.co/public/polygon"@,
            name: "Tenderly Public"@,
            ws_url: None,
            priority: 70,
            chain_id: chain_id::POLYGON,
            capabilities: EndpointCapabilities::spec_unknown(),
        },
        PresetEntry {
            url: "https://poly.api.pocket.network"@,
            name: "Pocket Network"@,
            ws_url: None,
            priority: 71,
            chain_id: chain_id::POLYGON,
            capabilities: EndpointCapabilities::spec_unknown(),
        },
    ]
}

/// Default endpoints for Polygon.
pub fn polygon_endpoints() -> (list: Vec<RpcEndpoint>)
    ensures
        entries_of(list@) == polygon_table(),
        list@.len() == 14,
        preset_list(list@, chain_id::POLYGON),
{
    let list = vec![
        RpcEndpoint::new("https://polygon-rpc.com")
            .with_name("Polygon Official")
            .with_priority(50)
            .with_chain_id(chain_id::POLYGON)
            .with_capabilities(measured(false, 1, 0)),
        RpcEndpoint::new("https://polygon-bor-rpc.publicnode.com")
            .with_name("PublicNode")
            .with_ws_url("wss://polygon-bor-rpc.publicnode.com")
            .with_priority(51)
            .with_chain_id(chain_id::POLYGON)
            .with_capabilities(measured(false, 100, 0)),
        RpcEndpoint::new("https://1rpc.io/matic")
            .with_name("1RPC")
            .with_priority(52)
            .with_chain_id(chain_id::POLYGON)
            .with_capabilities(measured(true, 0, 1000)),
        RpcEndpoint::new("https://polygon.drpc.org")
            .with_name("dRPC")
            .with_priority(53)
            .with_chain_id(chain_id::POLYGON)
            .with_capabilities(measured(true, 100, 100)),
        RpcEndpoint::new("https://polygon.api.onfinality.io/public")
            .with_name("OnFinality")
            .with_priority(54)
            .with_chain_id(chain_id::POLYGON)
            .with_capabilities(measured(false, 1, 0)),
        RpcEndpoint::new("https://polygon.gateway.tenderly.co")
            .with_name("Tenderly")
            .with_priority(55)
            .with_chain_id(chain_id::POLYGON)
            .with_capabilities(measured(true, 10, 0)),
        RpcEndpoint::new("https://polygon.rpc.subquery.network/public")
            .with_name("SubQuery")
            .with_priority(56)
            .with_chain_id(chain_id::POLYGON)
            .with_capabilities(measured(false, 50, 0)),
        RpcEndpoint::new("https://polygon-pokt.nodies.app")
            .with_name("Nodies")
            .with_priority(58)
            .with_chain_id(chain_id::POLYGON)
            .with_capabilities(measured(true, 50, 100)),
        RpcEndpoint::new("https://rpc-mainnet.matic.quiknode.pro")
            .with_name("QuickNode")
            .with_priority(59)
            .with_chain_id(chain_id::POLYGON)
            .with_capabilities(measured(true, 10, 0)),
        RpcEndpoint::new("https://polygon.lava.build")
            .with_name("Lava")
            .with_priority(66)
            .with_chain_id(chain_id::POLYGON),
        RpcEndpoint::new("https://api.zan.top/polygon-mainnet")
            .with_name("ZAN")
            .with_priority(67)
            .with_chain_id(chain_id::POLYGON),
        RpcEndpoint::new("https://polygon-mainnet.gateway.tatum.io")
            .with_name("Tatum")
            .with_priority(68)
            .with_chain_id(chain_id::POLYGON),
        RpcEndpoint::new("https://gateway.tenderly.co/public/polygon")
            .with_name("Tenderly Public")
            .with_priority(70)
            .with_chain_id(chain_id::POLYGON),
        RpcEndpoint::new("https://poly.api.pocket.network")
            .with_name("Pocket Network")
            .with_priority(71)
            .with_chain_id(chain_id::POLYGON),
    ];
    assert(entries_of(list@) =~= polygon_table());
    list
}

/// The preset endpoints of Fantom Opera, entry by entry.
pub open spec fn fantom_table() -> Seq<PresetEntry> {
    seq![
        PresetEntry {
            url: "https://rpc.fantom.network"@,
            name: "Fantom Official"@,
            ws_url: None,
            priority: 51,
            chain_id: chain_id::FANTOM,
            capabilities: spec_measured(true, 0, 100),
        },
        PresetEntry {
            url: "https://rpc2.fantom.network"@,
            name: "Fantom Official 2"@,
            ws_url: None,
            priority: 52,
            chain_id: chain_id::FANTOM,
            capabilities: spec_measured(true, 0, 100),
        },
        PresetEntry {
            url: "https://rpc3.fantom.network"@,
            name: "Fantom Official 3"@,
            ws_url: None,
            priority: 53,
            chain_id: chain_id::FANTOM,
            capabilities: spec_measured(true, 0, 100),
        },
        PresetEntry {
            url: "https://1rpc.io/ftm"@,
            name: "1RPC"@,
            ws_url: None,
            priority: 55,
            chain_id: chain_id::FANTOM,
            capabilities: spec_measured(true, 0, 100),
        },
        PresetEntry {
            url: "https://fantom.drpc.org"@,
            name: "dRPC"@,
            ws_url: Some("wss://fantom.drpc.org"@),
            priority: 56,
            chain_id: chain_id::FANTOM,
            capabilities: spec_measured(true, 1, 100),
        },
        PresetEntry {
            url: "https://fantom.api.onfinality.io/public"@,
            name: "OnFinality"@,
            ws_url: None,
            priority: 59,
            chain_id: chain_id::FANTOM,
            capabilities: spec_measured(false, 0, 0),
        },
        PresetEntry {
            url: "https://fantom-pokt.nodies.app"@,
            name: "Nodies"@,
            ws_url: None,
            priority: 61,
            chain_id: chain_id::FANTOM,
            capabilities: spec_measured(true, 50, 100),
        },
        PresetEntry {
            url: "https://fantom-json-rpc.stakely.io"@,
            name: "Stakely"@,
            ws_url: None,
            priority: 62,
            chain_id: chain_id::FANTOM,
            capabilities: EndpointCapabilities::spec_unknown(),
        },
    ]
}

/// Default endpoints for Fantom Opera.
pub fn fantom_endpoints() -> (list: Vec<RpcEndpoint>)
    ensures
        entries_of(list@) == fantom_table(),
        list@.len() == 8,
        preset_list(list@, chain_id::FANTOM),
{
    let list = vec![
        RpcEndpoint::new("https://rpc.fantom.network")
            .with_name("Fantom Official")
            .with_priority(51)
            .with_chain_id(chain_id::FANTOM)
            .with_capabilities(measured(true, 0, 100)),
        RpcEndpoint::new("https://rpc2.fantom.network")
            .with_name("Fantom Official 2")
            .with_priority(52)
            .with_chain_id(chain_id::FANTOM)
            .with_capabilities(measured(true, 0, 100)),
        RpcEndpoint::new("https://rpc3.fantom.network")
            .with_name("Fantom Official 3")
            .with_priority(53)
            .with_chain_id(chain_id::FANTOM)
            .with_capabilities(measured(true, 0, 100)),
        RpcEndpoint::new("https://1rpc.io/ftm")
            .with_name("1RPC")
            .with_priority(55)
            .with_chain_id(chain_id::FANTOM)
            .with_capabilities(measured(true, 0, 100)),
        RpcEndpoint::new("https://fantom.drpc.org")
            .with_name("dRPC")
            .with_ws_url("wss://fantom.drpc.org")
            .with_priority(56)
            .with_chain_id(chain_id::FANTOM)
            .with_capabilities(measured(true, 1, 100)),
        RpcEndpoint::new("https://fantom.api.onfinality.io/public")
            .with_name("OnFinality")
            .with_priority(59)
            .with_chain_id(chain_id::FANTOM)
            .with_capabilities(measured(false, 0, 0)),
        RpcEndpoint::new("https://fantom-pokt.nodies.app")
            .with_name("Nodies")
            .with_priority(61)
            .with_chain_id(chain_id::FANTOM)
            .with_capabilities(measured(true, 50, 100)),
        RpcEndpoint::new("https://fantom-json-rpc.stakely.io")
            .with_name("Stakely")
            .with_priority(62)
            .with_chain_id(chain_id::FANTOM),
    ];
    assert(entries_of(list@) =~= fantom_table());
    list
}

} // verus!

//! Preset endpoints of rollups and other layer-two chains.

use crate::endpoint::EndpointCapabilities;
use crate::endpoint::RpcEndpoint;
use crate::presets::chain_id;
use crate::presets::entries_of;
use crate::presets::measured;
use crate::presets::preset_list;
use crate::presets::spec_measured;
use crate::presets::with_websocket;
use crate::presets::PresetEntry;
use vstd::prelude::*;

verus! {

/// The preset endpoints of Arbitrum One, entry by entry.
pub open spec fn arbitrum_table() -> Seq<PresetEntry> {
    seq![
        PresetEntry {
            url: "https://arb1.arbitrum.io/rpc"@,
            name: "Arbitrum Official"@,
            ws_url: Some("wss://arb1.arbitrum.io/rpc"@),
            priority: 50,
            chain_id: chain_id::ARBITRUM_ONE,
            capabilities: spec_measured(true, 100, 0),
        },
        PresetEntry {
            url: "https://arbitrum-one-rpc.publicnode.com"@,
            name: "PublicNode"@,
            ws_url: Some("wss://arbitrum-one-rpc.publicnode.com"@),
            priority: 51,
            chain_id: chain_id::ARBITRUM_ONE,
            capabilities: spec_measured(false, 0, 0),
        },
        PresetEntry {
            url: "https://1rpc.io/arb"@,
            name: "1RPC"@,
            ws_url: None,
            priority: 52,
            chain_id: chain_id::ARBITRUM_ONE,
            capabilities: spec_measured(true, 1, 0),
        },
        PresetEntry {
            url: "https://arbitrum.drpc.org"@,
            name: "dRPC"@,
            ws_url: None,
            priority: 53,
            chain_id: chain_id::ARBITRUM_ONE,
            capabilities: spec_measured(true, 1, 0),
        },
        PresetEntry {
            url: "https://arbitrum-one.public.blastapi.io"@,
            name: "BlastAPI"@,
            ws_url: None,
            priority: 54,
            chain_id: chain_id::ARBITRUM_ONE,
            capabilities: spec_measured(true, 0, 10000),
        },
        PresetEntry {
            url: "https://arbitrum.api.onfinality.io/public"@,
            name: "OnFinality"@,
            ws_url: None,
            priority: 55,
            chain_id: chain_id::ARBITRUM_ONE,
            capabilities: spec_measured(false, 0, 0),
        },
        PresetEntry {
            url: "https://arbitrum.meowrpc.com"@,
            name: "MeowRPC"@,
            ws_url: None,
            priority: 56,
            chain_id: chain_id::ARBITRUM_ONE,
            capabilities: spec_measured(false, 1, 0),
        },
        PresetEntry {
            url: "https://arb-pokt.nodies.app"@,
            name: "Nodies"@,
            ws_url: None,
            priority: 57,
            chain_id: chain_id::ARBITRUM_ONE,
            capabilities: spec_measured(true, 50, 100),
        },
        PresetEntry {
            url: "https://arbitrum.gateway.tenderly.co"@,
            name: "Tenderly"@,
            ws_url: None,
            priority: 58,
            chain_id: chain_id::ARBITRUM_ONE,
            capabilities: spec_measured(true, 10, 1000),
        },
        PresetEntry {
            url: "https://arbitrum.rpc.subquery.network/public"@,
            name: "SubQuery"@,
            ws_url: None,
            priority: 59,
            chain_id: chain_id::ARBITRUM_ONE,
            capabilities: spec_measured(true, 50, 1000),
        },
        PresetEntry {
            url: "https://arbitrum-one-public.nodies.app"@,
            name: "Nodies Public"@,
            ws_url: None,
            priority: 60,
            chain_id: chain_id::ARBITRUM_ONE,
            capabilities: spec_measured(true, 0, 100),
        },
        PresetEntry {
            url: "https://api.zan.top/arb-one"@,
            name: "ZAN"@,
            ws_url: None,
            priority: 62,
            chain_id: chain_id::ARBITRUM_ONE,
            capabilities: spec_measured(true, 500, 10000),
        },
        PresetEntry {
            url: "https://arb1.lava.build"@,
            name: "Lava"@,
            ws_url: None,
            priority: 63,
            chain_id: chain_id::ARBITRUM_ONE,
            capabilities: spec_measured(true, 0, 1000),
        },
        PresetEntry {
            url: "https://arb-one-mainnet.gateway.tatum.io"@,
            name: "Tatum"@,
            ws_url: None,
            priority: 64,
            chain_id: chain_id::ARBITRUM_ONE,
            capabilities: spec_measured(true, 1, 0),
        },
        PresetEntry {
            url: "https://public-arb-mainnet.fastnode.io"@,
            name: "FastNode"@,
            ws_url: None,
            priority: 65,
            chain_id: chain_id::ARBITRUM_ONE,
            capabilities: spec_measured(true, 0, 1000),
        },
        PresetEntry {
            url: "https://arbitrum.rpc.thirdweb.com"@,
            name: "thirdweb"@,
            ws_url: None,
            priority: 66,
            chain_id: chain_id::ARBITRUM_ONE,
            capabilities: spec_measured(true, 0, 1000),
        },
        PresetEntry {
            url: "https://arb-one.api.pocket.network"@,
            name: "Pocket Network"@,
            ws_url: None,
            priority: 67,
            chain_id: chain_id::ARBITRUM_ONE,
            capabilities: spec_measured(true, 0, 1000),
        },
        PresetEntry {
            url: "https://arb.leorpc.com/?api_key=FREE"@,
            name: "LeoRPC"@,
            ws_url: None,
            priority: 68,
            chain_id: chain_id::ARBITRUM_ONE,
            capabilities: spec_measured(true, 1, 100),
        },
        PresetEntry {
            url: "https://gateway.tenderly.co/public/arbitrum"@,
            name: "Tenderly Public"@,
            ws_url: None,
            priority: 74,
            chain_id: chain_id::ARBITRUM_ONE,
            capabilities: EndpointCapabilities::spec_unknown(),
        },
        PresetEntry {
            url: "https://arbitrum.lava.build"@,
            name: "Lava"@,
            ws_url: None,
            priority: 75,
            chain_id: chain_id::ARBITRUM_ONE,
            capabilities: EndpointCapabilities::spec_unknown(),
        },
    ]
}

/// Default endpoints for Arbitrum One.
pub fn arbitrum_endpoints() -> (list: Vec<RpcEndpoint>)
    ensures
        entries_of(list@) == arbitrum_table(),
        list@.len() == 20,
        preset_list(list@, chain_id::ARBITRUM_ONE),
{
    let list = vec![
        RpcEndpoint::new("https://arb1.arbitrum.io/rpc")
            .with_name("Arbitrum Official")
            .with_ws_url("wss://arb1.arbitrum.io/rpc")
            .with_priority(50)
            .with_chain_id(chain_id::ARBITRUM_ONE)
            .with_capabilities(measured(true, 100, 0)),
        RpcEndpoint::new("https://arbitrum-one-rpc.publicnode.com")
            .with_name("PublicNode")
            .with_ws_url("wss://arbitrum-one-rpc.publicnode.com")
            .with_priority(51)
            .with_chain_id(chain_id::ARBITRUM_ONE)
            .with_capabilities(measured(false, 0, 0)),
        RpcEndpoint::new("https://1rpc.io/arb")
            .with_name("1RPC")
            .with_priority(52)
            .with_chain_id(chain_id::ARBITRUM_ONE)
            .with_capabilities(measured(true, 1, 0)),
        RpcEndpoint::new("https://arbitrum.drpc.org")
            .with_name("dRPC")
            .with_priority(53)
            .with_chain_id(chain_id::ARBITRUM_ONE)
            .with_capabilities(measured(true, 1, 0)),
        RpcEndpoint::new("https://arbitrum-one.public.blastapi.io")
            .with_name("BlastAPI")
            .with_priority(54)
            .with_chain_id(chain_id::ARBITRUM_ONE)
            .with_capabilities(measured(true, 0, 10000)),
        RpcEndpoint::new("https://arbitrum.api.onfinality.io/public")
            .with_name("OnFinality")
            .with_priority(55)
            .with_chain_id(chain_id::ARBITRUM_ONE)
            .with_capabilities(measured(false, 0, 0)),
        RpcEndpoint::new("https://arbitrum.meowrpc.com")
            .with_name("MeowRPC")
            .with_priority(56)
            .with_chain_id(chain_id::ARBITRUM_ONE)
            .with_capabilities(measured(false, 1, 0)),
        RpcEndpoint::new("https://arb-pokt.nodies.app")
            .with_name("Nodies")
            .with_priority(57)
            .with_chain_id(chain_id::ARBITRUM_ONE)
            .with_capabilities(measured(true, 50, 100)),
        RpcEndpoint::new("https://arbitrum.gateway.tenderly.co")
            .with_name("Tenderly")
            .with_priority(58)
            .with_chain_id(chain_id::ARBITRUM_ONE)
            .with_capabilities(measured(true, 10, 1000)),
        RpcEndpoint::new("https://arbitrum.rpc.subquery.network/public")
            .with_name("SubQuery")
            .with_priority(59)
            .with_chain_id(chain_id::ARBITRUM_ONE)
            .with_capabilities(measured(true, 50, 1000)),
        RpcEndpoint::new("https://arbitrum-one-public.nodies.app")
            .with_name("Nodies Public")
            .with_priority(60)
            .with_chain_id(chain_id::ARBITRUM_ONE)
            .with_capabilities(measured(true, 0, 100)),
        RpcEndpoint::new("https://api.zan.top/arb-one")
            .with_name("ZAN")
            .with_priority(62)
            .with_chain_id(chain_id::ARBITRUM_ONE)
            .with_capabilities(measured(true, 500, 10000)),
        RpcEndpoint::new("https://arb1.lava.build")
            .with_name("Lava")
            .with_priority(63)
            .with_chain_id(chain_id::ARBITRUM_ONE)
            .with_capabilities(measured(true, 0, 1000)),
        RpcEndpoint::new("https://arb-one-mainnet.gateway.tatum.io")
            .with_name("Tatum")
            .with_priority(64)
            .with_chain_id(chain_id::ARBITRUM_ONE)
            .with_capabilities(measured(true, 1, 0)),
        RpcEndpoint::new("https://public-arb-mainnet.fastnode.io")
            .with_name("FastNode")
            .with_priority(65)
            .with_chain_id(chain_id::ARBITRUM_ONE)
            .with_capabilities(measured(true, 0, 1000)),
        RpcEndpoint::new("https://arbitrum.rpc.thirdweb.com")
            .with_name("thirdweb")
            .with_priority(66)
            .with_chain_id(chain_id::ARBITRUM_ONE)
            .with_capabilities(measured(true, 0, 1000)),
        RpcEndpoint::new("https://arb-one.api.pocket.network")
            .with_name("Pocket Network")
            .with_priority(67)
            .with_chain_id(chain_id::ARBITRUM_ONE)
            .with_capabilities(measured(true, 0, 1000)),
        RpcEndpoint::new("https://arb.leorpc.com/?api_key=FREE")
            .with_name("LeoRPC")
            .with_priority(68)
            .with_chain_id(chain_id::ARBITRUM_ONE)
            .with_capabilities(measured(true, 1, 100)),
        RpcEndpoint::new("https://gateway.tenderly.co/public/arbitrum")
            .with_name("Tenderly Public")
            .with_priority(74)
            .with_chain_id(chain_id::ARBITRUM_ONE),
        RpcEndpoint::new("https://arbitrum.lava.build")
            .with_name("Lava")
            .with_priority(75)
            .with_chain_id(chain_id::ARBITRUM_ONE),
    ];
    assert(entries_of(list@) =~= arbitrum_table());
    list
}

/// The preset endpoints of Base, entry by entry.
pub open spec fn base_table() -> Seq<PresetEntry> {
    seq![
        PresetEntry {
            url: "https://mainnet.base.org"@,
            name: "Base Official"@,
            ws_url: Some("wss://mainnet.base.org"@),
            priority: 50,
            chain_id: chain_id::BASE,
            capabilities: spec_measured(true, 10, 0),
        },
        PresetEntry {
            url: "https://base-rpc.publicnode.com"@,
            name: "PublicNode"@,
            ws_url: Some("wss://base-rpc.publicnode.com"@),
            priority: 51,
            chain_id: chain_id::BASE,
            capabilities: spec_measured(false, 0, 0),
        },
        PresetEntry {
            url: "https://1rpc.io/base"@,
            name: "1RPC"@,
            ws_url: None,
            priority: 52,
            chain_id: chain_id::BASE,
            capabilities: spec_measured(true, 0, 0),
        },
        PresetEntry {
            url: "https://base.drpc.org"@,
            name: "dRPC"@,
            ws_url: None,
            priority: 53,
            chain_id: chain_id::BASE,
            capabilities: spec_measured(true, 1, 0),
        },
        PresetEntry {
            url: "https://base-mainnet.public.blastapi.io"@,
            name: "BlastAPI"@,
            ws_url: None,
            priority: 54,
            chain_id: chain_id::BASE,
            capabilities: spec_measured(true, 0, 100),
        },
        PresetEntry {
            url: "https://base.meowrpc.com"@,
            name: "MeowRPC"@,
            ws_url: None,
            priority: 55,
            chain_id: chain_id::BASE,
            capabilities: spec_measured(false, 1, 0),
        },
        PresetEntry {
            url: "https://base.gateway.tenderly.co"@,
            name: "Tenderly"@,
            ws_url: None,
            priority: 56,
            chain_id: chain_id::BASE,
            capabilities: spec_measured(true, 10, 0),
        },
        PresetEntry {
            url: "https://base-pokt.nodies.app"@,
            name: "Nodies"@,
            ws_url: None,
            priority: 57,
            chain_id: chain_id::BASE,
            capabilities: spec_measured(true, 50, 100),
        },
        PresetEntry {
            url: "https://developer-access-mainnet.base.org"@,
            name: "Base Developer"@,
            ws_url: None,
            priority: 58,
            chain_id: chain_id::BASE,
            capabilities: spec_measured(true, 10, 100),
        },
        PresetEntry {
            url: "https://base.rpc.subquery.network/public"@,
            name: "SubQuery"@,
            ws_url: None,
            priority: 59,
            chain_id: chain_id::BASE,
            capabilities: spec_measured(false, 10, 0),
        },
        PresetEntry {
            url: "https://base-public.nodies.app"@,
            name: "Nodies Public"@,
            ws_url: None,
            priority: 62,
            chain_id: chain_id::BASE,
            capabilities: spec_measured(true, 0, 100),
        },
        PresetEntry {
            url: "https://base.api.pocket.network"@,
            name: "Pocket"@,
            ws_url: None,
            priority: 63,
            chain_id: chain_id::BASE,
            capabilities: spec_measured(false, 0, 0),
        },
        PresetEntry {
            url: "https://base.llamarpc.com"@,
            name: "LlamaNodes"@,
            ws_url: None,
            priority: 66,
            chain_id: chain_id::BASE,
            capabilities: spec_measured(true, 10, 0),
        },
        PresetEntry {
            url: "https://base.lava.build"@,
            name: "Lava"@,
            ws_url: None,
            priority: 68,
            chain_id: chain_id::BASE,
            capabilities: EndpointCapabilities::spec_unknown(),
        },
        PresetEntry {
            url: "https://api.zan.top/base-mainnet"@,
            name: "ZAN"@,
            ws_url: None,
            priority: 69,
            chain_id: chain_id::BASE,
            capabilities: EndpointCapabilities::spec_unknown(),
        },
        PresetEntry {
            url: "https://base-mainnet.gateway.tatum.io"@,
            name: "Tatum"@,
            ws_url: None,
            priority: 70,
            chain_id: chain_id::BASE,
            capabilities: EndpointCapabilities::spec_unknown(),
        },
        PresetEntry {
            url: "https://base.api.onfinality.io/public"@,
            name: "OnFinality Public"@,
            ws_url: None,
            priority: 71,
            chain_id: chain_id::BASE,
            capabilities: EndpointCapabilities::spec_unknown(),
        },
        PresetEntry {
            url: "https://base.rpc.blxrbdn.com"@,
            name: "BloXroute"@,
            ws_url: None,
            priority: 73,
            chain_id: chain_id::BASE,
            capabilities: EndpointCapabilities::spec_unknown(),
        },
        PresetEntry {
            url: "https://gateway.tenderly.co/public/base"@,
            name: "Tenderly Public"@,
            ws_url: None,
            priority: 74,
            chain_id: chain_id::BASE,
            capabilities: EndpointCapabilities::spec_unknown(),
        },
        PresetEntry {
            url: "https://rpc.sentio.xyz/base"@,
            name: "Sentio"@,
            ws_url: None,
            priority: 75,
            chain_id: chain_id::BASE,
            capabilities: EndpointCapabilities::spec_unknown(),
        },
        PresetEntry {
            url: "https://base.leorpc.com/?api_key=FREE"@,
            name: "LeoRPC"@,
            ws_url: None,
            priority: 76,
            chain_id: chain_id::BASE,
            capabilities: EndpointCapabilities::spec_unknown(),
        },
    ]
}

/// Default endpoints for Base.
pub fn base_endpoints() -> (list: Vec<RpcEndpoint>)
    ensures
        entries_of(list@) == base_table(),
        list@.len() == 21,
        preset_list(list@, chain_id::BASE),
{
    let list = vec![
        RpcEndpoint::new("https://mainnet.base.org")
            .with_name("Base Official")
            .with_ws_url("wss://mainnet.base.org")
            .with_priority(50)
            .with_chain_id(chain_id::BASE)
            .with_capabilities(measured(true, 10, 0)),
        RpcEndpoint::new("https://base-rpc.publicnode.com")
            .with_name("PublicNode")
            .with_ws_url("wss://base-rpc.publicnode.com")
            .with_priority(51)
            .with_chain_id(chain_id::BASE)
            .with_capabilities(measured(false, 0, 0)),
        RpcEndpoint::new("https://1rpc.io/base")
            .with_name("1RPC")
            .with_priority(52)
            .with_chain_id(chain_id::BASE)
            .with_capabilities(measured(true, 0, 0)),
        RpcEndpoint::new("https://base.drpc.org")
            .with_name("dRPC")
            .with_priority(53)
            .with_chain_id(chain_id::BASE)
            .with_capabilities(measured(true, 1, 0)),
        RpcEndpoint::new("https://base-mainnet.public.blastapi.io")
            .with_name("BlastAPI")
            .with_priority(54)
            .with_chain_id(chain_id::BASE)
            .with_capabilities(measured(true, 0, 100)),
        RpcEndpoint::new("https://base.meowrpc.com")
            .with_name("MeowRPC")
            .with_priority(55)
            .with_chain_id(chain_id::BASE)
            .with_capabilities(measured(false, 1, 0)),
        RpcEndpoint::new("https://base.gateway.tenderly.co")
            .with_name("Tenderly")
            .with_priority(56)
            .with_chain_id(chain_id::BASE)
            .with_capabilities(measured(true, 10, 0)),
        RpcEndpoint::new("https://base-pokt.nodies.app")
            .with_name("Nodies")
            .with_priority(57)
            .with_chain_id(chain_id::BASE)
            .with_capabilities(measured(true, 50, 100)),
        RpcEndpoint::new("https://developer-access-mainnet.base.org")
            .with_name("Base Developer")
            .with_priority(58)
            .with_chain_id(chain_id::BASE)
            .with_capabilities(measured(true, 10, 100)),
        RpcEndpoint::new("https://base.rpc.subquery.network/public")
            .with_name("SubQuery")
            .with_priority(59)
            .with_chain_id(chain_id::BASE)
            .with_capabilities(measured(false, 10, 0)),
        RpcEndpoint::new("https://base-public.nodies.app")
            .with_name("Nodies Public")
            .with_priority(62)
            .with_chain_id(chain_id::BASE)
            .with_capabilities(measured(true, 0, 100)),
        RpcEndpoint::new("https://base.api.pocket.network")
            .with_name("Pocket")
            .with_priority(63)
            .with_chain_id(chain_id::BASE)
            .with_capabilities(measured(false, 0, 0)),
        RpcEndpoint::new("https://base.llamarpc.com")
            .with_name("LlamaNodes")
            .with_priority(66)
            .with_chain_id(chain_id::BASE)
            .with_capabilities(measured(true, 10, 0)),
        RpcEndpoint::new("https://base.lava.build")
            .with_name("Lava")
            .with_priority(68)
            .with_chain_id(chain_id::BASE),
        RpcEndpoint::new("https://api.zan.top/base-mainnet")
            .with_name("ZAN")
            .with_priority(69)
            .with_chain_id(chain_id::BASE),
        RpcEndpoint::new("https://base-mainnet.gateway.tatum.io")
            .with_name("Tatum")
            .with_priority(70)
            .with_chain_id(chain_id::BASE),
        RpcEndpoint::new("https://base.api.onfinality.io/public")
            .with_name("OnFinality Public")
            .with_priority(71)
            .with_chain_id(chain_id::BASE),
        RpcEndpoint::new("https://base.rpc.blxrbdn.com")
            .with_name("BloXroute")
            .with_priority(73)
            .with_chain_id(chain_id::BASE),
        RpcEndpoint::new("https://gateway.tenderly.co/public/base")
            .with_name("Tenderly Public")
            .with_priority(74)
            .with_chain_id(chain_id::BASE),
        RpcEndpoint::new("https://rpc.sentio.xyz/base")
            .with_name("Sentio")
            .with_priority(75)
            .with_chain_id(chain_id::BASE),
        RpcEndpoint::new("https://base.leorpc.com/?api_key=FREE")
            .with_name("LeoRPC")
            .with_priority(76)
            .with_chain_id(chain_id::BASE),
    ];
    assert(entries_of(list@) =~= base_table());
    list
}

/// The preset endpoints of Optimism, entry by entry.
pub open spec fn optimism_table() -> Seq<PresetEntry> {
    seq![
        PresetEntry {
            url: "https://mainnet.optimism.io"@,
            name: "Optimism Official"@,
            ws_url: None,
            priority: 50,
            chain_id: chain_id::OPTIMISM,
            capabilities: spec_measured(true, 10, 0),
        },
        PresetEntry {
            url: "https://optimism-rpc.publicnode.com"@,
            name: "PublicNode"@,
            ws_url: Some("wss://optimism-rpc.publicnode.com"@),
            priority: 51,
            chain_id: chain_id::OPTIMISM,
            capabilities: spec_measured(false, 0, 0),
        },
        PresetEntry {
            url: "https://1rpc.io/op"@,
            name: "1RPC"@,
            ws_url: None,
            priority: 52,
            chain_id: chain_id::OPTIMISM,
            capabilities: spec_measured(true, 0, 0),
        },
        PresetEntry {
            url: "https://optimism.drpc.org"@,
            name: "dRPC"@,
            ws_url: None,
            priority: 53,
            chain_id: chain_id::OPTIMISM,
            capabilities: spec_measured(true, 1, 0),
        },
        PresetEntry {
            url: "https://optimism.api.onfinality.io/public"@,
            name: "OnFinality"@,
            ws_url: None,
            priority: 54,
            chain_id: chain_id::OPTIMISM,
            capabilities: spec_measured(false, 50, 0),
        },
        PresetEntry {
            url: "https://op-pokt.nodies.app"@,
            name: "Nodies"@,
            ws_url: None,
            priority: 55,
            chain_id: chain_id::OPTIMISM,
            capabilities: spec_measured(true, 50, 0),
        },
        PresetEntry {
            url: "https://optimism.gateway.tenderly.co"@,
            name: "Tenderly"@,
            ws_url: None,
            priority: 56,
            chain_id: chain_id::OPTIMISM,
            capabilities: spec_measured(true, 10, 100),
        },
        PresetEntry {
            url: "https://optimism.rpc.subquery.network/public"@,
            name: "SubQuery"@,
            ws_url: None,
            priority: 60,
            chain_id: chain_id::OPTIMISM,
            capabilities: spec_measured(true, 10, 100),
        },
        PresetEntry {
            url: "https://optimism-public.nodies.app"@,
            name: "Nodies Public"@,
            ws_url: None,
            priority: 63,
            chain_id: chain_id::OPTIMISM,
            capabilities: spec_measured(true, 0, 100),
        },
        PresetEntry {
            url: "https://optimism.rpc.thirdweb.com"@,
            name: "thirdweb"@,
            ws_url: None,
            priority: 64,
            chain_id: chain_id::OPTIMISM,
            capabilities: spec_measured(true, 0, 0),
        },
        PresetEntry {
            url: "https://api.zan.top/opt-mainnet"@,
            name: "ZAN"@,
            ws_url: None,
            priority: 66,
            chain_id: chain_id::OPTIMISM,
            capabilities: EndpointCapabilities::spec_unknown(),
        },
        PresetEntry {
            url: "https://optimism-mainnet.gateway.tatum.io"@,
            name: "Tatum"@,
            ws_url: None,
            priority: 67,
            chain_id: chain_id::OPTIMISM,
            capabilities: EndpointCapabilities::spec_unknown(),
        },
        PresetEntry {
            url: "https://public-op-mainnet.fastnode.io"@,
            name: "FastNode"@,
            ws_url: None,
            priority: 68,
            chain_id: chain_id::OPTIMISM,
            capabilities: EndpointCapabilities::spec_unknown(),
        },
        PresetEntry {
            url: "https://gateway.tenderly.co/public/optimism"@,
            name: "Tenderly Public"@,
            ws_url: None,
            priority: 72,
            chain_id: chain_id::OPTIMISM,
            capabilities: EndpointCapabilities::spec_unknown(),
        },
        PresetEntry {
            url: "https://rpc.sentio.xyz/optimism"@,
            name: "Sentio"@,
            ws_url: None,
            priority: 73,
            chain_id: chain_id::OPTIMISM,
            capabilities: EndpointCapabilities::spec_unknown(),
        },
        PresetEntry {
            url: "https://op.api.pocket.network"@,
            name: "Pocket Network"@,
            ws_url: None,
            priority: 74,
            chain_id: chain_id::OPTIMISM,
            capabilities: EndpointCapabilities::spec_unknown(),
        },
    ]
}

/// Default endpoints for Optimism.
pub fn optimism_endpoints() -> (list: Vec<RpcEndpoint>)
    ensures
        entries_of(list@) == optimism_table(),
        list@.len() == 16,
        preset_list(list@, chain_id::OPTIMISM),
{
    let list = vec![
        RpcEndpoint::new("https://mainnet.optimism.io")
            .with_name("Optimism Official")
            .with_priority(50)
            .with_chain_id(chain_id::OPTIMISM)
            .with_capabilities(measured(true, 10, 0)),
        RpcEndpoint::new("https://optimism-rpc.publicnode.com")
            .with_name("PublicNode")
            .with_ws_url("wss://optimism-rpc.publicnode.com")
            .with_priority(51)
            .with_chain_id(chain_id::OPTIMISM)
            .with_capabilities(measured(false, 0, 0)),
        RpcEndpoint::new("https://1rpc.io/op")
            .with_name("1RPC")
            .with_priority(52)
            .with_chain_id(chain_id::OPTIMISM)
            .with_capabilities(measured(true, 0, 0)),
        RpcEndpoint::new("https://optimism.drpc.org")
            .with_name("dRPC")
            .with_priority(53)
            .with_chain_id(chain_id::OPTIMISM)
            .with_capabilities(measured(true, 1, 0)),
        RpcEndpoint::new("https://optimism.api.onfinality.io/public")
            .with_name("OnFinality")
            .with_priority(54)
            .with_chain_id(chain_id::OPTIMISM)
            .with_capabilities(measured(false, 50, 0)),
        RpcEndpoint::new("https://op-pokt.nodies.app")
            .with_name("Nodies")
            .with_priority(55)
            .with_chain_id(chain_id::OPTIMISM)
            .with_capabilities(measured(true, 50, 0)),
        RpcEndpoint::new("https://optimism.gateway.tenderly.co")
            .with_name("Tenderly")
            .with_priority(56)
            .with_chain_id(chain_id::OPTIMISM)
            .with_capabilities(measured(true, 10, 100)),
        RpcEndpoint::new("https://optimism.rpc.subquery.network/public")
            .with_name("SubQuery")
            .with_priority(60)
            .with_chain_id(chain_id::OPTIMISM)
            .with_capabilities(measured(true, 10, 100)),
        RpcEndpoint::new("https://optimism-public.nodies.app")
            .with_name("Nodies Public")
            .with_priority(63)
            .with_chain_id(chain_id::OPTIMISM)
            .with_capabilities(measured(true, 0, 100)),
        RpcEndpoint::new("https://optimism.rpc.thirdweb.com")
            .with_name("thirdweb")
            .with_priority(64)
            .with_chain_id(chain_id::OPTIMISM)
            .with_capabilities(measured(true, 0, 0)),
        RpcEndpoint::new("https://api.zan.top/opt-mainnet")
            .with_name("ZAN")
            .with_priority(66)
            .with_chain_id(chain_id::OPTIMISM),
        RpcEndpoint::new("https://optimism-mainnet.gateway.tatum.io")
            .with_name("Tatum")
            .with_priority(67)
            .with_chain_id(chain_id::OPTIMISM),
        RpcEndpoint::new("https://public-op-mainnet.fastnode.io")
            .with_name("FastNode")
            .with_priority(68)
            .with_chain_id(chain_id::OPTIMISM),
        RpcEndpoint::new("https://gateway.tenderly.co/public/optimism")
            .with_name("Tenderly Public")
            .with_priority(72)
            .with_chain_id(chain_id::OPTIMISM),
        RpcEndpoint::new("https://rpc.sentio.xyz/optimism")
            .with_name("Sentio")
            .with_priority(73)
            .with_chain_id(chain_id::OPTIMISM),
        RpcEndpoint::new("https://op.api.pocket.network")
            .with_name("Pocket Network")
            .with_priority(74)
            .with_chain_id(chain_id::OPTIMISM),
    ];
    assert(entries_of(list@) =~= optimism_table());
    list
}

/// The preset endpoints of zkSync Era, entry by entry.
pub open spec fn zksync_era_table() -> Seq<PresetEntry> {
    seq![
        PresetEntry {
            url: "https://mainnet.era.zksync.io"@,
            name: "zkSync Official"@,
            ws_url: Some("wss://mainnet.era.zksync.io/ws"@),
            priority: 50,
            chain_id: chain_id::ZKSYNC_ERA,
            capabilities: spec_measured(true, 100, 1000),
        },
        PresetEntry {
            url: "https://1rpc.io/zksync2-era"@,
            name: "1RPC"@,
            ws_url: None,
            priority: 51,
            chain_id: chain_id::ZKSYNC_ERA,
            capabilities: spec_measured(true, 0, 0),
        },
        PresetEntry {
            url: "https://zksync.drpc.org"@,
            name: "dRPC"@,
            ws_url: None,
            priority: 52,
            chain_id: chain_id::ZKSYNC_ERA,
            capabilities: spec_measured(true, 1, 100),
        },
        PresetEntry {
            url: "https://rpc.ankr.com/zksync_era"@,
            name: "Ankr"@,
            ws_url: None,
            priority: 54,
            chain_id: chain_id::ZKSYNC_ERA,
            capabilities: spec_measured(true, 10, 1000),
        },
        PresetEntry {
            url: "https://zksync.gateway.tenderly.co"@,
            name: "Tenderly"@,
            ws_url: None,
            priority: 55,
            chain_id: chain_id::ZKSYNC_ERA,
            capabilities: EndpointCapabilities::spec_unknown(),
        },
        PresetEntry {
            url: "https://zksync.api.onfinality.io/public"@,
            name: "OnFinality"@,
            ws_url: None,
            priority: 56,
            chain_id: chain_id::ZKSYNC_ERA,
            capabilities: EndpointCapabilities::spec_unknown(),
        },
        PresetEntry {
            url: "https://zksync-era.api.pocket.network"@,
            name: "Pocket Network"@,
            ws_url: None,
            priority: 57,
            chain_id: chain_id::ZKSYNC_ERA,
            capabilities: EndpointCapabilities::spec_unknown(),
        },
    ]
}

/// Default endpoints for zkSync Era.
pub fn zksync_era_endpoints() -> (list: Vec<RpcEndpoint>)
    ensures
        entries_of(list@) == zksync_era_table(),
        list@.len() == 7,
        preset_list(list@, chain_id::ZKSYNC_ERA),
{
    let list = vec![
        RpcEndpoint::new("https://mainnet.era.zksync.io")
            .with_name("zkSync Official")
            .with_ws_url("wss://mainnet.era.zksync.io/ws")
            .with_priority(50)
            .with_chain_id(chain_id::ZKSYNC_ERA)
            .with_capabilities(measured(true, 100, 1000)),
        RpcEndpoint::new("https://1rpc.io/zksync2-era")
            .with_name("1RPC")
            .with_priority(51)
            .with_chain_id(chain_id::ZKSYNC_ERA)
            .with_capabilities(measured(true, 0, 0)),
        RpcEndpoint::new("https://zksync.drpc.org")
            .with_name("dRPC")
            .with_priority(52)
            .with_chain_id(chain_id::ZKSYNC_ERA)
            .with_capabilities(measured(true, 1, 100)),
        RpcEndpoint::new("https://rpc.ankr.com/zksync_era")
            .with_name("Ankr")
            .with_priority(54)
            .with_chain_id(chain_id::ZKSYNC_ERA)
            .with_capabilities(measured(true, 10, 1000)),
        RpcEndpoint::new("https://zksync.gateway.tenderly.co")
            .with_name("Tenderly")
            .with_priority(55)
            .with_chain_id(chain_id::ZKSYNC_ERA),
        RpcEndpoint::new("https://zksync.api.onfinality.io/public")
            .with_name("OnFinality")
            .with_priority(56)
            .with_chain_id(chain_id::ZKSYNC_ERA),
        RpcEndpoint::new("https://zksync-era.api.pocket.network")
            .with_name("Pocket Network")
            .with_priority(57)
            .with_chain_id(chain_id::ZKSYNC_ERA),
    ];
    assert(entries_of(list@) =~= zksync_era_table());
    list
}

/// The preset endpoints of Linea, entry by entry.
pub open spec fn linea_table() -> Seq<PresetEntry> {
    seq![
        PresetEntry {
            url: "https://rpc.linea.build"@,
            name: "Linea Official"@,
            ws_url: Some("wss://rpc.linea.build"@),
            priority: 50,
            chain_id: chain_id::LINEA,
            capabilities: spec_measured(true, 0, 1000),
        },
        PresetEntry {
            url: "https://linea-rpc.publicnode.com"@,
            name: "PublicNode"@,
            ws_url: Some("wss://linea-rpc.publicnode.com"@),
            priority: 51,
            chain_id: chain_id::LINEA,
            capabilities: spec_measured(false, 0, 0),
        },
        PresetEntry {
            url: "https://1rpc.io/linea"@,
            name: "1RPC"@,
            ws_url: None,
            priority: 52,
            chain_id: chain_id::LINEA,
            capabilities: spec_measured(true, 0, 1000),
        },
        PresetEntry {
            url: "https://linea.drpc.org"@,
            name: "dRPC"@,
            ws_url: None,
            priority: 53,
            chain_id: chain_id::LINEA,
            capabilities: spec_measured(true, 1, 1000),
        },
        PresetEntry {
            url: "https://linea.gateway.tenderly.co"@,
            name: "Tenderly"@,
            ws_url: None,
            priority: 54,
            chain_id: chain_id::LINEA,
            capabilities: EndpointCapabilities::spec_unknown(),
        },
        PresetEntry {
            url: "https://linea.api.pocket.network"@,
            name: "Pocket Network"@,
            ws_url: None,
            priority: 55,
            chain_id: chain_id::LINEA,
            capabilities: EndpointCapabilities::spec_unknown(),
        },
    ]
}

/// Default endpoints for Linea.
pub fn linea_endpoints() -> (list: Vec<RpcEndpoint>)
    ensures
        entries_of(list@) == linea_table(),
        list@.len() == 6,
        preset_list(list@, chain_id::LINEA),
{
    let list = vec![
        RpcEndpoint::new("https://rpc.linea.build")
            .with_name("Linea Official")
            .with_ws_url("wss://rpc.linea.build")
            .with_priority(50)
            .with_chain_id(chain_id::LINEA)
            .with_capabilities(measured(true, 0, 1000)),
        RpcEndpoint::new("https://linea-rpc.publicnode.com")
            .with_name("PublicNode")
            .with_ws_url("wss://linea-rpc.publicnode.com")
            .with_priority(51)
            .with_chain_id(chain_id::LINEA)
            .with_capabilities(measured(false, 0, 0)),
        RpcEndpoint::new("https://1rpc.io/linea")
            .with_name("1RPC")
            .with_priority(52)
            .with_chain_id(chain_id::LINEA)
            .with_capabilities(measured(true, 0, 1000)),
        RpcEndpoint::new("https://linea.drpc.org")
            .with_name("dRPC")
            .with_priority(53)
            .with_chain_id(chain_id::LINEA)
            .with_capabilities(measured(true, 1, 1000)),
        RpcEndpoint::new("https://linea.gateway.tenderly.co")
            .with_name("Tenderly")
            .with_priority(54)
            .with_chain_id(chain_id::LINEA),
        RpcEndpoint::new("https://linea.api.pocket.network")
            .with_name("Pocket Network")
            .with_priority(55)
            .with_chain_id(chain_id::LINEA),
    ];
    assert(entries_of(list@) =~= linea_table());
    list
}

/// The preset endpoints of Scroll, entry by entry.
pub open spec fn scroll_table() -> Seq<PresetEntry> {
    seq![
        PresetEntry {
            url: "https://rpc.scroll.io"@,
            name: "Scroll Official"@,
            ws_url: None,
            priority: 50,
            chain_id: chain_id::SCROLL,
            capabilities: spec_measured(true, 10, 5000),
        },
        PresetEntry {
            url: "https://scroll-rpc.publicnode.com"@,
            name: "PublicNode"@,
            ws_url: Some("wss://scroll-rpc.publicnode.com"@),
            priority: 51,
            chain_id: chain_id::SCROLL,
            capabilities: spec_measured(false, 0, 0),
        },
        PresetEntry {
            url: "https://1rpc.io/scroll"@,
            name: "1RPC"@,
            ws_url: None,
            priority: 52,
            chain_id: chain_id::SCROLL,
            capabilities: EndpointCapabilities::spec_unknown(),
        },
        PresetEntry {
            url: "https://scroll.drpc.org"@,
            name: "dRPC"@,
            ws_url: None,
            priority: 53,
            chain_id: chain_id::SCROLL,
            capabilities: spec_measured(true, 1, 5000),
        },
        PresetEntry {
            url: "https://scroll.api.onfinality.io/public"@,
            name: "OnFinality"@,
            ws_url: None,
            priority: 56,
            chain_id: chain_id::SCROLL,
            capabilities: spec_measured(true, 1, 1000),
        },
        PresetEntry {
            url: "https://scroll-public.nodies.app"@,
            name: "Nodies"@,
            ws_url: None,
            priority: 57,
            chain_id: chain_id::SCROLL,
            capabilities: spec_measured(true, 0, 100),
        },
        PresetEntry {
            url: "https://534352.rpc.thirdweb.com"@,
            name: "thirdweb"@,
            ws_url: None,
            priority: 59,
            chain_id: chain_id::SCROLL,
            capabilities: spec_measured(true, 0, 1000),
        },
        PresetEntry {
            url: "https://scroll.api.pocket.network"@,
            name: "Pocket Network"@,
            ws_url: None,
            priority: 60,
            chain_id: chain_id::SCROLL,
            capabilities: spec_measured(true, 0, 1000),
        },
        PresetEntry {
            url: "https://scroll-mainnet.gateway.tenderly.co"@,
            name: "Tenderly"@,
            ws_url: None,
            priority: 61,
            chain_id: chain_id::SCROLL,
            capabilities: EndpointCapabilities::spec_unknown(),
        },
        PresetEntry {
            url: "https://scroll.leorpc.com/?api_key=FREE"@,
            name: "LeoRPC"@,
            ws_url: None,
            priority: 62,
            chain_id: chain_id::SCROLL,
            capabilities: EndpointCapabilities::spec_unknown(),
        },
        PresetEntry {
            url: "https://rpc.sentio.xyz/scroll"@,
            name: "Sentio"@,
            ws_url: None,
            priority: 63,
            chain_id: chain_id::SCROLL,
            capabilities: EndpointCapabilities::spec_unknown(),
        },
    ]
}

/// Default endpoints for Scroll.
pub fn scroll_endpoints() -> (list: Vec<RpcEndpoint>)
    ensures
        entries_of(list@) == scroll_table(),
        list@.len() == 11,
        preset_list(list@, chain_id::SCROLL),
{
    let list = vec![
        RpcEndpoint::new("https://rpc.scroll.io")
            .with_name("Scroll Official")
            .with_priority(50)
            .with_chain_id(chain_id::SCROLL)
            .with_capabilities(measured(true, 10, 5000)),
        RpcEndpoint::new("https://scroll-rpc.publicnode.com")
            .with_name("PublicNode")
            .with_ws_url("wss://scroll-rpc.publicnode.com")
            .with_priority(51)
            .with_chain_id(chain_id::SCROLL)
            .with_capabilities(measured(false, 0, 0)),
        RpcEndpoint::new("https://1rpc.io/scroll")
            .with_name("1RPC")
            .with_priority(52)
            .with_chain_id(chain_id::SCROLL),
        RpcEndpoint::new("https://scroll.drpc.org")
            .with_name("dRPC")
            .with_priority(53)
            .with_chain_id(chain_id::SCROLL)
            .with_capabilities(measured(true, 1, 5000)),
        RpcEndpoint::new("https://scroll.api.onfinality.io/public")
            .with_name("OnFinality")
            .with_priority(56)
            .with_chain_id(chain_id::SCROLL)
            .with_capabilities(measured(true, 1, 1000)),
        RpcEndpoint::new("https://scroll-public.nodies.app")
            .with_name("Nodies")
            .with_priority(57)
            .with_chain_id(chain_id::SCROLL)
            .with_capabilities(measured(true, 0, 100)),
        RpcEndpoint::new("https://534352.rpc.thirdweb.com")
            .with_name("thirdweb")
            .with_priority(59)
            .with_chain_id(chain_id::SCROLL)
            .with_capabilities(measured(true, 0, 1000)),
        RpcEndpoint::new("https://scroll.api.pocket.network")
            .with_name("Pocket Network")
            .with_priority(60)
            .with_chain_id(chain_id::SCROLL)
            .with_capabilities(measured(true, 0, 1000)),
        RpcEndpoint::new("https://scroll-mainnet.gateway.tenderly.co")
            .with_name("Tenderly")
            .with_priority(61)
            .with_chain_id(chain_id::SCROLL),
        RpcEndpoint::new("https://scroll.leorpc.com/?api_key=FREE")
            .with_name("LeoRPC")
            .with_priority(62)
            .with_chain_id(chain_id::SCROLL),
        RpcEndpoint::new("https://rpc.sentio.xyz/scroll")
            .with_name("Sentio")
            .with_priority(63)
            .with_chain_id(chain_id::SCROLL),
    ];
    assert(entries_of(list@) =~= scroll_table());
    list
}

/// The preset endpoints of Polygon zkEVM, entry by entry.
pub open spec fn polygon_zkevm_table() -> Seq<PresetEntry> {
    seq![
        PresetEntry {
            url: "https://zkevm-rpc.com"@,
            name: "Polygon zkEVM Official"@,
            ws_url: None,
            priority: 50,
            chain_id: chain_id::POLYGON_ZKEVM,
            capabilities: spec_measured(true, 100, 10000),
        },
        PresetEntry {
            url: "https://polygon-zkevm.drpc.org"@,
            name: "dRPC"@,
            ws_url: Some("wss://polygon-zkevm.drpc.org"@),
            priority: 53,
            chain_id: chain_id::POLYGON_ZKEVM,
            capabilities: spec_measured(true, 1, 5000),
        },
        PresetEntry {
            url: "https://polygon-zkevm-public.nodies.app"@,
            name: "Nodies"@,
            ws_url: None,
            priority: 54,
            chain_id: chain_id::POLYGON_ZKEVM,
            capabilities: spec_measured(true, 100, 100),
        },
        PresetEntry {
            url: "https://polygon-zkevm.rpc.thirdweb.com"@,
            name: "thirdweb"@,
            ws_url: None,
            priority: 56,
            chain_id: chain_id::POLYGON_ZKEVM,
            capabilities: spec_measured(true, 0, 1000),
        },
        PresetEntry {
            url: "https://poly-zkevm.api.pocket.network"@,
            name: "Pocket Network"@,
            ws_url: None,
            priority: 57,
            chain_id: chain_id::POLYGON_ZKEVM,
            capabilities: spec_measured(true, 500, 100),
        },
        PresetEntry {
            url: "https://1rpc.io/polygon/zkevm"@,
            name: "1RPC"@,
            ws_url: None,
            priority: 58,
            chain_id: chain_id::POLYGON_ZKEVM,
            capabilities: EndpointCapabilities::spec_unknown(),
        },
    ]
}

/// Default endpoints for Polygon zkEVM.
pub fn polygon_zkevm_endpoints() -> (list: Vec<RpcEndpoint>)
    ensures
        entries_of(list@) == polygon_zkevm_table(),
        list@.len() == 6,
        preset_list(list@, chain_id::POLYGON_ZKEVM),
{
    let list = vec![
        RpcEndpoint::new("https://zkevm-rpc.com")
            .with_name("Polygon zkEVM Official")
            .with_priority(50)
            .with_chain_id(chain_id::POLYGON_ZKEVM)
            .with_capabilities(measured(true, 100, 10000)),
        RpcEndpoint::new("https://polygon-zkevm.drpc.org")
            .with_name("dRPC")
            .with_ws_url("wss://polygon-zkevm.drpc.org")
            .with_priority(53)
            .with_chain_id(chain_id::POLYGON_ZKEVM)
            .with_capabilities(measured(true, 1, 5000)),
        RpcEndpoint::new("https://polygon-zkevm-public.nodies.app")
            .with_name("Nodies")
            .with_priority(54)
            .with_chain_id(chain_id::POLYGON_ZKEVM)
            .with_capabilities(measured(true, 100, 100)),
        RpcEndpoint::new("https://polygon-zkevm.rpc.thirdweb.com")
            .with_name("thirdweb")
            .with_priority(56)
            .with_chain_id(chain_id::POLYGON_ZKEVM)
            .with_capabilities(measured(true, 0, 1000)),
        RpcEndpoint::new("https://poly-zkevm.api.pocket.network")
            .with_name("Pocket Network")
            .with_priority(57)
            .with_chain_id(chain_id::POLYGON_ZKEVM)
            .with_capabilities(measured(true, 500, 100)),
        RpcEndpoint::new("https://1rpc.io/polygon/zkevm")
            .with_name("1RPC")
            .with_priority(58)
            .with_chain_id(chain_id::POLYGON_ZKEVM),
    ];
    assert(entries_of(list@) =~= polygon_zkevm_table());
    list
}

/// The preset endpoints of Blast, entry by entry.
pub open spec fn blast_table() -> Seq<PresetEntry> {
    seq![
        PresetEntry {
            url: "https://rpc.blast.io"@,
            name: "Blast Official"@,
            ws_url: None,
            priority: 50,
            chain_id: chain_id::BLAST,
            capabilities: spec_measured(true, 10, 10000),
        },
        PresetEntry {
            url: "https://blast-rpc.publicnode.com"@,
            name: "PublicNode"@,
            ws_url: Some("wss://blast-rpc.publicnode.com"@),
            priority: 51,
            chain_id: chain_id::BLAST,
            capabilities: spec_measured(false, 0, 0),
        },
        PresetEntry {
            url: "https://blast.drpc.org"@,
            name: "dRPC"@,
            ws_url: None,
            priority: 52,
            chain_id: chain_id::BLAST,
            capabilities: spec_measured(true, 1, 10000),
        },
        PresetEntry {
            url: "https://blast.api.pocket.network"@,
            name: "Pocket Network"@,
            ws_url: None,
            priority: 56,
            chain_id: chain_id::BLAST,
            capabilities: spec_measured(true, 0, 0),
        },
        PresetEntry {
            url: "https://81457.rpc.thirdweb.com"@,
            name: "thirdweb"@,
            ws_url: None,
            priority: 58,
            chain_id: chain_id::BLAST,
            capabilities: spec_measured(true, 0, 1000),
        },
        PresetEntry {
            url: "https://blast.din.dev/rpc"@,
            name: "DIN"@,
            ws_url: None,
            priority: 59,
            chain_id: chain_id::BLAST,
            capabilities: spec_measured(true, 0, 10000),
        },
        PresetEntry {
            url: "https://blast-public.nodies.app"@,
            name: "Nodies"@,
            ws_url: None,
            priority: 60,
            chain_id: chain_id::BLAST,
            capabilities: spec_measured(true, 0, 100),
        },
        PresetEntry {
            url: "https://blast.gateway.tenderly.co"@,
            name: "Tenderly"@,
            ws_url: None,
            priority: 61,
            chain_id: chain_id::BLAST,
            capabilities: EndpointCapabilities::spec_unknown(),
        },
        PresetEntry {
            url: "https://blast.leorpc.com/?api_key=FREE"@,
            name: "LeoRPC"@,
            ws_url: None,
            priority: 62,
            chain_id: chain_id::BLAST,
            capabilities: EndpointCapabilities::spec_unknown(),
        },
    ]
}

/// Default endpoints for Blast.
pub fn blast_endpoints() -> (list: Vec<RpcEndpoint>)
    ensures
        entries_of(list@) == blast_table(),
        list@.len() == 9,
        preset_list(list@, chain_id::BLAST),
{
    let list = vec![
        RpcEndpoint::new("https://rpc.blast.io")
            .with_name("Blast Official")
            .with_priority(50)
            .with_chain_id(chain_id::BLAST)
            .with_capabilities(measured(true, 10, 10000)),
        RpcEndpoint::new("https://blast-rpc.publicnode.com")
            .with_name("PublicNode")
            .with_ws_url("wss://blast-rpc.publicnode.com")
            .with_priority(51)
            .with_chain_id(chain_id::BLAST)
            .with_capabilities(measured(false, 0, 0)),
        RpcEndpoint::new("https://blast.drpc.org")
            .with_name("dRPC")
            .with_priority(52)
            .with_chain_id(chain_id::BLAST)
            .with_capabilities(measured(true, 1, 10000)),
        RpcEndpoint::new("https://blast.api.pocket.network")
            .with_name("Pocket Network")
            .with_priority(56)
            .with_chain_id(chain_id::BLAST)
            .with_capabilities(measured(true, 0, 0)),
        RpcEndpoint::new("https://81457.rpc.thirdweb.com")
            .with_name("thirdweb")
            .with_priority(58)
            .with_chain_id(chain_id::BLAST)
            .with_capabilities(measured(true, 0, 1000)),
        RpcEndpoint::new("https://blast.din.dev/rpc")
            .with_name("DIN")
            .with_priority(59)
            .with_chain_id(chain_id::BLAST)
            .with_capabilities(measured(true, 0, 10000)),
        RpcEndpoint::new("https://blast-public.nodies.app")
            .with_name("Nodies")
            .with_priority(60)
            .with_chain_id(chain_id::BLAST)
            .with_capabilities(measured(true, 0, 100)),
        RpcEndpoint::new("https://blast.gateway.tenderly.co")
            .with_name("Tenderly")
            .with_priority(61)
            .with_chain_id(chain_id::BLAST),
        RpcEndpoint::new("https://blast.leorpc.com/?api_key=FREE")
            .with_name("LeoRPC")
            .with_priority(62)
            .with_chain_id(chain_id::BLAST),
    ];
    assert(entries_of(list@) =~= blast_table());
    list
}

/// The preset endpoints of Mantle, entry by entry.
pub open spec fn mantle_table() -> Seq<PresetEntry> {
    seq![
        PresetEntry {
            url: "https://rpc.mantle.xyz"@,
            name: "Mantle Official"@,
            ws_url: None,
            priority: 50,
            chain_id: chain_id::MANTLE,
            capabilities: spec_measured(true, 10, 0),
        },
        PresetEntry {
            url: "https://mantle-rpc.publicnode.com"@,
            name: "PublicNode"@,
            ws_url: Some("wss://mantle-rpc.publicnode.com"@),
            priority: 51,
            chain_id: chain_id::MANTLE,
            capabilities: spec_measured(false, 0, 0),
        },
        PresetEntry {
            url: "https://1rpc.io/mantle"@,
            name: "1RPC"@,
            ws_url: None,
            priority: 52,
            chain_id: chain_id::MANTLE,
            capabilities: EndpointCapabilities::spec_unknown(),
        },
        PresetEntry {
            url: "https://mantle.drpc.org"@,
            name: "dRPC"@,
            ws_url: None,
            priority: 53,
            chain_id: chain_id::MANTLE,
            capabilities: spec_measured(true, 1, 10000),
        },
        PresetEntry {
            url: "https://mantle-public.nodies.app"@,
            name: "Nodies"@,
            ws_url: None,
            priority: 55,
            chain_id: chain_id::MANTLE,
            capabilities: spec_measured(true, 0, 100),
        },
        PresetEntry {
            url: "https://mantle.api.onfinality.io/public"@,
            name: "OnFinality"@,
            ws_url: None,
            priority: 56,
            chain_id: chain_id::MANTLE,
            capabilities: spec_measured(true, 1, 0),
        },
        PresetEntry {
            url: "https://api.zan.top/mantle-mainnet"@,
            name: "ZAN"@,
            ws_url: None,
            priority: 57,
            chain_id: chain_id::MANTLE,
            capabilities: spec_measured(true, 500, 10000),
        },
        PresetEntry {
            url: "https://5000.rpc.thirdweb.com"@,
            name: "thirdweb"@,
            ws_url: None,
            priority: 61,
            chain_id: chain_id::MANTLE,
            capabilities: spec_measured(true, 0, 1000),
        },
        PresetEntry {
            url: "https://mantle.gateway.tenderly.co"@,
            name: "Tenderly"@,
            ws_url: None,
            priority: 62,
            chain_id: chain_id::MANTLE,
            capabilities: EndpointCapabilities::spec_unknown(),
        },
        PresetEntry {
            url: "https://rpc.mantle.quicknode.com"@,
            name: "QuickNode"@,
            ws_url: None,
            priority: 63,
            chain_id: chain_id::MANTLE,
            capabilities: EndpointCapabilities::spec_unknown(),
        },
        PresetEntry {
            url: "https://api.zan.top/public/mantle-mainnet"@,
            name: "ZAN Public"@,
            ws_url: None,
            priority: 64,
            chain_id: chain_id::MANTLE,
            capabilities: EndpointCapabilities::spec_unknown(),
        },
    ]
}

/// Default endpoints for Mantle.
pub fn mantle_endpoints() -> (list: Vec<RpcEndpoint>)
    ensures
        entries_of(list@) == mantle_table(),
        list@.len() == 11,
        preset_list(list@, chain_id::MANTLE),
{
    let list = vec![
        RpcEndpoint::new("https://rpc.mantle.xyz")
            .with_name("Mantle Official")
            .with_priority(50)
            .with_chain_id(chain_id::MANTLE)
            .with_capabilities(measured(true, 10, 0)),
        RpcEndpoint::new("https://mantle-rpc.publicnode.com")
            .with_name("PublicNode")
            .with_ws_url("wss://mantle-rpc.publicnode.com")
            .with_priority(51)
            .with_chain_id(chain_id::MANTLE)
            .with_capabilities(measured(false, 0, 0)),
        RpcEndpoint::new("https://1rpc.io/mantle")
            .with_name("1RPC")
            .with_priority(52)
            .with_chain_id(chain_id::MANTLE),
        RpcEndpoint::new("https://mantle.drpc.org")
            .with_name("dRPC")
            .with_priority(53)
            .with_chain_id(chain_id::MANTLE)
            .with_capabilities(measured(true, 1, 10000)),
        RpcEndpoint::new("https://mantle-public.nodies.app")
            .with_name("Nodies")
            .with_priority(55)
            .with_chain_id(chain_id::MANTLE)
            .with_capabilities(measured(true, 0, 100)),
        RpcEndpoint::new("https://mantle.api.onfinality.io/public")
            .with_name("OnFinality")
            .with_priority(56)
            .with_chain_id(chain_id::MANTLE)
            .with_capabilities(measured(true, 1, 0)),
        RpcEndpoint::new("https://api.zan.top/mantle-mainnet")
            .with_name("ZAN")
            .with_priority(57)
            .with_chain_id(chain_id::MANTLE)
            .with_capabilities(measured(true, 500, 10000)),
        RpcEndpoint::new("https://5000.rpc.thirdweb.com")
            .with_name("thirdweb")
            .with_priority(61)
            .with_chain_id(chain_id::MANTLE)
            .with_capabilities(measured(true, 0, 1000)),
        RpcEndpoint::new("https://mantle.gateway.tenderly.co")
            .with_name("Tenderly")
            .with_priority(62)
            .with_chain_id(chain_id::MANTLE),
        RpcEndpoint::new("https://rpc.mantle.quicknode.com")
            .with_name("QuickNode")
            .with_priority(63)
            .with_chain_id(chain_id::MANTLE),
        RpcEndpoint::new("https://api.zan.top/public/mantle-mainnet")
            .with_name("ZAN Public")
            .with_priority(64)
            .with_chain_id(chain_id::MANTLE),
    ];
    assert(entries_of(list@) =~= mantle_table());
    list
}

/// The preset endpoints of Mode, entry by entry.
pub open spec fn mode_table() -> Seq<PresetEntry> {
    seq![
        PresetEntry {
            url: "https://mainnet.mode.network"@,
            name: "Mode Official"@,
            ws_url: None,
            priority: 50,
            chain_id: chain_id::MODE,
            capabilities: spec_measured(true, 100, 0),
        },
        PresetEntry {
            url: "https://1rpc.io/mode"@,
            name: "1RPC"@,
            ws_url: None,
            priority: 51,
            chain_id: chain_id::MODE,
            capabilities: EndpointCapabilities::spec_unknown(),
        },
        PresetEntry {
            url: "https://mode.drpc.org"@,
            name: "dRPC"@,
            ws_url: Some("wss://mode.drpc.org"@),
            priority: 52,
            chain_id: chain_id::MODE,
            capabilities: spec_measured(true, 1, 1000),
        },
        PresetEntry {
            url: "https://34443.rpc.thirdweb.com"@,
            name: "thirdweb"@,
            ws_url: None,
            priority: 53,
            chain_id: chain_id::MODE,
            capabilities: spec_measured(true, 0, 1000),
        },
        PresetEntry {
            url: "https://rpc-mode-mainnet-0.t.conduit.xyz"@,
            name: "Conduit"@,
            ws_url: None,
            priority: 54,
            chain_id: chain_id::MODE,
            capabilities: EndpointCapabilities::spec_unknown(),
        },
    ]
}

/// Default endpoints for Mode.
pub fn mode_endpoints() -> (list: Vec<RpcEndpoint>)
    ensures
        entries_of(list@) == mode_table(),
        list@.len() == 5,
        preset_list(list@, chain_id::MODE),
{
    let list = vec![
        RpcEndpoint::new("https://mainnet.mode.network")
            .with_name("Mode Official")
            .with_priority(50)
            .with_chain_id(chain_id::MODE)
            .with_capabilities(measured(true, 100, 0)),
        RpcEndpoint::new("https://1rpc.io/mode")
            .with_name("1RPC")
            .with_priority(51)
            .with_chain_id(chain_id::MODE),
        RpcEndpoint::new("https://mode.drpc.org")
            .with_name("dRPC")
            .with_ws_url("wss://mode.drpc.org")
            .with_priority(52)
            .with_chain_id(chain_id::MODE)
            .with_capabilities(measured(true, 1, 1000)),
        RpcEndpoint::new("https://34443.rpc.thirdweb.com")
            .with_name("thirdweb")
            .with_priority(53)
            .with_chain_id(chain_id::MODE)
            .with_capabilities(measured(true, 0, 1000)),
        RpcEndpoint::new("https://rpc-mode-mainnet-0.t.conduit.xyz")
            .with_name("Conduit")
            .with_priority(54)
            .with_chain_id(chain_id::MODE),
    ];
    assert(entries_of(list@) =~= mode_table());
    list
}

/// The preset endpoints of Manta Pacific, entry by entry.
pub open spec fn manta_pacific_table() -> Seq<PresetEntry> {
    seq![
        PresetEntry {
            url: "https://pacific-rpc.manta.network/http"@,
            name: "Manta Official"@,
            ws_url: Some("wss://pacific-rpc.manta.network/ws"@),
            priority: 50,
            chain_id: chain_id::MANTA_PACIFIC,
            capabilities: spec_measured(true, 0, 100),
        },
        PresetEntry {
            url: "https://1rpc.io/manta"@,
            name: "1RPC"@,
            ws_url: None,
            priority: 51,
            chain_id: chain_id::MANTA_PACIFIC,
            capabilities: EndpointCapabilities::spec_unknown(),
        },
        PresetEntry {
            url: "https://manta-pacific.drpc.org"@,
            name: "dRPC"@,
            ws_url: None,
            priority: 52,
            chain_id: chain_id::MANTA_PACIFIC,
            capabilities: spec_measured(true, 1, 1000),
        },
        PresetEntry {
            url: "https://manta-pacific-gascap.calderachain.xyz/http"@,
            name: "Caldera"@,
            ws_url: None,
            priority: 54,
            chain_id: chain_id::MANTA_PACIFIC,
            capabilities: spec_measured(true, 0, 1000),
        },
        PresetEntry {
            url: "https://manta-pacific-aperture.calderachain.xyz/http"@,
            name: "Caldera Aperture"@,
            ws_url: None,
            priority: 55,
            chain_id: chain_id::MANTA_PACIFIC,
            capabilities: spec_measured(true, 0, 1000),
        },
    ]
}

/// Default endpoints for Manta Pacific.
pub fn manta_pacific_endpoints() -> (list: Vec<RpcEndpoint>)
    ensures
        entries_of(list@) == manta_pacific_table(),
        list@.len() == 5,
        preset_list(list@, chain_id::MANTA_PACIFIC),
{
    let list = vec![
        RpcEndpoint::new("https://pacific-rpc.manta.network/http")
            .with_name("Manta Official")
            .with_ws_url("wss://pacific-rpc.manta.network/ws")
            .with_priority(50)
            .with_chain_id(chain_id::MANTA_PACIFIC)
            .with_capabilities(measured(true, 0, 100)),
        RpcEndpoint::new("https://1rpc.io/manta")
            .with_name("1RPC")
            .with_priority(51)
            .with_chain_id(chain_id::MANTA_PACIFIC),
        RpcEndpoint::new("https://manta-pacific.drpc.org")
            .with_name("dRPC")
            .with_priority(52)
            .with_chain_id(chain_id::MANTA_PACIFIC)
            .with_capabilities(measured(true, 1, 1000)),
        RpcEndpoint::new("https://manta-pacific-gascap.calderachain.xyz/http")
            .with_name("Caldera")
            .with_priority(54)
            .with_chain_id(chain_id::MANTA_PACIFIC)
            .with_capabilities(measured(true, 0, 1000)),
        RpcEndpoint::new("https://manta-pacific-aperture.calderachain.xyz/http")
            .with_name("Caldera Aperture")
            .with_priority(55)
            .with_chain_id(chain_id::MANTA_PACIFIC)
            .with_capabilities(measured(true, 0, 1000)),
    ];
    assert(entries_of(list@) =~= manta_pacific_table());
    list
}

/// The preset endpoints of Hyperliquid EVM, entry by entry.
pub open spec fn hyperliquid_evm_table() -> Seq<PresetEntry> {
    seq![
        PresetEntry {
            url: "https://rpc.hyperliquid.xyz/evm"@,
            name: "Hyperliquid Official"@,
            ws_url: None,
            priority: 50,
            chain_id: chain_id::HYPERLIQUID_EVM,
            capabilities: spec_measured(true, 10, 100),
        },
        PresetEntry {
            url: "https://hyperliquid.drpc.org"@,
            name: "dRPC"@,
            ws_url: Some("wss://hyperliquid.drpc.org"@),
            priority: 52,
            chain_id: chain_id::HYPERLIQUID_EVM,
            capabilities: spec_measured(true, 1, 1000),
        },
        PresetEntry {
            url: "https://1rpc.io/hyperliquid"@,
            name: "1RPC"@,
            ws_url: None,
            priority: 53,
            chain_id: chain_id::HYPERLIQUID_EVM,
            capabilities: EndpointCapabilities::spec_unknown(),
        },
    ]
}

/// Default endpoints for Hyperliquid EVM.
pub fn hyperliquid_evm_endpoints() -> (list: Vec<RpcEndpoint>)
    ensures
        entries_of(list@) == hyperliquid_evm_table(),
        list@.len() == 3,
        preset_list(list@, chain_id::HYPERLIQUID_EVM),
{
    let list = vec![
        RpcEndpoint::new("https://rpc.hyperliquid.xyz/evm")
            .with_name("Hyperliquid Official")
            .with_priority(50)
            .with_chain_id(chain_id::HYPERLIQUID_EVM)
            .with_capabilities(measured(true, 10, 100)),
        RpcEndpoint::new("https://hyperliquid.drpc.org")
            .with_name("dRPC")
            .with_ws_url("wss://hyperliquid.drpc.org")
            .with_priority(52)
            .with_chain_id(chain_id::HYPERLIQUID_EVM)
            .with_capabilities(measured(true, 1, 1000)),
        RpcEndpoint::new("https://1rpc.io/hyperliquid")
            .with_name("1RPC")
            .with_priority(53)
            .with_chain_id(chain_id::HYPERLIQUID_EVM),
    ];
    assert(entries_of(list@) =~= hyperliquid_evm_table());
    list
}

} // verus!

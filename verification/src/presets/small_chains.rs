//! Preset endpoints of the smaller EVM chains.

use crate::endpoint::EndpointCapabilities;
use crate::endpoint::RpcEndpoint;
use crate::presets::chain_id;
use crate::presets::entries_of;
use crate::presets::preset_list;
use crate::presets::with_websocket;
use crate::presets::PresetEntry;
use vstd::prelude::*;

verus! {

/// The preset endpoints of Gnosis, entry by entry.
pub open spec fn gnosis_table() -> Seq<PresetEntry> {
    seq![
        PresetEntry {
            url: "https://rpc.gnosischain.com"@,
            name: "Gnosis Official"@,
            ws_url: None,
            priority: 50,
            chain_id: chain_id::GNOSIS,
            capabilities: EndpointCapabilities::spec_unknown(),
        },
        PresetEntry {
            url: "https://gnosis-rpc.publicnode.com"@,
            name: "PublicNode"@,
            ws_url: Some("wss://gnosis-rpc.publicnode.com"@),
            priority: 51,
            chain_id: chain_id::GNOSIS,
            capabilities: with_websocket(EndpointCapabilities::spec_unknown()),
        },
        PresetEntry {
            url: "https://gnosis.drpc.org"@,
            name: "dRPC"@,
            ws_url: None,
            priority: 52,
            chain_id: chain_id::GNOSIS,
            capabilities: EndpointCapabilities::spec_unknown(),
        },
        PresetEntry {
            url: "https://1rpc.io/gnosis"@,
            name: "1RPC"@,
            ws_url: None,
            priority: 53,
            chain_id: chain_id::GNOSIS,
            capabilities: EndpointCapabilities::spec_unknown(),
        },
        PresetEntry {
            url: "https://gnosis.api.onfinality.io/public"@,
            name: "OnFinality"@,
            ws_url: None,
            priority: 54,
            chain_id: chain_id::GNOSIS,
            capabilities: EndpointCapabilities::spec_unknown(),
        },
        PresetEntry {
            url: "https://gnosis-pokt.nodies.app"@,
            name: "Nodies"@,
            ws_url: None,
            priority: 55,
            chain_id: chain_id::GNOSIS,
            capabilities: EndpointCapabilities::spec_unknown(),
        },
        PresetEntry {
            url: "https://gnosis.gateway.tenderly.co"@,
            name: "Tenderly"@,
            ws_url: None,
            priority: 56,
            chain_id: chain_id::GNOSIS,
            capabilities: EndpointCapabilities::spec_unknown(),
        },
        PresetEntry {
            url: "https://rpc.gnosis.gateway.fm"@,
            name: "Gateway.fm"@,
            ws_url: None,
            priority: 57,
            chain_id: chain_id::GNOSIS,
            capabilities: EndpointCapabilities::spec_unknown(),
        },
    ]
}

/// Default endpoints for Gnosis.
pub fn gnosis_endpoints() -> (list: Vec<RpcEndpoint>)
    ensures
        entries_of(list@) == gnosis_table(),
        list@.len() == 8,
        preset_list(list@, chain_id::GNOSIS),
{
    let list = vec![
        RpcEndpoint::new("https://rpc.gnosischain.com")
            .with_name("Gnosis Official")
            .with_priority(50)
            .with_chain_id(chain_id::GNOSIS),
        RpcEndpoint::new("https://gnosis-rpc.publicnode.com")
            .with_name("PublicNode")
            .with_ws_url("wss://gnosis-rpc.publicnode.com")
            .with_priority(51)
            .with_chain_id(chain_id::GNOSIS),
        RpcEndpoint::new("https://gnosis.drpc.org")
            .with_name("dRPC")
            .with_priority(52)
            .with_chain_id(chain_id::GNOSIS),
        RpcEndpoint::new("https://1rpc.io/gnosis")
            .with_name("1RPC")
            .with_priority(53)
            .with_chain_id(chain_id::GNOSIS),
        RpcEndpoint::new("https://gnosis.api.onfinality.io/public")
            .with_name("OnFinality")
            .with_priority(54)
            .with_chain_id(chain_id::GNOSIS),
        RpcEndpoint::new("https://gnosis-pokt.nodies.app")
            .with_name("Nodies")
            .with_priority(55)
            .with_chain_id(chain_id::GNOSIS),
        RpcEndpoint::new("https://gnosis.gateway.tenderly.co")
            .with_name("Tenderly")
            .with_priority(56)
            .with_chain_id(chain_id::GNOSIS),
        RpcEndpoint::new("https://rpc.gnosis.gateway.fm")
            .with_name("Gateway.fm")
            .with_priority(57)
            .with_chain_id(chain_id::GNOSIS),
    ];
    assert(entries_of(list@) =~= gnosis_table());
    list
}

/// The preset endpoints of Celo, entry by entry.
pub open spec fn celo_table() -> Seq<PresetEntry> {
    seq![
        PresetEntry {
            url: "https://forno.celo.org"@,
            name: "Celo Official"@,
            ws_url: None,
            priority: 50,
            chain_id: chain_id::CELO,
            capabilities: EndpointCapabilities::spec_unknown(),
        },
        PresetEntry {
            url: "https://celo-rpc.publicnode.com"@,
            name: "PublicNode"@,
            ws_url: Some("wss://celo-rpc.publicnode.com"@),
            priority: 51,
            chain_id: chain_id::CELO,
            capabilities: with_websocket(EndpointCapabilities::spec_unknown()),
        },
        PresetEntry {
            url: "https://celo.drpc.org"@,
            name: "dRPC"@,
            ws_url: None,
            priority: 52,
            chain_id: chain_id::CELO,
            capabilities: EndpointCapabilities::spec_unknown(),
        },
        PresetEntry {
            url: "https://1rpc.io/celo"@,
            name: "1RPC"@,
            ws_url: None,
            priority: 53,
            chain_id: chain_id::CELO,
            capabilities: EndpointCapabilities::spec_unknown(),
        },
    ]
}

/// Default endpoints for Celo.
pub fn celo_endpoints() -> (list: Vec<RpcEndpoint>)
    ensures
        entries_of(list@) == celo_table(),
        list@.len() == 4,
        preset_list(list@, chain_id::CELO),
{
    let list = vec![
        RpcEndpoint::new("https://forno.celo.org")
            .with_name("Celo Official")
            .with_priority(50)
            .with_chain_id(chain_id::CELO),
        RpcEndpoint::new("https://celo-rpc.publicnode.com")
            .with_name("PublicNode")
            .with_ws_url("wss://celo-rpc.publicnode.com")
            .with_priority(51)
            .with_chain_id(chain_id::CELO),
        RpcEndpoint::new("https://celo.drpc.org")
            .with_name("dRPC")
            .with_priority(52)
            .with_chain_id(chain_id::CELO),
        RpcEndpoint::new("https://1rpc.io/celo")
            .with_name("1RPC")
            .with_priority(53)
            .with_chain_id(chain_id::CELO),
    ];
    assert(entries_of(list@) =~= celo_table());
    list
}

/// The preset endpoints of Moonbeam, entry by entry.
pub open spec fn moonbeam_table() -> Seq<PresetEntry> {
    seq![
        PresetEntry {
            url: "https://rpc.api.moonbeam.network"@,
            name: "Moonbeam Official"@,
            ws_url: None,
            priority: 50,
            chain_id: chain_id::MOONBEAM,
            capabilities: EndpointCapabilities::spec_unknown(),
        },
        PresetEntry {
            url: "https://moonbeam-rpc.publicnode.com"@,
            name: "PublicNode"@,
            ws_url: Some("wss://moonbeam-rpc.publicnode.com"@),
            priority: 51,
            chain_id: chain_id::MOONBEAM,
            capabilities: with_websocket(EndpointCapabilities::spec_unknown()),
        },
        PresetEntry {
            url: "https://moonbeam.drpc.org"@,
            name: "dRPC"@,
            ws_url: None,
            priority: 52,
            chain_id: chain_id::MOONBEAM,
            capabilities: EndpointCapabilities::spec_unknown(),
        },
        PresetEntry {
            url: "https://1rpc.io/glmr"@,
            name: "1RPC"@,
            ws_url: None,
            priority: 53,
            chain_id: chain_id::MOONBEAM,
            capabilities: EndpointCapabilities::spec_unknown(),
        },
        PresetEntry {
            url: "https://moonbeam.api.onfinality.io/public"@,
            name: "OnFinality"@,
            ws_url: None,
            priority: 54,
            chain_id: chain_id::MOONBEAM,
            capabilities: EndpointCapabilities::spec_unknown(),
        },
    ]
}

/// Default endpoints for Moonbeam.
pub fn moonbeam_endpoints() -> (list: Vec<RpcEndpoint>)
    ensures
        entries_of(list@) == moonbeam_table(),
        list@.len() == 5,
        preset_list(list@, chain_id::MOONBEAM),
{
    let list = vec![
        RpcEndpoint::new("https://rpc.api.moonbeam.network")
            .with_name("Moonbeam Official")
            .with_priority(50)
            .with_chain_id(chain_id::MOONBEAM),
        RpcEndpoint::new("https://moonbeam-rpc.publicnode.com")
            .with_name("PublicNode")
            .with_ws_url("wss://moonbeam-rpc.publicnode.com")
            .with_priority(51)
            .with_chain_id(chain_id::MOONBEAM),
        RpcEndpoint::new("https://moonbeam.drpc.org")
            .with_name("dRPC")
            .with_priority(52)
            .with_chain_id(chain_id::MOONBEAM),
        RpcEndpoint::new("https://1rpc.io/glmr")
            .with_name("1RPC")
            .with_priority(53)
            .with_chain_id(chain_id::MOONBEAM),
        RpcEndpoint::new("https://moonbeam.api.onfinality.io/public")
            .with_name("OnFinality")
            .with_priority(54)
            .with_chain_id(chain_id::MOONBEAM),
    ];
    assert(entries_of(list@) =~= moonbeam_table());
    list
}

/// The preset endpoints of Cronos, entry by entry.
pub open spec fn cronos_table() -> Seq<PresetEntry> {
    seq![
        PresetEntry {
            url: "https://evm.cronos.org"@,
            name: "Cronos Official"@,
            ws_url: None,
            priority: 50,
            chain_id: chain_id::CRONOS,
            capabilities: EndpointCapabilities::spec_unknown(),
        },
        PresetEntry {
            url: "https://cronos.drpc.org"@,
            name: "dRPC"@,
            ws_url: Some("wss://cronos.drpc.org"@),
            priority: 51,
            chain_id: chain_id::CRONOS,
            capabilities: with_websocket(EndpointCapabilities::spec_unknown()),
        },
    ]
}

/// Default endpoints for Cronos.
pub fn cronos_endpoints() -> (list: Vec<RpcEndpoint>)
    ensures
        entries_of(list@) == cronos_table(),
        list@.len() == 2,
        preset_list(list@, chain_id::CRONOS),
{
    let list = vec![
        RpcEndpoint::new("https://evm.cronos.org")
            .with_name("Cronos Official")
            .with_priority(50)
            .with_chain_id(chain_id::CRONOS),
        RpcEndpoint::new("https://cronos.drpc.org")
            .with_name("dRPC")
            .with_ws_url("wss://cronos.drpc.org")
            .with_priority(51)
            .with_chain_id(chain_id::CRONOS),
    ];
    assert(entries_of(list@) =~= cronos_table());
    list
}

/// The preset endpoints of Aurora, entry by entry.
pub open spec fn aurora_table() -> Seq<PresetEntry> {
    seq![
        PresetEntry {
            url: "https://mainnet.aurora.dev"@,
            name: "Aurora Official"@,
            ws_url: None,
            priority: 50,
            chain_id: chain_id::AURORA,
            capabilities: EndpointCapabilities::spec_unknown(),
        },
        PresetEntry {
            url: "https://aurora.drpc.org"@,
            name: "dRPC"@,
            ws_url: Some("wss://aurora.drpc.org"@),
            priority: 51,
            chain_id: chain_id::AURORA,
            capabilities: with_websocket(EndpointCapabilities::spec_unknown()),
        },
        PresetEntry {
            url: "https://1rpc.io/aurora"@,
            name: "1RPC"@,
            ws_url: None,
            priority: 52,
            chain_id: chain_id::AURORA,
            capabilities: EndpointCapabilities::spec_unknown(),
        },
    ]
}

/// Default endpoints for Aurora.
pub fn aurora_endpoints() -> (list: Vec<RpcEndpoint>)
    ensures
        entries_of(list@) == aurora_table(),
        list@.len() == 3,
        preset_list(list@, chain_id::AURORA),
{
    let list = vec![
        RpcEndpoint::new("https://mainnet.aurora.dev")
            .with_name("Aurora Official")
            .with_priority(50)
            .with_chain_id(chain_id::AURORA),
        RpcEndpoint::new("https://aurora.drpc.org")
            .with_name("dRPC")
            .with_ws_url("wss://aurora.drpc.org")
            .with_priority(51)
            .with_chain_id(chain_id::AURORA),
        RpcEndpoint::new("https://1rpc.io/aurora")
            .with_name("1RPC")
            .with_priority(52)
            .with_chain_id(chain_id::AURORA),
    ];
    assert(entries_of(list@) =~= aurora_table());
    list
}

/// The preset endpoints of Metis, entry by entry.
pub open spec fn metis_table() -> Seq<PresetEntry> {
    seq![
        PresetEntry {
            url: "https://andromeda.metis.io/?owner=1088"@,
            name: "Metis Official"@,
            ws_url: None,
            priority: 50,
            chain_id: chain_id::METIS,
            capabilities: EndpointCapabilities::spec_unknown(),
        },
        PresetEntry {
            url: "https://metis-rpc.publicnode.com"@,
            name: "PublicNode"@,
            ws_url: Some("wss://metis-rpc.publicnode.com"@),
            priority: 51,
            chain_id: chain_id::METIS,
            capabilities: with_websocket(EndpointCapabilities::spec_unknown()),
        },
        PresetEntry {
            url: "https://metis.drpc.org"@,
            name: "dRPC"@,
            ws_url: None,
            priority: 52,
            chain_id: chain_id::METIS,
            capabilities: EndpointCapabilities::spec_unknown(),
        },
        PresetEntry {
            url: "https://metis-pokt.nodies.app"@,
            name: "Nodies"@,
            ws_url: None,
            priority: 53,
            chain_id: chain_id::METIS,
            capabilities: EndpointCapabilities::spec_unknown(),
        },
    ]
}

/// Default endpoints for Metis.
pub fn metis_endpoints() -> (list: Vec<RpcEndpoint>)
    ensures
        entries_of(list@) == metis_table(),
        list@.len() == 4,
        preset_list(list@, chain_id::METIS),
{
    let list = vec![
        RpcEndpoint::new("https://andromeda.metis.io/?owner=1088")
            .with_name("Metis Official")
            .with_priority(50)
            .with_chain_id(chain_id::METIS),
        RpcEndpoint::new("https://metis-rpc.publicnode.com")
            .with_name("PublicNode")
            .with_ws_url("wss://metis-rpc.publicnode.com")
            .with_priority(51)
            .with_chain_id(chain_id::METIS),
        RpcEndpoint::new("https://metis.drpc.org")
            .with_name("dRPC")
            .with_priority(52)
            .with_chain_id(chain_id::METIS),
        RpcEndpoint::new("https://metis-pokt.nodies.app")
            .with_name("Nodies")
            .with_priority(53)
            .with_chain_id(chain_id::METIS),
    ];
    assert(entries_of(list@) =~= metis_table());
    list
}

/// The preset endpoints of Kava, entry by entry.
pub open spec fn kava_table() -> Seq<PresetEntry> {
    seq![
        PresetEntry {
            url: "https://evm.kava.io"@,
            name: "Kava Official"@,
            ws_url: None,
            priority: 50,
            chain_id: chain_id::KAVA,
            capabilities: EndpointCapabilities::spec_unknown(),
        },
        PresetEntry {
            url: "https://kava.drpc.org"@,
            name: "dRPC"@,
            ws_url: Some("wss://kava.drpc.org"@),
            priority: 51,
            chain_id: chain_id::KAVA,
            capabilities: with_websocket(EndpointCapabilities::spec_unknown()),
        },
        PresetEntry {
            url: "https://kava-pokt.nodies.app"@,
            name: "Nodies"@,
            ws_url: None,
            priority: 52,
            chain_id: chain_id::KAVA,
            capabilities: EndpointCapabilities::spec_unknown(),
        },
    ]
}

/// Default endpoints for Kava.
pub fn kava_endpoints() -> (list: Vec<RpcEndpoint>)
    ensures
        entries_of(list@) == kava_table(),
        list@.len() == 3,
        preset_list(list@, chain_id::KAVA),
{
    let list = vec![
        RpcEndpoint::new("https://evm.kava.io")
            .with_name("Kava Official")
            .with_priority(50)
            .with_chain_id(chain_id::KAVA),
        RpcEndpoint::new("https://kava.drpc.org")
            .with_name("dRPC")
            .with_ws_url("wss://kava.drpc.org")
            .with_priority(51)
            .with_chain_id(chain_id::KAVA),
        RpcEndpoint::new("https://kava-pokt.nodies.app")
            .with_name("Nodies")
            .with_priority(52)
            .with_chain_id(chain_id::KAVA),
    ];
    assert(entries_of(list@) =~= kava_table());
    list
}

/// The preset endpoints of Klaytn, entry by entry.
pub open spec fn klaytn_table() -> Seq<PresetEntry> {
    seq![
        PresetEntry {
            url: "https://public-en.node.kaia.io"@,
            name: "Klaytn Official"@,
            ws_url: None,
            priority: 50,
            chain_id: chain_id::KLAYTN,
            capabilities: EndpointCapabilities::spec_unknown(),
        },
        PresetEntry {
            url: "https://klaytn.drpc.org"@,
            name: "dRPC"@,
            ws_url: Some("wss://klaytn.drpc.org"@),
            priority: 51,
            chain_id: chain_id::KLAYTN,
            capabilities: with_websocket(EndpointCapabilities::spec_unknown()),
        },
        PresetEntry {
            url: "https://klaytn-pokt.nodies.app"@,
            name: "Nodies"@,
            ws_url: None,
            priority: 52,
            chain_id: chain_id::KLAYTN,
            capabilities: EndpointCapabilities::spec_unknown(),
        },
    ]
}

/// Default endpoints for Klaytn.
pub fn klaytn_endpoints() -> (list: Vec<RpcEndpoint>)
    ensures
        entries_of(list@) == klaytn_table(),
        list@.len() == 3,
        preset_list(list@, chain_id::KLAYTN),
{
    let list = vec![
        RpcEndpoint::new("https://public-en.node.kaia.io")
            .with_name("Klaytn Official")
            .with_priority(50)
            .with_chain_id(chain_id::KLAYTN),
        RpcEndpoint::new("https://klaytn.drpc.org")
            .with_name("dRPC")
            .with_ws_url("wss://klaytn.drpc.org")
            .with_priority(51)
            .with_chain_id(chain_id::KLAYTN),
        RpcEndpoint::new("https://klaytn-pokt.nodies.app")
            .with_name("Nodies")
            .with_priority(52)
            .with_chain_id(chain_id::KLAYTN),
    ];
    assert(entries_of(list@) =~= klaytn_table());
    list
}

/// The preset endpoints of Harmony, entry by entry.
pub open spec fn harmony_table() -> Seq<PresetEntry> {
    seq![
        PresetEntry {
            url: "https://api.harmony.one"@,
            name: "Harmony Official"@,
            ws_url: Some("wss://ws.s0.t.hmny.io"@),
            priority: 50,
            chain_id: chain_id::HARMONY,
            capabilities: with_websocket(EndpointCapabilities::spec_unknown()),
        },
        PresetEntry {
            url: "https://1rpc.io/one"@,
            name: "1RPC"@,
            ws_url: None,
            priority: 51,
            chain_id: chain_id::HARMONY,
            capabilities: EndpointCapabilities::spec_unknown(),
        },
    ]
}

/// Default endpoints for Harmony.
pub fn harmony_endpoints() -> (list: Vec<RpcEndpoint>)
    ensures
        entries_of(list@) == harmony_table(),
        list@.len() == 2,
        preset_list(list@, chain_id::HARMONY),
{
    let list = vec![
        RpcEndpoint::new("https://api.harmony.one")
            .with_name("Harmony Official")
            .with_ws_url("wss://ws.s0.t.hmny.io")
            .with_priority(50)
            .with_chain_id(chain_id::HARMONY),
        RpcEndpoint::new("https://1rpc.io/one")
            .with_name("1RPC")
            .with_priority(51)
            .with_chain_id(chain_id::HARMONY),
    ];
    assert(entries_of(list@) =~= harmony_table());
    list
}

/// The preset endpoints of Rootstock, entry by entry.
pub open spec fn rootstock_table() -> Seq<PresetEntry> {
    seq![
        PresetEntry {
            url: "https://public-node.rsk.co"@,
            name: "Rootstock Official"@,
            ws_url: None,
            priority: 50,
            chain_id: chain_id::ROOTSTOCK,
            capabilities: EndpointCapabilities::spec_unknown(),
        },
        PresetEntry {
            url: "https://rootstock.drpc.org"@,
            name: "dRPC"@,
            ws_url: Some("wss://rootstock.drpc.org"@),
            priority: 51,
            chain_id: chain_id::ROOTSTOCK,
            capabilities: with_websocket(EndpointCapabilities::spec_unknown()),
        },
    ]
}

/// Default endpoints for Rootstock.
pub fn rootstock_endpoints() -> (list: Vec<RpcEndpoint>)
    ensures
        entries_of(list@) == rootstock_table(),
        list@.len() == 2,
        preset_list(list@, chain_id::ROOTSTOCK),
{
    let list = vec![
        RpcEndpoint::new("https://public-node.rsk.co")
            .with_name("Rootstock Official")
            .with_priority(50)
            .with_chain_id(chain_id::ROOTSTOCK),
        RpcEndpoint::new("https://rootstock.drpc.org")
            .with_name("dRPC")
            .with_ws_url("wss://rootstock.drpc.org")
            .with_priority(51)
            .with_chain_id(chain_id::ROOTSTOCK),
    ];
    assert(entries_of(list@) =~= rootstock_table());
    list
}

/// The preset endpoints of Fuse, entry by entry.
pub open spec fn fuse_table() -> Seq<PresetEntry> {
    seq![
        PresetEntry {
            url: "https://rpc.fuse.io"@,
            name: "Fuse Official"@,
            ws_url: None,
            priority: 50,
            chain_id: chain_id::FUSE,
            capabilities: EndpointCapabilities::spec_unknown(),
        },
        PresetEntry {
            url: "https://fuse.drpc.org"@,
            name: "dRPC"@,
            ws_url: Some("wss://fuse.drpc.org"@),
            priority: 51,
            chain_id: chain_id::FUSE,
            capabilities: with_websocket(EndpointCapabilities::spec_unknown()),
        },
        PresetEntry {
            url: "https://fuse-pokt.nodies.app"@,
            name: "Nodies"@,
            ws_url: None,
            priority: 52,
            chain_id: chain_id::FUSE,
            capabilities: EndpointCapabilities::spec_unknown(),
        },
    ]
}

/// Default endpoints for Fuse.
pub fn fuse_endpoints() -> (list: Vec<RpcEndpoint>)
    ensures
        entries_of(list@) == fuse_table(),
        list@.len() == 3,
        preset_list(list@, chain_id::FUSE),
{
    let list = vec![
        RpcEndpoint::new("https://rpc.fuse.io")
            .with_name("Fuse Official")
            .with_priority(50)
            .with_chain_id(chain_id::FUSE),
        RpcEndpoint::new("https://fuse.drpc.org")
            .with_name("dRPC")
            .with_ws_url("wss://fuse.drpc.org")
            .with_priority(51)
            .with_chain_id(chain_id::FUSE),
        RpcEndpoint::new("https://fuse-pokt.nodies.app")
            .with_name("Nodies")
            .with_priority(52)
            .with_chain_id(chain_id::FUSE),
    ];
    assert(entries_of(list@) =~= fuse_table());
    list
}

/// The preset endpoints of Sonic, entry by entry.
pub open spec fn sonic_table() -> Seq<PresetEntry> {
    seq![
        PresetEntry {
            url: "https://rpc.soniclabs.com"@,
            name: "Sonic Official"@,
            ws_url: None,
            priority: 50,
            chain_id: chain_id::SONIC,
            capabilities: EndpointCapabilities::spec_unknown(),
        },
        PresetEntry {
            url: "https://sonic-rpc.publicnode.com"@,
            name: "PublicNode"@,
            ws_url: Some("wss://sonic-rpc.publicnode.com"@),
            priority: 51,
            chain_id: chain_id::SONIC,
            capabilities: with_websocket(EndpointCapabilities::spec_unknown()),
        },
        PresetEntry {
            url: "https://sonic.drpc.org"@,
            name: "dRPC"@,
            ws_url: None,
            priority: 52,
            chain_id: chain_id::SONIC,
            capabilities: EndpointCapabilities::spec_unknown(),
        },
        PresetEntry {
            url: "https://1rpc.io/sonic"@,
            name: "1RPC"@,
            ws_url: None,
            priority: 53,
            chain_id: chain_id::SONIC,
            capabilities: EndpointCapabilities::spec_unknown(),
        },
        PresetEntry {
            url: "https://sonic.api.onfinality.io/public"@,
            name: "OnFinality"@,
            ws_url: None,
            priority: 54,
            chain_id: chain_id::SONIC,
            capabilities: EndpointCapabilities::spec_unknown(),
        },
        PresetEntry {
            url: "https://sonic.gateway.tenderly.co"@,
            name: "Tenderly"@,
            ws_url: None,
            priority: 55,
            chain_id: chain_id::SONIC,
            capabilities: EndpointCapabilities::spec_unknown(),
        },
    ]
}

/// Default endpoints for Sonic.
pub fn sonic_endpoints() -> (list: Vec<RpcEndpoint>)
    ensures
        entries_of(list@) == sonic_table(),
        list@.len() == 6,
        preset_list(list@, chain_id::SONIC),
{
    let list = vec![
        RpcEndpoint::new("https://rpc.soniclabs.com")
            .with_name("Sonic Official")
            .with_priority(50)
            .with_chain_id(chain_id::SONIC),
        RpcEndpoint::new("https://sonic-rpc.publicnode.com")
            .with_name("PublicNode")
            .with_ws_url("wss://sonic-rpc.publicnode.com")
            .with_priority(51)
            .with_chain_id(chain_id::SONIC),
        RpcEndpoint::new("https://sonic.drpc.org")
            .with_name("dRPC")
            .with_priority(52)
            .with_chain_id(chain_id::SONIC),
        RpcEndpoint::new("https://1rpc.io/sonic")
            .with_name("1RPC")
            .with_priority(53)
            .with_chain_id(chain_id::SONIC),
        RpcEndpoint::new("https://sonic.api.onfinality.io/public")
            .with_name("OnFinality")
            .with_priority(54)
            .with_chain_id(chain_id::SONIC),
        RpcEndpoint::new("https://sonic.gateway.tenderly.co")
            .with_name("Tenderly")
            .with_priority(55)
            .with_chain_id(chain_id::SONIC),
    ];
    assert(entries_of(list@) =~= sonic_table());
    list
}

/// The preset endpoints of Berachain, entry by entry.
pub open spec fn berachain_table() -> Seq<PresetEntry> {
    seq![
        PresetEntry {
            url: "https://rpc.berachain.com"@,
            name: "Berachain Official"@,
            ws_url: None,
            priority: 50,
            chain_id: chain_id::BERACHAIN,
            capabilities: EndpointCapabilities::spec_unknown(),
        },
        PresetEntry {
            url: "https://berachain-rpc.publicnode.com"@,
            name: "PublicNode"@,
            ws_url: Some("wss://berachain-rpc.publicnode.com"@),
            priority: 51,
            chain_id: chain_id::BERACHAIN,
            capabilities: with_websocket(EndpointCapabilities::spec_unknown()),
        },
        PresetEntry {
            url: "https://berachain.drpc.org"@,
            name: "dRPC"@,
            ws_url: None,
            priority: 52,
            chain_id: chain_id::BERACHAIN,
            capabilities: EndpointCapabilities::spec_unknown(),
        },
    ]
}

/// Default endpoints for Berachain.
pub fn berachain_endpoints() -> (list: Vec<RpcEndpoint>)
    ensures
        entries_of(list@) == berachain_table(),
        list@.len() == 3,
        preset_list(list@, chain_id::BERACHAIN),
{
    let list = vec![
        RpcEndpoint::new("https://rpc.berachain.com")
            .with_name("Berachain Official")
            .with_priority(50)
            .with_chain_id(chain_id::BERACHAIN),
        RpcEndpoint::new("https://berachain-rpc.publicnode.com")
            .with_name("PublicNode")
            .with_ws_url("wss://berachain-rpc.publicnode.com")
            .with_priority(51)
            .with_chain_id(chain_id::BERACHAIN),
        RpcEndpoint::new("https://berachain.drpc.org")
            .with_name("dRPC")
            .with_priority(52)
            .with_chain_id(chain_id::BERACHAIN),
    ];
    assert(entries_of(list@) =~= berachain_table());
    list
}

/// The preset endpoints of Taiko, entry by entry.
pub open spec fn taiko_table() -> Seq<PresetEntry> {
    seq![
        PresetEntry {
            url: "https://rpc.mainnet.taiko.xyz"@,
            name: "Taiko Official"@,
            ws_url: None,
            priority: 50,
            chain_id: chain_id::TAIKO,
            capabilities: EndpointCapabilities::spec_unknown(),
        },
        PresetEntry {
            url: "https://taiko-rpc.publicnode.com"@,
            name: "PublicNode"@,
            ws_url: Some("wss://taiko-rpc.publicnode.com"@),
            priority: 51,
            chain_id: chain_id::TAIKO,
            capabilities: with_websocket(EndpointCapabilities::spec_unknown()),
        },
        PresetEntry {
            url: "https://taiko.drpc.org"@,
            name: "dRPC"@,
            ws_url: None,
            priority: 52,
            chain_id: chain_id::TAIKO,
            capabilities: EndpointCapabilities::spec_unknown(),
        },
    ]
}

/// Default endpoints for Taiko.
pub fn taiko_endpoints() -> (list: Vec<RpcEndpoint>)
    ensures
        entries_of(list@) == taiko_table(),
        list@.len() == 3,
        preset_list(list@, chain_id::TAIKO),
{
    let list = vec![
        RpcEndpoint::new("https://rpc.mainnet.taiko.xyz")
            .with_name("Taiko Official")
            .with_priority(50)
            .with_chain_id(chain_id::TAIKO),
        RpcEndpoint::new("https://taiko-rpc.publicnode.com")
            .with_name("PublicNode")
            .with_ws_url("wss://taiko-rpc.publicnode.com")
            .with_priority(51)
            .with_chain_id(chain_id::TAIKO),
        RpcEndpoint::new("https://taiko.drpc.org")
            .with_name("dRPC")
            .with_priority(52)
            .with_chain_id(chain_id::TAIKO),
    ];
    assert(entries_of(list@) =~= taiko_table());
    list
}

/// The preset endpoints of Fraxtal, entry by entry.
pub open spec fn fraxtal_table() -> Seq<PresetEntry> {
    seq![
        PresetEntry {
            url: "https://rpc.frax.com"@,
            name: "Fraxtal Official"@,
            ws_url: None,
            priority: 50,
            chain_id: chain_id::FRAXTAL,
            capabilities: EndpointCapabilities::spec_unknown(),
        },
        PresetEntry {
            url: "https://fraxtal-rpc.publicnode.com"@,
            name: "PublicNode"@,
            ws_url: Some("wss://fraxtal-rpc.publicnode.com"@),
            priority: 51,
            chain_id: chain_id::FRAXTAL,
            capabilities: with_websocket(EndpointCapabilities::spec_unknown()),
        },
        PresetEntry {
            url: "https://fraxtal.drpc.org"@,
            name: "dRPC"@,
            ws_url: None,
            priority: 52,
            chain_id: chain_id::FRAXTAL,
            capabilities: EndpointCapabilities::spec_unknown(),
        },
    ]
}

/// Default endpoints for Fraxtal.
pub fn fraxtal_endpoints() -> (list: Vec<RpcEndpoint>)
    ensures
        entries_of(list@) == fraxtal_table(),
        list@.len() == 3,
        preset_list(list@, chain_id::FRAXTAL),
{
    let list = vec![
        RpcEndpoint::new("https://rpc.frax.com")
            .with_name("Fraxtal Official")
            .with_priority(50)
            .with_chain_id(chain_id::FRAXTAL),
        RpcEndpoint::new("https://fraxtal-rpc.publicnode.com")
            .with_name("PublicNode")
            .with_ws_url("wss://fraxtal-rpc.publicnode.com")
            .with_priority(51)
            .with_chain_id(chain_id::FRAXTAL),
        RpcEndpoint::new("https://fraxtal.drpc.org")
            .with_name("dRPC")
            .with_priority(52)
            .with_chain_id(chain_id::FRAXTAL),
    ];
    assert(entries_of(list@) =~= fraxtal_table());
    list
}

/// The preset endpoints of Sei, entry by entry.
pub open spec fn sei_table() -> Seq<PresetEntry> {
    seq![
        PresetEntry {
            url: "https://evm-rpc.sei-apis.com"@,
            name: "Sei Official"@,
            ws_url: None,
            priority: 50,
            chain_id: chain_id::SEI,
            capabilities: EndpointCapabilities::spec_unknown(),
        },
        PresetEntry {
            url: "https://sei.drpc.org"@,
            name: "dRPC"@,
            ws_url: Some("wss://sei.drpc.org"@),
            priority: 51,
            chain_id: chain_id::SEI,
            capabilities: with_websocket(EndpointCapabilities::spec_unknown()),
        },
    ]
}

/// Default endpoints for Sei.
pub fn sei_endpoints() -> (list: Vec<RpcEndpoint>)
    ensures
        entries_of(list@) == sei_table(),
        list@.len() == 2,
        preset_list(list@, chain_id::SEI),
{
    let list = vec![
        RpcEndpoint::new("https://evm-rpc.sei-apis.com")
            .with_name("Sei Official")
            .with_priority(50)
            .with_chain_id(chain_id::SEI),
        RpcEndpoint::new("https://sei.drpc.org")
            .with_name("dRPC")
            .with_ws_url("wss://sei.drpc.org")
            .with_priority(51)
            .with_chain_id(chain_id::SEI),
    ];
    assert(entries_of(list@) =~= sei_table());
    list
}

/// The preset endpoints of World Chain, entry by entry.
pub open spec fn world_chain_table() -> Seq<PresetEntry> {
    seq![
        PresetEntry {
            url: "https://worldchain-mainnet.g.alchemy.com/public"@,
            name: "Alchemy"@,
            ws_url: None,
            priority: 50,
            chain_id: chain_id::WORLD_CHAIN,
            capabilities: EndpointCapabilities::spec_unknown(),
        },
        PresetEntry {
            url: "https://worldchain.drpc.org"@,
            name: "dRPC"@,
            ws_url: Some("wss://worldchain.drpc.org"@),
            priority: 51,
            chain_id: chain_id::WORLD_CHAIN,
            capabilities: with_websocket(EndpointCapabilities::spec_unknown()),
        },
    ]
}

/// Default endpoints for World Chain.
pub fn world_chain_endpoints() -> (list: Vec<RpcEndpoint>)
    ensures
        entries_of(list@) == world_chain_table(),
        list@.len() == 2,
        preset_list(list@, chain_id::WORLD_CHAIN),
{
    let list = vec![
        RpcEndpoint::new("https://worldchain-mainnet.g.alchemy.com/public")
            .with_name("Alchemy")
            .with_priority(50)
            .with_chain_id(chain_id::WORLD_CHAIN),
        RpcEndpoint::new("https://worldchain.drpc.org")
            .with_name("dRPC")
            .with_ws_url("wss://worldchain.drpc.org")
            .with_priority(51)
            .with_chain_id(chain_id::WORLD_CHAIN),
    ];
    assert(entries_of(list@) =~= world_chain_table());
    list
}

/// The preset endpoints of Immutable zkEVM, entry by entry.
pub open spec fn immutable_zkevm_table() -> Seq<PresetEntry> {
    seq![
        PresetEntry {
            url: "https://rpc.immutable.com"@,
            name: "Immutable Official"@,
            ws_url: None,
            priority: 50,
            chain_id: chain_id::IMMUTABLE_ZKEVM,
            capabilities: EndpointCapabilities::spec_unknown(),
        },
        PresetEntry {
            url: "https://immutable-zkevm.drpc.org"@,
            name: "dRPC"@,
            ws_url: Some("wss://immutable-zkevm.drpc.org"@),
            priority: 51,
            chain_id: chain_id::IMMUTABLE_ZKEVM,
            capabilities: with_websocket(EndpointCapabilities::spec_unknown()),
        },
    ]
}

/// Default endpoints for Immutable zkEVM.
pub fn immutable_zkevm_endpoints() -> (list: Vec<RpcEndpoint>)
    ensures
        entries_of(list@) == immutable_zkevm_table(),
        list@.len() == 2,
        preset_list(list@, chain_id::IMMUTABLE_ZKEVM),
{
    let list = vec![
        RpcEndpoint::new("https://rpc.immutable.com")
            .with_name("Immutable Official")
            .with_priority(50)
            .with_chain_id(chain_id::IMMUTABLE_ZKEVM),
        RpcEndpoint::new("https://immutable-zkevm.drpc.org")
            .with_name("dRPC")
            .with_ws_url("wss://immutable-zkevm.drpc.org")
            .with_priority(51)
            .with_chain_id(chain_id::IMMUTABLE_ZKEVM),
    ];
    assert(entries_of(list@) =~= immutable_zkevm_table());
    list
}

/// The preset endpoints of opBNB, entry by entry.
pub open spec fn opbnb_table() -> Seq<PresetEntry> {
    seq![
        PresetEntry {
            url: "https://opbnb-mainnet-rpc.bnbchain.org"@,
            name: "opBNB Official"@,
            ws_url: None,
            priority: 50,
            chain_id: chain_id::OPBNB,
            capabilities: EndpointCapabilities::spec_unknown(),
        },
        PresetEntry {
            url: "https://opbnb-rpc.publicnode.com"@,
            name: "PublicNode"@,
            ws_url: Some("wss://opbnb-rpc.publicnode.com"@),
            priority: 51,
            chain_id: chain_id::OPBNB,
            capabilities: with_websocket(EndpointCapabilities::spec_unknown()),
        },
        PresetEntry {
            url: "https://opbnb.drpc.org"@,
            name: "dRPC"@,
            ws_url: None,
            priority: 52,
            chain_id: chain_id::OPBNB,
            capabilities: EndpointCapabilities::spec_unknown(),
        },
        PresetEntry {
            url: "https://1rpc.io/opbnb"@,
            name: "1RPC"@,
            ws_url: None,
            priority: 53,
            chain_id: chain_id::OPBNB,
            capabilities: EndpointCapabilities::spec_unknown(),
        },
    ]
}

/// Default endpoints for opBNB.
pub fn opbnb_endpoints() -> (list: Vec<RpcEndpoint>)
    ensures
        entries_of(list@) == opbnb_table(),
        list@.len() == 4,
        preset_list(list@, chain_id::OPBNB),
{
    let list = vec![
        RpcEndpoint::new("https://opbnb-mainnet-rpc.bnbchain.org")
            .with_name("opBNB Official")
            .with_priority(50)
            .with_chain_id(chain_id::OPBNB),
        RpcEndpoint::new("https://opbnb-rpc.publicnode.com")
            .with_name("PublicNode")
            .with_ws_url("wss://opbnb-rpc.publicnode.com")
            .with_priority(51)
            .with_chain_id(chain_id::OPBNB),
        RpcEndpoint::new("https://opbnb.drpc.org")
            .with_name("dRPC")
            .with_priority(52)
            .with_chain_id(chain_id::OPBNB),
        RpcEndpoint::new("https://1rpc.io/opbnb")
            .with_name("1RPC")
            .with_priority(53)
            .with_chain_id(chain_id::OPBNB),
    ];
    assert(entries_of(list@) =~= opbnb_table());
    list
}

/// The preset endpoints of ZetaChain, entry by entry.
pub open spec fn zetachain_table() -> Seq<PresetEntry> {
    seq![
        PresetEntry {
            url: "https://zetachain-evm.blockpi.network/v1/rpc/public"@,
            name: "BlockPI"@,
            ws_url: Some("wss://zetachain-evm.blockpi.network/v1/ws/public"@),
            priority: 50,
            chain_id: chain_id::ZETACHAIN,
            capabilities: with_websocket(EndpointCapabilities::spec_unknown()),
        },
        PresetEntry {
            url: "https://zetachain-mainnet.g.allthatnode.com/archive/evm"@,
            name: "AllThatNode"@,
            ws_url: None,
            priority: 51,
            chain_id: chain_id::ZETACHAIN,
            capabilities: EndpointCapabilities::spec_unknown(),
        },
    ]
}

/// Default endpoints for ZetaChain.
pub fn zetachain_endpoints() -> (list: Vec<RpcEndpoint>)
    ensures
        entries_of(list@) == zetachain_table(),
        list@.len() == 2,
        preset_list(list@, chain_id::ZETACHAIN),
{
    let list = vec![
        RpcEndpoint::new("https://zetachain-evm.blockpi.network/v1/rpc/public")
            .with_name("BlockPI")
            .with_ws_url("wss://zetachain-evm.blockpi.network/v1/ws/public")
            .with_priority(50)
            .with_chain_id(chain_id::ZETACHAIN),
        RpcEndpoint::new("https://zetachain-mainnet.g.allthatnode.com/archive/evm")
            .with_name("AllThatNode")
            .with_priority(51)
            .with_chain_id(chain_id::ZETACHAIN),
    ];
    assert(entries_of(list@) =~= zetachain_table());
    list
}

/// The preset endpoints of Lisk, entry by entry.
pub open spec fn lisk_table() -> Seq<PresetEntry> {
    seq![
        PresetEntry {
            url: "https://rpc.api.lisk.com"@,
            name: "Lisk Official"@,
            ws_url: None,
            priority: 50,
            chain_id: chain_id::LISK,
            capabilities: EndpointCapabilities::spec_unknown(),
        },
        PresetEntry {
            url: "https://lisk.drpc.org"@,
            name: "dRPC"@,
            ws_url: Some("wss://lisk.drpc.org"@),
            priority: 51,
            chain_id: chain_id::LISK,
            capabilities: with_websocket(EndpointCapabilities::spec_unknown()),
        },
    ]
}

/// Default endpoints for Lisk.
pub fn lisk_endpoints() -> (list: Vec<RpcEndpoint>)
    ensures
        entries_of(list@) == lisk_table(),
        list@.len() == 2,
        preset_list(list@, chain_id::LISK),
{
    let list = vec![
        RpcEndpoint::new("https://rpc.api.lisk.com")
            .with_name("Lisk Official")
            .with_priority(50)
            .with_chain_id(chain_id::LISK),
        RpcEndpoint::new("https://lisk.drpc.org")
            .with_name("dRPC")
            .with_ws_url("wss://lisk.drpc.org")
            .with_priority(51)
            .with_chain_id(chain_id::LISK),
    ];
    assert(entries_of(list@) =~= lisk_table());
    list
}

} // verus!

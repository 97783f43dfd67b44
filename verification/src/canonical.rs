use vstd::prelude::*;

use crate::model::{
    ExtraOutboundClientConfig, GRPCSettings, RealitySettings, Settings, ShadowsocksServer,
    SettingsV, ShadowsocksServerV, StreamSettings, StreamSettingsV, TlsSettings, User, UserV,
    VNext, VNextV, XrayOutboundClientConfig, XrayOutboundClientConfigV,
};
use crate::outbound::{spec_extra, spec_protocol, OutboundClientConfig, OutboundClientConfigV};

verus! {

// ---------------------------------------------------------------------------
// Canonical normalizer: every typed descriptor maps to the one engine-agnostic
// outbound shape.  `spec_canonical` is the definition; `new` computes it.
// ---------------------------------------------------------------------------

/// Which `settings` list the canonical outbound carries: a `vnext` entry for
/// user-identified protocols, a `servers` entry for credential-pair ones.
/// A trojan outbound gets neither: the engine's `servers` shape wants a
/// `method` a trojan does not have, so its credentials stay out of the
/// canonical settings.  That is a deliberate resolution, not an oversight;
/// whether trojan deserves a `servers` shape of its own is an open question
/// for the engine's owners to settle, not one this crate can decide.
pub open spec fn spec_canonical_settings(c: OutboundClientConfigV) -> SettingsV {
    SettingsV {
        vnext: match c {
            OutboundClientConfigV::Vless(v) => Some(
                seq![VNextV { address: v.address, port: v.port, users: seq![v.user] }],
            ),
            _ => None,
        },
        servers: match c {
            OutboundClientConfigV::Shadowsocks(s) => Some(
                seq![
                    ShadowsocksServerV {
                        address: s.address,
                        port: s.port,
                        method: s.method,
                        password: s.password,
                    },
                ],
            ),
            _ => None,
        },
    }
}

/// The stream settings a descriptor populated, carried over verbatim.
pub open spec fn spec_canonical_stream(c: OutboundClientConfigV) -> StreamSettingsV {
    StreamSettingsV {
        network: match c {
            OutboundClientConfigV::Vless(v) => Some(v.transport),
            OutboundClientConfigV::Shadowsocks(_) => Some("tcp"@),
            OutboundClientConfigV::Trojan(t) => t.network,
        },
        security: match c {
            OutboundClientConfigV::Vless(v) => v.security,
            OutboundClientConfigV::Shadowsocks(_) => None,
            OutboundClientConfigV::Trojan(t) => t.security,
        },
        grpc: match c {
            OutboundClientConfigV::Vless(v) => v.grpc,
            _ => None,
        },
        reality: match c {
            OutboundClientConfigV::Vless(v) => v.reality,
            _ => None,
        },
        tls: match c {
            OutboundClientConfigV::Vless(v) => v.tls,
            OutboundClientConfigV::Shadowsocks(_) => None,
            OutboundClientConfigV::Trojan(t) => t.tls,
        },
    }
}

/// The canonical outbound for a descriptor: untagged, no mux, display
/// metadata kept as a sibling value.
pub open spec fn spec_canonical(c: OutboundClientConfigV) -> XrayOutboundClientConfigV {
    XrayOutboundClientConfigV {
        tag: None,
        protocol: spec_protocol(c),
        settings: spec_canonical_settings(c),
        stream_settings: spec_canonical_stream(c),
        mux: None,
        extra: Some(spec_extra(c)),
    }
}

pub fn clone_opt_string(o: &Option<String>) -> (r: Option<String>)
    ensures
        r.deep_view() == o.deep_view(),
{
    match o {
        Some(s) => Some(s.clone()),
        None => None,
    }
}

pub fn clone_vec_string(v: &Vec<String>) -> (r: Vec<String>)
    ensures
        r.deep_view() == v.deep_view(),
{
    let r = v.clone();
    proof {
        assert forall|i: int| 0 <= i < v@.len() implies r@[i]@ == v@[i]@ by {
            assert(cloned::<String>(v@[i], r@[i]));
        }
        assert(r.deep_view() =~= v.deep_view());
    }
    r
}

pub fn clone_opt_vec_string(o: &Option<Vec<String>>) -> (r: Option<Vec<String>>)
    ensures
        r.deep_view() == o.deep_view(),
{
    match o {
        Some(v) => Some(clone_vec_string(v)),
        None => None,
    }
}

impl User {
    pub fn duplicate(&self) -> (r: User)
        ensures
            r@ == self@,
    {
        User {
            id: self.id.clone(),
            encryption: self.encryption.clone(),
            flow: clone_opt_string(&self.flow),
        }
    }
}

impl GRPCSettings {
    pub fn duplicate(&self) -> (r: GRPCSettings)
        ensures
            r@ == self@,
    {
        GRPCSettings {
            service_name: clone_opt_string(&self.service_name),
            multi_mode: self.multi_mode,
            idle_timeout: self.idle_timeout,
            health_check_timeout: self.health_check_timeout,
            permit_without_stream: self.permit_without_stream,
            initial_windows_size: self.initial_windows_size,
        }
    }
}

impl RealitySettings {
    pub fn duplicate(&self) -> (r: RealitySettings)
        ensures
            r@ == self@,
    {
        RealitySettings {
            fingerprint: clone_opt_string(&self.fingerprint),
            public_key: self.public_key.clone(),
            server_name: self.server_name.clone(),
            short_id: self.short_id.clone(),
            spider_x: clone_opt_string(&self.spider_x),
        }
    }
}

impl TlsSettings {
    pub fn duplicate(&self) -> (r: TlsSettings)
        ensures
            r@ == self@,
    {
        TlsSettings {
            server_name: clone_opt_string(&self.server_name),
            verify_peer_cert_in_names: clone_opt_string(&self.verify_peer_cert_in_names),
            reject_unknown_sni: self.reject_unknown_sni,
            allow_insecure: self.allow_insecure,
            alpn: clone_opt_vec_string(&self.alpn),
            min_version: clone_opt_string(&self.min_version),
            max_version: clone_opt_string(&self.max_version),
            cipher_suites: clone_opt_string(&self.cipher_suites),
            certificates: clone_opt_vec_string(&self.certificates),
            disable_system_root: self.disable_system_root,
            enable_session_resumption: self.enable_session_resumption,
            fingerprint: clone_opt_string(&self.fingerprint),
            pinned_peer_certificate_chain_sha256: clone_opt_vec_string(
                &self.pinned_peer_certificate_chain_sha256,
            ),
            curve_preferences: clone_opt_vec_string(&self.curve_preferences),
            master_key_log: clone_opt_string(&self.master_key_log),
            ech_config_list: clone_opt_string(&self.ech_config_list),
            ech_server_keys: clone_opt_string(&self.ech_server_keys),
            ech_force_query: clone_opt_string(&self.ech_force_query),
        }
    }
}

impl ExtraOutboundClientConfig {
    pub fn duplicate(&self) -> (r: ExtraOutboundClientConfig)
        ensures
            r@ == self@,
    {
        ExtraOutboundClientConfig { client_name: clone_opt_string(&self.client_name) }
    }
}

fn clone_opt_grpc(o: &Option<GRPCSettings>) -> (r: Option<GRPCSettings>)
    ensures
        (r is Some) == (o is Some),
        r matches Some(g) ==> o matches Some(x) && g@ == x@,
{
    match o {
        Some(g) => Some(g.duplicate()),
        None => None,
    }
}

fn clone_opt_reality(o: &Option<RealitySettings>) -> (r: Option<RealitySettings>)
    ensures
        (r is Some) == (o is Some),
        r matches Some(g) ==> o matches Some(x) && g@ == x@,
{
    match o {
        Some(g) => Some(g.duplicate()),
        None => None,
    }
}

fn clone_opt_tls(o: &Option<TlsSettings>) -> (r: Option<TlsSettings>)
    ensures
        (r is Some) == (o is Some),
        r matches Some(g) ==> o matches Some(x) && g@ == x@,
{
    match o {
        Some(g) => Some(g.duplicate()),
        None => None,
    }
}

impl XrayOutboundClientConfig {
    /// Normalizes one typed descriptor into the canonical outbound shape.
    pub fn new(config: &OutboundClientConfig) -> (r: XrayOutboundClientConfig)
        ensures
            r@ == spec_canonical(config@),
    {
        let servers: Option<Vec<ShadowsocksServer>> = match config {
            OutboundClientConfig::Shadowsocks(ss) => {
                let mut servers_list: Vec<ShadowsocksServer> = Vec::new();
                servers_list.push(
                    ShadowsocksServer {
                        address: ss.address.clone(),
                        port: ss.port,
                        method: ss.method.clone(),
                        password: ss.password.clone(),
                    },
                );
                proof {
                    assert(servers_list@.map_values(|x: ShadowsocksServer| x@) =~= seq![
                        ShadowsocksServerV {
                            address: ss.address@,
                            port: ss.port,
                            method: ss.method@,
                            password: ss.password@,
                        },
                    ]);
                }
                Some(servers_list)
            },
            _ => None,
        };
        let vnext: Option<Vec<VNext>> = match config {
            OutboundClientConfig::Vless(v) => {
                let mut users: Vec<User> = Vec::new();
                users.push(v.user.duplicate());
                proof {
                    assert(users@.map_values(|u: User| u@) =~= seq![v.user@]);
                }
                let mut vnext_list: Vec<VNext> = Vec::new();
                vnext_list.push(VNext { address: v.address.clone(), port: v.port, users });
                proof {
                    assert(vnext_list@.map_values(|x: VNext| x@) =~= seq![
                        VNextV { address: v.address@, port: v.port, users: seq![v.user@] },
                    ]);
                }
                Some(vnext_list)
            },
            _ => None,
        };
        let network: Option<String> = match config {
            OutboundClientConfig::Vless(v) => Some(v.transport.clone()),
            OutboundClientConfig::Shadowsocks(_) => Some(String::from_str("tcp")),
            OutboundClientConfig::Trojan(t) => clone_opt_string(&t.network),
        };
        let security: Option<String> = match config {
            OutboundClientConfig::Vless(v) => clone_opt_string(&v.security),
            OutboundClientConfig::Shadowsocks(_) => None,
            OutboundClientConfig::Trojan(t) => clone_opt_string(&t.security),
        };
        let grpc: Option<GRPCSettings> = match config {
            OutboundClientConfig::Vless(v) => clone_opt_grpc(&v.grpc),
            _ => None,
        };
        let reality: Option<RealitySettings> = match config {
            OutboundClientConfig::Vless(v) => clone_opt_reality(&v.reality),
            _ => None,
        };
        let tls: Option<TlsSettings> = match config {
            OutboundClientConfig::Vless(v) => clone_opt_tls(&v.tls),
            OutboundClientConfig::Shadowsocks(_) => None,
            OutboundClientConfig::Trojan(t) => clone_opt_tls(&t.tls),
        };
        let extra = match config {
            OutboundClientConfig::Vless(v) => v.extra.duplicate(),
            OutboundClientConfig::Shadowsocks(s) => s.extra.duplicate(),
            OutboundClientConfig::Trojan(t) => t.extra.duplicate(),
        };
        let r = XrayOutboundClientConfig {
            tag: None,
            protocol: match config {
                OutboundClientConfig::Vless(_) => String::from_str("vless"),
                OutboundClientConfig::Shadowsocks(_) => String::from_str("shadowsocks"),
                OutboundClientConfig::Trojan(_) => String::from_str("trojan"),
            },
            settings: Settings { vnext, servers },
            stream_settings: StreamSettings { network, security, grpc, reality, tls },
            mux: None,
            extra: Some(extra),
        };
        proof {
            assert(r@.settings =~= spec_canonical_settings(config@));
            assert(r@.stream_settings =~= spec_canonical_stream(config@));
            assert(r@ =~= spec_canonical(config@));
        }
        r
    }

    pub fn extra(&self) -> (r: Option<ExtraOutboundClientConfig>)
        ensures
            (r is Some) == (self.extra is Some),
            r matches Some(e) ==> self.extra matches Some(x) && e@ == x@,
    {
        match &self.extra {
            Some(e) => Some(e.duplicate()),
            None => None,
        }
    }
}

} // verus!

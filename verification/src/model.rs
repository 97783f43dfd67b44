use vstd::prelude::*;

verus! {

// ---------------------------------------------------------------------------
// Engine-facing outbound model: the canonical JSON shape all link schemes are
// normalized into.  Each executable struct has a ghost mirror (`*V`) used as
// its view in contracts.
// ---------------------------------------------------------------------------

#[derive(Debug, Clone, PartialEq)]
pub struct User {
    pub id: String,
    pub encryption: String,
    pub flow: Option<String>,
}

#[verifier::ext_equal]
pub ghost struct UserV {
    pub id: Seq<char>,
    pub encryption: Seq<char>,
    pub flow: Option<Seq<char>>,
}

impl View for User {
    type V = UserV;

    open spec fn view(&self) -> UserV {
        UserV { id: self.id@, encryption: self.encryption@, flow: self.flow.deep_view() }
    }
}

#[derive(Debug, Clone, PartialEq)]
pub struct VNext {
    pub address: String,
    pub port: u16,
    pub users: Vec<User>,
}

#[verifier::ext_equal]
pub ghost struct VNextV {
    pub address: Seq<char>,
    pub port: u16,
    pub users: Seq<UserV>,
}

impl View for VNext {
    type V = VNextV;

    open spec fn view(&self) -> VNextV {
        VNextV {
            address: self.address@,
            port: self.port,
            users: self.users@.map_values(|u: User| u@),
        }
    }
}

#[derive(Debug, Clone, PartialEq)]
pub struct ShadowsocksServer {
    pub address: String,
    pub port: u16,
    pub method: String,
    pub password: String,
}

#[verifier::ext_equal]
pub ghost struct ShadowsocksServerV {
    pub address: Seq<char>,
    pub port: u16,
    pub method: Seq<char>,
    pub password: Seq<char>,
}

impl View for ShadowsocksServer {
    type V = ShadowsocksServerV;

    open spec fn view(&self) -> ShadowsocksServerV {
        ShadowsocksServerV {
            address: self.address@,
            port: self.port,
            method: self.method@,
            password: self.password@,
        }
    }
}

#[derive(Debug, Clone, PartialEq)]
pub struct Settings {
    pub vnext: Option<Vec<VNext>>,
    pub servers: Option<Vec<ShadowsocksServer>>,
}

#[verifier::ext_equal]
pub ghost struct SettingsV {
    pub vnext: Option<Seq<VNextV>>,
    pub servers: Option<Seq<ShadowsocksServerV>>,
}

impl View for Settings {
    type V = SettingsV;

    open spec fn view(&self) -> SettingsV {
        SettingsV {
            vnext: match self.vnext {
                Some(v) => Some(v@.map_values(|x: VNext| x@)),
                None => None,
            },
            servers: match self.servers {
                Some(v) => Some(v@.map_values(|x: ShadowsocksServer| x@)),
                None => None,
            },
        }
    }
}

#[derive(Debug, Clone, PartialEq)]
pub struct GRPCSettings {
    pub service_name: Option<String>,
    pub multi_mode: bool,
    pub idle_timeout: Option<u64>,
    pub health_check_timeout: Option<u64>,
    pub permit_without_stream: Option<bool>,
    pub initial_windows_size: Option<u64>,
}

#[verifier::ext_equal]
pub ghost struct GRPCSettingsV {
    pub service_name: Option<Seq<char>>,
    pub multi_mode: bool,
    pub idle_timeout: Option<u64>,
    pub health_check_timeout: Option<u64>,
    pub permit_without_stream: Option<bool>,
    pub initial_windows_size: Option<u64>,
}

impl View for GRPCSettings {
    type V = GRPCSettingsV;

    open spec fn view(&self) -> GRPCSettingsV {
        GRPCSettingsV {
            service_name: self.service_name.deep_view(),
            multi_mode: self.multi_mode,
            idle_timeout: self.idle_timeout,
            health_check_timeout: self.health_check_timeout,
            permit_without_stream: self.permit_without_stream,
            initial_windows_size: self.initial_windows_size,
        }
    }
}

#[derive(Debug, Clone, PartialEq)]
pub struct RealitySettings {
    pub fingerprint: Option<String>,
    pub public_key: String,
    pub server_name: String,
    pub short_id: String,
    pub spider_x: Option<String>,
}

#[verifier::ext_equal]
pub ghost struct RealitySettingsV {
    pub fingerprint: Option<Seq<char>>,
    pub public_key: Seq<char>,
    pub server_name: Seq<char>,
    pub short_id: Seq<char>,
    pub spider_x: Option<Seq<char>>,
}

impl View for RealitySettings {
    type V = RealitySettingsV;

    open spec fn view(&self) -> RealitySettingsV {
        RealitySettingsV {
            fingerprint: self.fingerprint.deep_view(),
            public_key: self.public_key@,
            server_name: self.server_name@,
            short_id: self.short_id@,
            spider_x: self.spider_x.deep_view(),
        }
    }
}

#[derive(Debug, Clone, PartialEq)]
pub struct TlsSettings {
    pub server_name: Option<String>,
    pub verify_peer_cert_in_names: Option<String>,
    pub reject_unknown_sni: Option<bool>,
    pub allow_insecure: Option<bool>,
    pub alpn: Option<Vec<String>>,
    pub min_version: Option<String>,
    pub max_version: Option<String>,
    pub cipher_suites: Option<String>,
    pub certificates: Option<Vec<String>>,
    pub disable_system_root: Option<bool>,
    pub enable_session_resumption: Option<bool>,
    pub fingerprint: Option<String>,
    pub pinned_peer_certificate_chain_sha256: Option<Vec<String>>,
    pub curve_preferences: Option<Vec<String>>,
    pub master_key_log: Option<String>,
    pub ech_config_list: Option<String>,
    pub ech_server_keys: Option<String>,
    pub ech_force_query: Option<String>,
}

#[verifier::ext_equal]
pub ghost struct TlsSettingsV {
    pub server_name: Option<Seq<char>>,
    pub verify_peer_cert_in_names: Option<Seq<char>>,
    pub reject_unknown_sni: Option<bool>,
    pub allow_insecure: Option<bool>,
    pub alpn: Option<Seq<Seq<char>>>,
    pub min_version: Option<Seq<char>>,
    pub max_version: Option<Seq<char>>,
    pub cipher_suites: Option<Seq<char>>,
    pub certificates: Option<Seq<Seq<char>>>,
    pub disable_system_root: Option<bool>,
    pub enable_session_resumption: Option<bool>,
    pub fingerprint: Option<Seq<char>>,
    pub pinned_peer_certificate_chain_sha256: Option<Seq<Seq<char>>>,
    pub curve_preferences: Option<Seq<Seq<char>>>,
    pub master_key_log: Option<Seq<char>>,
    pub ech_config_list: Option<Seq<char>>,
    pub ech_server_keys: Option<Seq<char>>,
    pub ech_force_query: Option<Seq<char>>,
}

impl View for TlsSettings {
    type V = TlsSettingsV;

    open spec fn view(&self) -> TlsSettingsV {
        TlsSettingsV {
            server_name: self.server_name.deep_view(),
            verify_peer_cert_in_names: self.verify_peer_cert_in_names.deep_view(),
            reject_unknown_sni: self.reject_unknown_sni,
            allow_insecure: self.allow_insecure,
            alpn: self.alpn.deep_view(),
            min_version: self.min_version.deep_view(),
            max_version: self.max_version.deep_view(),
            cipher_suites: self.cipher_suites.deep_view(),
            certificates: self.certificates.deep_view(),
            disable_system_root: self.disable_system_root,
            enable_session_resumption: self.enable_session_resumption,
            fingerprint: self.fingerprint.deep_view(),
            pinned_peer_certificate_chain_sha256: self
                .pinned_peer_certificate_chain_sha256
                .deep_view(),
            curve_preferences: self.curve_preferences.deep_view(),
            master_key_log: self.master_key_log.deep_view(),
            ech_config_list: self.ech_config_list.deep_view(),
            ech_server_keys: self.ech_server_keys.deep_view(),
            ech_force_query: self.ech_force_query.deep_view(),
        }
    }
}

impl TlsSettings {
    /// A tls block carrying only a server name and a fingerprint, the form
    /// every link parser constructs.
    pub fn from_sni_fp(server_name: Option<String>, fingerprint: Option<String>) -> (r:
        TlsSettings)
        ensures
            r@ == (TlsSettingsV {
                server_name: server_name.deep_view(),
                fingerprint: fingerprint.deep_view(),
                ..tls_none()
            }),
    {
        TlsSettings {
            server_name,
            verify_peer_cert_in_names: None,
            reject_unknown_sni: None,
            allow_insecure: None,
            alpn: None,
            min_version: None,
            max_version: None,
            cipher_suites: None,
            certificates: None,
            disable_system_root: None,
            enable_session_resumption: None,
            fingerprint,
            pinned_peer_certificate_chain_sha256: None,
            curve_preferences: None,
            master_key_log: None,
            ech_config_list: None,
            ech_server_keys: None,
            ech_force_query: None,
        }
    }
}

/// The all-absent tls view, the base every parser-built tls block extends.
pub open spec fn tls_none() -> TlsSettingsV {
    TlsSettingsV {
        server_name: None,
        verify_peer_cert_in_names: None,
        reject_unknown_sni: None,
        allow_insecure: None,
        alpn: None,
        min_version: None,
        max_version: None,
        cipher_suites: None,
        certificates: None,
        disable_system_root: None,
        enable_session_resumption: None,
        fingerprint: None,
        pinned_peer_certificate_chain_sha256: None,
        curve_preferences: None,
        master_key_log: None,
        ech_config_list: None,
        ech_server_keys: None,
        ech_force_query: None,
    }
}

#[derive(Debug, Clone, PartialEq)]
pub struct StreamSettings {
    pub network: Option<String>,
    pub security: Option<String>,
    pub grpc: Option<GRPCSettings>,
    pub reality: Option<RealitySettings>,
    pub tls: Option<TlsSettings>,
}

#[verifier::ext_equal]
pub ghost struct StreamSettingsV {
    pub network: Option<Seq<char>>,
    pub security: Option<Seq<char>>,
    pub grpc: Option<GRPCSettingsV>,
    pub reality: Option<RealitySettingsV>,
    pub tls: Option<TlsSettingsV>,
}

impl View for StreamSettings {
    type V = StreamSettingsV;

    open spec fn view(&self) -> StreamSettingsV {
        StreamSettingsV {
            network: self.network.deep_view(),
            security: self.security.deep_view(),
            grpc: match self.grpc {
                Some(g) => Some(g@),
                None => None,
            },
            reality: match self.reality {
                Some(g) => Some(g@),
                None => None,
            },
            tls: match self.tls {
                Some(g) => Some(g@),
                None => None,
            },
        }
    }
}

#[derive(Debug, Clone, PartialEq)]
pub struct MuxSettings {
    pub enable: String,
    pub concurrency: Option<u32>,
    pub xudp_concurrency: Option<u32>,
    pub xudp_proxy_udp443: Option<String>,
}

#[verifier::ext_equal]
pub ghost struct MuxSettingsV {
    pub enable: Seq<char>,
    pub concurrency: Option<u32>,
    pub xudp_concurrency: Option<u32>,
    pub xudp_proxy_udp443: Option<Seq<char>>,
}

impl View for MuxSettings {
    type V = MuxSettingsV;

    open spec fn view(&self) -> MuxSettingsV {
        MuxSettingsV {
            enable: self.enable@,
            concurrency: self.concurrency,
            xudp_concurrency: self.xudp_concurrency,
            xudp_proxy_udp443: self.xudp_proxy_udp443.deep_view(),
        }
    }
}

/// Display metadata carried beside a descriptor, never written into the
/// engine-visible config.
#[derive(Debug, Clone, PartialEq)]
pub struct ExtraOutboundClientConfig {
    pub client_name: Option<String>,
}

#[verifier::ext_equal]
pub ghost struct ExtraOutboundClientConfigV {
    pub client_name: Option<Seq<char>>,
}

impl View for ExtraOutboundClientConfig {
    type V = ExtraOutboundClientConfigV;

    open spec fn view(&self) -> ExtraOutboundClientConfigV {
        ExtraOutboundClientConfigV { client_name: self.client_name.deep_view() }
    }
}

#[derive(Debug, Clone, PartialEq)]
pub struct XrayOutboundClientConfig {
    pub tag: Option<String>,
    pub protocol: String,
    pub settings: Settings,
    pub stream_settings: StreamSettings,
    pub mux: Option<MuxSettings>,
    pub extra: Option<ExtraOutboundClientConfig>,
}

#[verifier::ext_equal]
pub ghost struct XrayOutboundClientConfigV {
    pub tag: Option<Seq<char>>,
    pub protocol: Seq<char>,
    pub settings: SettingsV,
    pub stream_settings: StreamSettingsV,
    pub mux: Option<MuxSettingsV>,
    pub extra: Option<ExtraOutboundClientConfigV>,
}

impl View for XrayOutboundClientConfig {
    type V = XrayOutboundClientConfigV;

    open spec fn view(&self) -> XrayOutboundClientConfigV {
        XrayOutboundClientConfigV {
            tag: self.tag.deep_view(),
            protocol: self.protocol@,
            settings: self.settings@,
            stream_settings: self.stream_settings@,
            mux: match self.mux {
                Some(m) => Some(m@),
                None => None,
            },
            extra: match self.extra {
                Some(e) => Some(e@),
                None => None,
            },
        }
    }
}

// ---------------------------------------------------------------------------
// Engine inbound model, used by the connectivity-checker file.
// ---------------------------------------------------------------------------

#[derive(Debug, Clone, PartialEq)]
pub struct XrayInboundSettings {
    pub auth: String,
    pub udp: bool,
}

#[verifier::ext_equal]
pub ghost struct XrayInboundSettingsV {
    pub auth: Seq<char>,
    pub udp: bool,
}

impl View for XrayInboundSettings {
    type V = XrayInboundSettingsV;

    open spec fn view(&self) -> XrayInboundSettingsV {
        XrayInboundSettingsV { auth: self.auth@, udp: self.udp }
    }
}

#[derive(Debug, Clone, PartialEq)]
pub struct XrayInboundClientConfig {
    pub tag: String,
    pub port: u16,
    pub listen: String,
    pub protocol: String,
    pub settings: XrayInboundSettings,
}

#[verifier::ext_equal]
pub ghost struct XrayInboundClientConfigV {
    pub tag: Seq<char>,
    pub port: u16,
    pub listen: Seq<char>,
    pub protocol: Seq<char>,
    pub settings: XrayInboundSettingsV,
}

impl View for XrayInboundClientConfig {
    type V = XrayInboundClientConfigV;

    open spec fn view(&self) -> XrayInboundClientConfigV {
        XrayInboundClientConfigV {
            tag: self.tag@,
            port: self.port,
            listen: self.listen@,
            protocol: self.protocol@,
            settings: self.settings@,
        }
    }
}

} // verus!
